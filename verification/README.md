# puty_proxy

A reverse TCP proxy whose rules are verified with Verus.

A *client* publishes a service that only it can reach. It logs in at the *server* and names an
*agent* and one of the agent's ports. The agent listens on that port; for each connection that it
accepts there, agent and client each open a connection to the server, and the server joins the two.

`src/` is the verified library. It holds the tables and the decisions of the three programs and does
no input or output: each function is told what happened and says what is to be done.

- `protocol`: the packets of a control link, and the preamble that opens a data connection.
- `link`: packet numbers, and the watchdog that gives a silent link up.
- `seed`: ids that are handed out one after the other.
- `timeout`: a stream that fails when it makes no progress for too long.
- `channel`: the tokio channel through which the two sides of a connection meet.
- `server`: the server's tables (`conn`, `agents`), the handlers of its links (`agent`, `client`,
  `session`), the life of a link (`receiving`) and what holds of them (`laws`).
- `table`: the dashmap tables of the peers.
- `agent`, `client`: the two peers.
- `laws`: what holds of the server and its peers together.

`app/` holds the programs around it: sockets, timers, tasks and log files, and the packets as vnpkt
carries them on vnsvrbase links. The name under
which the executable is called (`proxy-server`, `proxy-agent` or `proxy-client`) selects the program.

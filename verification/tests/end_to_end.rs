use puty_proxy::agent::{Dialed, Effect as AgentEffect, Handler};
use puty_proxy::client::{Args, Client, DialStep, Effect as ClientEffect};
use puty_proxy::link::{Action, Handle};
use puty_proxy::protocol::{Packet, Preamble};
use puty_proxy::server::agent::AgentHandler;
use puty_proxy::server::agents::{Agents, Side};
use puty_proxy::server::client::ClientHandler;

const AGENT: Handle = Handle { link: 1 };
const CLIENT: Handle = Handle { link: 2 };

/// The packet of the action at `i`, which has to go to `to`.
fn sent(actions: &[Action], i: usize, to: Handle) -> Packet {
    match actions[i] {
        Action::Send { to: link, packet } => {
            assert_eq!(link, to);
            packet
        }
        Action::Close { .. } => panic!("a packet was expected"),
    }
}

/// Everything that takes part, with agent 10 and its client logged in.
fn proxy() -> (Agents, AgentHandler, ClientHandler, Handler, Client) {
    let args = Args {
        local: "127.0.0.1:22".to_string(),
        agentid: 10,
        port: 80,
        server: "server".to_string(),
        server_main_port: 1000,
        server_conn_port: 1001,
    };
    let mut agents = Agents::new();
    let mut agent_link = AgentHandler::new(AGENT);
    let mut client_link = ClientHandler::new(CLIENT);
    let mut agent = Handler::new(10);
    let actions = agent_link.proc(&mut agents, agent.login()).unwrap();
    agent.proc(sent(&actions, 0, AGENT)).unwrap();
    let login = args.login();
    let mut client = Client::new(CLIENT, args);
    let actions = client_link.proc(&mut agents, login).unwrap();
    client.proc(sent(&actions, 0, CLIENT)).unwrap();
    let effects = agent.proc(sent(&actions, 1, AGENT)).unwrap();
    assert_eq!(effects, vec![AgentEffect::Listen { cid: 0, port: 80 }]);
    agent.listening(0, 80, 500);
    (agents, agent_link, client_link, agent, client)
}

#[test]
fn stream_travels_end_to_end() {
    let (mut agents, mut agent_link, _, mut agent, mut client) = proxy();
    let report = match agent.accepted(0, 100)[0] {
        AgentEffect::Send(packet) => packet,
        _ => panic!("the server has to be told"),
    };
    let actions = agent_link.proc(&mut agents, report).unwrap();
    let client_side = match client.proc(sent(&actions, 0, CLIENT)).unwrap()[0] {
        ClientEffect::Dial { step: DialStep::Local { preamble }, .. } => preamble,
        _ => panic!("the client has to dial"),
    };
    let agent_side = match agent.proc(sent(&actions, 1, AGENT)).unwrap()[0] {
        AgentEffect::Dial { preamble, .. } => preamble,
        _ => panic!("the agent has to dial"),
    };
    let relay = vec![AgentEffect::Relay { cid: 0, sid: 0, stream: 100 }];
    assert_eq!(agent.dialed(0, 0, Dialed::Ready), relay);
    let rx = match agents.rendezvous(&client_side) {
        Side::Wait { sid: 0, rx } => rx,
        _ => panic!("the client has to wait"),
    };
    let sx = match agents.rendezvous(&agent_side) {
        Side::Deliver { sx } => sx,
        _ => panic!("the agent has to deliver"),
    };
    drop(rx);
    assert!(sx.is_closed());
    agents.joined(10, 0, 0);
    assert!(agents.agents[&10].clients[&0].conns.is_empty());
}

#[test]
fn agent_failure_reaches_the_client() {
    let (mut agents, mut agent_link, _, mut agent, mut client) = proxy();
    agent.accepted(0, 100);
    let build = Packet::RspAgentBuild { agent_id: 10, id: 0, sid: 0, ok: true };
    agent_link.proc(&mut agents, build).unwrap();
    client.relaying(0, 700);
    let news = match agent.dialed(0, 0, Dialed::Unreachable)[..] {
        [AgentEffect::Shutdown(100), AgentEffect::Send(packet)] => packet,
        _ => panic!("the stream has to be shut down and the server told"),
    };
    let actions = agent_link.proc(&mut agents, news).unwrap();
    let effects = client.proc(sent(&actions, 0, CLIENT)).unwrap();
    assert_eq!(effects, vec![ClientEffect::Abort(700)]);
    assert!(matches!(agents.rendezvous(&Preamble::new(10, 0, 0, true)), Side::Refuse));
}

#[test]
fn client_failure_reaches_the_agent() {
    let (mut agents, _, mut client_link, mut agent, client) = proxy();
    agent.accepted(0, 100);
    let step = DialStep::Local { preamble: Preamble::new(10, 0, 0, true) };
    let news = match client.dialed(0, 0, step, false) {
        ClientEffect::Send(packet) => packet,
        _ => panic!("the server has to be told"),
    };
    let actions = client_link.proc(&mut agents, news).unwrap();
    assert_eq!(actions[0], Action::Close { to: CLIENT });
    let effects = agent.proc(sent(&actions, 1, AGENT)).unwrap();
    assert_eq!(effects, vec![AgentEffect::Discard(100), AgentEffect::Abort(500)]);
}

//! How a link to the server turns into an agent's or a client's, and stays so.

use vstd::prelude::*;
use crate::link::{check_registered, in_packet_range, packet_id, Action, Handle, InvalidData};
use crate::protocol::Packet;
use crate::server::agent::{answers, logs_out, AgentHandler};
use crate::server::agents::{agents_wf, Agents};
use crate::server::client::ClientHandler;
use crate::server::conn::AgentModel;

verus! {

/// A control link whose first packet number was read, with the one handler that serves it.
#[derive(Clone, Copy, PartialEq, Eq, Structural, Debug)]
pub enum Session {
    Client(ClientHandler),
    Agent(AgentHandler),
}

impl Session {
    /// The session that a first packet number opens, if it is the number of some packet: clients'
    /// packets are numbered below the boundary, agents' packets from it on.
    pub open spec fn opened(pid: u64, boundary: u32, handle: Handle) -> Result<
        Session,
        InvalidData,
    > {
        if !in_packet_range(pid) {
            Err(InvalidData)
        } else if pid < boundary {
            Ok(Session::Client(ClientHandler { handle, id: None, aid: None }))
        } else {
            Ok(Session::Agent(AgentHandler { handle, id: None }))
        }
    }

    /// The link that the session serves.
    pub open spec fn link(self) -> Handle {
        match self {
            Session::Client(client) => client.handle,
            Session::Agent(agent) => agent.handle,
        }
    }

    /// Whether a packet number is processed, given in which registries it is: only the registry of
    /// the session's own role counts.
    pub open spec fn knows(self, pid: u64, in_client: bool, in_agent: bool) -> bool {
        in_packet_range(pid) && match self {
            Session::Client(_) => in_client,
            Session::Agent(_) => in_agent,
        }
    }

    /// What the server does on a packet.
    pub open spec fn reply(self, agents: Map<u32, AgentModel>, packet: Packet) -> Result<
        Seq<Action>,
        InvalidData,
    > {
        match self {
            Session::Client(client) => client.reply(agents, packet),
            Session::Agent(agent) => agent.reply(agents, packet),
        }
    }

    /// The session after a packet.
    pub open spec fn next(self, agents: Map<u32, AgentModel>, packet: Packet) -> Session {
        match self {
            Session::Client(client) => Session::Client(client.next(agents, packet)),
            Session::Agent(agent) => Session::Agent(agent.next(agents, packet)),
        }
    }

    /// How the tables change on a packet.
    pub open spec fn updates(
        self,
        pre: Map<u32, AgentModel>,
        post: Map<u32, AgentModel>,
        packet: Packet,
    ) -> bool {
        match self {
            Session::Client(client) => post == client.updated(pre, packet),
            Session::Agent(agent) => agent.updates(pre, post, packet),
        }
    }

    /// What the end of the session's link comes to.
    pub open spec fn leaves(
        self,
        pre: Map<u32, AgentModel>,
        post: Map<u32, AgentModel>,
        actions: Seq<Action>,
    ) -> bool {
        match self {
            Session::Client(client) => actions == client.farewell(pre) && post
                == client.without_me(pre),
            Session::Agent(agent) => logs_out(agent, pre, post, actions),
        }
    }

    /// The session after a run of packets, each with the tables that it met.
    pub open spec fn after(self, run: Seq<(Map<u32, AgentModel>, Packet)>) -> Session
        decreases run.len(),
    {
        if run.len() == 0 {
            self
        } else {
            self.after(run.drop_last()).next(run.last().0, run.last().1)
        }
    }

    /// Decides by the first packet number who is on a link. A number that is none ends the link.
    pub fn open(pid: u64, boundary: u32, handle: Handle) -> (r: Result<Session, InvalidData>)
        ensures
            r == Session::opened(pid, boundary, handle),
    {
        match packet_id(pid) {
            Err(e) => Err(e),
            Ok(id) => if id < boundary {
                Ok(Session::Client(ClientHandler::new(handle)))
            } else {
                Ok(Session::Agent(AgentHandler::new(handle)))
            },
        }
    }

    /// Looks a packet number up for the session. `in_client` and `in_agent` say whether it is
    /// registered for clients and for agents; a number of the other role alone ends the link.
    pub fn lookup(&self, pid: u64, in_client: bool, in_agent: bool) -> (r: Result<
        u32,
        InvalidData,
    >)
        ensures
            self.knows(pid, in_client, in_agent) ==> r == Ok::<u32, InvalidData>(pid as u32),
            !self.knows(pid, in_client, in_agent) ==> r == Err::<u32, InvalidData>(InvalidData),
    {
        match self {
            Session::Client(_) => check_registered(pid, in_client),
            Session::Agent(_) => check_registered(pid, in_agent),
        }
    }

    /// Processes a packet with the handler of the session's role.
    pub fn proc(&mut self, agents: &mut Agents, packet: Packet) -> (r: Result<
        Vec<Action>,
        InvalidData,
    >)
        ensures
            answers(r, old(self).reply(old(agents)@, packet)),
            *final(self) == old(self).next(old(agents)@, packet),
            old(self).updates(old(agents)@, final(agents)@, packet),
            agents_wf(old(agents)@) ==> agents_wf(final(agents)@),
    {
        match self {
            Session::Client(client) => client.proc(agents, packet),
            Session::Agent(agent) => agent.proc(agents, packet),
        }
    }

    /// The link is gone: its handler takes leave.
    pub fn disconnect(&self, agents: &mut Agents) -> (r: Vec<Action>)
        ensures
            *self matches Session::Client(client) ==> r@ == client.farewell(old(agents)@)
                && final(agents)@ == client.without_me(old(agents)@),
            *self matches Session::Agent(agent) ==> logs_out(
                agent,
                old(agents)@,
                final(agents)@,
                r@,
            ),
            self.leaves(old(agents)@, final(agents)@, r@),
            agents_wf(old(agents)@) ==> agents_wf(final(agents)@),
    {
        match self {
            Session::Client(client) => client.disconnect(agents),
            Session::Agent(agent) => agent.disconnect(agents),
        }
    }
}

/// The role of a link is fixed by its first packet number. Whatever packets follow, the link keeps
/// its role: it knows the numbers of that role's registry alone, so a number that is registered for
/// the other role only ends it, and it answers no packet that only the other role may send.
pub proof fn law_role_is_fixed(
    first: u64,
    boundary: u32,
    handle: Handle,
    run: Seq<(Map<u32, AgentModel>, Packet)>,
    agents: Map<u32, AgentModel>,
    packet: Packet,
    pid: u64,
    in_client: bool,
    in_agent: bool,
)
    requires
        in_packet_range(first),
    ensures
        ({
            let session = Session::opened(first, boundary, handle)->Ok_0.after(run);
            &&& session.link() == handle
            &&& first < boundary ==> {
                &&& session is Client
                &&& session.knows(pid, in_client, in_agent) <==> in_packet_range(pid) && in_client
                &&& session.reply(agents, packet) is Ok <==> ClientHandler::accepts(packet)
                &&& AgentHandler::accepts(packet) ==> session.reply(agents, packet) is Err
            }
            &&& first >= boundary ==> {
                &&& session is Agent
                &&& session.knows(pid, in_client, in_agent) <==> in_packet_range(pid) && in_agent
                &&& session.reply(agents, packet) is Ok ==> AgentHandler::accepts(packet)
                &&& ClientHandler::accepts(packet) ==> session.reply(agents, packet) is Err
            }
        }),
    decreases run.len(),
{
    if run.len() > 0 {
        law_role_is_fixed(
            first,
            boundary,
            handle,
            run.drop_last(),
            agents,
            packet,
            pid,
            in_client,
            in_agent,
        );
    }
}

/// A first number that 32 bits hold opens a session: a client's below the boundary, an agent's from
/// it on, on the link that it came on and with nobody logged in. A wider number opens none.
pub proof fn law_first_number_opens_the_session(pid: u64, boundary: u32, handle: Handle)
    ensures
        ({
            let opened = Session::opened(pid, boundary, handle);
            &&& opened is Ok <==> pid < 0x1_0000_0000
            &&& opened is Ok ==> opened->Ok_0.link() == handle
            &&& pid < 0x1_0000_0000 && pid < boundary ==> {
                &&& opened->Ok_0 matches Session::Client(client)
                &&& client.handle == handle
                &&& client.id is None
                &&& client.aid is None
            }
            &&& pid < 0x1_0000_0000 && pid >= boundary ==> {
                &&& opened->Ok_0 matches Session::Agent(agent)
                &&& agent.handle == handle
                &&& agent.id is None
            }
        }),
{
}

/// A session is served by the handler of its own role, on that handler's link: what the handler
/// answers, what becomes of it and of the tables is what becomes of the session. It knows the
/// numbers of its own role's registry that 32 bits hold, and no other.
pub proof fn law_session_is_served_by_its_handler(
    client: ClientHandler,
    agent: AgentHandler,
    agents: Map<u32, AgentModel>,
    post: Map<u32, AgentModel>,
    packet: Packet,
    pid: u64,
    in_client: bool,
    in_agent: bool,
)
    ensures
        Session::Client(client).link() == client.handle,
        Session::Agent(agent).link() == agent.handle,
        Session::Client(client).knows(pid, in_client, in_agent) <==> pid < 0x1_0000_0000
            && in_client,
        Session::Agent(agent).knows(pid, in_client, in_agent) <==> pid < 0x1_0000_0000 && in_agent,
        Session::Client(client).reply(agents, packet) == client.reply(agents, packet),
        Session::Agent(agent).reply(agents, packet) == agent.reply(agents, packet),
        Session::Client(client).next(agents, packet) == Session::Client(
            client.next(agents, packet),
        ),
        Session::Agent(agent).next(agents, packet) == Session::Agent(agent.next(agents, packet)),
        Session::Client(client).updates(agents, post, packet) <==> post == client.updated(
            agents,
            packet,
        ),
        Session::Agent(agent).updates(agents, post, packet) <==> agent.updates(
            agents,
            post,
            packet,
        ),
{
}

} // verus!

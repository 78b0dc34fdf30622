//! The server's end of a control link from its first packet number to its end.
//!
//! The server reads a number, looks it up, reads the packet, processes it, and starts over, until
//! something goes wrong.

use vstd::prelude::*;
use crate::link::{Action, Handle, InvalidData};
use crate::protocol::Packet;
use crate::server::agent::{logs_out, AgentHandler};
use crate::server::agents::{agents_wf, Agents};
use crate::server::client::ClientHandler;
use crate::server::conn::AgentModel;
use crate::server::session::Session;

verus! {

/// What happens on a link. `E` is what a read fails with.
pub enum ServerEvent<E> {
    /// A packet number was read; it is registered for clients, for agents, for both or for none.
    Number { pid: u64, in_client: bool, in_agent: bool },
    /// The packet that belongs to the number was read.
    Body { packet: Packet },
    /// A number or a packet could not be read.
    Failed { error: E },
}

/// Why a link ends: a read failed, or what was read is not allowed.
pub enum LinkEnd<E> {
    Read(E),
    Invalid(InvalidData),
}

/// What the server does next.
pub enum ServerStep<E> {
    /// Read the packet with this number.
    ReadBody(u32),
    /// Perform the actions, then read the next number.
    Perform(Vec<Action>),
    /// The link ends.
    End(LinkEnd<E>),
    /// Nothing: the link does not wait for this event.
    Ignore,
}

/// A step as contracts speak of it.
pub enum StepModel<E> {
    ReadBody(u32),
    Perform(Seq<Action>),
    End(LinkEnd<E>),
    Ignore,
}

impl<E> View for ServerStep<E> {
    type V = StepModel<E>;

    open spec fn view(&self) -> StepModel<E> {
        match *self {
            ServerStep::ReadBody(id) => StepModel::ReadBody(id),
            ServerStep::Perform(actions) => StepModel::Perform(actions@),
            ServerStep::End(end) => StepModel::End(end),
            ServerStep::Ignore => StepModel::Ignore,
        }
    }
}

/// Where the server is with a link.
#[derive(Clone, Copy, PartialEq, Eq, Structural, Debug)]
pub enum ServerLink {
    /// The first number is to be read.
    Opening { handle: Handle, boundary: u32 },
    /// The next number is to be read.
    Waiting { session: Session },
    /// The packet with a number is to be read.
    Reading { session: Session, id: u32 },
    /// The link has ended; it may have ended before its role was known.
    Over { session: Option<Session> },
}

/// The events of a link, each with the tables that it met.
pub type Run<E> = Seq<(Map<u32, AgentModel>, ServerEvent<E>)>;

/// The packets that were read, in the order in which they were read.
pub open spec fn packets_read<E>(run: Run<E>) -> Seq<Packet>
    decreases run.len(),
{
    if run.len() == 0 {
        seq![]
    } else {
        match run.last().1 {
            ServerEvent::Body { packet } => packets_read(run.drop_last()).push(packet),
            _ => packets_read(run.drop_last()),
        }
    }
}

impl ServerLink {
    /// The session that serves the link, once its role is known.
    pub open spec fn session(self) -> Option<Session> {
        match self {
            ServerLink::Opening { .. } => None,
            ServerLink::Waiting { session } => Some(session),
            ServerLink::Reading { session, .. } => Some(session),
            ServerLink::Over { session } => session,
        }
    }

    /// Whether the link waits for an event: a number and a packet come in turn, a failed read may
    /// come in place of either, and a link that has ended waits for nothing.
    pub open spec fn awaits<E>(self, event: ServerEvent<E>) -> bool {
        match self {
            ServerLink::Opening { .. } => !(event is Body),
            ServerLink::Waiting { .. } => !(event is Body),
            ServerLink::Reading { .. } => !(event is Number),
            ServerLink::Over { .. } => false,
        }
    }

    /// The session that an event leaves the link with. The first number opens it; a packet moves it
    /// on.
    pub open spec fn session_after<E>(
        self,
        agents: Map<u32, AgentModel>,
        event: ServerEvent<E>,
    ) -> Option<Session> {
        match (self, event) {
            (
                ServerLink::Opening { handle, boundary },
                ServerEvent::Number { pid, .. },
            ) => match Session::opened(pid, boundary, handle) {
                Ok(session) => Some(session),
                Err(_) => None,
            },
            (ServerLink::Reading { session, .. }, ServerEvent::Body { packet }) => Some(
                session.next(agents, packet),
            ),
            _ => self.session(),
        }
    }

    /// What is wrong with an event that the link waits for: a read that failed, a number that the
    /// role of the link does not know, or a packet that its handler refuses.
    pub open spec fn error<E>(
        self,
        agents: Map<u32, AgentModel>,
        event: ServerEvent<E>,
    ) -> Option<LinkEnd<E>> {
        match event {
            ServerEvent::Failed { error } => Some(LinkEnd::Read(error)),
            ServerEvent::Number { pid, in_client, in_agent } => match self.session_after(
                agents,
                event,
            ) {
                Some(session) => if session.knows(pid, in_client, in_agent) {
                    None
                } else {
                    Some(LinkEnd::Invalid(InvalidData))
                },
                None => Some(LinkEnd::Invalid(InvalidData)),
            },
            ServerEvent::Body { packet } => match self.session() {
                Some(session) => if session.reply(agents, packet) is Ok {
                    None
                } else {
                    Some(LinkEnd::Invalid(InvalidData))
                },
                None => None,
            },
        }
    }

    /// What the server does on an event. The first error ends the link.
    pub open spec fn reply<E>(
        self,
        agents: Map<u32, AgentModel>,
        event: ServerEvent<E>,
    ) -> StepModel<E> {
        if !self.awaits(event) {
            StepModel::Ignore
        } else {
            match (self.error(agents, event), event) {
                (Some(end), _) => StepModel::End(end),
                (None, ServerEvent::Body { packet }) => StepModel::Perform(
                    self.session()->0.reply(agents, packet)->Ok_0,
                ),
                (None, ServerEvent::Number { pid, .. }) => StepModel::ReadBody(pid as u32),
                (None, ServerEvent::Failed { .. }) => StepModel::Ignore,
            }
        }
    }

    /// The link after an event.
    pub open spec fn next<E>(
        self,
        agents: Map<u32, AgentModel>,
        event: ServerEvent<E>,
    ) -> ServerLink {
        let session = self.session_after(agents, event);
        if !self.awaits(event) {
            self
        } else if self.error(agents, event) is Some {
            ServerLink::Over { session }
        } else {
            match event {
                ServerEvent::Number { pid, .. } => ServerLink::Reading {
                    session: session->0,
                    id: pid as u32,
                },
                _ => ServerLink::Waiting { session: session->0 },
            }
        }
    }

    /// How the tables change on an event: only a packet that the link waits for changes them.
    pub open spec fn updates<E>(
        self,
        pre: Map<u32, AgentModel>,
        post: Map<u32, AgentModel>,
        event: ServerEvent<E>,
    ) -> bool {
        match (self, event) {
            (
                ServerLink::Reading { session, .. },
                ServerEvent::Body { packet },
            ) => session.updates(pre, post, packet),
            _ => post == pre,
        }
    }

    /// What it comes to that the link is gone.
    pub open spec fn leaves(
        self,
        pre: Map<u32, AgentModel>,
        post: Map<u32, AgentModel>,
        actions: Seq<Action>,
    ) -> bool {
        match self.session() {
            Some(session) => session.leaves(pre, post, actions),
            None => actions == Seq::<Action>::empty() && post == pre,
        }
    }

    /// The link after a run of events.
    pub open spec fn after<E>(self, run: Run<E>) -> ServerLink
        decreases run.len(),
    {
        if run.len() == 0 {
            self
        } else {
            self.after(run.drop_last()).next(run.last().0, run.last().1)
        }
    }

    /// What the server did on an event of a run.
    pub open spec fn reply_at<E>(self, run: Run<E>, i: int) -> StepModel<E> {
        self.after(run.take(i)).reply(run[i].0, run[i].1)
    }

    /// Whether a run came as the link asked for it and without an error.
    pub open spec fn runs_clean<E>(self, run: Run<E>) -> bool
        decreases run.len(),
    {
        run.len() > 0 ==> {
            let before = self.after(run.drop_last());
            &&& self.runs_clean(run.drop_last())
            &&& before.awaits(run.last().1)
            &&& before.error(run.last().0, run.last().1) is None
        }
    }

    /// The packets that were handed to the handler of the link, in their order.
    pub open spec fn processed<E>(self, run: Run<E>) -> Seq<Packet>
        decreases run.len(),
    {
        if run.len() == 0 {
            seq![]
        } else {
            let before = self.processed(run.drop_last());
            match (self.after(run.drop_last()), run.last().1) {
                (ServerLink::Reading { .. }, ServerEvent::Body { packet }) => before.push(packet),
                _ => before,
            }
        }
    }

    /// A link on which nothing was read. Packets are agents' from the number `boundary` on.
    pub fn new(handle: Handle, boundary: u32) -> (r: ServerLink)
        ensures
            r == (ServerLink::Opening { handle, boundary }),
    {
        ServerLink::Opening { handle, boundary }
    }

    /// Takes an event into account and says what to do.
    pub fn step<E>(&mut self, agents: &mut Agents, event: ServerEvent<E>) -> (r: ServerStep<E>)
        ensures
            r@ == old(self).reply(old(agents)@, event),
            *final(self) == old(self).next(old(agents)@, event),
            old(self).updates(old(agents)@, final(agents)@, event),
            agents_wf(old(agents)@) ==> agents_wf(final(agents)@),
    {
        match (*self, event) {
            (ServerLink::Over { .. }, _) => ServerStep::Ignore,
            (link, ServerEvent::Failed { error }) => {
                *self = ServerLink::Over { session: link.current() };
                ServerStep::End(LinkEnd::Read(error))
            },
            (
                ServerLink::Opening { handle, boundary },
                ServerEvent::Number { pid, in_client, in_agent },
            ) => match Session::open(pid, boundary, handle) {
                Ok(session) => self.number(session, pid, in_client, in_agent),
                Err(e) => {
                    *self = ServerLink::Over { session: None };
                    ServerStep::End(LinkEnd::Invalid(e))
                },
            },
            (
                ServerLink::Waiting { session },
                ServerEvent::Number { pid, in_client, in_agent },
            ) => self.number(session, pid, in_client, in_agent),
            (ServerLink::Reading { session, .. }, ServerEvent::Body { packet }) => {
                let mut session = session;
                match session.proc(agents, packet) {
                    Ok(actions) => {
                        *self = ServerLink::Waiting { session };
                        ServerStep::Perform(actions)
                    },
                    Err(e) => {
                        *self = ServerLink::Over { session: Some(session) };
                        ServerStep::End(LinkEnd::Invalid(e))
                    },
                }
            },
            _ => ServerStep::Ignore,
        }
    }

    /// Looks a number up for a session.
    fn number<E>(&mut self, session: Session, pid: u64, in_client: bool, in_agent: bool) -> (r:
        ServerStep<E>)
        ensures
            session.knows(pid, in_client, in_agent) ==> {
                &&& r == ServerStep::<E>::ReadBody(pid as u32)
                &&& *final(self) == (ServerLink::Reading { session, id: pid as u32 })
            },
            !session.knows(pid, in_client, in_agent) ==> {
                &&& r == ServerStep::<E>::End(LinkEnd::Invalid(InvalidData))
                &&& *final(self) == (ServerLink::Over { session: Some(session) })
            },
    {
        match session.lookup(pid, in_client, in_agent) {
            Ok(id) => {
                *self = ServerLink::Reading { session, id };
                ServerStep::ReadBody(id)
            },
            Err(e) => {
                *self = ServerLink::Over { session: Some(session) };
                ServerStep::End(LinkEnd::Invalid(e))
            },
        }
    }

    /// The session that serves the link, once its role is known.
    pub fn current(&self) -> (r: Option<Session>)
        ensures
            r == self.session(),
    {
        match *self {
            ServerLink::Opening { .. } => None,
            ServerLink::Waiting { session } => Some(session),
            ServerLink::Reading { session, .. } => Some(session),
            ServerLink::Over { session } => session,
        }
    }

    /// The link is gone: its session takes leave. A link whose role was never known leaves nothing.
    pub fn disconnect(&self, agents: &mut Agents) -> (r: Vec<Action>)
        ensures
            self.session() is None ==> r@ == Seq::<Action>::empty() && final(agents)@
                == old(agents)@,
            self.session() matches Some(Session::Client(client)) ==> r@ == client.farewell(
                old(agents)@,
            ) && final(agents)@ == client.without_me(old(agents)@),
            self.session() matches Some(Session::Agent(agent)) ==> logs_out(
                agent,
                old(agents)@,
                final(agents)@,
                r@,
            ),
            self.leaves(old(agents)@, final(agents)@, r@),
            agents_wf(old(agents)@) ==> agents_wf(final(agents)@),
    {
        match self.current() {
            Some(session) => session.disconnect(agents),
            None => Vec::new(),
        }
    }
}

/// As long as there is no error the link goes on: it has not ended, the packets that were read were
/// handed to its handler, each once and in the order in which they were read, and every event was
/// answered by reading a packet or by performing what the handler asks for.
pub proof fn law_link_goes_on_without_error<E>(start: ServerLink, run: Run<E>, i: int)
    requires
        !(start is Over),
        start.runs_clean(run),
    ensures
        !(start.after(run) is Over),
        start.processed(run) == packets_read(run),
        0 <= i < run.len() ==> match run[i].1 {
            ServerEvent::Number { pid, .. } => start.reply_at(run, i) == StepModel::<E>::ReadBody(
                pid as u32,
            ),
            ServerEvent::Body { packet } => start.reply_at(run, i) == StepModel::<E>::Perform(
                start.after(run.take(i)).session()->0.reply(run[i].0, packet)->Ok_0,
            ),
            ServerEvent::Failed { .. } => false,
        },
    decreases run.len(),
{
    if run.len() > 0 {
        let before = run.drop_last();
        law_link_goes_on_without_error(start, before, i);
        if 0 <= i < before.len() {
            assert(before.take(i) =~= run.take(i));
        }
        assert(run.take(run.len() - 1) =~= before);
    }
}

/// A link that has ended stays as it is: later events are ignored, reach no handler and change no
/// table.
pub proof fn law_nothing_after_the_end<E>(
    link: ServerLink,
    rest: Run<E>,
    agents: Map<u32, AgentModel>,
    post: Map<u32, AgentModel>,
    event: ServerEvent<E>,
)
    requires
        link is Over,
    ensures
        link.after(rest) == link,
        link.processed(rest) == Seq::<Packet>::empty(),
        link.reply(agents, event) == StepModel::<E>::Ignore,
        link.updates(agents, post, event) ==> post == agents,
    decreases rest.len(),
{
    if rest.len() > 0 {
        law_nothing_after_the_end(link, rest.drop_last(), agents, post, event);
    }
}

/// The link ends with the first error that it meets, and with that error unchanged: a failed read, a
/// number that it does not know, or a packet that is refused. Every packet read until then was
/// handed to the handler, once and in order, and whatever comes after is not.
pub proof fn law_link_ends_with_first_error<E>(
    start: ServerLink,
    before: Run<E>,
    agents: Map<u32, AgentModel>,
    event: ServerEvent<E>,
    rest: Run<E>,
)
    requires
        !(start is Over),
        start.runs_clean(before),
        start.after(before).awaits(event),
        start.after(before).error(agents, event) is Some,
    ensures
        ({
            let link = start.after(before);
            let until = before.push((agents, event));
            &&& link.reply(agents, event) == StepModel::End(link.error(agents, event)->0)
            &&& event matches ServerEvent::Failed { error } ==> link.reply(agents, event)
                == StepModel::End(LinkEnd::Read(error))
            &&& !(event is Failed) ==> link.reply(agents, event) == StepModel::<E>::End(
                LinkEnd::Invalid(InvalidData),
            )
            &&& start.after(until) is Over
            &&& start.after(until + rest) == start.after(until)
            &&& start.processed(until + rest) == packets_read(until)
        }),
    decreases rest.len(),
{
    let until = before.push((agents, event));
    assert(until.drop_last() =~= before);
    law_link_goes_on_without_error(start, before, 0);
    if rest.len() == 0 {
        assert(until + rest =~= until);
    } else {
        law_link_ends_with_first_error(start, before, agents, event, rest.drop_last());
        assert((until + rest).drop_last() =~= until + rest.drop_last());
    }
}

/// A link never ends well: if it has ended, some event of its run was answered with the error that
/// ended it, and before that event the link had not ended.
pub proof fn law_link_ends_only_with_error<E>(start: ServerLink, run: Run<E>) -> (n: int)
    requires
        !(start is Over),
        start.after(run) is Over,
    ensures
        0 <= n < run.len(),
        start.reply_at(run, n) is End,
        !(start.after(run.take(n)) is Over),
        start.after(run.take(n + 1)) is Over,
    decreases run.len(),
{
    let before = run.drop_last();
    assert(run.take(run.len() - 1) =~= before);
    assert(run.take(run.len() as int) =~= run);
    if start.after(before) is Over {
        let n = law_link_ends_only_with_error(start, before);
        assert(before.take(n) =~= run.take(n));
        assert(before.take(n + 1) =~= run.take(n + 1));
        n
    } else {
        run.len() - 1
    }
}

/// The role of a link never changes: once its first number has opened a session, the session is of
/// the same role and on the same link after any events.
pub proof fn law_link_keeps_its_role<E>(start: ServerLink, run: Run<E>)
    requires
        start.session() is Some,
    ensures
        start.after(run).session() is Some,
        start.after(run).session()->0 is Client <==> start.session()->0 is Client,
        start.after(run).session()->0.link() == start.session()->0.link(),
    decreases run.len(),
{
    if run.len() > 0 {
        law_link_keeps_its_role(start, run.drop_last());
    }
}

/// A link that waits for a number goes on exactly if 32 bits hold the number and it is registered
/// for the link's role: then the packet with that number is read next, for the same session. This
/// holds of clients' and agents' links alike, and however many packets came before. Any other number
/// ends the link. Neither changes the tables.
pub proof fn law_known_number_is_read<E>(
    session: Session,
    agents: Map<u32, AgentModel>,
    post: Map<u32, AgentModel>,
    pid: u64,
    in_client: bool,
    in_agent: bool,
)
    requires
        (ServerLink::Waiting { session }).updates(
            agents,
            post,
            ServerEvent::<E>::Number { pid, in_client, in_agent },
        ),
    ensures
        ({
            let link = ServerLink::Waiting { session };
            let number = ServerEvent::<E>::Number { pid, in_client, in_agent };
            let known = pid < 0x1_0000_0000 && if session is Client {
                in_client
            } else {
                in_agent
            };
            &&& known ==> {
                &&& link.reply(agents, number) == StepModel::<E>::ReadBody(pid as u32)
                &&& link.next(agents, number) == (ServerLink::Reading { session, id: pid as u32 })
            }
            &&& !known ==> {
                &&& link.reply(agents, number) == StepModel::<E>::End(
                    LinkEnd::Invalid(InvalidData),
                )
                &&& link.next(agents, number) == (ServerLink::Over { session: Some(session) })
            }
            &&& post == agents
        }),
{
}

/// The first number of a link opens its session and is looked up for it. If 32 bits hold it and it
/// is registered for the role that it opened, the packet is read next; any other number ends the
/// link. Neither changes the tables.
pub proof fn law_first_number_is_read<E>(
    handle: Handle,
    boundary: u32,
    agents: Map<u32, AgentModel>,
    post: Map<u32, AgentModel>,
    pid: u64,
    in_client: bool,
    in_agent: bool,
)
    requires
        (ServerLink::Opening { handle, boundary }).updates(
            agents,
            post,
            ServerEvent::<E>::Number { pid, in_client, in_agent },
        ),
    ensures
        ({
            let link = ServerLink::Opening { handle, boundary };
            let number = ServerEvent::<E>::Number { pid, in_client, in_agent };
            let session = if pid < boundary {
                Session::Client(ClientHandler { handle, id: None, aid: None })
            } else {
                Session::Agent(AgentHandler { handle, id: None })
            };
            let registered = if pid < boundary {
                in_client
            } else {
                in_agent
            };
            &&& pid >= 0x1_0000_0000 ==> {
                &&& link.reply(agents, number) == StepModel::<E>::End(
                    LinkEnd::Invalid(InvalidData),
                )
                &&& link.next(agents, number) == (ServerLink::Over { session: None })
            }
            &&& pid < 0x1_0000_0000 && registered ==> {
                &&& link.reply(agents, number) == StepModel::<E>::ReadBody(pid as u32)
                &&& link.next(agents, number) == (ServerLink::Reading { session, id: pid as u32 })
            }
            &&& pid < 0x1_0000_0000 && !registered ==> {
                &&& link.reply(agents, number) == StepModel::<E>::End(
                    LinkEnd::Invalid(InvalidData),
                )
                &&& link.next(agents, number) == (ServerLink::Over { session: Some(session) })
            }
            &&& post == agents
        }),
{
}

/// A packet that is read is processed by the session's handler, once. If the handler answers, the
/// server performs just that and waits for the next number; if it refuses, the link ends. Session
/// and tables are what the handler makes of them.
pub proof fn law_read_packet_is_processed<E>(
    session: Session,
    id: u32,
    agents: Map<u32, AgentModel>,
    post: Map<u32, AgentModel>,
    packet: Packet,
)
    ensures
        ({
            let link = ServerLink::Reading { session, id };
            let body = ServerEvent::<E>::Body { packet };
            let moved = match session {
                Session::Client(client) => Session::Client(client.next(agents, packet)),
                Session::Agent(agent) => Session::Agent(agent.next(agents, packet)),
            };
            let answer = match session {
                Session::Client(client) => client.reply(agents, packet),
                Session::Agent(agent) => agent.reply(agents, packet),
            };
            &&& answer matches Ok(actions) ==> {
                &&& link.reply(agents, body) == StepModel::<E>::Perform(actions)
                &&& link.next(agents, body) == (ServerLink::Waiting { session: moved })
            }
            &&& answer is Err ==> {
                &&& link.reply(agents, body) == StepModel::<E>::End(LinkEnd::Invalid(InvalidData))
                &&& link.next(agents, body) == (ServerLink::Over { session: Some(moved) })
            }
            &&& link.updates(agents, post, body) <==> match session {
                Session::Client(client) => post == client.updated(agents, packet),
                Session::Agent(agent) => agent.updates(agents, post, packet),
            }
        }),
{
}

/// A read that fails ends a link that has not ended, with the error that the read failed with,
/// wherever the link is. The link keeps the session that it had, and the tables do not change.
pub proof fn law_failed_read_ends_the_link<E>(
    link: ServerLink,
    agents: Map<u32, AgentModel>,
    post: Map<u32, AgentModel>,
    error: E,
)
    requires
        !(link is Over),
        link.updates(agents, post, ServerEvent::Failed { error }),
    ensures
        ({
            let failed = ServerEvent::Failed { error };
            let session = match link {
                ServerLink::Opening { .. } => None,
                ServerLink::Waiting { session } => Some(session),
                ServerLink::Reading { session, .. } => Some(session),
                ServerLink::Over { session } => session,
            };
            &&& link.reply(agents, failed) == StepModel::End(LinkEnd::Read(error))
            &&& link.next(agents, failed) == (ServerLink::Over { session })
            &&& link.session() == session
            &&& post == agents
        }),
{
}

/// A number is for a link that waits for one, a packet for a link that reads one; a link that has
/// ended is done. Anything else that comes is ignored and changes nothing.
pub proof fn law_untimely_event_is_ignored<E>(
    link: ServerLink,
    agents: Map<u32, AgentModel>,
    post: Map<u32, AgentModel>,
    event: ServerEvent<E>,
)
    requires
        link.updates(agents, post, event),
    ensures
        ({
            let untimely = link is Over || (link is Reading && event is Number) || (!(link
                is Reading) && event is Body);
            &&& link.awaits(event) <==> !untimely
            &&& link.reply(agents, event) is Ignore <==> untimely
            &&& untimely ==> link.next(agents, event) == link && post == agents
        }),
{
}

/// A step is to contracts what it is: the same number, actions or end.
pub proof fn law_step_is_what_contracts_say<E>(step: ServerStep<E>)
    ensures
        step matches ServerStep::ReadBody(id) ==> step@ == StepModel::<E>::ReadBody(id),
        step matches ServerStep::Perform(actions) ==> step@ == StepModel::<E>::Perform(actions@),
        step matches ServerStep::End(end) ==> step@ == StepModel::<E>::End(end),
        step is Ignore ==> step@ == StepModel::<E>::Ignore,
{
}

/// Whether a packet keeps to the protocol: its side may send it, and an agent answers only for an
/// agent that is logged in.
pub open spec fn in_protocol(client: bool, agents: Map<u32, AgentModel>, packet: Packet) -> bool {
    match packet {
        Packet::ReqClientLogin { .. } => client,
        Packet::PacketHbClient { .. } => client,
        Packet::RspNewConnFailedClient { .. } => client,
        Packet::ReqAgentLogin { .. } => !client,
        Packet::PacketHbAgent { .. } => !client,
        Packet::PacketInfoConnectFailed { .. } => !client,
        Packet::RspAgentBuild { agent_id, .. } => !client && agents.contains_key(agent_id),
        _ => false,
    }
}

/// The events of rounds: a number that is registered for the role, then the packet. A round has the
/// number, the tables that it met, and the packet.
pub open spec fn in_rounds<E>(
    client: bool,
    rounds: Seq<(u64, Map<u32, AgentModel>, Packet)>,
) -> Run<E>
    decreases rounds.len(),
{
    if rounds.len() == 0 {
        seq![]
    } else {
        let (pid, agents, packet) = rounds.last();
        in_rounds::<E>(client, rounds.drop_last()).push(
            (agents, ServerEvent::Number { pid, in_client: client, in_agent: !client }),
        ).push((agents, ServerEvent::Body { packet }))
    }
}

/// A link goes on for as long as its peer keeps to the protocol. From a link that waits, after any
/// number of rounds of a number that is known to its role and a packet that keeps to the protocol,
/// the link waits in that role, and the next number that is known to it is read.
pub proof fn law_link_goes_on_round_after_round<E>(
    session: Session,
    rounds: Seq<(u64, Map<u32, AgentModel>, Packet)>,
    agents: Map<u32, AgentModel>,
    pid: u64,
)
    requires
        forall|i: int|
            0 <= i < rounds.len() ==> (#[trigger] rounds[i]).0 < 0x1_0000_0000 && in_protocol(
                session is Client,
                rounds[i].1,
                rounds[i].2,
            ),
        pid < 0x1_0000_0000,
    ensures
        ({
            let start = ServerLink::Waiting { session };
            let link = start.after(in_rounds::<E>(session is Client, rounds));
            let number = ServerEvent::<E>::Number {
                pid,
                in_client: session is Client,
                in_agent: session is Agent,
            };
            &&& link matches ServerLink::Waiting { session: now }
            &&& now is Client <==> session is Client
            &&& link.reply(agents, number) == StepModel::<E>::ReadBody(pid as u32)
        }),
    decreases rounds.len(),
{
    if rounds.len() > 0 {
        let start = ServerLink::Waiting { session };
        let before = rounds.drop_last();
        assert forall|i: int| 0 <= i < before.len() implies (#[trigger] before[i]).0 < 0x1_0000_0000
            && in_protocol(session is Client, before[i].1, before[i].2) by {
            assert(before[i] == rounds[i]);
        }
        law_link_goes_on_round_after_round::<E>(session, before, agents, pid);
        let (number, tables, packet) = rounds.last();
        assert(rounds[rounds.len() - 1] == rounds.last());
        let client = session is Client;
        let run = in_rounds::<E>(client, rounds);
        assert(run.drop_last().drop_last() =~= in_rounds::<E>(client, before));
        reveal_with_fuel(ServerLink::after, 3);
    }
}

/// Wherever a link is when it is gone, and whatever ended it, its handler takes leave as the handler
/// of its role does. A link that was gone before its role was known leaves nothing behind.
pub proof fn law_link_takes_leave_in_its_role(
    link: ServerLink,
    agents: Map<u32, AgentModel>,
    post: Map<u32, AgentModel>,
    actions: Seq<Action>,
)
    requires
        link.leaves(agents, post, actions),
    ensures
        ({
            let session = match link {
                ServerLink::Opening { .. } => None,
                ServerLink::Waiting { session } => Some(session),
                ServerLink::Reading { session, .. } => Some(session),
                ServerLink::Over { session } => session,
            };
            &&& session is None ==> actions.len() == 0 && post == agents
            &&& session matches Some(Session::Client(client)) ==> {
                &&& actions == client.farewell(agents)
                &&& post == client.without_me(agents)
            }
            &&& session matches Some(Session::Agent(agent)) ==> logs_out(
                agent,
                agents,
                post,
                actions,
            )
        }),
{
}

} // verus!

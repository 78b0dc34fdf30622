//! The client: it publishes a local service, and opens a connection to the service for each that
//! the agent accepts.
//!
//! Tasks are numbered by the program that runs them.

use dashmap::DashMap;
use vstd::prelude::*;
use crate::link::{Handle, InvalidData};
use crate::protocol::{composed, Packet, Preamble};
use crate::table::{lookup, slots, slots_insert, slots_new, slots_remove};

verus! {

/// What the client was started with: the service, the agent and port to publish it on, and where
/// the server is.
pub struct Args {
    pub local: String,
    pub agentid: u32,
    pub port: u16,
    pub server: String,
    pub server_main_port: u16,
    pub server_conn_port: u16,
}

impl Args {
    /// The packet with which a client with these arguments logs in.
    pub open spec fn greeting(self) -> Packet {
        Packet::ReqClientLogin { id: self.agentid, port: self.port }
    }

    /// The packet with which the client logs in.
    pub fn login(&self) -> (r: Packet)
        ensures
            r == (Packet::ReqClientLogin { id: self.agentid, port: self.port }),
            r == self.greeting(),
    {
        Packet::ReqClientLogin { id: self.agentid, port: self.port }
    }
}

/// Something that the client is to do.
#[derive(Clone, Copy, PartialEq, Eq, Structural, Debug)]
pub enum Effect {
    /// Send the packet to the server.
    Send(Packet),
    /// Close the link to the server.
    Close,
    /// Leave the program with a failure.
    Exit,
    /// From now on send the packet to the server at every heartbeat, the first time at once.
    Heartbeat(Packet),
    /// Take the step, and report with `dialed` how it went.
    Dial { id: u32, sid: u32, step: DialStep },
    /// Start a task that relays between the service and the server, and file it with `relaying`.
    Relay { sid: u32 },
    /// Stop the task.
    Abort(u64),
    /// Let the task run on unattended.
    Detach(u64),
}

/// A step in opening the client's side of a connection.
#[derive(Clone, Copy, PartialEq, Eq, Structural, Debug)]
pub enum DialStep {
    /// Connect to the service.
    Local { preamble: Preamble },
    /// Connect to the server's connection port.
    Remote { preamble: Preamble },
    /// Send the preamble on that connection.
    Greet { preamble: Preamble },
}

/// The client's link, what it was started with, the id that it got, and the tasks of its relays by
/// connection.
pub struct Client {
    handle: Handle,
    args: Args,
    id: Option<u32>,
    locals: DashMap<u32, u64>,
}

/// The client as contracts speak of it.
pub struct ClientModel {
    pub handle: Handle,
    pub args: Args,
    pub id: Option<u32>,
    pub locals: Map<u32, u64>,
}

impl ClientModel {
    /// The packets that the server may send to a client.
    pub open spec fn accepts(packet: Packet) -> bool {
        ||| packet is PacketHbClient
        ||| packet is RspClientLoginFailed
        ||| packet is ReqNewConnectionClient
        ||| packet is RspServiceNotFound
        ||| packet is PacketInfoConnectFailed
        ||| packet is RspClientLoginOk
    }

    /// Whether a packet about an agent and a client is about this client.
    pub open spec fn is_mine(self, agent_id: u32, cid: u32) -> bool {
        self.args.agentid == agent_id && self.id == Some(cid)
    }

    /// What the client does on a packet that it accepts.
    pub open spec fn reply(self, packet: Packet) -> Seq<Effect> {
        match packet {
            Packet::RspClientLoginFailed => seq![Effect::Close, Effect::Exit],
            Packet::RspServiceNotFound => seq![Effect::Close, Effect::Exit],
            Packet::RspClientLoginOk { agent_id, id } => if self.args.agentid == agent_id {
                seq![Effect::Heartbeat(Packet::PacketHbClient { id })]
            } else {
                seq![Effect::Close, Effect::Exit]
            },
            Packet::ReqNewConnectionClient { agent_id, id, sid } => seq![
                Effect::Dial {
                    id,
                    sid,
                    step: DialStep::Local {
                        preamble: Preamble { agent_id, id, data: composed(sid, true) },
                    },
                },
            ],
            Packet::PacketInfoConnectFailed { agent_id, cid, sid } => if self.is_mine(
                agent_id,
                cid,
            ) && self.locals.contains_key(sid) {
                seq![Effect::Abort(self.locals[sid])]
            } else {
                seq![]
            },
            _ => seq![],
        }
    }

    /// The client after a packet.
    pub open spec fn next(self, packet: Packet) -> ClientModel {
        match packet {
            Packet::RspClientLoginOk { agent_id, id } => if self.args.agentid == agent_id {
                ClientModel { id: Some(id), ..self }
            } else {
                self
            },
            Packet::PacketInfoConnectFailed { agent_id, cid, sid } => if self.is_mine(
                agent_id,
                cid,
            ) {
                ClientModel { locals: self.locals.remove(sid), ..self }
            } else {
                self
            },
            _ => self,
        }
    }

    /// The client with the task of a relay.
    pub open spec fn with_relay(self, sid: u32, task: u64) -> ClientModel {
        ClientModel { locals: self.locals.insert(sid, task), ..self }
    }

    /// What the client does when the task of a relay is filed.
    pub open spec fn after_relay(self, sid: u32) -> Seq<Effect> {
        match lookup(self.locals, sid) {
            Some(replaced) => seq![Effect::Detach(replaced)],
            None => seq![],
        }
    }

    /// What the client does when a step in opening its side of a connection is done. Only if all
    /// steps went well is the connection relayed; else the server hears that it failed.
    pub open spec fn after_dial(self, id: u32, sid: u32, step: DialStep, ok: bool) -> Effect {
        if !ok {
            Effect::Send(Packet::RspNewConnFailedClient { agent_id: self.args.agentid, id, sid })
        } else {
            match step {
                DialStep::Local { preamble } => Effect::Dial {
                    id,
                    sid,
                    step: DialStep::Remote { preamble },
                },
                DialStep::Remote { preamble } => Effect::Dial {
                    id,
                    sid,
                    step: DialStep::Greet { preamble },
                },
                DialStep::Greet { .. } => Effect::Relay { sid },
            }
        }
    }
}

impl View for Client {
    type V = ClientModel;

    closed spec fn view(&self) -> ClientModel {
        ClientModel {
            handle: self.handle,
            args: self.args,
            id: self.id,
            locals: slots(self.locals),
        }
    }
}

impl Client {
    /// A client that is not logged in and relays nothing.
    pub fn new(handle: Handle, args: Args) -> (r: Client)
        ensures
            r@ == (ClientModel { handle, args, id: None, locals: Map::empty() }),
    {
        Client { handle, args, id: None, locals: slots_new() }
    }

    /// The client's link to the server.
    pub fn handle(&self) -> (r: Handle)
        ensures
            r == self@.handle,
    {
        self.handle
    }

    /// What the client was started with.
    pub fn args(&self) -> (r: &Args)
        ensures
            *r == self@.args,
    {
        &self.args
    }

    /// Processes a packet from the server.
    pub fn proc(&mut self, packet: Packet) -> (r: Result<Vec<Effect>, InvalidData>)
        ensures
            r is Ok <==> ClientModel::accepts(packet),
            r matches Ok(effects) ==> effects@ == old(self)@.reply(packet),
            final(self)@ == old(self)@.next(packet),
    {
        match packet {
            Packet::PacketHbClient { .. } => Ok(Vec::new()),
            Packet::RspClientLoginFailed => Ok(vec![Effect::Close, Effect::Exit]),
            Packet::RspServiceNotFound => Ok(vec![Effect::Close, Effect::Exit]),
            Packet::RspClientLoginOk { agent_id, id } => if self.args.agentid == agent_id {
                self.id = Some(id);
                Ok(vec![Effect::Heartbeat(Packet::PacketHbClient { id })])
            } else {
                Ok(vec![Effect::Close, Effect::Exit])
            },
            Packet::ReqNewConnectionClient { agent_id, id, sid } => Ok(
                vec![
                    Effect::Dial {
                        id,
                        sid,
                        step: DialStep::Local { preamble: Preamble::new(agent_id, id, sid, true) },
                    },
                ],
            ),
            Packet::PacketInfoConnectFailed { agent_id, cid, sid } => {
                let mut effects: Vec<Effect> = Vec::new();
                let mine = agent_id == self.args.agentid && match self.id {
                    Some(id) => id == cid,
                    None => false,
                };
                if mine {
                    if let Some(task) = slots_remove(&mut self.locals, sid) {
                        effects.push(Effect::Abort(task));
                    }
                }
                Ok(effects)
            },
            _ => Err(InvalidData),
        }
    }

    /// A step in opening the client's side of connection `sid` is done.
    pub fn dialed(&self, id: u32, sid: u32, step: DialStep, ok: bool) -> (r: Effect)
        ensures
            r == self@.after_dial(id, sid, step, ok),
    {
        if !ok {
            return Effect::Send(
                Packet::RspNewConnFailedClient { agent_id: self.args.agentid, id, sid },
            );
        }
        match step {
            DialStep::Local { preamble } => Effect::Dial {
                id,
                sid,
                step: DialStep::Remote { preamble },
            },
            DialStep::Remote { preamble } => Effect::Dial {
                id,
                sid,
                step: DialStep::Greet { preamble },
            },
            DialStep::Greet { .. } => Effect::Relay { sid },
        }
    }

    /// Files the task of a relay. One that was filed for the connection before is let go of.
    pub fn relaying(&mut self, sid: u32, task: u64) -> (r: Vec<Effect>)
        ensures
            final(self)@ == (ClientModel {
                locals: old(self)@.locals.insert(sid, task),
                ..old(self)@
            }),
            r@ == (match lookup(old(self)@.locals, sid) {
                Some(replaced) => seq![Effect::Detach(replaced)],
                None => seq![],
            }),
            final(self)@ == old(self)@.with_relay(sid, task),
            r@ == old(self)@.after_relay(sid),
    {
        match slots_insert(&mut self.locals, sid, task) {
            Some(replaced) => vec![Effect::Detach(replaced)],
            None => Vec::new(),
        }
    }
}

/// The client leaves when its login failed or there is no such agent, in every state: whether or not
/// it has heard before that it is logged in, and whatever it relays.
pub proof fn law_refused_client_leaves(client: ClientModel)
    ensures
        client.reply(Packet::RspClientLoginFailed) == seq![Effect::Close, Effect::Exit],
        client.reply(Packet::RspServiceNotFound) == seq![Effect::Close, Effect::Exit],
        client.next(Packet::RspClientLoginFailed) == client,
        client.next(Packet::RspServiceNotFound) == client,
{
}

/// A login at the client's own agent gives the client its id, and heartbeats with that id. A login
/// at another agent makes it leave, and gives it nothing.
pub proof fn law_login_gives_the_client_its_id(client: ClientModel, agent_id: u32, id: u32)
    ensures
        ({
            let answer = Packet::RspClientLoginOk { agent_id, id };
            let after = client.next(answer);
            &&& client.args.agentid == agent_id ==> {
                &&& client.reply(answer) == seq![Effect::Heartbeat(Packet::PacketHbClient { id })]
                &&& after.id == Some(id)
            }
            &&& client.args.agentid != agent_id ==> {
                &&& client.reply(answer) == seq![Effect::Close, Effect::Exit]
                &&& after.id == client.id
            }
            &&& after.handle == client.handle
            &&& after.args == client.args
            &&& after.locals == client.locals
        }),
{
}

/// Asked for a connection, the client connects to its service first, then to the server, then sends
/// the preamble of the client's side for the agent, client and connection that it was asked for, and
/// then relays. The preamble and the ids stay the same from step to step. If any step fails, the
/// server hears that this connection of this client at the client's agent failed.
pub proof fn law_client_opens_its_side(
    client: ClientModel,
    agent_id: u32,
    id: u32,
    sid: u32,
    other: Preamble,
)
    ensures
        ({
            let asked = Packet::ReqNewConnectionClient { agent_id, id, sid };
            let preamble = Preamble { agent_id, id, data: (0x2_0000_0000 + sid) as u64 };
            let failed = Effect::Send(
                Packet::RspNewConnFailedClient { agent_id: client.args.agentid, id, sid },
            );
            &&& client.reply(asked) == seq![
                Effect::Dial { id, sid, step: DialStep::Local { preamble } },
            ]
            &&& client.next(asked) == client
            &&& client.after_dial(id, sid, DialStep::Local { preamble: other }, true) == (
            Effect::Dial { id, sid, step: DialStep::Remote { preamble: other } })
            &&& client.after_dial(id, sid, DialStep::Remote { preamble: other }, true) == (
            Effect::Dial { id, sid, step: DialStep::Greet { preamble: other } })
            &&& client.after_dial(id, sid, DialStep::Greet { preamble: other }, true) == (
            Effect::Relay { sid })
            &&& client.after_dial(id, sid, DialStep::Local { preamble: other }, false) == failed
            &&& client.after_dial(id, sid, DialStep::Remote { preamble: other }, false) == failed
            &&& client.after_dial(id, sid, DialStep::Greet { preamble: other }, false) == failed
        }),
{
}

/// News that a connection failed stop the relay of that very connection if they are about this
/// client at its agent, and it relays the connection; news about anybody else do nothing. No other
/// relay is touched.
pub proof fn law_failed_connection_stops_its_relay(
    client: ClientModel,
    agent_id: u32,
    cid: u32,
    sid: u32,
    other: u32,
)
    ensures
        ({
            let news = Packet::PacketInfoConnectFailed { agent_id, cid, sid };
            let mine = client.args.agentid == agent_id && client.id == Some(cid);
            let after = client.next(news);
            &&& client.is_mine(agent_id, cid) <==> mine
            &&& mine && client.locals.contains_key(sid) ==> client.reply(news) == seq![
                Effect::Abort(client.locals[sid]),
            ]
            &&& !(mine && client.locals.contains_key(sid)) ==> client.reply(news).len() == 0
            &&& after.handle == client.handle
            &&& after.args == client.args
            &&& after.id == client.id
            &&& after.locals.contains_key(other) <==> client.locals.contains_key(other) && !(mine
                && other == sid)
            &&& after.locals.contains_key(other) ==> after.locals[other] == client.locals[other]
        }),
{
}

/// A client takes the packets that are for clients and no others. A heartbeat that comes back does
/// nothing, and no other packet changes the client.
pub proof fn law_packets_for_a_client(client: ClientModel, packet: Packet)
    ensures
        ClientModel::accepts(packet) <==> match packet {
            Packet::PacketHbClient { .. } => true,
            Packet::RspClientLoginOk { .. } => true,
            Packet::RspClientLoginFailed => true,
            Packet::RspServiceNotFound => true,
            Packet::ReqNewConnectionClient { .. } => true,
            Packet::PacketInfoConnectFailed { .. } => true,
            _ => false,
        },
        packet is PacketHbClient ==> client.reply(packet).len() == 0,
        !(packet is RspClientLoginOk || packet is PacketInfoConnectFailed) ==> client.next(packet)
            == client,
{
}

/// A relay that was filed is the one that is stopped when its connection failed, and from then on it
/// is no longer filed. Filing it lets go of the one that was filed for the connection before, if any,
/// and changes nothing else.
pub proof fn law_filed_relay_is_stopped(
    client: ClientModel,
    cid: u32,
    sid: u32,
    task: u64,
    other: u32,
)
    requires
        client.id == Some(cid),
    ensures
        ({
            let filed = client.with_relay(sid, task);
            let news = Packet::PacketInfoConnectFailed {
                agent_id: client.args.agentid,
                cid,
                sid,
            };
            &&& filed.handle == client.handle
            &&& filed.args == client.args
            &&& filed.id == client.id
            &&& filed.locals.contains_key(sid)
            &&& filed.locals[sid] == task
            &&& other != sid ==> {
                &&& filed.locals.contains_key(other) == client.locals.contains_key(other)
                &&& filed.locals[other] == client.locals[other]
            }
            &&& client.locals.contains_key(sid) ==> client.after_relay(sid) == seq![
                Effect::Detach(client.locals[sid]),
            ]
            &&& !client.locals.contains_key(sid) ==> client.after_relay(sid).len() == 0
            &&& filed.reply(news) == seq![Effect::Abort(task)]
            &&& filed.next(news).reply(news).len() == 0
        }),
{
}

/// A client asks for its own agent and for the port that it is to be published on.
pub proof fn law_client_asks_for_its_agent_and_port(args: Args)
    ensures
        args.greeting() matches Packet::ReqClientLogin { id, port } && id == args.agentid && port
            == args.port,
{
}

} // verus!

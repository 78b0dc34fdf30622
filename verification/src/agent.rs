//! The agent: it listens on the ports that clients publish on, and carries what it accepts there
//! to the server.
//!
//! Streams and tasks are numbered by the program that runs them.

use dashmap::DashMap;
use vstd::prelude::*;
use crate::link::InvalidData;
use crate::protocol::{composed, Packet, Preamble};
use crate::seed::{next_id, next_seed};
use crate::table::{
    groups, groups_insert, groups_new, groups_remove, law_list_holds_each_entry_once,
    lists_entries, lookup, ports, ports_insert, ports_new, ports_remove, slots_insert,
    slots_into_entries, slots_new, slots_remove, Proxy,
};

verus! {

/// Something that the agent is to do.
#[derive(Clone, Copy, PartialEq, Eq, Structural, Debug)]
pub enum Effect {
    /// Send the packet to the server.
    Send(Packet),
    /// Close the link to the server.
    Close,
    /// Leave the program with a failure.
    Exit,
    /// From now on send the packet to the server at every heartbeat, the first time at once.
    Heartbeat(Packet),
    /// Start a task that listens on the port for the client, and file it with `listening`.
    Listen { cid: u32, port: u16 },
    /// Connect to the server's connection port, send the preamble, and report with `dialed`.
    Dial { cid: u32, sid: u32, preamble: Preamble },
    /// Start a task that relays between the stream and the connection to the server, and file it
    /// with `relaying`.
    Relay { cid: u32, sid: u32, stream: u64 },
    /// Shut the stream down.
    Shutdown(u64),
    /// Drop the stream.
    Discard(u64),
    /// Stop the task.
    Abort(u64),
    /// Let the task run on unattended.
    Detach(u64),
}

/// How an attempt to open the agent's side of a connection ended.
#[derive(Clone, Copy, PartialEq, Eq, Structural, Debug)]
pub enum Dialed {
    /// The server's connection port could not be reached.
    Unreachable,
    /// The connection broke before the preamble was sent.
    Broken,
    /// The preamble was sent.
    Ready,
}

/// A listening port as contracts speak of it.
pub struct ProxyModel {
    pub port: u16,
    pub listener: u64,
    pub relays: Seq<(u32, u64)>,
}

impl View for Proxy {
    type V = ProxyModel;

    open spec fn view(&self) -> ProxyModel {
        ProxyModel { port: self.port, listener: self.listener, relays: self.relays@ }
    }
}

/// The agent's id, the id of the next connection, the streams that wait for the server by client
/// and connection, and the listening ports by client.
pub struct Handler {
    id: u32,
    seed: u32,
    conns: DashMap<u32, DashMap<u32, u64>>,
    proxies: DashMap<u32, Proxy>,
}

/// The agent as contracts speak of it.
pub struct HandlerModel {
    pub id: u32,
    pub seed: u32,
    pub conns: Map<u32, Map<u32, u64>>,
    pub proxies: Map<u32, ProxyModel>,
}

impl HandlerModel {
    /// The streams that wait for a client.
    pub open spec fn waiting(self, cid: u32) -> Map<u32, u64> {
        if self.conns.contains_key(cid) {
            self.conns[cid]
        } else {
            Map::empty()
        }
    }

    /// The stream that waits under a connection id of a client.
    pub open spec fn stream(self, cid: u32, sid: u32) -> Option<u64> {
        lookup(self.waiting(cid), sid)
    }

    /// The agent with a stream waiting.
    pub open spec fn with_stream(self, cid: u32, sid: u32, stream: u64) -> HandlerModel {
        HandlerModel {
            conns: self.conns.insert(cid, self.waiting(cid).insert(sid, stream)),
            ..self
        }
    }

    /// The agent with a stream waiting under the next connection id.
    pub open spec fn with_next_stream(self, cid: u32, stream: u64) -> HandlerModel {
        HandlerModel {
            seed: next_seed(self.seed),
            ..self.with_stream(cid, self.seed, stream)
        }
    }

    /// The agent without a stream.
    pub open spec fn without_stream(self, cid: u32, sid: u32) -> HandlerModel {
        if self.conns.contains_key(cid) {
            HandlerModel { conns: self.conns.insert(cid, self.conns[cid].remove(sid)), ..self }
        } else {
            self
        }
    }

    /// The packet with which the agent logs in.
    pub open spec fn greeting(self) -> Packet {
        Packet::ReqAgentLogin { id: self.id }
    }

    /// The agent with a task that listens on a port for a client.
    pub open spec fn with_listener(self, cid: u32, port: u16, task: u64) -> HandlerModel {
        HandlerModel {
            proxies: self.proxies.insert(
                cid,
                ProxyModel { port, listener: task, relays: Seq::empty() },
            ),
            ..self
        }
    }

    /// The agent with a relay filed with a listening port that it has.
    pub open spec fn with_relay(self, cid: u32, sid: u32, task: u64) -> HandlerModel {
        let proxy = self.proxies[cid];
        HandlerModel {
            proxies: self.proxies.insert(
                cid,
                ProxyModel { relays: proxy.relays.push((sid, task)), ..proxy },
            ),
            ..self
        }
    }

    /// The agent without anything of a client.
    pub open spec fn without_client(self, cid: u32) -> HandlerModel {
        HandlerModel {
            conns: self.conns.remove(cid),
            proxies: self.proxies.remove(cid),
            ..self
        }
    }

    /// The packets that the server may send to an agent.
    pub open spec fn accepts(packet: Packet) -> bool {
        ||| packet is PacketHbAgent
        ||| packet is RspAgentLoginOk
        ||| packet is RspAgentLoginFailed
        ||| packet is ReqAgentBuild
        ||| packet is RspClientNotFound
        ||| packet is ReqNewConnectionAgent
        ||| packet is PacketInfoClientClosed
    }

    /// The client that a packet says is gone.
    pub open spec fn gone(packet: Packet) -> Option<u32> {
        match packet {
            Packet::RspClientNotFound { id } => Some(id),
            Packet::PacketInfoClientClosed { id } => Some(id),
            _ => None,
        }
    }

    /// What the agent does on a packet that it accepts and that does not say that a client is gone.
    pub open spec fn reply(self, packet: Packet) -> Seq<Effect> {
        match packet {
            Packet::RspAgentLoginOk => seq![
                Effect::Heartbeat(Packet::PacketHbAgent { id: self.id }),
            ],
            Packet::RspAgentLoginFailed => seq![Effect::Close, Effect::Exit],
            Packet::ReqAgentBuild { port, id } => seq![Effect::Listen { cid: id, port }],
            Packet::ReqNewConnectionAgent { id, sid } => seq![
                Effect::Dial {
                    cid: id,
                    sid,
                    preamble: Preamble { agent_id: self.id, id, data: composed(sid, false) },
                },
            ],
            _ => seq![],
        }
    }

    /// The agent after a packet: it has nothing left of a client that is gone.
    pub open spec fn next(self, packet: Packet) -> HandlerModel {
        match HandlerModel::gone(packet) {
            Some(cid) => self.without_client(cid),
            None => self,
        }
    }

    /// The agent after it has tried to open its side of a connection: the stream that waited there
    /// is taken, unless the connection broke.
    pub open spec fn next_dial(self, cid: u32, sid: u32, outcome: Dialed) -> HandlerModel {
        match outcome {
            Dialed::Broken => self,
            _ => self.without_stream(cid, sid),
        }
    }

    /// What the agent does with the task of a relay that it started for a client.
    pub open spec fn after_relay(self, cid: u32, task: u64) -> Seq<Effect> {
        if self.proxies.contains_key(cid) {
            seq![]
        } else {
            seq![Effect::Detach(task)]
        }
    }

    /// What the agent does when it cannot listen for a client.
    pub open spec fn bind_report(self, cid: u32) -> Effect {
        Effect::Send(Packet::RspAgentBuild { agent_id: self.id, id: cid, sid: 0, ok: false })
    }

    /// What the agent does when it has accepted a stream for a client.
    pub open spec fn after_accept(self, cid: u32) -> Seq<Effect> {
        let report = Effect::Send(
            Packet::RspAgentBuild { agent_id: self.id, id: cid, sid: self.seed, ok: true },
        );
        match self.stream(cid, self.seed) {
            Some(replaced) => seq![Effect::Discard(replaced), report],
            None => seq![report],
        }
    }

    /// What the agent does when it has tried to open its side of a connection.
    pub open spec fn after_dial(self, cid: u32, sid: u32, outcome: Dialed) -> Seq<Effect> {
        let failed = Packet::PacketInfoConnectFailed { agent_id: self.id, cid, sid };
        match (outcome, self.stream(cid, sid)) {
            (Dialed::Broken, _) => seq![],
            (Dialed::Ready, Some(stream)) => seq![Effect::Relay { cid, sid, stream }],
            (Dialed::Ready, None) => seq![],
            (Dialed::Unreachable, Some(stream)) => seq![
                Effect::Shutdown(stream),
                Effect::Send(failed),
            ],
            (Dialed::Unreachable, None) => seq![Effect::Send(failed)],
        }
    }
}

/// The effects that discard the streams of entries, in their order.
pub open spec fn discards(entries: Seq<(u32, u64)>) -> Seq<Effect> {
    entries.map_values(|entry: (u32, u64)| Effect::Discard(entry.1))
}

/// The effects that stop what runs for a listening port: the listener, then the relays in the order
/// in which they were filed.
pub open spec fn aborts(proxy: Option<ProxyModel>) -> Seq<Effect> {
    match proxy {
        Some(p) => seq![Effect::Abort(p.listener)] + p.relays.map_values(
            |relay: (u32, u64)| Effect::Abort(relay.1),
        ),
        None => seq![],
    }
}

/// The effects that let go of what runs for a listening port.
pub open spec fn detaches(proxy: Option<ProxyModel>) -> Seq<Effect> {
    match proxy {
        Some(p) => seq![Effect::Detach(p.listener)] + p.relays.map_values(
            |relay: (u32, u64)| Effect::Detach(relay.1),
        ),
        None => seq![],
    }
}

/// Whether the effects drop everything of a client: its waiting streams, each once and in some
/// order, then the tasks of its listening port.
pub open spec fn clears(agent: HandlerModel, cid: u32, effects: Seq<Effect>) -> bool {
    exists|entries: Seq<(u32, u64)>|
        lists_entries(entries, agent.waiting(cid)) && effects == #[trigger] discards(entries)
            + aborts(lookup(agent.proxies, cid))
}

impl View for Handler {
    type V = HandlerModel;

    closed spec fn view(&self) -> HandlerModel {
        HandlerModel {
            id: self.id,
            seed: self.seed,
            conns: groups(self.conns),
            proxies: ports(self.proxies).map_values(|p: Proxy| p@),
        }
    }
}

impl Handler {
    /// An agent with an id, without streams or ports.
    pub fn new(id: u32) -> (r: Handler)
        ensures
            r@ == (HandlerModel { id, seed: 0, conns: Map::empty(), proxies: Map::empty() }),
    {
        let r = Handler { id, seed: 0, conns: groups_new(), proxies: ports_new() };
        assert(r@.proxies =~= Map::empty());
        r
    }

    /// The packet with which the agent logs in.
    pub fn login(&self) -> (r: Packet)
        ensures
            r == (Packet::ReqAgentLogin { id: self@.id }),
            r == self@.greeting(),
    {
        Packet::ReqAgentLogin { id: self.id }
    }

    /// Processes a packet from the server.
    pub fn proc(&mut self, packet: Packet) -> (r: Result<Vec<Effect>, InvalidData>)
        ensures
            r is Ok <==> HandlerModel::accepts(packet),
            r matches Ok(effects) ==> match HandlerModel::gone(packet) {
                Some(cid) => {
                    &&& clears(old(self)@, cid, effects@)
                    &&& final(self)@ == old(self)@.without_client(cid)
                },
                None => {
                    &&& effects@ == old(self)@.reply(packet)
                    &&& final(self)@ == old(self)@
                },
            },
            r is Err ==> final(self)@ == old(self)@,
            final(self)@ == old(self)@.next(packet),
    {
        match packet {
            Packet::PacketHbAgent { .. } => Ok(Vec::new()),
            Packet::RspAgentLoginOk => Ok(
                vec![Effect::Heartbeat(Packet::PacketHbAgent { id: self.id })],
            ),
            Packet::RspAgentLoginFailed => Ok(vec![Effect::Close, Effect::Exit]),
            Packet::ReqAgentBuild { port, id } => Ok(vec![Effect::Listen { cid: id, port }]),
            Packet::ReqNewConnectionAgent { id, sid } => Ok(
                vec![
                    Effect::Dial {
                        cid: id,
                        sid,
                        preamble: Preamble::new(self.id, id, sid, false),
                    },
                ],
            ),
            Packet::RspClientNotFound { id } => Ok(self.clear(id)),
            Packet::PacketInfoClientClosed { id } => Ok(self.clear(id)),
            _ => Err(InvalidData),
        }
    }

    /// Files the task that listens on a port for a client. What was filed for the client before is
    /// let go of.
    pub fn listening(&mut self, cid: u32, port: u16, task: u64) -> (r: Vec<Effect>)
        ensures
            final(self)@ == (HandlerModel {
                proxies: old(self)@.proxies.insert(
                    cid,
                    ProxyModel { port, listener: task, relays: Seq::empty() },
                ),
                ..old(self)@
            }),
            final(self)@ == old(self)@.with_listener(cid, port, task),
            r@ == detaches(lookup(old(self)@.proxies, cid)),
    {
        let proxy = Proxy { port, listener: task, relays: Vec::new() };
        let replaced = ports_insert(&mut self.proxies, cid, proxy);
        assert(self@.proxies =~= old(self)@.proxies.insert(
            cid,
            ProxyModel { port, listener: task, relays: Seq::empty() },
        ));
        let mut effects: Vec<Effect> = Vec::new();
        if let Some(p) = replaced {
            effects.push(Effect::Detach(p.listener));
            let mut i: usize = 0;
            while i < p.relays.len()
                invariant
                    i <= p.relays.len(),
                    effects@ == seq![Effect::Detach(p.listener)] + p.relays@.take(
                        i as int,
                    ).map_values(|relay: (u32, u64)| Effect::Detach(relay.1)),
                decreases p.relays.len() - i,
            {
                effects.push(Effect::Detach(p.relays[i].1));
                i += 1;
            }
            assert(p.relays@.take(i as int) =~= p.relays@);
        }
        effects
    }

    /// The port could not be listened on for a client.
    pub fn bind_failed(&self, cid: u32) -> (r: Effect)
        ensures
            r == Effect::Send(
                Packet::RspAgentBuild { agent_id: self@.id, id: cid, sid: 0, ok: false },
            ),
            r == self@.bind_report(cid),
    {
        Effect::Send(Packet::RspAgentBuild { agent_id: self.id, id: cid, sid: 0, ok: false })
    }

    /// A stream was accepted for a client: it waits under the next connection id, and the server is
    /// told. A stream that waited under the id is dropped.
    pub fn accepted(&mut self, cid: u32, stream: u64) -> (r: Vec<Effect>)
        ensures
            final(self)@ == old(self)@.with_next_stream(cid, stream),
            r@ == (match old(self)@.stream(cid, old(self)@.seed) {
                Some(replaced) => seq![Effect::Discard(replaced)],
                None => seq![],
            }) + seq![
                Effect::Send(
                    Packet::RspAgentBuild {
                        agent_id: old(self)@.id,
                        id: cid,
                        sid: old(self)@.seed,
                        ok: true,
                    },
                ),
            ],
            r@ == old(self)@.after_accept(cid),
    {
        let sid: u32 = next_id(&mut self.seed);
        let mut effects: Vec<Effect> = Vec::new();
        match groups_remove(&mut self.conns, cid) {
            Some(mut group) => {
                if let Some(replaced) = slots_insert(&mut group, sid, stream) {
                    effects.push(Effect::Discard(replaced));
                }
                groups_insert(&mut self.conns, cid, group);
            },
            None => {
                let mut group = slots_new();
                slots_insert(&mut group, sid, stream);
                groups_insert(&mut self.conns, cid, group);
            },
        }
        assert(self@.conns =~= old(self)@.with_stream(cid, sid, stream).conns);
        effects.push(
            Effect::Send(Packet::RspAgentBuild { agent_id: self.id, id: cid, sid, ok: true }),
        );
        effects
    }

    /// Takes the stream that waits under a connection id of a client.
    fn take_stream(&mut self, cid: u32, sid: u32) -> (r: Option<u64>)
        ensures
            final(self)@ == old(self)@.without_stream(cid, sid),
            r == old(self)@.stream(cid, sid),
    {
        match groups_remove(&mut self.conns, cid) {
            Some(mut group) => {
                let taken = slots_remove(&mut group, sid);
                groups_insert(&mut self.conns, cid, group);
                assert(self@.conns =~= old(self)@.without_stream(cid, sid).conns);
                taken
            },
            None => {
                assert(self@.conns =~= old(self)@.conns);
                None
            },
        }
    }

    /// The agent's side of a connection was opened, or could not be. Once the preamble is sent, the
    /// stream that waits for the connection is relayed. If the server cannot be reached, the stream
    /// is shut down and the server told.
    pub fn dialed(&mut self, cid: u32, sid: u32, outcome: Dialed) -> (r: Vec<Effect>)
        ensures
            r@ == old(self)@.after_dial(cid, sid, outcome),
            outcome == Dialed::Broken ==> final(self)@ == old(self)@,
            outcome != Dialed::Broken ==> final(self)@ == old(self)@.without_stream(cid, sid),
            final(self)@ == old(self)@.next_dial(cid, sid, outcome),
    {
        let mut effects: Vec<Effect> = Vec::new();
        match outcome {
            Dialed::Broken => {},
            Dialed::Ready => {
                if let Some(stream) = self.take_stream(cid, sid) {
                    effects.push(Effect::Relay { cid, sid, stream });
                }
            },
            Dialed::Unreachable => {
                if let Some(stream) = self.take_stream(cid, sid) {
                    effects.push(Effect::Shutdown(stream));
                }
                effects.push(
                    Effect::Send(Packet::PacketInfoConnectFailed { agent_id: self.id, cid, sid }),
                );
            },
        }
        effects
    }

    /// Files the task of a relay with the listening port of its client. Without such a port the
    /// task runs on unattended.
    pub fn relaying(&mut self, cid: u32, sid: u32, task: u64) -> (r: Vec<Effect>)
        ensures
            old(self)@.proxies.contains_key(cid) ==> {
                &&& r@ == Seq::<Effect>::empty()
                &&& final(self)@ == old(self)@.with_relay(cid, sid, task)
            },
            !old(self)@.proxies.contains_key(cid) ==> {
                &&& r@ == seq![Effect::Detach(task)]
                &&& final(self)@ == old(self)@
            },
            r@ == old(self)@.after_relay(cid, task),
    {
        match ports_remove(&mut self.proxies, cid) {
            Some(mut proxy) => {
                proxy.relays.push((sid, task));
                ports_insert(&mut self.proxies, cid, proxy);
                assert(self@.proxies =~= old(self)@.with_relay(cid, sid, task).proxies);
                Vec::new()
            },
            None => {
                assert(self@.proxies =~= old(self)@.proxies);
                vec![Effect::Detach(task)]
            },
        }
    }

    /// Drops everything of a client: its waiting streams, its listener and its relays.
    pub fn clear(&mut self, id: u32) -> (r: Vec<Effect>)
        ensures
            clears(old(self)@, id, r@),
            final(self)@ == old(self)@.without_client(id),
    {
        let mut effects: Vec<Effect> = Vec::new();
        let entries: Vec<(u32, u64)> = match groups_remove(&mut self.conns, id) {
            Some(group) => slots_into_entries(group),
            None => Vec::new(),
        };
        assert(lists_entries(entries@, old(self)@.waiting(id)));
        let mut i: usize = 0;
        while i < entries.len()
            invariant
                i <= entries.len(),
                effects@ == discards(entries@.take(i as int)),
            decreases entries.len() - i,
        {
            effects.push(Effect::Discard(entries[i].1));
            i += 1;
            assert(effects@ =~= discards(entries@.take(i as int)));
        }
        assert(entries@.take(i as int) =~= entries@);
        let removed = ports_remove(&mut self.proxies, id);
        assert(self@.proxies =~= old(self)@.proxies.remove(id));
        if let Some(p) = removed {
            effects.push(Effect::Abort(p.listener));
            let mut j: usize = 0;
            while j < p.relays.len()
                invariant
                    j <= p.relays.len(),
                    effects@ == discards(entries@) + (seq![Effect::Abort(p.listener)]
                        + p.relays@.take(j as int).map_values(
                        |relay: (u32, u64)| Effect::Abort(relay.1),
                    )),
                decreases p.relays.len() - j,
            {
                effects.push(Effect::Abort(p.relays[j].1));
                j += 1;
            }
            assert(p.relays@.take(j as int) =~= p.relays@);
        }
        assert(effects@ =~= discards(entries@) + aborts(lookup(old(self)@.proxies, id)));
        effects
    }
}

/// A stream that the agent accepted waits under the id that the server is told, until it is taken;
/// it is taken once. Other streams stay where they are.
pub proof fn law_accepted_stream_waits(
    agent: HandlerModel,
    cid: u32,
    stream: u64,
    other_cid: u32,
    other_sid: u32,
)
    ensures
        ({
            let sid = agent.seed;
            let after = agent.with_next_stream(cid, stream);
            let taken = after.without_stream(cid, sid);
            &&& after.stream(cid, sid) == Some(stream)
            &&& taken.stream(cid, sid) is None
            &&& (other_cid != cid || other_sid != sid) ==> {
                &&& after.stream(other_cid, other_sid) == agent.stream(other_cid, other_sid)
                &&& taken.stream(other_cid, other_sid) == agent.stream(other_cid, other_sid)
            }
        }),
{
}

/// When a client is gone, each stream that waits for it is dropped, its listener is stopped, and so
/// is each of its relays. Nothing of it is left, and nothing of another client is touched.
pub proof fn law_clear_leaves_nothing(
    agent: HandlerModel,
    cid: u32,
    effects: Seq<Effect>,
    sid: u32,
    i: int,
    other: u32,
)
    requires
        clears(agent, cid, effects),
    ensures
        agent.stream(cid, sid) matches Some(stream) ==> effects.contains(Effect::Discard(stream)),
        agent.proxies.contains_key(cid) ==> effects.contains(
            Effect::Abort(agent.proxies[cid].listener),
        ),
        agent.proxies.contains_key(cid) && 0 <= i < agent.proxies[cid].relays.len()
            ==> effects.contains(Effect::Abort(agent.proxies[cid].relays[i].1)),
        ({
            let after = agent.without_client(cid);
            &&& after.stream(cid, sid) is None
            &&& !after.proxies.contains_key(cid)
            &&& other != cid ==> {
                &&& after.waiting(other) == agent.waiting(other)
                &&& lookup(after.proxies, other) == lookup(agent.proxies, other)
            }
        }),
{
    let entries = choose|entries: Seq<(u32, u64)>|
        lists_entries(entries, agent.waiting(cid)) && effects == #[trigger] discards(entries)
            + aborts(lookup(agent.proxies, cid));
    let n = entries.len() as int;
    if agent.stream(cid, sid) is Some {
        let stream = agent.stream(cid, sid)->0;
        let k = choose|k: int| 0 <= k < n && entries[k] == (sid, stream);
        assert(effects[k] == Effect::Discard(stream));
    }
    if agent.proxies.contains_key(cid) {
        let proxy = agent.proxies[cid];
        assert(effects[n] == Effect::Abort(proxy.listener));
        if 0 <= i < proxy.relays.len() {
            assert(effects[n + 1 + i] == Effect::Abort(proxy.relays[i].1));
        }
    }
}

/// A relay that was filed is stopped when its client is gone.
pub proof fn law_filed_relay_is_stopped(
    agent: HandlerModel,
    cid: u32,
    sid: u32,
    task: u64,
    effects: Seq<Effect>,
)
    requires
        agent.proxies.contains_key(cid),
        clears(agent.with_relay(cid, sid, task), cid, effects),
    ensures
        effects.contains(Effect::Abort(task)),
{
    let n = agent.proxies[cid].relays.len() as int;
    law_clear_leaves_nothing(agent.with_relay(cid, sid, task), cid, effects, sid, n, cid);
}

/// What waits for a client under a connection id is what is filed under these very ids.
pub proof fn law_waiting_stream_is_what_is_filed(agent: HandlerModel, cid: u32, sid: u32)
    ensures
        agent.conns.contains_key(cid) ==> agent.waiting(cid) == agent.conns[cid],
        !agent.conns.contains_key(cid) ==> !agent.waiting(cid).contains_key(sid),
        agent.stream(cid, sid) is Some <==> agent.conns.contains_key(cid)
            && agent.conns[cid].contains_key(sid),
        agent.stream(cid, sid) is Some ==> agent.stream(cid, sid)->0 == agent.conns[cid][sid],
{
}

/// A stream that is accepted waits for its client under the id that the agent was to give out next,
/// and the server hears of it under that id and client. The agent then gives out the number after
/// that. What waits elsewhere, the ports and the agent's id are what they were.
pub proof fn law_accepted_stream_takes_the_next_id(
    agent: HandlerModel,
    cid: u32,
    stream: u64,
    other_cid: u32,
    other_sid: u32,
)
    ensures
        ({
            let sid = agent.seed;
            let after = agent.with_next_stream(cid, stream);
            let effects = agent.after_accept(cid);
            &&& after.id == agent.id
            &&& after.seed == (agent.seed + 1) % 0x1_0000_0000
            &&& after.proxies == agent.proxies
            &&& after.conns.contains_key(cid)
            &&& after.conns[cid].contains_key(sid)
            &&& after.conns[cid][sid] == stream
            &&& other_sid != sid ==> {
                &&& after.conns[cid].contains_key(other_sid) <==> agent.conns.contains_key(cid)
                    && agent.conns[cid].contains_key(other_sid)
                &&& after.conns[cid].contains_key(other_sid) ==> after.conns[cid][other_sid]
                    == agent.conns[cid][other_sid]
            }
            &&& other_cid != cid ==> {
                &&& after.conns.contains_key(other_cid) == agent.conns.contains_key(other_cid)
                &&& after.conns[other_cid] == agent.conns[other_cid]
            }
            &&& effects.last() == Effect::Send(
                Packet::RspAgentBuild { agent_id: agent.id, id: cid, sid, ok: true },
            )
            &&& agent.conns.contains_key(cid) && agent.conns[cid].contains_key(sid) ==> {
                &&& effects.len() == 2
                &&& effects[0] == Effect::Discard(agent.conns[cid][sid])
            }
            &&& !(agent.conns.contains_key(cid) && agent.conns[cid].contains_key(sid))
                ==> effects.len() == 1
        }),
{
}

/// The agent after it accepted streams one after the other, each for a client.
pub open spec fn after_accepts(agent: HandlerModel, streams: Seq<(u32, u64)>) -> HandlerModel
    decreases streams.len(),
{
    if streams.len() == 0 {
        agent
    } else {
        after_accepts(agent, streams.drop_last()).with_next_stream(
            streams.last().0,
            streams.last().1,
        )
    }
}

proof fn lemma_seed_after_accepts(agent: HandlerModel, streams: Seq<(u32, u64)>)
    ensures
        after_accepts(agent, streams).seed == (agent.seed + streams.len()) % 0x1_0000_0000,
        after_accepts(agent, streams).id == agent.id,
        after_accepts(agent, streams).proxies == agent.proxies,
    decreases streams.len(),
{
    if streams.len() > 0 {
        lemma_seed_after_accepts(agent, streams.drop_last());
    }
}

/// No stream that is accepted replaces another as long as the ids last: of up to 2^32 streams that a
/// new agent accepts, for whichever clients, the first waits under id 0, the second under id 1 and
/// so on; each still waits for its client under its id when all are accepted, and no other does.
pub proof fn law_no_accepted_stream_replaces_another(
    agent: HandlerModel,
    streams: Seq<(u32, u64)>,
    i: int,
    cid: u32,
    sid: u32,
)
    requires
        agent.seed == 0,
        agent.conns == Map::<u32, Map<u32, u64>>::empty(),
        streams.len() <= 0x1_0000_0000,
    ensures
        ({
            let after = after_accepts(agent, streams);
            &&& after.stream(cid, sid) is Some <==> sid < streams.len() && streams[sid as int].0
                == cid
            &&& 0 <= i < streams.len() ==> {
                &&& after_accepts(agent, streams.take(i)).seed == i
                &&& after_accepts(agent, streams.take(i)).after_accept(streams[i].0).len() == 1
                &&& after.stream(streams[i].0, i as u32) == Some(streams[i].1)
            }
        }),
    decreases streams.len(),
{
    lemma_seed_after_accepts(agent, streams);
    if streams.len() > 0 {
        let before = streams.drop_last();
        let n = streams.len() - 1;
        lemma_seed_after_accepts(agent, before);
        law_no_accepted_stream_replaces_another(agent, before, i, cid, sid);
        law_accepted_stream_waits(
            after_accepts(agent, before),
            streams.last().0,
            streams.last().1,
            cid,
            sid,
        );
        if 0 <= i < streams.len() {
            let (client, _) = streams[i];
            lemma_seed_after_accepts(agent, streams.take(i));
            law_no_accepted_stream_replaces_another(agent, streams.take(i), 0, client, i as u32);
            law_accepted_stream_waits(
                after_accepts(agent, before),
                streams.last().0,
                streams.last().1,
                client,
                i as u32,
            );
            if i < n {
                assert(before[i] == streams[i]);
            }
        }
    }
}

/// A stream that is taken no longer waits; nothing else of the agent changes.
pub proof fn law_taking_a_stream_takes_nothing_else(
    agent: HandlerModel,
    cid: u32,
    sid: u32,
    other_cid: u32,
    other_sid: u32,
)
    ensures
        ({
            let after = agent.without_stream(cid, sid);
            &&& after.id == agent.id
            &&& after.seed == agent.seed
            &&& after.proxies == agent.proxies
            &&& after.conns.dom() == agent.conns.dom()
            &&& agent.conns.contains_key(other_cid) ==> {
                let was = agent.conns[other_cid];
                let now = after.conns[other_cid];
                &&& now.contains_key(other_sid) <==> was.contains_key(other_sid) && !(other_cid
                    == cid && other_sid == sid)
                &&& now.contains_key(other_sid) ==> now[other_sid] == was[other_sid]
            }
        }),
{
    assert(agent.without_stream(cid, sid).conns.dom() =~= agent.conns.dom());
}

/// A relay that is filed comes last among those of its client's port, under its connection and task;
/// nothing else of the agent changes.
pub proof fn law_filing_a_relay_changes_nothing_else(
    agent: HandlerModel,
    cid: u32,
    sid: u32,
    task: u64,
    other: u32,
)
    requires
        agent.proxies.contains_key(cid),
    ensures
        ({
            let was = agent.proxies[cid];
            let after = agent.with_relay(cid, sid, task);
            let now = after.proxies[cid];
            &&& (after.id, after.seed, after.conns) == (agent.id, agent.seed, agent.conns)
            &&& after.proxies.dom() == agent.proxies.dom()
            &&& (now.port, now.listener) == (was.port, was.listener)
            &&& now.relays.len() == was.relays.len() + 1
            &&& now.relays.last() == (sid, task)
            &&& now.relays.drop_last() == was.relays
            &&& other != cid ==> after.proxies[other] == agent.proxies[other]
        }),
{
    assert(agent.with_relay(cid, sid, task).proxies.dom() =~= agent.proxies.dom());
    assert(agent.with_relay(cid, sid, task).proxies[cid].relays.drop_last()
        =~= agent.proxies[cid].relays);
}

/// What the agent does on a packet, whatever state it is in. Logged in, it sends heartbeats with its
/// own id; refused, it leaves. It listens for the client and on the port that it is told, and opens
/// its side of the connection that it is told, with the preamble of the agent's side.
pub proof fn law_agent_on_each_packet(agent: HandlerModel, id: u32, port: u16, sid: u32)
    ensures
        agent.reply(Packet::RspAgentLoginOk) == seq![
            Effect::Heartbeat(Packet::PacketHbAgent { id: agent.id }),
        ],
        agent.reply(Packet::RspAgentLoginFailed) == seq![Effect::Close, Effect::Exit],
        agent.reply(Packet::PacketHbAgent { id }) == Seq::<Effect>::empty(),
        agent.reply(Packet::ReqAgentBuild { port, id }) == seq![Effect::Listen { cid: id, port }],
        agent.reply(Packet::ReqNewConnectionAgent { id, sid }) == seq![
            Effect::Dial {
                cid: id,
                sid,
                preamble: Preamble {
                    agent_id: agent.id,
                    id,
                    data: (0x4_0000_0000 + sid) as u64,
                },
            },
        ],
        agent.bind_report(id) == Effect::Send(
            Packet::RspAgentBuild { agent_id: agent.id, id, sid: 0, ok: false },
        ),
{
}

/// An agent takes the packets that are for agents and no others. Two of them say that a client is
/// gone: the one that they name.
pub proof fn law_packets_for_an_agent(packet: Packet)
    ensures
        HandlerModel::accepts(packet) <==> match packet {
            Packet::PacketHbAgent { .. } => true,
            Packet::RspAgentLoginOk => true,
            Packet::RspAgentLoginFailed => true,
            Packet::ReqAgentBuild { .. } => true,
            Packet::RspClientNotFound { .. } => true,
            Packet::ReqNewConnectionAgent { .. } => true,
            Packet::PacketInfoClientClosed { .. } => true,
            _ => false,
        },
        HandlerModel::gone(packet) is Some <==> packet is RspClientNotFound || packet
            is PacketInfoClientClosed,
        packet matches Packet::RspClientNotFound { id } ==> HandlerModel::gone(packet) == Some(id),
        packet matches Packet::PacketInfoClientClosed { id } ==> HandlerModel::gone(packet)
            == Some(id),
{
}

/// How an attempt to open the agent's side ends, for every client and connection. If the server
/// could not be reached, it hears so last, about this agent, this client and this connection; the
/// stream that waited there, if any, is shut down first. Once the preamble is sent, that stream is
/// relayed. If the connection broke in between, nothing is done.
pub proof fn law_dial_is_about_its_connection(agent: HandlerModel, cid: u32, sid: u32)
    ensures
        ({
            let failed = agent.after_dial(cid, sid, Dialed::Unreachable);
            let waits = agent.conns.contains_key(cid) && agent.conns[cid].contains_key(sid);
            let stream = agent.conns[cid][sid];
            &&& failed.last() == Effect::Send(
                Packet::PacketInfoConnectFailed { agent_id: agent.id, cid, sid },
            )
            &&& waits ==> failed.len() == 2 && failed[0] == Effect::Shutdown(stream)
            &&& !waits ==> failed.len() == 1
            &&& waits ==> agent.after_dial(cid, sid, Dialed::Ready) == seq![
                Effect::Relay { cid, sid, stream },
            ]
            &&& !waits ==> agent.after_dial(cid, sid, Dialed::Ready).len() == 0
            &&& agent.after_dial(cid, sid, Dialed::Broken).len() == 0
        }),
{
}

/// The failures of different connections are told apart: two reports are the same only if they are
/// about the same connection of the same client.
pub proof fn law_failures_are_told_apart(
    agent: HandlerModel,
    cid: u32,
    sid: u32,
    other_cid: u32,
    other_sid: u32,
)
    ensures
        agent.after_dial(cid, sid, Dialed::Unreachable).last() == agent.after_dial(
            other_cid,
            other_sid,
            Dialed::Unreachable,
        ).last() <==> cid == other_cid && sid == other_sid,
{
    law_dial_is_about_its_connection(agent, cid, sid);
    law_dial_is_about_its_connection(agent, other_cid, other_sid);
}

/// What is stopped, or let go of, for a port is its listener first and then each of its relays in
/// the order in which they were filed, each once. Without a port it is nothing.
pub proof fn law_tasks_of_a_port(proxy: ProxyModel, i: int)
    ensures
        aborts(Some(proxy)).len() == proxy.relays.len() + 1,
        aborts(Some(proxy))[0] == Effect::Abort(proxy.listener),
        0 <= i < proxy.relays.len() ==> aborts(Some(proxy))[i + 1] == Effect::Abort(
            proxy.relays[i].1,
        ),
        aborts(None).len() == 0,
        detaches(Some(proxy)).len() == proxy.relays.len() + 1,
        detaches(Some(proxy))[0] == Effect::Detach(proxy.listener),
        0 <= i < proxy.relays.len() ==> detaches(Some(proxy))[i + 1] == Effect::Detach(
            proxy.relays[i].1,
        ),
        detaches(None).len() == 0,
{
}

/// When a client is gone, as many streams are dropped as waited for it, each of them one that
/// waited, and then the tasks of its port are stopped and nothing else. The agent's id, the id that
/// it gives out next and what it has for other clients are what they were.
pub proof fn law_clear_does_nothing_else(
    agent: HandlerModel,
    cid: u32,
    effects: Seq<Effect>,
    i: int,
    other: u32,
)
    requires
        clears(agent, cid, effects),
    ensures
        ({
            let n = if agent.conns.contains_key(cid) {
                agent.conns[cid].dom().len() as int
            } else {
                0
            };
            let after = agent.without_client(cid);
            &&& 0 <= i < n ==> exists|sid: u32|
                agent.conns[cid].contains_key(sid) && effects[i] == Effect::Discard(
                    #[trigger] agent.conns[cid][sid],
                )
            &&& agent.proxies.contains_key(cid) ==> {
                let proxy = agent.proxies[cid];
                &&& effects.len() == n + 1 + proxy.relays.len()
                &&& effects[n] == Effect::Abort(proxy.listener)
                &&& 0 <= i < proxy.relays.len() ==> effects[n + 1 + i] == Effect::Abort(
                    proxy.relays[i].1,
                )
            }
            &&& !agent.proxies.contains_key(cid) ==> effects.len() == n
            &&& (after.id, after.seed) == (agent.id, agent.seed)
            &&& !after.conns.contains_key(cid)
            &&& !after.proxies.contains_key(cid)
            &&& other != cid ==> {
                &&& after.conns.contains_key(other) == agent.conns.contains_key(other)
                &&& after.conns[other] == agent.conns[other]
                &&& after.proxies.contains_key(other) == agent.proxies.contains_key(other)
                &&& after.proxies[other] == agent.proxies[other]
            }
        }),
{
    let entries = choose|entries: Seq<(u32, u64)>|
        lists_entries(entries, agent.waiting(cid)) && effects == #[trigger] discards(entries)
            + aborts(lookup(agent.proxies, cid));
    law_list_holds_each_entry_once(entries, agent.waiting(cid), i, 0);
    if agent.conns.contains_key(cid) {
        if 0 <= i < entries.len() {
            let sid = entries[i].0;
            assert(effects[i] == Effect::Discard(agent.conns[cid][sid]));
        }
    }
}

/// A task that listens for a client is filed with its port and without relays, in place of what was
/// filed for the client before. The relays of other clients, what waits, and the agent's own numbers
/// are what they were.
pub proof fn law_filing_a_listener_changes_nothing_else(
    agent: HandlerModel,
    cid: u32,
    port: u16,
    task: u64,
    other: u32,
)
    ensures
        ({
            let after = agent.with_listener(cid, port, task);
            &&& (after.id, after.seed, after.conns) == (agent.id, agent.seed, agent.conns)
            &&& after.proxies.contains_key(cid)
            &&& after.proxies[cid].port == port
            &&& after.proxies[cid].listener == task
            &&& after.proxies[cid].relays.len() == 0
            &&& other != cid ==> {
                &&& after.proxies.contains_key(other) == agent.proxies.contains_key(other)
                &&& after.proxies[other] == agent.proxies[other]
            }
        }),
{
}

/// A task that was filed to listen for a client is stopped, once, when that client is gone, and so
/// are the relays that were filed for the client since, in their order. A relay for a client without
/// a port is let go of at once.
pub proof fn law_filed_tasks_are_stopped(
    agent: HandlerModel,
    cid: u32,
    port: u16,
    listener: u64,
    sid: u32,
    relay: u64,
    effects: Seq<Effect>,
)
    requires
        clears(
            agent.with_listener(cid, port, listener).with_relay(cid, sid, relay),
            cid,
            effects,
        ),
    ensures
        effects.len() >= 2,
        effects[effects.len() - 2] == Effect::Abort(listener),
        effects.last() == Effect::Abort(relay),
        agent.with_listener(cid, port, listener).after_relay(cid, relay).len() == 0,
        agent.proxies.contains_key(cid) ==> agent.after_relay(cid, relay).len() == 0,
        !agent.proxies.contains_key(cid) ==> agent.after_relay(cid, relay) == seq![
            Effect::Detach(relay),
        ],
{
    let filed = agent.with_listener(cid, port, listener);
    law_clear_does_nothing_else(filed.with_relay(cid, sid, relay), cid, effects, 0, cid);
}

/// A packet changes the agent only if it says that a client is gone, and then only what the agent has
/// for that client: no stream waits for it and it has no port, and all else is what it was.
pub proof fn law_packet_changes_only_its_client(agent: HandlerModel, packet: Packet, other: u32)
    ensures
        ({
            let after = agent.next(packet);
            let gone = match packet {
                Packet::RspClientNotFound { id } => Some(id),
                Packet::PacketInfoClientClosed { id } => Some(id),
                _ => None,
            };
            &&& (after.id, after.seed) == (agent.id, agent.seed)
            &&& gone is None ==> after == agent
            &&& after.conns.contains_key(other) <==> agent.conns.contains_key(other) && gone
                != Some(other)
            &&& after.conns.contains_key(other) ==> after.conns[other] == agent.conns[other]
            &&& after.proxies.contains_key(other) <==> agent.proxies.contains_key(other) && gone
                != Some(other)
            &&& after.proxies.contains_key(other) ==> after.proxies[other] == agent.proxies[other]
        }),
{
}

/// A stream is relayed or shut down at most once: after an attempt that came to an end either way,
/// no later attempt for the connection relays or shuts down anything, until the agent accepts another
/// stream under its id. An attempt that broke leaves the stream for the next.
pub proof fn law_stream_is_used_once(
    agent: HandlerModel,
    cid: u32,
    sid: u32,
    outcome: Dialed,
    other_cid: u32,
    other_sid: u32,
)
    ensures
        ({
            let after = agent.next_dial(cid, sid, outcome);
            &&& outcome == Dialed::Broken ==> after == agent
            &&& outcome != Dialed::Broken ==> {
                &&& after.after_dial(cid, sid, Dialed::Ready).len() == 0
                &&& after.after_dial(cid, sid, Dialed::Unreachable).len() == 1
                &&& after.stream(cid, sid) is None
            }
            &&& (after.id, after.seed, after.proxies) == (agent.id, agent.seed, agent.proxies)
            &&& (other_cid != cid || other_sid != sid) ==> after.stream(other_cid, other_sid)
                == agent.stream(other_cid, other_sid)
        }),
{
}

} // verus!

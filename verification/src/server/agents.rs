//! All agents that are logged in.

use std::collections::hash_map::Entry;
use std::collections::HashMap;
use vstd::prelude::*;
use tokio::net::TcpStream;
use tokio::sync::oneshot::{Receiver, Sender};
use crate::protocol::{get_id, id_of, is_client, tag_of, Preamble, CLIENT_ID};
use crate::server::conn::{same_client, same_conn, Agent, AgentModel};

verus! {

broadcast use {
    vstd::std_specs::hash::group_hash_axioms,
    vstd::std_specs::hash::axiom_has_resolved_occupied_entry,
    vstd::std_specs::hash::axiom_has_resolved_vacant_entry,
};

/// The agents by id.
pub struct Agents {
    pub agents: HashMap<u32, Agent>,
}

impl View for Agents {
    type V = Map<u32, AgentModel>;

    open spec fn view(&self) -> Map<u32, AgentModel> {
        self.agents@.map_values(|a: Agent| a@)
    }
}

/// Every agent, client and connection is filed under its own id, and what is left of a connection
/// are the ends that it was made with.
pub open spec fn agents_wf(agents: Map<u32, AgentModel>) -> bool {
    forall|id: u32| #[trigger]
        agents.contains_key(id) ==> agents[id].id == id && agents[id].wf()
}

/// What a stream that arrives on the connection port is for.
pub enum Side {
    /// The client's stream: wait for the agent's stream on the channel, then relay between them.
    Wait { sid: u32, rx: Receiver<TcpStream> },
    /// The agent's stream: put it into the channel.
    Deliver { sx: Sender<TcpStream> },
    /// No connection waits for the stream: drop it.
    Refuse,
}

/// Whether a preamble is from a client. Every other one counts as an agent's.
pub open spec fn from_client(preamble: Preamble) -> bool {
    tag_of(preamble.data) == CLIENT_ID
}

/// The part that a stream with a preamble gets.
pub open spec fn side_of(agents: Map<u32, AgentModel>, preamble: Preamble) -> Side {
    let sid = id_of(preamble.data) as u32;
    if !agents.contains_key(preamble.agent_id) {
        Side::Refuse
    } else if from_client(preamble) {
        match agents[preamble.agent_id].rx(preamble.id, sid) {
            Some(rx) => Side::Wait { sid, rx },
            None => Side::Refuse,
        }
    } else {
        match agents[preamble.agent_id].sx(preamble.id, sid) {
            Some(sx) => Side::Deliver { sx },
            None => Side::Refuse,
        }
    }
}

/// The tables after a stream with a preamble got its part.
pub open spec fn after_side(agents: Map<u32, AgentModel>, preamble: Preamble) -> Map<
    u32,
    AgentModel,
> {
    let sid = id_of(preamble.data) as u32;
    if !agents.contains_key(preamble.agent_id) {
        agents
    } else if from_client(preamble) {
        agents.insert(
            preamble.agent_id,
            agents[preamble.agent_id].without_rx(preamble.id, sid),
        )
    } else {
        agents.insert(
            preamble.agent_id,
            agents[preamble.agent_id].without_sx(preamble.id, sid),
        )
    }
}

/// The tables without one connection.
pub open spec fn after_joined(
    agents: Map<u32, AgentModel>,
    agent_id: u32,
    cid: u32,
    sid: u32,
) -> Map<u32, AgentModel> {
    if agents.contains_key(agent_id) {
        agents.insert(agent_id, agents[agent_id].without_conn(cid, sid))
    } else {
        agents
    }
}

impl Agents {
    /// No agents.
    pub fn new() -> (r: Agents)
        ensures
            r@ == Map::<u32, AgentModel>::empty(),
    {
        let r = Agents { agents: HashMap::new() };
        assert(r@ =~= Map::empty());
        r
    }

    /// Gives a stream on the connection port its part. A client's stream takes the receiving end of
    /// its connection, any other the sending end.
    pub fn rendezvous(&mut self, preamble: &Preamble) -> (r: Side)
        ensures
            r == side_of(old(self)@, *preamble),
            final(self)@ == after_side(old(self)@, *preamble),
            agents_wf(old(self)@) ==> agents_wf(final(self)@),
    {
        let sid: u32 = get_id(&preamble.data);
        let r = if is_client(&preamble.data) {
            let rx = match self.agents.entry(preamble.agent_id) {
                Entry::Occupied(slot) => slot.into_mut().get_conn_rx(preamble.id, sid),
                Entry::Vacant(_) => None,
            };
            match rx {
                Some(rx) => Side::Wait { sid, rx },
                None => Side::Refuse,
            }
        } else {
            let sx = match self.agents.entry(preamble.agent_id) {
                Entry::Occupied(slot) => slot.into_mut().get_conn_sx(preamble.id, sid),
                Entry::Vacant(_) => None,
            };
            match sx {
                Some(sx) => Side::Deliver { sx },
                None => Side::Refuse,
            }
        };
        assert(self@ =~= after_side(old(self)@, *preamble));
        r
    }

    /// The two sides of a connection have met: it no longer waits.
    pub fn joined(&mut self, agent_id: u32, cid: u32, sid: u32)
        ensures
            final(self)@ == after_joined(old(self)@, agent_id, cid, sid),
            agents_wf(old(self)@) ==> agents_wf(final(self)@),
    {
        match self.agents.entry(agent_id) {
            Entry::Occupied(slot) => slot.into_mut().remove_conn(cid, sid),
            Entry::Vacant(_) => {},
        }
        assert(self@ =~= after_joined(old(self)@, agent_id, cid, sid));
    }
}

/// A stream gets the end that waits under the very agent, client and connection that its preamble
/// names: the receiving end if the upper half of the word is the client's number, and else the
/// sending end. It is refused exactly where that end is not there.
pub proof fn law_stream_gets_the_end_it_names(agents: Map<u32, AgentModel>, preamble: Preamble)
    ensures
        ({
            let sid = (preamble.data as int % 0x1_0000_0000) as u32;
            let client = preamble.data as int / 0x1_0000_0000 == 2;
            let filed = agents.contains_key(preamble.agent_id)
                && agents[preamble.agent_id].clients.contains_key(preamble.id)
                && agents[preamble.agent_id].clients[preamble.id].conns.contains_key(sid);
            let conn = agents[preamble.agent_id].clients[preamble.id].conns[sid];
            let side = side_of(agents, preamble);
            &&& from_client(preamble) <==> client
            &&& client && filed && conn.rx is Some <==> side is Wait
            &&& !client && filed && conn.sx is Some <==> side is Deliver
            &&& side matches Side::Wait { sid: waits, rx } ==> waits == sid && Some(rx) == conn.rx
            &&& side matches Side::Deliver { sx } ==> Some(sx) == conn.sx
        }),
{
}

/// A stream takes nothing from the tables but the end that its preamble names; where that end is not
/// there, it takes nothing at all.
pub proof fn law_stream_takes_nothing_else(
    agents: Map<u32, AgentModel>,
    preamble: Preamble,
    aid: u32,
    cid: u32,
    sid: u32,
)
    ensures
        ({
            let after = after_side(agents, preamble);
            let named = preamble.agent_id == aid && preamble.id == cid && preamble.data as int
                % 0x1_0000_0000 == sid;
            let client = preamble.data as int / 0x1_0000_0000 == 2;
            &&& after.dom() == agents.dom()
            &&& agents.contains_key(aid) ==> {
                &&& after[aid].id == agents[aid].id
                &&& after[aid].handle == agents[aid].handle
                &&& after[aid].seed == agents[aid].seed
                &&& after[aid].clients.dom() == agents[aid].clients.dom()
                &&& agents[aid].clients.contains_key(cid) ==> {
                    let was = agents[aid].clients[cid];
                    let now = after[aid].clients[cid];
                    &&& same_client(now, was)
                    &&& now.conns.dom() == was.conns.dom()
                    &&& was.conns.contains_key(sid) ==> {
                        &&& same_conn(now.conns[sid], was.conns[sid])
                        &&& now.conns[sid].rx == if named && client {
                            None
                        } else {
                            was.conns[sid].rx
                        }
                        &&& now.conns[sid].sx == if named && !client {
                            None
                        } else {
                            was.conns[sid].sx
                        }
                    }
                }
            }
        }),
{
    let after = after_side(agents, preamble);
    assert(after.dom() =~= agents.dom());
    if agents.contains_key(aid) {
        assert(after[aid].clients.dom() =~= agents[aid].clients.dom());
        if agents[aid].clients.contains_key(cid) {
            assert(after[aid].clients[cid].conns.dom() =~= agents[aid].clients[cid].conns.dom());
        }
    }
}

/// Once the sides of a connection have met, that connection is gone from the tables and nothing
/// else is.
pub proof fn law_joining_drops_nothing_else(
    agents: Map<u32, AgentModel>,
    agent_id: u32,
    id: u32,
    joined: u32,
    aid: u32,
    cid: u32,
    sid: u32,
)
    ensures
        ({
            let after = after_joined(agents, agent_id, id, joined);
            &&& after.dom() == agents.dom()
            &&& agents.contains_key(aid) ==> {
                &&& after[aid].id == agents[aid].id
                &&& after[aid].handle == agents[aid].handle
                &&& after[aid].seed == agents[aid].seed
                &&& after[aid].clients.dom() == agents[aid].clients.dom()
                &&& agents[aid].clients.contains_key(cid) ==> {
                    let was = agents[aid].clients[cid];
                    let now = after[aid].clients[cid];
                    &&& same_client(now, was)
                    &&& now.conns.contains_key(sid) <==> was.conns.contains_key(sid) && !(agent_id
                        == aid && id == cid && joined == sid)
                    &&& now.conns.contains_key(sid) ==> now.conns[sid] == was.conns[sid]
                }
            }
        }),
{
    let after = after_joined(agents, agent_id, id, joined);
    assert(after.dom() =~= agents.dom());
    if agents.contains_key(aid) {
        assert(after[aid].clients.dom() =~= agents[aid].clients.dom());
    }
}

/// In tables in order, agents, clients and connections have the ids that they are filed under. The
/// tables are to contracts what they hold.
pub proof fn law_order_of_the_tables(agents: Agents, aid: u32, cid: u32)
    ensures
        agents@.contains_key(aid) <==> agents.agents@.contains_key(aid),
        agents.agents@.contains_key(aid) ==> agents@[aid] == agents.agents@[aid]@,
        agents_wf(agents@) && agents@.contains_key(aid) ==> agents@[aid].id == aid
            && agents@[aid].wf(),
        agents_wf(agents@) && agents@.contains_key(aid) && agents@[aid].clients.contains_key(cid)
            ==> agents@[aid].clients[cid].id == cid,
{
}

} // verus!

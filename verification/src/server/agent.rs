//! The server's end of an agent's control link.

use std::collections::hash_map::Entry;
use vstd::prelude::*;
use crate::channel::connected;
use crate::link::{Action, Handle, InvalidData};
use crate::protocol::Packet;
use crate::server::agents::{after_joined, agents_wf, Agents};
use crate::server::conn::{
    conn_inserted, law_links_to_close, links_in, lists_clients, Agent, AgentModel,
};

verus! {

broadcast use {
    vstd::std_specs::hash::group_hash_axioms,
    vstd::std_specs::hash::axiom_has_resolved_occupied_entry,
    vstd::std_specs::hash::axiom_has_resolved_vacant_entry,
};

/// An agent's link, and the id under which the agent is logged in.
#[derive(Clone, Copy, PartialEq, Eq, Structural, Debug)]
pub struct AgentHandler {
    pub handle: Handle,
    pub id: Option<u32>,
}

/// An agent without clients.
pub open spec fn new_agent(id: u32, handle: Handle) -> AgentModel {
    AgentModel { id, handle, seed: 0, clients: Map::empty() }
}

/// Whether a result holds the actions that are expected, or the error that is.
pub open spec fn answers(
    r: Result<Vec<Action>, InvalidData>,
    expected: Result<Seq<Action>, InvalidData>,
) -> bool {
    match (r, expected) {
        (Ok(actions), Ok(list)) => actions@ =~= list,
        (Err(_), Err(_)) => true,
        _ => false,
    }
}

impl AgentHandler {
    /// The packets that an agent may send.
    pub open spec fn accepts(packet: Packet) -> bool {
        packet is ReqAgentLogin || packet is PacketHbAgent || packet is RspAgentBuild
            || packet is PacketInfoConnectFailed
    }

    /// What the server does on a packet from the agent.
    pub open spec fn reply(self, agents: Map<u32, AgentModel>, packet: Packet) -> Result<
        Seq<Action>,
        InvalidData,
    > {
        let me = self.handle;
        match packet {
            Packet::PacketHbAgent { .. } => Ok(seq![Action::Send { to: me, packet }]),
            Packet::ReqAgentLogin { id } => if agents.contains_key(id) {
                Ok(seq![Action::Send { to: me, packet: Packet::RspAgentLoginFailed }])
            } else {
                Ok(seq![Action::Send { to: me, packet: Packet::RspAgentLoginOk }])
            },
            Packet::RspAgentBuild { agent_id, id, sid, ok } => if !agents.contains_key(agent_id) {
                Err(InvalidData)
            } else {
                match (ok, agents[agent_id].client_handle(id)) {
                    (true, Some(client)) => Ok(
                        seq![
                            Action::Send {
                                to: client,
                                packet: Packet::ReqNewConnectionClient { agent_id, id, sid },
                            },
                            Action::Send {
                                to: me,
                                packet: Packet::ReqNewConnectionAgent { id, sid },
                            },
                        ],
                    ),
                    (false, Some(client)) => Ok(
                        seq![
                            Action::Send { to: client, packet: Packet::RspClientLoginFailed },
                            Action::Send { to: me, packet: Packet::PacketInfoClientClosed { id } },
                        ],
                    ),
                    (true, None) => Ok(
                        seq![Action::Send { to: me, packet: Packet::RspClientNotFound { id } }],
                    ),
                    (false, None) => Ok(seq![]),
                }
            },
            Packet::PacketInfoConnectFailed { agent_id, cid, .. } => if agents.contains_key(
                agent_id,
            ) {
                match agents[agent_id].client_handle(cid) {
                    Some(client) => Ok(seq![Action::Send { to: client, packet }]),
                    None => Ok(seq![]),
                }
            } else {
                Ok(seq![])
            },
            _ => Err(InvalidData),
        }
    }

    /// The handler after a packet: it remembers a login that succeeded.
    pub open spec fn next(self, agents: Map<u32, AgentModel>, packet: Packet) -> AgentHandler {
        match packet {
            Packet::ReqAgentLogin { id } => if agents.contains_key(id) {
                self
            } else {
                AgentHandler { id: Some(id), ..self }
            },
            _ => self,
        }
    }

    /// How the tables change on a packet from the agent.
    pub open spec fn updates(
        self,
        pre: Map<u32, AgentModel>,
        post: Map<u32, AgentModel>,
        packet: Packet,
    ) -> bool {
        match packet {
            Packet::ReqAgentLogin { id } => if pre.contains_key(id) {
                post == pre
            } else {
                post == pre.insert(id, new_agent(id, self.handle))
            },
            Packet::RspAgentBuild { agent_id, id, sid, ok } => if pre.contains_key(agent_id)
                && pre[agent_id].clients.contains_key(id) {
                if ok {
                    &&& conn_inserted(pre[agent_id], post[agent_id], id, sid)
                    &&& post == pre.insert(agent_id, post[agent_id])
                } else {
                    post == pre.insert(agent_id, pre[agent_id].without_client(id))
                }
            } else {
                post == pre
            },
            Packet::PacketInfoConnectFailed { agent_id, cid, sid } => post == after_joined(
                pre,
                agent_id,
                cid,
                sid,
            ),
            _ => post == pre,
        }
    }

    /// The handler of a new link; no agent is logged in on it.
    pub fn new(handle: Handle) -> (r: AgentHandler)
        ensures
            r == (AgentHandler { handle, id: None }),
    {
        AgentHandler { handle, id: None }
    }

    /// Processes a packet from the agent.
    pub fn proc(&mut self, agents: &mut Agents, packet: Packet) -> (r: Result<
        Vec<Action>,
        InvalidData,
    >)
        ensures
            answers(r, old(self).reply(old(agents)@, packet)),
            *final(self) == old(self).next(old(agents)@, packet),
            old(self).updates(old(agents)@, final(agents)@, packet),
            agents_wf(old(agents)@) ==> agents_wf(final(agents)@),
    {
        match packet {
            Packet::PacketHbAgent { .. } => Ok(vec![Action::Send { to: self.handle, packet }]),
            Packet::ReqAgentLogin { id } => Ok(self.login(agents, id)),
            Packet::RspAgentBuild { agent_id, id, sid, ok } => self.build(
                agents,
                agent_id,
                id,
                sid,
                ok,
            ),
            Packet::PacketInfoConnectFailed { agent_id, cid, sid } => Ok(
                self.connect_failed(agents, agent_id, cid, sid),
            ),
            _ => Err(InvalidData),
        }
    }

    /// Logs the agent in, unless the id is taken.
    fn login(&mut self, agents: &mut Agents, id: u32) -> (r: Vec<Action>)
        ensures
            answers(Ok(r), old(self).reply(old(agents)@, Packet::ReqAgentLogin { id })),
            *final(self) == old(self).next(old(agents)@, Packet::ReqAgentLogin { id }),
            old(self).updates(old(agents)@, final(agents)@, Packet::ReqAgentLogin { id }),
            agents_wf(old(agents)@) ==> agents_wf(final(agents)@),
    {
        if agents.agents.contains_key(&id) {
            return vec![Action::Send { to: self.handle, packet: Packet::RspAgentLoginFailed }];
        }
        agents.agents.insert(id, Agent::new(id, self.handle));
        assert(agents@ =~= old(agents)@.insert(id, new_agent(id, self.handle)));
        self.id = Some(id);
        vec![Action::Send { to: self.handle, packet: Packet::RspAgentLoginOk }]
    }

    /// The agent accepted a connection for a client, or could not listen for it.
    fn build(&self, agents: &mut Agents, agent_id: u32, id: u32, sid: u32, ok: bool) -> (r: Result<
        Vec<Action>,
        InvalidData,
    >)
        ensures
            answers(
                r,
                self.reply(old(agents)@, Packet::RspAgentBuild { agent_id, id, sid, ok }),
            ),
            self.updates(
                old(agents)@,
                final(agents)@,
                Packet::RspAgentBuild { agent_id, id, sid, ok },
            ),
            agents_wf(old(agents)@) ==> agents_wf(final(agents)@),
    {
        let ghost pre = agents@;
        let r = match agents.agents.entry(agent_id) {
            Entry::Vacant(_) => Err(InvalidData),
            Entry::Occupied(slot) => {
                let agent = slot.into_mut();
                match (ok, agent.get_client_handle(id)) {
                    (true, Some(client)) => {
                        agent.insert_conn(id, sid);
                        Ok(
                            vec![
                                Action::Send {
                                    to: client,
                                    packet: Packet::ReqNewConnectionClient { agent_id, id, sid },
                                },
                                Action::Send {
                                    to: self.handle,
                                    packet: Packet::ReqNewConnectionAgent { id, sid },
                                },
                            ],
                        )
                    },
                    (false, Some(client)) => {
                        agent.remove_client(id);
                        Ok(
                            vec![
                                Action::Send { to: client, packet: Packet::RspClientLoginFailed },
                                Action::Send {
                                    to: self.handle,
                                    packet: Packet::PacketInfoClientClosed { id },
                                },
                            ],
                        )
                    },
                    (true, None) => Ok(
                        vec![
                            Action::Send {
                                to: self.handle,
                                packet: Packet::RspClientNotFound { id },
                            },
                        ],
                    ),
                    (false, None) => Ok(Vec::new()),
                }
            },
        };
        proof {
            if pre.contains_key(agent_id) {
                assert(agents@ =~= pre.insert(agent_id, agents@[agent_id]));
                if !pre[agent_id].clients.contains_key(id) {
                    assert(agents@ =~= pre);
                }
            } else {
                assert(agents@ =~= pre);
            }
        }
        r
    }

    /// The agent could not open its side of a connection: it no longer waits, and the client hears
    /// of it.
    fn connect_failed(&self, agents: &mut Agents, agent_id: u32, cid: u32, sid: u32) -> (r: Vec<
        Action,
    >)
        ensures
            answers(
                Ok(r),
                self.reply(
                    old(agents)@,
                    Packet::PacketInfoConnectFailed { agent_id, cid, sid },
                ),
            ),
            final(agents)@ == after_joined(old(agents)@, agent_id, cid, sid),
            agents_wf(old(agents)@) ==> agents_wf(final(agents)@),
    {
        agents.joined(agent_id, cid, sid);
        assert(old(agents)@.contains_key(agent_id) ==> agents@[agent_id].client_handle(cid)
            == old(agents)@[agent_id].client_handle(cid));
        assert(agents@.contains_key(agent_id) == agents.agents@.contains_key(agent_id));
        match agents.agents.get(&agent_id) {
            Some(agent) => match agent.get_client_handle(cid) {
                Some(client) => vec![
                    Action::Send {
                        to: client,
                        packet: Packet::PacketInfoConnectFailed { agent_id, cid, sid },
                    },
                ],
                None => Vec::new(),
            },
            None => Vec::new(),
        }
    }

    /// The link is gone: the agent is logged out, and the links of its clients are closed, each
    /// once and in some order, then its own.
    pub fn disconnect(&self, agents: &mut Agents) -> (r: Vec<Action>)
        ensures
            logs_out(*self, old(agents)@, final(agents)@, r@),
            agents_wf(old(agents)@) ==> agents_wf(final(agents)@),
    {
        let ghost pre = agents@;
        let mut actions: Vec<Action> = Vec::new();
        if let Some(id) = self.id {
            let removed = agents.agents.remove(&id);
            assert(agents@ =~= pre.remove(id));
            if let Some(agent) = removed {
                assert(agent@ == pre[id]);
                let links = agent.clear();
                let mut i: usize = 0;
                while i < links.len()
                    invariant
                        i <= links.len(),
                        actions@ == closings(links@.take(i as int)),
                    decreases links.len() - i,
                {
                    actions.push(Action::Close { to: links[i] });
                    i += 1;
                    assert(closings(links@.take(i as int)) =~= closings(
                        links@.take(i - 1),
                    ).push(Action::Close { to: links@[i - 1] }));
                }
                assert(links@.take(i as int) =~= links@);
            } else {
                assert(agents@ =~= pre);
            }
        }
        actions
    }
}

/// The actions that close links, in their order.
pub open spec fn closings(links: Seq<Handle>) -> Seq<Action> {
    links.map_values(|link: Handle| Action::Close { to: link })
}

/// What the end of an agent's link comes to.
pub open spec fn logs_out(
    handler: AgentHandler,
    pre: Map<u32, AgentModel>,
    post: Map<u32, AgentModel>,
    actions: Seq<Action>,
) -> bool {
    match handler.id {
        Some(id) => if pre.contains_key(id) {
            &&& post == pre.remove(id)
            &&& exists|order: Seq<u32>|
                lists_clients(pre[id], order) && actions == closings(
                    #[trigger] links_in(pre[id], order),
                )
        } else {
            post == pre && actions == Seq::<Action>::empty()
        },
        None => post == pre && actions == Seq::<Action>::empty(),
    }
}

/// A result answers what is expected exactly if both are errors, or both are actions, the same ones
/// in the same order.
pub proof fn law_answer_is_what_is_expected(
    r: Result<Vec<Action>, InvalidData>,
    expected: Result<Seq<Action>, InvalidData>,
)
    ensures
        answers(r, expected) && expected is Ok ==> r is Ok && r->Ok_0@ == expected->Ok_0,
        answers(r, expected) && expected is Err ==> r is Err,
        r is Ok && expected is Ok && r->Ok_0@ == expected->Ok_0 ==> answers(r, expected),
        r is Err && expected is Err ==> answers(r, expected),
{
}

/// A login succeeds exactly if nobody has the id, whoever was logged in on the link before. The
/// agent is then in the table under the id, on its own link, without clients, and to give out id 0
/// first; the link remembers the id. Either way no other agent is touched.
pub proof fn law_agent_login(
    link: AgentHandler,
    agents: Map<u32, AgentModel>,
    post: Map<u32, AgentModel>,
    id: u32,
    cid: u32,
    other: u32,
)
    requires
        link.updates(agents, post, Packet::ReqAgentLogin { id }),
    ensures
        ({
            let login = Packet::ReqAgentLogin { id };
            let after = link.next(agents, login);
            let answer = if agents.contains_key(id) {
                Packet::RspAgentLoginFailed
            } else {
                Packet::RspAgentLoginOk
            };
            &&& link.reply(agents, login) == Ok::<Seq<Action>, InvalidData>(
                seq![Action::Send { to: link.handle, packet: answer }],
            )
            &&& after.handle == link.handle
            &&& agents.contains_key(id) ==> post == agents && after.id == link.id
            &&& !agents.contains_key(id) ==> {
                &&& after.id == Some(id)
                &&& post.contains_key(id)
                &&& post[id].id == id
                &&& post[id].handle == link.handle
                &&& post[id].seed == 0
                &&& !post[id].clients.contains_key(cid)
                &&& other != id ==> {
                    &&& post.contains_key(other) == agents.contains_key(other)
                    &&& post[other] == agents[other]
                }
            }
        }),
{
}

/// When an agent reports a connection, the client that is filed under the very id that it names is
/// asked to open its side, on that client's own link, and the agent on the link that it reported on.
/// It does not matter who else is logged in, or since when. Where there is no such client, only the
/// agent hears so; where there is no such agent, the link ends.
pub proof fn law_connection_goes_to_the_client_it_is_for(
    link: AgentHandler,
    agents: Map<u32, AgentModel>,
    agent_id: u32,
    id: u32,
    sid: u32,
)
    ensures
        ({
            let report = Packet::RspAgentBuild { agent_id, id, sid, ok: true };
            let reply = link.reply(agents, report);
            &&& !agents.contains_key(agent_id) ==> reply is Err
            &&& agents.contains_key(agent_id) && agents[agent_id].clients.contains_key(id)
                ==> reply == Ok::<Seq<Action>, InvalidData>(
                seq![
                    Action::Send {
                        to: agents[agent_id].clients[id].handle,
                        packet: Packet::ReqNewConnectionClient { agent_id, id, sid },
                    },
                    Action::Send {
                        to: link.handle,
                        packet: Packet::ReqNewConnectionAgent { id, sid },
                    },
                ],
            )
            &&& agents.contains_key(agent_id) && !agents[agent_id].clients.contains_key(id)
                ==> reply == Ok::<Seq<Action>, InvalidData>(
                seq![Action::Send { to: link.handle, packet: Packet::RspClientNotFound { id } }],
            )
            &&& link.next(agents, report) == link
        }),
{
}

/// When an agent cannot listen for a client, that client hears that its login failed, on its own
/// link, and the agent that the client is gone. Where there is no such client, nobody hears
/// anything; where there is no such agent, the link ends.
pub proof fn law_failed_listening_goes_to_the_client_it_is_for(
    link: AgentHandler,
    agents: Map<u32, AgentModel>,
    agent_id: u32,
    id: u32,
    sid: u32,
)
    ensures
        ({
            let report = Packet::RspAgentBuild { agent_id, id, sid, ok: false };
            let reply = link.reply(agents, report);
            &&& !agents.contains_key(agent_id) ==> reply is Err
            &&& agents.contains_key(agent_id) && agents[agent_id].clients.contains_key(id)
                ==> reply == Ok::<Seq<Action>, InvalidData>(
                seq![
                    Action::Send {
                        to: agents[agent_id].clients[id].handle,
                        packet: Packet::RspClientLoginFailed,
                    },
                    Action::Send {
                        to: link.handle,
                        packet: Packet::PacketInfoClientClosed { id },
                    },
                ],
            )
            &&& agents.contains_key(agent_id) && !agents[agent_id].clients.contains_key(id)
                ==> reply == Ok::<Seq<Action>, InvalidData>(Seq::empty())
            &&& link.next(agents, report) == link
        }),
{
}

/// A connection that an agent reports is added to the client that it names, with both ends of one
/// channel; if the agent reports that it cannot listen, that client is dropped. Nothing else in the
/// tables changes.
pub proof fn law_report_changes_only_its_client(
    link: AgentHandler,
    agents: Map<u32, AgentModel>,
    post: Map<u32, AgentModel>,
    agent_id: u32,
    id: u32,
    sid: u32,
    ok: bool,
    other: u32,
    other_cid: u32,
    other_sid: u32,
)
    requires
        link.updates(agents, post, Packet::RspAgentBuild { agent_id, id, sid, ok }),
    ensures
        post.dom() == agents.dom(),
        !(agents.contains_key(agent_id) && agents[agent_id].clients.contains_key(id)) ==> post
            == agents,
        other != agent_id ==> post[other] == agents[other],
        agents.contains_key(agent_id) ==> {
            let was = agents[agent_id];
            let now = post[agent_id];
            &&& (now.id, now.handle, now.seed) == (was.id, was.handle, was.seed)
            &&& other_cid != id ==> {
                &&& now.clients.contains_key(other_cid) == was.clients.contains_key(other_cid)
                &&& now.clients[other_cid] == was.clients[other_cid]
            }
            &&& !ok ==> !now.clients.contains_key(id)
            &&& ok && was.clients.contains_key(id) ==> {
                &&& now.clients.contains_key(id)
                &&& now.clients[id].id == was.clients[id].id
                &&& now.clients[id].port == was.clients[id].port
                &&& now.clients[id].handle == was.clients[id].handle
                &&& now.clients[id].conns.contains_key(sid)
                &&& now.clients[id].conns[sid].id == sid
                &&& now.clients[id].conns[sid].rx is Some
                &&& now.clients[id].conns[sid].sx is Some
                &&& connected(
                    now.clients[id].conns[sid].sx->0,
                    now.clients[id].conns[sid].rx->0,
                )
                &&& other_sid != sid ==> {
                    &&& now.clients[id].conns.contains_key(other_sid)
                        == was.clients[id].conns.contains_key(other_sid)
                    &&& now.clients[id].conns[other_sid] == was.clients[id].conns[other_sid]
                }
            }
        },
{
    assert(post.dom() =~= agents.dom());
}

/// That an agent could not open its side is passed on, word for word, to the client that the news
/// names, on that client's own link, and to nobody where there is no such client. The connection is
/// dropped and nothing else is.
pub proof fn law_failed_connection_goes_to_the_client_it_is_for(
    link: AgentHandler,
    agents: Map<u32, AgentModel>,
    post: Map<u32, AgentModel>,
    agent_id: u32,
    cid: u32,
    sid: u32,
    other: u32,
    other_cid: u32,
    other_sid: u32,
)
    requires
        link.updates(agents, post, Packet::PacketInfoConnectFailed { agent_id, cid, sid }),
    ensures
        ({
            let news = Packet::PacketInfoConnectFailed { agent_id, cid, sid };
            let there = agents.contains_key(agent_id) && agents[agent_id].clients.contains_key(cid);
            &&& there ==> link.reply(agents, news) == Ok::<Seq<Action>, InvalidData>(
                seq![
                    Action::Send {
                        to: agents[agent_id].clients[cid].handle,
                        packet: Packet::PacketInfoConnectFailed { agent_id, cid, sid },
                    },
                ],
            )
            &&& !there ==> link.reply(agents, news) == Ok::<Seq<Action>, InvalidData>(Seq::empty())
            &&& link.next(agents, news) == link
            &&& post.dom() == agents.dom()
            &&& !there ==> post == agents
            &&& other != agent_id ==> post[other] == agents[other]
            &&& there ==> {
                let was = agents[agent_id];
                let now = post[agent_id];
                &&& (now.id, now.handle, now.seed) == (was.id, was.handle, was.seed)
                &&& now.clients.dom() == was.clients.dom()
                &&& other_cid != cid ==> now.clients[other_cid] == was.clients[other_cid]
                &&& now.clients[cid].id == was.clients[cid].id
                &&& now.clients[cid].port == was.clients[cid].port
                &&& now.clients[cid].handle == was.clients[cid].handle
                &&& !now.clients[cid].conns.contains_key(sid)
                &&& other_sid != sid ==> {
                    &&& now.clients[cid].conns.contains_key(other_sid)
                        == was.clients[cid].conns.contains_key(other_sid)
                    &&& now.clients[cid].conns[other_sid] == was.clients[cid].conns[other_sid]
                }
            }
        }),
{
    assert(post.dom() =~= agents.dom());
    if agents.contains_key(agent_id) {
        assert(post[agent_id].clients.dom() =~= agents[agent_id].clients.dom());
        if !agents[agent_id].clients.contains_key(cid) {
            assert(post =~= agents);
        }
    }
}

/// A heartbeat goes back on the link that it came on, and changes nothing. A packet that is not an
/// agent's ends the link and changes nothing.
pub proof fn law_other_packets_of_an_agent(
    link: AgentHandler,
    agents: Map<u32, AgentModel>,
    post: Map<u32, AgentModel>,
    packet: Packet,
)
    requires
        link.updates(agents, post, packet),
    ensures
        packet matches Packet::PacketHbAgent { id } ==> {
            &&& link.reply(agents, packet) == Ok::<Seq<Action>, InvalidData>(
                seq![Action::Send { to: link.handle, packet: Packet::PacketHbAgent { id } }],
            )
            &&& link.next(agents, packet) == link
            &&& post == agents
        },
        AgentHandler::accepts(packet) <==> match packet {
            Packet::ReqAgentLogin { .. } => true,
            Packet::PacketHbAgent { .. } => true,
            Packet::RspAgentBuild { .. } => true,
            Packet::PacketInfoConnectFailed { .. } => true,
            _ => false,
        },
        !AgentHandler::accepts(packet) ==> {
            &&& link.reply(agents, packet) is Err
            &&& link.next(agents, packet) == link
            &&& post == agents
        },
{
}

/// When the link of an agent that is logged in ends, the agent and all that is its own is gone, and
/// no other agent is touched. As many links are closed as it had clients, and one: each client's,
/// and last its own. Nothing happens at the end of a link on which nobody is logged in.
pub proof fn law_agent_leaves_with_its_clients(
    link: AgentHandler,
    agents: Map<u32, AgentModel>,
    post: Map<u32, AgentModel>,
    actions: Seq<Action>,
    cid: u32,
    i: int,
    other: u32,
)
    requires
        logs_out(link, agents, post, actions),
    ensures
        link.id is None || !agents.contains_key(link.id->0) ==> post == agents && actions.len()
            == 0,
        link.id is Some ==> !post.contains_key(link.id->0),
        link.id != Some(other) ==> {
            &&& post.contains_key(other) == agents.contains_key(other)
            &&& post[other] == agents[other]
        },
        link.id is Some && agents.contains_key(link.id->0) ==> {
            let agent = agents[link.id->0];
            &&& actions.len() == agent.clients.dom().len() + 1
            &&& actions.last() == (Action::Close { to: agent.handle })
            &&& agent.clients.contains_key(cid) ==> exists|j: int|
                0 <= j < actions.len() - 1 && actions[j] == (Action::Close {
                    to: agent.clients[cid].handle,
                })
            &&& 0 <= i < actions.len() - 1 ==> exists|owner: u32| #[trigger]
                agent.clients.contains_key(owner) && actions[i] == (Action::Close {
                    to: agent.clients[owner].handle,
                })
        },
{
    if link.id is Some && agents.contains_key(link.id->0) {
        let agent = agents[link.id->0];
        let order = choose|order: Seq<u32>|
            lists_clients(agent, order) && actions == closings(#[trigger] links_in(agent, order));
        let links = links_in(agent, order);
        law_links_to_close(agent, links, cid, i);
        if agent.clients.contains_key(cid) {
            let j = choose|j: int|
                0 <= j < links.len() - 1 && links[j] == agent.clients[cid].handle;
            assert(actions[j] == (Action::Close { to: agent.clients[cid].handle }));
        }
        if 0 <= i < actions.len() - 1 {
            let owner = choose|owner: u32| #[trigger]
                agent.clients.contains_key(owner) && links[i] == agent.clients[owner].handle;
            assert(agent.clients.contains_key(owner) && actions[i] == (Action::Close {
                to: agent.clients[owner].handle,
            }));
        }
    }
}

} // verus!

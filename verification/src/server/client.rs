//! The server's end of a client's control link.

use std::collections::hash_map::Entry;
use vstd::prelude::*;
use crate::link::{Action, Handle, InvalidData};
use crate::protocol::Packet;
use crate::server::agent::answers;
use crate::server::agents::{agents_wf, Agents};
use crate::server::conn::AgentModel;

verus! {

broadcast use {
    vstd::std_specs::hash::group_hash_axioms,
    vstd::std_specs::hash::axiom_has_resolved_occupied_entry,
    vstd::std_specs::hash::axiom_has_resolved_vacant_entry,
};

/// A client's link, the id under which the client is logged in, and the agent to tell when the
/// link is gone.
#[derive(Clone, Copy, PartialEq, Eq, Structural, Debug)]
pub struct ClientHandler {
    pub handle: Handle,
    pub id: Option<u32>,
    pub aid: Option<u32>,
}

/// The closing of a link, if there is one to close.
pub open spec fn closing(link: Option<Handle>) -> Seq<Action> {
    match link {
        Some(to) => seq![Action::Close { to }],
        None => seq![],
    }
}

impl ClientHandler {
    /// The packets that a client may send.
    pub open spec fn accepts(packet: Packet) -> bool {
        packet is ReqClientLogin || packet is PacketHbClient || packet is RspNewConnFailedClient
    }

    /// What the server does on a packet from the client.
    pub open spec fn reply(self, agents: Map<u32, AgentModel>, packet: Packet) -> Result<
        Seq<Action>,
        InvalidData,
    > {
        let me = self.handle;
        match packet {
            Packet::PacketHbClient { .. } => Ok(seq![Action::Send { to: me, packet }]),
            Packet::ReqClientLogin { id, port } => if agents.contains_key(id) {
                let cid = agents[id].seed;
                Ok(
                    closing(agents[id].client_handle(cid)) + seq![
                        Action::Send {
                            to: me,
                            packet: Packet::RspClientLoginOk { agent_id: id, id: cid },
                        },
                        Action::Send {
                            to: agents[id].handle,
                            packet: Packet::ReqAgentBuild { port, id: cid },
                        },
                    ],
                )
            } else {
                Ok(seq![Action::Send { to: me, packet: Packet::RspServiceNotFound }])
            },
            Packet::RspNewConnFailedClient { agent_id, id, .. } => if agents.contains_key(
                agent_id,
            ) {
                Ok(
                    seq![
                        Action::Close { to: me },
                        Action::Send {
                            to: agents[agent_id].handle,
                            packet: Packet::PacketInfoClientClosed { id },
                        },
                    ],
                )
            } else {
                Ok(seq![Action::Close { to: me }])
            },
            _ => Err(InvalidData),
        }
    }

    /// The handler after a packet: it remembers the id that a login gave the client.
    pub open spec fn next(self, agents: Map<u32, AgentModel>, packet: Packet) -> ClientHandler {
        match packet {
            Packet::ReqClientLogin { id, .. } => if agents.contains_key(id) {
                ClientHandler { id: Some(agents[id].seed), ..self }
            } else {
                self
            },
            _ => self,
        }
    }

    /// The tables after a packet from the client.
    pub open spec fn updated(self, agents: Map<u32, AgentModel>, packet: Packet) -> Map<
        u32,
        AgentModel,
    > {
        match packet {
            Packet::ReqClientLogin { id, port } => if agents.contains_key(id) {
                agents.insert(id, agents[id].with_next_client(self.handle, port))
            } else {
                agents
            },
            _ => agents,
        }
    }

    /// Whether the handler knows a client and an agent that is logged in.
    pub open spec fn knows_agent(self, agents: Map<u32, AgentModel>) -> bool {
        self.aid is Some && self.id is Some && agents.contains_key(self.aid->0)
    }

    /// What the server does when the link is gone.
    pub open spec fn farewell(self, agents: Map<u32, AgentModel>) -> Seq<Action> {
        if self.knows_agent(agents) {
            seq![
                Action::Send {
                    to: agents[self.aid->0].handle,
                    packet: Packet::PacketInfoClientClosed { id: self.id->0 },
                },
            ]
        } else {
            seq![]
        }
    }

    /// The tables when the link is gone.
    pub open spec fn without_me(self, agents: Map<u32, AgentModel>) -> Map<u32, AgentModel> {
        if self.knows_agent(agents) {
            agents.insert(self.aid->0, agents[self.aid->0].without_client(self.id->0))
        } else {
            agents
        }
    }

    /// The handler of a new link; no client is logged in on it.
    pub fn new(handle: Handle) -> (r: ClientHandler)
        ensures
            r == (ClientHandler { handle, id: None, aid: None }),
    {
        ClientHandler { handle, id: None, aid: None }
    }

    /// Processes a packet from the client.
    pub fn proc(&mut self, agents: &mut Agents, packet: Packet) -> (r: Result<
        Vec<Action>,
        InvalidData,
    >)
        ensures
            answers(r, old(self).reply(old(agents)@, packet)),
            *final(self) == old(self).next(old(agents)@, packet),
            final(agents)@ == old(self).updated(old(agents)@, packet),
            agents_wf(old(agents)@) ==> agents_wf(final(agents)@),
    {
        match packet {
            Packet::PacketHbClient { .. } => Ok(vec![Action::Send { to: self.handle, packet }]),
            Packet::ReqClientLogin { id, port } => Ok(self.login(agents, id, port)),
            Packet::RspNewConnFailedClient { agent_id, id, .. } => {
                let mut actions = vec![Action::Close { to: self.handle }];
                assert(agents@.contains_key(agent_id) == agents.agents@.contains_key(agent_id));
                match agents.agents.get(&agent_id) {
                    Some(agent) => actions.push(
                        Action::Send {
                            to: agent.handle(),
                            packet: Packet::PacketInfoClientClosed { id },
                        },
                    ),
                    None => {},
                }
                Ok(actions)
            },
            _ => Err(InvalidData),
        }
    }

    /// Logs the client in at an agent and has the agent listen, unless there is no such agent.
    fn login(&mut self, agents: &mut Agents, aid: u32, port: u16) -> (r: Vec<Action>)
        ensures
            answers(
                Ok(r),
                old(self).reply(old(agents)@, Packet::ReqClientLogin { id: aid, port }),
            ),
            *final(self) == old(self).next(
                old(agents)@,
                Packet::ReqClientLogin { id: aid, port },
            ),
            final(agents)@ == old(self).updated(
                old(agents)@,
                Packet::ReqClientLogin { id: aid, port },
            ),
            agents_wf(old(agents)@) ==> agents_wf(final(agents)@),
    {
        let mut actions: Vec<Action> = Vec::new();
        match agents.agents.entry(aid) {
            Entry::Vacant(_) => {
                actions.push(Action::Send { to: self.handle, packet: Packet::RspServiceNotFound });
            },
            Entry::Occupied(slot) => {
                let agent = slot.into_mut();
                let (cid, replaced) = agent.insert_client(self.handle, port);
                self.id = Some(cid);
                if let Some(to) = replaced {
                    actions.push(Action::Close { to });
                }
                actions.push(
                    Action::Send {
                        to: self.handle,
                        packet: Packet::RspClientLoginOk { agent_id: aid, id: cid },
                    },
                );
                actions.push(
                    Action::Send {
                        to: agent.handle(),
                        packet: Packet::ReqAgentBuild { port, id: cid },
                    },
                );
            },
        }
        assert(agents@ =~= old(self).updated(
            old(agents)@,
            Packet::ReqClientLogin { id: aid, port },
        ));
        actions
    }

    /// The link is gone: if the handler knows the client and its agent, the agent is told and the
    /// client dropped.
    pub fn disconnect(&self, agents: &mut Agents) -> (r: Vec<Action>)
        ensures
            r@ == self.farewell(old(agents)@),
            final(agents)@ == self.without_me(old(agents)@),
            agents_wf(old(agents)@) ==> agents_wf(final(agents)@),
    {
        let ghost pre = agents@;
        let mut actions: Vec<Action> = Vec::new();
        if let (Some(aid), Some(id)) = (self.aid, self.id) {
            match agents.agents.entry(aid) {
                Entry::Vacant(_) => {},
                Entry::Occupied(slot) => {
                    let agent = slot.into_mut();
                    actions.push(
                        Action::Send {
                            to: agent.handle(),
                            packet: Packet::PacketInfoClientClosed { id },
                        },
                    );
                    agent.remove_client(id);
                },
            }
            proof {
                if pre.contains_key(aid) {
                    assert(agents@ =~= pre.insert(aid, pre[aid].without_client(id)));
                } else {
                    assert(agents@ =~= pre);
                }
            }
        }
        actions
    }
}

/// A client that logs in at an agent that is there gets the id that the agent was to give out next,
/// and is filed under it with its own link and port. It hears its id on its own link, and the agent
/// hears on its own link to listen for that id. If the id was still in use, the link of the client
/// that had it is closed first. The next client gets the next number. Nothing else changes.
pub proof fn law_client_login(
    link: ClientHandler,
    agents: Map<u32, AgentModel>,
    aid: u32,
    port: u16,
    sid: u32,
    other: u32,
    other_cid: u32,
)
    requires
        agents.contains_key(aid),
    ensures
        ({
            let login = Packet::ReqClientLogin { id: aid, port };
            let was = agents[aid];
            let cid = was.seed;
            let told = seq![
                Action::Send {
                    to: link.handle,
                    packet: Packet::RspClientLoginOk { agent_id: aid, id: cid },
                },
                Action::Send {
                    to: was.handle,
                    packet: Packet::ReqAgentBuild { port, id: cid },
                },
            ];
            let after = link.next(agents, login);
            let post = link.updated(agents, login);
            let now = post[aid];
            &&& !was.clients.contains_key(cid) ==> link.reply(agents, login) == Ok::<
                Seq<Action>,
                InvalidData,
            >(told)
            &&& was.clients.contains_key(cid) ==> link.reply(agents, login) == Ok::<
                Seq<Action>,
                InvalidData,
            >(seq![Action::Close { to: was.clients[cid].handle }, told[0], told[1]])
            &&& (after.handle, after.aid) == (link.handle, link.aid)
            &&& after.id == Some(cid)
            &&& post.dom() == agents.dom()
            &&& other != aid ==> post[other] == agents[other]
            &&& (now.id, now.handle) == (was.id, was.handle)
            &&& now.seed == (was.seed + 1) % 0x1_0000_0000
            &&& now.clients.contains_key(cid)
            &&& now.clients[cid].id == cid
            &&& now.clients[cid].handle == link.handle
            &&& now.clients[cid].port == port
            &&& !now.clients[cid].conns.contains_key(sid)
            &&& other_cid != cid ==> {
                &&& now.clients.contains_key(other_cid) == was.clients.contains_key(other_cid)
                &&& now.clients[other_cid] == was.clients[other_cid]
            }
        }),
{
    let login = Packet::ReqClientLogin { id: aid, port };
    assert(link.updated(agents, login).dom() =~= agents.dom());
    let cid = agents[aid].seed;
    let told = seq![
        Action::Send {
            to: link.handle,
            packet: Packet::RspClientLoginOk { agent_id: aid, id: cid },
        },
        Action::Send {
            to: agents[aid].handle,
            packet: Packet::ReqAgentBuild { port, id: cid },
        },
    ];
    let actions = link.reply(agents, login)->Ok_0;
    if agents[aid].clients.contains_key(cid) {
        assert(actions =~= seq![
            Action::Close { to: agents[aid].clients[cid].handle },
            told[0],
            told[1],
        ]);
    } else {
        assert(actions =~= told);
    }
}

/// A client that logs in at an agent that is not there hears so, and nothing changes.
pub proof fn law_client_login_without_agent(
    link: ClientHandler,
    agents: Map<u32, AgentModel>,
    aid: u32,
    port: u16,
)
    requires
        !agents.contains_key(aid),
    ensures
        ({
            let login = Packet::ReqClientLogin { id: aid, port };
            &&& link.reply(agents, login) == Ok::<Seq<Action>, InvalidData>(
                seq![Action::Send { to: link.handle, packet: Packet::RspServiceNotFound }],
            )
            &&& link.next(agents, login) == link
            &&& link.updated(agents, login) == agents
        }),
{
}

/// When a client reports that it could not open its side, its own link is closed, and the agent that
/// the report names, if it is there, hears on its own link that the client that the report names is
/// gone. The tables do not change.
pub proof fn law_failed_client_is_closed(
    link: ClientHandler,
    agents: Map<u32, AgentModel>,
    agent_id: u32,
    id: u32,
    sid: u32,
)
    ensures
        ({
            let report = Packet::RspNewConnFailedClient { agent_id, id, sid };
            &&& agents.contains_key(agent_id) ==> link.reply(agents, report) == Ok::<
                Seq<Action>,
                InvalidData,
            >(
                seq![
                    Action::Close { to: link.handle },
                    Action::Send {
                        to: agents[agent_id].handle,
                        packet: Packet::PacketInfoClientClosed { id },
                    },
                ],
            )
            &&& !agents.contains_key(agent_id) ==> link.reply(agents, report) == Ok::<
                Seq<Action>,
                InvalidData,
            >(seq![Action::Close { to: link.handle }])
            &&& link.next(agents, report) == link
            &&& link.updated(agents, report) == agents
        }),
{
}

/// A heartbeat goes back on the link that it came on, and changes nothing. A packet that is not a
/// client's ends the link and changes nothing.
pub proof fn law_other_packets_of_a_client(
    link: ClientHandler,
    agents: Map<u32, AgentModel>,
    packet: Packet,
)
    ensures
        packet matches Packet::PacketHbClient { id } ==> {
            &&& link.reply(agents, packet) == Ok::<Seq<Action>, InvalidData>(
                seq![Action::Send { to: link.handle, packet: Packet::PacketHbClient { id } }],
            )
            &&& link.next(agents, packet) == link
            &&& link.updated(agents, packet) == agents
        },
        ClientHandler::accepts(packet) <==> match packet {
            Packet::ReqClientLogin { .. } => true,
            Packet::PacketHbClient { .. } => true,
            Packet::RspNewConnFailedClient { .. } => true,
            _ => false,
        },
        !ClientHandler::accepts(packet) ==> {
            &&& link.reply(agents, packet) is Err
            &&& link.next(agents, packet) == link
            &&& link.updated(agents, packet) == agents
        },
{
}

/// When the link of a client ends whose id and agent the handler knows, the agent hears on its own
/// link that this client is gone, and this client alone is dropped. Nothing happens where either is
/// not known, or the agent is not there.
pub proof fn law_client_takes_leave(
    link: ClientHandler,
    agents: Map<u32, AgentModel>,
    other: u32,
    other_cid: u32,
)
    ensures
        ({
            let known = link.aid is Some && link.id is Some && agents.contains_key(link.aid->0);
            let post = link.without_me(agents);
            &&& link.knows_agent(agents) <==> known
            &&& !known ==> post == agents && link.farewell(agents).len() == 0
            &&& known ==> {
                let was = agents[link.aid->0];
                let now = post[link.aid->0];
                &&& link.farewell(agents) == seq![
                    Action::Send {
                        to: was.handle,
                        packet: Packet::PacketInfoClientClosed { id: link.id->0 },
                    },
                ]
                &&& post.dom() == agents.dom()
                &&& other != link.aid->0 ==> post[other] == agents[other]
                &&& (now.id, now.handle, now.seed) == (was.id, was.handle, was.seed)
                &&& now.clients.contains_key(other_cid) <==> was.clients.contains_key(other_cid)
                    && other_cid != link.id->0
                &&& now.clients.contains_key(other_cid) ==> now.clients[other_cid]
                    == was.clients[other_cid]
            }
        }),
{
    let post = link.without_me(agents);
    if link.aid is Some && link.id is Some && agents.contains_key(link.aid->0) {
        assert(post.dom() =~= agents.dom());
    }
}

/// Closing a link that is there is one action on that link; where there is none, it is none.
pub proof fn law_closing_closes_that_link(to: Handle)
    ensures
        closing(Some(to)).len() == 1,
        closing(Some(to))[0] == (Action::Close { to }),
        closing(None).len() == 0,
{
}

} // verus!

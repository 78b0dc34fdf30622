//! What holds of the server and its peers together.

use vstd::prelude::*;
use crate::agent::{
    law_dial_is_about_its_connection, Dialed, Effect as AgentEffect, HandlerModel,
};
use crate::channel::connected;
use crate::client::{ClientModel, DialStep, Effect as ClientEffect};
use crate::link::{Action, Handle, InvalidData};
use crate::protocol::{law_compose_then_read, Packet, Preamble};
use crate::server::agent::AgentHandler;
use crate::server::agents::{after_side, agents_wf, side_of, Side};
use crate::server::client::ClientHandler;
use crate::server::conn::AgentModel;
use crate::server::laws::{
    law_connection_is_set_up, law_sides_meet, law_step_keeps_order, preamble_of, Step,
};

verus! {

/// A stream travels end to end. The client logs in and learns its id; the agent is told to listen
/// for that id. The agent accepts a stream and tells the server; the server has both open their
/// sides. The client, once its steps went well, relays; the agent relays the very stream that it
/// accepted; and the server joins the two connections through one channel.
pub proof fn law_stream_travels_end_to_end(
    client: ClientModel,
    agent: HandlerModel,
    client_link: ClientHandler,
    agent_link: AgentHandler,
    agents: Map<u32, AgentModel>,
    post: Map<u32, AgentModel>,
    stream: u64,
    client_first: bool,
)
    requires
        agents_wf(agents),
        client.args.agentid == agent.id,
        agents.contains_key(agent.id),
        agents[agent.id].handle == agent_link.handle,
        ({
            let mid = client_link.updated(
                agents,
                Packet::ReqClientLogin { id: agent.id, port: client.args.port },
            );
            agent_link.updates(
                mid,
                post,
                Packet::RspAgentBuild {
                    agent_id: agent.id,
                    id: agents[agent.id].seed,
                    sid: agent.seed,
                    ok: true,
                },
            )
        }),
    ensures
        ({
            let aid = agent.id;
            let port = client.args.port;
            let cid = agents[aid].seed;
            let sid = agent.seed;
            let mid = client_link.updated(agents, Packet::ReqClientLogin { id: aid, port });
            let logged_in = client.next(Packet::RspClientLoginOk { agent_id: aid, id: cid });
            let waiting = agent.with_next_stream(cid, stream);
            let client_side = preamble_of(aid, cid, sid, true);
            let agent_side = preamble_of(aid, cid, sid, false);
            let local = DialStep::Local { preamble: client_side };
            let remote = DialStep::Remote { preamble: client_side };
            let greet = DialStep::Greet { preamble: client_side };
            let rx = post[aid].rx(cid, sid)->0;
            let sx = post[aid].sx(cid, sid)->0;
            &&& logged_in.is_mine(aid, cid)
            &&& agent.after_accept(cid).last() == AgentEffect::Send(
                Packet::RspAgentBuild { agent_id: aid, id: cid, sid, ok: true },
            )
            &&& agent.reply(Packet::ReqAgentBuild { port, id: cid }) == seq![
                AgentEffect::Listen { cid, port },
            ]
            &&& agent_link.reply(
                mid,
                Packet::RspAgentBuild { agent_id: aid, id: cid, sid, ok: true },
            ) == Ok::<Seq<Action>, InvalidData>(
                seq![
                    Action::Send {
                        to: client_link.handle,
                        packet: Packet::ReqNewConnectionClient { agent_id: aid, id: cid, sid },
                    },
                    Action::Send {
                        to: agent_link.handle,
                        packet: Packet::ReqNewConnectionAgent { id: cid, sid },
                    },
                ],
            )
            &&& logged_in.reply(
                Packet::ReqNewConnectionClient { agent_id: aid, id: cid, sid },
            ) == seq![ClientEffect::Dial { id: cid, sid, step: local }]
            &&& logged_in.after_dial(cid, sid, local, true) == (ClientEffect::Dial {
                id: cid,
                sid,
                step: remote,
            })
            &&& logged_in.after_dial(cid, sid, remote, true) == (ClientEffect::Dial {
                id: cid,
                sid,
                step: greet,
            })
            &&& logged_in.after_dial(cid, sid, greet, true) == (ClientEffect::Relay { sid })
            &&& waiting.reply(Packet::ReqNewConnectionAgent { id: cid, sid }) == seq![
                AgentEffect::Dial { cid, sid, preamble: agent_side },
            ]
            &&& waiting.after_dial(cid, sid, Dialed::Ready) == seq![
                AgentEffect::Relay { cid, sid, stream },
            ]
            &&& connected(sx, rx)
            &&& client_first ==> {
                &&& side_of(post, client_side) == (Side::Wait { sid, rx })
                &&& side_of(after_side(post, client_side), agent_side) == (Side::Deliver { sx })
            }
            &&& !client_first ==> {
                &&& side_of(post, agent_side) == (Side::Deliver { sx })
                &&& side_of(after_side(post, agent_side), client_side) == (Side::Wait { sid, rx })
            }
        }),
{
    let aid = agent.id;
    let port = client.args.port;
    let cid = agents[aid].seed;
    let sid = agent.seed;
    law_connection_is_set_up(client_link, agent_link, agents, post, aid, port, sid);
    let login = Packet::ReqClientLogin { id: aid, port };
    let build = Packet::RspAgentBuild { agent_id: aid, id: cid, sid, ok: true };
    let mid = client_link.updated(agents, login);
    law_step_keeps_order(agents, Step::FromClient { client: client_link, packet: login }, mid);
    law_step_keeps_order(mid, Step::FromAgent { agent: agent_link, packet: build }, post);
    law_sides_meet(post, aid, cid, sid, client_first);
}

/// If the agent cannot open its side of a connection, its own report of it reaches the client that
/// the connection is for: the agent shuts the stream down, the server drops the connection and
/// passes the report on as it is, on the link of that client, and the client stops the relay of that
/// connection and no other.
pub proof fn law_agent_failure_reaches_client(
    client: ClientModel,
    agent: HandlerModel,
    client_handle: Handle,
    agent_link: AgentHandler,
    agents: Map<u32, AgentModel>,
    post: Map<u32, AgentModel>,
    cid: u32,
    sid: u32,
    side: Preamble,
    other: u32,
)
    requires
        agents.contains_key(agent.id),
        agents[agent.id].clients.contains_key(cid),
        agents[agent.id].clients[cid].handle == client_handle,
        client.args.agentid == agent.id,
        client.id == Some(cid),
        client.locals.contains_key(sid),
        ({
            let report = agent.after_dial(cid, sid, Dialed::Unreachable).last();
            report is Send && agent_link.updates(agents, post, report->Send_0)
        }),
        side == preamble_of(agent.id, cid, sid, true) || side == preamble_of(
            agent.id,
            cid,
            sid,
            false,
        ),
    ensures
        ({
            let effects = agent.after_dial(cid, sid, Dialed::Unreachable);
            let news = effects.last()->Send_0;
            &&& news == (Packet::PacketInfoConnectFailed { agent_id: agent.id, cid, sid })
            &&& agent.conns.contains_key(cid) && agent.conns[cid].contains_key(sid) ==> effects[0]
                == AgentEffect::Shutdown(agent.conns[cid][sid])
            &&& agent_link.reply(agents, news) == Ok::<Seq<Action>, InvalidData>(
                seq![Action::Send { to: client_handle, packet: news }],
            )
            &&& side_of(post, side) == Side::Refuse
            &&& client.reply(news) == seq![ClientEffect::Abort(client.locals[sid])]
            &&& !client.next(news).locals.contains_key(sid)
            &&& other != sid && client.locals.contains_key(other) ==> {
                &&& client.next(news).locals.contains_key(other)
                &&& client.next(news).locals[other] == client.locals[other]
            }
        }),
{
    law_compose_then_read(sid, true);
    law_compose_then_read(sid, false);
    law_dial_is_about_its_connection(agent, cid, sid);
}

/// If the agent cannot listen for a client, the client leaves. The client logs in and hears that it
/// is logged in; the agent's own report that it cannot listen then has the server drop the client
/// and tell it, on its own link; and what the server sends makes the client close its link and exit,
/// though it was logged in. The agent hears that this client is gone.
pub proof fn law_failed_listening_makes_client_leave(
    client: ClientModel,
    agent: HandlerModel,
    client_link: ClientHandler,
    agent_link: AgentHandler,
    agents: Map<u32, AgentModel>,
    post: Map<u32, AgentModel>,
)
    requires
        client.args.agentid == agent.id,
        agents.contains_key(agent.id),
        ({
            let login = client.args.greeting();
            let report = agent.bind_report(agents[agent.id].seed);
            &&& report is Send
            &&& agent_link.updates(client_link.updated(agents, login), post, report->Send_0)
        }),
    ensures
        ({
            let cid = agents[agent.id].seed;
            let login = client.args.greeting();
            let welcome = Packet::RspClientLoginOk { agent_id: agent.id, id: cid };
            let report = agent.bind_report(cid)->Send_0;
            let told = client_link.reply(agents, login)->Ok_0;
            let answer = agent_link.reply(client_link.updated(agents, login), report)->Ok_0;
            &&& told.contains(Action::Send { to: client_link.handle, packet: welcome })
            &&& client.next(welcome).id == Some(cid)
            &&& answer.len() == 2
            &&& answer[0] matches Action::Send { to, packet }
            &&& to == client_link.handle
            &&& client.next(welcome).reply(packet) == seq![ClientEffect::Close, ClientEffect::Exit]
            &&& client.reply(packet) == seq![ClientEffect::Close, ClientEffect::Exit]
            &&& answer[1] matches Action::Send { to: back, packet: gone }
            &&& back == agent_link.handle
            &&& HandlerModel::gone(gone) == Some(cid)
            &&& !post[agent.id].clients.contains_key(cid)
        }),
{
    let cid = agents[agent.id].seed;
    let login = Packet::ReqClientLogin { id: agent.id, port: client.args.port };
    let told = client_link.reply(agents, login)->Ok_0;
    let welcome = Action::Send {
        to: client_link.handle,
        packet: Packet::RspClientLoginOk { agent_id: agent.id, id: cid },
    };
    assert(told[told.len() - 2] == welcome);
}

/// A client that asks for an agent that is not there leaves: what the server sends in answer to its
/// login, on its own link, makes it close the link and exit.
pub proof fn law_login_without_agent_makes_client_leave(
    client: ClientModel,
    client_link: ClientHandler,
    agents: Map<u32, AgentModel>,
)
    requires
        !agents.contains_key(client.args.agentid),
    ensures
        ({
            let login = client.args.greeting();
            let answer = client_link.reply(agents, login)->Ok_0;
            &&& client_link.reply(agents, login) is Ok
            &&& answer.len() == 1
            &&& answer[0] matches Action::Send { to, packet }
            &&& to == client_link.handle
            &&& client.reply(packet) == seq![ClientEffect::Close, ClientEffect::Exit]
            &&& client_link.updated(agents, login) == agents
        }),
{
}

/// An agent whose id is taken leaves, and one whose id is free sends heartbeats with its id, which
/// come back: what the server sends in answer to the login, on the agent's link, makes it do so.
pub proof fn law_agent_login_is_answered(
    agent: HandlerModel,
    agent_link: AgentHandler,
    agents: Map<u32, AgentModel>,
    later: Map<u32, AgentModel>,
)
    ensures
        ({
            let answer = agent_link.reply(agents, agent.greeting())->Ok_0;
            &&& agent_link.reply(agents, agent.greeting()) is Ok
            &&& agent.greeting() == (Packet::ReqAgentLogin { id: agent.id })
            &&& answer.len() == 1
            &&& answer[0] matches Action::Send { to, packet }
            &&& to == agent_link.handle
            &&& agents.contains_key(agent.id) ==> agent.reply(packet) == seq![
                AgentEffect::Close,
                AgentEffect::Exit,
            ]
            &&& !agents.contains_key(agent.id) ==> {
                let beat = Packet::PacketHbAgent { id: agent.id };
                &&& agent.reply(packet) == seq![AgentEffect::Heartbeat(beat)]
                &&& agent_link.reply(later, beat) == Ok::<Seq<Action>, InvalidData>(
                    seq![Action::Send { to: agent_link.handle, packet: beat }],
                )
            }
        }),
{
}

/// If the client cannot open its side of a connection, whatever the step that failed, the server
/// ends the client's link and has the agent drop everything of the client.
pub proof fn law_client_failure_reaches_agent(
    client: ClientModel,
    client_link: ClientHandler,
    agents: Map<u32, AgentModel>,
    cid: u32,
    sid: u32,
    step: DialStep,
)
    requires
        agents.contains_key(client.args.agentid),
    ensures
        ({
            let aid = client.args.agentid;
            let news = Packet::RspNewConnFailedClient { agent_id: aid, id: cid, sid };
            let gone = Packet::PacketInfoClientClosed { id: cid };
            &&& client.after_dial(cid, sid, step, false) == ClientEffect::Send(news)
            &&& client_link.reply(agents, news) == Ok::<Seq<Action>, InvalidData>(
                seq![
                    Action::Close { to: client_link.handle },
                    Action::Send { to: agents[aid].handle, packet: gone },
                ],
            )
            &&& HandlerModel::gone(gone) == Some(cid)
        }),
{
}

/// A heartbeat comes back from the server as it was sent, and changes nothing anywhere.
pub proof fn law_heartbeat_comes_back(
    client: ClientModel,
    agent: HandlerModel,
    client_link: ClientHandler,
    agent_link: AgentHandler,
    agents: Map<u32, AgentModel>,
    post: Map<u32, AgentModel>,
    id: u32,
)
    requires
        agent_link.updates(agents, post, Packet::PacketHbAgent { id }),
    ensures
        agent_link.reply(agents, Packet::PacketHbAgent { id }) == Ok::<Seq<Action>, InvalidData>(
            seq![Action::Send { to: agent_link.handle, packet: Packet::PacketHbAgent { id } }],
        ),
        post == agents,
        agent.reply(Packet::PacketHbAgent { id }) == Seq::<AgentEffect>::empty(),
        client_link.reply(agents, Packet::PacketHbClient { id }) == Ok::<Seq<Action>, InvalidData>(
            seq![Action::Send { to: client_link.handle, packet: Packet::PacketHbClient { id } }],
        ),
        client_link.updated(agents, Packet::PacketHbClient { id }) == agents,
        client.reply(Packet::PacketHbClient { id }) == Seq::<ClientEffect>::empty(),
        client.next(Packet::PacketHbClient { id }) == client,
{
}

/// Whether a packet that the server sends goes to an agent's link and agents accept it, or to a
/// client's link and clients do. `agent` and `client` are the links that the server answers on.
pub open spec fn may_go(
    agents: Map<u32, AgentModel>,
    agent: Option<Handle>,
    client: Option<Handle>,
    action: Action,
) -> bool {
    match action {
        Action::Send { to, packet } => {
            let to_agent = agent == Some(to) || exists|aid: u32| #[trigger]
                agents.contains_key(aid) && agents[aid].handle == to;
            let to_client = client == Some(to) || exists|aid: u32, cid: u32|
                agents.contains_key(aid) && #[trigger] agents[aid].client_handle(cid) == Some(to);
            to_agent && HandlerModel::accepts(packet) || to_client && ClientModel::accepts(packet)
        },
        Action::Close { .. } => true,
    }
}

/// What the server sends in answer to an agent is understood: every packet goes to the link of an
/// agent or client that accepts it.
pub proof fn law_answers_to_agent_are_understood(
    link: AgentHandler,
    agents: Map<u32, AgentModel>,
    packet: Packet,
    i: int,
)
    requires
        link.reply(agents, packet) is Ok,
        0 <= i < link.reply(agents, packet)->Ok_0.len(),
    ensures
        may_go(agents, Some(link.handle), None, link.reply(agents, packet)->Ok_0[i]),
{
}

/// What the server sends in answer to a client is understood: every packet goes to the link of an
/// agent or client that accepts it.
pub proof fn law_answers_to_client_are_understood(
    link: ClientHandler,
    agents: Map<u32, AgentModel>,
    packet: Packet,
    i: int,
)
    requires
        link.reply(agents, packet) is Ok,
        0 <= i < link.reply(agents, packet)->Ok_0.len(),
    ensures
        may_go(agents, None, Some(link.handle), link.reply(agents, packet)->Ok_0[i]),
{
}

/// The packet that an agent's effect sends, now or at every heartbeat.
pub open spec fn agent_sends(effect: AgentEffect) -> Option<Packet> {
    match effect {
        AgentEffect::Send(packet) => Some(packet),
        AgentEffect::Heartbeat(packet) => Some(packet),
        _ => None,
    }
}

/// The packet that a client's effect sends, now or at every heartbeat.
pub open spec fn client_sends(effect: ClientEffect) -> Option<Packet> {
    match effect {
        ClientEffect::Send(packet) => Some(packet),
        ClientEffect::Heartbeat(packet) => Some(packet),
        _ => None,
    }
}

/// What an agent sends in answer to the server is understood.
pub proof fn law_agent_is_understood(agent: HandlerModel, packet: Packet, i: int)
    requires
        0 <= i < agent.reply(packet).len(),
    ensures
        agent_sends(agent.reply(packet)[i]) matches Some(sent) ==> AgentHandler::accepts(sent),
{
}

/// What a client sends in answer to the server is understood.
pub proof fn law_client_is_understood(client: ClientModel, packet: Packet, i: int)
    requires
        0 <= i < client.reply(packet).len(),
    ensures
        client_sends(client.reply(packet)[i]) matches Some(sent) ==> ClientHandler::accepts(sent),
{
}

/// What the peers send when they have tried to open their sides of a connection is understood.
pub proof fn law_dial_reports_are_understood(
    client: ClientModel,
    agent: HandlerModel,
    id: u32,
    sid: u32,
    step: DialStep,
    ok: bool,
    outcome: Dialed,
    i: int,
)
    ensures
        client_sends(client.after_dial(id, sid, step, ok)) matches Some(sent)
            ==> ClientHandler::accepts(sent),
        0 <= i < agent.after_dial(id, sid, outcome).len() ==> (agent_sends(
            agent.after_dial(id, sid, outcome)[i],
        ) matches Some(sent) ==> AgentHandler::accepts(sent)),
{
}

} // verus!

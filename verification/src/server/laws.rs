//! What holds of the server across packets and connections.

use vstd::prelude::*;
use crate::channel::connected;
use crate::link::{Action, Handle, InvalidData};
use crate::protocol::{composed, id_of, law_compose_then_read, Packet, Preamble};
use crate::server::agent::{closings, logs_out, AgentHandler};
use crate::server::agents::{after_joined, after_side, agents_wf, from_client, side_of, Side};
use crate::server::client::{closing, law_client_login, ClientHandler};
use crate::server::conn::{
    after_logins, law_logins_keep_the_agent, law_no_login_replaces_a_client, links_in,
    lists_clients, AgentModel, ClientModel,
};
use crate::table::lookup;

verus! {

/// The preamble that one side sends for a connection.
pub open spec fn preamble_of(agent_id: u32, id: u32, sid: u32, client: bool) -> Preamble {
    Preamble { agent_id, id, data: composed(sid, client) }
}

/// Whether two preambles ask for the same end of the same connection.
pub open spec fn same_end(p: Preamble, q: Preamble) -> bool {
    &&& p.agent_id == q.agent_id
    &&& p.id == q.id
    &&& id_of(p.data) == id_of(q.data)
    &&& from_client(p) == from_client(q)
}

/// The two sides of a connection meet, whichever comes first: the client's stream waits at one end
/// of the channel at whose other end the agent's stream is put in.
pub proof fn law_sides_meet(
    agents: Map<u32, AgentModel>,
    agent_id: u32,
    cid: u32,
    sid: u32,
    client_first: bool,
)
    requires
        agents_wf(agents),
        agents.contains_key(agent_id),
        agents[agent_id].rx(cid, sid) is Some,
        agents[agent_id].sx(cid, sid) is Some,
    ensures
        ({
            let client = preamble_of(agent_id, cid, sid, true);
            let agent = preamble_of(agent_id, cid, sid, false);
            let rx = agents[agent_id].rx(cid, sid)->0;
            let sx = agents[agent_id].sx(cid, sid)->0;
            &&& connected(sx, rx)
            &&& client_first ==> {
                &&& side_of(agents, client) == (Side::Wait { sid, rx })
                &&& side_of(after_side(agents, client), agent) == (Side::Deliver { sx })
            }
            &&& !client_first ==> {
                &&& side_of(agents, agent) == (Side::Deliver { sx })
                &&& side_of(after_side(agents, agent), client) == (Side::Wait { sid, rx })
            }
        }),
{
    law_compose_then_read(sid, true);
    law_compose_then_read(sid, false);
    assert(agents[agent_id].wf());
    assert(agents[agent_id].clients[cid].wf());
    assert(agents[agent_id].clients[cid].conns[sid].wf());
}

/// Each end of a connection is given out once: a second stream with the same preamble is refused.
pub proof fn law_end_given_once(agents: Map<u32, AgentModel>, preamble: Preamble)
    ensures
        side_of(after_side(agents, preamble), preamble) == Side::Refuse,
{
}

/// Giving out one end leaves every other end of every connection where it is.
pub proof fn law_other_ends_stay(agents: Map<u32, AgentModel>, p: Preamble, q: Preamble)
    requires
        !same_end(p, q),
    ensures
        side_of(after_side(agents, p), q) == side_of(agents, q),
{
}

/// Once its sides have met, a connection takes no more streams; other connections are not touched.
pub proof fn law_joined_is_over(
    agents: Map<u32, AgentModel>,
    agent_id: u32,
    cid: u32,
    sid: u32,
    p: Preamble,
)
    ensures
        ({
            let mine = p.agent_id == agent_id && p.id == cid && id_of(p.data) == sid;
            let after = after_joined(agents, agent_id, cid, sid);
            &&& mine ==> side_of(after, p) == Side::Refuse
            &&& !mine ==> side_of(after, p) == side_of(agents, p)
        }),
{
}

/// An id belongs to one agent at a time: a login under an id that is taken is refused, and neither
/// it nor the end of the refused link changes anything.
pub proof fn law_taken_id_is_refused(
    handler: AgentHandler,
    agents: Map<u32, AgentModel>,
    mid: Map<u32, AgentModel>,
    post: Map<u32, AgentModel>,
    actions: Seq<Action>,
    id: u32,
)
    requires
        agents.contains_key(id),
        handler.id is None,
        handler.updates(agents, mid, Packet::ReqAgentLogin { id }),
        logs_out(handler.next(agents, Packet::ReqAgentLogin { id }), mid, post, actions),
    ensures
        handler.reply(agents, Packet::ReqAgentLogin { id }) == Ok::<Seq<Action>, InvalidData>(
            seq![Action::Send { to: handler.handle, packet: Packet::RspAgentLoginFailed }],
        ),
        mid == agents,
        post == agents,
        actions == Seq::<Action>::empty(),
{
}

/// The end of a link undoes its login: the tables are what they were, and only the agent's own link
/// is closed if no client came in between.
pub proof fn law_disconnect_undoes_login(
    handler: AgentHandler,
    agents: Map<u32, AgentModel>,
    mid: Map<u32, AgentModel>,
    post: Map<u32, AgentModel>,
    actions: Seq<Action>,
    id: u32,
)
    requires
        !agents.contains_key(id),
        handler.updates(agents, mid, Packet::ReqAgentLogin { id }),
        logs_out(handler.next(agents, Packet::ReqAgentLogin { id }), mid, post, actions),
    ensures
        handler.reply(agents, Packet::ReqAgentLogin { id }) == Ok::<Seq<Action>, InvalidData>(
            seq![Action::Send { to: handler.handle, packet: Packet::RspAgentLoginOk }],
        ),
        mid.contains_key(id),
        post == agents,
        actions == seq![Action::Close { to: handler.handle }],
{
    assert(post =~= agents);
    let order = choose|order: Seq<u32>|
        lists_clients(mid[id], order) && actions == closings(#[trigger] links_in(mid[id], order));
    if order.len() > 0 {
        assert(order.to_set().contains(order[0]));
    }
    assert(actions =~= seq![Action::Close { to: handler.handle }]);
}

/// When an agent's link ends, the link of each of its clients is closed.
pub proof fn law_disconnect_closes_clients(
    handler: AgentHandler,
    agents: Map<u32, AgentModel>,
    post: Map<u32, AgentModel>,
    actions: Seq<Action>,
    id: u32,
    cid: u32,
)
    requires
        handler.id == Some(id),
        agents.contains_key(id),
        agents[id].clients.contains_key(cid),
        logs_out(handler, agents, post, actions),
    ensures
        actions.contains(Action::Close { to: agents[id].clients[cid].handle }),
        actions.last() == (Action::Close { to: agents[id].handle }),
        !post.contains_key(id),
{
    let order = choose|order: Seq<u32>|
        lists_clients(agents[id], order) && actions == closings(
            #[trigger] links_in(agents[id], order),
        );
    assert(order.to_set().contains(cid));
    let i = choose|i: int| 0 <= i < order.len() && order[i] == cid;
    assert(actions[i] == (Action::Close { to: agents[id].clients[cid].handle }));
}

/// A connection is set up end to end. A client logs in at an agent; the agent is told to listen for
/// the id that the client was given. When the agent then accepts a connection for that id, both are
/// told to open their sides of it, and the two ends of one channel wait for them.
pub proof fn law_connection_is_set_up(
    client: ClientHandler,
    agent: AgentHandler,
    agents: Map<u32, AgentModel>,
    post: Map<u32, AgentModel>,
    aid: u32,
    port: u16,
    sid: u32,
)
    requires
        agents_wf(agents),
        agents.contains_key(aid),
        agents[aid].handle == agent.handle,
        ({
            let mid = client.updated(agents, Packet::ReqClientLogin { id: aid, port });
            agent.updates(
                mid,
                post,
                Packet::RspAgentBuild { agent_id: aid, id: agents[aid].seed, sid, ok: true },
            )
        }),
    ensures
        ({
            let cid = agents[aid].seed;
            let mid = client.updated(agents, Packet::ReqClientLogin { id: aid, port });
            let build = Packet::RspAgentBuild { agent_id: aid, id: cid, sid, ok: true };
            &&& client.next(agents, Packet::ReqClientLogin { id: aid, port }).id == Some(cid)
            &&& client.reply(agents, Packet::ReqClientLogin { id: aid, port }) == Ok::<
                Seq<Action>,
                InvalidData,
            >(
                closing(agents[aid].client_handle(cid)) + seq![
                    Action::Send {
                        to: client.handle,
                        packet: Packet::RspClientLoginOk { agent_id: aid, id: cid },
                    },
                    Action::Send {
                        to: agent.handle,
                        packet: Packet::ReqAgentBuild { port, id: cid },
                    },
                ],
            )
            &&& agent.reply(mid, build) == Ok::<Seq<Action>, InvalidData>(
                seq![
                    Action::Send {
                        to: client.handle,
                        packet: Packet::ReqNewConnectionClient { agent_id: aid, id: cid, sid },
                    },
                    Action::Send {
                        to: agent.handle,
                        packet: Packet::ReqNewConnectionAgent { id: cid, sid },
                    },
                ],
            )
            &&& post.contains_key(aid)
            &&& post[aid].rx(cid, sid) is Some
            &&& post[aid].sx(cid, sid) is Some
            &&& connected(post[aid].sx(cid, sid)->0, post[aid].rx(cid, sid)->0)
        }),
{
}

/// A client for which the agent cannot listen is dropped, so a connection that the agent still
/// reports for it is answered with the news that there is no such client.
pub proof fn law_failed_build_drops_client(
    agent: AgentHandler,
    agents: Map<u32, AgentModel>,
    post: Map<u32, AgentModel>,
    aid: u32,
    cid: u32,
    sid: u32,
)
    requires
        agents.contains_key(aid),
        agents[aid].clients.contains_key(cid),
        agent.updates(
            agents,
            post,
            Packet::RspAgentBuild { agent_id: aid, id: cid, sid: 0, ok: false },
        ),
    ensures
        post[aid].client_handle(cid) is None,
        agent.reply(post, Packet::RspAgentBuild { agent_id: aid, id: cid, sid, ok: true }) == Ok::<
            Seq<Action>,
            InvalidData,
        >(seq![Action::Send { to: agent.handle, packet: Packet::RspClientNotFound { id: cid } }]),
{
}

/// A client's handler never learns the agent of its client, so the end of a client's link leaves
/// the client in the agent's table and tells nobody.
pub proof fn law_client_outlives_its_link(
    handler: ClientHandler,
    agents: Map<u32, AgentModel>,
    packet: Packet,
    later: Map<u32, AgentModel>,
)
    requires
        handler.aid is None,
    ensures
        handler.next(agents, packet).aid is None,
        !handler.next(agents, packet).knows_agent(later),
{
}

/// A link ends on a packet exactly when its side may not send the packet, or when an agent answers
/// for an agent that is not logged in. Then nothing has changed.
pub proof fn law_bad_packet_ends_link(
    agent: AgentHandler,
    client: ClientHandler,
    agents: Map<u32, AgentModel>,
    post: Map<u32, AgentModel>,
    packet: Packet,
)
    ensures
        client.reply(agents, packet) is Err <==> !ClientHandler::accepts(packet),
        client.reply(agents, packet) is Err ==> client.updated(agents, packet) == agents
            && client.next(agents, packet) == client,
        agent.reply(agents, packet) is Err <==> {
            ||| !AgentHandler::accepts(packet)
            ||| packet matches Packet::RspAgentBuild { agent_id, .. } && !agents.contains_key(
                agent_id,
            )
        },
        agent.reply(agents, packet) is Err && agent.updates(agents, post, packet) ==> post == agents
            && agent.next(agents, packet) == agent,
{
}

/// The agent that a packet is about.
pub open spec fn subject(packet: Packet) -> Option<u32> {
    match packet {
        Packet::ReqAgentLogin { id } => Some(id),
        Packet::ReqClientLogin { id, .. } => Some(id),
        Packet::RspAgentBuild { agent_id, .. } => Some(agent_id),
        Packet::PacketInfoConnectFailed { agent_id, .. } => Some(agent_id),
        _ => None,
    }
}

/// A packet touches no agent but the one that it is about.
pub proof fn law_other_agents_stay(
    agent: AgentHandler,
    client: ClientHandler,
    agents: Map<u32, AgentModel>,
    post: Map<u32, AgentModel>,
    packet: Packet,
    other: u32,
)
    requires
        subject(packet) != Some(other),
        agent.updates(agents, post, packet),
    ensures
        lookup(post, other) == lookup(agents, other),
        lookup(client.updated(agents, packet), other) == lookup(agents, other),
{
    if let Packet::RspAgentBuild { agent_id, .. } = packet {
        assert(post.contains_key(other) == agents.contains_key(other));
    }
}

/// Something that changes the server's tables.
pub enum Step {
    /// A packet from an agent's link.
    FromAgent { agent: AgentHandler, packet: Packet },
    /// A packet from a client's link.
    FromClient { client: ClientHandler, packet: Packet },
    /// The end of an agent's link.
    AgentGone { agent: AgentHandler },
    /// The end of a client's link.
    ClientGone { client: ClientHandler },
    /// A stream on the connection port.
    Stream { preamble: Preamble },
    /// Two sides have met.
    Joined { agent_id: u32, cid: u32, sid: u32 },
}

/// Whether a step leads from some tables to others.
pub open spec fn leads(
    pre: Map<u32, AgentModel>,
    step: Step,
    post: Map<u32, AgentModel>,
) -> bool {
    match step {
        Step::FromAgent { agent, packet } => agent.updates(pre, post, packet),
        Step::FromClient { client, packet } => post == client.updated(pre, packet),
        Step::AgentGone { agent } => exists|actions: Seq<Action>|
            logs_out(agent, pre, post, actions),
        Step::ClientGone { client } => post == client.without_me(pre),
        Step::Stream { preamble } => post == after_side(pre, preamble),
        Step::Joined { agent_id, cid, sid } => post == after_joined(pre, agent_id, cid, sid),
    }
}

/// Whether tables follow from one another by steps.
pub open spec fn is_run(tables: Seq<Map<u32, AgentModel>>, steps: Seq<Step>) -> bool {
    &&& tables.len() == steps.len() + 1
    &&& forall|i: int|
        0 <= i < steps.len() ==> leads(tables[i], #[trigger] steps[i], tables[i + 1])
}

/// Every step keeps the tables in order: what is filed under an id has that id, and what is left of
/// a connection are the ends that it was made with.
pub proof fn law_step_keeps_order(
    pre: Map<u32, AgentModel>,
    step: Step,
    post: Map<u32, AgentModel>,
)
    requires
        agents_wf(pre),
        leads(pre, step, post),
    ensures
        agents_wf(post),
{
    assert forall|aid: u32| #[trigger] post.contains_key(aid) implies post[aid].id == aid
        && post[aid].wf() by {
        if pre.contains_key(aid) {
            assert(pre[aid].wf());
        }
        assert forall|cid: u32| #[trigger] post[aid].clients.contains_key(cid) implies
            post[aid].clients[cid].id == cid && post[aid].clients[cid].wf() by {
            if pre.contains_key(aid) && pre[aid].clients.contains_key(cid) {
                assert(pre[aid].clients[cid].wf());
            }
        }
    }
}

/// Whatever happens to a server that started without agents, its tables are in order.
pub proof fn law_tables_are_always_in_order(
    tables: Seq<Map<u32, AgentModel>>,
    steps: Seq<Step>,
    n: int,
)
    requires
        is_run(tables, steps),
        tables[0] == Map::<u32, AgentModel>::empty(),
        0 <= n < tables.len(),
    ensures
        agents_wf(tables[n]),
    decreases n,
{
    if n > 0 {
        law_tables_are_always_in_order(tables, steps, n - 1);
        law_step_keeps_order(tables[n - 1], steps[n - 1], tables[n]);
    }
}

/// Whether a step announces a connection.
pub open spec fn announces(step: Step, aid: u32, cid: u32, sid: u32) -> bool {
    step matches Step::FromAgent { packet, .. } && packet == (Packet::RspAgentBuild {
        agent_id: aid,
        id: cid,
        sid,
        ok: true,
    })
}

/// Ends of connections come from announcements alone: whatever else happens, an end that is there to
/// be taken was there before. So an end that was taken stays taken until its connection is announced
/// again.
pub proof fn law_ends_come_from_announcements(
    pre: Map<u32, AgentModel>,
    step: Step,
    post: Map<u32, AgentModel>,
    aid: u32,
    cid: u32,
    sid: u32,
)
    requires
        leads(pre, step, post),
        !announces(step, aid, cid, sid),
        post.contains_key(aid),
    ensures
        post[aid].rx(cid, sid) is Some ==> pre.contains_key(aid) && pre[aid].rx(cid, sid)
            == post[aid].rx(cid, sid),
        post[aid].sx(cid, sid) is Some ==> pre.contains_key(aid) && pre[aid].sx(cid, sid)
            == post[aid].sx(cid, sid),
{
}

/// An end that is in place after steps without an announcement of its connection was in place at
/// every time before.
proof fn lemma_ends_were_there(
    tables: Seq<Map<u32, AgentModel>>,
    steps: Seq<Step>,
    aid: u32,
    cid: u32,
    sid: u32,
    n: int,
)
    requires
        is_run(tables, steps),
        forall|i: int| 0 <= i < steps.len() ==> !announces(#[trigger] steps[i], aid, cid, sid),
        0 <= n < tables.len(),
        tables[n].contains_key(aid),
    ensures
        tables[n][aid].rx(cid, sid) is Some ==> tables[0].contains_key(aid) && tables[0][aid].rx(
            cid,
            sid,
        ) == tables[n][aid].rx(cid, sid),
        tables[n][aid].sx(cid, sid) is Some ==> tables[0].contains_key(aid) && tables[0][aid].sx(
            cid,
            sid,
        ) == tables[n][aid].sx(cid, sid),
    decreases n,
{
    if n > 0 {
        law_ends_come_from_announcements(
            tables[n - 1],
            steps[n - 1],
            tables[n],
            aid,
            cid,
            sid,
        );
        if tables[n - 1].contains_key(aid) {
            lemma_ends_were_there(tables, steps, aid, cid, sid, n - 1);
        }
    }
}

/// The ends of a connection stay those of one channel. From tables in order, and after any steps
/// that do not announce the connection again, an end that is still in place belongs to the channel
/// of the other end that was in place at the start, whether or not that one was taken since.
pub proof fn law_ends_stay_connected(
    tables: Seq<Map<u32, AgentModel>>,
    steps: Seq<Step>,
    aid: u32,
    cid: u32,
    sid: u32,
    n: int,
)
    requires
        is_run(tables, steps),
        agents_wf(tables[0]),
        forall|i: int| 0 <= i < steps.len() ==> !announces(#[trigger] steps[i], aid, cid, sid),
        0 <= n < tables.len(),
        tables[0].contains_key(aid),
        tables[n].contains_key(aid),
    ensures
        tables[0][aid].rx(cid, sid) is Some && tables[n][aid].sx(cid, sid) is Some ==> connected(
            tables[n][aid].sx(cid, sid)->0,
            tables[0][aid].rx(cid, sid)->0,
        ),
        tables[0][aid].sx(cid, sid) is Some && tables[n][aid].rx(cid, sid) is Some ==> connected(
            tables[0][aid].sx(cid, sid)->0,
            tables[n][aid].rx(cid, sid)->0,
        ),
{
    lemma_ends_were_there(tables, steps, aid, cid, sid, n);
    let start = tables[0][aid];
    assert(start.wf());
    if start.clients.contains_key(cid) {
        assert(start.clients[cid].wf());
        if start.clients[cid].conns.contains_key(sid) {
            assert(start.clients[cid].conns[sid].wf());
        }
    }
}

/// Whether a step, other than a stream that arrives, may replace or remove a connection: the
/// connection is announced again, joined, or reported as failed; its client is dropped, gone, or has
/// its id given to another; or its agent is gone.
pub open spec fn disturbs(
    pre: Map<u32, AgentModel>,
    step: Step,
    aid: u32,
    cid: u32,
    sid: u32,
) -> bool {
    match step {
        Step::FromAgent { packet, .. } => match packet {
            Packet::RspAgentBuild { agent_id, id, sid: other, ok } => agent_id == aid && id == cid
                && (ok ==> other == sid),
            Packet::PacketInfoConnectFailed { agent_id, cid: id, sid: other } => agent_id == aid
                && id == cid && other == sid,
            _ => false,
        },
        Step::FromClient { packet, .. } => match packet {
            Packet::ReqClientLogin { id, .. } => id == aid && pre.contains_key(aid)
                && pre[aid].seed == cid,
            _ => false,
        },
        Step::AgentGone { agent } => agent.id == Some(aid),
        Step::ClientGone { client } => client.aid == Some(aid) && client.id == Some(cid),
        Step::Stream { .. } => false,
        Step::Joined { agent_id, cid: id, sid: other } => agent_id == aid && id == cid && other
            == sid,
    }
}

/// Whether a step leaves the end in place that a preamble asks for.
pub open spec fn spares(pre: Map<u32, AgentModel>, step: Step, preamble: Preamble) -> bool {
    &&& !disturbs(pre, step, preamble.agent_id, preamble.id, id_of(preamble.data) as u32)
    &&& step matches Step::Stream { preamble: other } ==> !same_end(other, preamble)
}

/// An end waits for its stream: as long as nothing disturbs the connection and no other stream takes
/// the end, a stream with the preamble gets the same part.
pub proof fn law_end_waits(
    tables: Seq<Map<u32, AgentModel>>,
    steps: Seq<Step>,
    preamble: Preamble,
    n: int,
)
    requires
        is_run(tables, steps),
        forall|i: int| 0 <= i < steps.len() ==> spares(tables[i], #[trigger] steps[i], preamble),
        0 <= n < tables.len(),
        side_of(tables[0], preamble) != Side::Refuse,
    ensures
        side_of(tables[n], preamble) == side_of(tables[0], preamble),
    decreases n,
{
    if n > 0 {
        law_end_waits(tables, steps, preamble, n - 1);
        assert(spares(tables[n - 1], steps[n - 1], preamble));
        assert(leads(tables[n - 1], steps[n - 1], tables[n]));
    }
}

/// The two sides of a connection meet however long the second is in coming. One side's stream takes
/// its end; after any steps that spare the other end, the other side's stream gets that end, and the
/// two ends are those of one channel.
pub proof fn law_sides_meet_later(
    tables: Seq<Map<u32, AgentModel>>,
    steps: Seq<Step>,
    aid: u32,
    cid: u32,
    sid: u32,
    client_first: bool,
    n: int,
)
    requires
        is_run(tables, steps),
        agents_wf(tables[0]),
        tables[0].contains_key(aid),
        tables[0][aid].rx(cid, sid) is Some,
        tables[0][aid].sx(cid, sid) is Some,
        1 <= n < tables.len(),
        steps[0] == (Step::Stream { preamble: preamble_of(aid, cid, sid, client_first) }),
        forall|i: int|
            0 <= i < steps.len() ==> spares(
                tables[i],
                #[trigger] steps[i],
                preamble_of(aid, cid, sid, !client_first),
            ),
    ensures
        ({
            let first = side_of(tables[0], preamble_of(aid, cid, sid, client_first));
            let second = side_of(tables[n], preamble_of(aid, cid, sid, !client_first));
            let rx = tables[0][aid].rx(cid, sid)->0;
            let sx = tables[0][aid].sx(cid, sid)->0;
            &&& connected(sx, rx)
            &&& client_first ==> first == (Side::Wait { sid, rx }) && second == (Side::Deliver {
                sx,
            })
            &&& !client_first ==> first == (Side::Deliver { sx }) && second == (Side::Wait {
                sid,
                rx,
            })
        }),
{
    law_compose_then_read(sid, true);
    law_compose_then_read(sid, false);
    law_sides_meet(tables[0], aid, cid, sid, client_first);
    law_sides_meet(tables[0], aid, cid, sid, !client_first);
    law_end_waits(tables, steps, preamble_of(aid, cid, sid, !client_first), n);
}

/// Whether a step leaves a client in the tables: its agent does not go, its link is not known to be
/// gone, the agent does not report that it cannot listen for it, and its id is not given to another.
pub open spec fn spares_client(
    pre: Map<u32, AgentModel>,
    step: Step,
    aid: u32,
    cid: u32,
) -> bool {
    match step {
        Step::FromAgent { packet, .. } => !(packet matches Packet::RspAgentBuild {
            agent_id,
            id,
            ok,
            ..
        } && agent_id == aid && id == cid && !ok),
        Step::FromClient { packet, .. } => !(packet matches Packet::ReqClientLogin { id, .. } && id
            == aid && pre[aid].seed == cid),
        Step::AgentGone { agent } => agent.id != Some(aid),
        Step::ClientGone { client } => !(client.aid == Some(aid) && client.id == Some(cid)),
        _ => true,
    }
}

/// A client keeps its id, its link and its port, whatever other clients and agents do in between.
/// When its agent then reports a connection for it, it is the one that is asked to open its side, and
/// when its agent reports a failure, it is the one that hears of it.
pub proof fn law_client_is_reached_later(
    tables: Seq<Map<u32, AgentModel>>,
    steps: Seq<Step>,
    link: AgentHandler,
    aid: u32,
    cid: u32,
    sid: u32,
    n: int,
)
    requires
        is_run(tables, steps),
        tables[0].contains_key(aid),
        tables[0][aid].clients.contains_key(cid),
        forall|i: int|
            0 <= i < steps.len() ==> spares_client(tables[i], #[trigger] steps[i], aid, cid),
        0 <= n < tables.len(),
    ensures
        ({
            let client = tables[0][aid].clients[cid];
            let news = Packet::PacketInfoConnectFailed { agent_id: aid, cid, sid };
            &&& tables[n].contains_key(aid)
            &&& tables[n][aid].handle == tables[0][aid].handle
            &&& tables[n][aid].clients.contains_key(cid)
            &&& tables[n][aid].clients[cid].id == client.id
            &&& tables[n][aid].clients[cid].handle == client.handle
            &&& tables[n][aid].clients[cid].port == client.port
            &&& link.reply(
                tables[n],
                Packet::RspAgentBuild { agent_id: aid, id: cid, sid, ok: true },
            ) == Ok::<Seq<Action>, InvalidData>(
                seq![
                    Action::Send {
                        to: client.handle,
                        packet: Packet::ReqNewConnectionClient { agent_id: aid, id: cid, sid },
                    },
                    Action::Send {
                        to: link.handle,
                        packet: Packet::ReqNewConnectionAgent { id: cid, sid },
                    },
                ],
            )
            &&& link.reply(tables[n], news) == Ok::<Seq<Action>, InvalidData>(
                seq![Action::Send { to: client.handle, packet: news }],
            )
        }),
    decreases n,
{
    if n > 0 {
        law_client_is_reached_later(tables, steps, link, aid, cid, sid, n - 1);
        assert(spares_client(tables[n - 1], steps[n - 1], aid, cid));
        assert(leads(tables[n - 1], steps[n - 1], tables[n]));
    }
}

/// Of clients that log in one after the other, each is reached under the id that its own login gave
/// it: up to 2^32 clients log in at an agent that had none, and a connection that the agent then
/// reports for the id of one of them goes to the link of that one.
pub proof fn law_each_client_is_reached_under_its_id(
    link: AgentHandler,
    agents: Map<u32, AgentModel>,
    aid: u32,
    logins: Seq<(Handle, u16)>,
    i: int,
    sid: u32,
)
    requires
        agents.contains_key(aid),
        agents[aid].seed == 0,
        agents[aid].clients == Map::<u32, ClientModel>::empty(),
        logins.len() <= 0x1_0000_0000,
        0 <= i < logins.len(),
    ensures
        ({
            let at_login = agents.insert(aid, after_logins(agents[aid], logins.take(i)));
            let later = agents.insert(aid, after_logins(agents[aid], logins));
            let client = ClientHandler { handle: logins[i].0, id: None, aid: None };
            let login = Packet::ReqClientLogin { id: aid, port: logins[i].1 };
            let cid = i as u32;
            &&& client.reply(at_login, login) == Ok::<Seq<Action>, InvalidData>(
                seq![
                    Action::Send {
                        to: logins[i].0,
                        packet: Packet::RspClientLoginOk { agent_id: aid, id: cid },
                    },
                    Action::Send {
                        to: agents[aid].handle,
                        packet: Packet::ReqAgentBuild { port: logins[i].1, id: cid },
                    },
                ],
            )
            &&& client.updated(at_login, login) == agents.insert(
                aid,
                after_logins(agents[aid], logins.take(i + 1)),
            )
            &&& link.reply(
                later,
                Packet::RspAgentBuild { agent_id: aid, id: cid, sid, ok: true },
            ) == Ok::<Seq<Action>, InvalidData>(
                seq![
                    Action::Send {
                        to: logins[i].0,
                        packet: Packet::ReqNewConnectionClient { agent_id: aid, id: cid, sid },
                    },
                    Action::Send {
                        to: link.handle,
                        packet: Packet::ReqNewConnectionAgent { id: cid, sid },
                    },
                ],
            )
        }),
{
    let agent = agents[aid];
    let at_login = agents.insert(aid, after_logins(agent, logins.take(i)));
    let client = ClientHandler { handle: logins[i].0, id: None, aid: None };
    let login = Packet::ReqClientLogin { id: aid, port: logins[i].1 };
    law_no_login_replaces_a_client(agent, logins, i, i as u32);
    law_logins_keep_the_agent(agent, logins.take(i));
    law_client_login(client, at_login, aid, logins[i].1, sid, aid, 0);
    assert(logins.take(i + 1).drop_last() =~= logins.take(i));
    assert(client.updated(at_login, login) =~= agents.insert(
        aid,
        after_logins(agent, logins.take(i + 1)),
    ));
}

} // verus!

use puty_proxy::link::{Action, Handle, InvalidData};
use puty_proxy::protocol::{Packet, Preamble};
use puty_proxy::server::agent::AgentHandler;
use puty_proxy::server::agents::{Agents, Side};
use puty_proxy::server::client::ClientHandler;
use puty_proxy::server::conn::{Agent, Client, Conn};
use puty_proxy::server::session::Session;

const AGENT: Handle = Handle { link: 1 };
const CLIENT: Handle = Handle { link: 2 };

fn send(to: Handle, packet: Packet) -> Action {
    Action::Send { to, packet }
}

/// A server with agent 10 on link 1 and its client 0 on link 2.
fn served() -> (Agents, AgentHandler, ClientHandler) {
    let mut agents = Agents::new();
    let mut agent = AgentHandler::new(AGENT);
    let mut client = ClientHandler::new(CLIENT);
    let r = agent.proc(&mut agents, Packet::ReqAgentLogin { id: 10 });
    assert_eq!(r, Ok(vec![send(AGENT, Packet::RspAgentLoginOk)]));
    let r = client.proc(&mut agents, Packet::ReqClientLogin { id: 10, port: 80 });
    let told = vec![
        send(CLIENT, Packet::RspClientLoginOk { agent_id: 10, id: 0 }),
        send(AGENT, Packet::ReqAgentBuild { port: 80, id: 0 }),
    ];
    assert_eq!(r, Ok(told));
    (agents, agent, client)
}

#[test]
fn first_packet_number_decides_the_role() {
    let client = ClientHandler { handle: CLIENT, id: None, aid: None };
    let agent = AgentHandler { handle: CLIENT, id: None };
    assert_eq!(Session::open(4, 5, CLIENT), Ok(Session::Client(client)));
    assert_eq!(Session::open(5, 5, CLIENT), Ok(Session::Agent(agent)));
    assert_eq!(Session::open(u32::MAX as u64, 5, CLIENT), Ok(Session::Agent(agent)));
    assert_eq!(Session::open(1 << 32, 5, CLIENT), Err(InvalidData));
}

#[test]
fn heartbeats_are_echoed() {
    let (mut agents, mut agent, mut client) = served();
    let beat = Packet::PacketHbAgent { id: 10 };
    assert_eq!(agent.proc(&mut agents, beat), Ok(vec![send(AGENT, beat)]));
    let beat = Packet::PacketHbClient { id: 0 };
    assert_eq!(client.proc(&mut agents, beat), Ok(vec![send(CLIENT, beat)]));
}

#[test]
fn taken_agent_id_is_refused() {
    let (mut agents, _, _) = served();
    let other = Handle { link: 9 };
    let mut second = AgentHandler::new(other);
    let r = second.proc(&mut agents, Packet::ReqAgentLogin { id: 10 });
    assert_eq!(r, Ok(vec![send(other, Packet::RspAgentLoginFailed)]));
    assert_eq!(second.id, None);
    assert_eq!(second.disconnect(&mut agents), vec![]);
    assert!(agents.agents.contains_key(&10));
}

#[test]
fn disconnect_closes_clients_then_agent() {
    let (mut agents, agent, _) = served();
    let mut second = ClientHandler::new(Handle { link: 3 });
    second.proc(&mut agents, Packet::ReqClientLogin { id: 10, port: 81 }).unwrap();
    let actions = agent.disconnect(&mut agents);
    assert_eq!(actions.len(), 3);
    assert!(actions[..2].contains(&Action::Close { to: CLIENT }));
    assert!(actions[..2].contains(&Action::Close { to: Handle { link: 3 } }));
    assert_eq!(actions[2], Action::Close { to: AGENT });
    assert!(agents.agents.is_empty());
}

#[test]
fn disconnect_undoes_login() {
    let mut agents = Agents::new();
    let mut agent = AgentHandler::new(AGENT);
    agent.proc(&mut agents, Packet::ReqAgentLogin { id: 4 }).unwrap();
    assert_eq!(agent.disconnect(&mut agents), vec![Action::Close { to: AGENT }]);
    assert!(agents.agents.is_empty());
    assert_eq!(agent.disconnect(&mut agents), vec![]);
}

#[test]
fn client_of_unknown_agent_is_refused() {
    let (mut agents, _, _) = served();
    let mut client = ClientHandler::new(CLIENT);
    let r = client.proc(&mut agents, Packet::ReqClientLogin { id: 11, port: 80 });
    assert_eq!(r, Ok(vec![send(CLIENT, Packet::RspServiceNotFound)]));
    assert_eq!(client.id, None);
}

#[test]
fn build_for_unknown_agent_ends_the_link() {
    let (mut agents, mut agent, _) = served();
    let build = Packet::RspAgentBuild { agent_id: 11, id: 0, sid: 5, ok: true };
    assert_eq!(agent.proc(&mut agents, build), Err(InvalidData));
}

#[test]
fn foreign_packets_end_the_link() {
    let (mut agents, mut agent, mut client) = served();
    let login = Packet::ReqClientLogin { id: 10, port: 80 };
    assert_eq!(agent.proc(&mut agents, login), Err(InvalidData));
    let login = Packet::ReqAgentLogin { id: 10 };
    assert_eq!(client.proc(&mut agents, login), Err(InvalidData));
    assert_eq!(client.proc(&mut agents, Packet::RspAgentLoginOk), Err(InvalidData));
}

#[test]
fn accepted_connection_is_announced_to_both() {
    let (mut agents, mut agent, _) = served();
    let build = Packet::RspAgentBuild { agent_id: 10, id: 0, sid: 5, ok: true };
    let told = vec![
        send(CLIENT, Packet::ReqNewConnectionClient { agent_id: 10, id: 0, sid: 5 }),
        send(AGENT, Packet::ReqNewConnectionAgent { id: 0, sid: 5 }),
    ];
    assert_eq!(agent.proc(&mut agents, build), Ok(told));
    let conn = &agents.agents[&10].clients[&0].conns[&5];
    assert_eq!(conn.id, 5);
    assert!(conn.sx.is_some() && conn.rx.is_some());
}

#[test]
fn connection_for_unknown_client_is_reported() {
    let (mut agents, mut agent, _) = served();
    let build = Packet::RspAgentBuild { agent_id: 10, id: 7, sid: 5, ok: true };
    let told = vec![send(AGENT, Packet::RspClientNotFound { id: 7 })];
    assert_eq!(agent.proc(&mut agents, build), Ok(told));
    let build = Packet::RspAgentBuild { agent_id: 10, id: 7, sid: 0, ok: false };
    assert_eq!(agent.proc(&mut agents, build), Ok(vec![]));
}

#[test]
fn failed_build_drops_the_client() {
    let (mut agents, mut agent, _) = served();
    let build = Packet::RspAgentBuild { agent_id: 10, id: 0, sid: 0, ok: false };
    let told = vec![
        send(CLIENT, Packet::RspClientLoginFailed),
        send(AGENT, Packet::PacketInfoClientClosed { id: 0 }),
    ];
    assert_eq!(agent.proc(&mut agents, build), Ok(told));
    let build = Packet::RspAgentBuild { agent_id: 10, id: 0, sid: 5, ok: true };
    let told = vec![send(AGENT, Packet::RspClientNotFound { id: 0 })];
    assert_eq!(agent.proc(&mut agents, build), Ok(told));
}

#[test]
fn sides_meet_when_the_client_comes_first() {
    let (mut agents, mut agent, _) = served();
    let build = Packet::RspAgentBuild { agent_id: 10, id: 0, sid: 5, ok: true };
    agent.proc(&mut agents, build).unwrap();
    let rx = match agents.rendezvous(&Preamble::new(10, 0, 5, true)) {
        Side::Wait { sid, rx } => {
            assert_eq!(sid, 5);
            rx
        }
        _ => panic!("the client has to wait"),
    };
    let sx = match agents.rendezvous(&Preamble::new(10, 0, 5, false)) {
        Side::Deliver { sx } => sx,
        _ => panic!("the agent has to deliver"),
    };
    assert!(!sx.is_closed());
    drop(rx);
    assert!(sx.is_closed());
}

#[test]
fn sides_meet_when_the_agent_comes_first() {
    let (mut agents, mut agent, _) = served();
    let build = Packet::RspAgentBuild { agent_id: 10, id: 0, sid: 5, ok: true };
    agent.proc(&mut agents, build).unwrap();
    let sx = match agents.rendezvous(&Preamble::new(10, 0, 5, false)) {
        Side::Deliver { sx } => sx,
        _ => panic!("the agent has to deliver"),
    };
    let mut rx = match agents.rendezvous(&Preamble::new(10, 0, 5, true)) {
        Side::Wait { rx, .. } => rx,
        _ => panic!("the client has to wait"),
    };
    assert_eq!(rx.try_recv().unwrap_err(), tokio::sync::oneshot::error::TryRecvError::Empty);
    drop(sx);
    assert_eq!(rx.try_recv().unwrap_err(), tokio::sync::oneshot::error::TryRecvError::Closed);
}

#[test]
fn ends_are_given_out_once() {
    let (mut agents, mut agent, _) = served();
    let build = Packet::RspAgentBuild { agent_id: 10, id: 0, sid: 5, ok: true };
    agent.proc(&mut agents, build).unwrap();
    for client in [true, false] {
        let p = Preamble::new(10, 0, 5, client);
        assert!(!matches!(agents.rendezvous(&p), Side::Refuse));
        assert!(matches!(agents.rendezvous(&p), Side::Refuse));
    }
}

#[test]
fn streams_without_connection_are_refused() {
    let (mut agents, mut agent, _) = served();
    let build = Packet::RspAgentBuild { agent_id: 10, id: 0, sid: 5, ok: true };
    agent.proc(&mut agents, build).unwrap();
    for client in [true, false] {
        assert!(matches!(agents.rendezvous(&Preamble::new(11, 0, 5, client)), Side::Refuse));
        assert!(matches!(agents.rendezvous(&Preamble::new(10, 1, 5, client)), Side::Refuse));
        assert!(matches!(agents.rendezvous(&Preamble::new(10, 0, 6, client)), Side::Refuse));
    }
}

#[test]
fn word_of_neither_side_counts_as_the_agents() {
    let (mut agents, mut agent, _) = served();
    let build = Packet::RspAgentBuild { agent_id: 10, id: 0, sid: 5, ok: true };
    agent.proc(&mut agents, build).unwrap();
    let p = Preamble { agent_id: 10, id: 0, data: 0x9_0000_0005 };
    assert!(matches!(agents.rendezvous(&p), Side::Deliver { .. }));
}

#[test]
fn joined_connection_is_gone() {
    let (mut agents, mut agent, _) = served();
    for sid in [5, 6] {
        let build = Packet::RspAgentBuild { agent_id: 10, id: 0, sid, ok: true };
        agent.proc(&mut agents, build).unwrap();
    }
    agents.joined(10, 0, 5);
    assert!(matches!(agents.rendezvous(&Preamble::new(10, 0, 5, true)), Side::Refuse));
    assert!(matches!(agents.rendezvous(&Preamble::new(10, 0, 6, true)), Side::Wait { .. }));
    agents.joined(99, 0, 5);
    assert!(agents.agents.contains_key(&10));
}

#[test]
fn failed_agent_side_is_passed_on() {
    let (mut agents, mut agent, _) = served();
    let build = Packet::RspAgentBuild { agent_id: 10, id: 0, sid: 5, ok: true };
    agent.proc(&mut agents, build).unwrap();
    let news = Packet::PacketInfoConnectFailed { agent_id: 10, cid: 0, sid: 5 };
    assert_eq!(agent.proc(&mut agents, news), Ok(vec![send(CLIENT, news)]));
    assert!(matches!(agents.rendezvous(&Preamble::new(10, 0, 5, true)), Side::Refuse));
    let news = Packet::PacketInfoConnectFailed { agent_id: 10, cid: 3, sid: 5 };
    assert_eq!(agent.proc(&mut agents, news), Ok(vec![]));
    let news = Packet::PacketInfoConnectFailed { agent_id: 12, cid: 0, sid: 5 };
    assert_eq!(agent.proc(&mut agents, news), Ok(vec![]));
}

#[test]
fn failed_client_side_ends_the_clients_link() {
    let (mut agents, _, mut client) = served();
    let news = Packet::RspNewConnFailedClient { agent_id: 10, id: 0, sid: 5 };
    let told = vec![
        Action::Close { to: CLIENT },
        send(AGENT, Packet::PacketInfoClientClosed { id: 0 }),
    ];
    assert_eq!(client.proc(&mut agents, news), Ok(told));
    let news = Packet::RspNewConnFailedClient { agent_id: 12, id: 0, sid: 5 };
    assert_eq!(client.proc(&mut agents, news), Ok(vec![Action::Close { to: CLIENT }]));
}

#[test]
fn client_outlives_its_link() {
    let (mut agents, _, client) = served();
    assert_eq!(client, ClientHandler { handle: CLIENT, id: Some(0), aid: None });
    assert_eq!(client.disconnect(&mut agents), vec![]);
    assert!(agents.agents[&10].clients.contains_key(&0));
}

#[test]
fn handler_that_knows_its_agent_tells_it() {
    let (mut agents, _, mut client) = served();
    client.aid = Some(10);
    let told = vec![send(AGENT, Packet::PacketInfoClientClosed { id: 0 })];
    assert_eq!(client.disconnect(&mut agents), told);
    assert!(!agents.agents[&10].clients.contains_key(&0));
    client.aid = Some(11);
    assert_eq!(client.disconnect(&mut agents), vec![]);
}

#[test]
fn client_ids_come_round_and_close_the_old_link() {
    let (mut agents, _, _) = served();
    agents.agents.get_mut(&10).unwrap().seed = u32::MAX;
    let mut last = ClientHandler::new(Handle { link: 3 });
    last.proc(&mut agents, Packet::ReqClientLogin { id: 10, port: 1 }).unwrap();
    assert_eq!(last.id, Some(u32::MAX));
    let mut next = ClientHandler::new(Handle { link: 4 });
    let r = next.proc(&mut agents, Packet::ReqClientLogin { id: 10, port: 2 });
    let told = vec![
        Action::Close { to: CLIENT },
        send(Handle { link: 4 }, Packet::RspClientLoginOk { agent_id: 10, id: 0 }),
        send(AGENT, Packet::ReqAgentBuild { port: 2, id: 0 }),
    ];
    assert_eq!(r, Ok(told));
    assert_eq!(agents.agents[&10].get_client_handle(0), Some(Handle { link: 4 }));
}

#[test]
fn agent_table_keeps_its_clients() {
    let mut agent = Agent::new(10, AGENT);
    assert_eq!(agent.handle(), AGENT);
    assert_eq!(agent.get_client_handle(0), None);
    assert_eq!(agent.insert_client(CLIENT, 80), (0, None));
    assert_eq!(agent.insert_client(Handle { link: 3 }, 81), (1, None));
    assert_eq!(agent.get_client_handle(0), Some(CLIENT));
    let links = agent.clear();
    assert_eq!(links.len(), 3);
    assert_eq!(links[2], AGENT);
    agent.remove_client(0);
    assert_eq!(agent.get_client_handle(0), None);
    assert_eq!(agent.get_client_handle(1), Some(Handle { link: 3 }));
    assert_eq!(agent.clear(), vec![Handle { link: 3 }, AGENT]);
}

#[test]
fn agent_table_keeps_its_connections() {
    let mut agent = Agent::new(10, AGENT);
    agent.insert_conn(0, 5);
    assert!(agent.get_conn_rx(0, 5).is_none());
    agent.insert_client(CLIENT, 80);
    agent.insert_conn(0, 5);
    assert!(agent.get_conn_rx(0, 5).is_some());
    assert!(agent.get_conn_rx(0, 5).is_none());
    assert!(agent.get_conn_sx(0, 5).is_some());
    assert!(agent.get_conn_sx(0, 5).is_none());
    agent.insert_conn(0, 5);
    assert!(agent.get_conn_sx(0, 5).is_some());
    agent.remove_conn(0, 5);
    assert!(agent.get_conn_rx(0, 5).is_none());
}

#[test]
fn new_client_and_connection() {
    let client = Client::new(3, CLIENT, 80);
    assert_eq!((client.id, client.port, client.handle), (3, 80, CLIENT));
    assert!(client.conns.is_empty());
    let mut conn = Conn::new(5);
    assert_eq!(conn.id, 5);
    let sx = conn.sx.take().unwrap();
    assert!(!sx.is_closed());
    drop(conn);
    assert!(sx.is_closed());
}

#[test]
fn connection_announced_again_has_new_ends() {
    let (mut agents, mut agent, _) = served();
    let build = Packet::RspAgentBuild { agent_id: 10, id: 0, sid: 5, ok: true };
    agent.proc(&mut agents, build).unwrap();
    let p = Preamble::new(10, 0, 5, false);
    let first = match agents.rendezvous(&p) {
        Side::Deliver { sx } => sx,
        _ => panic!("the agent has to deliver"),
    };
    agent.proc(&mut agents, build).unwrap();
    assert!(first.is_closed());
    match agents.rendezvous(&p) {
        Side::Deliver { sx } => assert!(!sx.is_closed()),
        _ => panic!("the agent has to deliver"),
    }
}

#[test]
fn other_agents_are_not_touched() {
    let (mut agents, _, _) = served();
    let mut other = AgentHandler::new(Handle { link: 7 });
    other.proc(&mut agents, Packet::ReqAgentLogin { id: 20 }).unwrap();
    let mut client = ClientHandler::new(Handle { link: 8 });
    client.proc(&mut agents, Packet::ReqClientLogin { id: 20, port: 90 }).unwrap();
    let build = Packet::RspAgentBuild { agent_id: 20, id: 0, sid: 0, ok: false };
    other.proc(&mut agents, build).unwrap();
    assert!(agents.agents[&20].clients.is_empty());
    assert_eq!(agents.agents[&10].get_client_handle(0), Some(CLIENT));
    other.disconnect(&mut agents);
    assert!(agents.agents.contains_key(&10) && !agents.agents.contains_key(&20));
}

#[test]
fn tables_are_in_order() {
    let (mut agents, mut agent, mut client) = served();
    client.proc(&mut agents, Packet::ReqClientLogin { id: 10, port: 81 }).unwrap();
    for sid in [4, 5, 6] {
        let build = Packet::RspAgentBuild { agent_id: 10, id: 1, sid, ok: true };
        agent.proc(&mut agents, build).unwrap();
    }
    agents.rendezvous(&Preamble::new(10, 1, 5, true));
    agents.joined(10, 1, 6);
    for (id, agent) in agents.agents.iter() {
        assert_eq!(*id, agent.id);
        for (cid, client) in agent.clients.iter() {
            assert_eq!(*cid, client.id);
            for (sid, conn) in client.conns.iter() {
                assert_eq!(*sid, conn.id);
            }
        }
    }
    assert_eq!(agents.agents[&10].clients[&1].conns.len(), 2);
}

#[test]
fn role_is_fixed_by_the_first_number() {
    let mut agents = Agents::new();
    let mut agent = Session::open(9, 5, AGENT).unwrap();
    let mut client = Session::open(4, 5, CLIENT).unwrap();
    let login = Packet::ReqAgentLogin { id: 10 };
    assert_eq!(client.proc(&mut agents, login), Err(InvalidData));
    assert!(agents.agents.is_empty());
    let told = vec![send(AGENT, Packet::RspAgentLoginOk)];
    assert_eq!(agent.proc(&mut agents, login), Ok(told));
    assert_eq!(agent, Session::Agent(AgentHandler { handle: AGENT, id: Some(10) }));
    let login = Packet::ReqClientLogin { id: 10, port: 80 };
    assert_eq!(agent.proc(&mut agents, login), Err(InvalidData));
    assert_eq!(client.proc(&mut agents, login).unwrap().len(), 2);
    let known = ClientHandler { handle: CLIENT, id: Some(0), aid: None };
    assert_eq!(client, Session::Client(known));
    assert_eq!(client.lookup(3, true, false), Ok(3));
    assert_eq!(client.lookup(7, false, true), Err(InvalidData));
    assert_eq!(client.lookup(1 << 32, true, true), Err(InvalidData));
    assert_eq!(agent.lookup(7, false, true), Ok(7));
    assert_eq!(agent.lookup(3, true, false), Err(InvalidData));
    assert_eq!(client.disconnect(&mut agents), vec![]);
    let closed = vec![Action::Close { to: CLIENT }, Action::Close { to: AGENT }];
    assert_eq!(agent.disconnect(&mut agents), closed);
}

#[test]
fn sides_meet_after_other_things_happened() {
    let (mut agents, mut agent, mut client) = served();
    let build = Packet::RspAgentBuild { agent_id: 10, id: 0, sid: 5, ok: true };
    agent.proc(&mut agents, build).unwrap();
    let rx = match agents.rendezvous(&Preamble::new(10, 0, 5, true)) {
        Side::Wait { rx, .. } => rx,
        _ => panic!("the client has to wait"),
    };
    client.proc(&mut agents, Packet::ReqClientLogin { id: 10, port: 81 }).unwrap();
    let build = Packet::RspAgentBuild { agent_id: 10, id: 0, sid: 6, ok: true };
    agent.proc(&mut agents, build).unwrap();
    let build = Packet::RspAgentBuild { agent_id: 10, id: 1, sid: 0, ok: false };
    agent.proc(&mut agents, build).unwrap();
    agents.rendezvous(&Preamble::new(10, 0, 6, false));
    agents.joined(10, 0, 6);
    let sx = match agents.rendezvous(&Preamble::new(10, 0, 5, false)) {
        Side::Deliver { sx } => sx,
        _ => panic!("the agent has to deliver"),
    };
    assert!(!sx.is_closed());
    drop(rx);
    assert!(sx.is_closed());
}

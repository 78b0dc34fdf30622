use puty_proxy::agent::{Dialed, Effect, Handler};
use puty_proxy::link::InvalidData;
use puty_proxy::protocol::{Packet, Preamble};

fn build(id: u32, sid: u32, ok: bool) -> Effect {
    Effect::Send(Packet::RspAgentBuild { agent_id: 10, id, sid, ok })
}

#[test]
fn login_and_its_answers() {
    let mut agent = Handler::new(10);
    assert_eq!(agent.login(), Packet::ReqAgentLogin { id: 10 });
    let beat = Effect::Heartbeat(Packet::PacketHbAgent { id: 10 });
    assert_eq!(agent.proc(Packet::RspAgentLoginOk), Ok(vec![beat]));
    let leave = vec![Effect::Close, Effect::Exit];
    assert_eq!(agent.proc(Packet::RspAgentLoginFailed), Ok(leave));
    assert_eq!(agent.proc(Packet::PacketHbAgent { id: 10 }), Ok(vec![]));
}

#[test]
fn agent_rejects_packets_for_others() {
    let mut agent = Handler::new(10);
    assert_eq!(agent.proc(Packet::RspClientLoginFailed), Err(InvalidData));
    assert_eq!(agent.proc(Packet::ReqAgentLogin { id: 10 }), Err(InvalidData));
    let news = Packet::PacketInfoConnectFailed { agent_id: 10, cid: 0, sid: 0 };
    assert_eq!(agent.proc(news), Err(InvalidData));
}

#[test]
fn port_is_built_on_request() {
    let mut agent = Handler::new(10);
    let listen = vec![Effect::Listen { cid: 3, port: 80 }];
    assert_eq!(agent.proc(Packet::ReqAgentBuild { port: 80, id: 3 }), Ok(listen));
    assert_eq!(agent.bind_failed(3), build(3, 0, false));
}

#[test]
fn accepted_streams_are_numbered() {
    let mut agent = Handler::new(10);
    assert_eq!(agent.accepted(3, 100), vec![build(3, 0, true)]);
    assert_eq!(agent.accepted(3, 101), vec![build(3, 1, true)]);
    assert_eq!(agent.accepted(4, 102), vec![build(4, 2, true)]);
}

#[test]
fn connection_is_dialed_with_the_agents_preamble() {
    let mut agent = Handler::new(10);
    let preamble = Preamble { agent_id: 10, id: 3, data: 0x4_0000_0007 };
    let dial = vec![Effect::Dial { cid: 3, sid: 7, preamble }];
    assert_eq!(agent.proc(Packet::ReqNewConnectionAgent { id: 3, sid: 7 }), Ok(dial));
}

#[test]
fn ready_connection_takes_its_stream_once() {
    let mut agent = Handler::new(10);
    agent.accepted(3, 100);
    agent.accepted(3, 101);
    let relay = vec![Effect::Relay { cid: 3, sid: 1, stream: 101 }];
    assert_eq!(agent.dialed(3, 1, Dialed::Ready), relay);
    assert_eq!(agent.dialed(3, 1, Dialed::Ready), vec![]);
    assert_eq!(agent.dialed(4, 0, Dialed::Ready), vec![]);
    let relay = vec![Effect::Relay { cid: 3, sid: 0, stream: 100 }];
    assert_eq!(agent.dialed(3, 0, Dialed::Ready), relay);
}

#[test]
fn broken_preamble_leaves_the_stream() {
    let mut agent = Handler::new(10);
    agent.accepted(3, 100);
    assert_eq!(agent.dialed(3, 0, Dialed::Broken), vec![]);
    let relay = vec![Effect::Relay { cid: 3, sid: 0, stream: 100 }];
    assert_eq!(agent.dialed(3, 0, Dialed::Ready), relay);
}

#[test]
fn unreachable_server_shuts_the_stream_down() {
    let mut agent = Handler::new(10);
    agent.accepted(3, 100);
    let news = Effect::Send(Packet::PacketInfoConnectFailed { agent_id: 10, cid: 3, sid: 0 });
    assert_eq!(agent.dialed(3, 0, Dialed::Unreachable), vec![Effect::Shutdown(100), news]);
    assert_eq!(agent.dialed(3, 0, Dialed::Unreachable), vec![news]);
}

#[test]
fn gone_client_is_cleared() {
    let gone = [Packet::PacketInfoClientClosed { id: 3 }, Packet::RspClientNotFound { id: 3 }];
    for packet in gone {
        let mut agent = Handler::new(10);
        assert_eq!(agent.listening(3, 80, 500), vec![]);
        agent.accepted(3, 100);
        agent.accepted(3, 101);
        agent.accepted(4, 102);
        assert_eq!(agent.relaying(3, 7, 600), vec![]);
        assert_eq!(agent.relaying(3, 8, 601), vec![]);
        let effects = agent.proc(packet).unwrap();
        assert_eq!(effects.len(), 5);
        assert!(effects[..2].contains(&Effect::Discard(100)));
        assert!(effects[..2].contains(&Effect::Discard(101)));
        let stopped = [Effect::Abort(500), Effect::Abort(600), Effect::Abort(601)];
        assert_eq!(effects[2..], stopped);
        assert_eq!(agent.proc(packet), Ok(vec![]));
        let relay = vec![Effect::Relay { cid: 4, sid: 2, stream: 102 }];
        assert_eq!(agent.dialed(4, 2, Dialed::Ready), relay);
    }
}

#[test]
fn relay_without_port_runs_on() {
    let mut agent = Handler::new(10);
    assert_eq!(agent.relaying(3, 7, 600), vec![Effect::Detach(600)]);
}

#[test]
fn second_listener_lets_go_of_the_first() {
    let mut agent = Handler::new(10);
    agent.listening(3, 80, 500);
    agent.relaying(3, 7, 600);
    let let_go = vec![Effect::Detach(500), Effect::Detach(600)];
    assert_eq!(agent.listening(3, 81, 501), let_go);
    assert_eq!(agent.clear(3), vec![Effect::Abort(501)]);
}

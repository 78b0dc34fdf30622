use puty_proxy::client::{Args, Client, DialStep, Effect};
use puty_proxy::link::{Handle, InvalidData};
use puty_proxy::protocol::{Packet, Preamble};

const LINK: Handle = Handle { link: 1 };

fn args() -> Args {
    Args {
        local: "127.0.0.1:22".to_string(),
        agentid: 10,
        port: 80,
        server: "server".to_string(),
        server_main_port: 1000,
        server_conn_port: 1001,
    }
}

/// Client 3 of agent 10.
fn logged_in() -> Client {
    let mut client = Client::new(LINK, args());
    let r = client.proc(Packet::RspClientLoginOk { agent_id: 10, id: 3 });
    assert_eq!(r, Ok(vec![Effect::Heartbeat(Packet::PacketHbClient { id: 3 })]));
    client
}

#[test]
fn login_asks_for_agent_and_port() {
    assert_eq!(args().login(), Packet::ReqClientLogin { id: 10, port: 80 });
    let client = Client::new(LINK, args());
    assert_eq!(client.handle(), LINK);
    assert_eq!(client.args().server_conn_port, 1001);
}

#[test]
fn refused_login_ends_the_client() {
    let leave = vec![Effect::Close, Effect::Exit];
    let mut client = Client::new(LINK, args());
    assert_eq!(client.proc(Packet::RspClientLoginFailed), Ok(leave.clone()));
    assert_eq!(client.proc(Packet::RspServiceNotFound), Ok(leave.clone()));
    assert_eq!(client.proc(Packet::RspClientLoginOk { agent_id: 11, id: 3 }), Ok(leave));
}

#[test]
fn client_rejects_packets_for_others() {
    let mut client = logged_in();
    assert_eq!(client.proc(Packet::RspAgentLoginOk), Err(InvalidData));
    assert_eq!(client.proc(Packet::ReqAgentBuild { port: 80, id: 3 }), Err(InvalidData));
    assert_eq!(client.proc(Packet::PacketHbClient { id: 3 }), Ok(vec![]));
}

#[test]
fn connection_is_opened_step_by_step() {
    let mut client = logged_in();
    let preamble = Preamble { agent_id: 10, id: 3, data: 0x2_0000_0007 };
    let local = DialStep::Local { preamble };
    let remote = DialStep::Remote { preamble };
    let greet = DialStep::Greet { preamble };
    let r = client.proc(Packet::ReqNewConnectionClient { agent_id: 10, id: 3, sid: 7 });
    assert_eq!(r, Ok(vec![Effect::Dial { id: 3, sid: 7, step: local }]));
    let next = client.dialed(3, 7, local, true);
    assert_eq!(next, Effect::Dial { id: 3, sid: 7, step: remote });
    let next = client.dialed(3, 7, remote, true);
    assert_eq!(next, Effect::Dial { id: 3, sid: 7, step: greet });
    assert_eq!(client.dialed(3, 7, greet, true), Effect::Relay { sid: 7 });
}

#[test]
fn every_failed_step_is_reported() {
    let client = logged_in();
    let preamble = Preamble { agent_id: 10, id: 3, data: 0x2_0000_0007 };
    let news = Packet::RspNewConnFailedClient { agent_id: 10, id: 3, sid: 7 };
    let steps = [
        DialStep::Local { preamble },
        DialStep::Remote { preamble },
        DialStep::Greet { preamble },
    ];
    for step in steps {
        assert_eq!(client.dialed(3, 7, step, false), Effect::Send(news));
    }
}

#[test]
fn failed_agent_side_stops_the_relay() {
    let mut client = logged_in();
    assert_eq!(client.relaying(7, 600), vec![]);
    let news = Packet::PacketInfoConnectFailed { agent_id: 10, cid: 3, sid: 7 };
    assert_eq!(client.proc(news), Ok(vec![Effect::Abort(600)]));
    assert_eq!(client.proc(news), Ok(vec![]));
}

#[test]
fn news_for_others_changes_nothing() {
    let mut client = Client::new(LINK, args());
    client.relaying(7, 600);
    let news = Packet::PacketInfoConnectFailed { agent_id: 10, cid: 3, sid: 7 };
    assert_eq!(client.proc(news), Ok(vec![]));
    client.proc(Packet::RspClientLoginOk { agent_id: 10, id: 3 }).unwrap();
    let other = Packet::PacketInfoConnectFailed { agent_id: 11, cid: 3, sid: 7 };
    assert_eq!(client.proc(other), Ok(vec![]));
    let other = Packet::PacketInfoConnectFailed { agent_id: 10, cid: 4, sid: 7 };
    assert_eq!(client.proc(other), Ok(vec![]));
    assert_eq!(client.proc(news), Ok(vec![Effect::Abort(600)]));
}

#[test]
fn second_relay_lets_go_of_the_first() {
    let mut client = logged_in();
    assert_eq!(client.relaying(7, 600), vec![]);
    assert_eq!(client.relaying(7, 601), vec![Effect::Detach(600)]);
    let news = Packet::PacketInfoConnectFailed { agent_id: 10, cid: 3, sid: 7 };
    assert_eq!(client.proc(news), Ok(vec![Effect::Abort(601)]));
}

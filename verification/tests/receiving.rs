use puty_proxy::link::{Action, Handle, InvalidData};
use puty_proxy::protocol::Packet;
use puty_proxy::server::agent::AgentHandler;
use puty_proxy::server::agents::Agents;
use puty_proxy::server::client::ClientHandler;
use puty_proxy::server::receiving::{LinkEnd, ServerEvent, ServerLink, ServerStep};
use puty_proxy::server::session::Session;

const LINK: Handle = Handle { link: 1 };

/// Reads fail with an error text here.
type Event = ServerEvent<&'static str>;
type Step = ServerStep<&'static str>;

/// A number below 5 is registered for clients, one from 5 to 9 for agents.
fn number(pid: u64) -> Event {
    ServerEvent::Number { pid, in_client: pid < 5, in_agent: (5..10).contains(&pid) }
}

fn body(packet: Packet) -> Event {
    ServerEvent::Body { packet }
}

fn actions(step: Step) -> Vec<Action> {
    match step {
        ServerStep::Perform(actions) => actions,
        _ => panic!("actions were expected"),
    }
}

fn is_invalid(step: Step) -> bool {
    matches!(step, ServerStep::End(LinkEnd::Invalid(InvalidData)))
}

#[test]
fn packets_are_processed_in_turn() {
    let mut agents = Agents::new();
    let mut link = ServerLink::new(LINK, 5);
    assert_eq!(link.current(), None);
    for id in [10, 11] {
        assert!(matches!(link.step(&mut agents, number(7)), ServerStep::ReadBody(7)));
        let told = Action::Send { to: LINK, packet: Packet::RspAgentLoginOk };
        let login = body(Packet::ReqAgentLogin { id });
        assert_eq!(actions(link.step(&mut agents, login)), vec![told]);
    }
    let session = Session::Agent(AgentHandler { handle: LINK, id: Some(11) });
    assert_eq!(link, ServerLink::Waiting { session });
    assert!(agents.agents.contains_key(&10) && agents.agents.contains_key(&11));
}

#[test]
fn failed_read_ends_the_link_with_its_error() {
    let mut agents = Agents::new();
    let mut link = ServerLink::new(LINK, 5);
    let failed = ServerEvent::Failed { error: "reset" };
    let step = link.step(&mut agents, failed);
    assert!(matches!(step, ServerStep::End(LinkEnd::Read("reset"))));
    assert_eq!(link, ServerLink::Over { session: None });
    assert_eq!(link.disconnect(&mut agents), vec![]);

    let mut link = ServerLink::new(LINK, 5);
    link.step(&mut agents, number(2));
    let failed = ServerEvent::Failed { error: "closed" };
    let step = link.step(&mut agents, failed);
    assert!(matches!(step, ServerStep::End(LinkEnd::Read("closed"))));
    let session = Session::Client(ClientHandler { handle: LINK, id: None, aid: None });
    assert_eq!(link, ServerLink::Over { session: Some(session) });
}

#[test]
fn bad_numbers_end_the_link() {
    let mut agents = Agents::new();
    let mut link = ServerLink::new(LINK, 5);
    let wide: Event = ServerEvent::Number { pid: 1 << 32, in_client: true, in_agent: true };
    assert!(is_invalid(link.step(&mut agents, wide)));
    assert_eq!(link, ServerLink::Over { session: None });

    let mut link = ServerLink::new(LINK, 5);
    assert!(is_invalid(link.step(&mut agents, number(12))));

    let mut link = ServerLink::new(LINK, 5);
    link.step(&mut agents, number(7));
    link.step(&mut agents, body(Packet::ReqAgentLogin { id: 10 }));
    assert!(is_invalid(link.step(&mut agents, number(2))));
}

#[test]
fn refused_packet_ends_the_link() {
    let mut agents = Agents::new();
    let mut link = ServerLink::new(LINK, 5);
    link.step(&mut agents, number(7));
    let build = Packet::RspAgentBuild { agent_id: 9, id: 0, sid: 0, ok: true };
    assert!(is_invalid(link.step(&mut agents, body(build))));
}

#[test]
fn nothing_happens_after_the_end() {
    let mut agents = Agents::new();
    let mut link = ServerLink::new(LINK, 5);
    link.step(&mut agents, number(7));
    link.step(&mut agents, body(Packet::ReqAgentLogin { id: 10 }));
    link.step(&mut agents, ServerEvent::Failed { error: "reset" });
    let over = link;
    assert!(matches!(link.step(&mut agents, number(7)), ServerStep::Ignore));
    let login = body(Packet::ReqAgentLogin { id: 11 });
    assert!(matches!(link.step(&mut agents, login), ServerStep::Ignore));
    let failed = ServerEvent::Failed { error: "again" };
    assert!(matches!(link.step(&mut agents, failed), ServerStep::Ignore));
    assert_eq!(link, over);
    assert!(!agents.agents.contains_key(&11));
    assert_eq!(link.disconnect(&mut agents), vec![Action::Close { to: LINK }]);
    assert!(agents.agents.is_empty());
}

#[test]
fn events_out_of_turn_are_ignored() {
    let mut agents = Agents::new();
    let mut link = ServerLink::new(LINK, 5);
    let login = || body(Packet::ReqAgentLogin { id: 10 });
    assert!(matches!(link.step(&mut agents, login()), ServerStep::Ignore));
    assert!(agents.agents.is_empty());
    link.step(&mut agents, number(7));
    assert!(matches!(link.step(&mut agents, number(7)), ServerStep::Ignore));
    assert_eq!(actions(link.step(&mut agents, login())).len(), 1);
    assert!(matches!(link.step(&mut agents, login()), ServerStep::Ignore));
}

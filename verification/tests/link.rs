use puty_proxy::link::{check_registered, packet_id, InvalidData, LinkEvent, LinkStep, Watchdog};
use puty_proxy::seed::next_id;

#[test]
fn packet_numbers_have_32_bits() {
    assert_eq!(packet_id(0), Ok(0));
    assert_eq!(packet_id(u32::MAX as u64), Ok(u32::MAX));
    assert_eq!(packet_id(u32::MAX as u64 + 1), Err(InvalidData));
    assert_eq!(packet_id(u64::MAX), Err(InvalidData));
}

#[test]
fn only_registered_packets_pass() {
    assert_eq!(check_registered(9, true), Ok(9));
    assert_eq!(check_registered(9, false), Err(InvalidData));
    assert_eq!(check_registered(u32::MAX as u64 + 10, true), Err(InvalidData));
}

#[test]
fn fourth_timeout_in_a_row_ends_the_link() {
    let mut dog = Watchdog::new();
    assert_eq!(dog.step(LinkEvent::TimedOut), LinkStep::Wait);
    assert_eq!(dog.step(LinkEvent::TimedOut), LinkStep::Wait);
    assert_eq!(dog.step(LinkEvent::TimedOut), LinkStep::Wait);
    assert_eq!(dog.step(LinkEvent::TimedOut), LinkStep::GiveUp);
}

#[test]
fn packet_clears_the_misses() {
    let mut dog = Watchdog::new();
    for _ in 0..3 {
        assert_eq!(dog.step(LinkEvent::TimedOut), LinkStep::Wait);
    }
    let step = dog.step(LinkEvent::Received { pid: 5, registered: true });
    assert_eq!(step, LinkStep::Dispatch(5));
    for _ in 0..3 {
        assert_eq!(dog.step(LinkEvent::TimedOut), LinkStep::Wait);
    }
    assert_eq!(dog.step(LinkEvent::TimedOut), LinkStep::GiveUp);
}

#[test]
fn bad_packets_and_broken_links_end_the_link() {
    let mut dog = Watchdog::new();
    let unknown = LinkEvent::Received { pid: 5, registered: false };
    assert_eq!(dog.step(unknown), LinkStep::GiveUp);
    let wide = LinkEvent::Received { pid: 1 << 32, registered: true };
    assert_eq!(dog.step(wide), LinkStep::GiveUp);
    assert_eq!(dog.step(LinkEvent::Broken), LinkStep::GiveUp);
}

#[test]
fn miss_counter_wraps() {
    let mut dog = Watchdog { misses: u32::MAX };
    assert_eq!(dog.step(LinkEvent::TimedOut), LinkStep::Wait);
    assert_eq!(dog, Watchdog { misses: 0 });
}

#[test]
fn ids_count_up_and_start_over() {
    let mut seed = u32::MAX - 1;
    assert_eq!(next_id(&mut seed), u32::MAX - 1);
    assert_eq!(next_id(&mut seed), u32::MAX);
    assert_eq!(next_id(&mut seed), 0);
    assert_eq!(next_id(&mut seed), 1);
}

use puty_proxy::protocol::{compose, get_id, is_agent, is_client, Preamble, AGENT_ID, CLIENT_ID};

#[test]
fn compose_gives_tag_and_id() {
    assert_eq!(CLIENT_ID, 2);
    assert_eq!(AGENT_ID, 4);
    assert_eq!(compose(7, true), 0x2_0000_0007);
    assert_eq!(compose(7, false), 0x4_0000_0007);
    assert_eq!(compose(0, true), 0x2_0000_0000);
    assert_eq!(compose(u32::MAX, false), 0x4_FFFF_FFFF);
}

#[test]
fn composed_words_read_back() {
    for id in [0u32, 1, 7, 0x8000_0000, u32::MAX] {
        let client = compose(id, true);
        let agent = compose(id, false);
        assert_eq!(get_id(&client), id);
        assert_eq!(get_id(&agent), id);
        assert!(is_client(&client) && !is_agent(&client));
        assert!(is_agent(&agent) && !is_client(&agent));
    }
}

#[test]
fn foreign_words_belong_to_neither_side() {
    for word in [0u64, 7, 0x1_0000_0007, 0x6_0000_0007, u64::MAX] {
        assert!(!is_client(&word));
        assert!(!is_agent(&word));
    }
    assert_eq!(get_id(&u64::MAX), u32::MAX);
    assert_eq!(get_id(&0x6_0000_0007), 7);
}

#[test]
fn preamble_names_side_and_connection() {
    let p = Preamble::new(1, 2, 3, true);
    assert_eq!(p, Preamble { agent_id: 1, id: 2, data: 0x2_0000_0003 });
    let p = Preamble::new(1, 2, 3, false);
    assert_eq!(p, Preamble { agent_id: 1, id: 2, data: 0x4_0000_0003 });
}

use tcp_server::network::packet::{KeepAlivePacket, Packet, TestPacket};
use tcp_server::server::{
    accept_step, keep_alive_step, keep_alive_tick, reader_step, AcceptAction, KeepAliveAction,
    ReaderAction,
};

#[test]
fn reader_closed_on_empty_read_or_shutdown() {
    assert!(matches!(reader_step(&[], false, 0), ReaderAction::Closed));
    assert!(matches!(reader_step(&[0, 0, b'H'], true, 0), ReaderAction::Closed));
}

#[test]
fn reader_ignores_short_read() {
    assert!(matches!(reader_step(&[7], false, 0), ReaderAction::Ignore));
}

#[test]
fn reader_reports_text() {
    match reader_step(&[0, 0, b'H'], false, 0) {
        ReaderAction::Text(t) => assert_eq!(t, "H"),
        _ => panic!("expected text"),
    }
}

#[test]
fn reader_malformed_text() {
    assert!(matches!(
        reader_step(&[0, 0, b'a', b'b'], false, 0),
        ReaderAction::Malformed("Content is too large to be interpreted as this packet")
    ));
    assert!(matches!(reader_step(&[0, 0, 0xff], false, 0), ReaderAction::Malformed("Invalid UTF-8")));
}

#[test]
fn reader_keep_alive() {
    assert!(matches!(reader_step(&[1, 0, 5, 0, 0, 0], false, 5), ReaderAction::KeepAliveCompleted));
    assert!(matches!(reader_step(&[1, 0, 5, 0, 0, 0], false, 6), ReaderAction::KeepAliveFailed));
    assert!(matches!(
        reader_step(&[1, 0, 5, 0, 0], false, 5),
        ReaderAction::Malformed("Content is not a keep-alive number")
    ));
}

#[test]
fn reader_unknown_packet() {
    assert!(matches!(reader_step(&[2, 0, 1], false, 0), ReaderAction::UnknownPacket));
    assert!(matches!(reader_step(&[0, 1], false, 0), ReaderAction::UnknownPacket));
}

#[test]
fn keep_alive_step_decisions() {
    assert!(matches!(keep_alive_step(true, 0, 9), KeepAliveAction::Stop));
    assert!(matches!(keep_alive_step(false, 3, 9), KeepAliveAction::NoResponse));
    match keep_alive_step(false, 0, 9) {
        KeepAliveAction::Send(n, f) => {
            assert_eq!(n, 9);
            assert_eq!(&*f, &[1, 0, 9, 0, 0, 0]);
        }
        _ => panic!("expected a packet to send"),
    }
}

#[test]
fn keep_alive_tick_decisions() {
    assert!(matches!(keep_alive_tick(true, 0), KeepAliveAction::Stop));
    assert!(matches!(keep_alive_tick(false, 7), KeepAliveAction::NoResponse));
    match keep_alive_tick(false, 0) {
        KeepAliveAction::Send(n, f) => {
            assert_ne!(n, 0);
            assert_eq!(&*f, &*KeepAlivePacket::create(n).unwrap());
        }
        _ => panic!("expected a packet to send"),
    }
}

#[test]
fn keep_alive_echo_completes_the_check() {
    for n in [1u32, 0x1234_5678, u32::MAX] {
        match keep_alive_step(false, 0, n) {
            KeepAliveAction::Send(expected, f) => {
                assert!(matches!(reader_step(&f, false, expected), ReaderAction::KeepAliveCompleted));
                assert!(matches!(reader_step(&f, false, expected ^ 1), ReaderAction::KeepAliveFailed));
            }
            _ => panic!("expected a packet to send"),
        }
    }
}

#[test]
fn text_packet_arrives_as_sent() {
    let f = TestPacket::create(String::from("H")).unwrap();
    match reader_step(&f, false, 42) {
        ReaderAction::Text(t) => assert_eq!(t, "H"),
        _ => panic!("expected text"),
    }
}

#[test]
fn reader_text_of_empty_and_ascii_content() {
    match reader_step(&[0, 0], false, 0) {
        ReaderAction::Text(t) => assert_eq!(t, ""),
        _ => panic!("expected text"),
    }
    match reader_step(&[0, 0, 0x7f], false, 3) {
        ReaderAction::Text(t) => assert_eq!(t, "\x7f"),
        _ => panic!("expected text"),
    }
}

#[test]
fn next_awaited_after_read() {
    assert_eq!(reader_step(&[1, 0, 5, 0, 0, 0], false, 5).next_awaited(5), 0);
    assert_eq!(reader_step(&[1, 0, 5, 0, 0, 0], false, 6).next_awaited(6), 6);
    assert_eq!(reader_step(&[0, 0, b'H'], false, 6).next_awaited(6), 6);
    assert_eq!(reader_step(&[], false, 6).next_awaited(6), 6);
}

#[test]
fn next_awaited_after_tick() {
    assert_eq!(keep_alive_step(false, 0, 77).next_awaited(0), 77);
    assert_eq!(keep_alive_step(false, 3, 77).next_awaited(3), 3);
    assert_eq!(keep_alive_step(true, 0, 77).next_awaited(0), 0);
}

#[test]
fn keep_alive_invariant_over_a_session() {
    // the awaited number is always 0 or the last one sent
    let mut awaited = 0u32;
    let mut last_sent = 0u32;
    for n in [11u32, 22, 33] {
        let tick = keep_alive_step(false, awaited, n);
        if let KeepAliveAction::Send(sent, _) = &tick {
            last_sent = *sent;
        }
        awaited = tick.next_awaited(awaited);
        assert!(awaited == 0 || awaited == last_sent);
        let echo = KeepAlivePacket::create(last_sent).unwrap();
        awaited = reader_step(&echo, false, awaited).next_awaited(awaited);
        assert_eq!(awaited, 0);
    }
}

#[test]
fn accept_decisions() {
    assert!(matches!(accept_step(false, false), AcceptAction::Stop));
    assert!(matches!(accept_step(false, true), AcceptAction::Stop));
    assert!(matches!(accept_step(true, true), AcceptAction::Keep));
    assert!(matches!(accept_step(true, false), AcceptAction::Skip));
}

use tcp_server::network::packet::{create_raw, KeepAlivePacket, Packet, TestPacket};

#[test]
fn create_raw_puts_little_endian_id_first() {
    assert_eq!(&*create_raw(0x1234, &[9, 8, 7]), &[0x34, 0x12, 9, 8, 7]);
    assert_eq!(&*create_raw(0, &[]), &[0, 0]);
    assert_eq!(&*create_raw(0xffff, &[1]), &[0xff, 0xff, 1]);
}

#[test]
fn packet_ids() {
    assert_eq!(TestPacket::PACKET_ID, 0);
    assert_eq!(KeepAlivePacket::PACKET_ID, 1);
}

#[test]
fn test_packet_create() {
    assert_eq!(&*TestPacket::create(String::from("H")).unwrap(), &[0, 0, b'H']);
    assert_eq!(&*TestPacket::create(String::new()).unwrap(), &[0, 0]);
    assert_eq!(TestPacket::create(String::from("Hi")).unwrap_err(), "Content size exceeds max packet size");
    // one character, but two bytes of UTF-8
    assert_eq!(TestPacket::create(String::from("é")).unwrap_err(), "Content size exceeds max packet size");
}

#[test]
fn test_packet_interpret() {
    assert_eq!(TestPacket::interpret(Box::from(&b"H"[..])).unwrap(), "H");
    assert_eq!(TestPacket::interpret(Box::from(&b""[..])).unwrap(), "");
    assert_eq!(
        TestPacket::interpret(Box::from(&b"ab"[..])).unwrap_err(),
        "Content is too large to be interpreted as this packet"
    );
    assert_eq!(TestPacket::interpret(Box::from(&[0x80u8][..])).unwrap_err(), "Invalid UTF-8");
}

#[test]
fn test_packet_round_trip() {
    for c in ["", "H", "z", "~"] {
        let f = TestPacket::create(String::from(c)).unwrap();
        assert_eq!(TestPacket::interpret(Box::from(&f[2..])).unwrap(), c);
    }
}

#[test]
fn keep_alive_packet_create_and_interpret() {
    assert_eq!(&*KeepAlivePacket::create(0x0403_0201).unwrap(), &[1, 0, 1, 2, 3, 4]);
    assert_eq!(KeepAlivePacket::interpret(Box::from(&[1u8, 2, 3, 4][..])).unwrap(), 0x0403_0201);
    assert_eq!(
        KeepAlivePacket::interpret(Box::from(&[1u8, 2, 3][..])).unwrap_err(),
        "Content is not a keep-alive number"
    );
    assert_eq!(
        KeepAlivePacket::interpret(Box::from(&[1u8, 2, 3, 4, 5][..])).unwrap_err(),
        "Content is not a keep-alive number"
    );
}

#[test]
fn keep_alive_round_trip() {
    for n in [0u32, 1, 255, 256, 0xdead_beef, u32::MAX] {
        let f = KeepAlivePacket::create(n).unwrap();
        assert_eq!(KeepAlivePacket::interpret(Box::from(&f[2..])).unwrap(), n);
    }
}

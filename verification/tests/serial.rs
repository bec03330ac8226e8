use chess_clock::serial::{decode, select_mode, SerialHandler, SerialMsg};

#[test]
fn tags_match_the_wire_table() {
    assert_eq!(SerialMsg::Handshake { mode: 0 }.to_u8(), 0xc0);
    assert_eq!(SerialMsg::HandshakeResponse { selected_mode: 0 }.to_u8(), 0xc1);
    assert_eq!(SerialMsg::StartP1 { p2_time: 0 }.to_u8(), 0xc2);
    assert_eq!(SerialMsg::StartP2 { p1_time: 0 }.to_u8(), 0xc3);
    assert_eq!(SerialMsg::Sync { p1_time: 0, p2_time: 0 }.to_u8(), 0xc4);
    assert_eq!(SerialMsg::Pause { time: 0 }.to_u8(), 0xc5);
    assert_eq!(SerialMsg::P1Finish.to_u8(), 0xc6);
    assert_eq!(SerialMsg::P2Finish.to_u8(), 0xc7);
}

#[test]
fn only_handshakes_are_connection_messages() {
    assert!(SerialMsg::Handshake { mode: 1 }.is_connection_message());
    assert!(SerialMsg::HandshakeResponse { selected_mode: 1 }.is_connection_message());
    assert!(!SerialMsg::StartP1 { p2_time: 1 }.is_connection_message());
    assert!(!SerialMsg::Sync { p1_time: 1, p2_time: 2 }.is_connection_message());
    assert!(!SerialMsg::P1Finish.is_connection_message());
}

#[test]
fn encoding_is_big_endian_after_the_tag() {
    let bytes = SerialMsg::Handshake { mode: 0x0102_0304 }.encode();
    assert_eq!(bytes, vec![0xc0, 1, 2, 3, 4]);
    let bytes = SerialMsg::Sync { p1_time: 1, p2_time: 0xffff_ffff }.encode();
    assert_eq!(bytes, vec![0xc4, 0, 0, 0, 1, 0xff, 0xff, 0xff, 0xff]);
    let bytes = SerialMsg::P2Finish.encode();
    assert_eq!(bytes, vec![0xc7]);
}

#[test]
fn decoding_reads_a_complete_message() {
    let r = decode(&vec![0xc4, 0, 0, 0, 1, 0, 0, 0, 2]);
    assert_eq!(r, Some((SerialMsg::Sync { p1_time: 1, p2_time: 2 }, 9)));
    let r = decode(&vec![0xc6]);
    assert_eq!(r, Some((SerialMsg::P1Finish, 1)));
    let r = decode(&vec![0xc5, 0, 0, 0x27, 0x10, 0xaa]);
    assert_eq!(r, Some((SerialMsg::Pause { time: 10_000 }, 5)));
}

#[test]
fn unrecognized_or_short_input_decodes_to_nothing() {
    assert_eq!(decode(&vec![]), None);
    assert_eq!(decode(&vec![0x55]), None);
    assert_eq!(decode(&vec![0xbf]), None);
    assert_eq!(decode(&vec![0xc8]), None);
    assert_eq!(decode(&vec![0xc0, 0, 0]), None);
    assert_eq!(decode(&vec![0xc4, 0, 0, 0, 1, 0, 0, 0]), None);
}

#[test]
fn every_message_round_trips_through_the_wire() {
    let msgs = vec![
        SerialMsg::Handshake { mode: 0 },
        SerialMsg::Handshake { mode: 0xffff_ffff },
        SerialMsg::HandshakeResponse { selected_mode: 3 },
        SerialMsg::StartP1 { p2_time: 60_000 },
        SerialMsg::StartP2 { p1_time: 1 },
        SerialMsg::Sync { p1_time: 0x8000_0000, p2_time: 0x7fff_ffff },
        SerialMsg::Pause { time: 29_800 },
        SerialMsg::P1Finish,
        SerialMsg::P2Finish,
    ];
    for m in msgs {
        let bytes = m.encode();
        assert_eq!(decode(&bytes), Some((m, bytes.len())));
    }
}

#[test]
fn mode_negotiation_follows_the_fixed_table() {
    assert_eq!(select_mode(0), 2);
    assert_eq!(select_mode(1), 1);
    assert_eq!(select_mode(2), 0);
    assert_eq!(select_mode(3), 3);
    assert_eq!(select_mode(77), 0);
}

#[test]
fn writes_are_gated_until_connected() {
    let h = SerialHandler::new();
    assert!(!h.connected);
    assert_eq!(h.write(SerialMsg::Sync { p1_time: 1, p2_time: 2 }), None);
    assert_eq!(
        h.write(SerialMsg::Handshake { mode: 2 }),
        Some(vec![0xc0, 0, 0, 0, 2])
    );
    let connected = SerialHandler { connected: true, ..SerialHandler::new() };
    assert_eq!(
        connected.write(SerialMsg::Pause { time: 5 }),
        Some(vec![0xc5, 0, 0, 0, 5])
    );
}

#[test]
fn handshakes_are_absorbed_and_answered() {
    let mut h = SerialHandler::new();
    let (surfaced, reply) = h.read(Some(SerialMsg::Handshake { mode: 0 }));
    assert_eq!(surfaced, None);
    assert_eq!(reply, Some(vec![0xc1, 0, 0, 0, 2]));
    assert!(h.connected);

    let mut h = SerialHandler::new();
    let (surfaced, reply) = h.read(Some(SerialMsg::HandshakeResponse { selected_mode: 1 }));
    assert_eq!(surfaced, None);
    assert_eq!(reply, None);
    assert!(h.connected);
}

#[test]
fn ordinary_messages_are_surfaced_unchanged() {
    let mut h = SerialHandler::new();
    let (surfaced, reply) = h.read(Some(SerialMsg::Pause { time: 7 }));
    assert_eq!(surfaced, Some(SerialMsg::Pause { time: 7 }));
    assert_eq!(reply, None);
    assert!(!h.connected);
    let (surfaced, _) = h.read(None);
    assert_eq!(surfaced, None);
}

#[test]
fn connection_times_out_without_a_peer() {
    let mut h = SerialHandler::new();
    let (status, handshake, reply) = h.check_connection(500, 0, None);
    assert_eq!(status, None);
    assert_eq!(handshake, Some(vec![0xc0, 0, 0, 0, 2]));
    assert_eq!(reply, None);
    let (status, handshake, _) = h.check_connection(500, 250, None);
    assert_eq!(status, None);
    assert_eq!(handshake, None);
    let (status, _, _) = h.check_connection(500, 500, None);
    assert_eq!(status, Some(false));
}

#[test]
fn connection_succeeds_on_a_handshake_response_in_the_window() {
    let mut h = SerialHandler::new();
    let (status, _, _) = h.check_connection(500, 0, None);
    assert_eq!(status, None);
    let (status, _, _) =
        h.check_connection(500, 300, Some(SerialMsg::HandshakeResponse { selected_mode: 2 }));
    assert_eq!(status, Some(true));
    assert!(h.connected);
    // Once connected, it stays connected on every later call.
    let (status, handshake, _) = h.check_connection(500, 10_000, None);
    assert_eq!(status, Some(true));
    assert_eq!(handshake, None);
}

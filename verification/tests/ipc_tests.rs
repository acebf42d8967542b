//! IPC wire rules: framing, port derivation and the port file.

use hopp_core::ipc::{
    calculate_port_from_hash, frame_message, parse_port, port_file_contents, read_length_prefix,
    socket_path_to_port,
};

#[test]
fn ports_from_hash_stay_in_the_dynamic_range() {
    let paths = ["/tmp/core-socket", "/tmp/another", "", "x", "a rather long socket path name"];
    for path in paths {
        let port = calculate_port_from_hash(path);
        assert!((49152..=65535).contains(&port));
    }
    // DJB2 of an empty string is 5381; 5381 % 16384 + 49152 == 54533.
    assert_eq!(calculate_port_from_hash(""), 54533);
    // Deterministic.
    assert_eq!(
        calculate_port_from_hash("/tmp/core-socket"),
        calculate_port_from_hash("/tmp/core-socket")
    );
}

#[test]
fn port_file_round_trips() {
    for port in [49152u16, 54533, 65535, 50000, 49999] {
        let text = port_file_contents(port);
        assert_eq!(parse_port(&text), Some(port));
    }
    assert_eq!(port_file_contents(54533), b"54533".to_vec());
}

#[test]
fn port_parsing_trims_and_rejects() {
    assert_eq!(parse_port(b"  49955\n"), Some(49955));
    assert_eq!(parse_port(b"\t65535\r\n"), Some(65535));
    assert_eq!(parse_port(b"0"), Some(0));
    assert_eq!(parse_port(b"abc"), None);
    assert_eq!(parse_port(b"49 55"), None);
    assert_eq!(parse_port(b"65536"), None);
    assert_eq!(parse_port(b"999999999999"), None);
    assert_eq!(parse_port(b""), None);
    assert_eq!(parse_port(b"   "), None);
}

#[test]
fn socket_path_prefers_the_stored_port() {
    let stored = b"50123".to_vec();
    assert_eq!(socket_path_to_port(Some(&stored), "/tmp/core-socket"), 50123);
    let garbage = b"not a port".to_vec();
    assert_eq!(
        socket_path_to_port(Some(&garbage), "/tmp/core-socket"),
        calculate_port_from_hash("/tmp/core-socket")
    );
    assert_eq!(
        socket_path_to_port(None, "/tmp/core-socket"),
        calculate_port_from_hash("/tmp/core-socket")
    );
}

#[test]
fn frames_carry_their_length_in_front() {
    let payload = b"{\"type\":\"Ping\"}".to_vec();
    let framed = frame_message(&payload);
    assert_eq!(framed.len(), payload.len() + 8);
    assert_eq!(read_length_prefix(&framed[0..8]), payload.len() as u64);
    assert_eq!(&framed[8..], &payload[..]);

    let empty: Vec<u8> = Vec::new();
    let framed = frame_message(&empty);
    assert_eq!(framed, vec![0, 0, 0, 0, 0, 0, 0, 0]);
}

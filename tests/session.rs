use ip_display_client::{AppState, ConnState, FrameFormat, PacketHeader, ProtocolError, ReadOutcome, Received, Session, Step, HEADER_SIZE, MAGIC, VERSION};

fn header(width: u32, height: u32, format: FrameFormat, size: u32) -> PacketHeader {
    PacketHeader { magic: MAGIC, version: VERSION, width, height, format, timestamp: 77, size, reserved: 0 }
}

fn connected() -> Session {
    let mut s = Session::new();
    s.connect();
    s
}

#[test]
fn test_network_client_creation() {
    let client = Session::new();
    assert!(!client.is_connected());
}

#[test]
fn receive_without_stream_is_not_connected() {
    let mut s = connected();
    assert_eq!(s.begin_receive(), Ok(HEADER_SIZE));
    s.disconnect();
    assert_eq!(s.begin_receive(), Err(ProtocolError::NotConnected));
    assert_eq!(s.begin_send(), Err(ProtocolError::NotConnected));
}

#[test]
fn empty_read_is_no_data_and_partial_header_closes() {
    let mut s = connected();
    match s.on_header(ReadOutcome::Eof(0)) {
        Step::Done(Ok(Received::NoData)) => {}
        other => panic!("unexpected {:?}", other),
    }
    assert_eq!(s.state, ConnState::AwaitHeader);
    match s.on_header(ReadOutcome::Eof(10)) {
        Step::Done(Err(ProtocolError::ConnectionClosed)) => {}
        other => panic!("unexpected {:?}", other),
    }
    assert!(!s.is_connected());
}

#[test]
fn failed_header_read_is_fatal() {
    let mut s = connected();
    match s.on_header(ReadOutcome::Failed) {
        Step::Done(Err(ProtocolError::Io)) => {}
        other => panic!("unexpected {:?}", other),
    }
    assert_eq!(s.state, ConnState::Disconnected);
}

#[test]
fn info_packet_updates_dimensions_without_payload() {
    let mut s = connected();
    let bytes = header(1280, 720, FrameFormat::Rgba32, 0).to_bytes();
    let received = match s.on_header(ReadOutcome::Filled(bytes)) {
        Step::Done(Ok(r)) => r,
        other => panic!("unexpected {:?}", other),
    };
    match received {
        Received::DimensionUpdate { width: 1280, height: 720 } => {}
        ref other => panic!("unexpected {:?}", other),
    }
    assert_eq!(s.state, ConnState::AwaitHeader);
    let mut app = AppState::default();
    app.observe(&received);
    assert_eq!((app.display_width, app.display_height), (1280, 720));
}

#[test]
fn bad_header_is_reported_and_stream_stays_open() {
    let mut s = connected();
    let mut h = header(2, 2, FrameFormat::Rgb24, 12);
    h.magic = 0;
    match s.on_header(ReadOutcome::Filled(h.to_bytes())) {
        Step::Done(Err(e)) => assert_eq!(e, ProtocolError::Malformed(ip_display_client::HeaderFault::Magic(0))),
        other => panic!("unexpected {:?}", other),
    }
    assert_eq!(s.state, ConnState::AwaitHeader);
    match s.on_header(ReadOutcome::Filled(header(0, 2, FrameFormat::Rgb24, 12).to_bytes())) {
        Step::Done(Err(e)) => assert_eq!(e, ProtocolError::Bounds { width: 0, height: 2 }),
        other => panic!("unexpected {:?}", other),
    }
    assert!(s.is_connected());
}

#[test]
fn rgb_frame_scenario_converts_to_rgba() {
    let mut s = connected();
    let h = header(2, 2, FrameFormat::Rgb24, 12);
    match s.on_header(ReadOutcome::Filled(h.to_bytes())) {
        Step::ReadPayload(12) => {}
        other => panic!("unexpected {:?}", other),
    }
    assert_eq!(s.state, ConnState::AwaitPayload(h));
    let payload = vec![255, 0, 0, 0, 255, 0, 0, 0, 255, 255, 255, 255];
    let frame = match s.on_payload(ReadOutcome::Filled(payload)) {
        Ok(Received::Frame(f)) => f,
        other => panic!("unexpected {:?}", other),
    };
    assert_eq!(s.state, ConnState::AwaitHeader);
    assert_eq!(frame.header, h);
    assert_eq!(
        frame.to_rgba32(),
        Ok(vec![255, 0, 0, 255, 0, 255, 0, 255, 0, 0, 255, 255, 255, 255, 255, 255])
    );
}

#[test]
fn payload_of_wrong_length_is_an_integrity_error() {
    let mut s = connected();
    let h = header(2, 2, FrameFormat::Rgba32, 12);
    match s.on_header(ReadOutcome::Filled(h.to_bytes())) {
        Step::ReadPayload(12) => {}
        other => panic!("unexpected {:?}", other),
    }
    match s.on_payload(ReadOutcome::Filled(vec![0; 12])) {
        Err(e) => assert_eq!(e, ProtocolError::Integrity { expected: 16, actual: 12 }),
        other => panic!("unexpected {:?}", other),
    }
    assert_eq!(s.state, ConnState::AwaitHeader);
}

#[test]
fn payload_cut_short_closes_the_connection() {
    let h = header(2, 2, FrameFormat::H264, 500);
    let mut s = connected();
    s.on_header(ReadOutcome::Filled(h.to_bytes()));
    match s.on_payload(ReadOutcome::Eof(100)) {
        Err(e) => assert_eq!(e, ProtocolError::ConnectionClosed),
        other => panic!("unexpected {:?}", other),
    }
    assert!(!s.is_connected());
    let mut s = connected();
    s.on_header(ReadOutcome::Filled(h.to_bytes()));
    match s.on_payload(ReadOutcome::Failed) {
        Err(e) => assert_eq!(e, ProtocolError::Io),
        other => panic!("unexpected {:?}", other),
    }
    assert!(!s.is_connected());
}

#[test]
fn failed_send_is_fatal() {
    let mut s = connected();
    assert_eq!(s.begin_send(), Ok(()));
    assert_eq!(s.on_sent(true), Ok(()));
    assert!(s.is_connected());
    assert_eq!(s.on_sent(false), Err(ProtocolError::Io));
    assert!(!s.is_connected());
}

#[test]
fn app_state_defaults() {
    let a = AppState::default();
    assert!(!a.connected);
    assert_eq!(a.server, "127.0.0.1");
    assert_eq!((a.port, a.display_width, a.display_height), (8080, 1920, 1080));
    assert!(!a.fullscreen && !a.vsync);
}

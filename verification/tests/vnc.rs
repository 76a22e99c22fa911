use mac_connect_client::video::VideoFrame;
use mac_connect_client::vnc::{
    parse_rect_header, RectHeader, SessionPhase, SessionStep, VncCommand, VncSession, VncState,
    ENCODING_COPY_RECT, ENCODING_CURSOR, ENCODING_DESKTOP_SIZE, ENCODING_LAST_RECT, ENCODING_RAW,
};

fn rect(x: u16, y: u16, w: u16, h: u16, enc: i32) -> Vec<u8> {
    let mut b = Vec::new();
    for v in [x, y, w, h] {
        b.extend_from_slice(&v.to_be_bytes());
    }
    b.extend_from_slice(&enc.to_be_bytes());
    b
}

fn feed(s: &mut VncSession, b: &[u8]) -> SessionStep {
    assert_eq!(s.expected_len(), b.len());
    assert!(s.accepts(b));
    s.on_bytes(b)
}

fn go_on(s: &mut VncSession, b: &[u8]) {
    assert!(matches!(feed(s, b), SessionStep::Continue));
}

fn done(step: SessionStep) -> (Option<VideoFrame>, VncCommand) {
    match step {
        SessionStep::UpdateDone(f, c) => (f, c),
        _ => panic!("expected a completed update"),
    }
}

fn incremental(w: u16, h: u16) -> VncCommand {
    VncCommand::RequestUpdate { incremental: 1, x: 0, y: 0, w, h }
}

#[test]
fn commands_encode_as_rfb_messages() {
    assert_eq!(
        VncCommand::Pointer { button_mask: 9, x: 0x0102, y: 0x0304 }.encode(),
        vec![5, 9, 1, 2, 3, 4]
    );
    assert_eq!(VncCommand::Key { is_down: true, keysym: 0xFFEB }.encode(), vec![4, 1, 0, 0, 0, 0, 0xFF, 0xEB]);
    assert_eq!(VncCommand::Key { is_down: false, keysym: 0x61 }.encode(), vec![4, 0, 0, 0, 0, 0, 0, 0x61]);
    assert_eq!(
        VncCommand::RequestUpdate { incremental: 1, x: 0, y: 0, w: 1920, h: 1080 }.encode(),
        vec![3, 1, 0, 0, 0, 0, 0x07, 0x80, 0x04, 0x38]
    );
}

#[test]
fn encoding_numbers() {
    assert_eq!(ENCODING_RAW, 0);
    assert_eq!(ENCODING_COPY_RECT, 1);
    assert_eq!(ENCODING_DESKTOP_SIZE, -223);
    assert_eq!(ENCODING_LAST_RECT, -224);
    assert_eq!(ENCODING_CURSOR, -239);
}

#[test]
fn rect_header_is_big_endian() {
    let h = parse_rect_header(&rect(1, 2, 300, 4, -239));
    assert_eq!(h, RectHeader { x: 1, y: 2, width: 300, height: 4, encoding: -239 });
}

#[test]
fn vnc_state_helpers() {
    let c = VncState::Connected { width: 1, height: 2, name: "m".to_string() };
    assert!(c.is_connected());
    assert!(!VncState::Connecting.is_connected());
    assert_eq!(c.after_reader_exit(), VncState::Disconnected);
    assert_eq!(VncState::Connecting.after_reader_exit(), VncState::Disconnected);
    let e = VncState::Error("Connection closed: eof".to_string());
    assert_eq!(e.clone().after_reader_exit(), e);
}

#[test]
fn new_session_asks_for_the_whole_screen() {
    let s = VncSession::new(4, 2);
    assert_eq!(s.phase(), SessionPhase::MessageType);
    assert_eq!(s.expected_len(), 1);
    assert_eq!(s.initial_request(), VncCommand::RequestUpdate { incremental: 0, x: 0, y: 0, w: 4, h: 2 });
    assert_eq!(s.frame().to_frame().data, vec![255u8; 32]);
}

#[test]
fn raw_and_copy_update() {
    let mut s = VncSession::new(4, 2);
    go_on(&mut s, &[0]);
    assert_eq!(s.phase(), SessionPhase::UpdateHeader);
    go_on(&mut s, &[0, 0, 2]);
    go_on(&mut s, &rect(1, 0, 2, 1, ENCODING_RAW));
    assert_eq!(s.phase(), SessionPhase::RawData);
    assert_eq!(s.expected_len(), 8);
    go_on(&mut s, &[1, 2, 3, 4, 5, 6, 7, 8]);
    go_on(&mut s, &rect(0, 1, 2, 1, ENCODING_COPY_RECT));
    assert_eq!(s.phase(), SessionPhase::CopySource);
    let (frame, next) = done(feed(&mut s, &[0, 1, 0, 0]));
    assert_eq!(next, incremental(4, 2));
    let f = frame.expect("the update changed the screen");
    assert_eq!((f.width, f.height), (4, 2));
    let w = [255u8, 255, 255, 255];
    let a = [1u8, 2, 3, 255];
    let b = [5u8, 6, 7, 255];
    let expected: Vec<u8> = [w, a, b, w, a, b, w, w].concat();
    assert_eq!(f.data, expected);
    assert_eq!(s.phase(), SessionPhase::MessageType);
}

#[test]
fn empty_update_sends_no_frame() {
    let mut s = VncSession::new(2, 2);
    go_on(&mut s, &[0]);
    let (frame, next) = done(feed(&mut s, &[0, 0, 0]));
    assert!(frame.is_none());
    assert_eq!(next, incremental(2, 2));
}

#[test]
fn desktop_size_resets_the_screen() {
    let mut s = VncSession::new(4, 2);
    go_on(&mut s, &[0]);
    go_on(&mut s, &[0, 0, 2]);
    go_on(&mut s, &rect(0, 0, 1, 1, ENCODING_RAW));
    go_on(&mut s, &[1, 2, 3, 4]);
    let (frame, next) = done(feed(&mut s, &rect(0, 0, 3, 1, ENCODING_DESKTOP_SIZE)));
    let f = frame.expect("a resize is an update");
    assert_eq!((f.width, f.height), (3, 1));
    assert_eq!(f.data, vec![255u8; 12]);
    assert_eq!(next, incremental(3, 1));
    assert_eq!(s.initial_request(), VncCommand::RequestUpdate { incremental: 0, x: 0, y: 0, w: 3, h: 1 });
}

#[test]
fn last_rect_ends_the_update() {
    let mut s = VncSession::new(2, 1);
    go_on(&mut s, &[0]);
    go_on(&mut s, &[0, 0, 9]);
    go_on(&mut s, &rect(0, 0, 1, 1, ENCODING_RAW));
    go_on(&mut s, &[7, 7, 7, 7]);
    let (frame, _) = done(feed(&mut s, &rect(0, 0, 0, 0, ENCODING_LAST_RECT)));
    assert_eq!(frame.expect("pixels were drawn").data, vec![7, 7, 7, 255, 255, 255, 255, 255]);
    assert_eq!(s.phase(), SessionPhase::MessageType);
}

#[test]
fn cursor_shape_is_skipped() {
    let mut s = VncSession::new(2, 1);
    go_on(&mut s, &[0]);
    go_on(&mut s, &[0, 0, 1]);
    go_on(&mut s, &rect(0, 0, 2, 2, ENCODING_CURSOR));
    assert_eq!(s.phase(), SessionPhase::CursorData);
    assert_eq!(s.expected_len(), 2 * 2 * 4 + 2);
    let (frame, _) = done(feed(&mut s, &[0u8; 18]));
    assert!(frame.is_none());
}

#[test]
fn empty_cursor_and_unknown_encodings_are_passed_over() {
    let mut s = VncSession::new(2, 1);
    go_on(&mut s, &[0]);
    go_on(&mut s, &[0, 0, 3]);
    go_on(&mut s, &rect(0, 0, 0, 0, ENCODING_CURSOR));
    go_on(&mut s, &rect(0, 0, 5, 5, 16));
    let (frame, _) = done(feed(&mut s, &rect(0, 0, 5, 5, 7)));
    assert!(frame.is_none());
}

#[test]
fn cut_text_is_skipped() {
    let mut s = VncSession::new(1, 1);
    go_on(&mut s, &[3]);
    assert_eq!(s.phase(), SessionPhase::CutPad);
    go_on(&mut s, &[0, 0, 0]);
    go_on(&mut s, &[0, 0, 0, 5]);
    assert_eq!(s.phase(), SessionPhase::CutText);
    assert_eq!(s.expected_len(), 5);
    go_on(&mut s, b"hello");
    assert_eq!(s.phase(), SessionPhase::MessageType);
}

#[test]
fn unknown_messages_read_nothing_more() {
    let mut s = VncSession::new(1, 1);
    go_on(&mut s, &[2]);
    go_on(&mut s, &[150]);
    assert_eq!(s.phase(), SessionPhase::MessageType);
    assert_eq!(s.expected_len(), 1);
}

#[test]
fn oversized_raw_rectangle_is_refused() {
    let mut s = VncSession::new(3, 2);
    go_on(&mut s, &[0]);
    go_on(&mut s, &[0, 0, 1]);
    go_on(&mut s, &rect(7, 0, 1, 1, ENCODING_RAW));
    assert!(!s.accepts(&[0, 0, 0, 0]));
}

#[test]
fn failed_read_between_messages_closes() {
    let mut s = VncSession::new(1, 1);
    assert!(matches!(s.on_read_failed(), SessionStep::Closed));
    assert_eq!(s.phase(), SessionPhase::Closed);

    let mut s = VncSession::new(1, 1);
    go_on(&mut s, &[0]);
    assert!(matches!(s.on_read_failed(), SessionStep::Closed));
}

#[test]
fn failed_read_inside_an_update_ends_it() {
    let mut s = VncSession::new(1, 1);
    go_on(&mut s, &[0]);
    go_on(&mut s, &[0, 0, 2]);
    go_on(&mut s, &rect(0, 0, 1, 1, ENCODING_RAW));
    go_on(&mut s, &[9, 9, 9, 9]);
    let (frame, next) = done(s.on_read_failed());
    assert_eq!(frame.expect("the first rectangle was drawn").data, vec![9, 9, 9, 255]);
    assert_eq!(next, incremental(1, 1));
    assert_eq!(s.phase(), SessionPhase::MessageType);
}

#[test]
fn failed_skips_are_ignored() {
    let mut s = VncSession::new(1, 1);
    go_on(&mut s, &[3]);
    assert!(matches!(s.on_read_failed(), SessionStep::Continue));
    assert_eq!(s.phase(), SessionPhase::CutLength);
    assert!(matches!(s.on_read_failed(), SessionStep::Continue));
    assert_eq!(s.phase(), SessionPhase::MessageType);

    go_on(&mut s, &[0]);
    go_on(&mut s, &[0, 0, 2]);
    go_on(&mut s, &rect(0, 0, 1, 1, ENCODING_CURSOR));
    assert!(matches!(s.on_read_failed(), SessionStep::Continue));
    assert_eq!(s.phase(), SessionPhase::RectHeader);
}

#[test]
fn every_frame_is_whole_and_opaque() {
    let mut s = VncSession::new(3, 2);
    let mut frames = Vec::new();
    go_on(&mut s, &[0]);
    go_on(&mut s, &[0, 0, 3]);
    go_on(&mut s, &rect(0, 0, 2, 2, ENCODING_RAW));
    go_on(&mut s, &[7u8; 16]);
    go_on(&mut s, &rect(1, 0, 2, 1, ENCODING_COPY_RECT));
    go_on(&mut s, &[0, 0, 0, 1]);
    let (f, _) = done(feed(&mut s, &rect(0, 0, 0, 0, ENCODING_LAST_RECT)));
    frames.push(f.expect("pixels were drawn"));
    go_on(&mut s, &[0]);
    go_on(&mut s, &[0, 0, 1]);
    let (f, _) = done(feed(&mut s, &rect(0, 0, 5, 1, ENCODING_DESKTOP_SIZE)));
    frames.push(f.expect("a resize is an update"));
    for f in frames {
        assert_eq!(f.data.len(), f.width as usize * f.height as usize * 4);
        for px in f.data.chunks(4) {
            assert_eq!(px[3], 255);
        }
    }
}

//! A VNC session once the handshake is over: the messages the client sends,
//! and the reading of the server's messages into the framebuffer.
//!
//! Reading is a state machine: it says how many bytes to read next, takes
//! them, and reports when a framebuffer update is complete, with the frame
//! to display and the request for the next update.
use crate::framebuffer::{
    Framebuffer, FrameView, frame_len, frame_wf, raw_fits, raw_pixels, copy_fits, copy_rows,
    copy_row_count, opaque, lemma_raw_keeps_opaque, lemma_copy_keeps_opaque,
};
use crate::video::VideoFrame;
use crate::wire::{be2, be4, be2_value, be4_value, push_u16_be, push_u32_be, read_u16_be, read_i32_be};
use vstd::prelude::*;

verus! {

/// Where the VNC connection stands.
#[derive(Clone, Debug, PartialEq)]
pub enum VncState {
    Disconnected,
    Connecting,
    Connected { width: u16, height: u16, name: String },
    Error(String),
}

impl VncState {
    /// Whether the session is up.
    pub fn is_connected(&self) -> (r: bool)
        ensures
            r == (*self is Connected),
    {
        match self {
            VncState::Connected { .. } => true,
            _ => false,
        }
    }

    /// The state once the reading side has stopped: an error stays, so the
    /// user can read it; anything else reads as disconnected.
    pub fn after_reader_exit(self) -> (r: VncState)
        ensures
            self is Error ==> r == self,
            !(self is Error) ==> r == VncState::Disconnected,
    {
        match self {
            VncState::Error(e) => VncState::Error(e),
            _ => VncState::Disconnected,
        }
    }
}

/// A message from the client to the server.
#[derive(Clone, Copy, Debug, PartialEq, Eq, Structural)]
pub enum VncCommand {
    /// The pointer is at (`x`, `y`) with the buttons of `button_mask` down.
    Pointer { button_mask: u8, x: u16, y: u16 },
    /// Key `keysym` goes down or up.
    Key { is_down: bool, keysym: u32 },
    /// Asks for the screen area at (`x`, `y`), `w` by `h`; incremental
    /// requests ask only for what changed.
    RequestUpdate { incremental: u8, x: u16, y: u16, w: u16, h: u16 },
}

/// The bytes of a client message.
pub open spec fn command_bytes(c: VncCommand) -> Seq<u8> {
    match c {
        VncCommand::Pointer { button_mask, x, y } => seq![5u8, button_mask] + be2(x) + be2(y),
        VncCommand::Key { is_down, keysym } => seq![4u8, if is_down { 1u8 } else { 0u8 }, 0u8, 0u8] + be4(keysym),
        VncCommand::RequestUpdate { incremental, x, y, w, h } => seq![3u8, incremental] + be2(x) + be2(y) + be2(w) + be2(h),
    }
}

impl VncCommand {
    /// The message as the server reads it: PointerEvent, KeyEvent or
    /// FramebufferUpdateRequest.
    pub fn encode(&self) -> (r: Vec<u8>)
        ensures
            r@ == command_bytes(*self),
    {
        match *self {
            VncCommand::Pointer { button_mask, x, y } => {
                let mut buf: Vec<u8> = Vec::with_capacity(6);
                buf.push(5);
                buf.push(button_mask);
                push_u16_be(&mut buf, x);
                push_u16_be(&mut buf, y);
                buf
            },
            VncCommand::Key { is_down, keysym } => {
                let mut buf: Vec<u8> = Vec::with_capacity(8);
                buf.push(4);
                buf.push(if is_down { 1 } else { 0 });
                buf.push(0);
                buf.push(0);
                push_u32_be(&mut buf, keysym);
                assert(buf@ =~= command_bytes(*self));
                buf
            },
            VncCommand::RequestUpdate { incremental, x, y, w, h } => {
                let mut buf: Vec<u8> = Vec::with_capacity(10);
                buf.push(3);
                buf.push(incremental);
                push_u16_be(&mut buf, x);
                push_u16_be(&mut buf, y);
                push_u16_be(&mut buf, w);
                push_u16_be(&mut buf, h);
                buf
            },
        }
    }
}

/// Raw pixels, row by row.
pub const ENCODING_RAW: i32 = 0;
/// A copy of another area of the screen.
pub const ENCODING_COPY_RECT: i32 = 1;
/// The screen changed size.
pub const ENCODING_DESKTOP_SIZE: i32 = -223;
/// The no more rectangles follow in this update.
pub const ENCODING_LAST_RECT: i32 = -224;
/// A new cursor shape.
pub const ENCODING_CURSOR: i32 = -239;

/// The header of a rectangle in a framebuffer update.
#[derive(Clone, Copy, Debug, PartialEq, Eq, Structural)]
pub struct RectHeader {
    pub x: u16,
    pub y: u16,
    pub width: u16,
    pub height: u16,
    pub encoding: i32,
}

/// The rectangle header in the first twelve bytes of `b`, big-endian.
pub open spec fn rect_header_of(b: Seq<u8>) -> RectHeader {
    RectHeader {
        x: be2_value(b.subrange(0, 2)),
        y: be2_value(b.subrange(2, 4)),
        width: be2_value(b.subrange(4, 6)),
        height: be2_value(b.subrange(6, 8)),
        encoding: be4_value(b.subrange(8, 12)) as i32,
    }
}

/// Reads a rectangle header.
pub fn parse_rect_header(b: &[u8]) -> (r: RectHeader)
    requires
        b@.len() >= 12,
    ensures
        r == rect_header_of(b@),
{
    let x = read_u16_be(b, 0);
    let y = read_u16_be(b, 2);
    let width = read_u16_be(b, 4);
    let height = read_u16_be(b, 6);
    let encoding = read_i32_be(b, 8);
    let ghost v = be4_value(b@.subrange(8, 12));
    assert((encoding as u32) as i32 == encoding) by (bit_vector);
    RectHeader { x, y, width, height, encoding }
}

/// The bytes of a cursor shape `w` by `h`: the pixels and a bit mask whose
/// rows are padded to whole bytes.
pub open spec fn cursor_data_len(w: int, h: int) -> int {
    w * h * 4 + ((w + 7) / 8) * h
}

/// What the session reads next.
#[derive(Clone, Copy, Debug, PartialEq, Eq, Structural)]
pub enum SessionPhase {
    /// The type of the next server message (1 byte).
    MessageType,
    /// Padding and the number of rectangles of an update (3 bytes).
    UpdateHeader,
    /// A rectangle header (12 bytes).
    RectHeader,
    /// The pixels of a raw rectangle.
    RawData,
    /// The source position of a copied rectangle (4 bytes).
    CopySource,
    /// A cursor shape, skipped.
    CursorData,
    /// Padding of a cut-text message (3 bytes).
    CutPad,
    /// The length of the cut text (4 bytes).
    CutLength,
    /// The cut text, skipped.
    CutText,
    /// Reading is over.
    Closed,
}

/// What the session knows.
pub struct SessionModel {
    pub phase: SessionPhase,
    pub expect: nat,
    pub rects_left: u16,
    pub rect: RectHeader,
    pub has_update: bool,
    pub frame: FrameView,
}

/// What a step asks of the caller, as data.
pub enum SessionEffect {
    Continue,
    UpdateDone(Option<(u32, u32, Seq<u8>)>, VncCommand),
    Closed,
}

/// What a step asks of the caller.
pub enum SessionStep {
    /// Read as many bytes as the session expects next.
    Continue,
    /// An update is complete: display the frame, if the update changed the
    /// screen, and send the command (a request for the next update); then
    /// read on.
    UpdateDone(Option<VideoFrame>, VncCommand),
    /// Reading is over.
    Closed,
}

impl View for SessionStep {
    type V = SessionEffect;

    open spec fn view(&self) -> SessionEffect {
        match self {
            SessionStep::Continue => SessionEffect::Continue,
            SessionStep::UpdateDone(f, c) => SessionEffect::UpdateDone(
                match f {
                    Some(v) => Some((v.width, v.height, v.data@)),
                    None => None,
                },
                *c,
            ),
            SessionStep::Closed => SessionEffect::Closed,
        }
    }
}

/// The request for the next update: incremental, the whole screen.
pub open spec fn next_request(f: FrameView) -> VncCommand {
    VncCommand::RequestUpdate { incremental: 1, x: 0, y: 0, w: f.width, h: f.height }
}

/// The state once an update is complete.
pub open spec fn finished(m: SessionModel) -> SessionModel {
    SessionModel { phase: SessionPhase::MessageType, expect: 1, rects_left: 0, ..m }
}

/// What completing an update asks of the caller.
pub open spec fn finish_effect(m: SessionModel) -> SessionEffect {
    SessionEffect::UpdateDone(
        if m.has_update {
            Some((m.frame.width as u32, m.frame.height as u32, m.frame.pixels))
        } else {
            None
        },
        next_request(m.frame),
    )
}

/// The state after a rectangle, with `left` rectangles to go.
pub open spec fn after_rect(m: SessionModel, left: u16) -> SessionModel {
    if left == 0 {
        finished(m)
    } else {
        SessionModel { phase: SessionPhase::RectHeader, expect: 12, rects_left: left, ..m }
    }
}

/// What moving past a rectangle asks of the caller.
pub open spec fn after_rect_effect(m: SessionModel, left: u16) -> SessionEffect {
    if left == 0 {
        finish_effect(m)
    } else {
        SessionEffect::Continue
    }
}

/// A screen `w` by `h`, every byte 255.
pub open spec fn blank_frame(w: u16, h: u16) -> FrameView {
    FrameView { width: w, height: h, pixels: Seq::new(frame_len(w as int, h as int) as nat, |i: int| 255u8) }
}

/// The state after reading `b`.
pub open spec fn session_after(m: SessionModel, b: Seq<u8>) -> SessionModel {
    match m.phase {
        SessionPhase::MessageType => if b[0] == 0 {
            SessionModel { phase: SessionPhase::UpdateHeader, expect: 3, ..m }
        } else if b[0] == 3 {
            SessionModel { phase: SessionPhase::CutPad, expect: 3, ..m }
        } else {
            m
        },
        SessionPhase::UpdateHeader => {
            let count = be2_value(b.subrange(1, 3));
            let fresh = SessionModel { has_update: false, ..m };
            if count == 0 {
                finished(fresh)
            } else {
                SessionModel { phase: SessionPhase::RectHeader, expect: 12, rects_left: count, ..fresh }
            }
        },
        SessionPhase::RectHeader => {
            let r = rect_header_of(b);
            let left = (m.rects_left - 1) as u16;
            if r.encoding == ENCODING_RAW {
                SessionModel {
                    phase: SessionPhase::RawData,
                    expect: (r.width * r.height * 4) as nat,
                    rects_left: left,
                    rect: r,
                    ..m
                }
            } else if r.encoding == ENCODING_COPY_RECT {
                SessionModel { phase: SessionPhase::CopySource, expect: 4, rects_left: left, rect: r, ..m }
            } else if r.encoding == ENCODING_DESKTOP_SIZE {
                after_rect(SessionModel { has_update: true, frame: blank_frame(r.width, r.height), ..m }, left)
            } else if r.encoding == ENCODING_CURSOR {
                let n = cursor_data_len(r.width as int, r.height as int);
                if n > 0 {
                    SessionModel { phase: SessionPhase::CursorData, expect: n as nat, rects_left: left, ..m }
                } else {
                    after_rect(m, left)
                }
            } else if r.encoding == ENCODING_LAST_RECT {
                finished(m)
            } else {
                after_rect(m, left)
            }
        },
        SessionPhase::RawData => after_rect(
            SessionModel {
                has_update: true,
                frame: FrameView {
                    pixels: raw_pixels(m.frame.pixels, m.frame.width as int, m.rect.x as int, m.rect.y as int,
                        m.rect.width as int, m.rect.height as int, b),
                    ..m.frame
                },
                ..m
            },
            m.rects_left,
        ),
        SessionPhase::CopySource => {
            let sx = be2_value(b.subrange(0, 2));
            let sy = be2_value(b.subrange(2, 4));
            after_rect(
                SessionModel {
                    has_update: true,
                    frame: FrameView {
                        pixels: copy_rows(m.frame.pixels, m.frame.width as int, m.rect.x as int, m.rect.y as int,
                            m.rect.width as int, sx as int, sy as int,
                            copy_row_count(m.frame.height as int, m.rect.y as int, m.rect.height as int, sy as int) as nat),
                        ..m.frame
                    },
                    ..m
                },
                m.rects_left,
            )
        },
        SessionPhase::CursorData => after_rect(m, m.rects_left),
        SessionPhase::CutPad => SessionModel { phase: SessionPhase::CutLength, expect: 4, ..m },
        SessionPhase::CutLength => SessionModel { phase: SessionPhase::CutText, expect: be4_value(b) as nat, ..m },
        SessionPhase::CutText => SessionModel { phase: SessionPhase::MessageType, expect: 1, ..m },
        SessionPhase::Closed => m,
    }
}

/// What reading `b` asks of the caller.
pub open spec fn session_effect(m: SessionModel, b: Seq<u8>) -> SessionEffect {
    match m.phase {
        SessionPhase::UpdateHeader => if be2_value(b.subrange(1, 3)) == 0 {
            finish_effect(SessionModel { has_update: false, ..m })
        } else {
            SessionEffect::Continue
        },
        SessionPhase::RectHeader => {
            let r = rect_header_of(b);
            let left = (m.rects_left - 1) as u16;
            if r.encoding == ENCODING_RAW || r.encoding == ENCODING_COPY_RECT {
                SessionEffect::Continue
            } else if r.encoding == ENCODING_DESKTOP_SIZE {
                after_rect_effect(SessionModel { has_update: true, frame: blank_frame(r.width, r.height), ..m }, left)
            } else if r.encoding == ENCODING_CURSOR {
                if cursor_data_len(r.width as int, r.height as int) > 0 {
                    SessionEffect::Continue
                } else {
                    after_rect_effect(m, left)
                }
            } else if r.encoding == ENCODING_LAST_RECT {
                finish_effect(m)
            } else {
                after_rect_effect(m, left)
            }
        },
        SessionPhase::RawData | SessionPhase::CopySource | SessionPhase::CursorData => {
            let n = session_after(m, b);
            if m.rects_left == 0 {
                finish_effect(n)
            } else {
                SessionEffect::Continue
            }
        },
        SessionPhase::Closed => SessionEffect::Closed,
        _ => SessionEffect::Continue,
    }
}

/// The state after a failed read. A failure while reading rectangles ends
/// the update early; a failure while skipping data is ignored; a failure
/// between messages ends the session.
pub open spec fn session_after_failure(m: SessionModel) -> SessionModel {
    match m.phase {
        SessionPhase::RectHeader | SessionPhase::RawData | SessionPhase::CopySource => finished(m),
        SessionPhase::CursorData => after_rect(m, m.rects_left),
        SessionPhase::CutPad => SessionModel { phase: SessionPhase::CutLength, expect: 4, ..m },
        SessionPhase::CutLength | SessionPhase::CutText => SessionModel { phase: SessionPhase::MessageType, expect: 1, ..m },
        _ => SessionModel { phase: SessionPhase::Closed, expect: 0, ..m },
    }
}

/// What a failed read asks of the caller.
pub open spec fn session_failure_effect(m: SessionModel) -> SessionEffect {
    match m.phase {
        SessionPhase::RectHeader | SessionPhase::RawData | SessionPhase::CopySource => finish_effect(m),
        SessionPhase::CursorData => after_rect_effect(m, m.rects_left),
        SessionPhase::CutPad | SessionPhase::CutLength | SessionPhase::CutText => SessionEffect::Continue,
        _ => SessionEffect::Closed,
    }
}

/// Whether bytes `b` can be taken without leaving the machine's limits or
/// the framebuffer's bytes: a new screen size must fit in memory, a raw
/// rectangle's pixels and a cursor's data must be addressable, and drawn
/// rectangles must stay within the screen's bytes.
pub open spec fn session_accepts(m: SessionModel, b: Seq<u8>) -> bool {
    match m.phase {
        SessionPhase::RectHeader => {
            let r = rect_header_of(b);
            (r.encoding == ENCODING_RAW || r.encoding == ENCODING_DESKTOP_SIZE ==> frame_len(r.width as int, r.height as int) <= usize::MAX)
            && (r.encoding == ENCODING_CURSOR ==> cursor_data_len(r.width as int, r.height as int) <= usize::MAX)
        },
        SessionPhase::RawData => raw_fits(m.frame.width as int, m.frame.height as int, m.rect.x as int, m.rect.y as int, m.rect.height as int),
        SessionPhase::CopySource => copy_fits(m.frame.width as int, m.frame.height as int, m.rect.x as int, m.rect.y as int,
            m.rect.width as int, m.rect.height as int, be2_value(b.subrange(0, 2)) as int, be2_value(b.subrange(2, 4)) as int),
        _ => true,
    }
}

/// Whether the expected length fits the phase.
pub open spec fn session_wf(m: SessionModel) -> bool {
    &&& frame_wf(m.frame)
    &&& match m.phase {
        SessionPhase::MessageType => m.expect == 1,
        SessionPhase::UpdateHeader => m.expect == 3,
        SessionPhase::RectHeader => m.expect == 12 && m.rects_left > 0,
        SessionPhase::RawData => m.expect == m.rect.width * m.rect.height * 4,
        SessionPhase::CopySource => m.expect == 4,
        SessionPhase::CutPad => m.expect == 3,
        SessionPhase::CutLength => m.expect == 4,
        _ => true,
    }
}

/// The reading side of a VNC session.
pub struct VncSession {
    frame: Framebuffer,
    phase: SessionPhase,
    expect: usize,
    rects_left: u16,
    rect: RectHeader,
    has_update: bool,
}

impl VncSession {
    /// What the session knows.
    pub closed spec fn model(&self) -> SessionModel {
        SessionModel {
            phase: self.phase,
            expect: self.expect as nat,
            rects_left: self.rects_left,
            rect: self.rect,
            has_update: self.has_update,
            frame: self.frame@,
        }
    }

    /// A session on a `width` by `height` screen, every byte 255, waiting
    /// for the first server message.
    pub fn new(width: u16, height: u16) -> (r: Self)
        requires
            frame_len(width as int, height as int) <= usize::MAX,
        ensures
            r.model().phase == SessionPhase::MessageType,
            r.model().expect == 1,
            r.model().rects_left == 0,
            !r.model().has_update,
            r.model().frame == blank_frame(width, height),
            session_wf(r.model()),
    {
        let frame = Framebuffer::new(width, height);
        assert(frame@.pixels =~= blank_frame(width, height).pixels);
        VncSession {
            frame,
            phase: SessionPhase::MessageType,
            expect: 1,
            rects_left: 0,
            rect: RectHeader { x: 0, y: 0, width: 0, height: 0, encoding: 0 },
            has_update: false,
        }
    }

    /// The first request: the whole screen, not incremental.
    pub fn initial_request(&self) -> (r: VncCommand)
        ensures
            r == (VncCommand::RequestUpdate { incremental: 0, x: 0, y: 0, w: self.model().frame.width, h: self.model().frame.height }),
    {
        VncCommand::RequestUpdate { incremental: 0, x: 0, y: 0, w: self.frame.width(), h: self.frame.height() }
    }

    /// What the session reads next.
    pub fn phase(&self) -> (r: SessionPhase)
        ensures
            r == self.model().phase,
    {
        self.phase
    }

    /// How many bytes the next read must bring.
    pub fn expected_len(&self) -> (r: usize)
        ensures
            r == self.model().expect,
    {
        self.expect
    }

    /// The screen as it stands.
    pub fn frame(&self) -> (r: &Framebuffer)
        ensures
            r@ == self.model().frame,
    {
        &self.frame
    }

    /// Whether bytes `b` can be taken (see `session_accepts`).
    pub fn accepts(&self, b: &[u8]) -> (r: bool)
        requires
            session_wf(self.model()),
            b@.len() == self.model().expect,
        ensures
            r == session_accepts(self.model(), b@),
    {
        match self.phase {
            SessionPhase::RectHeader => {
                let r = parse_rect_header(b);
                let w = r.width as u64;
                let h = r.height as u64;
                proof {
                    assert(w * h <= 0xFFFF * 0xFFFF) by (nonlinear_arith)
                        requires w <= 0xFFFF, h <= 0xFFFF;
                    assert(((w + 7) / 8) * h <= 0x2000 * 0xFFFF) by (nonlinear_arith)
                        requires w <= 0xFFFF, h <= 0xFFFF;
                }
                let pixels: u64 = w * h * 4;
                let cursor: u64 = pixels + ((w + 7) / 8) * h;
                let max = usize::MAX as u64;
                (!(r.encoding == ENCODING_RAW || r.encoding == ENCODING_DESKTOP_SIZE) || pixels <= max)
                    && (!(r.encoding == ENCODING_CURSOR) || cursor <= max)
            },
            SessionPhase::RawData => {
                self.frame.raw_fits(self.rect.x, self.rect.y, self.rect.width, self.rect.height)
            },
            SessionPhase::CopySource => {
                let sx = read_u16_be(b, 0);
                let sy = read_u16_be(b, 2);
                self.frame.copy_fits(self.rect.x, self.rect.y, self.rect.width, self.rect.height, sx, sy)
            },
            _ => true,
        }
    }

    /// Completes the update under way.
    fn finish(&mut self) -> (r: SessionStep)
        requires
            frame_wf(old(self).model().frame),
        ensures
            final(self).model() == finished(old(self).model()),
            r@ == finish_effect(old(self).model()),
    {
        let frame = if self.has_update {
            Some(self.frame.to_frame())
        } else {
            None
        };
        let request = VncCommand::RequestUpdate {
            incremental: 1,
            x: 0,
            y: 0,
            w: self.frame.width(),
            h: self.frame.height(),
        };
        self.phase = SessionPhase::MessageType;
        self.expect = 1;
        self.rects_left = 0;
        SessionStep::UpdateDone(frame, request)
    }

    /// Moves past a rectangle, with `left` to go.
    fn next_rect(&mut self, left: u16) -> (r: SessionStep)
        requires
            frame_wf(old(self).model().frame),
        ensures
            final(self).model() == after_rect(old(self).model(), left),
            r@ == after_rect_effect(old(self).model(), left),
    {
        if left == 0 {
            self.finish()
        } else {
            self.phase = SessionPhase::RectHeader;
            self.expect = 12;
            self.rects_left = left;
            SessionStep::Continue
        }
    }

    /// Takes the `b` read, exactly as many bytes as expected.
    pub fn on_bytes(&mut self, b: &[u8]) -> (r: SessionStep)
        requires
            session_wf(old(self).model()),
            old(self).model().phase != SessionPhase::Closed,
            b@.len() == old(self).model().expect,
            session_accepts(old(self).model(), b@),
        ensures
            final(self).model() == session_after(old(self).model(), b@),
            session_wf(final(self).model()),
            r@ == session_effect(old(self).model(), b@),
    {
        match self.phase {
            SessionPhase::MessageType => {
                if b[0] == 0 {
                    self.phase = SessionPhase::UpdateHeader;
                    self.expect = 3;
                } else if b[0] == 3 {
                    self.phase = SessionPhase::CutPad;
                    self.expect = 3;
                }
                SessionStep::Continue
            },
            SessionPhase::UpdateHeader => {
                let count = read_u16_be(b, 1);
                self.has_update = false;
                if count == 0 {
                    self.finish()
                } else {
                    self.phase = SessionPhase::RectHeader;
                    self.expect = 12;
                    self.rects_left = count;
                    SessionStep::Continue
                }
            },
            SessionPhase::RectHeader => {
                let r = parse_rect_header(b);
                let left = self.rects_left - 1;
                if r.encoding == ENCODING_RAW {
                    proof {
                        assert(r.width as int * r.height as int >= 0) by (nonlinear_arith);
                    }
                    self.phase = SessionPhase::RawData;
                    self.expect = (r.width as usize) * (r.height as usize) * 4;
                    self.rects_left = left;
                    self.rect = r;
                    SessionStep::Continue
                } else if r.encoding == ENCODING_COPY_RECT {
                    self.phase = SessionPhase::CopySource;
                    self.expect = 4;
                    self.rects_left = left;
                    self.rect = r;
                    SessionStep::Continue
                } else if r.encoding == ENCODING_DESKTOP_SIZE {
                    self.frame = Framebuffer::new(r.width, r.height);
                    assert(self.frame@.pixels =~= blank_frame(r.width, r.height).pixels);
                    self.has_update = true;
                    self.next_rect(left)
                } else if r.encoding == ENCODING_CURSOR {
                    let w = r.width as usize;
                    let h = r.height as usize;
                    proof {
                        assert(w * h >= 0) by (nonlinear_arith);
                        assert(((w + 7) / 8) * h >= 0) by (nonlinear_arith);
                    }
                    let n: usize = w * h * 4 + ((w + 7) / 8) * h;
                    if n > 0 {
                        self.phase = SessionPhase::CursorData;
                        self.expect = n;
                        self.rects_left = left;
                        SessionStep::Continue
                    } else {
                        self.next_rect(left)
                    }
                } else if r.encoding == ENCODING_LAST_RECT {
                    self.finish()
                } else {
                    self.next_rect(left)
                }
            },
            SessionPhase::RawData => {
                self.frame.apply_raw(self.rect.x, self.rect.y, self.rect.width, self.rect.height, b);
                self.has_update = true;
                let left = self.rects_left;
                self.next_rect(left)
            },
            SessionPhase::CopySource => {
                let sx = read_u16_be(b, 0);
                let sy = read_u16_be(b, 2);
                self.frame.apply_copy_rect(self.rect.x, self.rect.y, self.rect.width, self.rect.height, sx, sy);
                self.has_update = true;
                let left = self.rects_left;
                self.next_rect(left)
            },
            SessionPhase::CursorData => {
                let left = self.rects_left;
                self.next_rect(left)
            },
            SessionPhase::CutPad => {
                self.phase = SessionPhase::CutLength;
                self.expect = 4;
                SessionStep::Continue
            },
            SessionPhase::CutLength => {
                let len = crate::wire::read_u32_be(b, 0);
                assert(b@.subrange(0, 4) =~= b@);
                self.phase = SessionPhase::CutText;
                self.expect = len as usize;
                SessionStep::Continue
            },
            SessionPhase::CutText => {
                self.phase = SessionPhase::MessageType;
                self.expect = 1;
                SessionStep::Continue
            },
            SessionPhase::Closed => SessionStep::Closed,
        }
    }

    /// A read failed or came up short.
    pub fn on_read_failed(&mut self) -> (r: SessionStep)
        requires
            session_wf(old(self).model()),
            old(self).model().phase != SessionPhase::Closed,
        ensures
            final(self).model() == session_after_failure(old(self).model()),
            session_wf(final(self).model()),
            r@ == session_failure_effect(old(self).model()),
    {
        match self.phase {
            SessionPhase::RectHeader | SessionPhase::RawData | SessionPhase::CopySource => self.finish(),
            SessionPhase::CursorData => {
                let left = self.rects_left;
                self.next_rect(left)
            },
            SessionPhase::CutPad => {
                self.phase = SessionPhase::CutLength;
                self.expect = 4;
                SessionStep::Continue
            },
            SessionPhase::CutLength | SessionPhase::CutText => {
                self.phase = SessionPhase::MessageType;
                self.expect = 1;
                SessionStep::Continue
            },
            _ => {
                self.phase = SessionPhase::Closed;
                self.expect = 0;
                SessionStep::Closed
            },
        }
    }
}

/// Every completed update asks for the next one: an incremental request for
/// the whole screen as it stands after the update, and the frame handed on
/// is that screen; reading then goes on with the next message.
pub proof fn lemma_update_asks_for_next(m: SessionModel, b: Seq<u8>)
    requires
        m.phase != SessionPhase::Closed,
    ensures
        session_effect(m, b) matches SessionEffect::UpdateDone(f, c) ==> {
            &&& c == next_request(session_after(m, b).frame)
            &&& session_after(m, b).phase == SessionPhase::MessageType
            &&& (f matches Some((w, h, px)) ==> w == session_after(m, b).frame.width && h
                == session_after(m, b).frame.height && px == session_after(m, b).frame.pixels)
        },
        session_failure_effect(m) matches SessionEffect::UpdateDone(f, c) ==> {
            &&& c == next_request(session_after_failure(m).frame)
            &&& session_after_failure(m).phase == SessionPhase::MessageType
            &&& (f matches Some((w, h, px)) ==> px == session_after_failure(m).frame.pixels)
        },
{
}

/// A new screen is white and opaque, four bytes a pixel.
pub proof fn lemma_blank_frame_opaque(w: u16, h: u16)
    ensures
        frame_wf(blank_frame(w, h)),
        opaque(blank_frame(w, h).pixels),
{
    assert(frame_len(w as int, h as int) >= 0) by (nonlinear_arith);
}

/// Every frame the session hands out is `width` by `height` pixels of four
/// bytes with opaque alpha: a session starts from an opaque screen (see
/// `lemma_blank_frame_opaque`), each step it takes keeps the screen
/// well-formed and opaque, and each completed update hands out that screen.
pub proof fn lemma_frames_are_opaque(m: SessionModel, b: Seq<u8>)
    requires
        session_wf(m),
        m.phase != SessionPhase::Closed,
        b.len() == m.expect,
        session_accepts(m, b),
        opaque(m.frame.pixels),
    ensures
        frame_wf(session_after(m, b).frame),
        opaque(session_after(m, b).frame.pixels),
        frame_wf(session_after_failure(m).frame),
        opaque(session_after_failure(m).frame.pixels),
        session_effect(m, b) matches SessionEffect::UpdateDone(Some((w, h, px)), _) ==> px.len() == w * h * 4
            && opaque(px),
        session_failure_effect(m) matches SessionEffect::UpdateDone(Some((w, h, px)), _) ==> px.len() == w * h
            * 4 && opaque(px),
{
    let f = m.frame;
    match m.phase {
        SessionPhase::RectHeader => {
            let r = rect_header_of(b);
            lemma_blank_frame_opaque(r.width, r.height);
        },
        SessionPhase::RawData => {
            lemma_raw_keeps_opaque(f.pixels, f.width as int, m.rect.x as int, m.rect.y as int, m.rect.width as int,
                m.rect.height as int, b);
        },
        SessionPhase::CopySource => {
            lemma_copy_keeps_opaque(f.pixels, f.width as int, f.height as int, m.rect.x as int, m.rect.y as int,
                m.rect.width as int, m.rect.height as int, be2_value(b.subrange(0, 2)) as int,
                be2_value(b.subrange(2, 4)) as int);
        },
        _ => {},
    }
    lemma_update_asks_for_next(m, b);
}

/// A cursor shape is skipped and the update goes on: with rectangles left,
/// the next read is the next rectangle's 12-byte header, the count and the
/// screen are untouched and nothing is handed out; after the last counted
/// rectangle the update is complete and the next read is a message type.
pub proof fn lemma_cursor_data_skipped(m: SessionModel, b: Seq<u8>)
    requires
        m.phase == SessionPhase::CursorData,
    ensures
        m.rects_left > 0 ==> session_after(m, b) == (SessionModel { phase: SessionPhase::RectHeader, expect: 12, ..m })
            && session_effect(m, b) == SessionEffect::Continue,
        m.rects_left == 0 ==> session_after(m, b).phase == SessionPhase::MessageType && session_after(m, b).expect == 1
            && session_after(m, b).frame == m.frame && session_effect(m, b) is UpdateDone,
{
}

/// An update ends only where the server says it does: after a header that
/// counts no rectangle, at a LastRect header (-224), or with the last
/// counted rectangle. Until then each rectangle takes one from the count:
/// a header of Raw (0) or CopyRect (1) goes on to its data, and once a
/// rectangle's data is read with rectangles left, the next read is the next
/// header with the count unchanged.
pub proof fn lemma_update_ends_only_at_last_rect(m: SessionModel, b: Seq<u8>)
    requires
        session_wf(m),
        m.phase != SessionPhase::Closed,
    ensures
        session_effect(m, b) is UpdateDone ==> (m.phase == SessionPhase::UpdateHeader && be2_value(b.subrange(1, 3)) == 0)
            || (m.phase == SessionPhase::RectHeader && (rect_header_of(b).encoding == -224 || m.rects_left == 1))
            || ((m.phase == SessionPhase::RawData || m.phase == SessionPhase::CopySource || m.phase
            == SessionPhase::CursorData) && m.rects_left == 0),
        (m.phase == SessionPhase::RawData || m.phase == SessionPhase::CopySource || m.phase == SessionPhase::CursorData)
            && m.rects_left > 0 ==> session_effect(m, b) == SessionEffect::Continue && session_after(m, b).phase
            == SessionPhase::RectHeader && session_after(m, b).expect == 12 && session_after(m, b).rects_left
            == m.rects_left,
        (m.phase == SessionPhase::RawData || m.phase == SessionPhase::CopySource || m.phase == SessionPhase::CursorData)
            && m.rects_left == 0 ==> session_effect(m, b) is UpdateDone && session_after(m, b).phase
            == SessionPhase::MessageType,
        m.phase == SessionPhase::RectHeader && (rect_header_of(b).encoding == 0 || rect_header_of(b).encoding == 1)
            ==> session_effect(m, b) == SessionEffect::Continue && session_after(m, b).rects_left == m.rects_left - 1,
        m.phase == SessionPhase::RectHeader && rect_header_of(b).encoding != -224 && m.rects_left > 1
            ==> session_effect(m, b) == SessionEffect::Continue && session_after(m, b).rects_left == m.rects_left - 1,
{
}

} // verus!

//! The opening of an RFB (VNC) connection, as the client side of protocol
//! version 3.8 runs it: version exchange, security (none or VNC password
//! authentication), client and server initialisation, and the pixel format
//! and encodings the client asks for.
//!
//! The handshake is a state machine: each step names the bytes to send and
//! how many bytes to read next; the caller does the reading and writing.
use crate::wire::{be2, be4, be2_value, be4_value, push_u16_be, push_u32_be, push_i32_be, read_u16_be, read_u32_be};
use des::cipher::{BlockEncrypt, KeyInit};
use des::cipher::generic_array::GenericArray;
use vstd::prelude::*;

verus! {

/// What the server tells about itself: the screen size and the desktop's
/// name.
#[derive(Clone, Debug)]
pub struct VncServerInfo {
    pub width: u16,
    pub height: u16,
    pub name: String,
}

/// The text of `bytes` read as UTF-8, each invalid sequence replaced by
/// U+FFFD.
pub uninterp spec fn utf8_lossy(bytes: Seq<u8>) -> Seq<char>;

/// Decodes `bytes` with `String::from_utf8_lossy`, whose result depends on
/// the bytes alone.
#[verifier::external_body]
fn lossy_string(bytes: &[u8]) -> (s: String)
    ensures
        s@ == utf8_lossy(bytes@),
{
    String::from_utf8_lossy(bytes).into_owned()
}

/// The DES encryption of the 8-byte `block` under the 8-byte `key`.
pub uninterp spec fn des_encrypt(key: Seq<u8>, block: Seq<u8>) -> Seq<u8>;

/// Encrypts one 8-byte block with the `des` crate's `Des` block cipher
/// (`KeyInit::new` and `BlockEncrypt::encrypt_block`); the result depends on
/// key and block alone and is one block long. `clone_from_slice` panics
/// unless key and block have eight bytes each.
#[verifier::external_body]
fn des_encrypt_block(key: &[u8], block: &[u8]) -> (r: Vec<u8>)
    requires
        key@.len() == 8,
        block@.len() == 8,
    ensures
        r@ == des_encrypt(key@, block@),
        r@.len() == 8,
{
    let cipher = des::Des::new(GenericArray::from_slice(key));
    let mut b = GenericArray::clone_from_slice(block);
    cipher.encrypt_block(&mut b);
    b.to_vec()
}

/// `b` with its bits in reverse order, as VNC authentication expects the
/// key bytes.
pub open spec fn reversed_bits(b: u8) -> u8 {
    ((b & 1) << 7u8) | ((b & 2) << 5u8) | ((b & 4) << 3u8) | ((b & 8) << 1u8) | ((b & 16) >> 1u8)
        | ((b & 32) >> 3u8) | ((b & 64) >> 5u8) | ((b & 128) >> 7u8)
}

/// The DES key of a VNC password: its first eight bytes, zero-padded, each
/// bit-reversed.
pub open spec fn vnc_key(password: Seq<u8>) -> Seq<u8> {
    Seq::new(8, |i: int| if i < password.len() {
        reversed_bits(password[i])
    } else {
        0u8
    })
}

/// The answer to a 16-byte challenge: its two halves, each encrypted under
/// the password's key.
pub open spec fn vnc_auth_response(password: Seq<u8>, challenge: Seq<u8>) -> Seq<u8> {
    des_encrypt(vnc_key(password), challenge.subrange(0, 8)) + des_encrypt(vnc_key(password), challenge.subrange(8, 16))
}

/// Reverses the bits of `b`.
fn reverse_bits(b: u8) -> (r: u8)
    ensures
        r == reversed_bits(b),
{
    ((b & 1) << 7u8) | ((b & 2) << 5u8) | ((b & 4) << 3u8) | ((b & 8) << 1u8) | ((b & 16) >> 1u8)
        | ((b & 32) >> 3u8) | ((b & 64) >> 5u8) | ((b & 128) >> 7u8)
}

/// Answers a VNC authentication challenge with `password`.
pub fn vnc_encrypt_challenge(challenge: &[u8], password: &[u8]) -> (r: Vec<u8>)
    requires
        challenge@.len() == 16,
    ensures
        r@ == vnc_auth_response(password@, challenge@),
        r@.len() == 16,
{
    let mut key: Vec<u8> = Vec::with_capacity(8);
    let mut i: usize = 0;
    while i < 8
        invariant
            i <= 8,
            key@.len() == i,
            forall|j: int| 0 <= j < i ==> key@[j] == vnc_key(password@)[j],
        decreases 8 - i,
    {
        if i < password.len() {
            key.push(reverse_bits(password[i]));
        } else {
            key.push(0);
        }
        i = i + 1;
    }
    assert(key@ =~= vnc_key(password@));
    let mut first: Vec<u8> = Vec::with_capacity(8);
    let mut second: Vec<u8> = Vec::with_capacity(8);
    let mut k: usize = 0;
    while k < 8
        invariant
            k <= 8,
            challenge@.len() == 16,
            first@ == challenge@.subrange(0, k as int),
            second@ == challenge@.subrange(8, 8 + k),
        decreases 8 - k,
    {
        first.push(challenge[k]);
        second.push(challenge[8 + k]);
        k = k + 1;
        assert(first@ =~= challenge@.subrange(0, k as int));
        assert(second@ =~= challenge@.subrange(8, 8 + k));
    }
    let mut r = des_encrypt_block(key.as_slice(), first.as_slice());
    let mut tail = des_encrypt_block(key.as_slice(), second.as_slice());
    r.append(&mut tail);
    r
}

/// "RFB 003.008\n": the protocol version the client speaks.
pub open spec fn client_version_bytes() -> Seq<u8> {
    seq![0x52u8, 0x46, 0x42, 0x20, 0x30, 0x30, 0x33, 0x2E, 0x30, 0x30, 0x38, 0x0A]
}

/// Whether a server's version message opens with "RFB ".
pub open spec fn is_rfb_version(bytes: Seq<u8>) -> bool {
    bytes.len() >= 4 && bytes[0] == 0x52 && bytes[1] == 0x46 && bytes[2] == 0x42 && bytes[3] == 0x20
}

/// The security type the client picks from those the server offers: VNC
/// authentication (2) if offered, else none (1) if offered.
pub open spec fn chosen_security(types: Seq<u8>) -> Option<u8> {
    if types.contains(2u8) {
        Some(2u8)
    } else if types.contains(1u8) {
        Some(1u8)
    } else {
        None
    }
}

/// SetPixelFormat: 32 bits per pixel, depth 24, little-endian, true
/// colour, 255 levels of red at shift 0, green at 8, blue at 16.
pub open spec fn set_pixel_format_bytes() -> Seq<u8> {
    seq![0u8, 0, 0, 0, 32, 24, 0, 1] + be2(255) + be2(255) + be2(255) + seq![0u8, 8, 16, 0, 0, 0]
}

/// SetEncodings: Raw (0), CopyRect (1), DesktopSize (-223), Cursor (-239)
/// and LastRect (-224).
pub open spec fn set_encodings_bytes() -> Seq<u8> {
    seq![2u8, 0] + be2(5) + be4(0) + be4(1) + be4((-223i32) as u32) + be4((-239i32) as u32) + be4(
        (-224i32) as u32,
    )
}

/// Whether the desktop is shared with other clients (it is).
pub open spec fn client_init_bytes() -> Seq<u8> {
    seq![1u8]
}

/// Checks that a server's version message opens with "RFB ".
pub fn check_server_version(bytes: &[u8]) -> (r: bool)
    ensures
        r == is_rfb_version(bytes@),
{
    bytes.len() >= 4 && bytes[0] == 0x52 && bytes[1] == 0x46 && bytes[2] == 0x42 && bytes[3] == 0x20
}

/// Whether `types` holds `t`.
fn offers(types: &[u8], t: u8) -> (r: bool)
    ensures
        r == types@.contains(t),
{
    let mut i: usize = 0;
    while i < types.len()
        invariant
            i <= types@.len(),
            forall|j: int| 0 <= j < i ==> types@[j] != t,
        decreases types.len() - i,
    {
        if types[i] == t {
            return true;
        }
        i = i + 1;
    }
    false
}

/// Picks the security type from those the server offers.
pub fn choose_security_type(types: &[u8]) -> (r: Option<u8>)
    ensures
        r == chosen_security(types@),
{
    if offers(types, 2) {
        Some(2)
    } else if offers(types, 1) {
        Some(1)
    } else {
        None
    }
}

/// The client's protocol version message.
pub fn client_version() -> (r: Vec<u8>)
    ensures
        r@ == client_version_bytes(),
{
    let r = vec![0x52u8, 0x46, 0x42, 0x20, 0x30, 0x30, 0x33, 0x2E, 0x30, 0x30, 0x38, 0x0A];
    assert(r@ =~= client_version_bytes());
    r
}

/// The SetPixelFormat message.
pub fn set_pixel_format_message() -> (r: Vec<u8>)
    ensures
        r@ == set_pixel_format_bytes(),
{
    let mut buf: Vec<u8> = Vec::with_capacity(20);
    buf.push(0);
    buf.push(0);
    buf.push(0);
    buf.push(0);
    buf.push(32);
    buf.push(24);
    buf.push(0);
    buf.push(1);
    push_u16_be(&mut buf, 255);
    push_u16_be(&mut buf, 255);
    push_u16_be(&mut buf, 255);
    buf.push(0);
    buf.push(8);
    buf.push(16);
    buf.push(0);
    buf.push(0);
    buf.push(0);
    assert(buf@ =~= set_pixel_format_bytes());
    buf
}

/// The SetEncodings message.
pub fn set_encodings_message() -> (r: Vec<u8>)
    ensures
        r@ == set_encodings_bytes(),
{
    let mut buf: Vec<u8> = Vec::with_capacity(24);
    buf.push(2);
    buf.push(0);
    push_u16_be(&mut buf, 5);
    push_i32_be(&mut buf, 0);
    push_i32_be(&mut buf, 1);
    push_i32_be(&mut buf, -223);
    push_i32_be(&mut buf, -239);
    push_i32_be(&mut buf, -224);
    assert(buf@ =~= set_encodings_bytes());
    buf
}

/// Where the handshake stands: what the next bytes read will be.
#[derive(Debug, Clone, Copy, PartialEq, Eq, Structural)]
pub enum HandshakePhase {
    /// The server's 12-byte version message.
    Version,
    /// The number of security types offered (1 byte).
    SecurityCount,
    /// The length of the reason the server refuses the connection (4 bytes).
    RejectLength,
    /// That reason.
    RejectReason,
    /// The security types offered, one byte each.
    SecurityTypes,
    /// The 16-byte authentication challenge.
    Challenge,
    /// The authentication result (4 bytes, 0 for success).
    AuthResult,
    /// The length of the reason authentication failed (4 bytes).
    AuthFailLength,
    /// That reason.
    AuthFailReason,
    /// Width, height, pixel format and name length (24 bytes).
    ServerInit,
    /// The desktop's name.
    Name,
    /// The handshake is over.
    Done,
    /// The handshake failed.
    Failed,
}

/// The messages the client sends during the handshake.
#[derive(Debug, Clone, Copy, PartialEq, Eq, Structural)]
pub enum OutKind {
    ClientVersion,
    SecurityChoice,
    AuthResponse,
    ClientInit,
    PixelFormat,
    Encodings,
}

/// A message to send, and which one it is.
pub struct OutMessage {
    pub kind: OutKind,
    pub bytes: Vec<u8>,
}

/// Why a handshake failed.
pub enum HandshakeError {
    /// The server's version message does not open with "RFB ".
    BadVersion(Vec<u8>),
    /// The server refused the connection, for the reason given.
    Rejected(Vec<u8>),
    /// The server offers neither security type the client knows.
    NoSupportedSecurity(Vec<u8>),
    /// Authentication failed, with the server's reason if it gave one.
    AuthFailed(Option<Vec<u8>>),
    /// Reading failed in the given phase.
    ReadFailed(HandshakePhase),
}

/// What a step of the handshake asks of the caller.
pub enum HandshakeStep {
    /// Send the messages in order, then read the number of bytes the
    /// handshake now expects.
    Continue(Vec<OutMessage>),
    /// Send the messages in order; the connection is open.
    Finished(Vec<OutMessage>, VncServerInfo),
    /// The connection cannot be opened.
    Failed(HandshakeError),
}

/// A handshake error, as data.
pub enum ErrorView {
    BadVersion(Seq<u8>),
    Rejected(Seq<u8>),
    NoSupportedSecurity(Seq<u8>),
    AuthFailed(Option<Seq<u8>>),
    ReadFailed(HandshakePhase),
}

/// A handshake step, as data.
pub enum StepView {
    Continue(Seq<(OutKind, Seq<u8>)>),
    Finished(Seq<(OutKind, Seq<u8>)>, u16, u16, Seq<char>),
    Failed(ErrorView),
}

/// The messages, as data.
pub open spec fn messages_view(msgs: Seq<OutMessage>) -> Seq<(OutKind, Seq<u8>)> {
    msgs.map_values(|m: OutMessage| (m.kind, m.bytes@))
}

impl View for HandshakeError {
    type V = ErrorView;

    open spec fn view(&self) -> ErrorView {
        match self {
            HandshakeError::BadVersion(b) => ErrorView::BadVersion(b@),
            HandshakeError::Rejected(b) => ErrorView::Rejected(b@),
            HandshakeError::NoSupportedSecurity(b) => ErrorView::NoSupportedSecurity(b@),
            HandshakeError::AuthFailed(r) => ErrorView::AuthFailed(
                match r {
                    Some(b) => Some(b@),
                    None => None,
                },
            ),
            HandshakeError::ReadFailed(p) => ErrorView::ReadFailed(*p),
        }
    }
}

impl View for HandshakeStep {
    type V = StepView;

    open spec fn view(&self) -> StepView {
        match self {
            HandshakeStep::Continue(m) => StepView::Continue(messages_view(m@)),
            HandshakeStep::Finished(m, info) => StepView::Finished(messages_view(m@), info.width, info.height, info.name@),
            HandshakeStep::Failed(e) => StepView::Failed(e@),
        }
    }
}

/// The handshake's progress: its phase, the number of bytes the next read
/// must bring, and the screen size once the server has given it.
pub struct HandshakeModel {
    pub phase: HandshakePhase,
    pub expect: nat,
    pub width: u16,
    pub height: u16,
}

/// The progress after reading `b`.
pub open spec fn progress_after(m: HandshakeModel, b: Seq<u8>) -> HandshakeModel {
    match m.phase {
        HandshakePhase::Version => if is_rfb_version(b) {
            HandshakeModel { phase: HandshakePhase::SecurityCount, expect: 1, ..m }
        } else {
            HandshakeModel { phase: HandshakePhase::Failed, expect: 0, ..m }
        },
        HandshakePhase::SecurityCount => if b[0] == 0 {
            HandshakeModel { phase: HandshakePhase::RejectLength, expect: 4, ..m }
        } else {
            HandshakeModel { phase: HandshakePhase::SecurityTypes, expect: b[0] as nat, ..m }
        },
        HandshakePhase::RejectLength => HandshakeModel { phase: HandshakePhase::RejectReason, expect: be4_value(b) as nat, ..m },
        HandshakePhase::SecurityTypes => match chosen_security(b) {
            None => HandshakeModel { phase: HandshakePhase::Failed, expect: 0, ..m },
            Some(t) => if t == 2 {
                HandshakeModel { phase: HandshakePhase::Challenge, expect: 16, ..m }
            } else {
                HandshakeModel { phase: HandshakePhase::ServerInit, expect: 24, ..m }
            },
        },
        HandshakePhase::Challenge => HandshakeModel { phase: HandshakePhase::AuthResult, expect: 4, ..m },
        HandshakePhase::AuthResult => if be4_value(b) == 0 {
            HandshakeModel { phase: HandshakePhase::ServerInit, expect: 24, ..m }
        } else {
            HandshakeModel { phase: HandshakePhase::AuthFailLength, expect: 4, ..m }
        },
        HandshakePhase::AuthFailLength => HandshakeModel { phase: HandshakePhase::AuthFailReason, expect: be4_value(b) as nat, ..m },
        HandshakePhase::ServerInit => HandshakeModel {
            phase: HandshakePhase::Name,
            expect: be4_value(b.subrange(20, 24)) as nat,
            width: be2_value(b.subrange(0, 2)),
            height: be2_value(b.subrange(2, 4)),
        },
        HandshakePhase::Name => HandshakeModel { phase: HandshakePhase::Done, expect: 0, ..m },
        _ => HandshakeModel { phase: HandshakePhase::Failed, expect: 0, ..m },
    }
}

/// What reading `b` asks of the caller, with `password` for the
/// authentication.
pub open spec fn step_after(m: HandshakeModel, password: Seq<u8>, b: Seq<u8>) -> StepView {
    match m.phase {
        HandshakePhase::Version => if is_rfb_version(b) {
            StepView::Continue(seq![(OutKind::ClientVersion, client_version_bytes())])
        } else {
            StepView::Failed(ErrorView::BadVersion(b))
        },
        HandshakePhase::SecurityCount => StepView::Continue(seq![]),
        HandshakePhase::RejectLength => StepView::Continue(seq![]),
        HandshakePhase::RejectReason => StepView::Failed(ErrorView::Rejected(b)),
        HandshakePhase::SecurityTypes => match chosen_security(b) {
            None => StepView::Failed(ErrorView::NoSupportedSecurity(b)),
            Some(t) => if t == 2 {
                StepView::Continue(seq![(OutKind::SecurityChoice, seq![2u8])])
            } else {
                StepView::Continue(seq![(OutKind::SecurityChoice, seq![1u8]), (OutKind::ClientInit, client_init_bytes())])
            },
        },
        HandshakePhase::Challenge => StepView::Continue(seq![(OutKind::AuthResponse, vnc_auth_response(password, b))]),
        HandshakePhase::AuthResult => if be4_value(b) == 0 {
            StepView::Continue(seq![(OutKind::ClientInit, client_init_bytes())])
        } else {
            StepView::Continue(seq![])
        },
        HandshakePhase::AuthFailLength => StepView::Continue(seq![]),
        HandshakePhase::AuthFailReason => StepView::Failed(ErrorView::AuthFailed(Some(b))),
        HandshakePhase::ServerInit => StepView::Continue(seq![]),
        HandshakePhase::Name => StepView::Finished(
            seq![(OutKind::PixelFormat, set_pixel_format_bytes()), (OutKind::Encodings, set_encodings_bytes())],
            m.width,
            m.height,
            utf8_lossy(b),
        ),
        _ => StepView::Failed(ErrorView::ReadFailed(m.phase)),
    }
}

/// What a failed read asks of the caller. A missing refusal reason reads
/// as empty (or as zeros, when its length was known); a missing
/// authentication-failure reason is left out.
pub open spec fn step_after_failure(m: HandshakeModel) -> StepView {
    match m.phase {
        HandshakePhase::RejectLength => StepView::Failed(ErrorView::Rejected(seq![])),
        HandshakePhase::RejectReason => StepView::Failed(ErrorView::Rejected(Seq::new(m.expect, |i: int| 0u8))),
        HandshakePhase::AuthFailLength => StepView::Failed(ErrorView::AuthFailed(None)),
        HandshakePhase::AuthFailReason => StepView::Failed(ErrorView::AuthFailed(None)),
        _ => StepView::Failed(ErrorView::ReadFailed(m.phase)),
    }
}

/// Whether the expected length fits the phase: the fixed-size messages are
/// read whole.
pub open spec fn expect_fits_phase(m: HandshakeModel) -> bool {
    match m.phase {
        HandshakePhase::Version => m.expect == 12,
        HandshakePhase::SecurityCount => m.expect == 1,
        HandshakePhase::RejectLength => m.expect == 4,
        HandshakePhase::Challenge => m.expect == 16,
        HandshakePhase::AuthResult => m.expect == 4,
        HandshakePhase::AuthFailLength => m.expect == 4,
        HandshakePhase::ServerInit => m.expect == 24,
        _ => true,
    }
}

/// Whether a handshake still reads.
pub open spec fn is_open_phase(p: HandshakePhase) -> bool {
    p != HandshakePhase::Done && p != HandshakePhase::Failed
}

/// The client side of an RFB handshake.
pub struct Handshake {
    phase: HandshakePhase,
    expect: usize,
    password: Vec<u8>,
    width: u16,
    height: u16,
}

impl Handshake {
    /// The progress of the handshake.
    pub closed spec fn model(&self) -> HandshakeModel {
        HandshakeModel { phase: self.phase, expect: self.expect as nat, width: self.width, height: self.height }
    }

    /// The password the handshake answers a challenge with.
    pub closed spec fn password(&self) -> Seq<u8> {
        self.password@
    }

    /// A handshake that authenticates with `password` if asked; it first
    /// reads the server's 12-byte version message.
    pub fn new(password: Vec<u8>) -> (r: Self)
        ensures
            r.model() == (HandshakeModel { phase: HandshakePhase::Version, expect: 12, width: 0, height: 0 }),
            expect_fits_phase(r.model()),
            r.password() == password@,
    {
        Handshake { phase: HandshakePhase::Version, expect: 12, password, width: 0, height: 0 }
    }

    /// Where the handshake stands.
    pub fn phase(&self) -> (r: HandshakePhase)
        ensures
            r == self.model().phase,
    {
        self.phase
    }

    /// How many bytes the next read must bring.
    pub fn expected_len(&self) -> (r: usize)
        ensures
            r == self.model().expect,
    {
        self.expect
    }

    /// Takes the `bytes` read, exactly as many as expected.
    pub fn on_bytes(&mut self, bytes: &[u8]) -> (r: HandshakeStep)
        requires
            is_open_phase(old(self).model().phase),
            expect_fits_phase(old(self).model()),
            bytes@.len() == old(self).model().expect,
        ensures
            final(self).model() == progress_after(old(self).model(), bytes@),
            expect_fits_phase(final(self).model()),
            final(self).password() == old(self).password(),
            r@ == step_after(old(self).model(), old(self).password(), bytes@),
            old(self).model().phase == HandshakePhase::Challenge ==> vnc_auth_response(old(self).password(), bytes@).len()
                == 16,
    {
        let ghost b = bytes@;
        match self.phase {
            HandshakePhase::Version => {
                if check_server_version(bytes) {
                    self.phase = HandshakePhase::SecurityCount;
                    self.expect = 1;
                    let mut msgs: Vec<OutMessage> = Vec::new();
                    msgs.push(OutMessage { kind: OutKind::ClientVersion, bytes: client_version() });
                    assert(messages_view(msgs@) =~= seq![(OutKind::ClientVersion, client_version_bytes())]);
                    HandshakeStep::Continue(msgs)
                } else {
                    self.phase = HandshakePhase::Failed;
                    self.expect = 0;
                    HandshakeStep::Failed(HandshakeError::BadVersion(vstd::slice::slice_to_vec(bytes)))
                }
            },
            HandshakePhase::SecurityCount => {
                let n = bytes[0];
                if n == 0 {
                    self.phase = HandshakePhase::RejectLength;
                    self.expect = 4;
                } else {
                    self.phase = HandshakePhase::SecurityTypes;
                    self.expect = n as usize;
                }
                let msgs: Vec<OutMessage> = Vec::new();
                assert(messages_view(msgs@) =~= seq![]);
                HandshakeStep::Continue(msgs)
            },
            HandshakePhase::RejectLength => {
                let len = read_u32_be(bytes, 0);
                assert(bytes@.subrange(0, 4) =~= b);
                self.phase = HandshakePhase::RejectReason;
                self.expect = len as usize;
                let msgs: Vec<OutMessage> = Vec::new();
                assert(messages_view(msgs@) =~= seq![]);
                HandshakeStep::Continue(msgs)
            },
            HandshakePhase::RejectReason => {
                self.phase = HandshakePhase::Failed;
                self.expect = 0;
                HandshakeStep::Failed(HandshakeError::Rejected(vstd::slice::slice_to_vec(bytes)))
            },
            HandshakePhase::SecurityTypes => {
                match choose_security_type(bytes) {
                    None => {
                        self.phase = HandshakePhase::Failed;
                        self.expect = 0;
                        HandshakeStep::Failed(HandshakeError::NoSupportedSecurity(vstd::slice::slice_to_vec(bytes)))
                    },
                    Some(t) => {
                        let mut msgs: Vec<OutMessage> = Vec::new();
                        msgs.push(OutMessage { kind: OutKind::SecurityChoice, bytes: vec![t] });
                        if t == 2 {
                            self.phase = HandshakePhase::Challenge;
                            self.expect = 16;
                            assert(msgs@[0].bytes@ =~= seq![2u8]);
                            assert(messages_view(msgs@) =~= seq![(OutKind::SecurityChoice, seq![2u8])]);
                        } else {
                            msgs.push(OutMessage { kind: OutKind::ClientInit, bytes: vec![1u8] });
                            self.phase = HandshakePhase::ServerInit;
                            self.expect = 24;
                            assert(t == 1);
                            assert(msgs@[0].bytes@ =~= seq![1u8]);
                            assert(msgs@[1].bytes@ =~= client_init_bytes());
                            assert(messages_view(msgs@) =~= seq![(OutKind::SecurityChoice, seq![1u8]), (OutKind::ClientInit, client_init_bytes())]);
                        }
                        HandshakeStep::Continue(msgs)
                    },
                }
            },
            HandshakePhase::Challenge => {
                let response = vnc_encrypt_challenge(bytes, self.password.as_slice());
                self.phase = HandshakePhase::AuthResult;
                self.expect = 4;
                let mut msgs: Vec<OutMessage> = Vec::new();
                msgs.push(OutMessage { kind: OutKind::AuthResponse, bytes: response });
                assert(messages_view(msgs@) =~= seq![(OutKind::AuthResponse, vnc_auth_response(self.password@, b))]);
                HandshakeStep::Continue(msgs)
            },
            HandshakePhase::AuthResult => {
                let result = read_u32_be(bytes, 0);
                assert(bytes@.subrange(0, 4) =~= b);
                let mut msgs: Vec<OutMessage> = Vec::new();
                if result == 0 {
                    msgs.push(OutMessage { kind: OutKind::ClientInit, bytes: vec![1u8] });
                    self.phase = HandshakePhase::ServerInit;
                    self.expect = 24;
                    assert(msgs@[0].bytes@ =~= client_init_bytes());
                    assert(messages_view(msgs@) =~= seq![(OutKind::ClientInit, client_init_bytes())]);
                } else {
                    self.phase = HandshakePhase::AuthFailLength;
                    self.expect = 4;
                    assert(messages_view(msgs@) =~= seq![]);
                }
                HandshakeStep::Continue(msgs)
            },
            HandshakePhase::AuthFailLength => {
                let len = read_u32_be(bytes, 0);
                assert(bytes@.subrange(0, 4) =~= b);
                self.phase = HandshakePhase::AuthFailReason;
                self.expect = len as usize;
                let msgs: Vec<OutMessage> = Vec::new();
                assert(messages_view(msgs@) =~= seq![]);
                HandshakeStep::Continue(msgs)
            },
            HandshakePhase::AuthFailReason => {
                self.phase = HandshakePhase::Failed;
                self.expect = 0;
                HandshakeStep::Failed(HandshakeError::AuthFailed(Some(vstd::slice::slice_to_vec(bytes))))
            },
            HandshakePhase::ServerInit => {
                self.width = read_u16_be(bytes, 0);
                self.height = read_u16_be(bytes, 2);
                let name_len = read_u32_be(bytes, 20);
                self.phase = HandshakePhase::Name;
                self.expect = name_len as usize;
                let msgs: Vec<OutMessage> = Vec::new();
                assert(messages_view(msgs@) =~= seq![]);
                HandshakeStep::Continue(msgs)
            },
            HandshakePhase::Name => {
                let name = lossy_string(bytes);
                self.phase = HandshakePhase::Done;
                self.expect = 0;
                let mut msgs: Vec<OutMessage> = Vec::new();
                msgs.push(OutMessage { kind: OutKind::PixelFormat, bytes: set_pixel_format_message() });
                msgs.push(OutMessage { kind: OutKind::Encodings, bytes: set_encodings_message() });
                assert(messages_view(msgs@) =~= seq![(OutKind::PixelFormat, set_pixel_format_bytes()), (OutKind::Encodings, set_encodings_bytes())]);
                HandshakeStep::Finished(msgs, VncServerInfo { width: self.width, height: self.height, name })
            },
            _ => {
                HandshakeStep::Failed(HandshakeError::ReadFailed(self.phase))
            },
        }
    }

    /// A read failed or came up short.
    pub fn on_read_failed(&mut self) -> (r: HandshakeStep)
        requires
            is_open_phase(old(self).model().phase),
        ensures
            final(self).model() == (HandshakeModel { phase: HandshakePhase::Failed, expect: 0, ..old(self).model() }),
            final(self).password() == old(self).password(),
            r@ == step_after_failure(old(self).model()),
    {
        let phase = self.phase;
        let expect = self.expect;
        self.phase = HandshakePhase::Failed;
        self.expect = 0;
        match phase {
            HandshakePhase::RejectLength => HandshakeStep::Failed(HandshakeError::Rejected(Vec::new())),
            HandshakePhase::RejectReason => {
                let zeros = vec![0u8; expect];
                assert(zeros@ =~= Seq::new(expect as nat, |i: int| 0u8));
                HandshakeStep::Failed(HandshakeError::Rejected(zeros))
            },
            HandshakePhase::AuthFailLength => HandshakeStep::Failed(HandshakeError::AuthFailed(None)),
            HandshakePhase::AuthFailReason => HandshakeStep::Failed(HandshakeError::AuthFailed(None)),
            _ => HandshakeStep::Failed(HandshakeError::ReadFailed(phase)),
        }
    }
}

/// Only the first eight bytes of a password count: a longer password
/// answers every challenge as its first eight bytes do.
pub proof fn lemma_password_truncated(password: Seq<u8>, challenge: Seq<u8>)
    requires
        password.len() >= 8,
    ensures
        vnc_key(password) == vnc_key(password.take(8)),
        vnc_auth_response(password, challenge) == vnc_auth_response(password.take(8), challenge),
{
    assert(vnc_key(password) =~= vnc_key(password.take(8)));
}

} // verus!

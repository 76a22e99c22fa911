//! The link to the Mac-side receiver: which address packets go to, whether
//! the receiver answers, and how a receiver is found on the local network.
//!
//! A background worker pings the target once a second. With no target and
//! discovery on, it pings the broadcast addresses instead and adopts
//! whichever host answers. A link that stays quiet for three seconds counts
//! as lost; a target found by discovery is then dropped so that discovery can
//! find the Mac again.
//!
//! Times are milliseconds: `now_ms` on a monotonic clock, `wall_ms` since the
//! Unix epoch, as the timestamps in pings are.
use crate::protocol::{PacketSerializer, parse_pong, is_pong, ping_bytes, pong_bytes, lemma_pong_returns_ping_timestamp};
use crate::wire::le8_value;
use vstd::prelude::*;

verus! {

/// Interval between two pings.
pub const PING_INTERVAL_MS: u64 = 1000;

/// Silence after which the link counts as lost.
pub const LINK_TIMEOUT_MS: u64 = 3000;

/// An IP address.
#[derive(Debug, Clone, Copy, PartialEq, Eq)]
pub enum IpAddress {
    V4(u8, u8, u8, u8),
    V6 { addr: u128, flowinfo: u32, scope_id: u32 },
}

/// An address and port packets can be sent to.
#[derive(Debug, Clone, Copy, PartialEq, Eq)]
pub struct Endpoint {
    pub ip: IpAddress,
    pub port: u16,
}

/// What the link knows.
#[derive(Debug, Clone, Copy)]
pub struct LinkState {
    /// Where packets go, if anywhere.
    pub target: Option<Endpoint>,
    /// Whether the target came from discovery rather than from the user.
    pub target_is_auto: bool,
    /// Whether a missing target is looked for on the local network.
    pub auto_discover: bool,
    /// The port discovery pings.
    pub discovery_port: u16,
    /// Whether the receiver has answered lately.
    pub is_connected: bool,
    /// The round-trip time of the last pong, in milliseconds.
    pub last_rtt_ms: u64,
    /// When the last ping went out (monotonic), if one has.
    pub last_ping_ms: Option<u64>,
    /// When the last pong came back (monotonic), while the link is alive.
    pub last_pong_ms: Option<u64>,
}

/// What a tick of the worker sends.
pub enum PingAction {
    /// Nothing is due.
    Nothing,
    /// The ping goes to the target.
    Ping(Vec<u8>, Endpoint),
    /// The ping goes to every broadcast address of the local network, at
    /// the given port.
    Broadcast(Vec<u8>, u16),
}

/// What a tick of the worker sends, as data.
pub enum PingEffect {
    Nothing,
    Ping(Seq<u8>, Endpoint),
    Broadcast(Seq<u8>, u16),
}

impl View for PingAction {
    type V = PingEffect;

    open spec fn view(&self) -> PingEffect {
        match self {
            PingAction::Nothing => PingEffect::Nothing,
            PingAction::Ping(p, e) => PingEffect::Ping(p@, *e),
            PingAction::Broadcast(p, port) => PingEffect::Broadcast(p@, *port),
        }
    }
}

/// Whether a ping is due at `now_ms`.
pub open spec fn ping_due(s: LinkState, now_ms: u64) -> bool {
    match s.last_ping_ms {
        None => true,
        Some(t) => now_ms >= t + PING_INTERVAL_MS,
    }
}

/// Whether the link has been quiet too long at `now_ms`.
pub open spec fn link_timed_out(s: LinkState, now_ms: u64) -> bool {
    match s.last_pong_ms {
        None => false,
        Some(t) => now_ms >= t + LINK_TIMEOUT_MS,
    }
}

/// What a tick at `now_ms` sends; the ping carries `wall_ms`.
pub open spec fn tick_effect(s: LinkState, now_ms: u64, wall_ms: u64) -> PingEffect {
    if !ping_due(s, now_ms) {
        PingEffect::Nothing
    } else {
        match s.target {
            Some(t) => PingEffect::Ping(ping_bytes(wall_ms), t),
            None => if s.auto_discover {
                PingEffect::Broadcast(ping_bytes(wall_ms), s.discovery_port)
            } else {
                PingEffect::Nothing
            },
        }
    }
}

/// The state after a tick at `now_ms`.
pub open spec fn tick_next(s: LinkState, now_ms: u64) -> LinkState {
    let pinged = if ping_due(s, now_ms) {
        LinkState { last_ping_ms: Some(now_ms), ..s }
    } else {
        s
    };
    if link_timed_out(pinged, now_ms) {
        LinkState {
            last_pong_ms: None,
            is_connected: false,
            target: if pinged.target_is_auto {
                None
            } else {
                pinged.target
            },
            ..pinged
        }
    } else {
        pinged
    }
}

/// The state after datagram `d` arrived from `from`.
pub open spec fn datagram_next(s: LinkState, d: Seq<u8>, from: Endpoint, now_ms: u64, wall_ms: u64) -> LinkState {
    if !is_pong(d) {
        s
    } else {
        let sent = le8_value(d.subrange(3, 11));
        let adopted = if s.target.is_none() && s.auto_discover {
            LinkState { target: Some(from), target_is_auto: true, ..s }
        } else {
            s
        };
        if adopted.target.is_some() {
            LinkState {
                last_rtt_ms: if wall_ms >= sent {
                    (wall_ms - sent) as u64
                } else {
                    0
                },
                is_connected: true,
                last_pong_ms: Some(now_ms),
                ..adopted
            }
        } else {
            adopted
        }
    }
}

impl LinkState {
    /// No target, not connected, discovery on at `default_port`.
    pub fn new(default_port: u16) -> (r: Self)
        ensures
            r.target.is_none() && !r.target_is_auto && r.auto_discover,
            r.discovery_port == default_port,
            !r.is_connected && r.last_rtt_ms == 0,
            r.last_ping_ms.is_none() && r.last_pong_ms.is_none(),
    {
        LinkState {
            target: None,
            target_is_auto: false,
            auto_discover: true,
            discovery_port: default_port,
            is_connected: false,
            last_rtt_ms: 0,
            last_ping_ms: None,
            last_pong_ms: None,
        }
    }

    /// Points the link at `target`, chosen by the user; discovery then uses
    /// its port, and the link counts as down until the receiver answers.
    pub fn set_target(&mut self, target: Endpoint)
        ensures
            *final(self) == (LinkState {
                target: Some(target),
                target_is_auto: false,
                discovery_port: target.port,
                is_connected: false,
                ..*old(self)
            }),
    {
        self.target = Some(target);
        self.target_is_auto = false;
        self.discovery_port = target.port;
        self.is_connected = false;
    }

    /// Where packets go, if anywhere.
    pub fn target(&self) -> (r: Option<Endpoint>)
        ensures
            r == self.target,
    {
        self.target
    }

    /// Whether the link is still looking for a receiver.
    pub fn is_discovering(&self) -> (r: bool)
        ensures
            r == (self.auto_discover && self.target.is_none()),
    {
        self.auto_discover && self.target.is_none()
    }

    /// Turns discovery on or off, at `port`.
    pub fn set_auto_discover(&mut self, enabled: bool, port: u16)
        ensures
            *final(self) == (LinkState { discovery_port: port, auto_discover: enabled, ..*old(self) }),
    {
        self.discovery_port = port;
        self.auto_discover = enabled;
    }

    /// The round-trip time of the last pong, in milliseconds.
    pub fn get_rtt_ms(&self) -> (r: u64)
        ensures
            r == self.last_rtt_ms,
    {
        self.last_rtt_ms
    }

    /// Whether the receiver has answered lately.
    pub fn is_connected(&self) -> (r: bool)
        ensures
            r == self.is_connected,
    {
        self.is_connected
    }

    /// The user unlinks: no target, not connected, and discovery off so that
    /// the next broadcast does not link straight back.
    pub fn disconnect(&mut self)
        ensures
            *final(self) == (LinkState {
                target: None,
                target_is_auto: false,
                is_connected: false,
                auto_discover: false,
                ..*old(self)
            }),
    {
        self.target = None;
        self.target_is_auto = false;
        self.is_connected = false;
        self.auto_discover = false;
    }

    /// One pass of the worker at `now_ms`: pings when a ping is due (the
    /// ping carries `wall_ms`), and drops a link that has gone quiet.
    pub fn tick(&mut self, now_ms: u64, wall_ms: u64) -> (r: PingAction)
        ensures
            *final(self) == tick_next(*old(self), now_ms),
            r@ == tick_effect(*old(self), now_ms, wall_ms),
    {
        let due = match self.last_ping_ms {
            None => true,
            Some(t) => now_ms >= t && now_ms - t >= PING_INTERVAL_MS,
        };
        let mut action = PingAction::Nothing;
        if due {
            self.last_ping_ms = Some(now_ms);
            let ping = PacketSerializer::ping(wall_ms);
            match self.target {
                Some(t) => {
                    action = PingAction::Ping(ping, t);
                },
                None => {
                    if self.auto_discover {
                        action = PingAction::Broadcast(ping, self.discovery_port);
                    }
                },
            }
        }
        if let Some(seen) = self.last_pong_ms {
            if now_ms >= seen && now_ms - seen >= LINK_TIMEOUT_MS {
                self.last_pong_ms = None;
                self.is_connected = false;
                if self.target_is_auto {
                    self.target = None;
                }
            }
        }
        action
    }

    /// A datagram `datagram` arrived from `from` at `now_ms`. A pong counts
    /// as an answer; with no target and discovery on, its sender becomes the
    /// target.
    pub fn on_datagram(&mut self, datagram: &[u8], from: Endpoint, now_ms: u64, wall_ms: u64)
        ensures
            *final(self) == datagram_next(*old(self), datagram@, from, now_ms, wall_ms),
    {
        if let Some(sent_ts) = parse_pong(datagram) {
            let mut have_target = self.target.is_some();
            if !have_target && self.auto_discover {
                self.target = Some(from);
                self.target_is_auto = true;
                have_target = true;
            }
            if have_target {
                self.last_rtt_ms = wall_ms.saturating_sub(sent_ts);
                self.is_connected = true;
                self.last_pong_ms = Some(now_ms);
            }
        }
    }
}

/// The limited broadcast address.
pub open spec fn limited_broadcast(port: u16) -> Endpoint {
    Endpoint { ip: IpAddress::V4(255, 255, 255, 255), port }
}

/// The addresses to probe for a receiver at `port`: the limited broadcast,
/// and the directed broadcast of the /24 subnet of `local` (this machine's
/// LAN address) when that differs from it.
pub open spec fn broadcast_targets_spec(port: u16, local: Option<(u8, u8, u8, u8)>) -> Seq<Endpoint> {
    match local {
        Some((a, b, c, _)) => if a == 255 && b == 255 && c == 255 {
            seq![limited_broadcast(port)]
        } else {
            seq![limited_broadcast(port), Endpoint { ip: IpAddress::V4(a, b, c, 255), port }]
        },
        None => seq![limited_broadcast(port)],
    }
}

/// Addresses worth probing when looking for a receiver on the local
/// network: limited broadcast is dropped by some adapters, so the directed
/// broadcast of this machine's /24 subnet is probed too.
pub fn broadcast_targets(port: u16, local: Option<(u8, u8, u8, u8)>) -> (r: Vec<Endpoint>)
    ensures
        r@ == broadcast_targets_spec(port, local),
{
    let mut targets: Vec<Endpoint> = Vec::new();
    targets.push(Endpoint { ip: IpAddress::V4(255, 255, 255, 255), port });
    if let Some((a, b, c, _)) = local {
        if !(a == 255 && b == 255 && c == 255) {
            targets.push(Endpoint { ip: IpAddress::V4(a, b, c, 255), port });
        }
    }
    assert(targets@ =~= broadcast_targets_spec(port, local));
    targets
}

/// After the user unlinks, nothing links back: a pong in flight sets no
/// target and no connection, and the worker sends no more pings.
pub proof fn lemma_unlink_holds(s: LinkState, d: Seq<u8>, from: Endpoint, now_ms: u64, wall_ms: u64)
    requires
        s.target.is_none(),
        !s.auto_discover,
    ensures
        datagram_next(s, d, from, now_ms, wall_ms) == s,
        tick_next(s, now_ms).target.is_none(),
        !tick_next(s, now_ms).auto_discover,
        tick_effect(s, now_ms, wall_ms) is Nothing,
{
}

/// With no target and discovery on, the sender of a pong becomes the
/// target, found by discovery, and the link is up.
pub proof fn lemma_discovery_adopts_answerer(s: LinkState, d: Seq<u8>, from: Endpoint, now_ms: u64, wall_ms: u64)
    requires
        s.target.is_none(),
        s.auto_discover,
        is_pong(d),
    ensures
        datagram_next(s, d, from, now_ms, wall_ms).target == Some(from),
        datagram_next(s, d, from, now_ms, wall_ms).target_is_auto,
        datagram_next(s, d, from, now_ms, wall_ms).is_connected,
{
}

/// A target chosen by the user stays the target: no datagram and no tick
/// replaces or drops it.
pub proof fn lemma_user_target_kept(s: LinkState, d: Seq<u8>, from: Endpoint, now_ms: u64, wall_ms: u64)
    requires
        s.target.is_some(),
        !s.target_is_auto,
    ensures
        datagram_next(s, d, from, now_ms, wall_ms).target == s.target,
        tick_next(s, now_ms).target == s.target,
{
}

/// A link quiet for the timeout is down at the next tick, and a target
/// found by discovery is dropped with it.
pub proof fn lemma_quiet_link_is_lost(s: LinkState, now_ms: u64)
    requires
        s.last_pong_ms matches Some(t) && now_ms >= t + LINK_TIMEOUT_MS,
    ensures
        !tick_next(s, now_ms).is_connected,
        tick_next(s, now_ms).last_pong_ms.is_none(),
        s.target_is_auto ==> tick_next(s, now_ms).target.is_none(),
{
}

/// The answer to a ping sent at `ts` gives the time since then as the
/// round-trip time.
pub proof fn lemma_pong_measures_round_trip(s: LinkState, ts: u64, from: Endpoint, now_ms: u64, wall_ms: u64)
    requires
        s.target.is_some() || s.auto_discover,
        wall_ms >= ts,
    ensures
        datagram_next(s, pong_bytes(ts), from, now_ms, wall_ms).last_rtt_ms == wall_ms - ts,
        datagram_next(s, pong_bytes(ts), from, now_ms, wall_ms).is_connected,
{
    lemma_pong_returns_ping_timestamp(ts);
}

/// At most one ping goes out per interval: after a tick that pinged, ticks
/// before the interval has passed send nothing.
pub proof fn lemma_ping_rate(s: LinkState, now_ms: u64, later_ms: u64, wall_ms: u64)
    requires
        ping_due(s, now_ms),
        now_ms <= later_ms < now_ms + PING_INTERVAL_MS,
    ensures
        tick_effect(tick_next(s, now_ms), later_ms, wall_ms) is Nothing,
{
}

} // verus!

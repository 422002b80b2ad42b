//! Per-peer connection and packet rate limits.
//!
//! An IP may open at most 5 connections in any 60 seconds, and each
//! connection may send at most 20 packets in each second. Time is measured from the limiter's
//! creation: connection stamps in nanoseconds, packet windows in whole
//! seconds.

use vstd::prelude::*;
use std::time::{Duration, Instant};
use crate::table::{Table, TableKey};

verus! {

/// A peer's address: IP (IPv4 addresses in the low 32 bits) and port.
#[derive(Debug, Clone, Copy, PartialEq, Eq, Hash, Structural)]
pub struct PeerKey {
    pub ipv6: bool,
    pub ip: u128,
    pub port: u16,
}

impl TableKey for PeerKey {
    type KeyView = PeerKey;

    open spec fn key_view(&self) -> PeerKey {
        *self
    }

    fn same_key(&self, other: &Self) -> (r: bool) {
        self.ipv6 == other.ipv6 && self.ip == other.ip && self.port == other.port
    }
}

#[verifier::external_type_specification]
#[verifier::external_body]
pub struct ExInstant(std::time::Instant);

/// `Duration::as_secs`: the whole seconds of a duration (nothing more is
/// claimed of it).
pub assume_specification[ core::time::Duration::as_secs ](d: &Duration) -> u64;

/// `Duration::subsec_nanos`: the fractional part of a duration in
/// nanoseconds, which its documentation says is below one billion.
pub assume_specification[ core::time::Duration::subsec_nanos ](d: &Duration) -> (r: u32)
    ensures
        r < 1_000_000_000,
;

/// `Instant::now`: the current instant of the monotonic clock. Nothing is
/// claimed of it.
#[verifier::external_body]
fn instant_now() -> (r: Instant) {
    Instant::now()
}

/// `Instant::elapsed`: the time since `start`. It depends on the clock, so
/// nothing is claimed of it.
#[verifier::external_body]
fn elapsed_since(start: &Instant) -> (r: Duration) {
    start.elapsed()
}

/// Nanoseconds in a minute: the connection window.
pub const CONNECTION_WINDOW_NANOS: u128 = 60_000_000_000;
/// Connections allowed per peer in one window.
pub const MAX_CONNECTIONS_PER_WINDOW: usize = 5;
/// Packets allowed per peer in one second.
pub const MAX_PACKETS_PER_SECOND: u64 = 20;
/// Seconds without a packet window reset after which a peer's packet entry
/// is dropped.
pub const PACKET_ENTRY_TTL_SECS: u64 = 60;

/// A connection stamp `t` still counts at time `now`: less than a minute
/// has passed since it (a stamp from the future counts as just made).
pub open spec fn recent_conn(now: u128, t: u128) -> bool {
    now < t + CONNECTION_WINDOW_NANOS
}

pub open spec fn recent_filter(now: u128) -> spec_fn(u128) -> bool {
    |t: u128| recent_conn(now, t)
}

/// The stamps of `stamps` that still count at `now`, in order.
pub open spec fn recent_stamps(stamps: Seq<u128>, now: u128) -> Seq<u128> {
    stamps.filter(recent_filter(now))
}

/// The stamps held for `addr` before a check (none if it has no entry).
pub open spec fn prior_stamps(conns: Map<PeerKey, Seq<u128>>, addr: PeerKey) -> Seq<u128> {
    if conns.contains_key(addr) {
        conns[addr]
    } else {
        Seq::empty()
    }
}

/// The packet entry `(count, window start)` used for `addr` at `now`: the
/// stored one, or a fresh one opened at `now`.
pub open spec fn packet_entry(packets: Map<PeerKey, (u64, u64)>, addr: PeerKey, now: u64) -> (u64, u64) {
    if packets.contains_key(addr) {
        packets[addr]
    } else {
        (0, now)
    }
}

/// The entry after the window check: a later second opens a new window.
pub open spec fn window_at(e: (u64, u64), now: u64) -> (u64, u64) {
    if now > e.1 {
        (0, now)
    } else {
        e
    }
}

/// Counting one more packet (the counter wraps as an atomic add does).
pub open spec fn counted(e: (u64, u64)) -> (u64, u64) {
    (if e.0 == u64::MAX { 0 } else { (e.0 + 1) as u64 }, e.1)
}

/// A packet entry is kept by the periodic cleanup at `now` while less than
/// a minute has passed since its window opened.
pub open spec fn packet_entry_live(now: u64, e: (u64, u64)) -> bool {
    now < e.1 + PACKET_ENTRY_TTL_SECS
}

/// The key connection stamps are kept under: the peer's IP, with the port
/// set to 0, so that every port of one IP shares the limit.
pub open spec fn ip_of(addr: PeerKey) -> PeerKey {
    PeerKey { ipv6: addr.ipv6, ip: addr.ip, port: 0 }
}

/// The connection check at `now` answers `allowed` and turns `before`
/// into `after`; the stamps are those of the peer's IP.
pub open spec fn conn_step(
    before: Map<PeerKey, Seq<u128>>,
    addr: PeerKey,
    now: u128,
    allowed: bool,
    after: Map<PeerKey, Seq<u128>>,
) -> bool {
    let kept = recent_stamps(prior_stamps(before, ip_of(addr)), now);
    &&& allowed == (kept.len() < MAX_CONNECTIONS_PER_WINDOW)
    &&& after == before.insert(ip_of(addr), if allowed { kept.push(now) } else { kept })
}

/// The packet check in second `now` answers `allowed` and turns `before`
/// into `after`.
pub open spec fn packet_step(
    before: Map<PeerKey, (u64, u64)>,
    addr: PeerKey,
    now: u64,
    allowed: bool,
    after: Map<PeerKey, (u64, u64)>,
) -> bool {
    let w = window_at(packet_entry(before, addr, now), now);
    &&& allowed == (w.0 < MAX_PACKETS_PER_SECOND)
    &&& after == before.insert(addr, counted(w))
}

/// The cleanup at second `now` keeps exactly the live entries of `before`.
pub open spec fn cleanup_step(before: Map<PeerKey, (u64, u64)>, now: u64, after: Map<PeerKey, (u64, u64)>) -> bool {
    &&& forall|k: PeerKey| #[trigger] after.contains_key(k) <==>
        (before.contains_key(k) && packet_entry_live(now, before[k]))
    &&& forall|k: PeerKey| #[trigger] after.contains_key(k) ==> after[k] == before[k]
}

/// Rate limiter for connections and packets.
pub struct RateLimiter {
    connections: Table<PeerKey, Vec<u128>>,
    packets: Table<PeerKey, (u64, u64)>,
    start: Instant,
    /// The latest clock reading, in nanoseconds since `start`.
    last_reading: u128,
}

impl RateLimiter {
    /// Connection stamps per IP (keys have port 0).
    pub closed spec fn conn_view(&self) -> Map<PeerKey, Seq<u128>> {
        self.connections.map().map_values(|v: Vec<u128>| v@)
    }

    /// The latest clock reading the limiter acted on, in nanoseconds since
    /// its creation.
    pub closed spec fn clock(&self) -> u128 {
        self.last_reading
    }

    /// Packet entries `(count, window start in seconds)` per peer.
    pub closed spec fn packet_view(&self) -> Map<PeerKey, (u64, u64)> {
        self.packets.map()
    }

    /// The tables are well formed and no peer holds more than 5 stamps.
    pub closed spec fn wf(&self) -> bool {
        &&& self.connections.wf()
        &&& self.packets.wf()
        &&& forall|k: PeerKey| #[trigger] self.conn_view().contains_key(k)
            ==> self.conn_view()[k].len() <= MAX_CONNECTIONS_PER_WINDOW
    }

    pub fn new() -> (r: RateLimiter)
        ensures
            r.wf(),
            r.conn_view() == Map::<PeerKey, Seq<u128>>::empty(),
            r.packet_view() == Map::<PeerKey, (u64, u64)>::empty(),
            r.clock() == 0,
    {
        let r = RateLimiter { connections: Table::new(), packets: Table::new(), start: instant_now(), last_reading: 0 };
        assert(r.conn_view() =~= Map::<PeerKey, Seq<u128>>::empty());
        r
    }

    /// Nanoseconds since the limiter was created. `Instant` is monotonic,
    /// so a reading is never earlier than the one before; the limiter keeps
    /// the latest reading and never acts on an earlier time.
    fn now_nanos(&mut self) -> (r: u128)
        ensures
            old(self).clock() <= r,
            final(self).clock() == r,
            final(self).conn_view() == old(self).conn_view(),
            final(self).packet_view() == old(self).packet_view(),
            final(self).wf() == old(self).wf(),
    {
        let d = elapsed_since(&self.start);
        let secs = d.as_secs();
        let sub = d.subsec_nanos();
        let reading = secs as u128 * 1_000_000_000 + sub as u128;
        if reading > self.last_reading {
            self.last_reading = reading;
        }
        self.last_reading
    }

    /// Is a new connection from `addr` allowed? At most 5 per minute from
    /// one IP, whatever the port.
    pub fn check_connection(&mut self, addr: PeerKey) -> (allowed: bool)
        requires
            old(self).wf(),
        ensures
            final(self).wf(),
            final(self).packet_view() == old(self).packet_view(),
            old(self).clock() <= final(self).clock(),
            conn_step(old(self).conn_view(), addr, final(self).clock(), allowed, final(self).conn_view()),
    {
        let now = self.now_nanos();
        self.check_connection_at(addr, now)
    }

    /// The connection check at time `now` (nanoseconds since creation), on
    /// the stamps of `addr`'s IP: stamps older than a minute are dropped;
    /// with 5 left the connection is refused, else it is allowed and
    /// stamped.
    pub fn check_connection_at(&mut self, addr: PeerKey, now: u128) -> (allowed: bool)
        requires
            old(self).wf(),
        ensures
            final(self).clock() == old(self).clock(),
            final(self).wf(),
            conn_step(old(self).conn_view(), addr, now, allowed, final(self).conn_view()),
            final(self).packet_view() == old(self).packet_view(),
    {
        let key = PeerKey { ipv6: addr.ipv6, ip: addr.ip, port: 0 };
        let ghost old_conns = self.conn_view();
        let ghost prior = prior_stamps(old_conns, key);
        match self.connections.index_of(&key) {
            Some(i) => {
                let kept0 = keep_recent(self.connections.value_at(i), now);
                let mut kept = kept0;
                let allowed = kept.len() < MAX_CONNECTIONS_PER_WINDOW;
                if allowed {
                    kept.push(now);
                }
                let ghost kv = kept@;
                let _ = self.connections.replace_at(i, kept);
                proof {
                    assert(self.conn_view() =~= old_conns.insert(key, kv));
                    assert forall|k: PeerKey| #[trigger] self.conn_view().contains_key(k)
                        implies self.conn_view()[k].len() <= MAX_CONNECTIONS_PER_WINDOW by {
                        if k != key {
                            assert(old_conns.contains_key(k));
                        }
                    }
                }
                allowed
            },
            None => {
                let mut v: Vec<u128> = Vec::new();
                proof {
                    reveal(Seq::filter);
                    assert(prior == Seq::<u128>::empty());
                }
                v.push(now);
                let ghost kv = v@;
                self.connections.push_new(key, v);
                proof {
                    assert(recent_stamps(prior, now) =~= Seq::<u128>::empty());
                    assert(kv =~= Seq::<u128>::empty().push(now));
                    assert(self.conn_view() =~= old_conns.insert(key, kv));
                    assert forall|k: PeerKey| #[trigger] self.conn_view().contains_key(k)
                        implies self.conn_view()[k].len() <= MAX_CONNECTIONS_PER_WINDOW by {
                        if k != key {
                            assert(old_conns.contains_key(k));
                        }
                    }
                }
                true
            },
        }
    }

    /// Forgets the packet entry of a disconnected peer. Connection stamps
    /// stay, so the connection limit still applies to it.
    pub fn cleanup_connection(&mut self, addr: PeerKey)
        requires
            old(self).wf(),
        ensures
            final(self).clock() == old(self).clock(),
            final(self).wf(),
            final(self).packet_view() == old(self).packet_view().remove(addr),
            final(self).conn_view() == old(self).conn_view(),
    {
        let ghost before = self.conn_view();
        match self.packets.index_of(&addr) {
            Some(i) => {
                let _ = self.packets.remove_at(i);
            },
            None => {
                assert(self.packets.map().remove(addr) =~= self.packets.map());
            },
        }
        proof { self.lemma_conn_bound_kept(before); }
    }

    /// May `addr` process another packet? At most 20 per second.
    pub fn check_packet(&mut self, addr: PeerKey) -> (allowed: bool)
        requires
            old(self).wf(),
        ensures
            final(self).wf(),
            final(self).conn_view() == old(self).conn_view(),
            old(self).clock() <= final(self).clock(),
            packet_step(old(self).packet_view(), addr, second_of(final(self).clock()), allowed, final(self).packet_view()),
    {
        let now = self.now_nanos();
        let secs = (now / 1_000_000_000) as u64;
        self.check_packet_at(addr, secs)
    }

    /// The packet check in second `now`: a later second than the entry's
    /// window opens a new window; the packet is counted, and allowed when
    /// fewer than 20 were counted before it in the window.
    pub fn check_packet_at(&mut self, addr: PeerKey, now: u64) -> (allowed: bool)
        requires
            old(self).wf(),
        ensures
            final(self).clock() == old(self).clock(),
            final(self).wf(),
            packet_step(old(self).packet_view(), addr, now, allowed, final(self).packet_view()),
            final(self).conn_view() == old(self).conn_view(),
    {
        let ghost before = self.conn_view();
        let e: (u64, u64) = match self.packets.index_of(&addr) {
            Some(i) => *self.packets.value_at(i),
            None => (0, now),
        };
        let w: (u64, u64) = if now > e.1 { (0, now) } else { e };
        let next: (u64, u64) = (w.0.wrapping_add(1), w.1);
        match self.packets.index_of(&addr) {
            Some(i) => {
                let _ = self.packets.replace_at(i, next);
            },
            None => {
                self.packets.push_new(addr, next);
            },
        }
        proof { self.lemma_conn_bound_kept(before); }
        w.0 < MAX_PACKETS_PER_SECOND
    }

    /// Periodic cleanup: drops packet entries whose window opened a minute
    /// or more ago.
    pub fn cleanup_stale(&mut self)
        requires
            old(self).wf(),
        ensures
            final(self).wf(),
            final(self).conn_view() == old(self).conn_view(),
            old(self).clock() <= final(self).clock(),
            cleanup_step(old(self).packet_view(), second_of(final(self).clock()), final(self).packet_view()),
    {
        let now = self.now_nanos();
        let secs = (now / 1_000_000_000) as u64;
        self.cleanup_stale_at(secs);
    }

    /// The cleanup at second `now`: exactly the live entries stay.
    pub fn cleanup_stale_at(&mut self, now: u64)
        requires
            old(self).wf(),
        ensures
            final(self).clock() == old(self).clock(),
            final(self).wf(),
            final(self).conn_view() == old(self).conn_view(),
            cleanup_step(old(self).packet_view(), now, final(self).packet_view()),
    {
        let mut kept: Table<PeerKey, (u64, u64)> = Table::new();
        let n = self.packets.len();
        let mut i: usize = 0;
        proof { self.packets.lemma_positions(); }
        while i < n
            invariant
                n == self.packets.size(),
                i <= n,
                self.packets.wf(),
                kept.wf(),
                forall|a: int, b: int| 0 <= a < b < n ==> self.packets.key_at(a) != self.packets.key_at(b),
                forall|a: int| 0 <= a < n ==> self.packets.map().contains_key(#[trigger] self.packets.key_at(a)),
                forall|k: PeerKey| #[trigger] kept.map().contains_key(k) <==>
                    (exists|a: int| 0 <= a < i && #[trigger] self.packets.key_at(a) == k)
                        && self.packets.map().contains_key(k) && packet_entry_live(now, self.packets.map()[k]),
                forall|k: PeerKey| #[trigger] kept.map().contains_key(k) ==> kept.map()[k] == self.packets.map()[k],
            decreases n - i,
        {
            let e: (u64, u64) = *self.packets.value_at(i);
            let k = *self.packets.key(i);
            if now < e.1 || now - e.1 < PACKET_ENTRY_TTL_SECS {
                proof {
                    if kept.map().contains_key(k) {
                        let a = choose|a: int| 0 <= a < i && #[trigger] self.packets.key_at(a) == k;
                        assert(self.packets.key_at(a) != self.packets.key_at(i as int));
                    }
                }
                let ghost before = kept.map();
                kept.push_new(k, e);
                proof {
                    assert forall|q: PeerKey| #[trigger] kept.map().contains_key(q) <==>
                        (exists|a: int| 0 <= a < i + 1 && #[trigger] self.packets.key_at(a) == q)
                            && self.packets.map().contains_key(q) && packet_entry_live(now, self.packets.map()[q]) by {
                        if q == k {
                            assert(self.packets.key_at(i as int) == q);
                        } else if exists|a: int| 0 <= a < i + 1 && #[trigger] self.packets.key_at(a) == q {
                            let a = choose|a: int| 0 <= a < i + 1 && #[trigger] self.packets.key_at(a) == q;
                            assert(a != i);
                        }
                    }
                }
            } else {
                proof {
                    assert forall|q: PeerKey| #[trigger] kept.map().contains_key(q) <==>
                        (exists|a: int| 0 <= a < i + 1 && #[trigger] self.packets.key_at(a) == q)
                            && self.packets.map().contains_key(q) && packet_entry_live(now, self.packets.map()[q]) by {
                        if exists|a: int| 0 <= a < i + 1 && #[trigger] self.packets.key_at(a) == q {
                            let a = choose|a: int| 0 <= a < i + 1 && #[trigger] self.packets.key_at(a) == q;
                            if a == i {
                                assert(q == k);
                            }
                        }
                    }
                }
            }
            i = i + 1;
        }
        proof {
            assert forall|q: PeerKey| #[trigger] kept.map().contains_key(q) <==>
                (self.packets.map().contains_key(q) && packet_entry_live(now, self.packets.map()[q])) by {
                if self.packets.map().contains_key(q) {
                    let a = choose|a: int| 0 <= a < self.packets.size() && #[trigger] self.packets.key_at(a) == q;
                }
            }
        }
        let ghost before = self.conn_view();
        self.packets = kept;
        proof { self.lemma_conn_bound_kept(before); }
    }

    /// The bound on stamps carries over when the stamps are unchanged.
    proof fn lemma_conn_bound_kept(&self, before: Map<PeerKey, Seq<u128>>)
        requires
            self.conn_view() == before,
            forall|k: PeerKey| #[trigger] before.contains_key(k) ==> before[k].len() <= MAX_CONNECTIONS_PER_WINDOW,
        ensures
            forall|k: PeerKey| #[trigger] self.conn_view().contains_key(k)
                ==> self.conn_view()[k].len() <= MAX_CONNECTIONS_PER_WINDOW,
    {
    }
}

impl Default for RateLimiter {
    fn default() -> (r: RateLimiter)
        ensures
            r.wf(),
            r.clock() == 0,
            r.conn_view() == Map::<PeerKey, Seq<u128>>::empty(),
            r.packet_view() == Map::<PeerKey, (u64, u64)>::empty(),
    {
        RateLimiter::new()
    }
}

/// The stamps of `stamps` that still count at `now`.
fn keep_recent(stamps: &Vec<u128>, now: u128) -> (r: Vec<u128>)
    ensures
        r@ == recent_stamps(stamps@, now),
        r@.len() <= stamps@.len(),
{
    let mut out: Vec<u128> = Vec::new();
    let mut i: usize = 0;
    while i < stamps.len()
        invariant
            i <= stamps@.len(),
            out@ == stamps@.take(i as int).filter(recent_filter(now)),
        decreases stamps@.len() - i,
    {
        let t = stamps[i];
        proof {
            assert(stamps@.take(i as int + 1) =~= stamps@.take(i as int).push(t));
            stamps@.take(i as int).lemma_filter_push(t, recent_filter(now));
        }
        if t > now || now - t < CONNECTION_WINDOW_NANOS {
            out.push(t);
        }
        i = i + 1;
    }
    proof {
        assert(stamps@.take(i as int) =~= stamps@);
        stamps@.lemma_filter_len(recent_filter(now));
    }
    out
}

/// Within one window, once 20 packets were counted every further packet of
/// that window is refused, and the count stays at 20 or more.
pub proof fn lemma_packet_budget_holds(e: (u64, u64), now: u64)
    requires
        now <= e.1,
        MAX_PACKETS_PER_SECOND <= e.0 < u64::MAX,
    ensures
        !(window_at(e, now).0 < MAX_PACKETS_PER_SECOND),
        counted(window_at(e, now)).0 >= MAX_PACKETS_PER_SECOND,
        counted(window_at(e, now)).1 == e.1,
{
}

/// A packet in a later second than the window's opens a fresh window and
/// is allowed.
pub proof fn lemma_packet_new_window(e: (u64, u64), now: u64)
    requires
        now > e.1,
    ensures
        window_at(e, now).0 < MAX_PACKETS_PER_SECOND,
        counted(window_at(e, now)) == (1u64, now),
{
}

/// The packet entries after `k` packets from `addr` in second `now`.
pub open spec fn packets_after(m: Map<PeerKey, (u64, u64)>, addr: PeerKey, now: u64, k: nat) -> Map<PeerKey, (u64, u64)>
    decreases k,
{
    if k == 0 {
        m
    } else {
        let p = packets_after(m, addr, now, (k - 1) as nat);
        p.insert(addr, counted(window_at(packet_entry(p, addr, now), now)))
    }
}

/// Whether a packet from `addr` in second `now` is allowed on entries `m`.
pub open spec fn packet_allowed(m: Map<PeerKey, (u64, u64)>, addr: PeerKey, now: u64) -> bool {
    window_at(packet_entry(m, addr, now), now).0 < MAX_PACKETS_PER_SECOND
}

/// In a second that opens `addr`'s window (it has no entry, or its window
/// started in an earlier second), the first 20 packets of that second are
/// allowed and every later one in the same second is refused.
pub proof fn packets_in_one_second(m: Map<PeerKey, (u64, u64)>, addr: PeerKey, now: u64, k: nat)
    requires
        !m.contains_key(addr) || m[addr].1 < now,
        k < u64::MAX,
    ensures
        packet_allowed(packets_after(m, addr, now, k), addr, now) == (k < MAX_PACKETS_PER_SECOND),
{
    lemma_packets_count(m, addr, now, k);
}

proof fn lemma_packets_count(m: Map<PeerKey, (u64, u64)>, addr: PeerKey, now: u64, k: nat)
    requires
        !m.contains_key(addr) || m[addr].1 < now,
        k < u64::MAX,
    ensures
        window_at(packet_entry(packets_after(m, addr, now, k), addr, now), now) == (k as u64, now),
    decreases k,
{
    if k > 0 {
        lemma_packets_count(m, addr, now, (k - 1) as nat);
    }
}

/// Every stamp of `s` still counts at `now`: the recent ones are all of them.
proof fn lemma_all_recent(s: Seq<u128>, now: u128)
    requires
        forall|j: int| 0 <= j < s.len() ==> recent_conn(now, #[trigger] s[j]),
    ensures
        recent_stamps(s, now) == s,
    decreases s.len(),
{
    reveal(Seq::filter);
    if s.len() > 0 {
        assert forall|j: int| 0 <= j < s.drop_last().len() implies recent_conn(now, #[trigger] s.drop_last()[j]) by {
            assert(s.drop_last()[j] == s[j]);
        }
        lemma_all_recent(s.drop_last(), now);
        assert(recent_conn(now, s[s.len() - 1]));
        assert(s.drop_last().push(s.last()) =~= s);
    }
}

/// No stamp of `s` counts at `now`: none is recent.
proof fn lemma_none_recent(s: Seq<u128>, now: u128)
    requires
        forall|j: int| 0 <= j < s.len() ==> !recent_conn(now, #[trigger] s[j]),
    ensures
        recent_stamps(s, now) == Seq::<u128>::empty(),
    decreases s.len(),
{
    reveal(Seq::filter);
    if s.len() > 0 {
        assert forall|j: int| 0 <= j < s.drop_last().len() implies !recent_conn(now, #[trigger] s.drop_last()[j]) by {
            assert(s.drop_last()[j] == s[j]);
        }
        lemma_none_recent(s.drop_last(), now);
        assert(!recent_conn(now, s[s.len() - 1]));
    }
}

/// A run of connection checks from one IP: `states[i]` is turned into
/// `states[i + 1]` by the check of `addrs[i]` at `times[i]`, answered
/// `answers[i]`.
pub open spec fn connection_run(
    states: Seq<Map<PeerKey, Seq<u128>>>,
    addrs: Seq<PeerKey>,
    times: Seq<u128>,
    answers: Seq<bool>,
) -> bool {
    &&& states.len() == addrs.len() + 1
    &&& times.len() == addrs.len()
    &&& answers.len() == addrs.len()
    &&& forall|i: int| 0 <= i < addrs.len() ==>
        #[trigger] conn_step(states[i], addrs[i], times[i], answers[i], states[i + 1])
}

/// At most 5 connections a minute from one IP: in a run of checks from
/// addresses of one IP (any ports), in order of time and all within a
/// minute of the first, when no earlier stamp of that IP still counts at
/// the first, the first five are allowed and every later one is refused.
pub proof fn five_connections_a_minute(
    states: Seq<Map<PeerKey, Seq<u128>>>,
    addrs: Seq<PeerKey>,
    times: Seq<u128>,
    answers: Seq<bool>,
)
    requires
        connection_run(states, addrs, times, answers),
        addrs.len() > 0,
        forall|i: int| 0 <= i < addrs.len() ==> ip_of(#[trigger] addrs[i]) == ip_of(addrs[0]),
        forall|i: int, j: int| 0 <= i <= j < times.len() ==> times[i] <= times[j],
        forall|i: int| 0 <= i < times.len() ==> #[trigger] times[i] < times[0] + CONNECTION_WINDOW_NANOS,
        forall|j: int| 0 <= j < prior_stamps(states[0], ip_of(addrs[0])).len()
            ==> !recent_conn(times[0], #[trigger] prior_stamps(states[0], ip_of(addrs[0]))[j]),
    ensures
        forall|i: int| 0 <= i < answers.len() ==> #[trigger] answers[i] == (i < MAX_CONNECTIONS_PER_WINDOW),
{
    lemma_connection_run(states, addrs, times, answers, addrs.len());
}

proof fn lemma_connection_run(
    states: Seq<Map<PeerKey, Seq<u128>>>,
    addrs: Seq<PeerKey>,
    times: Seq<u128>,
    answers: Seq<bool>,
    n: nat,
)
    requires
        connection_run(states, addrs, times, answers),
        0 < addrs.len(),
        n <= addrs.len(),
        forall|i: int| 0 <= i < addrs.len() ==> ip_of(#[trigger] addrs[i]) == ip_of(addrs[0]),
        forall|i: int, j: int| 0 <= i <= j < times.len() ==> times[i] <= times[j],
        forall|i: int| 0 <= i < times.len() ==> #[trigger] times[i] < times[0] + CONNECTION_WINDOW_NANOS,
        forall|j: int| 0 <= j < prior_stamps(states[0], ip_of(addrs[0])).len()
            ==> !recent_conn(times[0], #[trigger] prior_stamps(states[0], ip_of(addrs[0]))[j]),
    ensures
        forall|i: int| 0 <= i < n ==> #[trigger] answers[i] == (i < MAX_CONNECTIONS_PER_WINDOW),
        n > 0 ==> ({
            let p = prior_stamps(states[n as int], ip_of(addrs[0]));
            &&& p.len() == if n < MAX_CONNECTIONS_PER_WINDOW { n } else { MAX_CONNECTIONS_PER_WINDOW as nat }
            &&& forall|j: int| 0 <= j < p.len() ==> times[0] <= #[trigger] p[j] <= times[n - 1]
        }),
    decreases n,
{
    if n > 0 {
        let i = n - 1;
        lemma_connection_run(states, addrs, times, answers, i as nat);
        let ip = ip_of(addrs[0]);
        assert(conn_step(states[i], addrs[i], times[i], answers[i], states[i + 1]));
        assert(ip_of(addrs[i]) == ip);
        let prior = prior_stamps(states[i], ip);
        if i == 0 {
            lemma_none_recent(prior, times[0]);
        } else {
            assert forall|j: int| 0 <= j < prior.len() implies recent_conn(times[i], #[trigger] prior[j]) by {
                assert(times[0] <= prior[j]);
                assert(times[i] < times[0] + CONNECTION_WINDOW_NANOS);
            }
            lemma_all_recent(prior, times[i]);
        }
        let p = prior_stamps(states[n as int], ip);
        assert(states[i + 1] == states[n as int]);
        assert forall|j: int| 0 <= j < p.len() implies times[0] <= #[trigger] p[j] <= times[n - 1] by {
            if i > 0 {
                assert(times[i - 1] <= times[i]);
                assert(times[0] <= times[i]);
            }
            assert(times[0] <= times[i]);
        }
    }
}

/// A connection check answers from the stamps of the peer's own IP only:
/// the stamps of every other IP stay as they were.
pub proof fn other_ips_keep_their_stamps(
    before: Map<PeerKey, Seq<u128>>,
    addr: PeerKey,
    now: u128,
    allowed: bool,
    after: Map<PeerKey, Seq<u128>>,
    other: PeerKey,
)
    requires
        conn_step(before, addr, now, allowed, after),
        ip_of(other) != ip_of(addr),
    ensures
        prior_stamps(after, ip_of(other)) == prior_stamps(before, ip_of(other)),
{
}

/// Stamps a minute old or older no longer count: when none of the IP's
/// stamps is recent, the connection is allowed.
pub proof fn old_stamps_do_not_count(
    before: Map<PeerKey, Seq<u128>>,
    addr: PeerKey,
    now: u128,
    allowed: bool,
    after: Map<PeerKey, Seq<u128>>,
)
    requires
        conn_step(before, addr, now, allowed, after),
        forall|j: int| 0 <= j < prior_stamps(before, ip_of(addr)).len()
            ==> !recent_conn(now, #[trigger] prior_stamps(before, ip_of(addr))[j]),
    ensures
        allowed,
{
    lemma_none_recent(prior_stamps(before, ip_of(addr)), now);
}

/// A run of packet checks from one peer in one second: `states[i]` is
/// turned into `states[i + 1]` by a check answered `answers[i]`.
pub open spec fn packet_run(
    states: Seq<Map<PeerKey, (u64, u64)>>,
    addr: PeerKey,
    now: u64,
    answers: Seq<bool>,
) -> bool {
    &&& states.len() == answers.len() + 1
    &&& forall|i: int| 0 <= i < answers.len() ==>
        #[trigger] packet_step(states[i], addr, now, answers[i], states[i + 1])
}

/// At most 20 packets a second: in a run of checks from one peer in a
/// second that opens its window (it has no entry, or its window began in
/// an earlier second), the first 20 are allowed and every later one in that
/// second is refused.
pub proof fn twenty_packets_a_second(
    states: Seq<Map<PeerKey, (u64, u64)>>,
    addr: PeerKey,
    now: u64,
    answers: Seq<bool>,
)
    requires
        packet_run(states, addr, now, answers),
        !states[0].contains_key(addr) || states[0][addr].1 < now,
        answers.len() < u64::MAX,
    ensures
        forall|i: int| 0 <= i < answers.len() ==> #[trigger] answers[i] == (i < MAX_PACKETS_PER_SECOND),
{
    assert forall|i: int| 0 <= i < answers.len() implies #[trigger] answers[i] == (i < MAX_PACKETS_PER_SECOND) by {
        lemma_packet_run(states, addr, now, answers, i as nat);
        assert(packet_step(states[i], addr, now, answers[i], states[i + 1]));
        packets_in_one_second(states[0], addr, now, i as nat);
    }
}

proof fn lemma_packet_run(
    states: Seq<Map<PeerKey, (u64, u64)>>,
    addr: PeerKey,
    now: u64,
    answers: Seq<bool>,
    i: nat,
)
    requires
        packet_run(states, addr, now, answers),
        i <= answers.len(),
    ensures
        states[i as int] == packets_after(states[0], addr, now, i),
    decreases i,
{
    if i > 0 {
        lemma_packet_run(states, addr, now, answers, (i - 1) as nat);
        let j: int = i - 1;
        assert(packet_step(states[j], addr, now, answers[j], states[j + 1]));
        assert(states[j + 1] == states[i as int]);
    }
}

/// A run of `check_connection` calls: `limiters[i + 1]` is what the call
/// for `addrs[i]` left of `limiters[i]`, answered `answers[i]`, as that
/// function's contract states it.
pub open spec fn clocked_connection_run(limiters: Seq<RateLimiter>, addrs: Seq<PeerKey>, answers: Seq<bool>) -> bool {
    &&& limiters.len() == addrs.len() + 1
    &&& answers.len() == addrs.len()
    &&& forall|i: int| 0 <= i < addrs.len() ==> {
        &&& #[trigger] limiters[i].clock() <= limiters[i + 1].clock()
        &&& conn_step(limiters[i].conn_view(), addrs[i], limiters[i + 1].clock(), answers[i], limiters[i + 1].conn_view())
    }
}

/// At most 5 connections a minute from one IP, on the limiter's own clock:
/// in a run of `check_connection` calls from addresses of one IP whose
/// clock readings stay within a minute of the first, when no stamp of that
/// IP still counts at the first reading, the first five are allowed and
/// every later one is refused.
pub proof fn five_connections_a_minute_on_the_clock(limiters: Seq<RateLimiter>, addrs: Seq<PeerKey>, answers: Seq<bool>)
    requires
        clocked_connection_run(limiters, addrs, answers),
        addrs.len() > 0,
        forall|i: int| 0 <= i < addrs.len() ==> ip_of(#[trigger] addrs[i]) == ip_of(addrs[0]),
        limiters[addrs.len() as int].clock() < limiters[1].clock() + CONNECTION_WINDOW_NANOS,
        forall|j: int| 0 <= j < prior_stamps(limiters[0].conn_view(), ip_of(addrs[0])).len()
            ==> !recent_conn(limiters[1].clock(), #[trigger] prior_stamps(limiters[0].conn_view(), ip_of(addrs[0]))[j]),
    ensures
        forall|i: int| 0 <= i < answers.len() ==> #[trigger] answers[i] == (i < MAX_CONNECTIONS_PER_WINDOW),
{
    let n = addrs.len() as int;
    let states = Seq::new((n + 1) as nat, |i: int| limiters[i].conn_view());
    let times = Seq::new(n as nat, |i: int| limiters[i + 1].clock());
    lemma_clock_ordered(limiters, addrs, answers);
    assert forall|i: int| 0 <= i < n implies #[trigger] conn_step(states[i], addrs[i], times[i], answers[i], states[i + 1]) by {
        assert(limiters[i].clock() <= limiters[i + 1].clock());
    }
    assert forall|i: int| 0 <= i < times.len() implies #[trigger] times[i] < times[0] + CONNECTION_WINDOW_NANOS by {
        assert(limiters[i + 1].clock() <= limiters[n].clock());
    }
    five_connections_a_minute(states, addrs, times, answers);
}

/// Along a run the clock never goes back.
proof fn lemma_clock_ordered(limiters: Seq<RateLimiter>, addrs: Seq<PeerKey>, answers: Seq<bool>)
    requires
        clocked_connection_run(limiters, addrs, answers),
    ensures
        forall|i: int, j: int| 0 <= i <= j < limiters.len() ==> limiters[i].clock() <= limiters[j].clock(),
{
    assert forall|i: int, j: int| 0 <= i <= j < limiters.len() implies limiters[i].clock() <= limiters[j].clock() by {
        lemma_clock_ordered_from(limiters, addrs, answers, i, j);
    }
}

proof fn lemma_clock_ordered_from(limiters: Seq<RateLimiter>, addrs: Seq<PeerKey>, answers: Seq<bool>, i: int, j: int)
    requires
        clocked_connection_run(limiters, addrs, answers),
        0 <= i <= j < limiters.len(),
    ensures
        limiters[i].clock() <= limiters[j].clock(),
    decreases j - i,
{
    if i < j {
        lemma_clock_ordered_from(limiters, addrs, answers, i, j - 1);
        let k = j - 1;
        assert(limiters[k].clock() <= limiters[k + 1].clock());
    }
}

/// The whole second of a clock reading, as the packet check takes it.
pub open spec fn second_of(clock: u128) -> u64 {
    (clock / 1_000_000_000) as u64
}

/// A run of `check_packet` calls from one peer, as that function's
/// contract states each of them.
pub open spec fn clocked_packet_run(limiters: Seq<RateLimiter>, addr: PeerKey, answers: Seq<bool>) -> bool {
    &&& limiters.len() == answers.len() + 1
    &&& forall|i: int| 0 <= i < answers.len() ==> #[trigger] packet_step(limiters[i].packet_view(), addr,
        second_of(limiters[i + 1].clock()), answers[i], limiters[i + 1].packet_view())
}

/// At most 20 packets a second, on the limiter's own clock: in a run of
/// `check_packet` calls from one peer whose readings fall in one second
/// that opens the peer's window, the first 20 are allowed and every later
/// one is refused.
pub proof fn twenty_packets_a_second_on_the_clock(limiters: Seq<RateLimiter>, addr: PeerKey, answers: Seq<bool>, now: u64)
    requires
        clocked_packet_run(limiters, addr, answers),
        forall|i: int| 1 <= i < limiters.len() ==> second_of(#[trigger] limiters[i].clock()) == now,
        !limiters[0].packet_view().contains_key(addr) || limiters[0].packet_view()[addr].1 < now,
        answers.len() < u64::MAX,
    ensures
        forall|i: int| 0 <= i < answers.len() ==> #[trigger] answers[i] == (i < MAX_PACKETS_PER_SECOND),
{
    let states = Seq::new(limiters.len(), |i: int| limiters[i].packet_view());
    assert forall|i: int| 0 <= i < answers.len() implies #[trigger] packet_step(states[i], addr, now, answers[i],
        states[i + 1]) by {
        assert(packet_step(limiters[i].packet_view(), addr, second_of(limiters[i + 1].clock()), answers[i],
            limiters[i + 1].packet_view()));
        assert(second_of(limiters[i + 1].clock()) == now);
    }
    twenty_packets_a_second(states, addr, now, answers);
}

} // verus!

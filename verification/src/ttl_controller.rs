//! The connection TTL registry: a concurrent map from client address to
//! connection record, with adaptive TTL extension, periodic eviction of
//! expired records, and derived statistics.
//!
//! Addresses are carried as 128-bit integers (wide enough for an IPv6
//! address); timestamps and durations are milliseconds. Operations that
//! depend on the current time take it as an explicit argument (the `_at`
//! functions carry the exact contracts); the argument-free entry points
//! read the wall clock and delegate.

use vstd::prelude::*;

verus! {

/// A record must have seen more requests than this before the adaptive
/// policy considers extending its TTL: see `spec_adaptive_ttl`.
pub const ADAPTIVE_REQUEST_THRESHOLD: u64 = 10;

/// One tracked client connection. All fields are plain integers:
/// the identity is an opaque 128-bit value, timestamps are milliseconds.
#[derive(Debug, Clone, Copy, PartialEq, Eq, Structural)]
pub struct ConnectionInfo {
    pub id: u128,
    pub ip: u128,
    pub established_at: u64,
    pub last_activity: u64,
    pub ttl: u64,
    pub request_count: u64,
}

/// A counter bumped by one, stopping at the top of the range.
pub open spec fn spec_inc(c: u64) -> u64 {
    if c < u64::MAX {
        (c + 1) as u64
    } else {
        c
    }
}

impl ConnectionInfo {
    /// A record is expired when more than `ttl` milliseconds have passed
    /// since its last activity.
    pub open spec fn spec_expired(self, now_ms: u64) -> bool {
        now_ms - self.last_activity > self.ttl
    }

    /// Milliseconds since the last activity, clamped at zero.
    pub open spec fn spec_elapsed(self, now_ms: u64) -> int {
        if now_ms > self.last_activity {
            now_ms - self.last_activity
        } else {
            0
        }
    }

    /// Milliseconds left before expiry, or `None` once the elapsed time
    /// has reached the TTL.
    pub open spec fn spec_time_until_expiry(self, now_ms: u64) -> Option<u64> {
        if self.spec_elapsed(now_ms) >= self.ttl {
            None
        } else {
            Some((self.ttl - self.spec_elapsed(now_ms)) as u64)
        }
    }

    /// The record a fresh registration creates: both timestamps are the
    /// creation instant and the request count starts at one.
    pub open spec fn spec_new(ip: u128, ttl: u64, id: u128, now_ms: u64) -> ConnectionInfo {
        ConnectionInfo {
            id,
            ip,
            established_at: now_ms,
            last_activity: now_ms,
            ttl,
            request_count: 1,
        }
    }

    /// Builds the record for a connection first seen at `now_ms`, under the
    /// given identity.
    pub fn new_at(ip: u128, ttl: u64, id: u128, now_ms: u64) -> (r: Self)
        ensures
            r == Self::spec_new(ip, ttl, id, now_ms),
    {
        ConnectionInfo {
            id,
            ip,
            established_at: now_ms,
            last_activity: now_ms,
            ttl,
            request_count: 1,
        }
    }

    /// Builds the record for a connection first seen now, with a freshly
    /// drawn identity.
    pub fn new(ip: u128, ttl: u64) -> (r: Self)
        ensures
            r.ip == ip,
            r.ttl == ttl,
            r.request_count == 1,
            r.last_activity == r.established_at,
    {
        let id = fresh_id();
        let now_ms = now_millis();
        Self::new_at(ip, ttl, id, now_ms)
    }

    /// Whether the record is expired at `now_ms`.
    pub fn is_expired(&self, now_ms: u64) -> (r: bool)
        ensures
            r == self.spec_expired(now_ms),
    {
        now_ms > self.last_activity && now_ms - self.last_activity > self.ttl
    }

    /// Marks activity: the last-activity timestamp moves to `now_ms` and the
    /// request count is bumped (saturating at the top of its range).
    pub fn update_activity(&mut self, now_ms: u64)
        ensures
            *final(self) == (ConnectionInfo {
                last_activity: now_ms,
                request_count: spec_inc(old(self).request_count),
                ..*old(self)
            }),
    {
        self.last_activity = now_ms;
        if self.request_count < u64::MAX {
            self.request_count = self.request_count + 1;
        }
    }

    /// Milliseconds remaining before this record expires, measured at
    /// `now_ms`; `None` once the elapsed time has reached the TTL.
    pub fn time_until_expiry(&self, now_ms: u64) -> (r: Option<u64>)
        ensures
            r == self.spec_time_until_expiry(now_ms),
    {
        let elapsed: u64 = if now_ms > self.last_activity {
            now_ms - self.last_activity
        } else {
            0
        };
        if elapsed >= self.ttl {
            None
        } else {
            Some(self.ttl - elapsed)
        }
    }
}

/// Derived registry statistics, computed on demand.
#[derive(Debug, Clone, Copy, PartialEq, Eq, Structural)]
pub struct TtlStats {
    pub active_connections: usize,
    pub total_connections: u64,
    pub expired_connections: u64,
    pub average_ttl_secs: u64,
}

/// Declares dashmap::DashMap, the sharded concurrent map the registry
/// keys by address; opaque here, described by `dm_contents`.
#[verifier::external_type_specification]
#[verifier::external_body]
#[verifier::reject_recursive_types(K)]
#[verifier::reject_recursive_types(V)]
#[verifier::reject_recursive_types(S)]
pub struct ExDashMap<K, V, S>(dashmap::DashMap<K, V, S>);

/// The contents of an empty registry map.
pub open spec fn no_records() -> Map<u128, ConnectionInfo> {
    Map::empty()
}

/// What the concurrent map holds: its key-to-record contents.
pub uninterp spec fn dm_contents(m: dashmap::DashMap<u128, ConnectionInfo>) -> Map<u128, ConnectionInfo>;

/// Relies on dashmap::DashMap::new: a freshly built map is empty.
#[verifier::external_body]
fn dm_new() -> (r: dashmap::DashMap<u128, ConnectionInfo>)
    ensures
        dm_contents(r) == no_records(),
{
    dashmap::DashMap::new()
}

/// Relies on dashmap::DashMap::get: returns the record under the key,
/// if there is one. The record is copied out of the shard's guard.
#[verifier::external_body]
fn dm_get(m: &dashmap::DashMap<u128, ConnectionInfo>, key: u128) -> (r: Option<ConnectionInfo>)
    ensures
        r == (if dm_contents(*m).contains_key(key) {
            Some(dm_contents(*m)[key])
        } else {
            None
        }),
{
    m.get(&key).map(|entry| *entry)
}

/// Relies on dashmap::DashMap::insert: the key now maps to the value;
/// nothing else changes.
#[verifier::external_body]
fn dm_insert(m: &mut dashmap::DashMap<u128, ConnectionInfo>, key: u128, value: ConnectionInfo)
    ensures
        dm_contents(*final(m)) == dm_contents(*old(m)).insert(key, value),
{
    m.insert(key, value);
}

/// Relies on dashmap::DashMap::remove: takes the entry out and hands its
/// record back, or does nothing when the key is absent.
#[verifier::external_body]
fn dm_remove(m: &mut dashmap::DashMap<u128, ConnectionInfo>, key: u128) -> (r: Option<
    ConnectionInfo,
>)
    ensures
        r == (if dm_contents(*old(m)).contains_key(key) {
            Some(dm_contents(*old(m))[key])
        } else {
            None
        }),
        dm_contents(*final(m)) == (if dm_contents(*old(m)).contains_key(key) {
            dm_contents(*old(m)).remove(key)
        } else {
            dm_contents(*old(m))
        }),
{
    m.remove(&key).map(|(_, v)| v)
}

/// Relies on dashmap::DashMap::remove_if: the entry leaves only if the
/// predicate holds of it at the moment of removal; the predicate used here
/// is the library's own expiry test.
#[verifier::external_body]
fn dm_remove_if_expired(
    m: &mut dashmap::DashMap<u128, ConnectionInfo>,
    key: u128,
    now_ms: u64,
) -> (r: Option<ConnectionInfo>)
    ensures
        r == (if dm_contents(*old(m)).contains_key(key) && dm_contents(*old(m))[key].spec_expired(
            now_ms,
        ) {
            Some(dm_contents(*old(m))[key])
        } else {
            None
        }),
        dm_contents(*final(m)) == (if dm_contents(*old(m)).contains_key(key) && dm_contents(
            *old(m),
        )[key].spec_expired(now_ms) {
            dm_contents(*old(m)).remove(key)
        } else {
            dm_contents(*old(m))
        }),
{
    m.remove_if(&key, |_, c| c.is_expired(now_ms)).map(|(_, v)| v)
}

/// Each listed pair stands for one entry of the map, every entry is
/// listed once, and no order is promised among them.
pub open spec fn is_enumeration_of(
    es: Seq<(u128, ConnectionInfo)>,
    m: Map<u128, ConnectionInfo>,
) -> bool {
    &&& es.len() == m.dom().len()
    &&& (forall|i: int, j: int|
        0 <= i < j < es.len() ==> (#[trigger] es[i]).0 != (#[trigger] es[j]).0)
    &&& (forall|i: int|
        0 <= i < es.len() ==> m.contains_key((#[trigger] es[i]).0) && m[es[i].0] == es[i].1)
    &&& (forall|k: u128|
        #[trigger] m.contains_key(k) ==> exists|i: int|
            0 <= i < es.len() && (#[trigger] es[i]).0 == k)
}

/// Relies on dashmap::DashMap::iter: every entry is visited once, each
/// copied out under its own shard guard; the order is the map's own and
/// nothing is promised of it.
#[verifier::external_body]
fn dm_entries(m: &dashmap::DashMap<u128, ConnectionInfo>) -> (r: Vec<(u128, ConnectionInfo)>)
    ensures
        is_enumeration_of(r@, dm_contents(*m)),
{
    m.iter().map(|entry| (*entry.key(), *entry.value())).collect()
}

/// The registry: a concurrent map from client address to connection
/// record, the TTL policy bounds, and the lifetime counters.
pub struct TtlController {
    connections: dashmap::DashMap<u128, ConnectionInfo>,
    default_ttl: u64,
    max_ttl: u64,
    cleanup_interval: u64,
    total_connections: u64,
    expired_connections: u64,
}

impl View for TtlController {
    type V = Map<u128, ConnectionInfo>;

    /// A registry is its mapping from address to record.
    closed spec fn view(&self) -> Map<u128, ConnectionInfo> {
        dm_contents(self.connections)
    }
}

/// The default TTL extended by half: the adaptive policy's candidate.
pub open spec fn spec_extended_ttl(default_ttl: u64) -> int {
    default_ttl + default_ttl / 2
}

/// The TTL the registry grants an address at `now_ms`: one and a half
/// times the default when the address already has a live record with more
/// than `ADAPTIVE_REQUEST_THRESHOLD` requests and the extension stays
/// within `max_ttl`; otherwise the default.
pub open spec fn spec_adaptive_ttl(
    m: Map<u128, ConnectionInfo>,
    ip: u128,
    now_ms: u64,
    default_ttl: u64,
    max_ttl: u64,
) -> u64 {
    if m.contains_key(ip) && m[ip].request_count > ADAPTIVE_REQUEST_THRESHOLD
        && !m[ip].spec_expired(now_ms) && spec_extended_ttl(default_ttl) <= max_ttl {
        (default_ttl + default_ttl / 2) as u64
    } else {
        default_ttl
    }
}

/// The addresses of `m` whose records are not expired at `now_ms`.
pub open spec fn live_keys(m: Map<u128, ConnectionInfo>, now_ms: u64) -> Set<u128> {
    m.dom().filter(|k: u128| !m[k].spec_expired(now_ms))
}

/// What a sweep at `now_ms` leaves behind: the live part of the map.
pub open spec fn swept(m: Map<u128, ConnectionInfo>, now_ms: u64) -> Map<u128, ConnectionInfo> {
    m.restrict(live_keys(m, now_ms))
}

/// Sum over the listed records of each TTL in whole seconds.
pub open spec fn spec_sum_ttl_secs(es: Seq<(u128, ConnectionInfo)>) -> int
    decreases es.len(),
{
    if es.len() == 0 {
        0
    } else {
        spec_sum_ttl_secs(es.drop_last()) + es.last().1.ttl / 1000
    }
}

/// The average TTL in whole seconds across the listed records, or the
/// default TTL in seconds when none are listed.
pub open spec fn spec_average_ttl_secs(es: Seq<(u128, ConnectionInfo)>, default_ttl_ms: u64) -> int {
    if es.len() == 0 {
        (default_ttl_ms as int) / 1000
    } else {
        spec_sum_ttl_secs(es) / es.len() as int
    }
}

impl TtlController {
    /// The configured starting TTL, in milliseconds.
    pub closed spec fn spec_default_ttl(&self) -> u64 {
        self.default_ttl
    }

    /// The configured TTL ceiling, in milliseconds.
    pub closed spec fn spec_max_ttl(&self) -> u64 {
        self.max_ttl
    }

    /// The configured sweep period, in milliseconds.
    pub closed spec fn spec_cleanup_interval(&self) -> u64 {
        self.cleanup_interval
    }

    /// How many records were ever created.
    pub closed spec fn spec_total(&self) -> u64 {
        self.total_connections
    }

    /// How many records were ever evicted, by sweep or by force.
    pub closed spec fn spec_expired_count(&self) -> u64 {
        self.expired_connections
    }

    /// Registry well-formedness: the policy bounds are ordered, every
    /// record sits under its own address with a TTL inside the bounds, and
    /// the created counter is exactly the live records plus the evicted ones.
    pub open spec fn wf(&self) -> bool {
        &&& self@.dom().finite()
        &&& self.spec_default_ttl() <= self.spec_max_ttl()
        &&& (forall|k: u128|
            self@.contains_key(k) ==> (#[trigger] self@[k]).ip == k
                && self.spec_default_ttl() <= self@[k].ttl && self@[k].ttl
                <= self.spec_max_ttl())
        &&& self.spec_total() == self@.dom().len() + self.spec_expired_count()
    }

    /// The two policy knobs never move after construction.
    pub open spec fn same_policy(pre: Self, post: Self) -> bool {
        &&& post.spec_default_ttl() == pre.spec_default_ttl()
        &&& post.spec_max_ttl() == pre.spec_max_ttl()
        &&& post.spec_cleanup_interval() == pre.spec_cleanup_interval()
    }

    /// Nothing observable moved: same records, same counters, same policy.
    pub open spec fn unchanged(pre: Self, post: Self) -> bool {
        &&& Self::same_policy(pre, post)
        &&& post.spec_total() == pre.spec_total()
        &&& post.spec_expired_count() == pre.spec_expired_count()
        &&& post@ == pre@
    }

    /// Builds an empty registry. Durations are milliseconds; the default
    /// TTL must not exceed the maximum.
    pub fn new(default_ttl_ms: u64, max_ttl_ms: u64, cleanup_interval_ms: u64) -> (r: Self)
        requires
            default_ttl_ms <= max_ttl_ms,
        ensures
            r.wf(),
            r@ == no_records(),
            r.spec_default_ttl() == default_ttl_ms,
            r.spec_max_ttl() == max_ttl_ms,
            r.spec_cleanup_interval() == cleanup_interval_ms,
            r.spec_total() == 0,
            r.spec_expired_count() == 0,
    {
        let r = TtlController {
            connections: dm_new(),
            default_ttl: default_ttl_ms,
            max_ttl: max_ttl_ms,
            cleanup_interval: cleanup_interval_ms,
            total_connections: 0,
            expired_connections: 0,
        };
        proof {
            assert(r@.dom() =~= Set::empty());
        }
        r
    }

    /// The adaptive TTL decision for `ip` at `now_ms`; reads the current
    /// record and always lands inside the configured bounds.
    pub fn calculate_adaptive_ttl(&self, ip: u128, now_ms: u64) -> (r: u64)
        requires
            self.wf(),
        ensures
            r == spec_adaptive_ttl(self@, ip, now_ms, self.spec_default_ttl(), self.spec_max_ttl()),
            self.spec_default_ttl() <= r <= self.spec_max_ttl(),
    {
        if let Some(existing) = dm_get(&self.connections, ip) {
            if existing.request_count > ADAPTIVE_REQUEST_THRESHOLD && !existing.is_expired(now_ms) {
                let half = self.default_ttl / 2;
                if half <= self.max_ttl - self.default_ttl {
                    return self.default_ttl + half;
                }
            }
        }
        self.default_ttl
    }

    /// What registration at `now_ms` under identity `id` does: a known
    /// address keeps its record's identity and creation time, marks
    /// activity and renegotiates its TTL; an unknown address gets a fresh
    /// record under `id` and bumps the created counter. The returned value
    /// is the record's identity either way.
    pub open spec fn register_step(
        pre: Self,
        post: Self,
        ip: u128,
        id: u128,
        now_ms: u64,
        r: u128,
    ) -> bool {
        let ttl = spec_adaptive_ttl(pre@, ip, now_ms, pre.spec_default_ttl(), pre.spec_max_ttl());
        &&& Self::same_policy(pre, post)
        &&& post.spec_expired_count() == pre.spec_expired_count()
        &&& if pre@.contains_key(ip) {
            &&& post@ == pre@.insert(
                ip,
                ConnectionInfo {
                    last_activity: now_ms,
                    request_count: spec_inc(pre@[ip].request_count),
                    ttl,
                    ..pre@[ip]
                },
            )
            &&& r == pre@[ip].id
            &&& post.spec_total() == pre.spec_total()
        } else {
            &&& post@ == pre@.insert(ip, ConnectionInfo::spec_new(ip, ttl, id, now_ms))
            &&& r == id
            &&& post.spec_total() == pre.spec_total() + 1
        }
    }

    /// Insert-or-update for one address, at an explicit instant and under
    /// an explicit identity for the fresh-record case.
    pub fn register_connection_at(&mut self, ip: u128, id: u128, now_ms: u64) -> (r: u128)
        requires
            old(self).wf(),
            old(self).spec_total() < u64::MAX,
        ensures
            final(self).wf(),
            Self::register_step(*old(self), *final(self), ip, id, now_ms, r),
    {
        let ttl = self.calculate_adaptive_ttl(ip, now_ms);
        match dm_get(&self.connections, ip) {
            Some(existing) => {
                let mut updated = existing;
                updated.update_activity(now_ms);
                updated.ttl = ttl;
                dm_insert(&mut self.connections, ip, updated);
                existing.id
            },
            None => {
                let record = ConnectionInfo::new_at(ip, ttl, id, now_ms);
                dm_insert(&mut self.connections, ip, record);
                self.total_connections = self.total_connections + 1;
                id
            },
        }
    }

    /// Insert-or-update for one address, at the present wall-clock instant
    /// and under a freshly drawn identity.
    pub fn register_connection(&mut self, ip: u128) -> (r: u128)
        requires
            old(self).wf(),
            old(self).spec_total() < u64::MAX,
        ensures
            final(self).wf(),
            exists|id: u128, now_ms: u64|
                Self::register_step(*old(self), *final(self), ip, id, now_ms, r),
            final(self)@.contains_key(ip),
            old(self)@.contains_key(ip) ==> r == old(self)@[ip].id && final(self).spec_total()
                == old(self).spec_total(),
            !old(self)@.contains_key(ip) ==> r == final(self)@[ip].id && final(self).spec_total()
                == old(self).spec_total() + 1,
    {
        let id = fresh_id();
        let now_ms = now_millis();
        let r = self.register_connection_at(ip, id, now_ms);
        proof {
            assert(Self::register_step(*old(self), *self, ip, id, now_ms, r));
        }
        r
    }

    /// What touching an address at `now_ms` does: a known address marks
    /// activity and reports true; an unknown one leaves the registry
    /// untouched and reports false.
    pub open spec fn touch_step(pre: Self, post: Self, ip: u128, now_ms: u64, r: bool) -> bool {
        &&& r == pre@.contains_key(ip)
        &&& if pre@.contains_key(ip) {
            &&& Self::same_policy(pre, post)
            &&& post.spec_total() == pre.spec_total()
            &&& post.spec_expired_count() == pre.spec_expired_count()
            &&& post@ == pre@.insert(
                ip,
                ConnectionInfo {
                    last_activity: now_ms,
                    request_count: spec_inc(pre@[ip].request_count),
                    ..pre@[ip]
                },
            )
        } else {
            Self::unchanged(pre, post)
        }
    }

    /// Marks activity on an existing record, at an explicit instant.
    pub fn update_connection_activity_at(&mut self, ip: u128, now_ms: u64) -> (r: bool)
        requires
            old(self).wf(),
        ensures
            final(self).wf(),
            Self::touch_step(*old(self), *final(self), ip, now_ms, r),
    {
        match dm_get(&self.connections, ip) {
            Some(existing) => {
                let mut updated = existing;
                updated.update_activity(now_ms);
                dm_insert(&mut self.connections, ip, updated);
                true
            },
            None => false,
        }
    }

    /// Marks activity on an existing record, at the present wall-clock
    /// instant.
    pub fn update_connection_activity(&mut self, ip: u128) -> (r: bool)
        requires
            old(self).wf(),
        ensures
            final(self).wf(),
            exists|now_ms: u64| Self::touch_step(*old(self), *final(self), ip, now_ms, r),
            r == old(self)@.contains_key(ip),
    {
        let now_ms = now_millis();
        let r = self.update_connection_activity_at(ip, now_ms);
        proof {
            assert(Self::touch_step(*old(self), *self, ip, now_ms, r));
        }
        r
    }

    /// A copy of the record for `ip`, if one is held.
    pub fn get_connection_info(&self, ip: u128) -> (r: Option<ConnectionInfo>)
        ensures
            r == (if self@.contains_key(ip) {
                Some(self@[ip])
            } else {
                None
            }),
    {
        dm_get(&self.connections, ip)
    }

    /// Derived statistics: the active count is the current size, the
    /// created and evicted counters are reported as they stand, and the
    /// average TTL (whole seconds) is taken across some enumeration of the
    /// live records, falling back to the default TTL when there are none.
    pub fn get_stats(&self) -> (r: TtlStats)
        requires
            self.wf(),
        ensures
            r.active_connections as nat == self@.dom().len(),
            r.total_connections == self.spec_total(),
            r.expired_connections == self.spec_expired_count(),
            exists|es: Seq<(u128, ConnectionInfo)>|
                is_enumeration_of(es, self@) && r.average_ttl_secs == spec_average_ttl_secs(
                    es,
                    self.spec_default_ttl(),
                ),
            self@.dom().len() == 0 ==> r.average_ttl_secs == self.spec_default_ttl() / 1000,
    {
        let entries = dm_entries(&self.connections);
        let n = entries.len();
        let mut sum: u128 = 0;
        let mut i: usize = 0;
        while i < n
            invariant
                i <= n,
                n == entries@.len(),
                is_enumeration_of(entries@, self@),
                sum == spec_sum_ttl_secs(entries@.take(i as int)),
                sum <= (i as int) * 0x80000000000000,
            decreases n - i,
        {
            let t: u64 = entries[i].1.ttl / 1000;
            proof {
                assert(entries@.take(i + 1).drop_last() =~= entries@.take(i as int));
                assert((entries@[i as int].1.ttl as int) / 1000 < 0x80000000000000)
                    by (nonlinear_arith)
                    requires
                        entries@[i as int].1.ttl <= u64::MAX,
                ;
            }
            sum = sum + t as u128;
            i = i + 1;
        }
        proof {
            assert(entries@.take(n as int) =~= entries@);
        }
        let average_ttl_secs: u64 = if n == 0 {
            self.default_ttl / 1000
        } else {
            proof {
                assert((sum as int) / (n as int) <= 0x80000000000000) by (nonlinear_arith)
                    requires
                        0 < n,
                        sum as int <= (n as int) * 0x80000000000000,
                ;
            }
            (sum / (n as u128)) as u64
        };
        TtlStats {
            active_connections: n,
            total_connections: self.total_connections,
            expired_connections: self.expired_connections,
            average_ttl_secs,
        }
    }

    /// An enumeration of the registry: one pair per live record, copied
    /// out entry by entry; no order is promised.
    pub fn get_connections_snapshot(&self) -> (r: Vec<(u128, ConnectionInfo)>)
        ensures
            is_enumeration_of(r@, self@),
    {
        dm_entries(&self.connections)
    }

    /// What a sweep at `now_ms` does: exactly the expired records leave,
    /// each counted once as evicted; every live record stays untouched.
    pub open spec fn sweep_step(pre: Self, post: Self, now_ms: u64, evicted: u64) -> bool {
        &&& Self::same_policy(pre, post)
        &&& post@ == swept(pre@, now_ms)
        &&& evicted == pre@.dom().len() - post@.dom().len()
        &&& post.spec_expired_count() == pre.spec_expired_count() + evicted
        &&& post.spec_total() == pre.spec_total()
    }

    /// Evicts every record expired at `now_ms`. Each entry's expiry is
    /// re-checked at the moment of removal, so a record refreshed after the
    /// scan began is not evicted.
    pub fn cleanup_expired_connections_at(&mut self, now_ms: u64) -> (evicted: u64)
        requires
            old(self).wf(),
        ensures
            final(self).wf(),
            Self::sweep_step(*old(self), *final(self), now_ms, evicted),
    {
        let ghost m0 = old(self)@;
        let entries = dm_entries(&self.connections);
        let n = entries.len();
        let mut evicted: u64 = 0;
        let mut i: usize = 0;
        while i < n
            invariant
                i <= n,
                n == entries@.len(),
                m0 == old(self)@,
                old(self).wf(),
                is_enumeration_of(entries@, m0),
                Self::same_policy(*old(self), *self),
                self.spec_total() == old(self).spec_total(),
                self.spec_expired_count() == old(self).spec_expired_count() + evicted,
                evicted == m0.dom().len() - self@.dom().len(),
                self@.dom().finite(),
                forall|k: u128|
                    #[trigger] self@.contains_key(k) ==> m0.contains_key(k) && self@[k] == m0[k],
                forall|k: u128|
                    m0.contains_key(k) && !m0[k].spec_expired(now_ms)
                        ==> #[trigger] self@.contains_key(k),
                forall|j: int|
                    0 <= j < i && m0[(#[trigger] entries@[j]).0].spec_expired(now_ms)
                        ==> !self@.contains_key(entries@[j].0),
            decreases n - i,
        {
            let key = entries[i].0;
            let ghost before = self@;
            let removed = dm_remove_if_expired(&mut self.connections, key, now_ms);
            if removed.is_some() {
                proof {
                    assert(before.dom().remove(key).len() == before.dom().len() - 1);
                    assert(old(self).spec_total() == m0.dom().len()
                        + old(self).spec_expired_count());
                }
                evicted = evicted + 1;
                self.expired_connections = self.expired_connections + 1;
            }
            i = i + 1;
        }
        proof {
            assert forall|k: u128| m0.contains_key(k)
                && m0[k].spec_expired(now_ms) implies !self@.contains_key(k) by {
                let j = choose|j: int| 0 <= j < entries@.len() && (#[trigger] entries@[j]).0 == k;
                assert(m0[entries@[j].0].spec_expired(now_ms));
            }
            assert(self@ =~= swept(m0, now_ms));
        }
        evicted
    }

    /// Evicts every record expired at the present wall-clock instant.
    pub fn cleanup_expired_connections(&mut self) -> (evicted: u64)
        requires
            old(self).wf(),
        ensures
            final(self).wf(),
            exists|now_ms: u64| Self::sweep_step(*old(self), *final(self), now_ms, evicted),
            forall|k: u128|
                #[trigger] final(self)@.contains_key(k) ==> old(self)@.contains_key(k)
                    && final(self)@[k] == old(self)@[k],
    {
        let now_ms = now_millis();
        let evicted = self.cleanup_expired_connections_at(now_ms);
        proof {
            assert(Self::sweep_step(*old(self), *self, now_ms, evicted));
        }
        evicted
    }

    /// Unconditional removal, bypassing the TTL: reports whether an entry
    /// existed, and counts it as expired when it did.
    pub fn force_cleanup_connection(&mut self, ip: u128) -> (r: bool)
        requires
            old(self).wf(),
        ensures
            final(self).wf(),
            r == old(self)@.contains_key(ip),
            Self::same_policy(*old(self), *final(self)),
            final(self).spec_total() == old(self).spec_total(),
            r ==> final(self)@ == old(self)@.remove(ip) && final(self).spec_expired_count() == old(
                self,
            ).spec_expired_count() + 1,
            !r ==> Self::unchanged(*old(self), *final(self)),
    {
        match dm_remove(&mut self.connections, ip) {
            Some(_) => {
                proof {
                    assert(old(self)@.dom().remove(ip).len() == old(self)@.dom().len() - 1);
                }
                self.expired_connections = self.expired_connections + 1;
                true
            },
            None => false,
        }
    }
}

/// Registering an address and then touching it, at nondecreasing instants
/// and while its request count is below the top of its range, grows the
/// count by exactly one and never decreases the last-activity timestamp.
pub proof fn lemma_register_then_touch(
    s0: TtlController,
    s1: TtlController,
    s2: TtlController,
    ip: u128,
    id: u128,
    t1: u64,
    t2: u64,
    rid: u128,
    touched: bool,
)
    requires
        TtlController::register_step(s0, s1, ip, id, t1, rid),
        TtlController::touch_step(s1, s2, ip, t2, touched),
        t1 <= t2,
        s1@[ip].request_count < u64::MAX,
    ensures
        touched,
        s2@.contains_key(ip),
        s2@[ip].request_count == s1@[ip].request_count + 1,
        s2@[ip].last_activity >= s1@[ip].last_activity,
{
}

/// A sweep is idempotent: a second sweep at the same instant, with no
/// intervening activity, evicts nothing, and the evicted counter is not
/// double-bumped.
pub proof fn lemma_sweep_idempotent(
    s0: TtlController,
    s1: TtlController,
    s2: TtlController,
    now_ms: u64,
    e1: u64,
    e2: u64,
)
    requires
        TtlController::sweep_step(s0, s1, now_ms, e1),
        TtlController::sweep_step(s1, s2, now_ms, e2),
    ensures
        e2 == 0,
        s2@ == s1@,
        s2.spec_expired_count() == s1.spec_expired_count(),
{
    assert(swept(s1@, now_ms) =~= s1@);
}

/// Relies on uuid::Uuid::new_v4: a randomly drawn 128-bit identity;
/// nothing is promised of its value.
#[verifier::external_body]
fn fresh_id() -> (r: u128) {
    uuid::Uuid::new_v4().as_u128()
}

/// Relies on std::time::SystemTime::now: milliseconds of wall clock since
/// the epoch; nothing is promised of the value.
#[verifier::external_body]
fn now_millis() -> (t: u64) {
    let since_epoch = std::time::SystemTime::now()
        .duration_since(std::time::UNIX_EPOCH)
        .unwrap_or_default();
    since_epoch.as_millis() as u64
}

} // verus!


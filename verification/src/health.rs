//! Health reporting: a handler that remembers when the process came up
//! and derives a status snapshot on demand. Rendering the snapshot (JSON,
//! HTTP) is the process edge's business.

use vstd::prelude::*;

verus! {

/// One health snapshot, as the health endpoint reports it.
#[derive(Debug, Clone)]
pub struct HealthStatus {
    pub status: String,
    pub timestamp: u64,
    pub uptime_seconds: u64,
    pub version: String,
}

/// Remembers the process start (epoch seconds) and the served version.
pub struct HealthHandler {
    start_time: u64,
    version: String,
}

/// Relies on std::time::SystemTime::now: seconds of wall clock since the
/// epoch; nothing is promised of the value.
#[verifier::external_body]
fn now_secs() -> (t: u64) {
    let since_epoch = std::time::SystemTime::now()
        .duration_since(std::time::UNIX_EPOCH)
        .unwrap_or_default();
    since_epoch.as_secs()
}

impl HealthHandler {
    /// The recorded start instant, epoch seconds.
    pub closed spec fn spec_start_time(&self) -> u64 {
        self.start_time
    }

    /// The version string served in every snapshot.
    pub closed spec fn spec_version(&self) -> Seq<char> {
        self.version@
    }

    /// A handler that started at the given instant.
    pub fn new_at(version: String, start_secs: u64) -> (r: Self)
        ensures
            r.spec_start_time() == start_secs,
            r.spec_version() == version@,
    {
        HealthHandler { start_time: start_secs, version }
    }

    /// A handler that starts now.
    pub fn new(version: String) -> (r: Self)
        ensures
            r.spec_version() == version@,
    {
        let start = now_secs();
        Self::new_at(version, start)
    }

    /// Uptime at `now_secs`, clamped at zero.
    pub open spec fn spec_uptime(&self, now_secs: u64) -> u64 {
        if now_secs > self.spec_start_time() {
            (now_secs - self.spec_start_time()) as u64
        } else {
            0
        }
    }

    /// The snapshot at a given instant: always healthy when the process
    /// answers at all, stamped with the instant, the uptime since start,
    /// and the served version.
    pub fn health_status_at(&self, now_secs: u64) -> (r: HealthStatus)
        ensures
            r.status@ == "healthy"@,
            r.timestamp == now_secs,
            r.uptime_seconds == self.spec_uptime(now_secs),
            r.version@ == self.spec_version(),
    {
        let uptime_seconds: u64 = if now_secs > self.start_time {
            now_secs - self.start_time
        } else {
            0
        };
        HealthStatus {
            status: "healthy".to_string(),
            timestamp: now_secs,
            uptime_seconds,
            version: self.version.clone(),
        }
    }

    /// The snapshot now.
    pub fn health_status(&self) -> (r: HealthStatus)
        ensures
            r.status@ == "healthy"@,
            r.uptime_seconds == self.spec_uptime(r.timestamp),
            r.version@ == self.spec_version(),
    {
        let now = now_secs();
        self.health_status_at(now)
    }
}

} // verus!

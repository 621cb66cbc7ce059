//! The certificate lifecycle manager: loads PEM certificate and key
//! material into an immutable TLS server configuration, derives an
//! expiry snapshot from the certificate file's modification time, and
//! supports atomic hot reload.
//!
//! File reading stays at the process edge: the functions here take the
//! PEM bytes (or `None` when a file could not be read) and the file's
//! modification time as plain values. Expiry is approximated as the
//! modification time plus a fixed validity window; this is deliberately
//! not X.509 parsing.

use vstd::prelude::*;

verus! {

/// The fixed validity window assumed for a certificate file: 90 days.
pub const CERT_VALIDITY_SECS: u64 = 90 * 24 * 60 * 60;

/// Seconds in a day, for the days-until-expiry figure.
pub const SECS_PER_DAY: u64 = 24 * 60 * 60;

/// Why loading certificate material failed.
#[derive(Debug, Clone, Copy, PartialEq, Eq, Structural)]
pub enum SslError {
    /// A PEM section could not be decoded.
    Io,
    /// The TLS library rejected the chain/key pair.
    Tls,
    /// The certificate file could not be read.
    CertificateNotFound,
    /// The private key file could not be read.
    PrivateKeyNotFound,
    /// The certificate file held no certificate section.
    NoCertificatesFound,
    /// The key file held no PKCS#8 private key section.
    NoPrivateKeysFound,
}

/// The cached expiry snapshot, recomputed on each inspection.
#[derive(Debug, Clone, Copy, PartialEq, Eq, Structural)]
pub struct CertificateInfo {
    /// Taken from the certificate file's modification time (epoch seconds).
    pub not_before: u64,
    /// `not_before` plus the fixed validity window (epoch seconds).
    pub not_after: u64,
    /// Whether the inspection instant lies past `not_after`.
    pub is_expired: bool,
    /// Whole days left until `not_after`, or -1 once expired.
    pub days_until_expiry: i64,
}

/// Where the manager stands: loading succeeded so far, or the last reload
/// failed and the previous material is still being served. (Before a
/// successful initial load no manager value exists at all.)
#[derive(Debug, Clone, Copy, PartialEq, Eq, Structural)]
pub enum ManagerState {
    Loaded,
    Degraded,
}

/// How urgently an inspection result should be reported.
#[derive(Debug, Clone, Copy, PartialEq, Eq, Structural)]
pub enum ExpirySeverity {
    Informational,
    Warning,
    Critical,
}

/// Declares rustls::ServerConfig, the immutable TLS server configuration;
/// opaque here, carried whole behind a shared handle.
#[verifier::external_type_specification]
#[verifier::external_body]
pub struct ExServerConfig(rustls::ServerConfig);

/// The DER contents of the CERTIFICATE sections of a PEM input, or the
/// error case: a function of the bytes alone.
pub uninterp spec fn pem_certs_of(pem: Seq<u8>) -> Option<Seq<Seq<u8>>>;

/// The DER contents of the PKCS#8 private-key sections of a PEM input, or
/// the error case: a function of the bytes alone.
pub uninterp spec fn pem_pkcs8_keys_of(pem: Seq<u8>) -> Option<Seq<Seq<u8>>>;

/// Whether the TLS library accepts the chain/key pair: a function of the
/// two arguments alone.
pub uninterp spec fn tls_build_ok(chain: Seq<Seq<u8>>, key: Seq<u8>) -> bool;

/// Relies on rustls_pemfile::certs: extracts the DER bytes of every
/// CERTIFICATE section, deterministically from the input bytes; an input
/// with no such section gives an empty list, not an error.
#[verifier::external_body]
fn parse_certs(pem: &Vec<u8>) -> (r: Option<Vec<Vec<u8>>>)
    ensures
        (match r {
            Some(v) => pem_certs_of(pem@) == Some(v.deep_view()),
            None => pem_certs_of(pem@) is None,
        }),
        pem@.len() == 0 ==> (match r {
            Some(v) => v@.len() == 0,
            None => false,
        }),
{
    rustls_pemfile::certs(&mut pem.as_slice()).ok()
}

/// Relies on rustls_pemfile::pkcs8_private_keys: extracts the DER bytes of
/// every PKCS#8 private-key section, deterministically from the input
/// bytes; an input with no such section gives an empty list, not an error.
#[verifier::external_body]
fn parse_pkcs8_keys(pem: &Vec<u8>) -> (r: Option<Vec<Vec<u8>>>)
    ensures
        (match r {
            Some(v) => pem_pkcs8_keys_of(pem@) == Some(v.deep_view()),
            None => pem_pkcs8_keys_of(pem@) is None,
        }),
        pem@.len() == 0 ==> (match r {
            Some(v) => v@.len() == 0,
            None => false,
        }),
{
    rustls_pemfile::pkcs8_private_keys(&mut pem.as_slice()).ok()
}

/// Relies on rustls::ServerConfig::builder with safe defaults, no client
/// authentication, and with_single_cert: builds the immutable server
/// configuration from the chain and the key; whether the pair is accepted
/// is a function of the two arguments alone.
#[verifier::external_body]
fn build_server_config(chain: Vec<Vec<u8>>, key: Vec<u8>) -> (r: Option<rustls::ServerConfig>)
    ensures
        r is Some <==> tls_build_ok(chain.deep_view(), key@),
{
    let certs: Vec<rustls::Certificate> = chain.into_iter().map(rustls::Certificate).collect();
    rustls::ServerConfig::builder()
        .with_safe_defaults()
        .with_no_client_auth()
        .with_single_cert(certs, rustls::PrivateKey(key))
        .ok()
}

/// Relies on std::sync::Arc::clone: the returned handle is the very same
/// configuration value.
#[verifier::external_body]
fn arc_clone(c: &std::sync::Arc<rustls::ServerConfig>) -> (r: std::sync::Arc<rustls::ServerConfig>)
    ensures
        r == *c,
{
    std::sync::Arc::clone(c)
}

/// What loading decides, given the two optional PEM inputs (`None` stands
/// for an unreadable file): the error it fails with, or `None` for
/// success. Errors are reported in the order the material is examined:
/// certificate file, chain contents, key file, key contents, then the TLS
/// build itself.
pub open spec fn spec_load_error(cert_pem: Option<Seq<u8>>, key_pem: Option<Seq<u8>>) -> Option<
    SslError,
> {
    if cert_pem is None {
        Some(SslError::CertificateNotFound)
    } else if pem_certs_of(cert_pem.unwrap()) is None {
        Some(SslError::Io)
    } else if pem_certs_of(cert_pem.unwrap()).unwrap().len() == 0 {
        Some(SslError::NoCertificatesFound)
    } else if key_pem is None {
        Some(SslError::PrivateKeyNotFound)
    } else if pem_pkcs8_keys_of(key_pem.unwrap()) is None {
        Some(SslError::Io)
    } else if pem_pkcs8_keys_of(key_pem.unwrap()).unwrap().len() == 0 {
        Some(SslError::NoPrivateKeysFound)
    } else if !tls_build_ok(
        pem_certs_of(cert_pem.unwrap()).unwrap(),
        pem_pkcs8_keys_of(key_pem.unwrap()).unwrap()[0],
    ) {
        Some(SslError::Tls)
    } else {
        None
    }
}

/// The certificate/key pair a successful load installs: the whole DER
/// chain and the first private key.
pub open spec fn spec_loaded_source(cert_pem: Seq<u8>, key_pem: Seq<u8>) -> (Seq<Seq<u8>>, Seq<
    u8,
>) {
    (pem_certs_of(cert_pem).unwrap(), pem_pkcs8_keys_of(key_pem).unwrap()[0])
}

/// Builds the TLS server configuration from PEM bytes: the chain must be
/// non-empty, the first PKCS#8 key is used, and the TLS library must
/// accept the pair. Returns exactly the error `spec_load_error` names.
pub fn load_certificates(cert_pem: &Option<Vec<u8>>, key_pem: &Option<Vec<u8>>) -> (r: Result<
    std::sync::Arc<rustls::ServerConfig>,
    SslError,
>)
    ensures
        r is Ok <==> spec_load_error(cert_pem.deep_view(), key_pem.deep_view()) is None,
        r matches Err(e) ==> spec_load_error(cert_pem.deep_view(), key_pem.deep_view()) == Some(e),
{
    let cert_bytes = match cert_pem {
        Some(b) => b,
        None => {
            return Err(SslError::CertificateNotFound);
        },
    };
    proof {
        assert(cert_bytes.deep_view() =~= cert_bytes@);
        assert(cert_pem.deep_view() == Some(cert_bytes@));
    }
    let chain = match parse_certs(cert_bytes) {
        Some(c) => c,
        None => {
            return Err(SslError::Io);
        },
    };
    if chain.len() == 0 {
        proof {
            assert(pem_certs_of(cert_bytes@).unwrap().len() == 0);
        }
        return Err(SslError::NoCertificatesFound);
    }
    let key_bytes = match key_pem {
        Some(b) => b,
        None => {
            return Err(SslError::PrivateKeyNotFound);
        },
    };
    proof {
        assert(key_bytes.deep_view() =~= key_bytes@);
        assert(key_pem.deep_view() == Some(key_bytes@));
    }
    let mut keys = match parse_pkcs8_keys(key_bytes) {
        Some(k) => k,
        None => {
            return Err(SslError::Io);
        },
    };
    if keys.len() == 0 {
        proof {
            assert(pem_pkcs8_keys_of(key_bytes@).unwrap().len() == 0);
        }
        return Err(SslError::NoPrivateKeysFound);
    }
    let ghost keys0 = keys.deep_view();
    let key = keys.remove(0);
    proof {
        assert(key.deep_view() =~= key@);
        assert(key@ == keys0[0]);
        assert(chain.deep_view() == pem_certs_of(cert_bytes@).unwrap());
    }
    match build_server_config(chain, key) {
        Some(cfg) => Ok(std::sync::Arc::new(cfg)),
        None => Err(SslError::Tls),
    }
}

/// Whether an inspection input is usable: the modification time is there
/// and the validity window's end still fits the clock's range.
pub open spec fn spec_tick_ok(modified_secs: Option<u64>) -> bool {
    modified_secs matches Some(s) && s + CERT_VALIDITY_SECS <= u64::MAX
}

/// The expiry snapshot derived from a modification time at an inspection
/// instant: the window starts at the modification time, ends 90 days
/// later, and the days figure counts whole days left, or -1 once expired.
pub open spec fn spec_certificate_info(modified_secs: u64, now_secs: u64) -> CertificateInfo {
    CertificateInfo {
        not_before: modified_secs,
        not_after: (modified_secs + CERT_VALIDITY_SECS) as u64,
        is_expired: now_secs > modified_secs + CERT_VALIDITY_SECS,
        days_until_expiry: if now_secs <= modified_secs + CERT_VALIDITY_SECS {
            ((modified_secs + CERT_VALIDITY_SECS - now_secs) / (SECS_PER_DAY as int)) as i64
        } else {
            (-1) as i64
        },
    }
}

/// Derives the expiry snapshot from the certificate file's modification
/// time, both in epoch seconds.
pub fn extract_certificate_info(modified_secs: u64, now_secs: u64) -> (r: CertificateInfo)
    requires
        modified_secs + CERT_VALIDITY_SECS <= u64::MAX,
    ensures
        r == spec_certificate_info(modified_secs, now_secs),
{
    let not_after = modified_secs + CERT_VALIDITY_SECS;
    let is_expired = now_secs > not_after;
    let days_until_expiry: i64 = if now_secs <= not_after {
        let days = (not_after - now_secs) / SECS_PER_DAY;
        proof {
            assert(((not_after - now_secs) as int) / (SECS_PER_DAY as int) < 0x8000000000000000)
                by (nonlinear_arith)
                requires
                    not_after - now_secs <= u64::MAX,
            ;
        }
        days as i64
    } else {
        -1
    };
    CertificateInfo { not_before: modified_secs, not_after, is_expired, days_until_expiry }
}

/// The certificate lifecycle manager: the active TLS configuration (one
/// immutable value, swapped wholesale), the material's file locations,
/// the latest expiry snapshot, and the state marker.
pub struct SslManager {
    config: std::sync::Arc<rustls::ServerConfig>,
    cert_path: String,
    key_path: String,
    cert_info: Option<CertificateInfo>,
    check_interval: u64,
    state: ManagerState,
    tls_source: Ghost<(Seq<Seq<u8>>, Seq<u8>)>,
}

impl SslManager {
    /// The active configuration handle.
    pub closed spec fn spec_config(&self) -> std::sync::Arc<rustls::ServerConfig> {
        self.config
    }

    /// The certificate/key pair (DER chain, key) the active configuration
    /// was built from.
    pub closed spec fn spec_source(&self) -> (Seq<Seq<u8>>, Seq<u8>) {
        self.tls_source@
    }

    /// The cached expiry snapshot.
    pub closed spec fn spec_cert_info(&self) -> Option<CertificateInfo> {
        self.cert_info
    }

    /// Loaded, or Degraded after a failed reload.
    pub closed spec fn spec_state(&self) -> ManagerState {
        self.state
    }

    /// The inspection cadence, in seconds.
    pub closed spec fn spec_check_interval(&self) -> u64 {
        self.check_interval
    }

    /// The certificate file location handed in at construction.
    pub closed spec fn spec_cert_path(&self) -> Seq<char> {
        self.cert_path@
    }

    /// The key file location handed in at construction.
    pub closed spec fn spec_key_path(&self) -> Seq<char> {
        self.key_path@
    }

    /// Builds the manager from the PEM bytes of the two files (`None` for
    /// an unreadable file), the certificate file's modification time, and
    /// the construction instant, both in epoch seconds. Fails with exactly
    /// the load error, or with the PEM decode error when the modification
    /// time is unusable: without valid material no manager exists.
    pub fn new(
        cert_path: String,
        key_path: String,
        check_interval_secs: u64,
        cert_pem: &Option<Vec<u8>>,
        key_pem: &Option<Vec<u8>>,
        cert_modified_secs: Option<u64>,
        now_secs: u64,
    ) -> (r: Result<Self, SslError>)
        ensures
            r is Ok <==> spec_load_error(cert_pem.deep_view(), key_pem.deep_view()) is None
                && spec_tick_ok(cert_modified_secs),
            r matches Err(e) ==> (match spec_load_error(cert_pem.deep_view(), key_pem.deep_view()) {
                Some(le) => e == le,
                None => e == SslError::Io,
            }),
            r matches Ok(m) ==> m.spec_state() == ManagerState::Loaded && m.spec_source()
                == spec_loaded_source(cert_pem.deep_view().unwrap(), key_pem.deep_view().unwrap())
                && m.spec_cert_info() == Some(
                spec_certificate_info(cert_modified_secs.unwrap(), now_secs),
            ) && m.spec_check_interval() == check_interval_secs && m.spec_cert_path() == cert_path@
                && m.spec_key_path() == key_path@,
    {
        let config = match load_certificates(cert_pem, key_pem) {
            Ok(c) => c,
            Err(e) => {
                return Err(e);
            },
        };
        let modified = match cert_modified_secs {
            Some(m) => m,
            None => {
                return Err(SslError::Io);
            },
        };
        if modified > u64::MAX - CERT_VALIDITY_SECS {
            return Err(SslError::Io);
        }
        let info = extract_certificate_info(modified, now_secs);
        Ok(
            SslManager {
                config,
                cert_path,
                key_path,
                cert_info: Some(info),
                check_interval: check_interval_secs,
                state: ManagerState::Loaded,
                tls_source: Ghost(
                    spec_loaded_source(
                        cert_pem.deep_view().unwrap(),
                        key_pem.deep_view().unwrap(),
                    ),
                ),
            },
        )
    }

    /// A handle to the active configuration: the very value the manager
    /// holds, complete and unmixed.
    pub fn get_config(&self) -> (r: std::sync::Arc<rustls::ServerConfig>)
        ensures
            r == self.spec_config(),
    {
        arc_clone(&self.config)
    }

    /// Where the manager stands: Loaded, or Degraded after a failed reload.
    pub fn state(&self) -> (r: ManagerState)
        ensures
            r == self.spec_state(),
    {
        self.state
    }

    /// The latest expiry snapshot, if an inspection has produced one.
    pub fn get_certificate_info(&self) -> (r: Option<CertificateInfo>)
        ensures
            r == self.spec_cert_info(),
    {
        self.cert_info
    }

    /// What one monitoring tick does: with a usable modification time it
    /// recomputes and caches the expiry snapshot and reports its severity;
    /// otherwise the failure is swallowed and nothing changes. The active
    /// configuration, state and source are never touched by a tick.
    pub open spec fn tick_step(
        pre: Self,
        post: Self,
        modified_secs: Option<u64>,
        now_secs: u64,
        r: Option<ExpirySeverity>,
    ) -> bool {
        &&& post.spec_config() == pre.spec_config()
        &&& post.spec_source() == pre.spec_source()
        &&& post.spec_state() == pre.spec_state()
        &&& post.spec_check_interval() == pre.spec_check_interval()
        &&& post.spec_cert_path() == pre.spec_cert_path()
        &&& post.spec_key_path() == pre.spec_key_path()
        &&& if spec_tick_ok(modified_secs) {
            let info = spec_certificate_info(modified_secs.unwrap(), now_secs);
            post.spec_cert_info() == Some(info) && r == Some(spec_expiry_severity(info))
        } else {
            post.spec_cert_info() == pre.spec_cert_info() && r is None
        }
    }

    /// One tick of the monitoring loop: re-derives the expiry snapshot
    /// from the certificate file's modification time and caches it. A
    /// failed inspection (no usable modification time) changes nothing,
    /// so the loop can simply go on.
    pub fn monitor_tick(&mut self, modified_secs: Option<u64>, now_secs: u64) -> (r: Option<
        ExpirySeverity,
    >)
        ensures
            Self::tick_step(*old(self), *final(self), modified_secs, now_secs, r),
    {
        let modified = match modified_secs {
            Some(m) => m,
            None => {
                return None;
            },
        };
        if modified > u64::MAX - CERT_VALIDITY_SECS {
            return None;
        }
        let info = extract_certificate_info(modified, now_secs);
        self.cert_info = Some(info);
        Some(expiry_severity(&info))
    }

    /// What a reload does: on success the new material replaces the old
    /// wholesale and the manager is Loaded; on any failure the previous
    /// configuration, source and snapshot are all retained and the manager
    /// is Degraded. Nothing else moves.
    pub open spec fn reload_step(
        pre: Self,
        post: Self,
        cert_pem: Option<Seq<u8>>,
        key_pem: Option<Seq<u8>>,
        modified_secs: Option<u64>,
        now_secs: u64,
        r: Result<(), SslError>,
    ) -> bool {
        &&& post.spec_check_interval() == pre.spec_check_interval()
        &&& post.spec_cert_path() == pre.spec_cert_path()
        &&& post.spec_key_path() == pre.spec_key_path()
        &&& if spec_load_error(cert_pem, key_pem) is None && spec_tick_ok(modified_secs) {
            &&& r is Ok
            &&& post.spec_state() == ManagerState::Loaded
            &&& post.spec_source() == spec_loaded_source(cert_pem.unwrap(), key_pem.unwrap())
            &&& post.spec_cert_info() == Some(
                spec_certificate_info(modified_secs.unwrap(), now_secs),
            )
        } else {
            &&& (r matches Err(e) && e == (match spec_load_error(cert_pem, key_pem) {
                Some(le) => le,
                None => SslError::Io,
            }))
            &&& post.spec_config() == pre.spec_config()
            &&& post.spec_source() == pre.spec_source()
            &&& post.spec_cert_info() == pre.spec_cert_info()
            &&& post.spec_state() == ManagerState::Degraded
        }
    }

    /// Hot reload: rebuilds the configuration from the given PEM bytes
    /// and, only if everything succeeded, atomically replaces the active
    /// handle; handshakes already using the previous handle are
    /// unaffected. On failure the previous material stays active and the
    /// manager marks itself Degraded.
    pub fn reload_certificates(
        &mut self,
        cert_pem: &Option<Vec<u8>>,
        key_pem: &Option<Vec<u8>>,
        cert_modified_secs: Option<u64>,
        now_secs: u64,
    ) -> (r: Result<(), SslError>)
        ensures
            Self::reload_step(
                *old(self),
                *final(self),
                cert_pem.deep_view(),
                key_pem.deep_view(),
                cert_modified_secs,
                now_secs,
                r,
            ),
    {
        let new_config = match load_certificates(cert_pem, key_pem) {
            Ok(c) => c,
            Err(e) => {
                self.state = ManagerState::Degraded;
                return Err(e);
            },
        };
        let modified = match cert_modified_secs {
            Some(m) => m,
            None => {
                self.state = ManagerState::Degraded;
                return Err(SslError::Io);
            },
        };
        if modified > u64::MAX - CERT_VALIDITY_SECS {
            self.state = ManagerState::Degraded;
            return Err(SslError::Io);
        }
        let info = extract_certificate_info(modified, now_secs);
        self.config = new_config;
        self.cert_info = Some(info);
        self.state = ManagerState::Loaded;
        proof {
            self.tls_source@ = spec_loaded_source(
                cert_pem.deep_view().unwrap(),
                key_pem.deep_view().unwrap(),
            );
        }
        Ok(())
    }
}

/// Reload atomicity: whatever a reload did, the material behind the
/// active configuration is one matched certificate/key pair — the pair
/// from before the call, or the pair the call installed — never the old
/// chain with the new key nor the reverse; and after a failed reload the
/// active handle itself is exactly the old one.
pub proof fn lemma_reload_atomic(
    pre: SslManager,
    post: SslManager,
    cert_pem: Option<Seq<u8>>,
    key_pem: Option<Seq<u8>>,
    modified_secs: Option<u64>,
    now_secs: u64,
    r: Result<(), SslError>,
)
    requires
        SslManager::reload_step(pre, post, cert_pem, key_pem, modified_secs, now_secs, r),
    ensures
        post.spec_source() == pre.spec_source() || (cert_pem is Some && key_pem is Some
            && post.spec_source() == spec_loaded_source(cert_pem.unwrap(), key_pem.unwrap())),
        r is Err ==> post.spec_config() == pre.spec_config() && post.spec_source()
            == pre.spec_source(),
{
}

/// How urgently a snapshot should be reported: critical once expired,
/// a warning within the last seven days, informational otherwise.
pub open spec fn spec_expiry_severity(info: CertificateInfo) -> ExpirySeverity {
    if info.is_expired {
        ExpirySeverity::Critical
    } else if info.days_until_expiry <= 7 {
        ExpirySeverity::Warning
    } else {
        ExpirySeverity::Informational
    }
}

/// Classifies a snapshot for the monitoring log.
pub fn expiry_severity(info: &CertificateInfo) -> (r: ExpirySeverity)
    ensures
        r == spec_expiry_severity(*info),
{
    if info.is_expired {
        ExpirySeverity::Critical
    } else if info.days_until_expiry <= 7 {
        ExpirySeverity::Warning
    } else {
        ExpirySeverity::Informational
    }
}

} // verus!

//! A TLS-terminating server core: a connection registry with adaptive
//! time-to-live eviction, and a certificate lifecycle manager with
//! atomic hot reload.
//!
//! The registry (`ttl_controller`) tracks one record per client address
//! in a concurrent map, extends busy connections' TTLs within a
//! configured bound, and sweeps expired records periodically. The
//! certificate manager (`ssl_manager`) turns PEM material into an
//! immutable TLS configuration, approximates expiry from the file's
//! modification time, and swaps the active configuration wholesale on
//! reload. Reading files, serving HTTP and running the periodic loops
//! belong to the process around this library; everything here works on
//! plain values and carries a contract.

pub mod config;
pub mod health;
pub mod ssl_manager;
pub mod ttl_controller;

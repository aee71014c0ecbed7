//! Startup configuration for one session.
//!
//! The configuration is validated before the pipeline starts and is
//! handed through, uninterpreted, to the node collaborator: a bind
//! address and port, an optional join target (address and port must be
//! supplied together or not at all), three maintenance intervals and a
//! successor count. Addresses are carried as the 32-bit value of the
//! dotted-quad form.

use vstd::prelude::*;

verus! {

/// The node an instance joins: an existing ring member's address (the
/// 32 bits of its dotted-quad form) and port.
pub struct JoinTarget {
    pub address: u32,
    pub port: u16,
}

/// A validated session configuration, forwarded whole to the node
/// collaborator; this pipeline does not interpret it further.
pub struct SessionConfig {
    /// The 32 bits of the bind address's dotted-quad form.
    pub address: u32,
    /// The bind port.
    pub port: u16,
    /// Where to join an existing ring, if anywhere.
    pub join: Option<JoinTarget>,
    /// Milliseconds between stabilization rounds.
    pub stabilize_interval_ms: u64,
    /// Milliseconds between finger-table refreshes.
    pub fix_fingers_interval_ms: u64,
    /// Milliseconds between predecessor liveness checks.
    pub check_predecessor_interval_ms: u64,
    /// Size of the successor list.
    pub successor_count: u32,
}

/// Why a configuration was rejected.
pub enum ConfigError {
    /// A join address was supplied without a join port.
    JoinAddressWithoutPort,
    /// A join port was supplied without a join address.
    JoinPortWithoutAddress,
}

/// Validates the startup arguments and builds the session configuration.
///
/// The join address and join port must be supplied together or not at
/// all: exactly one of them present is rejected, with the error naming
/// the one that is missing; both present or both absent is accepted, and
/// every field is carried through unchanged.
pub fn build_config(
    address: u32,
    port: u16,
    join_address: Option<u32>,
    join_port: Option<u16>,
    stabilize_interval_ms: u64,
    fix_fingers_interval_ms: u64,
    check_predecessor_interval_ms: u64,
    successor_count: u32,
) -> (r: Result<SessionConfig, ConfigError>)
    ensures
        r is Ok <==> (join_address is Some <==> join_port is Some),
        r matches Ok(c) ==> (c.address == address && c.port == port && c.stabilize_interval_ms
            == stabilize_interval_ms && c.fix_fingers_interval_ms == fix_fingers_interval_ms
            && c.check_predecessor_interval_ms == check_predecessor_interval_ms
            && c.successor_count == successor_count),
        r matches Ok(c) ==> ((join_address is Some && join_port is Some) <==> c.join is Some),
        r matches Ok(c) ==> (c.join matches Some(j) ==> join_address == Some(j.address) && join_port
            == Some(j.port)),
        r matches Err(e) ==> (e is JoinAddressWithoutPort <==> (join_address is Some
            && join_port is None)),
        r matches Err(e) ==> (e is JoinPortWithoutAddress <==> (join_address is None
            && join_port is Some)),
{
    let join: Option<JoinTarget> = match (join_address, join_port) {
        (Some(a), Some(p)) => Some(JoinTarget { address: a, port: p }),
        (Some(_), None) => {
            return Err(ConfigError::JoinAddressWithoutPort);
        },
        (None, Some(_)) => {
            return Err(ConfigError::JoinPortWithoutAddress);
        },
        (None, None) => None,
    };
    Ok(
        SessionConfig {
            address,
            port,
            join,
            stabilize_interval_ms,
            fix_fingers_interval_ms,
            check_predecessor_interval_ms,
            successor_count,
        },
    )
}

} // verus!

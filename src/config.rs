//! Run configuration: the RPC endpoint and the fixed parameters of a
//! registration attempt.
use vstd::prelude::*;

verus! {

/// Endpoint used when no RPC URL was configured.
pub const DEFAULT_RPC_URL: &'static str = "http://ethereum:8545";

/// Length of the validity window of an attestation, in seconds.
pub const EXPIRY_WINDOW_SECS: u64 = 3600;

/// Gas ceiling of the registration transaction.
pub const REGISTRATION_GAS_LIMIT: u64 = 500000;

/// The endpoint that a run talks to: the configured one, else the default.
pub open spec fn rpc_url_spec(configured: Option<Seq<char>>) -> Seq<char> {
    match configured {
        Some(url) => url,
        None => DEFAULT_RPC_URL@,
    }
}

/// Picks the RPC endpoint: the configured URL when there is one, otherwise
/// the local development node.
pub fn get_rpc_url<'a>(configured: Option<&'a str>) -> (r: &'a str)
    ensures
        r@ == rpc_url_spec(
            match configured {
                Some(u) => Some(u@),
                None => None,
            },
        ),
{
    match configured {
        Some(url) => url,
        None => DEFAULT_RPC_URL,
    }
}

/// The expiry of an attestation made at `now`: `now + window`, where that is
/// a non-negative timestamp that fits in 64 bits.
pub open spec fn expiry_spec(now: int, window: int) -> Option<int> {
    if 0 <= now && now + window <= u64::MAX {
        Some(now + window)
    } else {
        None
    }
}

/// Expiry timestamp of an attestation created at Unix time `now`, or `None`
/// when `now` lies before the epoch or the sum does not fit in 64 bits.
pub fn expiry_after(now: i64, window: u64) -> (r: Option<u64>)
    ensures
        r matches Some(e) ==> expiry_spec(now as int, window as int) == Some(e as int),
        r is None ==> expiry_spec(now as int, window as int) is None,
{
    if now < 0 {
        return None;
    }
    let start: u64 = now as u64;
    start.checked_add(window)
}

} // verus!

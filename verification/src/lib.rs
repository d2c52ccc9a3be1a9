//! Cogs is a non-blocking client for a remote authenticated HTTP API: it
//! exchanges a long-lived subscription key for a short-lived bearer token,
//! caches that token, and dispatches typed requests that carry the token as
//! authorization.
//!
//! The token lifecycle (cache check, single-flight renewal, failure
//! recovery) and the request dispatch around it are written as verified
//! state machines over plain values; a driver performs the actual network
//! calls and feeds their outcomes back in as events.

pub mod chunk;
pub mod cogs;
pub mod engine;
pub mod http;

pub use cogs::Cog;

use vstd::prelude::*;

verus! {

/// Renders a package version triple as `major.minor.patch`.
///
/// Returns the empty string when any component is missing.
pub fn version(major: Option<String>, minor: Option<String>, patch: Option<String>) -> (v: String)
    ensures
        major matches Some(ma) ==> minor matches Some(mi) ==> patch matches Some(pa) ==> v@
            == ma@ + "."@ + mi@ + "."@ + pa@,
        major is None || minor is None || patch is None ==> v@ == Seq::<char>::empty(),
{
    match (major, minor, patch) {
        (Some(ma), Some(mi), Some(pa)) => {
            let mut v = ma;
            v.append(".");
            v.append(mi.as_str());
            v.append(".");
            v.append(pa.as_str());
            proof {
                assert(v@ =~= ma@ + "."@ + mi@ + "."@ + pa@);
            }
            v
        },
        _ => String::new(),
    }
}

} // verus!

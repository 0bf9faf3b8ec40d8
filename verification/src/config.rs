//! Configuration resolution. The connection URL, the database name and the
//! collection name are three independent opaque strings; each is resolved by
//! the same rule: an explicit environment-style override wins, and a
//! compiled-in default is the fallback.

use vstd::prelude::*;

verus! {

/// Resolves one configuration value: the override, where one is present,
/// else the compiled-in default.
pub fn resolve_config(override_val: Option<String>, default_val: String) -> (r: String)
    ensures
        override_val matches Some(v) ==> r == v,
        override_val is None ==> r == default_val,
{
    match override_val {
        Some(v) => v,
        None => default_val,
    }
}

} // verus!

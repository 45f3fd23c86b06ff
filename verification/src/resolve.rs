//! Build-environment directory resolution: the pure decision table behind
//! picking the cache and package-root directories.  The caller supplies
//! what only the running system knows — whether it is root, and where the
//! user's cache directory lives — and performs any directory creation
//! itself.

use vstd::prelude::*;

use crate::paths::{joined, path_join};

verus! {

/// Why a directory could not be resolved.
#[derive(Debug, Clone, Copy, PartialEq, Eq, Structural)]
pub enum EnvError {
    /// No user cache directory is known (no cache location in the
    /// environment).
    UserCache,
}

/// The cache directory: an explicit override wins, root uses the system
/// cache, anyone else hangs off the user cache directory — and without one
/// the resolution fails.
pub fn resolve_cache_dir(is_root: bool, custom: Option<String>, user_cache: Option<String>) -> (r:
    Result<String, EnvError>)
    ensures
        match r {
            Ok(dir) => {
                &&& custom is Some ==> dir@ == custom.unwrap()@
                &&& (custom is None && is_root) ==> dir@ == "/var/cache/boulder"@
                &&& (custom is None && !is_root) ==> user_cache is Some && dir@ == joined(
                    user_cache.unwrap()@,
                    "boulder"@,
                )
            },
            Err(e) => {
                &&& custom is None
                &&& !is_root
                &&& user_cache is None
                &&& e == EnvError::UserCache
            },
        },
        r is Err <==> (custom is None && !is_root && user_cache is None),
{
    if let Some(dir) = custom {
        Ok(dir)
    } else if is_root {
        Ok(String::from_str("/var/cache/boulder"))
    } else if let Some(cache) = user_cache {
        Ok(path_join(cache.as_str(), "boulder"))
    } else {
        Err(EnvError::UserCache)
    }
}

/// The package root: an explicit override wins, root operates on the live
/// system, anyone else works in a sandbox under the user cache directory.
pub fn resolve_moss_root(is_root: bool, custom: Option<String>, user_cache: Option<String>) -> (r:
    Result<String, EnvError>)
    ensures
        match r {
            Ok(dir) => {
                &&& custom is Some ==> dir@ == custom.unwrap()@
                &&& (custom is None && is_root) ==> dir@ == "/"@
                &&& (custom is None && !is_root) ==> user_cache is Some && dir@ == joined(
                    user_cache.unwrap()@,
                    "moss"@,
                )
            },
            Err(e) => {
                &&& custom is None
                &&& !is_root
                &&& user_cache is None
                &&& e == EnvError::UserCache
            },
        },
        r is Err <==> (custom is None && !is_root && user_cache is None),
{
    if let Some(dir) = custom {
        Ok(dir)
    } else if is_root {
        Ok(String::from_str("/"))
    } else if let Some(cache) = user_cache {
        Ok(path_join(cache.as_str(), "moss"))
    } else {
        Err(EnvError::UserCache)
    }
}

} // verus!

//! The strategy for Windows: each directory has its own variables, and the
//! configuration and cache directories are never derived from the home one.
use vstd::prelude::*;
use crate::environment::{EnvVar, Environment};
use crate::{resolve, DirKind, Platform};

verus! {

/// `USERPROFILE`, when it is set and non-empty.
pub fn home_dir(env: &Environment) -> (r: Option<String>)
    ensures
        r.deep_view() == resolve(Platform::Windows, DirKind::Home, env@),
{
    env.lookup(EnvVar::UserProfile)
}

/// `XDG_CONFIG_HOME`, else `APPDATA`.
pub fn config_dir(env: &Environment) -> (r: Option<String>)
    ensures
        r.deep_view() == resolve(Platform::Windows, DirKind::Config, env@),
{
    match env.lookup(EnvVar::XdgConfigHome) {
        Some(val) => Some(val),
        None => env.lookup(EnvVar::AppData),
    }
}

/// `XDG_CACHE_HOME`, else `LOCALAPPDATA`.
pub fn cache_dir(env: &Environment) -> (r: Option<String>)
    ensures
        r.deep_view() == resolve(Platform::Windows, DirKind::Cache, env@),
{
    match env.lookup(EnvVar::XdgCacheHome) {
        Some(val) => Some(val),
        None => env.lookup(EnvVar::LocalAppData),
    }
}

} // verus!

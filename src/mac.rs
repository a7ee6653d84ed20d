//! The strategy for Apple's desktop platform: the XDG variables, else `HOME/Library`.
use vstd::prelude::*;
use crate::environment::{EnvVar, Environment};
use crate::posix;
use crate::{resolve, DirKind, Platform};

verus! {

/// `HOME`, when it is set and non-empty.
pub fn home_dir(env: &Environment) -> (r: Option<String>)
    ensures
        r.deep_view() == resolve(Platform::Mac, DirKind::Home, env@),
{
    posix::home_dir(env)
}

/// `XDG_CONFIG_HOME`, else `HOME/Library/Application Support`.
pub fn config_dir(env: &Environment) -> (r: Option<String>)
    ensures
        r.deep_view() == resolve(Platform::Mac, DirKind::Config, env@),
{
    posix::var_or_home_subdir(env, EnvVar::XdgConfigHome, "Library/Application Support")
}

/// `XDG_CACHE_HOME`, else `HOME/Library/Caches`.
pub fn cache_dir(env: &Environment) -> (r: Option<String>)
    ensures
        r.deep_view() == resolve(Platform::Mac, DirKind::Cache, env@),
{
    posix::var_or_home_subdir(env, EnvVar::XdgCacheHome, "Library/Caches")
}

} // verus!

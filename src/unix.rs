//! The strategy for generic POSIX: the XDG variables, else directories under `HOME`.
use vstd::prelude::*;
use crate::environment::{EnvVar, Environment};
use crate::posix;
use crate::{resolve, DirKind, Platform};

verus! {

/// `HOME`, when it is set and non-empty.
pub fn home_dir(env: &Environment) -> (r: Option<String>)
    ensures
        r.deep_view() == resolve(Platform::Unix, DirKind::Home, env@),
{
    posix::home_dir(env)
}

/// `XDG_CONFIG_HOME`, else `HOME/.config`.
pub fn config_dir(env: &Environment) -> (r: Option<String>)
    ensures
        r.deep_view() == resolve(Platform::Unix, DirKind::Config, env@),
{
    posix::var_or_home_subdir(env, EnvVar::XdgConfigHome, ".config")
}

/// `XDG_CACHE_HOME`, else `HOME/.cache`.
pub fn cache_dir(env: &Environment) -> (r: Option<String>)
    ensures
        r.deep_view() == resolve(Platform::Unix, DirKind::Cache, env@),
{
    posix::var_or_home_subdir(env, EnvVar::XdgCacheHome, ".cache")
}

} // verus!

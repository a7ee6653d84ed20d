//! Resolution of the user's home, configuration and cache directories from
//! environment variables, with one strategy per platform family.
use vstd::prelude::*;

pub mod environment;
pub mod path;
pub mod posix;
pub mod unix;
pub mod mac;
pub mod windows;
pub mod other;
pub mod laws;

use crate::environment::{present, EnvVar, Environment};
use crate::path::joined;

verus! {

/// The platform family whose conventions decide where the directories are.
#[derive(Clone, Copy, Debug, PartialEq, Eq, Structural)]
pub enum Platform {
    /// POSIX with the XDG fallbacks under the home directory.
    Unix,
    /// POSIX with Apple's fallbacks under `Library`.
    Mac,
    Windows,
    /// A target without a known convention: nothing is ever found.
    Other,
}

/// The directories the library locates.
#[derive(Clone, Copy, Debug, PartialEq, Eq, Structural)]
pub enum DirKind {
    Home,
    Config,
    Cache,
}

/// The first of two candidates that was found.
pub open spec fn either(a: Option<Seq<char>>, b: Option<Seq<char>>) -> Option<Seq<char>> {
    if a is Some {
        a
    } else {
        b
    }
}

/// `rel` under a home directory, when there is one.
pub open spec fn under(home: Option<Seq<char>>, rel: Seq<char>) -> Option<Seq<char>> {
    match home {
        Some(h) => Some(joined(h, rel)),
        None => None,
    }
}

/// Where a POSIX flavour puts a directory when its XDG variable is not found.
pub open spec fn home_subdir(p: Platform, k: DirKind) -> Seq<char> {
    match (p, k) {
        (Platform::Mac, DirKind::Config) => "Library/Application Support"@,
        (Platform::Mac, _) => "Library/Caches"@,
        (_, DirKind::Config) => ".config"@,
        _ => ".cache"@,
    }
}

/// The directory of kind `k` on platform `p` in the environment `env`.
pub open spec fn resolve(p: Platform, k: DirKind, env: Map<EnvVar, Seq<char>>) -> Option<Seq<char>> {
    match p {
        Platform::Other => None,
        Platform::Windows => match k {
            DirKind::Home => present(env, EnvVar::UserProfile),
            DirKind::Config => either(
                present(env, EnvVar::XdgConfigHome),
                present(env, EnvVar::AppData),
            ),
            DirKind::Cache => either(
                present(env, EnvVar::XdgCacheHome),
                present(env, EnvVar::LocalAppData),
            ),
        },
        _ => match k {
            DirKind::Home => present(env, EnvVar::Home),
            DirKind::Config => either(
                present(env, EnvVar::XdgConfigHome),
                under(present(env, EnvVar::Home), home_subdir(p, k)),
            ),
            DirKind::Cache => either(
                present(env, EnvVar::XdgCacheHome),
                under(present(env, EnvVar::Home), home_subdir(p, k)),
            ),
        },
    }
}

/// The home directory in `env`: `HOME` on POSIX, `USERPROFILE` on Windows.
pub fn user_home_dir(platform: Platform, env: &Environment) -> (r: Option<String>)
    ensures
        r.deep_view() == resolve(platform, DirKind::Home, env@),
{
    match platform {
        Platform::Unix => unix::home_dir(env),
        Platform::Mac => mac::home_dir(env),
        Platform::Windows => windows::home_dir(env),
        Platform::Other => other::home_dir(env),
    }
}

/// The configuration directory in `env`: `XDG_CONFIG_HOME` if it is
/// found, else `HOME/.config` on POSIX (`HOME/Library/Application Support`
/// on Apple's platform) and `APPDATA` on Windows.
pub fn user_config_dir(platform: Platform, env: &Environment) -> (r: Option<String>)
    ensures
        r.deep_view() == resolve(platform, DirKind::Config, env@),
{
    match platform {
        Platform::Unix => unix::config_dir(env),
        Platform::Mac => mac::config_dir(env),
        Platform::Windows => windows::config_dir(env),
        Platform::Other => other::config_dir(env),
    }
}

/// The cache directory in `env`: `XDG_CACHE_HOME` if it is found,
/// else `HOME/.cache` on POSIX (`HOME/Library/Caches` on Apple's platform)
/// and `LOCALAPPDATA` on Windows.
pub fn user_cache_dir(platform: Platform, env: &Environment) -> (r: Option<String>)
    ensures
        r.deep_view() == resolve(platform, DirKind::Cache, env@),
{
    match platform {
        Platform::Unix => unix::cache_dir(env),
        Platform::Mac => mac::cache_dir(env),
        Platform::Windows => windows::cache_dir(env),
        Platform::Other => other::cache_dir(env),
    }
}

} // verus!

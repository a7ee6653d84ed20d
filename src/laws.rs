//! Properties of the resolution rules that hold on every environment.
use vstd::prelude::*;
use crate::environment::{present, EnvVar};
use crate::path::joined;
use crate::{resolve, DirKind, Platform};

verus! {

/// The variables consulted for a directory, in order of precedence. A POSIX
/// fallback under the home directory counts as consulting `HOME`.
pub open spec fn sources(p: Platform, k: DirKind) -> Seq<EnvVar> {
    match (p, k) {
        (Platform::Other, _) => seq![],
        (Platform::Windows, DirKind::Home) => seq![EnvVar::UserProfile],
        (Platform::Windows, DirKind::Config) => seq![EnvVar::XdgConfigHome, EnvVar::AppData],
        (Platform::Windows, DirKind::Cache) => seq![EnvVar::XdgCacheHome, EnvVar::LocalAppData],
        (_, DirKind::Home) => seq![EnvVar::Home],
        (_, DirKind::Config) => seq![EnvVar::XdgConfigHome, EnvVar::Home],
        (_, DirKind::Cache) => seq![EnvVar::XdgCacheHome, EnvVar::Home],
    }
}

/// A directory is found exactly when one of the variables consulted for it
/// is set to a non-empty value; in particular it is absent when all of them
/// are unset.
pub proof fn lemma_found_iff_some_source(p: Platform, k: DirKind, env: Map<EnvVar, Seq<char>>)
    ensures
        resolve(p, k, env) is Some <==> exists|i: int|
            0 <= i < sources(p, k).len() && #[trigger] present(env, sources(p, k)[i]) is Some,
{
    let s = sources(p, k);
    if resolve(p, k, env) is Some {
        if present(env, s[0]) is None {
            assert(present(env, s[1]) is Some);
        } else {
            assert(present(env, s[0]) is Some);
        }
    }
}

/// A variable set to the empty string counts as unset: no resolution tells
/// the two apart.
pub proof fn lemma_empty_is_unset(
    p: Platform,
    k: DirKind,
    env: Map<EnvVar, Seq<char>>,
    var: EnvVar,
)
    ensures
        resolve(p, k, env.insert(var, Seq::empty())) == resolve(p, k, env.remove(var)),
{
    let e1 = env.insert(var, Seq::empty());
    let e2 = env.remove(var);
    assert forall|v: EnvVar| present(e1, v) == present(e2, v) by {
        if v == var {
            assert(e1[v].len() == 0);
        }
    }
}

/// A found directory is never the empty string.
pub proof fn lemma_found_is_non_empty(p: Platform, k: DirKind, env: Map<EnvVar, Seq<char>>)
    ensures
        resolve(p, k, env) matches Some(d) ==> d.len() > 0,
{
}

/// When the first variable consulted is set to a non-empty value, the
/// directory is that value exactly.
pub proof fn lemma_primary_wins(p: Platform, k: DirKind, env: Map<EnvVar, Seq<char>>)
    requires
        p != Platform::Other,
        present(env, sources(p, k)[0]) is Some,
    ensures
        resolve(p, k, env) == Some(env[sources(p, k)[0]]),
{
}

/// On POSIX, without its XDG variable a directory lies under `HOME`:
/// `.config` or `.cache` generically, `Library/Application Support` or
/// `Library/Caches` on Apple's platform.
pub proof fn lemma_posix_home_fallback(p: Platform, k: DirKind, env: Map<EnvVar, Seq<char>>)
    requires
        p == Platform::Unix || p == Platform::Mac,
        k != DirKind::Home,
        present(env, sources(p, k)[0]) is None,
        present(env, EnvVar::Home) is Some,
    ensures
        resolve(p, k, env) == Some(
            joined(
                env[EnvVar::Home],
                match (p, k) {
                    (Platform::Unix, DirKind::Config) => ".config"@,
                    (Platform::Unix, _) => ".cache"@,
                    (_, DirKind::Config) => "Library/Application Support"@,
                    _ => "Library/Caches"@,
                },
            ),
        ),
{
}

/// On Windows the configuration and cache directories never come from the
/// home directory: `USERPROFILE` has no bearing on them, and without their
/// own variables they are absent.
pub proof fn lemma_windows_no_home_chain(k: DirKind, env: Map<EnvVar, Seq<char>>, profile: Seq<char>)
    requires
        k != DirKind::Home,
    ensures
        resolve(Platform::Windows, k, env.insert(EnvVar::UserProfile, profile)) == resolve(
            Platform::Windows,
            k,
            env,
        ),
        present(env, sources(Platform::Windows, k)[0]) is None && present(
            env,
            sources(Platform::Windows, k)[1],
        ) is None ==> resolve(Platform::Windows, k, env) is None,
{
    let e = env.insert(EnvVar::UserProfile, profile);
    assert forall|v: EnvVar| v != EnvVar::UserProfile implies present(e, v) == present(env, v) by {}
}

/// A resolution reads nothing but the variables consulted for it, so two
/// environments that agree on those give the same result; in particular two
/// resolutions on an unchanged environment agree.
pub proof fn lemma_depends_only_on_sources(
    p: Platform,
    k: DirKind,
    e1: Map<EnvVar, Seq<char>>,
    e2: Map<EnvVar, Seq<char>>,
)
    requires
        forall|i: int|
            0 <= i < sources(p, k).len() ==> present(e1, #[trigger] sources(p, k)[i]) == present(
                e2,
                sources(p, k)[i],
            ),
    ensures
        resolve(p, k, e1) == resolve(p, k, e2),
{
    let s = sources(p, k);
    if s.len() > 0 {
        assert(present(e1, s[0]) == present(e2, s[0]));
    }
    if s.len() > 1 {
        assert(present(e1, s[1]) == present(e2, s[1]));
    }
}

/// On a target without a known convention nothing is ever found.
pub proof fn lemma_other_finds_nothing(k: DirKind, env: Map<EnvVar, Seq<char>>)
    ensures
        resolve(Platform::Other, k, env) is None,
{
}

} // verus!

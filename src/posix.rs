//! The rules that both POSIX flavours share.
use vstd::prelude::*;
use crate::environment::{present, EnvVar, Environment};
use crate::path::join;
use crate::{either, under};

verus! {

/// `HOME`, when it is set and non-empty.
pub fn home_dir(env: &Environment) -> (r: Option<String>)
    ensures
        r.deep_view() == present(env@, EnvVar::Home),
{
    env.lookup(EnvVar::Home)
}

/// The value of `var` when it is found; otherwise `rel` under the home directory.
pub fn var_or_home_subdir(env: &Environment, var: EnvVar, rel: &str) -> (r: Option<String>)
    ensures
        r.deep_view() == either(present(env@, var), under(present(env@, EnvVar::Home), rel@)),
{
    match env.lookup(var) {
        Some(val) => Some(val),
        None => match home_dir(env) {
            Some(home) => Some(join(home.as_str(), rel)),
            None => None,
        },
    }
}

} // verus!

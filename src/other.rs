//! The strategy for targets without a known convention: nothing is found.
use vstd::prelude::*;
use crate::environment::Environment;
use crate::{resolve, DirKind, Platform};

verus! {

pub fn home_dir(env: &Environment) -> (r: Option<String>)
    ensures
        r.deep_view() == resolve(Platform::Other, DirKind::Home, env@),
{
    None
}

pub fn config_dir(env: &Environment) -> (r: Option<String>)
    ensures
        r.deep_view() == resolve(Platform::Other, DirKind::Config, env@),
{
    None
}

pub fn cache_dir(env: &Environment) -> (r: Option<String>)
    ensures
        r.deep_view() == resolve(Platform::Other, DirKind::Cache, env@),
{
    None
}

} // verus!

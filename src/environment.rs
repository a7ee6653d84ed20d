//! The environment variables the resolver consults, as an explicit value.
use vstd::prelude::*;

verus! {

/// An environment variable that some strategy reads.
#[derive(Clone, Copy, Debug, PartialEq, Eq, Structural)]
pub enum EnvVar {
    Home,
    UserProfile,
    XdgConfigHome,
    XdgCacheHome,
    AppData,
    LocalAppData,
}

/// The variable's name as the host environment spells it.
pub open spec fn var_name(var: EnvVar) -> Seq<char> {
    match var {
        EnvVar::Home => "HOME"@,
        EnvVar::UserProfile => "USERPROFILE"@,
        EnvVar::XdgConfigHome => "XDG_CONFIG_HOME"@,
        EnvVar::XdgCacheHome => "XDG_CACHE_HOME"@,
        EnvVar::AppData => "APPDATA"@,
        EnvVar::LocalAppData => "LOCALAPPDATA"@,
    }
}

/// The value a variable contributes to a resolution: its value when it is
/// set to a non-empty string, and nothing when it is unset or empty.
pub open spec fn present(env: Map<EnvVar, Seq<char>>, var: EnvVar) -> Option<Seq<char>> {
    if env.contains_key(var) && env[var].len() > 0 {
        Some(env[var])
    } else {
        None
    }
}

impl EnvVar {
    /// Every variable, so that a caller can take a snapshot of all of them.
    pub fn all() -> (r: Vec<EnvVar>)
        ensures
            forall|v: EnvVar| r@.contains(v),
    {
        let r = vec![
            EnvVar::Home,
            EnvVar::UserProfile,
            EnvVar::XdgConfigHome,
            EnvVar::XdgCacheHome,
            EnvVar::AppData,
            EnvVar::LocalAppData,
        ];
        assert forall|v: EnvVar| r@.contains(v) by {
            match v {
                EnvVar::Home => assert(r@[0] == v),
                EnvVar::UserProfile => assert(r@[1] == v),
                EnvVar::XdgConfigHome => assert(r@[2] == v),
                EnvVar::XdgCacheHome => assert(r@[3] == v),
                EnvVar::AppData => assert(r@[4] == v),
                EnvVar::LocalAppData => assert(r@[5] == v),
            }
        }
        r
    }

    pub fn name(&self) -> (r: &'static str)
        ensures
            r@ == var_name(*self),
    {
        match self {
            EnvVar::Home => "HOME",
            EnvVar::UserProfile => "USERPROFILE",
            EnvVar::XdgConfigHome => "XDG_CONFIG_HOME",
            EnvVar::XdgCacheHome => "XDG_CACHE_HOME",
            EnvVar::AppData => "APPDATA",
            EnvVar::LocalAppData => "LOCALAPPDATA",
        }
    }
}

/// A snapshot of the variables of `EnvVar`: each one is unset or holds a string.
pub struct Environment {
    home: Option<String>,
    user_profile: Option<String>,
    xdg_config_home: Option<String>,
    xdg_cache_home: Option<String>,
    app_data: Option<String>,
    local_app_data: Option<String>,
}

impl Environment {
    pub closed spec fn slot(&self, var: EnvVar) -> Option<String> {
        match var {
            EnvVar::Home => self.home,
            EnvVar::UserProfile => self.user_profile,
            EnvVar::XdgConfigHome => self.xdg_config_home,
            EnvVar::XdgCacheHome => self.xdg_cache_home,
            EnvVar::AppData => self.app_data,
            EnvVar::LocalAppData => self.local_app_data,
        }
    }
}

impl View for Environment {
    type V = Map<EnvVar, Seq<char>>;

    /// The variables that are set, each with its value.
    closed spec fn view(&self) -> Map<EnvVar, Seq<char>> {
        Map::new(|v: EnvVar| self.slot(v) is Some, |v: EnvVar| self.slot(v)->0@)
    }
}

impl Environment {
    /// An environment in which no variable is set.
    pub fn new() -> (r: Environment)
        ensures
            r@ == Map::<EnvVar, Seq<char>>::empty(),
    {
        let r = Environment {
            home: None,
            user_profile: None,
            xdg_config_home: None,
            xdg_cache_home: None,
            app_data: None,
            local_app_data: None,
        };
        assert(r@ =~= Map::<EnvVar, Seq<char>>::empty());
        r
    }

    /// Sets `var` to `value`.
    pub fn set(&mut self, var: EnvVar, value: String)
        ensures
            final(self)@ == old(self)@.insert(var, value@),
    {
        self.put(var, Some(value));
        assert(self@ =~= old(self)@.insert(var, value@));
    }

    /// Unsets `var`.
    pub fn unset(&mut self, var: EnvVar)
        ensures
            final(self)@ == old(self)@.remove(var),
    {
        self.put(var, None);
        assert(self@ =~= old(self)@.remove(var));
    }

    fn put(&mut self, var: EnvVar, value: Option<String>)
        ensures
            final(self).slot(var) == value,
            forall|v: EnvVar| v != var ==> final(self).slot(v) == old(self).slot(v),
    {
        match var {
            EnvVar::Home => self.home = value,
            EnvVar::UserProfile => self.user_profile = value,
            EnvVar::XdgConfigHome => self.xdg_config_home = value,
            EnvVar::XdgCacheHome => self.xdg_cache_home = value,
            EnvVar::AppData => self.app_data = value,
            EnvVar::LocalAppData => self.local_app_data = value,
        }
    }

    /// The value of `var`, if it is set.
    pub fn get(&self, var: EnvVar) -> (r: Option<&String>)
        ensures
            r is Some <==> self@.contains_key(var),
            r is Some ==> r->0@ == self@[var],
    {
        match var {
            EnvVar::Home => self.home.as_ref(),
            EnvVar::UserProfile => self.user_profile.as_ref(),
            EnvVar::XdgConfigHome => self.xdg_config_home.as_ref(),
            EnvVar::XdgCacheHome => self.xdg_cache_home.as_ref(),
            EnvVar::AppData => self.app_data.as_ref(),
            EnvVar::LocalAppData => self.local_app_data.as_ref(),
        }
    }

    /// The value of `var` when it is set and non-empty; an empty value
    /// counts as unset.
    pub fn lookup(&self, var: EnvVar) -> (r: Option<String>)
        ensures
            r.deep_view() == present(self@, var),
    {
        match self.get(var) {
            Some(val) => {
                if val.as_str().is_empty() {
                    None
                } else {
                    Some(val.clone())
                }
            },
            None => None,
        }
    }
}

} // verus!

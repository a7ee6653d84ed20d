use user_dirs::environment::{EnvVar, Environment};
use user_dirs::path::join;
use user_dirs::{mac, other, unix, windows};
use user_dirs::{user_cache_dir, user_config_dir, user_home_dir, Platform};

fn env_of(pairs: &[(EnvVar, &str)]) -> Environment {
    let mut env = Environment::new();
    for (var, val) in pairs {
        env.set(*var, val.to_string());
    }
    env
}

fn some(s: &str) -> Option<String> {
    Some(s.to_string())
}

#[test]
fn env_home_test() {
    for (platform, var, temp_dir) in [
        (Platform::Unix, EnvVar::Home, "/tmp"),
        (Platform::Mac, EnvVar::Home, "/tmp"),
        (Platform::Windows, EnvVar::UserProfile, "C:\\temp"),
    ] {
        let mut env = env_of(&[(var, "/home/someone")]);
        assert_ne!(user_home_dir(platform, &env), None, "HOME/USERPROFILE is unset");
        assert_eq!(user_home_dir(platform, &env), some("/home/someone"));

        env.unset(var);
        assert_eq!(user_home_dir(platform, &env), None);

        env.set(var, String::new());
        assert_eq!(user_home_dir(platform, &env), None);

        env.set(var, temp_dir.to_string());
        assert_eq!(user_home_dir(platform, &env), some(temp_dir));
    }
}

#[test]
fn unset_primary_without_fallback_is_absent() {
    let env = Environment::new();
    for p in [Platform::Unix, Platform::Mac, Platform::Windows, Platform::Other] {
        assert_eq!(user_home_dir(p, &env), None);
        assert_eq!(user_config_dir(p, &env), None);
        assert_eq!(user_cache_dir(p, &env), None);
    }
    let env = env_of(&[(EnvVar::AppData, "C:\\Users\\u\\AppData\\Roaming")]);
    assert_eq!(user_config_dir(Platform::Windows, &env), some("C:\\Users\\u\\AppData\\Roaming"));
}

#[test]
fn empty_primary_counts_as_unset() {
    let env = env_of(&[(EnvVar::XdgConfigHome, ""), (EnvVar::Home, "/home/u")]);
    assert_eq!(user_config_dir(Platform::Unix, &env), some("/home/u/.config"));
    let env = env_of(&[(EnvVar::XdgCacheHome, ""), (EnvVar::LocalAppData, "")]);
    assert_eq!(user_cache_dir(Platform::Windows, &env), None);
    let env = env_of(&[(EnvVar::Home, "")]);
    assert_eq!(user_cache_dir(Platform::Mac, &env), None);
}

#[test]
fn primary_value_is_returned_verbatim() {
    let env = env_of(&[
        (EnvVar::XdgConfigHome, " /odd path/ "),
        (EnvVar::XdgCacheHome, "rel//cache/"),
        (EnvVar::Home, "/home/u"),
        (EnvVar::AppData, "C:\\other"),
    ]);
    for p in [Platform::Unix, Platform::Mac, Platform::Windows] {
        assert_eq!(user_config_dir(p, &env), some(" /odd path/ "));
        assert_eq!(user_cache_dir(p, &env), some("rel//cache/"));
    }
}

#[test]
fn posix_fallback_generic_and_apple() {
    let env = env_of(&[(EnvVar::Home, "/home/u")]);
    assert_eq!(user_config_dir(Platform::Unix, &env), some("/home/u/.config"));
    assert_eq!(user_cache_dir(Platform::Unix, &env), some("/home/u/.cache"));
    assert_eq!(
        user_config_dir(Platform::Mac, &env),
        some("/home/u/Library/Application Support")
    );
    assert_eq!(user_cache_dir(Platform::Mac, &env), some("/home/u/Library/Caches"));
}

#[test]
fn windows_fallback_does_not_use_profile() {
    let env = env_of(&[(EnvVar::UserProfile, "C:\\Users\\u")]);
    assert_eq!(user_config_dir(Platform::Windows, &env), None);
    assert_eq!(user_cache_dir(Platform::Windows, &env), None);
    assert_eq!(user_home_dir(Platform::Windows, &env), some("C:\\Users\\u"));
}

#[test]
fn repeated_calls_agree() {
    let env = env_of(&[(EnvVar::Home, "/home/u"), (EnvVar::XdgCacheHome, "/var/cache/u")]);
    for p in [Platform::Unix, Platform::Mac, Platform::Windows, Platform::Other] {
        assert_eq!(user_home_dir(p, &env), user_home_dir(p, &env));
        assert_eq!(user_config_dir(p, &env), user_config_dir(p, &env));
        assert_eq!(user_cache_dir(p, &env), user_cache_dir(p, &env));
    }
}

#[test]
fn posix_scenario_with_tmp_home() {
    let env = env_of(&[(EnvVar::Home, "/tmp")]);
    assert_eq!(user_home_dir(Platform::Unix, &env), some("/tmp"));
    assert_eq!(user_config_dir(Platform::Unix, &env), some("/tmp/.config"));
    assert_eq!(user_cache_dir(Platform::Unix, &env), some("/tmp/.cache"));
}

#[test]
fn windows_scenario_with_app_data() {
    let env = env_of(&[
        (EnvVar::UserProfile, "C:\\temp"),
        (EnvVar::AppData, "C:\\temp\\Roaming"),
    ]);
    assert_eq!(user_config_dir(Platform::Windows, &env), some("C:\\temp\\Roaming"));
}

#[test]
fn other_platform_finds_nothing() {
    let env = env_of(&[
        (EnvVar::Home, "/home/u"),
        (EnvVar::UserProfile, "C:\\Users\\u"),
        (EnvVar::XdgConfigHome, "/cfg"),
        (EnvVar::XdgCacheHome, "/cache"),
        (EnvVar::AppData, "C:\\a"),
        (EnvVar::LocalAppData, "C:\\l"),
    ]);
    assert_eq!(user_home_dir(Platform::Other, &env), None);
    assert_eq!(user_config_dir(Platform::Other, &env), None);
    assert_eq!(user_cache_dir(Platform::Other, &env), None);
    assert_eq!(other::home_dir(&env), None);
    assert_eq!(other::config_dir(&env), None);
    assert_eq!(other::cache_dir(&env), None);
}

#[test]
fn windows_cache_prefers_xdg_then_local_app_data() {
    let env = env_of(&[(EnvVar::LocalAppData, "C:\\local")]);
    assert_eq!(windows::cache_dir(&env), some("C:\\local"));
    let env = env_of(&[(EnvVar::LocalAppData, "C:\\local"), (EnvVar::XdgCacheHome, "D:\\xdg")]);
    assert_eq!(windows::cache_dir(&env), some("D:\\xdg"));
    assert_eq!(windows::config_dir(&env), None);
    assert_eq!(windows::home_dir(&env), None);
}

#[test]
fn home_with_trailing_separator_gets_no_second_one() {
    let env = env_of(&[(EnvVar::Home, "/home/u/")]);
    assert_eq!(unix::config_dir(&env), some("/home/u/.config"));
    assert_eq!(mac::cache_dir(&env), some("/home/u/Library/Caches"));
    assert_eq!(mac::home_dir(&env), some("/home/u/"));
    assert_eq!(unix::home_dir(&env), some("/home/u/"));
}

#[test]
fn join_places_one_separator() {
    assert_eq!(join("/a", "b"), "/a/b");
    assert_eq!(join("/a/", "b"), "/a/b");
    assert_eq!(join("/", ".cache"), "/.cache");
    assert_eq!(join("", "b"), "b");
}

#[test]
fn environment_set_unset_get_lookup() {
    let mut env = Environment::new();
    assert_eq!(env.get(EnvVar::AppData), None);
    env.set(EnvVar::AppData, "x".to_string());
    assert_eq!(env.get(EnvVar::AppData), Some(&"x".to_string()));
    assert_eq!(env.get(EnvVar::LocalAppData), None);
    env.set(EnvVar::AppData, String::new());
    assert_eq!(env.get(EnvVar::AppData), Some(&String::new()));
    assert_eq!(env.lookup(EnvVar::AppData), None);
    env.unset(EnvVar::AppData);
    assert_eq!(env.get(EnvVar::AppData), None);
}

#[test]
fn variable_names() {
    let names: Vec<&str> = EnvVar::all().iter().map(|v| v.name()).collect();
    assert_eq!(
        names,
        vec!["HOME", "USERPROFILE", "XDG_CONFIG_HOME", "XDG_CACHE_HOME", "APPDATA", "LOCALAPPDATA"]
    );
}

use bird::config::{join_path, ArgOverrides, EnvOverrides, FileConfig, ResolvedConfig, ResolvedPaths};
use std::path::PathBuf;

#[test]
fn load_is_shim_for_load_with_paths() {
    let cfg = ResolvedConfig::load(ArgOverrides::default(), EnvOverrides::default(), FileConfig::default())
        .expect("load succeeds");
    assert!(PathBuf::from(&cfg.config_dir).ends_with("bird"));
    assert_eq!(
        PathBuf::from(&cfg.cache_path),
        PathBuf::from(&cfg.config_dir).join("bird.db")
    );
    assert_eq!(cfg.cache_max_size_mb, 100);
}

#[test]
fn env_overrides_construction_shape() {
    let env = EnvOverrides {
        no_color: Some(true),
        term: Some("dumb".into()),
        ..Default::default()
    };
    assert_eq!(env.no_color, Some(true));
    assert_eq!(env.term.as_deref(), Some("dumb"));
    assert!(env.output.is_none());
    assert!(env.username.is_none());
    assert!(env.timeout_secs.is_none());
    assert!(env.cache_enabled.is_none());
}

fn test_paths() -> ResolvedPaths {
    ResolvedPaths { config_dir: "/tmp/bird-test".to_string(), store_path: "/tmp/bird-test".to_string() }
}

#[test]
fn load_with_paths_honors_cache_enabled_override() {
    let env = EnvOverrides { cache_enabled: Some(true), ..Default::default() };
    let cfg = ResolvedConfig::load_with_paths(ArgOverrides::default(), test_paths(), env, FileConfig::default());
    assert!(cfg.cache_enabled);
    let env_false = EnvOverrides { cache_enabled: Some(false), ..Default::default() };
    let cfg2 = ResolvedConfig::load_with_paths(ArgOverrides::default(), test_paths(), env_false, FileConfig::default());
    assert!(!cfg2.cache_enabled);
    let cfg3 = ResolvedConfig::load_with_paths(
        ArgOverrides::default(),
        test_paths(),
        EnvOverrides::default(),
        FileConfig::default(),
    );
    assert!(cfg3.cache_enabled);
}

#[test]
fn load_with_paths_uses_paths_config_dir() {
    let paths = test_paths();
    let cfg = ResolvedConfig::load_with_paths(
        ArgOverrides::default(),
        paths.clone(),
        EnvOverrides::default(),
        FileConfig::default(),
    );
    assert_eq!(cfg.config_dir, paths.config_dir);
    assert_eq!(cfg.cache_path, "/tmp/bird-test/bird.db");
}

#[test]
fn username_priority_args_file_env() {
    let file = FileConfig { username: Some("filey".into()), watchlist: None };
    let env = EnvOverrides { username: Some("envy".into()), ..Default::default() };
    let args = ArgOverrides { username: Some("argy".into()), env_username: None };
    let c = ResolvedConfig::load_with_paths(args, test_paths(), env.clone(), file.clone());
    assert_eq!(c.username.as_deref(), Some("argy"));
    let c = ResolvedConfig::load_with_paths(ArgOverrides::default(), test_paths(), env.clone(), file);
    assert_eq!(c.username.as_deref(), Some("filey"));
    let c = ResolvedConfig::load_with_paths(ArgOverrides::default(), test_paths(), env, FileConfig::default());
    assert_eq!(c.username.as_deref(), Some("envy"));
}

#[test]
fn from_config_dir_and_env_values() {
    let p = ResolvedPaths::from_config_dir(Some("/home/u/.config")).unwrap();
    assert_eq!(p.config_dir, "/home/u/.config/bird");
    assert_eq!(p.store_path, p.config_dir);
    assert_eq!(ResolvedPaths::from_config_dir(None).unwrap_err(), "no config dir");
    assert_eq!(join_path("/a/", "b"), "/a/b");
    assert_eq!(join_path("", "b"), "b");
    let e = EnvOverrides::from_values(None, None, true, None, Some("1"));
    assert_eq!(e.cache_enabled, Some(false));
    assert_eq!(e.no_color, Some(true));
    let e2 = EnvOverrides::from_values(None, None, false, None, Some("yes"));
    assert_eq!(e2.cache_enabled, None);
    assert_eq!(e2.no_color, None);
}

#[test]
fn from_env_returns_paths_under_config_dir() {
    let p = ResolvedPaths::from_env().expect("from_env succeeds on this host");
    assert!(PathBuf::from(&p.config_dir).ends_with("bird"));
}

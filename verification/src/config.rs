//! Configuration with priority: command args > config file > env > built-in
//! default. Paths are carried as strings.

use vstd::prelude::*;
use crate::text::{chars_eq, chars_of, owned, push_str, str_eq};

verus! {

/// `dir` joined with the relative name `child`, as `PathBuf::join` does on
/// Unix: no separator is added after an empty or `/`-terminated directory.
pub open spec fn path_join(dir: Seq<char>, child: Seq<char>) -> Seq<char> {
    if dir.len() == 0 {
        child
    } else if dir.last() == '/' {
        dir + child
    } else {
        dir + "/"@ + child
    }
}

/// Joins a relative name onto a directory path.
pub fn join_path(dir: &str, child: &str) -> (r: String)
    requires
        child@.len() > 0 ==> child@[0] != '/',
    ensures
        r@ == path_join(dir@, child@),
{
    let d = chars_of(dir);
    let mut r = owned(dir);
    if d.len() == 0 {
        return owned(child);
    }
    if d[d.len() - 1] != '/' {
        push_str(&mut r, "/");
    }
    push_str(&mut r, child);
    r
}

/// Resolved config after applying priority.
#[derive(Clone, Debug)]
pub struct ResolvedConfig {
    pub username: Option<String>,
    pub config_dir: String,
    pub cache_path: String,
    pub cache_enabled: bool,
    pub cache_max_size_mb: u64,
    /// Active xurl app name; `None` means the transport's stored default.
    pub app: Option<String>,
}

/// File-backed config (`config.toml` under the config directory).
#[derive(Clone, Debug)]
pub struct FileConfig {
    pub username: Option<String>,
    pub watchlist: Option<Vec<String>>,
}

impl Default for FileConfig {
    fn default() -> (r: Self)
        ensures
            r.username is None,
            r.watchlist is None,
    {
        FileConfig { username: None, watchlist: None }
    }
}

/// Overrides from CLI args (highest priority).
#[derive(Clone, Debug)]
pub struct ArgOverrides {
    pub username: Option<String>,
    /// Env fallback for the username (lowest priority, below the file).
    pub env_username: Option<String>,
}

impl Default for ArgOverrides {
    fn default() -> (r: Self)
        ensures
            r.username is None,
            r.env_username is None,
    {
        ArgOverrides { username: None, env_username: None }
    }
}

/// Where the configuration lives.
#[derive(Clone, Debug, PartialEq, Eq)]
pub struct ResolvedPaths {
    pub config_dir: String,
    /// Reserved for a separate store location; mirrors `config_dir`.
    pub store_path: String,
}

/// The host's per-user configuration directory (`dirs::config_dir`), as a
/// string; `None` when the platform has none. It depends on the host and its
/// environment, so nothing is promised of the value.
#[verifier::external_body]
fn host_config_dir() -> (r: Option<String>) {
    dirs::config_dir().map(|p| p.to_string_lossy().into_owned())
}

impl ResolvedPaths {
    /// Paths under `base`/bird; an error when there is no base directory.
    pub fn from_config_dir(base: Option<&str>) -> (r: Result<Self, String>)
        ensures
            match base {
                None => r matches Err(e) && e@ == "no config dir"@,
                Some(b) => r matches Ok(p) && p.config_dir@ == path_join(b@, "bird"@)
                    && p.store_path@ == p.config_dir@,
            },
    {
        match base {
            None => Err(owned("no config dir")),
            Some(b) => {
                proof { reveal_strlit("bird"); }
                let config_dir = join_path(b, "bird");
                let store_path = owned(config_dir.as_str());
                Ok(ResolvedPaths { config_dir, store_path })
            },
        }
    }

    /// Paths under the host's configuration directory.
    pub fn from_env() -> (r: Result<Self, String>)
        ensures
            match r {
                Ok(p) => exists|b: Seq<char>| p.config_dir@ == path_join(b, "bird"@),
                Err(e) => e@ == "no config dir"@,
            },
    {
        let base = host_config_dir();
        match base {
            None => Self::from_config_dir(None),
            Some(b) => Self::from_config_dir(Some(b.as_str())),
        }
    }
}

/// Environment snapshot taken once, so resolution is pure in its inputs.
#[derive(Clone, Debug, PartialEq, Eq)]
pub struct EnvOverrides {
    /// `BIRD_OUTPUT`, unparsed.
    pub output: Option<String>,
    /// `X_API_USERNAME`, unparsed.
    pub username: Option<String>,
    /// `NO_COLOR` presence; its value is ignored.
    pub no_color: Option<bool>,
    /// `TERM`, unparsed.
    pub term: Option<String>,
    pub timeout_secs: Option<u64>,
    /// `BIRD_NO_CACHE=1` gives `Some(false)`; otherwise `None`.
    pub cache_enabled: Option<bool>,
}

impl Default for EnvOverrides {
    fn default() -> (r: Self)
        ensures
            r.output is None,
            r.username is None,
            r.no_color is None,
            r.term is None,
            r.timeout_secs is None,
            r.cache_enabled is None,
    {
        EnvOverrides {
            output: None,
            username: None,
            no_color: None,
            term: None,
            timeout_secs: None,
            cache_enabled: None,
        }
    }
}

impl EnvOverrides {
    /// The snapshot built from raw variable values: `no_color` records only
    /// presence, and caching is disabled only by `BIRD_NO_CACHE` equal to `1`.
    pub fn from_values(
        output: Option<String>,
        username: Option<String>,
        no_color_set: bool,
        term: Option<String>,
        bird_no_cache: Option<&str>,
    ) -> (r: Self)
        ensures
            r.output == output,
            r.username == username,
            r.no_color == (if no_color_set {
                Some(true)
            } else {
                None
            }),
            r.term == term,
            r.timeout_secs is None,
            r.cache_enabled == (if bird_no_cache matches Some(v) && v@ == "1"@ {
                Some(false)
            } else {
                None
            }),
    {
        let cache_enabled = match bird_no_cache {
            Some(v) => if str_eq(v, "1") {
                Some(false)
            } else {
                None
            },
            None => None,
        };
        EnvOverrides {
            output,
            username,
            no_color: if no_color_set {
                Some(true)
            } else {
                None
            },
            term,
            timeout_secs: None,
            cache_enabled,
        }
    }
}

/// The first of the options that is present.
pub open spec fn first_some(a: Option<String>, b: Option<String>) -> Option<String> {
    match a {
        Some(x) => Some(x),
        None => b,
    }
}

/// The resolved username: args, then the file, then the env fallback (the
/// argument-level fallback before `X_API_USERNAME`).
pub open spec fn spec_username(args: ArgOverrides, file: FileConfig, env: EnvOverrides) -> Option<
    String,
> {
    first_some(args.username, first_some(file.username, first_some(args.env_username, env.username)))
}

fn or_else(a: Option<String>, b: Option<String>) -> (r: Option<String>)
    ensures
        r == first_some(a, b),
{
    match a {
        Some(x) => Some(x),
        None => b,
    }
}

/// `r` is the configuration resolved in `config_dir` from the arguments,
/// the environment and the config file: the username by priority, the store
/// file `bird.db` in that directory, caching as the environment says (on by
/// default), the size cap of 100 MB, and no app selected.
pub open spec fn is_resolved_config(
    r: ResolvedConfig,
    args: ArgOverrides,
    config_dir: Seq<char>,
    env: EnvOverrides,
    file: FileConfig,
) -> bool {
    &&& r.username == spec_username(args, file, env)
    &&& r.config_dir@ == config_dir
    &&& r.cache_path@ == path_join(config_dir, "bird.db"@)
    &&& r.cache_enabled == (match env.cache_enabled {
        Some(b) => b,
        None => true,
    })
    &&& r.cache_max_size_mb == 100
    &&& r.app is None
}

impl ResolvedConfig {
    /// Resolves against the given paths, environment and parsed config file
    /// (its default when the file is absent or does not parse).
    pub fn load_with_paths(
        arg_overrides: ArgOverrides,
        paths: ResolvedPaths,
        env: EnvOverrides,
        file_config: FileConfig,
    ) -> (r: Self)
        ensures
            r.username == spec_username(arg_overrides, file_config, env),
            r.config_dir == paths.config_dir,
            r.cache_path@ == path_join(paths.config_dir@, "bird.db"@),
            r.cache_enabled == (match env.cache_enabled {
                Some(b) => b,
                None => true,
            }),
            r.cache_max_size_mb == 100,
            r.app is None,
            is_resolved_config(r, arg_overrides, paths.config_dir@, env, file_config),
    {
        let env_username = or_else(arg_overrides.env_username, env.username);
        let username = or_else(arg_overrides.username, or_else(file_config.username, env_username));
        proof { reveal_strlit("bird.db"); }
        let cache_path = join_path(paths.config_dir.as_str(), "bird.db");
        let cache_enabled = match env.cache_enabled {
            Some(b) => b,
            None => true,
        };
        ResolvedConfig {
            username,
            config_dir: paths.config_dir,
            cache_path,
            cache_enabled,
            cache_max_size_mb: 100,
            app: None,
        }
    }

    /// Resolves under the host's configuration directory, as
    /// [`load_with_paths`](Self::load_with_paths) does for the paths under
    /// it; an error when the host has none.
    pub fn load(arg_overrides: ArgOverrides, env: EnvOverrides, file_config: FileConfig) -> (r:
        Result<Self, String>)
        ensures
            match r {
                Ok(c) => exists|b: Seq<char>|
                    is_resolved_config(c, arg_overrides, path_join(b, "bird"@), env, file_config),
                Err(e) => e@ == "no config dir"@,
            },
    {
        let paths = ResolvedPaths::from_env()?;
        Ok(Self::load_with_paths(arg_overrides, paths, env, file_config))
    }
}

} // verus!

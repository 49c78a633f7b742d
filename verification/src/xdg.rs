//! XDG base directory lookup, over the values of the environment variables.
//!
//! Paths are plain strings joined with `/`, the way `PathBuf::join` joins them
//! on Unix.

use vstd::prelude::*;
use vstd::string::*;

verus! {

/// The directories' own name under each base directory.
pub const APP_DIR: &'static str = "vertere";

/// The socket's file name under the runtime directory.
pub const SOCKET_FILE: &'static str = "vertere.sock";

/// Where the socket goes when there is no runtime directory.
pub const FALLBACK_RUNTIME_DIR: &'static str = "/tmp";

/// `part` appended to `base` as a further path component: a separator is put
/// between them unless `base` is empty or already ends in one, and an
/// absolute `part` replaces `base` altogether.
pub open spec fn path_join(base: Seq<char>, part: Seq<char>) -> Seq<char> {
    if part.len() > 0 && part[0] == '/' {
        part
    } else if base.len() == 0 || base.last() == '/' {
        base + part
    } else {
        base.push('/') + part
    }
}

/// Joins `part` onto `base` as `PathBuf::join` does on Unix.
pub fn join(base: &str, part: &str) -> (res: String)
    ensures
        res@ == path_join(base@, part@),
{
    let n = base.unicode_len();
    if part.unicode_len() > 0 && part.get_char(0) == '/' {
        return String::from_str(part);
    }
    let mut path = String::from_str(base);
    if n > 0 && base.get_char(n - 1) != '/' {
        path.push('/');
    }
    path.push_str(part);
    path
}

/// The environment variables that decide where files go, each `None` when
/// unset.
#[derive(Debug, Clone, PartialEq, Eq, Default)]
pub struct Environment {
    pub xdg_config_home: Option<String>,
    pub xdg_data_home: Option<String>,
    pub xdg_state_home: Option<String>,
    pub xdg_cache_home: Option<String>,
    pub xdg_runtime_dir: Option<String>,
    pub home: Option<String>,
}

/// Neither `$HOME` nor the `$XDG_*` variable in question is set.
#[derive(Debug, Clone, Copy, PartialEq, Eq)]
pub struct NoHome;

impl NoHome {
    /// The message this error is shown with.
    pub fn message(&self) -> (res: &'static str)
        ensures
            res@ == "neither $HOME nor $XDG_* directories are set"@,
    {
        "neither $HOME nor $XDG_* directories are set"
    }
}

/// The base directory named by an `$XDG_*` variable, or `fallback` under
/// `$HOME` when that variable is unset or empty.
pub open spec fn base_dir(var: Option<String>, home: Option<String>, fallback: Seq<char>) -> Option<
    Seq<char>,
> {
    if var is Some && var->0@.len() > 0 {
        Some(var->0@)
    } else if home is Some {
        Some(path_join(home->0@, fallback))
    } else {
        None
    }
}

/// A set, non-empty `$XDG_*` variable names the base directory as it is,
/// whatever `$HOME` holds and however the value ends; the program's own
/// directory is then that value joined with its name.
pub proof fn a_set_variable_wins(var: String, home: Option<String>, fallback: Seq<char>)
    requires
        var@.len() > 0,
    ensures
        base_dir(Some(var), home, fallback) == Some(var@),
        app_dir(Some(var), home, fallback) == Some(path_join(var@, APP_DIR@)),
{
}

/// The program's own directory under a base directory.
pub open spec fn app_dir(var: Option<String>, home: Option<String>, fallback: Seq<char>) -> Option<
    Seq<char>,
> {
    match base_dir(var, home, fallback) {
        Some(dir) => Some(path_join(dir, APP_DIR@)),
        None => None,
    }
}

fn base(var: &Option<String>, home: &Option<String>, fallback: &str) -> (res: Result<String, NoHome>)
    ensures
        match res {
            Ok(dir) => base_dir(*var, *home, fallback@) == Some(dir@),
            Err(_) => base_dir(*var, *home, fallback@).is_none(),
        },
{
    if let Some(dir) = var {
        if !dir.as_str().is_empty() {
            return Ok(dir.clone());
        }
    }
    match home {
        Some(home) => Ok(join(home.as_str(), fallback)),
        None => Err(NoHome),
    }
}

fn app_dir_under(var: &Option<String>, home: &Option<String>, fallback: &str) -> (res: Result<
    String,
    NoHome,
>)
    ensures
        match res {
            Ok(dir) => app_dir(*var, *home, fallback@) == Some(dir@),
            Err(_) => app_dir(*var, *home, fallback@).is_none(),
        },
{
    let dir = base(var, home, fallback)?;
    Ok(join(dir.as_str(), APP_DIR))
}

/// `$XDG_CONFIG_HOME/vertere`, default `~/.config/vertere`.
pub fn config_dir(env: &Environment) -> (res: Result<String, NoHome>)
    ensures
        match res {
            Ok(dir) => app_dir(env.xdg_config_home, env.home, ".config"@) == Some(dir@),
            Err(_) => app_dir(env.xdg_config_home, env.home, ".config"@).is_none(),
        },
        env.xdg_config_home is Some && env.xdg_config_home->0@.len() > 0 ==> (res matches Ok(dir) && dir@
            == path_join(env.xdg_config_home->0@, APP_DIR@)),
{
    proof {
        if env.xdg_config_home is Some && env.xdg_config_home->0@.len() > 0 {
            a_set_variable_wins(env.xdg_config_home->0, env.home, ".config"@);
        }
    }
    app_dir_under(&env.xdg_config_home, &env.home, ".config")
}

/// `$XDG_DATA_HOME/vertere`, default `~/.local/share/vertere`.
pub fn data_dir(env: &Environment) -> (res: Result<String, NoHome>)
    ensures
        match res {
            Ok(dir) => app_dir(env.xdg_data_home, env.home, ".local/share"@) == Some(dir@),
            Err(_) => app_dir(env.xdg_data_home, env.home, ".local/share"@).is_none(),
        },
        env.xdg_data_home is Some && env.xdg_data_home->0@.len() > 0 ==> (res matches Ok(dir) && dir@
            == path_join(env.xdg_data_home->0@, APP_DIR@)),
{
    proof {
        if env.xdg_data_home is Some && env.xdg_data_home->0@.len() > 0 {
            a_set_variable_wins(env.xdg_data_home->0, env.home, ".local/share"@);
        }
    }
    app_dir_under(&env.xdg_data_home, &env.home, ".local/share")
}

/// `$XDG_STATE_HOME/vertere`, default `~/.local/state/vertere`.
pub fn state_dir(env: &Environment) -> (res: Result<String, NoHome>)
    ensures
        match res {
            Ok(dir) => app_dir(env.xdg_state_home, env.home, ".local/state"@) == Some(dir@),
            Err(_) => app_dir(env.xdg_state_home, env.home, ".local/state"@).is_none(),
        },
        env.xdg_state_home is Some && env.xdg_state_home->0@.len() > 0 ==> (res matches Ok(dir) && dir@
            == path_join(env.xdg_state_home->0@, APP_DIR@)),
{
    proof {
        if env.xdg_state_home is Some && env.xdg_state_home->0@.len() > 0 {
            a_set_variable_wins(env.xdg_state_home->0, env.home, ".local/state"@);
        }
    }
    app_dir_under(&env.xdg_state_home, &env.home, ".local/state")
}

/// `$XDG_CACHE_HOME/vertere`, default `~/.cache/vertere`.
pub fn cache_dir(env: &Environment) -> (res: Result<String, NoHome>)
    ensures
        match res {
            Ok(dir) => app_dir(env.xdg_cache_home, env.home, ".cache"@) == Some(dir@),
            Err(_) => app_dir(env.xdg_cache_home, env.home, ".cache"@).is_none(),
        },
        env.xdg_cache_home is Some && env.xdg_cache_home->0@.len() > 0 ==> (res matches Ok(dir) && dir@
            == path_join(env.xdg_cache_home->0@, APP_DIR@)),
{
    proof {
        if env.xdg_cache_home is Some && env.xdg_cache_home->0@.len() > 0 {
            a_set_variable_wins(env.xdg_cache_home->0, env.home, ".cache"@);
        }
    }
    app_dir_under(&env.xdg_cache_home, &env.home, ".cache")
}

/// `$XDG_RUNTIME_DIR/vertere.sock`. Falls back to `/tmp` when the compositor
/// did not provide a runtime dir.
pub fn socket_path(env: &Environment) -> (res: String)
    ensures
        res@ == path_join(
            match env.xdg_runtime_dir {
                Some(dir) => dir@,
                None => FALLBACK_RUNTIME_DIR@,
            },
            SOCKET_FILE@,
        ),
{
    match &env.xdg_runtime_dir {
        Some(dir) => join(dir.as_str(), SOCKET_FILE),
        None => join(FALLBACK_RUNTIME_DIR, SOCKET_FILE),
    }
}

} // verus!

//! Where the configuration file and the completion files live.
//!
//! Every function here is a computation on text: the environment is handed
//! in as an [`Environment`] value, so nothing in this module reads the
//! process environment or touches the filesystem.

use vstd::prelude::*;
use vstd::string::*;

verus! {

/// The text of `base` with `part` adjoined as a POSIX path.
///
/// An absolute `part` replaces `base`. Otherwise `part` is appended, after a
/// single `/` unless `base` is empty or already ends in one.
pub open spec fn join_spec(base: Seq<char>, part: Seq<char>) -> Seq<char> {
    if part.len() > 0 && part[0] == '/' {
        part
    } else if base.len() == 0 || base.last() == '/' {
        base + part
    } else {
        base + seq!['/'] + part
    }
}

/// Adjoins `part` to the path `base`.
pub fn join(base: &str, part: &str) -> (joined: String)
    ensures
        joined@ == join_spec(base@, part@),
{
    let part_len: usize = part.unicode_len();
    if part_len > 0 && part.get_char(0) == '/' {
        return String::from_str(part);
    }
    let base_len: usize = base.unicode_len();
    let mut joined = String::from_str(base);
    if base_len > 0 && base.get_char(base_len - 1) != '/' {
        proof {
            reveal_strlit("/");
        }
        joined.append("/");
    }
    joined.append(part);
    joined
}

/// The name of the environment variable that holds the home directory.
pub const HOME: &'static str = "HOME";

/// The name of the environment variable that holds the directory of
/// per-user configuration.
pub const XDG_CONFIG_HOME: &'static str = "XDG_CONFIG_HOME";

/// The name of the environment variable that holds the directory of
/// per-user data.
pub const XDG_DATA_HOME: &'static str = "XDG_DATA_HOME";

/// The three environment variables that the paths are derived from, as the
/// caller found them: `None` where a variable is unset or is not text.
#[derive(Clone, Debug, PartialEq, Eq)]
pub struct Environment {
    /// The value of [`HOME`].
    pub home: Option<String>,
    /// The value of [`XDG_CONFIG_HOME`].
    pub xdg_config_home: Option<String>,
    /// The value of [`XDG_DATA_HOME`].
    pub xdg_data_home: Option<String>,
}

/// An [`Environment`] as plain text values.
pub struct EnvironmentView {
    pub home: Option<Seq<char>>,
    pub xdg_config_home: Option<Seq<char>>,
    pub xdg_data_home: Option<Seq<char>>,
}

/// The text of an optional string.
pub open spec fn text_of(value: Option<String>) -> Option<Seq<char>> {
    match value {
        Some(s) => Some(s@),
        None => None,
    }
}

impl View for Environment {
    type V = EnvironmentView;

    open spec fn view(&self) -> EnvironmentView {
        EnvironmentView {
            home: text_of(self.home),
            xdg_config_home: text_of(self.xdg_config_home),
            xdg_data_home: text_of(self.xdg_data_home),
        }
    }
}

impl EnvironmentView {
    /// `HOME`, or `/` where it is unset.
    pub open spec fn home_dir(self) -> Seq<char> {
        match self.home {
            Some(home) => home,
            None => "/"@,
        }
    }

    /// `XDG_CONFIG_HOME`, or `.config` under the home directory.
    pub open spec fn config_dir(self) -> Seq<char> {
        match self.xdg_config_home {
            Some(dir) => dir,
            None => join_spec(self.home_dir(), ".config"@),
        }
    }

    /// `custom-completion-zsh/config.toml` under the configuration directory.
    pub open spec fn config_path(self) -> Seq<char> {
        join_spec(join_spec(self.config_dir(), "custom-completion-zsh"@), "config.toml"@)
    }

    /// `XDG_DATA_HOME`, or `.local/share` under the home directory.
    pub open spec fn data_dir(self) -> Seq<char> {
        match self.xdg_data_home {
            Some(dir) => dir,
            None => join_spec(join_spec(self.home_dir(), ".local"@), "share"@),
        }
    }

    /// `zsh/custom-completion-zsh` under the data directory.
    pub open spec fn compfile_dir(self) -> Seq<char> {
        join_spec(join_spec(self.data_dir(), "zsh"@), "custom-completion-zsh"@)
    }
}

/// The name of the completion file of the tool called `name`: an underscore,
/// then the name.
pub open spec fn compfile_name_spec(name: Seq<char>) -> Seq<char> {
    seq!['_'] + name
}

/// The path of the completion file of the tool called `name` in `dir`.
pub open spec fn compfile_path_spec(dir: Seq<char>, name: Seq<char>) -> Seq<char> {
    join_spec(dir, compfile_name_spec(name))
}

/// The user's home directory.
pub fn get_home_dir(env: &Environment) -> (home: String)
    ensures
        home@ == env@.home_dir(),
{
    match &env.home {
        Some(home) => home.clone(),
        None => String::from_str("/"),
    }
}

/// The directory that holds per-user configuration.
pub fn get_config_dir(env: &Environment) -> (dir: String)
    ensures
        dir@ == env@.config_dir(),
{
    match &env.xdg_config_home {
        Some(dir) => dir.clone(),
        None => {
            let home = get_home_dir(env);
            join(home.as_str(), ".config")
        },
    }
}

/// The path of the configuration file.
pub fn get_config_path(env: &Environment) -> (path: String)
    ensures
        path@ == env@.config_path(),
{
    let dir = get_config_dir(env);
    let own = join(dir.as_str(), "custom-completion-zsh");
    join(own.as_str(), "config.toml")
}

/// The directory that the completion files are written to.
pub fn get_compfile_dir(env: &Environment) -> (dir: String)
    ensures
        dir@ == env@.compfile_dir(),
{
    let data = match &env.xdg_data_home {
        Some(dir) => dir.clone(),
        None => {
            let home = get_home_dir(env);
            let local = join(home.as_str(), ".local");
            join(local.as_str(), "share")
        },
    };
    let zsh = join(data.as_str(), "zsh");
    join(zsh.as_str(), "custom-completion-zsh")
}

/// The path of the completion file of the tool called `name` in `dir`.
pub fn compfile_path(dir: &str, name: &str) -> (path: String)
    ensures
        path@ == compfile_path_spec(dir@, name@),
{
    let mut file = String::from_str("_");
    proof {
        reveal_strlit("_");
    }
    file.append(name);
    join(dir, file.as_str())
}

} // verus!

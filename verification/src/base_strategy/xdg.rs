//! The base directories of the XDG convention.

use crate::environment::Environment;
use crate::path::{absolute, glued, is_absolute, join, joined, pieces, pieces_glue_back, split};
use crate::HomeDirError;
use vstd::prelude::*;

verus! {

/// What the variable `name` overrides a directory with: its value, when it is
/// set and that value is an absolute path. A value that is not absolute counts
/// for nothing, as if the variable were not set.
pub open spec fn override_of(env: Map<Seq<char>, Seq<char>>, name: Seq<char>) -> Option<Seq<char>> {
    if env.contains_key(name) && absolute(env[name]) {
        Some(env[name])
    } else {
        None
    }
}

/// A directory that has a default: what `name` overrides it with, or else
/// `default` below `home`.
pub open spec fn resolved(
    home: Seq<char>,
    env: Map<Seq<char>, Seq<char>>,
    name: Seq<char>,
    default: Seq<char>,
) -> Seq<char> {
    match override_of(env, name) {
        Some(path) => path,
        None => joined(home, default),
    }
}

/// A list of directories to search: the value of `name` cut at every colon,
/// whatever its pieces look like, or `default` when `name` is not set.
pub open spec fn search_list(
    env: Map<Seq<char>, Seq<char>>,
    name: Seq<char>,
    default: Seq<Seq<char>>,
) -> Seq<Seq<char>> {
    if env.contains_key(name) {
        pieces(env[name], ':')
    } else {
        default
    }
}

/// The base directories of one user, below that user's home directory.
#[derive(Debug, PartialEq, Eq, PartialOrd, Ord, Hash)]
pub struct Xdg {
    home_dir: String,
}

impl Clone for Xdg {
    fn clone(&self) -> (copy: Xdg)
        ensures
            copy == *self,
    {
        proof {
            use_type_invariant(self);
        }
        Xdg { home_dir: self.home_dir.clone() }
    }
}

impl Xdg {
    /// The home directory, as a path.
    pub closed spec fn spec_home_dir(&self) -> Seq<char> {
        self.home_dir@
    }

    /// The home directory is an absolute path.
    #[verifier::type_invariant]
    pub open spec fn wf(&self) -> bool {
        absolute(self.spec_home_dir())
    }

    /// What `config_dir` returns in an environment.
    pub open spec fn spec_config_dir(&self, env: Map<Seq<char>, Seq<char>>) -> Seq<char> {
        resolved(self.spec_home_dir(), env, "XDG_CONFIG_HOME"@, ".config/"@)
    }

    /// What `data_dir` returns in an environment.
    pub open spec fn spec_data_dir(&self, env: Map<Seq<char>, Seq<char>>) -> Seq<char> {
        resolved(self.spec_home_dir(), env, "XDG_DATA_HOME"@, ".local/share/"@)
    }

    /// What `cache_dir` returns in an environment.
    pub open spec fn spec_cache_dir(&self, env: Map<Seq<char>, Seq<char>>) -> Seq<char> {
        resolved(self.spec_home_dir(), env, "XDG_CACHE_HOME"@, ".cache/"@)
    }

    /// The path that `state_dir` returns in an environment.
    pub open spec fn spec_state_dir(&self, env: Map<Seq<char>, Seq<char>>) -> Seq<char> {
        resolved(self.spec_home_dir(), env, "XDG_STATE_HOME"@, ".local/state/"@)
    }

    /// What `runtime_dir` returns in an environment. This directory has no
    /// default.
    pub open spec fn spec_runtime_dir(&self, env: Map<Seq<char>, Seq<char>>) -> Option<Seq<char>> {
        override_of(env, "XDG_RUNTIME_DIR"@)
    }

    /// What `bin_dir` returns in an environment.
    pub open spec fn spec_bin_dir(&self, env: Map<Seq<char>, Seq<char>>) -> Seq<char> {
        resolved(self.spec_home_dir(), env, "XDG_BIN_HOME"@, ".local/bin"@)
    }

    /// What `data_dirs` returns in an environment.
    pub open spec fn spec_data_dirs(env: Map<Seq<char>, Seq<char>>) -> Seq<Seq<char>> {
        search_list(env, "XDG_DATA_DIRS"@, seq!["/usr/local/share/"@, "/usr/share/"@])
    }

    /// What `config_dirs` returns in an environment.
    pub open spec fn spec_config_dirs(env: Map<Seq<char>, Seq<char>>) -> Seq<Seq<char>> {
        search_list(env, "XDG_CONFIG_DIRS"@, seq!["/etc/xdg"@])
    }

    /// The strategy of the user whose home directory is `home`.
    ///
    /// `home` is what looking for the home directory gave. Where that failed,
    /// this fails in the same way; a home directory that is not an absolute
    /// path counts as not found.
    pub fn new(home: Result<String, HomeDirError>) -> (made: Result<Xdg, HomeDirError>)
        ensures
            made is Ok <==> home is Ok && absolute(home->Ok_0@),
            made matches Ok(xdg) ==> xdg.wf() && xdg.spec_home_dir() == home->Ok_0@,
            home matches Err(error) ==> made == Err::<Xdg, HomeDirError>(error),
    {
        match home {
            Ok(home_dir) => {
                if is_absolute(home_dir.as_str()) {
                    Ok(Xdg { home_dir })
                } else {
                    Err(HomeDirError)
                }
            },
            Err(error) => Err(error),
        }
    }

    /// The home directory.
    pub fn home_dir(&self) -> (dir: &str)
        ensures
            dir@ == self.spec_home_dir(),
            absolute(dir@),
    {
        proof {
            use_type_invariant(self);
        }
        self.home_dir.as_str()
    }

    /// The value of `env_var`, if it is set to an absolute path.
    pub fn env_var_or_none(env: &Environment, env_var: &str) -> (path: Option<String>)
        ensures
            path.deep_view() == override_of(env@, env_var@),
    {
        match env.var(env_var) {
            Some(path) => {
                if is_absolute(path.as_str()) {
                    Some(path)
                } else {
                    None
                }
            },
            None => None,
        }
    }

    /// The value of `env_var`, if it is set to an absolute path, and else
    /// `default` below the home directory.
    pub fn env_var_or_default(&self, env: &Environment, env_var: &str, default: &str) -> (path:
        String)
        ensures
            path@ == resolved(self.spec_home_dir(), env@, env_var@, default@),
            absolute(path@),
    {
        proof {
            use_type_invariant(self);
        }
        match Self::env_var_or_none(env, env_var) {
            Some(path) => path,
            None => join(self.home_dir.as_str(), default),
        }
    }

    /// The directory for configuration files: `XDG_CONFIG_HOME`, or
    /// `.config/` below the home directory.
    pub fn config_dir(&self, env: &Environment) -> (dir: String)
        ensures
            dir@ == self.spec_config_dir(env@),
            absolute(dir@),
    {
        self.env_var_or_default(env, "XDG_CONFIG_HOME", ".config/")
    }

    /// The directory for data files: `XDG_DATA_HOME`, or `.local/share/`
    /// below the home directory.
    pub fn data_dir(&self, env: &Environment) -> (dir: String)
        ensures
            dir@ == self.spec_data_dir(env@),
            absolute(dir@),
    {
        self.env_var_or_default(env, "XDG_DATA_HOME", ".local/share/")
    }

    /// The directory for cached files: `XDG_CACHE_HOME`, or `.cache/` below
    /// the home directory.
    pub fn cache_dir(&self, env: &Environment) -> (dir: String)
        ensures
            dir@ == self.spec_cache_dir(env@),
            absolute(dir@),
    {
        self.env_var_or_default(env, "XDG_CACHE_HOME", ".cache/")
    }

    /// The directory for state files: `XDG_STATE_HOME`, or `.local/state/`
    /// below the home directory. There always is one.
    pub fn state_dir(&self, env: &Environment) -> (dir: Option<String>)
        ensures
            dir.deep_view() == Some(self.spec_state_dir(env@)),
            absolute(dir->Some_0@),
    {
        Some(self.env_var_or_default(env, "XDG_STATE_HOME", ".local/state/"))
    }

    /// The directory for runtime files: `XDG_RUNTIME_DIR`. It has no default:
    /// where the variable is not set, or not to an absolute path, there is
    /// none.
    pub fn runtime_dir(&self, env: &Environment) -> (dir: Option<String>)
        ensures
            dir.deep_view() == self.spec_runtime_dir(env@),
            dir matches Some(path) ==> absolute(path@),
    {
        Self::env_var_or_none(env, "XDG_RUNTIME_DIR")
    }

    /// The directory for the user's own executable files: `XDG_BIN_HOME`, or
    /// `.local/bin` below the home directory.
    pub fn bin_dir(&self, env: &Environment) -> (dir: String)
        ensures
            dir@ == self.spec_bin_dir(env@),
            absolute(dir@),
    {
        self.env_var_or_default(env, "XDG_BIN_HOME", ".local/bin")
    }

    /// The directories to search for data files besides `data_dir`, in order
    /// of preference: the value of `XDG_DATA_DIRS` cut at every colon, or
    /// `/usr/local/share/` and `/usr/share/` where it is not set.
    pub fn data_dirs(env: &Environment) -> (dirs: Vec<String>)
        ensures
            dirs.deep_view() == Self::spec_data_dirs(env@),
    {
        match env.var("XDG_DATA_DIRS") {
            Some(list) => split(list.as_str(), ':'),
            None => {
                let mut dirs: Vec<String> = Vec::new();
                dirs.push("/usr/local/share/".to_owned());
                dirs.push("/usr/share/".to_owned());
                assert(dirs.deep_view() =~= seq!["/usr/local/share/"@, "/usr/share/"@]);
                dirs
            },
        }
    }

    /// The directories to search for configuration files besides
    /// `config_dir`, in order of preference: the value of `XDG_CONFIG_DIRS`
    /// cut at every colon, or `/etc/xdg` where it is not set.
    pub fn config_dirs(env: &Environment) -> (dirs: Vec<String>)
        ensures
            dirs.deep_view() == Self::spec_config_dirs(env@),
    {
        match env.var("XDG_CONFIG_DIRS") {
            Some(list) => split(list.as_str(), ':'),
            None => {
                let mut dirs: Vec<String> = Vec::new();
                dirs.push("/etc/xdg".to_owned());
                assert(dirs.deep_view() =~= seq!["/etc/xdg"@]);
                dirs
            },
        }
    }
}

/// An override that is an absolute path is the directory, with nothing
/// altered: this holds of the five base directories and of the directory for
/// executable files.
pub proof fn absolute_override_is_returned(
    xdg: Xdg,
    env: Map<Seq<char>, Seq<char>>,
    value: Seq<char>,
)
    requires
        absolute(value),
    ensures
        xdg.spec_config_dir(env.insert("XDG_CONFIG_HOME"@, value)) == value,
        xdg.spec_data_dir(env.insert("XDG_DATA_HOME"@, value)) == value,
        xdg.spec_cache_dir(env.insert("XDG_CACHE_HOME"@, value)) == value,
        xdg.spec_state_dir(env.insert("XDG_STATE_HOME"@, value)) == value,
        xdg.spec_runtime_dir(env.insert("XDG_RUNTIME_DIR"@, value)) == Some(value),
        xdg.spec_bin_dir(env.insert("XDG_BIN_HOME"@, value)) == value,
{
}

/// An override that is not an absolute path is discarded: the directory is
/// what it is where the variable is not set at all, its default below the
/// home directory.
pub proof fn relative_override_is_discarded(
    xdg: Xdg,
    env: Map<Seq<char>, Seq<char>>,
    value: Seq<char>,
)
    requires
        !absolute(value),
    ensures
        xdg.spec_config_dir(env.insert("XDG_CONFIG_HOME"@, value)) == xdg.spec_config_dir(
            env.remove("XDG_CONFIG_HOME"@),
        ),
        xdg.spec_config_dir(env.insert("XDG_CONFIG_HOME"@, value)) == joined(
            xdg.spec_home_dir(),
            ".config/"@,
        ),
        xdg.spec_data_dir(env.insert("XDG_DATA_HOME"@, value)) == xdg.spec_data_dir(
            env.remove("XDG_DATA_HOME"@),
        ),
        xdg.spec_data_dir(env.insert("XDG_DATA_HOME"@, value)) == joined(
            xdg.spec_home_dir(),
            ".local/share/"@,
        ),
        xdg.spec_cache_dir(env.insert("XDG_CACHE_HOME"@, value)) == xdg.spec_cache_dir(
            env.remove("XDG_CACHE_HOME"@),
        ),
        xdg.spec_cache_dir(env.insert("XDG_CACHE_HOME"@, value)) == joined(
            xdg.spec_home_dir(),
            ".cache/"@,
        ),
        xdg.spec_state_dir(env.insert("XDG_STATE_HOME"@, value)) == xdg.spec_state_dir(
            env.remove("XDG_STATE_HOME"@),
        ),
        xdg.spec_state_dir(env.insert("XDG_STATE_HOME"@, value)) == joined(
            xdg.spec_home_dir(),
            ".local/state/"@,
        ),
        xdg.spec_bin_dir(env.insert("XDG_BIN_HOME"@, value)) == xdg.spec_bin_dir(
            env.remove("XDG_BIN_HOME"@),
        ),
        xdg.spec_bin_dir(env.insert("XDG_BIN_HOME"@, value)) == joined(
            xdg.spec_home_dir(),
            ".local/bin"@,
        ),
{
}

/// The runtime directory is the value of `XDG_RUNTIME_DIR` where that is an
/// absolute path, and is absent in every other environment: it never falls
/// back on a default.
pub proof fn runtime_dir_has_no_default(xdg: Xdg, env: Map<Seq<char>, Seq<char>>)
    ensures
        xdg.spec_runtime_dir(env) is Some <==> env.contains_key("XDG_RUNTIME_DIR"@) && absolute(
            env["XDG_RUNTIME_DIR"@],
        ),
        xdg.spec_runtime_dir(env) matches Some(dir) ==> dir == env["XDG_RUNTIME_DIR"@],
{
}

/// Every directory that a strategy resolves is an absolute path, in every
/// environment.
pub proof fn resolved_dirs_are_absolute(xdg: Xdg, env: Map<Seq<char>, Seq<char>>)
    requires
        xdg.wf(),
    ensures
        absolute(xdg.spec_config_dir(env)),
        absolute(xdg.spec_data_dir(env)),
        absolute(xdg.spec_cache_dir(env)),
        absolute(xdg.spec_state_dir(env)),
        absolute(xdg.spec_bin_dir(env)),
        xdg.spec_runtime_dir(env) matches Some(dir) ==> absolute(dir),
{
}

/// A search list that is not set is the default list; one that is set, even
/// to something that looks like no path at all, is its value cut at the
/// colons, which glued with colons is the value again. A list that is set to
/// the empty text is one empty path.
pub proof fn search_lists_are_cut_verbatim(env: Map<Seq<char>, Seq<char>>, value: Seq<char>)
    ensures
        Xdg::spec_data_dirs(env.remove("XDG_DATA_DIRS"@)) == seq![
            "/usr/local/share/"@,
            "/usr/share/"@,
        ],
        Xdg::spec_config_dirs(env.remove("XDG_CONFIG_DIRS"@)) == seq!["/etc/xdg"@],
        Xdg::spec_data_dirs(env.insert("XDG_DATA_DIRS"@, value)) == pieces(value, ':'),
        Xdg::spec_config_dirs(env.insert("XDG_CONFIG_DIRS"@, value)) == pieces(value, ':'),
        glued(pieces(value, ':'), ':') == value,
        pieces(Seq::<char>::empty(), ':') == seq![Seq::<char>::empty()],
{
    pieces_glue_back(value, ':');
}

} // verus!

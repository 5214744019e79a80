//! The directories of one application by the XDG convention.

use crate::app_strategy::{has_visible, unixy, AppStrategyArgs};
use crate::base_strategy;
use crate::environment::Environment;
use crate::path::{absolute, join, joined, joined_keeps_both};
use crate::HomeDirError;
use vstd::prelude::*;

verus! {

/// The directories of one application: each base directory of the
/// convention, with the name of the application adjoined.
///
/// The name is adjoined as it stands. It is one segment of the path wherever
/// it holds no `/`.
#[derive(Debug, PartialEq, Eq, PartialOrd, Ord, Hash)]
pub struct Xdg {
    base_strategy: base_strategy::Xdg,
    unixy_name: String,
}

impl Clone for Xdg {
    fn clone(&self) -> (copy: Xdg)
        ensures
            copy == *self,
    {
        proof {
            use_type_invariant(self);
        }
        Xdg { base_strategy: self.base_strategy.clone(), unixy_name: self.unixy_name.clone() }
    }
}

impl Xdg {
    /// The strategy for the base directories that this one builds on.
    pub closed spec fn spec_base_strategy(&self) -> base_strategy::Xdg {
        self.base_strategy
    }

    /// The name of the application, as adjoined to each directory.
    pub closed spec fn spec_unixy_name(&self) -> Seq<char> {
        self.unixy_name@
    }

    /// The strategy for the base directories is well formed.
    #[verifier::type_invariant]
    pub open spec fn wf(&self) -> bool {
        self.spec_base_strategy().wf()
    }

    /// The home directory: that of the base strategy.
    pub open spec fn spec_home_dir(&self) -> Seq<char> {
        self.spec_base_strategy().spec_home_dir()
    }

    /// What `config_dir` returns in an environment.
    pub open spec fn spec_config_dir(&self, env: Map<Seq<char>, Seq<char>>) -> Seq<char> {
        joined(self.spec_base_strategy().spec_config_dir(env), self.spec_unixy_name())
    }

    /// What `data_dir` returns in an environment.
    pub open spec fn spec_data_dir(&self, env: Map<Seq<char>, Seq<char>>) -> Seq<char> {
        joined(self.spec_base_strategy().spec_data_dir(env), self.spec_unixy_name())
    }

    /// What `cache_dir` returns in an environment.
    pub open spec fn spec_cache_dir(&self, env: Map<Seq<char>, Seq<char>>) -> Seq<char> {
        joined(self.spec_base_strategy().spec_cache_dir(env), self.spec_unixy_name())
    }

    /// The path that `state_dir` returns in an environment.
    pub open spec fn spec_state_dir(&self, env: Map<Seq<char>, Seq<char>>) -> Seq<char> {
        joined(self.spec_base_strategy().spec_state_dir(env), self.spec_unixy_name())
    }

    /// What `runtime_dir` returns in an environment: nothing where the base
    /// strategy has no runtime directory.
    pub open spec fn spec_runtime_dir(&self, env: Map<Seq<char>, Seq<char>>) -> Option<Seq<char>> {
        match self.spec_base_strategy().spec_runtime_dir(env) {
            Some(dir) => Some(joined(dir, self.spec_unixy_name())),
            None => None,
        }
    }

    /// The strategy of the application that `args` names, for the user whose
    /// home directory is `home`.
    ///
    /// `home` is what looking for the home directory gave. Where that failed,
    /// this fails in the same way; a home directory that is not an absolute
    /// path counts as not found.
    pub fn new(args: AppStrategyArgs, home: Result<String, HomeDirError>) -> (made: Result<
        Xdg,
        HomeDirError,
    >)
        ensures
            made is Ok <==> home is Ok && absolute(home->Ok_0@),
            made matches Ok(xdg) ==> {
                &&& xdg.wf()
                &&& xdg.spec_home_dir() == home->Ok_0@
                &&& xdg.spec_unixy_name() == unixy(args.app_name@)
                &&& xdg.spec_unixy_name().len() > 0 <==> has_visible(args.app_name@)
            },
            home matches Err(error) ==> made == Err::<Xdg, HomeDirError>(error),
    {
        match base_strategy::Xdg::new(home) {
            Ok(base_strategy) => {
                let unixy_name = args.unixy_name();
                Ok(Xdg { base_strategy, unixy_name })
            },
            Err(error) => Err(error),
        }
    }

    /// The home directory. The name of the application is not adjoined to
    /// it: all applications share it.
    pub fn home_dir(&self) -> (dir: &str)
        ensures
            dir@ == self.spec_home_dir(),
            dir@ == self.spec_base_strategy().spec_home_dir(),
            absolute(dir@),
    {
        self.base_strategy.home_dir()
    }

    /// The directory for the configuration files of the application.
    pub fn config_dir(&self, env: &Environment) -> (dir: String)
        ensures
            dir@ == self.spec_config_dir(env@),
            absolute(dir@),
    {
        let base = self.base_strategy.config_dir(env);
        join(base.as_str(), self.unixy_name.as_str())
    }

    /// The directory for the data files of the application.
    pub fn data_dir(&self, env: &Environment) -> (dir: String)
        ensures
            dir@ == self.spec_data_dir(env@),
            absolute(dir@),
    {
        let base = self.base_strategy.data_dir(env);
        join(base.as_str(), self.unixy_name.as_str())
    }

    /// The directory for the cached files of the application.
    pub fn cache_dir(&self, env: &Environment) -> (dir: String)
        ensures
            dir@ == self.spec_cache_dir(env@),
            absolute(dir@),
    {
        let base = self.base_strategy.cache_dir(env);
        join(base.as_str(), self.unixy_name.as_str())
    }

    /// The directory for the state files of the application. There always is
    /// one.
    pub fn state_dir(&self, env: &Environment) -> (dir: Option<String>)
        ensures
            dir.deep_view() == Some(self.spec_state_dir(env@)),
            absolute(dir->Some_0@),
    {
        match self.base_strategy.state_dir(env) {
            Some(base) => Some(join(base.as_str(), self.unixy_name.as_str())),
            None => None,
        }
    }

    /// The directory for the runtime files of the application: there is one
    /// exactly where the base strategy has a runtime directory.
    pub fn runtime_dir(&self, env: &Environment) -> (dir: Option<String>)
        ensures
            dir.deep_view() == self.spec_runtime_dir(env@),
            dir is Some <==> self.spec_base_strategy().spec_runtime_dir(env@) is Some,
            dir matches Some(path) ==> absolute(path@),
    {
        match self.base_strategy.runtime_dir(env) {
            Some(base) => Some(join(base.as_str(), self.unixy_name.as_str())),
            None => None,
        }
    }

    /// The directory for the user's own executable files: that of the base
    /// strategy, which no application has to itself.
    pub fn bin_dir(&self, env: &Environment) -> (dir: String)
        ensures
            dir@ == self.spec_base_strategy().spec_bin_dir(env@),
            absolute(dir@),
    {
        self.base_strategy.bin_dir(env)
    }

    /// The directories to search for data files: those of the base strategy.
    pub fn data_dirs(env: &Environment) -> (dirs: Vec<String>)
        ensures
            dirs.deep_view() == base_strategy::Xdg::spec_data_dirs(env@),
    {
        base_strategy::Xdg::data_dirs(env)
    }

    /// The directories to search for configuration files: those of the base
    /// strategy.
    pub fn config_dirs(env: &Environment) -> (dirs: Vec<String>)
        ensures
            dirs.deep_view() == base_strategy::Xdg::spec_config_dirs(env@),
    {
        base_strategy::Xdg::config_dirs(env)
    }
}

/// Each directory of an application is the directory of the base strategy
/// with the name of the application adjoined; where the base strategy has no
/// runtime directory, the application has none.
pub proof fn app_dirs_are_base_dirs_joined(app: Xdg, env: Map<Seq<char>, Seq<char>>)
    ensures
        app.spec_config_dir(env) == joined(
            app.spec_base_strategy().spec_config_dir(env),
            app.spec_unixy_name(),
        ),
        app.spec_data_dir(env) == joined(
            app.spec_base_strategy().spec_data_dir(env),
            app.spec_unixy_name(),
        ),
        app.spec_cache_dir(env) == joined(
            app.spec_base_strategy().spec_cache_dir(env),
            app.spec_unixy_name(),
        ),
        app.spec_state_dir(env) == joined(
            app.spec_base_strategy().spec_state_dir(env),
            app.spec_unixy_name(),
        ),
        app.spec_base_strategy().spec_runtime_dir(env) matches Some(dir) ==> app.spec_runtime_dir(
            env,
        ) == Some(joined(dir, app.spec_unixy_name())),
        app.spec_base_strategy().spec_runtime_dir(env) is None ==> app.spec_runtime_dir(env) is None,
{
}

/// The home directory of an application is that of its base strategy, with
/// nothing adjoined.
pub proof fn home_dir_is_shared(app: Xdg)
    ensures
        app.spec_home_dir() == app.spec_base_strategy().spec_home_dir(),
{
}

/// A name that is not an absolute path leaves the base directory standing:
/// each directory of the application starts with the base directory and ends
/// with the name.
pub proof fn app_dirs_lie_below_base_dirs(app: Xdg, env: Map<Seq<char>, Seq<char>>)
    requires
        !absolute(app.spec_unixy_name()),
    ensures
        app.spec_base_strategy().spec_config_dir(env).is_prefix_of(app.spec_config_dir(env)),
        app.spec_base_strategy().spec_data_dir(env).is_prefix_of(app.spec_data_dir(env)),
        app.spec_base_strategy().spec_cache_dir(env).is_prefix_of(app.spec_cache_dir(env)),
        app.spec_base_strategy().spec_state_dir(env).is_prefix_of(app.spec_state_dir(env)),
        app.spec_unixy_name().is_suffix_of(app.spec_config_dir(env)),
        app.spec_unixy_name().is_suffix_of(app.spec_data_dir(env)),
        app.spec_unixy_name().is_suffix_of(app.spec_cache_dir(env)),
        app.spec_unixy_name().is_suffix_of(app.spec_state_dir(env)),
{
    let base = app.spec_base_strategy();
    let name = app.spec_unixy_name();
    joined_keeps_both(base.spec_config_dir(env), name);
    joined_keeps_both(base.spec_data_dir(env), name);
    joined_keeps_both(base.spec_cache_dir(env), name);
    joined_keeps_both(base.spec_state_dir(env), name);
}

} // verus!

//! Environments made by virtualenvwrapper.

use crate::filesystem::{exists_at, real_path_at, EntryView, FileSystem};
use crate::known::{Environment, Known, Platform};
use crate::lists::{collect, lemma_collect_step};
use crate::locator::{Locator, LocatorResult, LocatorResultView};
use crate::messaging::{
    new_environment, PythonEnvironment, PythonEnvironmentCategory, PythonEnvironmentView,
};
use crate::paths::{is_under, is_under_path, join, join_path};
use crate::pyenv::direct_command;
use crate::text::clone_option;
use crate::utils::{list_python_environments, python_environments_in, PythonEnv, PythonEnvView};
use crate::venv::{directory_name, get_directory_name};
use crate::virtualenv::{is_virtualenv, virtualenv};
use vstd::prelude::*;

verus! {

/// The directory in which virtualenvwrapper keeps its environments where
/// `WORKON_HOME` does not say: on Unix `virtualenvs` under the user's home; on
/// Windows `Envs` under the home, else `virtualenvs` under that.
pub open spec fn default_virtualenvwrapper_path(known: Known, disk: Seq<EntryView>) -> Option<
    Seq<char>,
> {
    match known.home {
        None => None,
        Some(home) => match known.platform {
            Platform::Windows => if exists_at(disk, join(home, "Envs"@)) {
                Some(join(home, "Envs"@))
            } else if exists_at(disk, join(join(home, "Envs"@), "virtualenvs"@)) {
                Some(join(join(home, "Envs"@), "virtualenvs"@))
            } else {
                None
            },
            Platform::Unix => if exists_at(disk, join(home, "virtualenvs"@)) {
                Some(join(home, "virtualenvs"@))
            } else {
                None
            },
        },
    }
}

pub fn get_default_virtualenvwrapper_path<E: Environment>(environment: &E, fs: &FileSystem) -> (r:
    Option<String>)
    ensures
        r.deep_view() == default_virtualenvwrapper_path(environment.known(), fs.deep_view()),
{
    let home = match environment.get_user_home() {
        Some(home) => home,
        None => { return None; },
    };
    match environment.get_platform() {
        Platform::Windows => {
            let envs = join_path(home.as_str(), "Envs");
            if fs.is_present(envs.as_str()) {
                return Some(envs);
            }
            let inner = join_path(envs.as_str(), "virtualenvs");
            if fs.is_present(inner.as_str()) {
                return Some(inner);
            }
            None
        },
        Platform::Unix => {
            let envs = join_path(home.as_str(), "virtualenvs");
            if fs.is_present(envs.as_str()) {
                return Some(envs);
            }
            None
        },
    }
}

/// The real path of the directory that `WORKON_HOME` names, where it is there.
pub open spec fn work_on_home_variable(known: Known, disk: Seq<EntryView>) -> Option<Seq<char>> {
    match known.var("WORKON_HOME"@) {
        None => None,
        Some(work_on_home) => match real_path_at(disk, work_on_home) {
            None => None,
            Some(target) => if exists_at(disk, target) {
                Some(target)
            } else {
                None
            },
        },
    }
}

/// The directory in which virtualenvwrapper keeps its environments.
pub open spec fn work_on_home_path(known: Known, disk: Seq<EntryView>) -> Option<Seq<char>> {
    match work_on_home_variable(known, disk) {
        Some(directory) => Some(directory),
        None => default_virtualenvwrapper_path(known, disk),
    }
}

/// The real path of the directory that `WORKON_HOME` names, where it is there.
pub fn get_work_on_home_variable<E: Environment>(environment: &E, fs: &FileSystem) -> (r: Option<
    String,
>)
    ensures
        r.deep_view() == work_on_home_variable(environment.known(), fs.deep_view()),
{
    match environment.get_env_var("WORKON_HOME".to_owned()) {
        Some(work_on_home) => match fs.canonicalize(work_on_home.as_str()) {
            Some(target) => if fs.is_present(target.as_str()) {
                Some(target)
            } else {
                None
            },
            None => None,
        },
        None => None,
    }
}

pub fn get_work_on_home_path<E: Environment>(environment: &E, fs: &FileSystem) -> (r: Option<String>)
    ensures
        r.deep_view() == work_on_home_path(environment.known(), fs.deep_view()),
{
    match get_work_on_home_variable(environment, fs) {
        Some(directory) => Some(directory),
        None => get_default_virtualenvwrapper_path(environment, fs),
    }
}

/// The candidate `env` is virtualenvwrapper's: its executable lies under the
/// directory in which virtualenvwrapper keeps its environments, and it is a
/// virtualenv.
pub open spec fn virtualenvwrapper(known: Known, disk: Seq<EntryView>, env: PythonEnvView) -> bool {
    env.path is Some && match work_on_home_path(known, disk) {
        Some(work_on_home) => is_under(env.executable, work_on_home) && virtualenv(disk, env),
        None => false,
    }
}

pub fn is_virtualenvwrapper<E: Environment>(fs: &FileSystem, env: &PythonEnv, environment: &E) -> (r:
    bool)
    ensures
        r == virtualenvwrapper(environment.known(), fs.deep_view(), env.deep_view()),
{
    if env.path.is_none() {
        return false;
    }
    match get_work_on_home_path(environment, fs) {
        Some(work_on_home) => is_under_path(env.executable.as_str(), work_on_home.as_str())
            && is_virtualenv(fs, env),
        None => false,
    }
}

/// The record of the candidate `env`, where it is virtualenvwrapper's.
pub open spec fn resolved(known: Known, disk: Seq<EntryView>, env: PythonEnvView) -> Option<
    PythonEnvironmentView,
> {
    if virtualenvwrapper(known, disk, env) {
        Some(
            new_environment(
                None,
                directory_name(env.path),
                Some(env.executable),
                PythonEnvironmentCategory::VirtualEnvWrapper,
                env.version,
                env.path,
                None,
                Some(seq![env.executable]),
            ),
        )
    } else {
        None
    }
}

/// The environments in the directory in which virtualenvwrapper keeps them.
pub open spec fn found_environments(known: Known, disk: Seq<EntryView>) -> Seq<PythonEnvironmentView> {
    match work_on_home_path(known, disk) {
        None => seq![],
        Some(work_on_home) => match python_environments_in(disk, known.platform, work_on_home) {
            None => seq![],
            Some(candidates) => collect(
                candidates,
                |env: PythonEnvView| resolved(known, disk, env),
            ),
        },
    }
}

/// Everything of virtualenvwrapper on the machine.
pub open spec fn found(known: Known, disk: Seq<EntryView>) -> Option<LocatorResultView> {
    if found_environments(known, disk).len() == 0 {
        None
    } else {
        Some(
            LocatorResultView { managers: seq![], environments: found_environments(known, disk) },
        )
    }
}

/// virtualenvwrapper is no manager of environments: what it gives holds none.
pub proof fn lemma_found_without_managers(known: Known, disk: Seq<EntryView>)
    ensures
        crate::locator::without_managers(found(known, disk)),
{
    match work_on_home_path(known, disk) {
        None => {},
        Some(work_on_home) => match python_environments_in(disk, known.platform, work_on_home) {
            None => {},
            Some(candidates) => {
                crate::lists::lemma_collect_members(
                    candidates,
                    |env: PythonEnvView| resolved(known, disk, env),
                );
            },
        },
    }
}

/// The virtualenvwrapper source.
pub struct VirtualEnvWrapper<'a, E: Environment> {
    pub environment: &'a E,
    pub fs: &'a FileSystem,
}

impl<'a, E: Environment> VirtualEnvWrapper<'a, E> {
    pub fn with(environment: &'a E, fs: &'a FileSystem) -> (r: VirtualEnvWrapper<'a, E>)
        ensures
            r.environment == environment,
            r.fs == fs,
    {
        VirtualEnvWrapper { environment, fs }
    }
}

impl<'a, E: Environment> Locator for VirtualEnvWrapper<'a, E> {
    fn resolve(&self, env: &PythonEnv) -> (r: Option<PythonEnvironment>)
        ensures
            r.deep_view() == resolved(self.environment.known(), self.fs.deep_view(), env.deep_view()),
    {
        if !is_virtualenvwrapper(self.fs, env, self.environment) {
            return None;
        }
        Some(
            PythonEnvironment::new(
                None,
                get_directory_name(&env.path),
                Some(env.executable.clone()),
                PythonEnvironmentCategory::VirtualEnvWrapper,
                clone_option(&env.version),
                clone_option(&env.path),
                None,
                Some(direct_command(env.executable.as_str())),
            ),
        )
    }

    #[verifier::loop_isolation(false)]
    fn find(&mut self) -> (r: Option<LocatorResult>)
        ensures
            r.deep_view() == found(old(self).environment.known(), old(self).fs.deep_view()),
            final(self).environment == old(self).environment,
            final(self).fs == old(self).fs,
    {
        let work_on_home = match get_work_on_home_path(self.environment, self.fs) {
            Some(work_on_home) => work_on_home,
            None => { return None; },
        };
        let candidates = match list_python_environments(
            self.fs,
            self.environment.get_platform(),
            work_on_home.as_str(),
        ) {
            Some(candidates) => candidates,
            None => { return None; },
        };
        let ghost known = self.environment.known();
        let ghost disk = self.fs.deep_view();
        let ghost f = |env: PythonEnvView| resolved(known, disk, env);
        let ghost all = candidates.deep_view();
        let mut environments: Vec<PythonEnvironment> = Vec::new();
        let mut i: usize = 0;
        assert(environments.deep_view() =~= collect(all.take(0), f));
        while i < candidates.len()
            invariant
                i <= candidates.len(),
                environments.deep_view() == collect(all.take(i as int), f),
            decreases candidates.len() - i,
        {
            proof {
                lemma_collect_step(all, f, i as int);
            }
            match self.resolve(&candidates[i]) {
                Some(env) => {
                    let ghost before = environments.deep_view();
                    environments.push(env);
                    assert(environments.deep_view() =~= before.push(env.deep_view()));
                },
                None => {},
            }
            i = i + 1;
        }
        assert(all.take(all.len() as int) == all);
        if environments.len() == 0 {
            None
        } else {
            let r = LocatorResult { managers: Vec::new(), environments };
            assert(r.deep_view().managers =~= Seq::<crate::messaging::EnvManagerView>::empty());
            Some(r)
        }
    }
}

} // verus!

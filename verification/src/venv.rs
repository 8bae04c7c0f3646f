//! Environments made by Python's own `venv`.

use crate::filesystem::{EntryView, FileSystem};
use crate::locator::{Locator, LocatorResult};
use crate::messaging::{
    new_environment, PythonEnvironment, PythonEnvironmentCategory, PythonEnvironmentView,
};
use crate::paths::{file_name, file_name_of};
use crate::pyenv::direct_command;
use crate::text::clone_option;
use crate::utils::{
    find_and_parse_pyvenv_cfg, find_pyvenv_config_path, pyvenv_cfg_version, pyvenv_config_path,
    PythonEnv, PythonEnvView,
};
use vstd::prelude::*;

verus! {

/// The candidate `env` is a venv: its directory is known and a `pyvenv.cfg`
/// belongs to its executable.
pub open spec fn venv(disk: Seq<EntryView>, env: PythonEnvView) -> bool {
    env.path is Some && pyvenv_config_path(disk, env.executable) is Some
}

pub fn is_venv(fs: &FileSystem, env: &PythonEnv) -> (r: bool)
    ensures
        r == venv(fs.deep_view(), env.deep_view()),
{
    if env.path.is_none() {
        return false;
    }
    find_pyvenv_config_path(fs, env.executable.as_str()).is_some()
}

/// The name of the directory that owns an environment.
pub open spec fn directory_name(path: Option<Seq<char>>) -> Option<Seq<char>> {
    match path {
        Some(path) => file_name(path),
        None => None,
    }
}

/// The version of a venv: the one its `pyvenv.cfg` gives, whatever was known
/// of the candidate beforehand; without one in the file, what was known.
pub open spec fn venv_version(disk: Seq<EntryView>, env: PythonEnvView) -> Option<Seq<char>> {
    match pyvenv_cfg_version(disk, env.executable) {
        Some(version) => Some(version),
        None => env.version,
    }
}

/// The record of the candidate `env`, where it is a venv.
pub open spec fn resolved(disk: Seq<EntryView>, env: PythonEnvView) -> Option<PythonEnvironmentView> {
    if venv(disk, env) {
        Some(
            new_environment(
                None,
                directory_name(env.path),
                Some(env.executable),
                PythonEnvironmentCategory::Venv,
                venv_version(disk, env),
                env.path,
                None,
                Some(seq![env.executable]),
            ),
        )
    } else {
        None
    }
}

/// The configuration file wins: a venv whose `pyvenv.cfg` gives a version is
/// reported with that version, whatever version was known of the candidate.
pub proof fn lemma_config_file_wins(disk: Seq<EntryView>, env: PythonEnvView, version: Seq<char>)
    requires
        venv(disk, env),
        pyvenv_cfg_version(disk, env.executable) == Some(version),
    ensures
        resolved(disk, env) is Some,
        resolved(disk, env)->0.version == Some(version),
        forall|known_before: Option<Seq<char>>|
            (#[trigger] resolved(disk, PythonEnvView { version: known_before, ..env }))->0.version
                == Some(version),
{
}

/// The name of the directory that owns an environment.
pub fn get_directory_name(path: &Option<String>) -> (r: Option<String>)
    ensures
        r.deep_view() == directory_name(path.deep_view()),
{
    match path {
        Some(path) => file_name_of(path.as_str()),
        None => None,
    }
}

/// The venv source.
pub struct Venv<'a> {
    pub fs: &'a FileSystem,
}

impl<'a> Venv<'a> {
    pub fn new(fs: &'a FileSystem) -> (r: Venv<'a>)
        ensures
            r.fs == fs,
    {
        Venv { fs }
    }
}

impl<'a> Locator for Venv<'a> {
    fn resolve(&self, env: &PythonEnv) -> (r: Option<PythonEnvironment>)
        ensures
            r.deep_view() == resolved(self.fs.deep_view(), env.deep_view()),
    {
        if !is_venv(self.fs, env) {
            return None;
        }
        let version = match find_and_parse_pyvenv_cfg(self.fs, env.executable.as_str()) {
            Some(cfg) => Some(cfg.version),
            None => clone_option(&env.version),
        };
        Some(
            PythonEnvironment::new(
                None,
                get_directory_name(&env.path),
                Some(env.executable.clone()),
                PythonEnvironmentCategory::Venv,
                version,
                clone_option(&env.path),
                None,
                Some(direct_command(env.executable.as_str())),
            ),
        )
    }

    /// A venv can lie anywhere: there is no place to look for all of them.
    fn find(&mut self) -> (r: Option<LocatorResult>)
        ensures
            r is None,
            final(self).fs == old(self).fs,
    {
        None
    }
}

} // verus!

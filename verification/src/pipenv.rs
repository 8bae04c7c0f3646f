//! Environments made by Pipenv.

use crate::filesystem::{exists_at, text_at, EntryView, FileSystem};
use crate::locator::{Locator, LocatorResult};
use crate::messaging::{
    new_environment, PythonEnvironment, PythonEnvironmentCategory, PythonEnvironmentView,
};
use crate::paths::{join, join_path};
use crate::pyenv::direct_command;
use crate::text::{clone_option, trim, trim_str};
use crate::utils::{PythonEnv, PythonEnvView};
use vstd::prelude::*;

verus! {

/// The project that the environment of the candidate `env` belongs to: the
/// directory that the file `.project` of the environment names, where it is there.
pub open spec fn pipenv_project(disk: Seq<EntryView>, env: PythonEnvView) -> Option<Seq<char>> {
    match env.path {
        None => None,
        Some(path) => match text_at(disk, join(path, ".project"@)) {
            None => None,
            Some(contents) => if exists_at(disk, trim(contents)) {
                Some(trim(contents))
            } else {
                None
            },
        },
    }
}

/// The candidate `env` is Pipenv's: its project holds a `Pipfile`.
pub open spec fn pipenv(disk: Seq<EntryView>, env: PythonEnvView) -> bool {
    match pipenv_project(disk, env) {
        Some(project) => exists_at(disk, join(project, "Pipfile"@)),
        None => false,
    }
}

fn get_pipenv_project(fs: &FileSystem, env: &PythonEnv) -> (r: Option<String>)
    ensures
        r.deep_view() == pipenv_project(fs.deep_view(), env.deep_view()),
{
    let path = match &env.path {
        Some(path) => path,
        None => { return None; },
    };
    let project_file = join_path(path.as_str(), ".project");
    match fs.read_to_string(project_file.as_str()) {
        Some(contents) => {
            let project_folder = trim_str(contents.as_str());
            if fs.is_present(project_folder.as_str()) {
                Some(project_folder)
            } else {
                None
            }
        },
        None => None,
    }
}

pub fn is_pipenv(fs: &FileSystem, env: &PythonEnv) -> (r: bool)
    ensures
        r == pipenv(fs.deep_view(), env.deep_view()),
{
    match get_pipenv_project(fs, env) {
        Some(project) => fs.is_present(join_path(project.as_str(), "Pipfile").as_str()),
        None => false,
    }
}

/// The record of the candidate `env`, where it is Pipenv's.
pub open spec fn resolved(disk: Seq<EntryView>, env: PythonEnvView) -> Option<PythonEnvironmentView> {
    if pipenv(disk, env) {
        Some(
            PythonEnvironmentView {
                project_path: pipenv_project(disk, env),
                ..new_environment(
                    None,
                    None,
                    Some(env.executable),
                    PythonEnvironmentCategory::Pipenv,
                    env.version,
                    env.path,
                    None,
                    Some(seq![env.executable]),
                )
            },
        )
    } else {
        None
    }
}

/// The Pipenv source.
pub struct PipEnv<'a> {
    pub fs: &'a FileSystem,
}

impl<'a> PipEnv<'a> {
    pub fn new(fs: &'a FileSystem) -> (r: PipEnv<'a>)
        ensures
            r.fs == fs,
    {
        PipEnv { fs }
    }
}

impl<'a> Locator for PipEnv<'a> {
    fn resolve(&self, env: &PythonEnv) -> (r: Option<PythonEnvironment>)
        ensures
            r.deep_view() == resolved(self.fs.deep_view(), env.deep_view()),
    {
        if !is_pipenv(self.fs, env) {
            return None;
        }
        let project_path = get_pipenv_project(self.fs, env);
        let mut record = PythonEnvironment::new(
            None,
            None,
            Some(env.executable.clone()),
            PythonEnvironmentCategory::Pipenv,
            clone_option(&env.version),
            clone_option(&env.path),
            None,
            Some(direct_command(env.executable.as_str())),
        );
        record.project_path = project_path;
        Some(record)
    }

    /// A Pipenv environment is found from its candidate only.
    fn find(&mut self) -> (r: Option<LocatorResult>)
        ensures
            r is None,
            final(self).fs == old(self).fs,
    {
        None
    }
}

} // verus!

//! Environments made by `virtualenv`.

use crate::filesystem::{exists_at, listing, EntryView, FileSystem};
use crate::locator::{Locator, LocatorResult};
use crate::messaging::{
    new_environment, PythonEnvironment, PythonEnvironmentCategory, PythonEnvironmentView,
};
use crate::paths::{file_name, file_name_of, join, join_path, parent, parent_of};
use crate::pyenv::direct_command;
use crate::text::{clone_option, starts_with, starts_with_str};
use crate::utils::{PythonEnv, PythonEnvView};
use crate::venv::{directory_name, get_directory_name};
use vstd::prelude::*;

verus! {

/// The file `file` is named `activate`, with or without something behind it.
pub open spec fn activation_script(file: Seq<char>) -> bool {
    match file_name(file) {
        Some(name) => starts_with(name, "activate"@),
        None => false,
    }
}

/// Some file of `files` is an activation script.
pub open spec fn any_activation_script(files: Seq<Seq<char>>) -> bool {
    exists|i: int| 0 <= i < files.len() && activation_script(#[trigger] files[i])
}

/// The directory `directory` holds an activation script.
pub open spec fn has_activation_script(disk: Seq<EntryView>, directory: Seq<char>) -> bool {
    exists_at(disk, join(directory, "activate"@)) || exists_at(
        disk,
        join(directory, "activate.bat"@),
    ) || match listing(disk, directory) {
        Some(files) => any_activation_script(files),
        None => false,
    }
}

/// The candidate `env` is a virtualenv: its directory is known and an
/// activation script lies beside its executable.
pub open spec fn virtualenv(disk: Seq<EntryView>, env: PythonEnvView) -> bool {
    env.path is Some && match parent(env.executable) {
        Some(directory) => has_activation_script(disk, directory),
        None => false,
    }
}

#[verifier::loop_isolation(false)]
pub fn is_virtualenv(fs: &FileSystem, env: &PythonEnv) -> (r: bool)
    ensures
        r == virtualenv(fs.deep_view(), env.deep_view()),
{
    if env.path.is_none() {
        return false;
    }
    let directory = match parent_of(env.executable.as_str()) {
        Some(directory) => directory,
        None => { return false; },
    };
    if fs.is_present(join_path(directory.as_str(), "activate").as_str()) || fs.is_present(
        join_path(directory.as_str(), "activate.bat").as_str(),
    ) {
        return true;
    }
    let files = match fs.read_dir(directory.as_str()) {
        Some(files) => files,
        None => { return false; },
    };
    let ghost all = files.deep_view();
    let mut i: usize = 0;
    while i < files.len()
        invariant
            i <= files.len(),
            all == files.deep_view(),
            forall|k: int| 0 <= k < i ==> !activation_script(#[trigger] all[k]),
        decreases files.len() - i,
    {
        let named = match file_name_of(files[i].as_str()) {
            Some(name) => starts_with_str(name.as_str(), "activate"),
            None => false,
        };
        if named {
            assert(activation_script(all[i as int]));
            return true;
        }
        i = i + 1;
    }
    false
}

/// The record of the candidate `env`, where it is a virtualenv.
pub open spec fn resolved(disk: Seq<EntryView>, env: PythonEnvView) -> Option<PythonEnvironmentView> {
    if virtualenv(disk, env) {
        Some(
            new_environment(
                None,
                directory_name(env.path),
                Some(env.executable),
                PythonEnvironmentCategory::VirtualEnv,
                env.version,
                env.path,
                None,
                Some(seq![env.executable]),
            ),
        )
    } else {
        None
    }
}

/// The virtualenv source.
pub struct VirtualEnv<'a> {
    pub fs: &'a FileSystem,
}

impl<'a> VirtualEnv<'a> {
    pub fn new(fs: &'a FileSystem) -> (r: VirtualEnv<'a>)
        ensures
            r.fs == fs,
    {
        VirtualEnv { fs }
    }
}

impl<'a> Locator for VirtualEnv<'a> {
    fn resolve(&self, env: &PythonEnv) -> (r: Option<PythonEnvironment>)
        ensures
            r.deep_view() == resolved(self.fs.deep_view(), env.deep_view()),
    {
        if !is_virtualenv(self.fs, env) {
            return None;
        }
        Some(
            PythonEnvironment::new(
                None,
                get_directory_name(&env.path),
                Some(env.executable.clone()),
                PythonEnvironmentCategory::VirtualEnv,
                clone_option(&env.version),
                clone_option(&env.path),
                None,
                Some(direct_command(env.executable.as_str())),
            ),
        )
    }

    /// A virtualenv can lie anywhere: there is no place to look for all of them.
    fn find(&mut self) -> (r: Option<LocatorResult>)
        ensures
            r is None,
            final(self).fs == old(self).fs,
    {
        None
    }
}

} // verus!

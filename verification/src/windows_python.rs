//! The launchers of the Windows store, taken by their names alone.
//!
//! This source needs no registry. It knows of a launcher only that it is one.

use crate::common_python::windows_apps;
use crate::filesystem::{is_file_at, listing, EntryView, FileSystem};
use crate::known::{Environment, Known};
use crate::lists::{lemma_select_step, select};
use crate::locator::{Locator, LocatorResult, LocatorResultView};
use crate::messaging::{
    new_environment, EnvManagerView, PythonEnvironment, PythonEnvironmentCategory,
    PythonEnvironmentView,
};
use crate::paths::join_path;
use crate::pyenv::direct_command;
use crate::utils::{PythonEnv, PythonEnvView};
use crate::windows_store::{is_windows_python_executable, windows_python_executable};
use vstd::prelude::*;

verus! {

/// The launchers of the store: the files of the directory of launchers that
/// are named like one. `None` where the user's home is unknown or the
/// directory cannot be read.
pub open spec fn store_launchers(known: Known, disk: Seq<EntryView>) -> Option<Seq<Seq<char>>> {
    match known.home {
        None => None,
        Some(home) => match listing(disk, windows_apps(home)) {
            None => None,
            Some(files) => Some(
                select(
                    files,
                    |file: Seq<char>| is_file_at(disk, file) && windows_python_executable(file),
                ),
            ),
        },
    }
}

/// The launchers of the store.
pub fn list_store_launchers<E: Environment>(environment: &E, fs: &FileSystem) -> (r: Option<
    Vec<String>,
>)
    ensures
        r.deep_view() == store_launchers(environment.known(), fs.deep_view()),
{
    let home = match environment.get_user_home() {
        Some(home) => home,
        None => { return None; },
    };
    let apps_path = join_path(home.as_str(), "AppData/Local/Microsoft/WindowsApps");
    let files = match fs.read_dir(apps_path.as_str()) {
        Some(files) => files,
        None => { return None; },
    };
    let ghost disk = fs.deep_view();
    let ghost keep = |file: Seq<char>| is_file_at(disk, file) && windows_python_executable(file);
    let ghost all = files.deep_view();
    let mut out: Vec<String> = Vec::new();
    let mut i: usize = 0;
    assert(out.deep_view() =~= select(all.take(0), keep));
    while i < files.len()
        invariant
            i <= files.len(),
            disk == fs.deep_view(),
            all == files.deep_view(),
            keep == |file: Seq<char>| is_file_at(disk, file) && windows_python_executable(file),
            out.deep_view() == select(all.take(i as int), keep),
        decreases files.len() - i,
    {
        proof {
            lemma_select_step(all, keep, i as int);
        }
        if fs.is_file(files[i].as_str()) && is_windows_python_executable(files[i].as_str()) {
            let ghost before = out.deep_view();
            out.push(files[i].clone());
            assert(out.deep_view() =~= before.push(all[i as int]));
        }
        i = i + 1;
    }
    assert(all.take(all.len() as int) == all);
    Some(out)
}

/// The record of a launcher.
pub open spec fn launcher_record(executable: Seq<char>) -> PythonEnvironmentView {
    new_environment(
        None,
        None,
        Some(executable),
        PythonEnvironmentCategory::WindowsStore,
        None,
        None,
        None,
        Some(seq![executable]),
    )
}

/// The record of the candidate `env`, where it is named like a launcher.
pub open spec fn resolved(env: PythonEnvView) -> Option<PythonEnvironmentView> {
    if windows_python_executable(env.executable) {
        Some(launcher_record(env.executable))
    } else {
        None
    }
}

/// The records of the launchers `launchers`.
pub open spec fn launcher_records(launchers: Seq<Seq<char>>) -> Seq<PythonEnvironmentView> {
    Seq::new(launchers.len(), |i: int| launcher_record(launchers[i]))
}

/// Everything that this source finds.
pub open spec fn found(known: Known, disk: Seq<EntryView>) -> Option<LocatorResultView> {
    match store_launchers(known, disk) {
        None => None,
        Some(launchers) => if launchers.len() == 0 {
            None
        } else {
            Some(
                LocatorResultView { managers: seq![], environments: launcher_records(launchers) },
            )
        },
    }
}

/// The record of a launcher.
pub fn get_launcher_record(executable: &str) -> (r: PythonEnvironment)
    ensures
        r.deep_view() == launcher_record(executable@),
{
    PythonEnvironment::new(
        None,
        None,
        Some(executable.to_owned()),
        PythonEnvironmentCategory::WindowsStore,
        None,
        None,
        None,
        Some(direct_command(executable)),
    )
}

/// The source of launchers.
pub struct WindowsPython<'a, E: Environment> {
    pub environment: &'a E,
    pub fs: &'a FileSystem,
}

impl<'a, E: Environment> WindowsPython<'a, E> {
    pub fn with(environment: &'a E, fs: &'a FileSystem) -> (r: WindowsPython<'a, E>)
        ensures
            r.environment == environment,
            r.fs == fs,
    {
        WindowsPython { environment, fs }
    }
}

impl<'a, E: Environment> Locator for WindowsPython<'a, E> {
    fn resolve(&self, env: &PythonEnv) -> (r: Option<PythonEnvironment>)
        ensures
            r.deep_view() == resolved(env.deep_view()),
    {
        if is_windows_python_executable(env.executable.as_str()) {
            Some(get_launcher_record(env.executable.as_str()))
        } else {
            None
        }
    }

    #[verifier::loop_isolation(false)]
    fn find(&mut self) -> (r: Option<LocatorResult>)
        ensures
            r.deep_view() == found(old(self).environment.known(), old(self).fs.deep_view()),
            *final(self) == *old(self),
    {
        let launchers = match list_store_launchers(self.environment, self.fs) {
            Some(launchers) => launchers,
            None => { return None; },
        };
        let ghost all = launchers.deep_view();
        let mut environments: Vec<PythonEnvironment> = Vec::new();
        let mut i: usize = 0;
        assert(environments.deep_view() =~= launcher_records(all.take(0)));
        while i < launchers.len()
            invariant
                i <= launchers.len(),
                environments.deep_view() == launcher_records(all.take(i as int)),
            decreases launchers.len() - i,
        {
            let ghost before = environments.deep_view();
            let record = get_launcher_record(launchers[i].as_str());
            environments.push(record);
            assert(environments.deep_view() =~= before.push(record.deep_view()));
            i = i + 1;
            assert(environments.deep_view() =~= launcher_records(all.take(i as int)));
        }
        assert(all.take(all.len() as int) == all);
        if environments.len() == 0 {
            None
        } else {
            let r = LocatorResult { managers: Vec::new(), environments };
            assert(r.deep_view().managers =~= Seq::<EnvManagerView>::empty());
            Some(r)
        }
    }
}

} // verus!

//! Pythons that pyenv installed, and the virtual environments it manages.

use crate::conda::{
    append_environments, append_managers, conda_env_location, conda_install_location,
    environments_of, found_in, is_conda_env_location, is_conda_install_location,
    lemma_found_in_of_conda, managers_of, run_by_conda, Conda, CondaLocator, Discovered,
};
use crate::filesystem::{
    exists_at, is_dir_at, link_target_at, listing, text_at, EntryView, FileSystem,
};
use crate::known::{Environment, Known, Platform};
use crate::lists::{first_some, lemma_first_some_step};
use crate::locator::{some_unless_empty, Locator, LocatorResult, LocatorResultView};
use crate::messaging::{
    clone_manager_option, new_environment, Architecture, EnvManager, EnvManagerType,
    EnvManagerView, PythonEnvironment, PythonEnvironmentCategory, PythonEnvironmentView,
};
use crate::paths::{
    file_name, file_name_of, is_under, is_under_path, join, join_path, parent, parent_of,
};
use crate::pattern::{first_group, first_of, regex_capture};
use crate::text::{
    clone_option, ends_with, ends_with_str, lowercase, lowercase_str, starts_with, starts_with_str,
};
use crate::utils::{
    find_and_parse_pyvenv_cfg, find_python_binary_path, python_binary_path, pyvenv_cfg_version,
    PythonEnv, PythonEnvView,
};
use vstd::prelude::*;

verus! {

/// Where pyenv is on the machine.
#[derive(Debug, PartialEq, Eq)]
pub struct PyEnvInfo {
    /// The `pyenv` executable.
    pub exe: Option<String>,
    /// The directory that holds one directory for each installed version.
    pub versions: Option<String>,
    /// The version of pyenv itself.
    pub version: Option<String>,
}

pub struct PyEnvInfoView {
    pub exe: Option<Seq<char>>,
    pub versions: Option<Seq<char>>,
    pub version: Option<Seq<char>>,
}

impl DeepView for PyEnvInfo {
    type V = PyEnvInfoView;

    open spec fn deep_view(&self) -> PyEnvInfoView {
        PyEnvInfoView {
            exe: self.exe.deep_view(),
            versions: self.versions.deep_view(),
            version: self.version.deep_view(),
        }
    }
}

/// The directory of pyenv under the user's home.
pub open spec fn home_pyenv_dir(known: Known) -> Option<Seq<char>> {
    match known.home {
        None => None,
        Some(home) => match known.platform {
            Platform::Windows => Some(join(join(home, ".pyenv"@), "pyenv-win"@)),
            Platform::Unix => Some(join(home, ".pyenv"@)),
        },
    }
}

pub fn get_home_pyenv_dir<E: Environment>(environment: &E) -> (r: Option<String>)
    ensures
        r.deep_view() == home_pyenv_dir(environment.known()),
{
    let home = match environment.get_user_home() {
        Some(home) => home,
        None => { return None; },
    };
    let pyenv = join_path(home.as_str(), ".pyenv");
    match environment.get_platform() {
        Platform::Windows => Some(join_path(pyenv.as_str(), "pyenv-win")),
        Platform::Unix => Some(pyenv),
    }
}

/// The `pyenv` executable in the first searched directory that holds one.
pub open spec fn binary_from_known_paths(known: Known, disk: Seq<EntryView>) -> Option<Seq<char>> {
    first_some(
        known.search_locations,
        |location: Seq<char>|
            if exists_at(disk, join(location, "pyenv"@)) {
                Some(join(location, "pyenv"@))
            } else {
                None
            },
    )
}

pub fn get_binary_from_known_paths<E: Environment>(environment: &E, fs: &FileSystem) -> (r: Option<
    String,
>)
    ensures
        r.deep_view() == binary_from_known_paths(environment.known(), fs.deep_view()),
{
    let locations = environment.get_know_global_search_locations();
    let ghost disk = fs.deep_view();
    let ghost all = locations.deep_view();
    let ghost f = |location: Seq<char>|
        if exists_at(disk, join(location, "pyenv"@)) {
            Some(join(location, "pyenv"@))
        } else {
            None
        };
    let mut i: usize = 0;
    assert(all.subrange(0, all.len() as int) == all);
    while i < locations.len()
        invariant
            i <= locations.len(),
            disk == fs.deep_view(),
            all == locations.deep_view(),
            all == environment.known().search_locations,
            f == |location: Seq<char>|
                if exists_at(disk, join(location, "pyenv"@)) {
                    Some(join(location, "pyenv"@))
                } else {
                    None
                },
            first_some(all.subrange(i as int, all.len() as int), f) == first_some(all, f),
        decreases locations.len() - i,
    {
        proof {
            lemma_first_some_step(all, f, i as int);
        }
        let bin = join_path(locations[i].as_str(), "pyenv");
        if fs.is_present(bin.as_str()) {
            return Some(bin);
        }
        i = i + 1;
    }
    None
}

/// The directory of pyenv that the variables name: `PYENV_ROOT`, else `PYENV`.
pub open spec fn pyenv_dir(known: Known) -> Option<Seq<char>> {
    match known.var("PYENV_ROOT"@) {
        Some(dir) => Some(dir),
        None => known.var("PYENV"@),
    }
}

pub fn get_pyenv_dir<E: Environment>(environment: &E) -> (r: Option<String>)
    ensures
        r.deep_view() == pyenv_dir(environment.known()),
{
    match environment.get_env_var("PYENV_ROOT".to_owned()) {
        Some(dir) => Some(dir),
        None => environment.get_env_var("PYENV".to_owned()),
    }
}

/// `path` where something is at `path`.
pub open spec fn if_exists(disk: Seq<EntryView>, path: Seq<char>) -> Option<Seq<char>> {
    if exists_at(disk, path) {
        Some(path)
    } else {
        None
    }
}

/// `child` under `dir`, where `dir` is known and the child is there.
pub open spec fn existing_child(disk: Seq<EntryView>, dir: Option<Seq<char>>, child: Seq<char>) -> Option<
    Seq<char>,
> {
    match dir {
        Some(dir) => if_exists(disk, join(dir, child)),
        None => None,
    }
}

/// The `pyenv` executable: the one in a searched directory, else the one
/// in the directory that the variables name, else the one under the user's home.
pub open spec fn pyenv_exe(known: Known, disk: Seq<EntryView>) -> Option<Seq<char>> {
    match binary_from_known_paths(known, disk) {
        Some(exe) => Some(exe),
        None => match existing_child(disk, pyenv_dir(known), "bin/pyenv"@) {
            Some(exe) => Some(exe),
            None => existing_child(disk, home_pyenv_dir(known), "bin/pyenv"@),
        },
    }
}

/// The directory of versions: the one in the directory that the variables
/// name, else the one under the user's home.
pub open spec fn pyenv_versions(known: Known, disk: Seq<EntryView>) -> Option<Seq<char>> {
    match existing_child(disk, pyenv_dir(known), "versions"@) {
        Some(versions) => Some(versions),
        None => existing_child(disk, home_pyenv_dir(known), "versions"@),
    }
}

/// The pattern of the version in the file that pyenv for Windows keeps.
pub open spec fn version_file_pattern() -> Seq<char> {
    "(\\d+\\.\\d+\\.\\d+)"@
}

/// The pattern of the version in the real path of the `pyenv` executable.
pub open spec fn version_in_path_pattern() -> Seq<char> {
    "pyenv/((\\d+\\.?)*)/"@
}

/// The file in which pyenv for Windows keeps its version: `.version` in the
/// directory that the variables name, else in the directory above.
pub open spec fn version_file(known: Known, disk: Seq<EntryView>) -> Option<Seq<char>> {
    match pyenv_dir(known) {
        None => None,
        Some(dir) => if exists_at(disk, join(dir, ".version"@)) {
            Some(join(dir, ".version"@))
        } else {
            match parent(dir) {
                None => None,
                Some(above) => if_exists(disk, join(above, ".version"@)),
            }
        },
    }
}

/// The version of pyenv itself. On Windows a file holds it; on Unix the real
/// path of the executable names it. The executable is never run.
pub open spec fn pyenv_manager_version(known: Known, disk: Seq<EntryView>, pyenv_exe: Seq<char>) -> Option<
    Seq<char>,
> {
    match known.platform {
        Platform::Windows => match version_file(known, disk) {
            None => None,
            Some(file) => match text_at(disk, file) {
                None => None,
                Some(text) => regex_capture(version_file_pattern(), text, 1),
            },
        },
        Platform::Unix => match link_target_at(disk, pyenv_exe) {
            None => None,
            Some(real_path) => regex_capture(version_in_path_pattern(), real_path, 1),
        },
    }
}

fn get_pyenv_manager_version<E: Environment>(environment: &E, fs: &FileSystem, pyenv_exe: &str) -> (r:
    Option<String>)
    ensures
        r.deep_view() == pyenv_manager_version(environment.known(), fs.deep_view(), pyenv_exe@),
{
    match environment.get_platform() {
        Platform::Windows => {
            let dir = match get_pyenv_dir(environment) {
                Some(dir) => dir,
                None => { return None; },
            };
            let mut file = join_path(dir.as_str(), ".version");
            if !fs.is_present(file.as_str()) {
                let above = match parent_of(dir.as_str()) {
                    Some(above) => above,
                    None => { return None; },
                };
                file = join_path(above.as_str(), ".version");
                if !fs.is_present(file.as_str()) {
                    return None;
                }
            }
            match fs.read_to_string(file.as_str()) {
                Some(text) => first_group("(\\d+\\.\\d+\\.\\d+)", text.as_str()),
                None => None,
            }
        },
        Platform::Unix => match fs.read_link(pyenv_exe) {
            Some(real_path) => first_group("pyenv/((\\d+\\.?)*)/", real_path.as_str()),
            None => None,
        },
    }
}

/// Where pyenv is on the machine.
pub open spec fn pyenv_info(known: Known, disk: Seq<EntryView>) -> PyEnvInfoView {
    PyEnvInfoView {
        exe: pyenv_exe(known, disk),
        versions: pyenv_versions(known, disk),
        version: match pyenv_exe(known, disk) {
            Some(exe) => pyenv_manager_version(known, disk, exe),
            None => None,
        },
    }
}

/// `child` under `dir`, where `dir` is known and the child is there.
fn find_existing_child(fs: &FileSystem, dir: &Option<String>, child: &str) -> (r: Option<String>)
    ensures
        r.deep_view() == existing_child(fs.deep_view(), dir.deep_view(), child@),
{
    match dir {
        Some(dir) => {
            let path = join_path(dir.as_str(), child);
            if fs.is_present(path.as_str()) {
                Some(path)
            } else {
                None
            }
        },
        None => None,
    }
}

pub fn get_pyenv_info<E: Environment>(environment: &E, fs: &FileSystem) -> (r: PyEnvInfo)
    ensures
        r.deep_view() == pyenv_info(environment.known(), fs.deep_view()),
{
    let dir = get_pyenv_dir(environment);
    let home_dir = get_home_pyenv_dir(environment);
    let exe = match get_binary_from_known_paths(environment, fs) {
        Some(exe) => Some(exe),
        None => match find_existing_child(fs, &dir, "bin/pyenv") {
            Some(exe) => Some(exe),
            None => find_existing_child(fs, &home_dir, "bin/pyenv"),
        },
    };
    let versions = match find_existing_child(fs, &dir, "versions") {
        Some(versions) => Some(versions),
        None => find_existing_child(fs, &home_dir, "versions"),
    };
    let version = match &exe {
        Some(exe) => get_pyenv_manager_version(environment, fs, exe.as_str()),
        None => None,
    };
    PyEnvInfo { exe, versions, version }
}

/// The pattern of a stable release: `3.10.10`.
pub open spec fn stable_pattern() -> Seq<char> {
    "^(\\d+\\.\\d+\\.\\d+)$"@
}

/// The pattern of a development version: `3.10-dev`.
pub open spec fn dev_pattern() -> Seq<char> {
    "^(\\d+\\.\\d+-dev)$"@
}

/// The pattern of an alpha, beta or release candidate: `3.10.0a3`.
pub open spec fn prerelease_pattern() -> Seq<char> {
    "^(\\d+\\.\\d+.\\d+\\w\\d+)"@
}

/// The pattern of a prerelease for 32-bit Windows: `3.11.0a4-win32`.
pub open spec fn win32_pattern() -> Seq<char> {
    "^(\\d+\\.\\d+.\\d+\\w\\d+)-win32"@
}

/// The version that the first of four captures gives, in the order stable,
/// development, prerelease, 32-bit Windows.
pub open spec fn first_version(
    stable: Option<Seq<char>>,
    dev: Option<Seq<char>>,
    prerelease: Option<Seq<char>>,
    win32: Option<Seq<char>>,
) -> Option<Seq<char>> {
    first_of(stable, first_of(dev, first_of(prerelease, win32)))
}

/// The version of CPython that a directory named `folder_name` holds.
pub open spec fn version_in_name(folder_name: Seq<char>) -> Option<Seq<char>> {
    first_version(
        regex_capture(stable_pattern(), folder_name, 1),
        regex_capture(dev_pattern(), folder_name, 1),
        regex_capture(prerelease_pattern(), folder_name, 1),
        regex_capture(win32_pattern(), folder_name, 1),
    )
}

/// The version that the first of four captures gives.
pub fn pick_first_version(
    stable: Option<String>,
    dev: Option<String>,
    prerelease: Option<String>,
    win32: Option<String>,
) -> (r: Option<String>)
    ensures
        r.deep_view() == first_version(
            stable.deep_view(),
            dev.deep_view(),
            prerelease.deep_view(),
            win32.deep_view(),
        ),
{
    match stable {
        Some(version) => Some(version),
        None => match dev {
            Some(version) => Some(version),
            None => match prerelease {
                Some(version) => Some(version),
                None => win32,
            },
        },
    }
}

pub fn get_version(folder_name: &str) -> (r: Option<String>)
    ensures
        r.deep_view() == version_in_name(folder_name@),
{
    pick_first_version(
        first_group("^(\\d+\\.\\d+\\.\\d+)$", folder_name),
        first_group("^(\\d+\\.\\d+-dev)$", folder_name),
        first_group("^(\\d+\\.\\d+.\\d+\\w\\d+)", folder_name),
        first_group("^(\\d+\\.\\d+.\\d+\\w\\d+)-win32", folder_name),
    )
}

/// The record of a CPython that pyenv installed in `path`, given the version
/// that the name of `path` holds.
pub open spec fn pure_python_environment_with(
    executable: Seq<char>,
    path: Seq<char>,
    manager: Option<EnvManagerView>,
    version: Option<Seq<char>>,
) -> Option<PythonEnvironmentView> {
    match file_name(path) {
        None => None,
        Some(name) => match version {
            None => None,
            Some(version) => Some(
                PythonEnvironmentView {
                    arch: if ends_with(name, "-win32"@) {
                        Some(Architecture::X86)
                    } else {
                        None
                    },
                    ..new_environment(
                        None,
                        None,
                        Some(executable),
                        PythonEnvironmentCategory::Pyenv,
                        Some(version),
                        Some(path),
                        manager,
                        Some(seq![executable]),
                    )
                },
            ),
        },
    }
}

/// The record of a CPython that pyenv installed in `path`. There is none
/// where the name of `path` is no version.
pub open spec fn pure_python_environment(
    executable: Seq<char>,
    path: Seq<char>,
    manager: Option<EnvManagerView>,
) -> Option<PythonEnvironmentView> {
    pure_python_environment_with(
        executable,
        path,
        manager,
        match file_name(path) {
            Some(name) => version_in_name(name),
            None => None,
        },
    )
}

/// The command that runs `executable` directly.
pub fn direct_command(executable: &str) -> (r: Vec<String>)
    ensures
        r.deep_view() == seq![executable@],
{
    let mut out: Vec<String> = Vec::new();
    out.push(executable.to_owned());
    assert(out.deep_view() =~= seq![executable@]);
    out
}

/// The record of a CPython that pyenv installed in `path`, given the version
/// that the name of `path` holds.
pub fn get_pure_python_environment_with(
    executable: &str,
    path: &str,
    manager: &Option<EnvManager>,
    version: Option<String>,
) -> (r: Option<PythonEnvironment>)
    ensures
        r.deep_view() == pure_python_environment_with(
            executable@,
            path@,
            manager.deep_view(),
            version.deep_view(),
        ),
{
    let name = match file_name_of(path) {
        Some(name) => name,
        None => { return None; },
    };
    let version = match version {
        Some(version) => version,
        None => { return None; },
    };
    let mut env = PythonEnvironment::new(
        None,
        None,
        Some(executable.to_owned()),
        PythonEnvironmentCategory::Pyenv,
        Some(version),
        Some(path.to_owned()),
        clone_manager_option(manager),
        Some(direct_command(executable)),
    );
    if ends_with_str(name.as_str(), "-win32") {
        env.arch = Some(Architecture::X86);
    }
    Some(env)
}

pub fn get_pure_python_environment(executable: &str, path: &str, manager: &Option<EnvManager>) -> (r:
    Option<PythonEnvironment>)
    ensures
        r.deep_view() == pure_python_environment(executable@, path@, manager.deep_view()),
{
    let version = match file_name_of(path) {
        Some(name) => get_version(name.as_str()),
        None => None,
    };
    get_pure_python_environment_with(executable, path, manager, version)
}

/// The name of `path` is that of a Conda distribution.
pub open spec fn conda_distribution_name(path: Seq<char>) -> bool {
    match file_name(path) {
        None => false,
        Some(name) => starts_with(lowercase(name), "anaconda"@) || starts_with(
            lowercase(name),
            "miniconda"@,
        ) || starts_with(lowercase(name), "miniforge"@),
    }
}

/// The directory `path` is Conda's: it is named like a Conda distribution, or
/// it is an installation of Conda, or it is a Conda environment.
pub open spec fn conda_environment(disk: Seq<EntryView>, path: Seq<char>) -> bool {
    conda_distribution_name(path) || conda_install_location(disk, path) || conda_env_location(
        disk,
        path,
    )
}

pub fn is_conda_environment(fs: &FileSystem, path: &str) -> (r: bool)
    ensures
        r == conda_environment(fs.deep_view(), path@),
{
    let named = match file_name_of(path) {
        Some(name) => {
            let name = lowercase_str(name.as_str());
            starts_with_str(name.as_str(), "anaconda") || starts_with_str(
                name.as_str(),
                "miniconda",
            ) || starts_with_str(name.as_str(), "miniforge")
        },
        None => false,
    };
    named || is_conda_install_location(fs, path) || is_conda_env_location(fs, path)
}

/// The record of a virtual environment that pyenv manages in `path`. There
/// is none without a `pyvenv.cfg` that gives a version.
pub open spec fn virtual_env_environment(
    disk: Seq<EntryView>,
    executable: Seq<char>,
    path: Seq<char>,
    manager: Option<EnvManagerView>,
) -> Option<PythonEnvironmentView> {
    match pyvenv_cfg_version(disk, executable) {
        None => None,
        Some(version) => Some(
            new_environment(
                None,
                file_name(path),
                Some(executable),
                PythonEnvironmentCategory::PyenvVirtualEnv,
                Some(version),
                Some(path),
                manager,
                Some(seq![executable]),
            ),
        ),
    }
}

/// A directory of pyenv whose name is a version holds a CPython: the record
/// has that version, is run by its executable alone and carries `manager`.
pub proof fn lemma_version_directory_is_a_cpython(
    executable: Seq<char>,
    path: Seq<char>,
    manager: Option<EnvManagerView>,
    name: Seq<char>,
    version: Seq<char>,
)
    requires
        file_name(path) == Some(name),
        version_in_name(name) == Some(version),
    ensures
        pure_python_environment(executable, path, manager) is Some,
        ({
            let env = pure_python_environment(executable, path, manager)->0;
            &&& env.category == PythonEnvironmentCategory::Pyenv
            &&& env.version == Some(version)
            &&& env.name is None
            &&& env.env_path == Some(path)
            &&& env.python_executable_path == Some(executable)
            &&& env.python_run_command == Some(seq![executable])
            &&& env.env_manager == manager
        }),
{
}

/// A directory of pyenv whose `pyvenv.cfg` gives a version is a virtual
/// environment: the record is named after the directory, has the version of
/// the file, is run by its executable alone and carries `manager`.
pub proof fn lemma_configured_directory_is_a_virtual_environment(
    disk: Seq<EntryView>,
    executable: Seq<char>,
    path: Seq<char>,
    manager: Option<EnvManagerView>,
    version: Seq<char>,
)
    requires
        pyvenv_cfg_version(disk, executable) == Some(version),
    ensures
        virtual_env_environment(disk, executable, path, manager) is Some,
        ({
            let env = virtual_env_environment(disk, executable, path, manager)->0;
            &&& env.category == PythonEnvironmentCategory::PyenvVirtualEnv
            &&& env.version == Some(version)
            &&& env.name == file_name(path)
            &&& env.env_path == Some(path)
            &&& env.python_executable_path == Some(executable)
            &&& env.python_run_command == Some(seq![executable])
            &&& env.env_manager == manager
        }),
{
}

/// The name decides before the file: a directory in pyenv's directory of
/// versions is reported as a CPython where its name is a version, and as a
/// virtual environment only where its name is none and its `pyvenv.cfg` gives
/// a version. Without either the candidate is not pyenv's.
pub proof fn lemma_name_decides_before_file(known: Known, disk: Seq<EntryView>, env: PythonEnvView)
    requires
        resolved(known, disk, env) is Some,
    ensures
        env.path is Some,
        ({
            let found = resolved(known, disk, env)->0;
            let manager = pyenv_manager(pyenv_info(known, disk));
            let by_name = pure_python_environment(env.executable, env.path->0, manager);
            &&& found.env_manager == manager
            &&& found.python_run_command == Some(seq![env.executable])
            &&& found.python_executable_path == Some(env.executable)
            &&& by_name is Some ==> found.category == PythonEnvironmentCategory::Pyenv
            &&& by_name is None ==> found.category == PythonEnvironmentCategory::PyenvVirtualEnv
                && found.version == pyvenv_cfg_version(disk, env.executable)
        }),
{
}

pub fn get_virtual_env_environment(
    fs: &FileSystem,
    executable: &str,
    path: &str,
    manager: &Option<EnvManager>,
) -> (r: Option<PythonEnvironment>)
    ensures
        r.deep_view() == virtual_env_environment(
            fs.deep_view(),
            executable@,
            path@,
            manager.deep_view(),
        ),
{
    let pyenv_cfg = match find_and_parse_pyvenv_cfg(fs, executable) {
        Some(cfg) => cfg,
        None => { return None; },
    };
    Some(
        PythonEnvironment::new(
            None,
            file_name_of(path),
            Some(executable.to_owned()),
            PythonEnvironmentCategory::PyenvVirtualEnv,
            Some(pyenv_cfg.version),
            Some(path.to_owned()),
            clone_manager_option(manager),
            Some(direct_command(executable)),
        ),
    )
}

/// What a walk through the directory of versions has gathered, and what the
/// Conda source remembers.
pub struct VersionsScan {
    pub managers: Seq<EnvManagerView>,
    pub environments: Seq<PythonEnvironmentView>,
    pub discovered: Discovered,
}

/// `scan`, once the entry `dir` of the directory of versions has been looked
/// at. A directory with an interpreter is a CPython where its name is a
/// version, else a virtual environment where it has a `pyvenv.cfg`, else
/// whatever the Conda source finds in it where it is Conda's.
pub open spec fn scan_version(
    known: Known,
    disk: Seq<EntryView>,
    manager: Option<EnvManagerView>,
    dir: Seq<char>,
    scan: VersionsScan,
) -> VersionsScan {
    if !is_dir_at(disk, dir) {
        scan
    } else {
        match python_binary_path(disk, known.platform, dir) {
            None => scan,
            Some(executable) => match pure_python_environment(executable, dir, manager) {
                Some(env) => VersionsScan { environments: scan.environments.push(env), ..scan },
                None => match virtual_env_environment(disk, executable, dir, manager) {
                    Some(env) => VersionsScan {
                        environments: scan.environments.push(env),
                        ..scan
                    },
                    None => if conda_environment(disk, dir) {
                        let found = found_in(known, disk, dir, scan.discovered);
                        VersionsScan {
                            managers: scan.managers + managers_of(found.result),
                            environments: scan.environments + environments_of(found.result),
                            discovered: found.discovered,
                        }
                    } else {
                        scan
                    },
                },
            },
        }
    }
}

/// `scan`, once the entries `dirs` have been looked at, in order.
pub open spec fn scan_versions(
    known: Known,
    disk: Seq<EntryView>,
    manager: Option<EnvManagerView>,
    dirs: Seq<Seq<char>>,
    scan: VersionsScan,
) -> VersionsScan
    decreases dirs.len(),
{
    if dirs.len() == 0 {
        scan
    } else {
        scan_version(
            known,
            disk,
            manager,
            dirs.last(),
            scan_versions(known, disk, manager, dirs.drop_last(), scan),
        )
    }
}

/// The environments in the directory of versions `versions_dir`. `None`
/// where the directory cannot be listed.
pub open spec fn pyenv_environments(
    known: Known,
    disk: Seq<EntryView>,
    manager: Option<EnvManagerView>,
    versions_dir: Seq<char>,
    discovered: Discovered,
) -> Option<VersionsScan> {
    match listing(disk, versions_dir) {
        None => None,
        Some(dirs) => Some(
            scan_versions(
                known,
                disk,
                manager,
                dirs,
                VersionsScan { managers: seq![], environments: seq![], discovered },
            ),
        ),
    }
}

pub fn list_pyenv_environments<'a, E: Environment>(
    manager: &Option<EnvManager>,
    versions_dir: &str,
    conda_locator: &mut Conda<'a, E>,
) -> (r: Option<LocatorResult>)
    ensures
        final(conda_locator).environment == old(conda_locator).environment,
        final(conda_locator).fs == old(conda_locator).fs,
        final(conda_locator).manager == old(conda_locator).manager,
        match pyenv_environments(
            old(conda_locator).environment.known(),
            old(conda_locator).fs.deep_view(),
            manager.deep_view(),
            versions_dir@,
            old(conda_locator).discovered(),
        ) {
            None => r is None && final(conda_locator).discovered() == old(
                conda_locator,
            ).discovered(),
            Some(scan) => r.deep_view() == Some(
                LocatorResultView { managers: scan.managers, environments: scan.environments },
            ) && final(conda_locator).discovered() == scan.discovered,
        },
{
    let fs = conda_locator.fs;
    let dirs = match fs.read_dir(versions_dir) {
        Some(dirs) => dirs,
        None => { return None; },
    };
    let platform = conda_locator.environment.get_platform();
    let ghost known = conda_locator.environment.known();
    let ghost disk = fs.deep_view();
    let ghost all = dirs.deep_view();
    let ghost start = VersionsScan {
        managers: seq![],
        environments: seq![],
        discovered: conda_locator.discovered(),
    };
    let mut envs: Vec<PythonEnvironment> = Vec::new();
    let mut managers: Vec<EnvManager> = Vec::new();
    assert(envs.deep_view() =~= Seq::<PythonEnvironmentView>::empty());
    assert(managers.deep_view() =~= Seq::<EnvManagerView>::empty());
    let mut i: usize = 0;
    while i < dirs.len()
        invariant
            i <= dirs.len(),
            disk == fs.deep_view(),
            all == dirs.deep_view(),
            conda_locator.fs == fs,
            conda_locator.environment == old(conda_locator).environment,
            conda_locator.manager == old(conda_locator).manager,
            known == conda_locator.environment.known(),
            platform == known.platform,
            (VersionsScan {
                managers: managers.deep_view(),
                environments: envs.deep_view(),
                discovered: conda_locator.discovered(),
            }) == scan_versions(known, disk, manager.deep_view(), all.take(i as int), start),
        decreases dirs.len() - i,
    {
        assert(all.take(i + 1).drop_last() == all.take(i as int));
        assert(all.take(i + 1).last() == dirs[i as int]@);
        let path = dirs[i].as_str();
        if fs.is_dir(path) {
            match find_python_binary_path(fs, platform, path) {
                Some(executable) => {
                    let ghost before = envs.deep_view();
                    match get_pure_python_environment(executable.as_str(), path, manager) {
                        Some(env) => {
                            envs.push(env);
                            assert(envs.deep_view() =~= before.push(env.deep_view()));
                        },
                        None => match get_virtual_env_environment(
                            fs,
                            executable.as_str(),
                            path,
                            manager,
                        ) {
                            Some(env) => {
                                envs.push(env);
                                assert(envs.deep_view() =~= before.push(env.deep_view()));
                            },
                            None => {
                                if is_conda_environment(fs, path) {
                                    match conda_locator.find_in(path) {
                                        Some(result) => {
                                            append_environments(&mut envs, result.environments);
                                            append_managers(&mut managers, result.managers);
                                        },
                                        None => {
                                            assert(envs.deep_view() + Seq::<
                                                PythonEnvironmentView,
                                            >::empty() =~= envs.deep_view());
                                            assert(managers.deep_view() + Seq::<
                                                EnvManagerView,
                                            >::empty() =~= managers.deep_view());
                                        },
                                    }
                                }
                            },
                        },
                    }
                },
                None => {},
            }
        }
        i = i + 1;
    }
    assert(all.take(all.len() as int) == all);
    Some(LocatorResult { managers, environments: envs })
}

/// The pyenv source. It owns the Conda source that it hands Conda's directories to.
pub struct PyEnv<'a, E: Environment> {
    pub environment: &'a E,
    pub fs: &'a FileSystem,
    pub conda_locator: Conda<'a, E>,
}

/// The manager that pyenv is, where its executable is known.
pub open spec fn pyenv_manager(info: PyEnvInfoView) -> Option<EnvManagerView> {
    match info.exe {
        None => None,
        Some(exe) => Some(
            EnvManagerView {
                executable_path: exe,
                version: info.version,
                tool: EnvManagerType::Pyenv,
                company: None,
                company_display_name: None,
            },
        ),
    }
}

/// The environment that the candidate `env` is, where it lies in pyenv's
/// directory of versions: a CPython, else a virtual environment.
pub open spec fn resolved(known: Known, disk: Seq<EntryView>, env: PythonEnvView) -> Option<
    PythonEnvironmentView,
> {
    let info = pyenv_info(known, disk);
    match env.path {
        None => None,
        Some(env_path) => match info.versions {
            None => None,
            Some(versions) => if is_under(env.executable, versions) {
                match pure_python_environment(env.executable, env_path, pyenv_manager(info)) {
                    Some(found) => Some(found),
                    None => virtual_env_environment(
                        disk,
                        env.executable,
                        env_path,
                        pyenv_manager(info),
                    ),
                }
            } else {
                None
            },
        },
    }
}

/// `list`, with `manager` behind it where there is one.
pub open spec fn with_manager(manager: Option<EnvManagerView>) -> Seq<EnvManagerView> {
    match manager {
        Some(manager) => seq![manager],
        None => seq![],
    }
}

/// Everything of pyenv on the machine: pyenv itself as a manager, the
/// environments in its directory of versions, and what the Conda source
/// found there; with what the Conda source remembers afterwards. The Conda
/// source reads the machine that it was made for, which `conda_known` and
/// `conda_disk` describe.
pub open spec fn found(
    known: Known,
    disk: Seq<EntryView>,
    conda_known: Known,
    conda_disk: Seq<EntryView>,
    discovered: Discovered,
) -> VersionsScan {
    let info = pyenv_info(known, disk);
    let listed = match info.versions {
        None => None,
        Some(versions) => pyenv_environments(
            conda_known,
            conda_disk,
            pyenv_manager(info),
            versions,
            discovered,
        ),
    };
    match listed {
        None => VersionsScan {
            managers: with_manager(pyenv_manager(info)),
            environments: seq![],
            discovered,
        },
        Some(scan) => VersionsScan {
            managers: with_manager(pyenv_manager(info)) + scan.managers,
            environments: scan.environments,
            discovered: scan.discovered,
        },
    }
}

/// `env` is pyenv's own: a CPython or a virtual environment of pyenv that
/// is run by its executable alone and carries `manager`.
pub open spec fn run_by_pyenv(env: PythonEnvironmentView, manager: Option<EnvManagerView>) -> bool {
    &&& env.category == PythonEnvironmentCategory::Pyenv || env.category
        == PythonEnvironmentCategory::PyenvVirtualEnv
    &&& env.env_manager == manager
    &&& match env.python_executable_path {
        Some(executable) => env.python_run_command == Some(seq![executable]),
        None => false,
    }
}

/// Each environment of `scan` is pyenv's own or Conda's, and each manager is Conda's.
pub open spec fn of_pyenv_or_conda(scan: VersionsScan, manager: Option<EnvManagerView>) -> bool {
    &&& forall|k: int|
        0 <= k < scan.managers.len() ==> (#[trigger] scan.managers[k]).tool == EnvManagerType::Conda
    &&& forall|k: int|
        0 <= k < scan.environments.len() ==> run_by_pyenv(#[trigger] scan.environments[k], manager)
            || run_by_conda(scan.environments[k])
}

/// Looking at one more entry of the directory of versions adds nothing but
/// pyenv's own and Conda's.
pub proof fn lemma_scan_version_of_pyenv_or_conda(
    known: Known,
    disk: Seq<EntryView>,
    manager: Option<EnvManagerView>,
    dir: Seq<char>,
    scan: VersionsScan,
)
    requires
        of_pyenv_or_conda(scan, manager),
    ensures
        of_pyenv_or_conda(scan_version(known, disk, manager, dir, scan), manager),
{
    let after = scan_version(known, disk, manager, dir, scan);
    lemma_found_in_of_conda(known, disk, dir, scan.discovered);
    assert forall|k: int| 0 <= k < after.environments.len() implies run_by_pyenv(
        #[trigger] after.environments[k],
        manager,
    ) || run_by_conda(after.environments[k]) by {
        if k < scan.environments.len() {
            assert(after.environments[k] == scan.environments[k]);
        }
    }
    assert forall|k: int| 0 <= k < after.managers.len() implies (#[trigger] after.managers[k]).tool
        == EnvManagerType::Conda by {
        if k < scan.managers.len() {
            assert(after.managers[k] == scan.managers[k]);
        }
    }
}

/// Looking at the entries of the directory of versions adds nothing but
/// pyenv's own and Conda's.
pub proof fn lemma_scan_versions_of_pyenv_or_conda(
    known: Known,
    disk: Seq<EntryView>,
    manager: Option<EnvManagerView>,
    dirs: Seq<Seq<char>>,
    scan: VersionsScan,
)
    requires
        of_pyenv_or_conda(scan, manager),
    ensures
        of_pyenv_or_conda(scan_versions(known, disk, manager, dirs, scan), manager),
    decreases dirs.len(),
{
    if dirs.len() > 0 {
        lemma_scan_versions_of_pyenv_or_conda(known, disk, manager, dirs.drop_last(), scan);
        lemma_scan_version_of_pyenv_or_conda(
            known,
            disk,
            manager,
            dirs.last(),
            scan_versions(known, disk, manager, dirs.drop_last(), scan),
        );
    }
}

/// What the pyenv source finds. pyenv itself is reported once, in front,
/// where its executable is known; every other manager is Conda's. Each
/// environment of pyenv's own, a CPython or a virtual environment, is run by
/// its executable alone and carries pyenv as its manager; every other
/// environment is Conda's and is run through the Conda manager it carries.
pub proof fn lemma_found_is_of_pyenv_or_conda(
    known: Known,
    disk: Seq<EntryView>,
    conda_known: Known,
    conda_disk: Seq<EntryView>,
    discovered: Discovered,
)
    ensures
        ({
            let all = found(known, disk, conda_known, conda_disk, discovered);
            let manager = pyenv_manager(pyenv_info(known, disk));
            &&& manager is Some ==> all.managers.len() > 0 && all.managers[0] == manager->0
                && all.managers[0].tool == EnvManagerType::Pyenv
            &&& forall|k: int|
                0 <= k < all.managers.len() ==> if manager is Some && k == 0 {
                    true
                } else {
                    (#[trigger] all.managers[k]).tool == EnvManagerType::Conda
                }
            &&& forall|k: int|
                0 <= k < all.environments.len() ==> run_by_pyenv(
                    #[trigger] all.environments[k],
                    manager,
                ) || run_by_conda(all.environments[k])
        }),
{
    let info = pyenv_info(known, disk);
    let manager = pyenv_manager(info);
    let all = found(known, disk, conda_known, conda_disk, discovered);
    match info.versions {
        None => {},
        Some(versions) => match listing(conda_disk, versions) {
            None => {},
            Some(dirs) => {
                let start = VersionsScan { managers: seq![], environments: seq![], discovered };
                lemma_scan_versions_of_pyenv_or_conda(conda_known, conda_disk, manager, dirs, start);
                let scan = scan_versions(conda_known, conda_disk, manager, dirs, start);
                assert forall|k: int| 0 <= k < all.managers.len() implies if manager is Some && k
                    == 0 {
                    true
                } else {
                    (#[trigger] all.managers[k]).tool == EnvManagerType::Conda
                } by {
                    if manager is Some {
                        if k > 0 {
                            assert(all.managers[k] == scan.managers[k - 1]);
                        }
                    } else {
                        assert(all.managers[k] == scan.managers[k]);
                    }
                }
            },
        },
    }
}

/// The manager that pyenv is, where its executable is known.
pub fn get_pyenv_manager(info: &PyEnvInfo) -> (r: Option<EnvManager>)
    ensures
        r.deep_view() == pyenv_manager(info.deep_view()),
{
    match &info.exe {
        Some(exe) => Some(
            EnvManager::new(exe.clone(), clone_option(&info.version), EnvManagerType::Pyenv),
        ),
        None => None,
    }
}

impl<'a, E: Environment> PyEnv<'a, E> {
    pub fn with(environment: &'a E, fs: &'a FileSystem, conda_locator: Conda<'a, E>) -> (r: PyEnv<
        'a,
        E,
    >)
        ensures
            r.environment == environment,
            r.fs == fs,
            r.conda_locator == conda_locator,
    {
        PyEnv { environment, fs, conda_locator }
    }

    /// What this source finds, and what its Conda source remembers afterwards.
    pub open spec fn found(&self) -> VersionsScan {
        found(
            self.environment.known(),
            self.fs.deep_view(),
            self.conda_locator.environment.known(),
            self.conda_locator.fs.deep_view(),
            self.conda_locator.discovered(),
        )
    }
}

impl<'a, E: Environment> Locator for PyEnv<'a, E> {
    fn resolve(&self, env: &PythonEnv) -> (r: Option<PythonEnvironment>)
        ensures
            r.deep_view() == resolved(self.environment.known(), self.fs.deep_view(), env.deep_view()),
    {
        let env_path = match &env.path {
            Some(path) => path,
            None => { return None; },
        };
        let pyenv_info = get_pyenv_info(self.environment, self.fs);
        let manager = get_pyenv_manager(&pyenv_info);
        let versions = match &pyenv_info.versions {
            Some(versions) => versions,
            None => { return None; },
        };
        if is_under_path(env.executable.as_str(), versions.as_str()) {
            match get_pure_python_environment(env.executable.as_str(), env_path.as_str(), &manager) {
                Some(found) => Some(found),
                None => get_virtual_env_environment(
                    self.fs,
                    env.executable.as_str(),
                    env_path.as_str(),
                    &manager,
                ),
            }
        } else {
            None
        }
    }

    fn find(&mut self) -> (r: Option<LocatorResult>)
        ensures
            r.deep_view() == some_unless_empty(
                old(self).found().managers,
                old(self).found().environments,
            ),
            final(self).conda_locator.discovered() == old(self).found().discovered,
            final(self).environment == old(self).environment,
            final(self).fs == old(self).fs,
            final(self).conda_locator.environment == old(self).conda_locator.environment,
            final(self).conda_locator.fs == old(self).conda_locator.fs,
    {
        let pyenv_info = get_pyenv_info(self.environment, self.fs);
        let manager = get_pyenv_manager(&pyenv_info);
        let mut managers: Vec<EnvManager> = Vec::new();
        let mut environments: Vec<PythonEnvironment> = Vec::new();
        assert(managers.deep_view() =~= Seq::<EnvManagerView>::empty());
        assert(environments.deep_view() =~= Seq::<PythonEnvironmentView>::empty());
        match &manager {
            Some(manager) => {
                managers.push(manager.clone());
                assert(managers.deep_view() =~= seq![manager.deep_view()]);
            },
            None => {},
        }
        match &pyenv_info.versions {
            Some(versions) => {
                match list_pyenv_environments(&manager, versions.as_str(), &mut self.conda_locator) {
                    Some(envs) => {
                        append_environments(&mut environments, envs.environments);
                        append_managers(&mut managers, envs.managers);
                        assert(environments.deep_view() =~= envs.environments.deep_view());
                    },
                    None => {},
                }
            },
            None => {},
        }
        if environments.len() == 0 && managers.len() == 0 {
            None
        } else {
            Some(LocatorResult { managers, environments })
        }
    }
}

} // verus!

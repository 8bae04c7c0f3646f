//! Pythons from the Windows store.
//!
//! The store installs each Python as a package folder in the directory of
//! launchers and puts a launcher beside it. A folder and a launcher of one
//! version make an environment; the registry of the user says how the package
//! is called and where it lies.

use crate::common_python::windows_apps;
use crate::filesystem::{listing, EntryView, FileSystem};
use crate::known::{Environment, Known};
use crate::lists::{first_some, lemma_first_some_step};
use crate::locator::{Locator, LocatorResult, LocatorResultView};
use crate::messaging::{
    new_environment, Architecture, EnvManagerView, PythonEnvironment, PythonEnvironmentCategory,
    PythonEnvironmentView,
};
use crate::paths::{file_name, file_name_of, join, join_path, parent, parent_of};
use crate::pattern::{capture, regex_capture};
use crate::pyenv::direct_command;
use crate::registry::{value_at, Hive, Registry, RegistryKeyView};
use crate::text::{
    char_count, clone_option, concat3, contains, contains_str, ends_with, ends_with_str,
    find_position, lowercase, lowercase_str, position, replace_char_str, same_str, starts_with,
    starts_with_str,
};
use crate::utils::{PythonEnv, PythonEnvView};
use crate::windows_registry::{native, or_empty};
use vstd::prelude::*;

verus! {

/// `path` is named like a launcher of a versioned Python 3.
pub open spec fn windows_python_executable(path: Seq<char>) -> bool {
    match file_name(path) {
        Some(name) => starts_with(lowercase(name), "python3."@) && ends_with(
            lowercase(name),
            ".exe"@,
        ),
        None => false,
    }
}

pub fn is_windows_python_executable(path: &str) -> (r: bool)
    ensures
        r == windows_python_executable(path@),
{
    match file_name_of(path) {
        Some(name) => {
            let name = lowercase_str(name.as_str());
            starts_with_str(name.as_str(), "python3.") && ends_with_str(name.as_str(), ".exe")
        },
        None => false,
    }
}

/// A version of which a package folder or a launcher was seen.
#[derive(Debug, PartialEq, Eq)]
pub struct PotentialPython {
    /// The package folder.
    pub path: Option<String>,
    /// The name of the package folder.
    pub name: Option<String>,
    /// The launcher.
    pub exe: Option<String>,
    pub version: String,
}

pub struct PotentialPythonView {
    pub path: Option<Seq<char>>,
    pub name: Option<Seq<char>>,
    pub exe: Option<Seq<char>>,
    pub version: Seq<char>,
}

impl DeepView for PotentialPython {
    type V = PotentialPythonView;

    open spec fn deep_view(&self) -> PotentialPythonView {
        PotentialPythonView {
            path: self.path.deep_view(),
            name: self.name.deep_view(),
            exe: self.exe.deep_view(),
            version: self.version@,
        }
    }
}

/// The pattern of the name of a package folder.
pub open spec fn folder_pattern() -> Seq<char> {
    "PythonSoftwareFoundation.Python.(\\d+\\.\\d+)_.*"@
}

/// The pattern of the name of a launcher.
pub open spec fn launcher_pattern() -> Seq<char> {
    "python(\\d+\\.\\d+).exe"@
}

/// The versions of `matches`.
pub open spec fn versions_of(matches: Seq<PotentialPythonView>) -> Seq<Seq<char>> {
    Seq::new(matches.len(), |i: int| matches[i].version)
}

/// `matches`, once the package folder `path` of `version` has been seen.
pub open spec fn with_folder(
    matches: Seq<PotentialPythonView>,
    path: Seq<char>,
    name: Seq<char>,
    version: Seq<char>,
) -> Seq<PotentialPythonView> {
    match position(versions_of(matches), version) {
        Some(i) => if 0 <= i < matches.len() {
            matches.update(
                i,
                PotentialPythonView { path: Some(path), name: Some(name), ..matches[i] },
            )
        } else {
            matches
        },
        None => matches.push(
            PotentialPythonView { path: Some(path), name: Some(name), exe: None, version },
        ),
    }
}

/// `matches`, once the launcher `path` of `version` has been seen.
pub open spec fn with_launcher(
    matches: Seq<PotentialPythonView>,
    path: Seq<char>,
    version: Seq<char>,
) -> Seq<PotentialPythonView> {
    match position(versions_of(matches), version) {
        Some(i) => if 0 <= i < matches.len() {
            matches.update(i, PotentialPythonView { exe: Some(path), ..matches[i] })
        } else {
            matches
        },
        None => matches.push(
            PotentialPythonView { path: None, name: None, exe: Some(path), version },
        ),
    }
}

/// What the two patterns capture in the name of an entry.
pub struct EntryCaptures {
    /// The version in the name of a package folder.
    pub folder_version: Option<Seq<char>>,
    /// The version in the name of a launcher.
    pub launcher_version: Option<Seq<char>>,
}

/// `matches`, once the entry `entry` of the directory of launchers has been
/// seen, given what the patterns capture in its name. An entry that begins
/// like a package folder and names no version is passed over, and so is a
/// launcher that names none: one bad entry costs no other. The unversioned
/// launchers `python.exe` and `python3.exe` are passed over too: nothing says
/// what they lead to.
pub open spec fn with_entry(
    matches: Seq<PotentialPythonView>,
    entry: Seq<char>,
    captures: EntryCaptures,
) -> Seq<PotentialPythonView> {
    match file_name(entry) {
        None => matches,
        Some(name) => if starts_with(name, "PythonSoftwareFoundation.Python."@) {
            if or_empty(captures.folder_version).len() == 0 {
                matches
            } else {
                with_folder(matches, entry, name, or_empty(captures.folder_version))
            }
        } else if starts_with(name, "python"@) && ends_with(name, ".exe"@) {
            if name == "python.exe"@ || name == "python3.exe"@ || or_empty(
                captures.launcher_version,
            ).len() == 0 {
                matches
            } else {
                with_launcher(matches, entry, or_empty(captures.launcher_version))
            }
        } else {
            matches
        },
    }
}

/// What the two patterns capture in the name of `entry`.
pub open spec fn captures_of(entry: Seq<char>) -> EntryCaptures {
    let name = or_empty(file_name(entry));
    EntryCaptures {
        folder_version: regex_capture(folder_pattern(), name, 1),
        launcher_version: regex_capture(launcher_pattern(), name, 1),
    }
}

/// The versions seen in the entries `entries`, in the order in which each
/// was first seen.
pub open spec fn potential_matches(entries: Seq<Seq<char>>) -> Seq<PotentialPythonView>
    decreases entries.len(),
{
    if entries.len() == 0 {
        seq![]
    } else {
        with_entry(
            potential_matches(entries.drop_last()),
            entries.last(),
            captures_of(entries.last()),
        )
    }
}

/// An entry in whose name the patterns find no version changes nothing:
/// the versions seen are those of the other entries.
pub proof fn lemma_entry_without_version_is_passed_over(entries: Seq<Seq<char>>, entry: Seq<char>)
    requires
        or_empty(captures_of(entry).folder_version).len() == 0,
        or_empty(captures_of(entry).launcher_version).len() == 0,
    ensures
        potential_matches(entries.push(entry)) == potential_matches(entries),
{
    assert(entries.push(entry).drop_last() == entries);
    assert(entries.push(entry).last() == entry);
}

/// One bad entry costs no other: wherever in the directory an entry
/// stands in whose name the patterns find no version, the versions seen are
/// those that are seen without it.
pub proof fn lemma_entry_without_version_costs_nothing(
    before: Seq<Seq<char>>,
    entry: Seq<char>,
    after: Seq<Seq<char>>,
)
    requires
        or_empty(captures_of(entry).folder_version).len() == 0,
        or_empty(captures_of(entry).launcher_version).len() == 0,
    ensures
        potential_matches(before.push(entry) + after) == potential_matches(before + after),
    decreases after.len(),
{
    if after.len() == 0 {
        assert(before.push(entry) + after == before.push(entry));
        assert(before + after == before);
        lemma_entry_without_version_is_passed_over(before, entry);
    } else {
        lemma_entry_without_version_costs_nothing(before, entry, after.drop_last());
        assert((before.push(entry) + after).drop_last() == before.push(entry) + after.drop_last());
        assert((before + after).drop_last() == before + after.drop_last());
        assert((before.push(entry) + after).last() == after.last());
        assert((before + after).last() == after.last());
    }
}

/// The key of the user's registry that names the package of a folder.
pub open spec fn schemas_key(name: Seq<char>) -> Seq<char> {
    "Software\\Classes\\Local Settings\\Software\\Microsoft\\Windows\\CurrentVersion\\AppModel\\SystemAppData\\"@
        + name + "\\Schemas"@
}

/// The key of the user's registry that describes a package.
pub open spec fn package_key(full_name: Seq<char>) -> Seq<char> {
    "Software\\Classes\\Local Settings\\Software\\Microsoft\\Windows\\CurrentVersion\\AppModel\\Repository\\Packages\\"@
        + full_name
}

/// The full name of the package of the folder named `name`.
pub open spec fn package_full_name(keys: Seq<RegistryKeyView>, name: Seq<char>) -> Option<Seq<char>> {
    value_at(keys, Hive::CurrentUser, schemas_key(name), "PackageFullName"@)
}

/// What the registry says of a package of the store.
#[derive(Debug, PartialEq, Eq)]
pub struct StorePythonInfo {
    pub display_name: String,
    pub env_path: String,
    pub is64_bit: bool,
}

pub struct StorePythonInfoView {
    pub display_name: Seq<char>,
    pub env_path: Seq<char>,
    pub is64_bit: bool,
}

impl DeepView for StorePythonInfo {
    type V = StorePythonInfoView;

    open spec fn deep_view(&self) -> StorePythonInfoView {
        StorePythonInfoView {
            display_name: self.display_name@,
            env_path: self.env_path@,
            is64_bit: self.is64_bit,
        }
    }
}

/// What the registry says of the package of the folder named `name`.
pub open spec fn package_display_name_and_location(keys: Seq<RegistryKeyView>, name: Seq<char>) -> Option<
    StorePythonInfoView,
> {
    match package_full_name(keys, name) {
        None => None,
        Some(full_name) => match value_at(
            keys,
            Hive::CurrentUser,
            package_key(full_name),
            "DisplayName"@,
        ) {
            None => None,
            Some(display_name) => match value_at(
                keys,
                Hive::CurrentUser,
                package_key(full_name),
                "PackageRootFolder"@,
            ) {
                None => None,
                Some(env_path) => Some(
                    StorePythonInfoView {
                        display_name,
                        env_path,
                        is64_bit: contains(full_name, "_x64_"@),
                    },
                ),
            },
        },
    }
}

/// The name of the launcher of `version`.
pub open spec fn launcher_name(version: Seq<char>) -> Seq<char> {
    "python"@ + version + ".exe"@
}

/// The names under which the Python of a package is reached.
pub open spec fn store_symlinks(
    directory: Seq<char>,
    path: Seq<char>,
    env_path: Seq<char>,
    version: Seq<char>,
) -> Seq<Seq<char>> {
    seq![
        join(directory, launcher_name(version)),
        join(path, "python.exe"@),
        join(path, "python3.exe"@),
        join(path, launcher_name(version)),
        join(env_path, "python.exe"@),
        join(env_path, launcher_name(version)),
    ]
}

/// The record of a Python of the store.
pub open spec fn store_record(
    directory: Seq<char>,
    path: Seq<char>,
    exe: Seq<char>,
    version: Seq<char>,
    info: StorePythonInfoView,
) -> PythonEnvironmentView {
    PythonEnvironmentView {
        arch: if info.is64_bit {
            Some(Architecture::X64)
        } else {
            None
        },
        symlinks: Some(store_symlinks(directory, path, native(info.env_path), version)),
        ..new_environment(
            Some(info.display_name),
            None,
            Some(exe),
            PythonEnvironmentCategory::WindowsStore,
            Some(version),
            Some(native(info.env_path)),
            None,
            Some(seq![exe]),
        )
    }
}

/// `environments`, once the version `item` has been looked at. A version
/// with both a folder and a launcher gives an environment where the folder has
/// a parent and the registry knows its package. Any other version is passed
/// over and costs no other its environment.
pub open spec fn with_store_environment(
    keys: Seq<RegistryKeyView>,
    environments: Seq<PythonEnvironmentView>,
    item: PotentialPythonView,
) -> Seq<PythonEnvironmentView> {
    match store_environment(keys, item) {
        Some(env) => environments.push(env),
        None => environments,
    }
}

/// The environment of the version `item`, where it has a folder with a
/// parent, a launcher, and a package that the registry knows.
pub open spec fn store_environment(keys: Seq<RegistryKeyView>, item: PotentialPythonView) -> Option<
    PythonEnvironmentView,
> {
    match item.exe {
        None => None,
        Some(exe) => match item.path {
            None => None,
            Some(path) => match parent(path) {
                None => None,
                Some(directory) => match package_display_name_and_location(
                    keys,
                    or_empty(item.name),
                ) {
                    None => None,
                    Some(info) => Some(store_record(directory, path, exe, item.version, info)),
                },
            },
        },
    }
}

/// The environments of the versions `matches`, in order.
pub open spec fn store_environments(keys: Seq<RegistryKeyView>, matches: Seq<PotentialPythonView>) -> Seq<
    PythonEnvironmentView,
>
    decreases matches.len(),
{
    if matches.len() == 0 {
        seq![]
    } else {
        with_store_environment(
            keys,
            store_environments(keys, matches.drop_last()),
            matches.last(),
        )
    }
}

/// A version that gives no environment costs no other its environment.
pub proof fn lemma_version_without_environment_is_passed_over(
    keys: Seq<RegistryKeyView>,
    matches: Seq<PotentialPythonView>,
    item: PotentialPythonView,
)
    requires
        store_environment(keys, item) is None,
    ensures
        store_environments(keys, matches.push(item)) == store_environments(keys, matches),
{
    assert(matches.push(item).drop_last() == matches);
    assert(matches.push(item).last() == item);
}

/// The Pythons of the store. `None` where the user's home is unknown or the
/// directory of launchers cannot be read.
pub open spec fn windows_store_pythons(known: Known, disk: Seq<EntryView>, keys: Seq<RegistryKeyView>) -> Option<
    Seq<PythonEnvironmentView>,
> {
    match known.home {
        None => None,
        Some(home) => match listing(disk, windows_apps(home)) {
            None => None,
            Some(entries) => Some(store_environments(keys, potential_matches(entries))),
        },
    }
}

/// The versions of `matches`.
fn get_versions_of(matches: &Vec<PotentialPython>) -> (r: Vec<String>)
    ensures
        r.deep_view() == versions_of(matches.deep_view()),
{
    let mut out: Vec<String> = Vec::new();
    let mut i: usize = 0;
    while i < matches.len()
        invariant
            i <= matches.len(),
            out.deep_view() == versions_of(matches.deep_view().take(i as int)),
        decreases matches.len() - i,
    {
        let ghost before = out.deep_view();
        out.push(matches[i].version.clone());
        assert(out.deep_view() =~= before.push(matches[i as int].version@));
        i = i + 1;
        assert(out.deep_view() =~= versions_of(matches.deep_view().take(i as int)));
    }
    assert(matches.deep_view().take(matches.len() as int) == matches.deep_view());
    out
}

/// Notes that the package folder `path` of `version` has been seen.
fn note_folder(matches: &mut Vec<PotentialPython>, path: &str, name: &str, version: &str)
    ensures
        final(matches).deep_view() == with_folder(old(matches).deep_view(), path@, name@, version@),
{
    let ghost before = matches.deep_view();
    let versions = get_versions_of(matches);
    match find_position(&versions, version) {
        Some(i) => {
            if i < matches.len() {
                let updated = PotentialPython {
                    path: Some(path.to_owned()),
                    name: Some(name.to_owned()),
                    exe: clone_option(&matches[i].exe),
                    version: matches[i].version.clone(),
                };
                matches.set(i, updated);
                assert(matches.deep_view() =~= before.update(i as int, updated.deep_view()));
            }
        },
        None => {
            let added = PotentialPython {
                path: Some(path.to_owned()),
                name: Some(name.to_owned()),
                exe: None,
                version: version.to_owned(),
            };
            matches.push(added);
            assert(matches.deep_view() =~= before.push(added.deep_view()));
        },
    }
}

/// Notes that the launcher `path` of `version` has been seen.
fn note_launcher(matches: &mut Vec<PotentialPython>, path: &str, version: &str)
    ensures
        final(matches).deep_view() == with_launcher(old(matches).deep_view(), path@, version@),
{
    let ghost before = matches.deep_view();
    let versions = get_versions_of(matches);
    match find_position(&versions, version) {
        Some(i) => {
            if i < matches.len() {
                let updated = PotentialPython {
                    path: clone_option(&matches[i].path),
                    name: clone_option(&matches[i].name),
                    exe: Some(path.to_owned()),
                    version: matches[i].version.clone(),
                };
                matches.set(i, updated);
                assert(matches.deep_view() =~= before.update(i as int, updated.deep_view()));
            }
        },
        None => {
            let added = PotentialPython {
                path: None,
                name: None,
                exe: Some(path.to_owned()),
                version: version.to_owned(),
            };
            matches.push(added);
            assert(matches.deep_view() =~= before.push(added.deep_view()));
        },
    }
}

/// Notes the entry `entry` of the directory of launchers, given what the
/// patterns capture in its name.
pub fn note_entry(
    matches: &mut Vec<PotentialPython>,
    entry: &str,
    folder_version: Option<String>,
    launcher_version: Option<String>,
)
    ensures
        final(matches).deep_view() == with_entry(
            old(matches).deep_view(),
            entry@,
            EntryCaptures {
                folder_version: folder_version.deep_view(),
                launcher_version: launcher_version.deep_view(),
            },
        ),
{
    let name = match file_name_of(entry) {
        Some(name) => name,
        None => { return ; },
    };
    let name = name.as_str();
    if starts_with_str(name, "PythonSoftwareFoundation.Python.") {
        let version = match folder_version {
            Some(version) => version,
            None => String::new(),
        };
        if char_count(version.as_str()) > 0 {
            note_folder(matches, entry, name, version.as_str());
        }
    } else if starts_with_str(name, "python") && ends_with_str(name, ".exe") {
        if same_str(name, "python.exe") || same_str(name, "python3.exe") {
            return ;
        }
        let version = match launcher_version {
            Some(version) => version,
            None => String::new(),
        };
        if char_count(version.as_str()) > 0 {
            note_launcher(matches, entry, version.as_str());
        }
    }
}

/// The key of the user's registry that names the package of a folder.
pub fn get_schemas_key(name: &str) -> (r: String)
    ensures
        r@ == schemas_key(name@),
{
    concat3(
        "Software\\Classes\\Local Settings\\Software\\Microsoft\\Windows\\CurrentVersion\\AppModel\\SystemAppData\\",
        name,
        "\\Schemas",
    )
}

/// The key of the user's registry that describes a package.
pub fn get_package_key(full_name: &str) -> (r: String)
    ensures
        r@ == package_key(full_name@),
{
    crate::text::concat_str(
        "Software\\Classes\\Local Settings\\Software\\Microsoft\\Windows\\CurrentVersion\\AppModel\\Repository\\Packages\\",
        full_name,
    )
}

/// The full name of the package of the folder named `name`.
fn get_package_full_name_from_registry(registry: &Registry, name: &str) -> (r: Option<String>)
    ensures
        r.deep_view() == package_full_name(registry.deep_view(), name@),
{
    let key = get_schemas_key(name);
    registry.get_value(Hive::CurrentUser, key.as_str(), "PackageFullName")
}

/// What the registry says of the package of the folder named `name`.
pub fn get_package_display_name_and_location(registry: &Registry, name: &str) -> (r: Option<
    StorePythonInfo,
>)
    ensures
        r.deep_view() == package_display_name_and_location(registry.deep_view(), name@),
{
    let full_name = match get_package_full_name_from_registry(registry, name) {
        Some(full_name) => full_name,
        None => { return None; },
    };
    let key = get_package_key(full_name.as_str());
    let display_name = match registry.get_value(Hive::CurrentUser, key.as_str(), "DisplayName") {
        Some(display_name) => display_name,
        None => { return None; },
    };
    let env_path = match registry.get_value(Hive::CurrentUser, key.as_str(), "PackageRootFolder") {
        Some(env_path) => env_path,
        None => { return None; },
    };
    Some(
        StorePythonInfo {
            display_name,
            env_path,
            is64_bit: contains_str(full_name.as_str(), "_x64_"),
        },
    )
}

/// The record of a Python of the store.
pub fn get_store_record(directory: &str, path: &str, exe: &str, version: &str, info: StorePythonInfo) -> (r:
    PythonEnvironment)
    ensures
        r.deep_view() == store_record(directory@, path@, exe@, version@, info.deep_view()),
{
    let env_path = replace_char_str(info.env_path.as_str(), '\\', '/');
    let launcher = concat3("python", version, ".exe");
    let mut symlinks: Vec<String> = Vec::new();
    symlinks.push(join_path(directory, launcher.as_str()));
    symlinks.push(join_path(path, "python.exe"));
    symlinks.push(join_path(path, "python3.exe"));
    symlinks.push(join_path(path, launcher.as_str()));
    symlinks.push(join_path(env_path.as_str(), "python.exe"));
    symlinks.push(join_path(env_path.as_str(), launcher.as_str()));
    assert(symlinks.deep_view() =~= store_symlinks(directory@, path@, env_path@, version@));
    let mut record = PythonEnvironment::new(
        Some(info.display_name),
        None,
        Some(exe.to_owned()),
        PythonEnvironmentCategory::WindowsStore,
        Some(version.to_owned()),
        Some(env_path),
        None,
        Some(direct_command(exe)),
    );
    record.arch = if info.is64_bit {
        Some(Architecture::X64)
    } else {
        None
    };
    record.symlinks = Some(symlinks);
    record
}

/// The environment of the version `item`.
pub fn get_store_environment(registry: &Registry, item: &PotentialPython) -> (r: Option<
    PythonEnvironment,
>)
    ensures
        r.deep_view() == store_environment(registry.deep_view(), item.deep_view()),
{
    let exe = match &item.exe {
        Some(exe) => exe,
        None => { return None; },
    };
    let path = match &item.path {
        Some(path) => path,
        None => { return None; },
    };
    let directory = match parent_of(path.as_str()) {
        Some(directory) => directory,
        None => { return None; },
    };
    let name = match &item.name {
        Some(name) => name.clone(),
        None => String::new(),
    };
    match get_package_display_name_and_location(registry, name.as_str()) {
        Some(info) => Some(
            get_store_record(
                directory.as_str(),
                path.as_str(),
                exe.as_str(),
                item.version.as_str(),
                info,
            ),
        ),
        None => None,
    }
}

#[verifier::loop_isolation(false)]
fn list_windows_store_python_executables<E: Environment>(
    environment: &E,
    fs: &FileSystem,
    registry: &Registry,
) -> (r: Option<Vec<PythonEnvironment>>)
    ensures
        r.deep_view() == windows_store_pythons(
            environment.known(),
            fs.deep_view(),
            registry.deep_view(),
        ),
{
    let home = match environment.get_user_home() {
        Some(home) => home,
        None => { return None; },
    };
    let apps_path = join_path(home.as_str(), "AppData/Local/Microsoft/WindowsApps");
    let entries = match fs.read_dir(apps_path.as_str()) {
        Some(entries) => entries,
        None => { return None; },
    };
    let ghost keys = registry.deep_view();
    let ghost all = entries.deep_view();
    let mut potential: Vec<PotentialPython> = Vec::new();
    assert(potential.deep_view() =~= Seq::<PotentialPythonView>::empty());
    let mut i: usize = 0;
    while i < entries.len()
        invariant
            i <= entries.len(),
            potential_matches(all.take(i as int)) == potential.deep_view(),
        decreases entries.len() - i,
    {
        assert(all.take(i + 1).drop_last() == all.take(i as int));
        assert(all.take(i + 1).last() == entries[i as int]@);
        let name = match file_name_of(entries[i].as_str()) {
            Some(name) => name,
            None => String::new(),
        };
        let folder_version = capture(
            "PythonSoftwareFoundation.Python.(\\d+\\.\\d+)_.*",
            name.as_str(),
            1,
        );
        let launcher_version = capture("python(\\d+\\.\\d+).exe", name.as_str(), 1);
        note_entry(&mut potential, entries[i].as_str(), folder_version, launcher_version);
        i = i + 1;
    }
    assert(all.take(all.len() as int) == all);
    let ghost matches = potential.deep_view();
    let mut python_envs: Vec<PythonEnvironment> = Vec::new();
    assert(python_envs.deep_view() =~= Seq::<PythonEnvironmentView>::empty());
    let mut k: usize = 0;
    while k < potential.len()
        invariant
            k <= potential.len(),
            store_environments(keys, matches.take(k as int)) == python_envs.deep_view(),
        decreases potential.len() - k,
    {
        assert(matches.take(k + 1).drop_last() == matches.take(k as int));
        assert(matches.take(k + 1).last() == potential[k as int].deep_view());
        match get_store_environment(registry, &potential[k]) {
            Some(record) => {
                let ghost before = python_envs.deep_view();
                python_envs.push(record);
                assert(python_envs.deep_view() =~= before.push(record.deep_view()));
            },
            None => {},
        }
        k = k + 1;
    }
    assert(matches.take(matches.len() as int) == matches);
    Some(python_envs)
}

/// The first of `environments` whose executable is `executable`.
pub open spec fn with_executable(environments: Seq<PythonEnvironmentView>, executable: Seq<char>) -> Option<
    PythonEnvironmentView,
> {
    first_some(
        environments,
        |env: PythonEnvironmentView|
            if env.python_executable_path == Some(executable) {
                Some(env)
            } else {
                None
            },
    )
}

/// The environment of the store that the candidate `env` is.
pub open spec fn resolved(
    known: Known,
    disk: Seq<EntryView>,
    keys: Seq<RegistryKeyView>,
    env: PythonEnvView,
) -> Option<PythonEnvironmentView> {
    match windows_store_pythons(known, disk, keys) {
        None => None,
        Some(environments) => with_executable(environments, env.executable),
    }
}

/// Everything of the store on the machine.
pub open spec fn found(known: Known, disk: Seq<EntryView>, keys: Seq<RegistryKeyView>) -> Option<
    LocatorResultView,
> {
    match windows_store_pythons(known, disk, keys) {
        None => None,
        Some(environments) => if environments.len() == 0 {
            None
        } else {
            Some(LocatorResultView { managers: seq![], environments })
        },
    }
}

/// Each environment of the store is on its own.
pub proof fn lemma_store_environments_without_managers(
    keys: Seq<RegistryKeyView>,
    matches: Seq<PotentialPythonView>,
)
    ensures
        forall|k: int|
            0 <= k < store_environments(keys, matches).len() ==> crate::locator::unmanaged(
                #[trigger] store_environments(keys, matches)[k],
            ),
    decreases matches.len(),
{
    if matches.len() > 0 {
        lemma_store_environments_without_managers(keys, matches.drop_last());
        let sofar = store_environments(keys, matches.drop_last());
        assert forall|k: int|
            0 <= k < store_environments(keys, matches).len() implies crate::locator::unmanaged(
            #[trigger] store_environments(keys, matches)[k],
        ) by {
            if k < sofar.len() {
                assert(store_environments(keys, matches)[k] == sofar[k]);
            }
        }
    }
}

/// The store is no manager of environments: what it gives holds none.
pub proof fn lemma_found_without_managers(known: Known, disk: Seq<EntryView>, keys: Seq<RegistryKeyView>)
    ensures
        crate::locator::without_managers(found(known, disk, keys)),
{
    match known.home {
        None => {},
        Some(home) => match listing(disk, windows_apps(home)) {
            None => {},
            Some(entries) => {
                lemma_store_environments_without_managers(keys, potential_matches(entries));
            },
        },
    }
}

/// The Windows store source.
pub struct WindowsStore<'a, E: Environment> {
    pub environment: &'a E,
    pub fs: &'a FileSystem,
    pub registry: &'a Registry,
}

impl<'a, E: Environment> WindowsStore<'a, E> {
    pub fn with(environment: &'a E, fs: &'a FileSystem, registry: &'a Registry) -> (r: WindowsStore<
        'a,
        E,
    >)
        ensures
            r.environment == environment,
            r.fs == fs,
            r.registry == registry,
    {
        WindowsStore { environment, fs, registry }
    }
}

impl<'a, E: Environment> Locator for WindowsStore<'a, E> {
    #[verifier::loop_isolation(false)]
    fn resolve(&self, env: &PythonEnv) -> (r: Option<PythonEnvironment>)
        ensures
            r.deep_view() == resolved(
                self.environment.known(),
                self.fs.deep_view(),
                self.registry.deep_view(),
                env.deep_view(),
            ),
    {
        let environments = match list_windows_store_python_executables(
            self.environment,
            self.fs,
            self.registry,
        ) {
            Some(environments) => environments,
            None => { return None; },
        };
        let ghost all = environments.deep_view();
        let ghost f = |found: PythonEnvironmentView|
            if found.python_executable_path == Some(env.executable@) {
                Some(found)
            } else {
                None
            };
        let mut i: usize = 0;
        assert(all.subrange(0, all.len() as int) == all);
        while i < environments.len()
            invariant
                i <= environments.len(),
                first_some(all.subrange(i as int, all.len() as int), f) == with_executable(
                    all,
                    env.executable@,
                ),
            decreases environments.len() - i,
        {
            proof {
                lemma_first_some_step(all, f, i as int);
            }
            let same = match &environments[i].python_executable_path {
                Some(path) => same_str(path.as_str(), env.executable.as_str()),
                None => false,
            };
            if same {
                return Some(environments[i].clone());
            }
            i = i + 1;
        }
        None
    }

    fn find(&mut self) -> (r: Option<LocatorResult>)
        ensures
            r.deep_view() == found(
                old(self).environment.known(),
                old(self).fs.deep_view(),
                old(self).registry.deep_view(),
            ),
            *final(self) == *old(self),
    {
        let environments = match list_windows_store_python_executables(
            self.environment,
            self.fs,
            self.registry,
        ) {
            Some(environments) => environments,
            None => { return None; },
        };
        if environments.len() == 0 {
            None
        } else {
            let r = LocatorResult { managers: Vec::new(), environments };
            assert(r.deep_view().managers =~= Seq::<EnvManagerView>::empty());
            Some(r)
        }
    }
}

} // verus!

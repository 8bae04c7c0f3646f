//! Conda installations and the environments they own.

use crate::filesystem::{exists_at, is_dir_at, is_file_at, listing, text_at, EntryView, FileSystem};
use crate::json::{json_string_member, string_member};
use crate::known::{Environment, Known, Platform};
use crate::lists::{
    collect, first_some, lemma_collect_step, lemma_first_some_member, lemma_first_some_step,
    lemma_select_holds, lemma_select_members, lemma_select_step, select,
};
use crate::locator::{some_unless_empty, Locator, LocatorResult, LocatorResultView};
use crate::logging::{Log, LogLevel, LogView};
use crate::messaging::{
    new_environment, Architecture, EnvManager, EnvManagerType, EnvManagerView, PythonEnvironment,
    PythonEnvironmentCategory, PythonEnvironmentView,
};
use crate::paths::{
    file_name, file_name_of, is_under, is_under_path, join, join_path, parent, parent_of,
};
use crate::pattern::{first_group, regex_capture};
use crate::text::{
    after_first, after_first_char, char_count, clone_option, concat3, concat_str, contains,
    contains_str, ends_with, ends_with_str, find_str, first_occurrence, lines, lines_of,
    list_contains, lowercase, lowercase_str, owned_list, pieces, replace_char, replace_char_str,
    same_str, slice, slice_str, split_on_char, starts_with, starts_with_str, trim, trim_str,
};
use crate::utils::{
    find_first_existing, find_python_binary_path, first_existing, python_binary_path, PythonEnv,
    PythonEnvView,
};
use vstd::prelude::*;

verus! {

/// Where the `conda` executable may stand, from the directory of an installation.
pub open spec fn relative_paths_to_conda_executable(platform: Platform) -> Seq<Seq<char>> {
    match platform {
        Platform::Windows => seq!["Scripts/conda.exe"@, "Scripts/conda.bat"@],
        Platform::Unix => seq!["bin/conda"@],
    }
}

pub fn get_relative_paths_to_conda_executable(platform: Platform) -> (r: Vec<String>)
    ensures
        r.deep_view() == relative_paths_to_conda_executable(platform),
{
    let mut out: Vec<String> = Vec::new();
    match platform {
        Platform::Windows => {
            out.push("Scripts/conda.exe".to_owned());
            out.push("Scripts/conda.bat".to_owned());
        },
        Platform::Unix => {
            out.push("bin/conda".to_owned());
        },
    }
    assert(out.deep_view() =~= relative_paths_to_conda_executable(platform));
    out
}

/// Where the interpreter of an installation stands, from its directory.
pub open spec fn relative_paths_to_main_python_executable(platform: Platform) -> Seq<char> {
    match platform {
        Platform::Windows => "python.exe"@,
        Platform::Unix => "bin/python"@,
    }
}

pub fn get_relative_paths_to_main_python_executable(platform: Platform) -> (r: String)
    ensures
        r@ == relative_paths_to_main_python_executable(platform),
{
    match platform {
        Platform::Windows => "python.exe".to_owned(),
        Platform::Unix => "bin/python".to_owned(),
    }
}

/// A package of an environment, as its file under `conda-meta` records it.
#[derive(Debug, PartialEq, Eq)]
pub struct CondaPackage {
    pub path: String,
    pub version: String,
    pub arch: Option<Architecture>,
}

pub struct CondaPackageView {
    pub path: Seq<char>,
    pub version: Seq<char>,
    pub arch: Option<Architecture>,
}

impl DeepView for CondaPackage {
    type V = CondaPackageView;

    open spec fn deep_view(&self) -> CondaPackageView {
        CondaPackageView { path: self.path@, version: self.version@, arch: self.arch }
    }
}

/// The pattern of the name of the file that records `package`.
pub open spec fn package_file_pattern(package: Seq<char>) -> Seq<char> {
    "^"@ + package + "-((\\d+\\.?)*)-.*\\.json$"@
}

/// The architecture that a channel is for: its name ends in `-64` or in `-32`.
pub open spec fn channel_architecture(channel: Option<Seq<char>>) -> Option<Architecture> {
    match channel {
        None => None,
        Some(channel) => if ends_with(channel, "-64"@) {
            Some(Architecture::X64)
        } else if ends_with(channel, "-32"@) {
            Some(Architecture::X86)
        } else {
            None
        },
    }
}

/// The architecture that the text of a package's file names.
pub open spec fn package_architecture(contents: Option<Seq<char>>) -> Option<Architecture> {
    match contents {
        None => None,
        Some(text) => channel_architecture(json_string_member(text, "channel"@)),
    }
}

/// The package that the file `entry` records, given the version that its name
/// holds, where the file is one of `package`.
pub open spec fn package_of_entry_with(
    disk: Seq<EntryView>,
    package: Seq<char>,
    entry: Seq<char>,
    version: Option<Seq<char>>,
) -> Option<CondaPackageView> {
    match file_name(entry) {
        None => None,
        Some(name) => if starts_with(name, package + "-"@) && ends_with(name, ".json"@) {
            match version {
                None => None,
                Some(version) => Some(
                    CondaPackageView {
                        path: entry,
                        version,
                        arch: package_architecture(text_at(disk, entry)),
                    },
                ),
            }
        } else {
            None
        },
    }
}

/// The package that the file `entry` records, where the file is one of `package`.
pub open spec fn package_of_entry(disk: Seq<EntryView>, package: Seq<char>, entry: Seq<char>) -> Option<
    CondaPackageView,
> {
    package_of_entry_with(
        disk,
        package,
        entry,
        regex_capture(
            package_file_pattern(package),
            match file_name(entry) {
                Some(name) => name,
                None => seq![],
            },
            1,
        ),
    )
}

/// The record of `package` in the environment at `path`: the first file under
/// `conda-meta` that is named `<package>-<version>-<build>.json`.
pub open spec fn conda_package(disk: Seq<EntryView>, path: Seq<char>, package: Seq<char>) -> Option<
    CondaPackageView,
> {
    match listing(disk, join(path, "conda-meta"@)) {
        None => None,
        Some(files) => first_some(files, |entry: Seq<char>| package_of_entry(disk, package, entry)),
    }
}

/// The architecture that a channel is for.
pub fn get_channel_architecture(channel: Option<String>) -> (r: Option<Architecture>)
    ensures
        r == channel_architecture(channel.deep_view()),
{
    match channel {
        None => None,
        Some(channel) => if ends_with_str(channel.as_str(), "-64") {
            Some(Architecture::X64)
        } else if ends_with_str(channel.as_str(), "-32") {
            Some(Architecture::X86)
        } else {
            None
        },
    }
}

/// The package that the file `entry` records, given the version that its name holds.
pub fn get_package_of_entry(fs: &FileSystem, package: &str, entry: &str, version: Option<String>) -> (r:
    Option<CondaPackage>)
    ensures
        r.deep_view() == package_of_entry_with(
            fs.deep_view(),
            package@,
            entry@,
            version.deep_view(),
        ),
{
    let name = match file_name_of(entry) {
        Some(name) => name,
        None => { return None; },
    };
    let prefix = concat_str(package, "-");
    if !(starts_with_str(name.as_str(), prefix.as_str()) && ends_with_str(name.as_str(), ".json")) {
        return None;
    }
    let version = match version {
        Some(version) => version,
        None => { return None; },
    };
    let arch = match fs.read_to_string(entry) {
        Some(contents) => get_channel_architecture(string_member(contents.as_str(), "channel")),
        None => None,
    };
    Some(CondaPackage { path: entry.to_owned(), version, arch })
}

pub fn get_conda_package_json_path(fs: &FileSystem, path: &str, package: &str) -> (r: Option<
    CondaPackage,
>)
    ensures
        r.deep_view() == conda_package(fs.deep_view(), path@, package@),
{
    let meta = join_path(path, "conda-meta");
    let pattern = concat3("^", package, "-((\\d+\\.?)*)-.*\\.json$");
    let files = match fs.read_dir(meta.as_str()) {
        Some(files) => files,
        None => { return None; },
    };
    let ghost disk = fs.deep_view();
    let ghost f = |entry: Seq<char>| package_of_entry(disk, package@, entry);
    let mut i: usize = 0;
    assert(files.deep_view().subrange(0, files.len() as int) == files.deep_view());
    while i < files.len()
        invariant
            i <= files.len(),
            disk == fs.deep_view(),
            pattern@ == package_file_pattern(package@),
            f == |entry: Seq<char>| package_of_entry(disk, package@, entry),
            first_some(files.deep_view().subrange(i as int, files.len() as int), f)
                == conda_package(disk, path@, package@),
        decreases files.len() - i,
    {
        proof {
            lemma_first_some_step(files.deep_view(), f, i as int);
        }
        let name = match file_name_of(files[i].as_str()) {
            Some(name) => name,
            None => String::new(),
        };
        let version = first_group(pattern.as_str(), name.as_str());
        match get_package_of_entry(fs, package, files[i].as_str(), version) {
            Some(found) => {
                return Some(found);
            },
            None => {},
        }
        i = i + 1;
    }
    None
}

/// `base` joined with each of `relatives`, in order.
pub open spec fn joined_all(base: Seq<char>, relatives: Seq<Seq<char>>) -> Seq<Seq<char>> {
    Seq::new(relatives.len(), |i: int| join(base, relatives[i]))
}

/// `base` joined with each of `relatives`, in order.
pub fn join_all(base: &str, relatives: &Vec<String>) -> (r: Vec<String>)
    ensures
        r.deep_view() == joined_all(base@, relatives.deep_view()),
{
    let mut out: Vec<String> = Vec::new();
    let mut i: usize = 0;
    while i < relatives.len()
        invariant
            i <= relatives.len(),
            out.deep_view() == joined_all(base@, relatives.deep_view().take(i as int)),
        decreases relatives.len() - i,
    {
        let ghost before = out.deep_view();
        let joined = join_path(base, relatives[i].as_str());
        out.push(joined);
        assert(out.deep_view() =~= before.push(joined@));
        i = i + 1;
        assert(out.deep_view() =~= joined_all(base@, relatives.deep_view().take(i as int)));
    }
    assert(relatives.deep_view().take(relatives.len() as int) == relatives.deep_view());
    out
}

/// The `conda` executable of the installation at `path`.
pub open spec fn conda_executable(disk: Seq<EntryView>, platform: Platform, path: Seq<char>) -> Option<
    Seq<char>,
> {
    first_existing(disk, joined_all(path, relative_paths_to_conda_executable(platform)))
}

pub fn get_conda_executable(fs: &FileSystem, platform: Platform, path: &str) -> (r: Option<String>)
    ensures
        r.deep_view() == conda_executable(fs.deep_view(), platform, path@),
{
    let relatives = get_relative_paths_to_conda_executable(platform);
    let candidates = join_all(path, &relatives);
    find_first_existing(fs, &candidates)
}

/// The names that the `conda` executable goes by.
pub open spec fn conda_bin_names(platform: Platform) -> Seq<Seq<char>> {
    match platform {
        Platform::Windows => seq!["conda.exe"@, "conda.bat"@],
        Platform::Unix => seq!["conda"@],
    }
}

pub fn get_conda_bin_names(platform: Platform) -> (r: Vec<String>)
    ensures
        r.deep_view() == conda_bin_names(platform),
{
    let mut out: Vec<String> = Vec::new();
    match platform {
        Platform::Windows => {
            out.push("conda.exe".to_owned());
            out.push("conda.bat".to_owned());
        },
        Platform::Unix => {
            out.push("conda".to_owned());
        },
    }
    assert(out.deep_view() =~= conda_bin_names(platform));
    out
}

/// The first file among `names` in `directory`.
pub open spec fn first_file_in(disk: Seq<EntryView>, directory: Seq<char>, names: Seq<Seq<char>>) -> Option<
    Seq<char>,
> {
    first_some(
        names,
        |name: Seq<char>|
            if is_file_at(disk, join(directory, name)) {
                Some(join(directory, name))
            } else {
                None
            },
    )
}

/// The first file among `names` in the first of `directories` that holds one.
pub open spec fn first_file_in_any(
    disk: Seq<EntryView>,
    directories: Seq<Seq<char>>,
    names: Seq<Seq<char>>,
) -> Option<Seq<char>> {
    first_some(directories, |directory: Seq<char>| first_file_in(disk, directory, names))
}

/// The first file among `names` in `directory`.
pub fn find_first_file_in(fs: &FileSystem, directory: &str, names: &Vec<String>) -> (r: Option<
    String,
>)
    ensures
        r.deep_view() == first_file_in(fs.deep_view(), directory@, names.deep_view()),
{
    let ghost disk = fs.deep_view();
    let ghost f = |name: Seq<char>|
        if is_file_at(disk, join(directory@, name)) {
            Some(join(directory@, name))
        } else {
            None
        };
    let mut i: usize = 0;
    assert(names.deep_view().subrange(0, names.len() as int) == names.deep_view());
    while i < names.len()
        invariant
            i <= names.len(),
            disk == fs.deep_view(),
            f == |name: Seq<char>|
                if is_file_at(disk, join(directory@, name)) {
                    Some(join(directory@, name))
                } else {
                    None
                },
            first_some(names.deep_view().subrange(i as int, names.len() as int), f)
                == first_file_in(disk, directory@, names.deep_view()),
        decreases names.len() - i,
    {
        proof {
            lemma_first_some_step(names.deep_view(), f, i as int);
        }
        let candidate = join_path(directory, names[i].as_str());
        if fs.is_file(candidate.as_str()) {
            return Some(candidate);
        }
        i = i + 1;
    }
    None
}

/// The first file among `names` in the first of `directories` that holds one.
pub fn find_first_file_in_any(fs: &FileSystem, directories: &Vec<String>, names: &Vec<String>) -> (r:
    Option<String>)
    ensures
        r.deep_view() == first_file_in_any(
            fs.deep_view(),
            directories.deep_view(),
            names.deep_view(),
        ),
{
    let ghost disk = fs.deep_view();
    let ghost f = |directory: Seq<char>| first_file_in(disk, directory, names.deep_view());
    let mut i: usize = 0;
    assert(directories.deep_view().subrange(0, directories.len() as int)
        == directories.deep_view());
    while i < directories.len()
        invariant
            i <= directories.len(),
            disk == fs.deep_view(),
            f == |directory: Seq<char>| first_file_in(disk, directory, names.deep_view()),
            first_some(directories.deep_view().subrange(i as int, directories.len() as int), f)
                == first_file_in_any(disk, directories.deep_view(), names.deep_view()),
        decreases directories.len() - i,
    {
        proof {
            lemma_first_some_step(directories.deep_view(), f, i as int);
        }
        match find_first_file_in(fs, directories[i].as_str(), names) {
            Some(found) => {
                return Some(found);
            },
            None => {},
        }
        i = i + 1;
    }
    None
}

/// The character that separates the directories of `PATH`.
pub open spec fn path_list_separator(platform: Platform) -> char {
    match platform {
        Platform::Windows => ';',
        Platform::Unix => ':',
    }
}

/// The `conda` executable that `PATH` leads to.
pub open spec fn conda_binary_on_path(known: Known, disk: Seq<EntryView>) -> Option<Seq<char>> {
    match known.var("PATH"@) {
        None => None,
        Some(paths) => first_file_in_any(
            disk,
            pieces(paths, path_list_separator(known.platform)),
            conda_bin_names(known.platform),
        ),
    }
}

pub fn find_conda_binary_on_path<E: Environment>(environment: &E, fs: &FileSystem) -> (r: Option<
    String,
>)
    ensures
        r.deep_view() == conda_binary_on_path(environment.known(), fs.deep_view()),
{
    let paths = match environment.get_env_var("PATH".to_owned()) {
        Some(paths) => paths,
        None => { return None; },
    };
    let platform = environment.get_platform();
    let separator = match platform {
        Platform::Windows => ';',
        Platform::Unix => ':',
    };
    let directories = split_on_char(paths.as_str(), separator);
    let names = get_conda_bin_names(platform);
    find_first_file_in_any(fs, &directories, &names)
}

/// `list`, with `child` under the value of the variable `key` behind it,
/// where the variable is set.
pub open spec fn push_under_var(list: Seq<Seq<char>>, known: Known, key: Seq<char>, child: Seq<char>) -> Seq<
    Seq<char>,
> {
    match known.var(key) {
        Some(base) => list.push(join(base, child)),
        None => list,
    }
}

/// `list`, with `child` under the user's home behind it, where the home is known.
pub open spec fn push_under_home(list: Seq<Seq<char>>, known: Known, child: Seq<char>) -> Seq<
    Seq<char>,
> {
    match known.home {
        Some(home) => list.push(join(home, child)),
        None => list,
    }
}

/// The directories in which a `conda` executable is looked for.
pub open spec fn known_conda_locations(known: Known) -> Seq<Seq<char>> {
    match known.platform {
        Platform::Windows => {
            let a = push_under_var(seq![], known, "USERPROFILE"@, "Anaconda3/Scripts"@);
            let b = push_under_var(a, known, "PROGRAMDATA"@, "Anaconda3/Scripts"@);
            let c = push_under_var(b, known, "ALLUSERSPROFILE"@, "Anaconda3/Scripts"@);
            let d = push_under_var(c, known, "HOMEDRIVE"@, "Anaconda3/Scripts"@);
            let e = push_under_var(d, known, "USERPROFILE"@, "Miniconda3/Scripts"@);
            let f = push_under_var(e, known, "PROGRAMDATA"@, "Miniconda3/Scripts"@);
            let g = push_under_var(f, known, "ALLUSERSPROFILE"@, "Miniconda3/Scripts"@);
            let h = push_under_var(g, known, "HOMEDRIVE"@, "Miniconda3/Scripts"@);
            h + known.search_locations
        },
        Platform::Unix => {
            let fixed = seq![
                "/opt/anaconda3/bin"@,
                "/opt/miniconda3/bin"@,
                "/usr/local/anaconda3/bin"@,
                "/usr/local/miniconda3/bin"@,
                "/usr/anaconda3/bin"@,
                "/usr/miniconda3/bin"@,
                "/home/anaconda3/bin"@,
                "/home/miniconda3/bin"@,
                "/anaconda3/bin"@,
                "/miniconda3/bin"@,
            ];
            let a = push_under_home(fixed, known, "anaconda3/bin"@);
            let b = push_under_home(a, known, "miniconda3/bin"@);
            b + known.search_locations
        },
    }
}

/// Adds `child` under the value of the variable `key` to `list`, where the variable is set.
fn add_under_var<E: Environment>(list: &mut Vec<String>, environment: &E, key: &str, child: &str)
    ensures
        final(list).deep_view() == push_under_var(
            old(list).deep_view(),
            environment.known(),
            key@,
            child@,
        ),
{
    match environment.get_env_var(key.to_owned()) {
        Some(base) => {
            let ghost before = list.deep_view();
            list.push(join_path(base.as_str(), child));
            assert(list.deep_view() =~= before.push(join(base@, child@)));
        },
        None => {},
    }
}

/// Adds `child` under the user's home to `list`, where the home is known.
fn add_under_home<E: Environment>(list: &mut Vec<String>, environment: &E, child: &str)
    ensures
        final(list).deep_view() == push_under_home(
            old(list).deep_view(),
            environment.known(),
            child@,
        ),
{
    match environment.get_user_home() {
        Some(home) => {
            let ghost before = list.deep_view();
            list.push(join_path(home.as_str(), child));
            assert(list.deep_view() =~= before.push(join(home@, child@)));
        },
        None => {},
    }
}

/// Adds the items of `extra` to `list`, in order.
pub fn append_list(list: &mut Vec<String>, extra: &Vec<String>)
    ensures
        final(list).deep_view() == old(list).deep_view() + extra.deep_view(),
{
    let ghost base = list.deep_view();
    let mut i: usize = 0;
    assert(list.deep_view() =~= base + extra.deep_view().take(0));
    while i < extra.len()
        invariant
            i <= extra.len(),
            list.deep_view() == base + extra.deep_view().take(i as int),
        decreases extra.len() - i,
    {
        let ghost before = list.deep_view();
        list.push(extra[i].clone());
        assert(list.deep_view() =~= before.push(extra[i as int]@));
        i = i + 1;
        assert(list.deep_view() =~= base + extra.deep_view().take(i as int));
    }
    assert(extra.deep_view().take(extra.len() as int) == extra.deep_view());
}

pub fn get_known_conda_locations<E: Environment>(environment: &E) -> (r: Vec<String>)
    ensures
        r.deep_view() == known_conda_locations(environment.known()),
{
    let mut out: Vec<String>;
    match environment.get_platform() {
        Platform::Windows => {
            out = Vec::new();
            assert(out.deep_view() =~= Seq::<Seq<char>>::empty());
            add_under_var(&mut out, environment, "USERPROFILE", "Anaconda3/Scripts");
            add_under_var(&mut out, environment, "PROGRAMDATA", "Anaconda3/Scripts");
            add_under_var(&mut out, environment, "ALLUSERSPROFILE", "Anaconda3/Scripts");
            add_under_var(&mut out, environment, "HOMEDRIVE", "Anaconda3/Scripts");
            add_under_var(&mut out, environment, "USERPROFILE", "Miniconda3/Scripts");
            add_under_var(&mut out, environment, "PROGRAMDATA", "Miniconda3/Scripts");
            add_under_var(&mut out, environment, "ALLUSERSPROFILE", "Miniconda3/Scripts");
            add_under_var(&mut out, environment, "HOMEDRIVE", "Miniconda3/Scripts");
        },
        Platform::Unix => {
            out = crate::text::owned_list(
                &[
                    "/opt/anaconda3/bin",
                    "/opt/miniconda3/bin",
                    "/usr/local/anaconda3/bin",
                    "/usr/local/miniconda3/bin",
                    "/usr/anaconda3/bin",
                    "/usr/miniconda3/bin",
                    "/home/anaconda3/bin",
                    "/home/miniconda3/bin",
                    "/anaconda3/bin",
                    "/miniconda3/bin",
                ],
            );
            assert(out.deep_view() =~= seq![
                "/opt/anaconda3/bin"@,
                "/opt/miniconda3/bin"@,
                "/usr/local/anaconda3/bin"@,
                "/usr/local/miniconda3/bin"@,
                "/usr/anaconda3/bin"@,
                "/usr/miniconda3/bin"@,
                "/home/anaconda3/bin"@,
                "/home/miniconda3/bin"@,
                "/anaconda3/bin"@,
                "/miniconda3/bin"@,
            ]);
            add_under_home(&mut out, environment, "anaconda3/bin");
            add_under_home(&mut out, environment, "miniconda3/bin");
        },
    }
    let global = environment.get_know_global_search_locations();
    append_list(&mut out, &global);
    out
}

/// The `conda` executable in the directories in which one is looked for.
pub open spec fn conda_binary_in_known_locations(known: Known, disk: Seq<EntryView>) -> Option<
    Seq<char>,
> {
    first_file_in_any(disk, known_conda_locations(known), conda_bin_names(known.platform))
}

pub fn find_conda_binary_in_known_locations<E: Environment>(environment: &E, fs: &FileSystem) -> (r:
    Option<String>)
    ensures
        r.deep_view() == conda_binary_in_known_locations(environment.known(), fs.deep_view()),
{
    let names = get_conda_bin_names(environment.get_platform());
    let locations = get_known_conda_locations(environment);
    find_first_file_in_any(fs, &locations, &names)
}

/// The `conda` executable of the machine: the one that `PATH` leads to, else
/// the one in the directories in which one is looked for.
pub open spec fn conda_binary(known: Known, disk: Seq<EntryView>) -> Option<Seq<char>> {
    match conda_binary_on_path(known, disk) {
        Some(binary) => Some(binary),
        None => conda_binary_in_known_locations(known, disk),
    }
}

pub fn find_conda_binary<E: Environment>(environment: &E, fs: &FileSystem) -> (r: Option<String>)
    ensures
        r.deep_view() == conda_binary(environment.known(), fs.deep_view()),
{
    match find_conda_binary_on_path(environment, fs) {
        Some(binary) => Some(binary),
        None => find_conda_binary_in_known_locations(environment, fs),
    }
}

/// The manager that the installation at `path` holds: its `conda` executable,
/// with the version of its `conda` package.
pub open spec fn conda_manager(disk: Seq<EntryView>, platform: Platform, path: Seq<char>) -> Option<
    EnvManagerView,
> {
    match conda_executable(disk, platform, path) {
        None => None,
        Some(executable) => match conda_package(disk, path, "conda"@) {
            None => None,
            Some(package) => Some(
                EnvManagerView {
                    executable_path: executable,
                    version: Some(package.version),
                    tool: EnvManagerType::Conda,
                    company: None,
                    company_display_name: None,
                },
            ),
        },
    }
}

pub fn get_conda_manager(fs: &FileSystem, platform: Platform, path: &str) -> (r: Option<EnvManager>)
    ensures
        r.deep_view() == conda_manager(fs.deep_view(), platform, path@),
{
    let conda_exe = match get_conda_executable(fs, platform, path) {
        Some(exe) => exe,
        None => { return None; },
    };
    let conda_pkg = match get_conda_package_json_path(fs, path, "conda") {
        Some(package) => package,
        None => { return None; },
    };
    Some(
        EnvManager {
            executable_path: conda_exe,
            version: Some(conda_pkg.version),
            tool: EnvManagerType::Conda,
            company: None,
            company_display_name: None,
        },
    )
}

/// An environment as it lies on disk, before it is tied to a manager.
#[derive(Debug, PartialEq, Eq)]
pub struct CondaEnvironment {
    pub name: String,
    /// Whether the environment lies in the `envs` directory of an installation
    /// and is therefore addressed by its name.
    pub named: bool,
    pub env_path: String,
    pub python_executable_path: Option<String>,
    pub version: Option<String>,
    /// The directory of the installation that created the environment, as
    /// the environment's history names it.
    pub conda_install_folder: Option<String>,
    pub arch: Option<Architecture>,
}

pub struct CondaEnvironmentView {
    pub name: Seq<char>,
    pub named: bool,
    pub env_path: Seq<char>,
    pub python_executable_path: Option<Seq<char>>,
    pub version: Option<Seq<char>>,
    pub conda_install_folder: Option<Seq<char>>,
    pub arch: Option<Architecture>,
}

impl DeepView for CondaEnvironment {
    type V = CondaEnvironmentView;

    open spec fn deep_view(&self) -> CondaEnvironmentView {
        CondaEnvironmentView {
            name: self.name@,
            named: self.named,
            env_path: self.env_path@,
            python_executable_path: self.python_executable_path.deep_view(),
            version: self.version.deep_view(),
            conda_install_folder: self.conda_install_folder.deep_view(),
            arch: self.arch,
        }
    }
}

impl Clone for CondaEnvironment {
    fn clone(&self) -> (r: Self)
        ensures
            r.deep_view() == self.deep_view(),
    {
        CondaEnvironment {
            name: self.name.clone(),
            named: self.named,
            env_path: self.env_path.clone(),
            python_executable_path: clone_option(&self.python_executable_path),
            version: clone_option(&self.version),
            conda_install_folder: clone_option(&self.conda_install_folder),
            arch: self.arch,
        }
    }
}

/// `line` records the command that created an environment.
pub open spec fn is_create_command(line: Seq<char>) -> bool {
    starts_with(lowercase(line), "# cmd:"@) && contains(lowercase(line), " create -"@)
}

/// The path of the executable in a line that records the creation of an
/// environment: what stands between `# cmd:` and ` create -`.
pub open spec fn creating_executable(line: Seq<char>) -> Option<Seq<char>> {
    match first_occurrence(lowercase(line), " create -"@) {
        None => None,
        Some(end) => match slice(line, "# cmd:"@.len() as int, end) {
            None => None,
            Some(text) => Some(trim(text)),
        },
    }
}

/// `name` is the name of the directory in which an installation keeps its executables.
pub open spec fn is_executables_directory(name: Seq<char>) -> bool {
    lowercase(name) == "bin"@ || lowercase(name) == "scripts"@
}

/// The directory of the installation whose executable is `executable`: the
/// directory that holds the executable, or the one above it where that one
/// is `bin` or `Scripts`.
pub open spec fn installation_of_executable(executable: Seq<char>) -> Option<Seq<char>> {
    match parent(executable) {
        None => None,
        Some(directory) => match file_name(directory) {
            None => None,
            Some(name) => if is_executables_directory(name) {
                match parent(directory) {
                    Some(above) => Some(above),
                    None => Some(directory),
                }
            } else {
                Some(directory)
            },
        },
    }
}

/// The path `text` in the form in which this library writes paths.
pub open spec fn native_path(platform: Platform, text: Seq<char>) -> Seq<char> {
    match platform {
        Platform::Windows => replace_char(text, '\\', '/'),
        Platform::Unix => text,
    }
}

/// The first line of a history that records the creation of the environment.
pub open spec fn create_command_line(history: Seq<char>) -> Option<Seq<char>> {
    first_some(
        lines(history),
        |line: Seq<char>|
            if is_create_command(trim(line)) {
                Some(trim(line))
            } else {
                None
            },
    )
}

/// The directory of the installation that created an environment with this history.
pub open spec fn installation_in_history(platform: Platform, history: Seq<char>) -> Option<
    Seq<char>,
> {
    match create_command_line(history) {
        None => None,
        Some(line) => match creating_executable(line) {
            None => None,
            Some(executable) => installation_of_executable(native_path(platform, executable)),
        },
    }
}

/// The directory of the installation that created the environment at `env_path`.
pub open spec fn installation_used_to_create(
    disk: Seq<EntryView>,
    platform: Platform,
    env_path: Seq<char>,
) -> Option<Seq<char>> {
    match text_at(disk, join(join(env_path, "conda-meta"@), "history"@)) {
        None => None,
        Some(history) => installation_in_history(platform, history),
    }
}

/// Whether `line` records the command that created an environment.
pub fn get_is_create_command(line: &str) -> (r: bool)
    ensures
        r == is_create_command(line@),
{
    let lower = lowercase_str(line);
    starts_with_str(lower.as_str(), "# cmd:") && contains_str(lower.as_str(), " create -")
}

/// The path of the executable in a line that records the creation of an environment.
pub fn get_creating_executable(line: &str) -> (r: Option<String>)
    ensures
        r.deep_view() == creating_executable(line@),
{
    let lower = lowercase_str(line);
    let end = match find_str(lower.as_str(), " create -") {
        Some(end) => end,
        None => { return None; },
    };
    let start = char_count("# cmd:");
    match slice_str(line, start, end) {
        Some(text) => Some(trim_str(text.as_str())),
        None => None,
    }
}

/// The directory of the installation whose executable is `executable`.
pub fn get_installation_of_executable(executable: &str) -> (r: Option<String>)
    ensures
        r.deep_view() == installation_of_executable(executable@),
{
    let directory = match parent_of(executable) {
        Some(directory) => directory,
        None => { return None; },
    };
    let name = match file_name_of(directory.as_str()) {
        Some(name) => name,
        None => { return None; },
    };
    let lower = lowercase_str(name.as_str());
    if same_str(lower.as_str(), "bin") || same_str(lower.as_str(), "scripts") {
        match parent_of(directory.as_str()) {
            Some(above) => { return Some(above); },
            None => {},
        }
    }
    Some(directory)
}

/// The directory of the installation that created an environment with this history.
pub fn get_installation_in_history(platform: Platform, history: &str) -> (r: Option<String>)
    ensures
        r.deep_view() == installation_in_history(platform, history@),
{
    let all = lines_of(history);
    let ghost f = |line: Seq<char>|
        if is_create_command(trim(line)) {
            Some(trim(line))
        } else {
            None
        };
    let mut i: usize = 0;
    assert(all.deep_view().subrange(0, all.len() as int) == all.deep_view());
    while i < all.len()
        invariant
            i <= all.len(),
            all.deep_view() == lines(history@),
            f == |line: Seq<char>|
                if is_create_command(trim(line)) {
                    Some(trim(line))
                } else {
                    None
                },
            first_some(all.deep_view().subrange(i as int, all.len() as int), f)
                == create_command_line(history@),
        decreases all.len() - i,
    {
        proof {
            lemma_first_some_step(all.deep_view(), f, i as int);
        }
        let line = trim_str(all[i].as_str());
        if get_is_create_command(line.as_str()) {
            let executable = match get_creating_executable(line.as_str()) {
                Some(executable) => executable,
                None => { return None; },
            };
            let executable = match platform {
                Platform::Windows => replace_char_str(executable.as_str(), '\\', '/'),
                Platform::Unix => executable,
            };
            return get_installation_of_executable(executable.as_str());
        }
        i = i + 1;
    }
    None
}

pub fn get_conda_installation_used_to_create_conda_env(
    fs: &FileSystem,
    platform: Platform,
    env_path: &str,
) -> (r: Option<String>)
    ensures
        r.deep_view() == installation_used_to_create(fs.deep_view(), platform, env_path@),
{
    let meta = join_path(env_path, "conda-meta");
    let history = join_path(meta.as_str(), "history");
    match fs.read_to_string(history.as_str()) {
        Some(text) => get_installation_in_history(platform, text.as_str()),
        None => None,
    }
}

/// The installation at `root_conda_path` created `env`: the history of `env`
/// names that directory, letter case apart.
pub open spec fn created_by_specific_conda(env: CondaEnvironmentView, root_conda_path: Seq<char>) -> bool {
    match env.conda_install_folder {
        Some(folder) => lowercase(folder) == lowercase(root_conda_path),
        None => false,
    }
}

/// An environment belongs to the installation that its history names and to
/// no other: of two installations whose directories differ, letter case
/// apart, at most one created it.
pub proof fn lemma_created_by_one_installation(
    env: CondaEnvironmentView,
    first: Seq<char>,
    second: Seq<char>,
)
    requires
        lowercase(first) != lowercase(second),
    ensures
        !(created_by_specific_conda(env, first) && created_by_specific_conda(env, second)),
        env.conda_install_folder == Some(first) ==> created_by_specific_conda(env, first)
            && !created_by_specific_conda(env, second),
{
}

pub fn was_conda_environment_created_by_specific_conda(
    env: &CondaEnvironment,
    root_conda_path: &str,
) -> (r: bool)
    ensures
        r == created_by_specific_conda(env.deep_view(), root_conda_path@),
{
    match &env.conda_install_folder {
        Some(folder) => {
            let a = lowercase_str(folder.as_str());
            let b = lowercase_str(root_conda_path);
            same_str(a.as_str(), b.as_str())
        },
        None => false,
    }
}

/// The version of an optional package.
pub open spec fn version_of(package: Option<CondaPackageView>) -> Option<Seq<char>> {
    match package {
        Some(package) => Some(package.version),
        None => None,
    }
}

/// The architecture of an optional package.
pub open spec fn arch_of(package: Option<CondaPackageView>) -> Option<Architecture> {
    match package {
        Some(package) => package.arch,
        None => None,
    }
}

/// The `python` package of the environment at `env_path`, looked up only
/// where the environment has an interpreter.
pub open spec fn python_package(disk: Seq<EntryView>, platform: Platform, env_path: Seq<char>) -> Option<
    CondaPackageView,
> {
    match python_binary_path(disk, platform, env_path) {
        Some(_) => conda_package(disk, env_path, "python"@),
        None => None,
    }
}

/// The environment in the directory `env_path`. There is none where
/// `env_path` is no directory or has no name.
pub open spec fn conda_environment_info(
    disk: Seq<EntryView>,
    platform: Platform,
    env_path: Seq<char>,
    named: bool,
) -> Option<CondaEnvironmentView> {
    if !is_dir_at(disk, env_path) {
        None
    } else {
        match file_name(env_path) {
            None => None,
            Some(name) => Some(
                CondaEnvironmentView {
                    name,
                    named,
                    env_path,
                    python_executable_path: python_binary_path(disk, platform, env_path),
                    version: version_of(python_package(disk, platform, env_path)),
                    conda_install_folder: installation_used_to_create(disk, platform, env_path),
                    arch: arch_of(python_package(disk, platform, env_path)),
                },
            ),
        }
    }
}

pub fn get_conda_environment_info(fs: &FileSystem, platform: Platform, env_path: &str, named: bool) -> (r:
    Option<CondaEnvironment>)
    ensures
        r.deep_view() == conda_environment_info(fs.deep_view(), platform, env_path@, named),
{
    if !fs.is_dir(env_path) {
        return None;
    }
    let conda_install_folder = get_conda_installation_used_to_create_conda_env(
        fs,
        platform,
        env_path,
    );
    let name = match file_name_of(env_path) {
        Some(name) => name,
        None => { return None; },
    };
    let python = find_python_binary_path(fs, platform, env_path);
    let package = match &python {
        Some(_) => get_conda_package_json_path(fs, env_path, "python"),
        None => None,
    };
    let (version, arch) = match package {
        Some(package) => (Some(package.version), package.arch),
        None => (None, None),
    };
    Some(
        CondaEnvironment {
            name,
            named,
            env_path: env_path.to_owned(),
            python_executable_path: python,
            version,
            conda_install_folder,
            arch,
        },
    )
}

/// The environments in the `envs` directory of the installation at `path`.
/// `None` where there is no such directory.
pub open spec fn environments_in_envs_folder(disk: Seq<EntryView>, platform: Platform, path: Seq<char>) -> Option<
    Seq<CondaEnvironmentView>,
> {
    match listing(disk, join(path, "envs"@)) {
        None => None,
        Some(directories) => Some(
            collect(
                directories,
                |directory: Seq<char>| conda_environment_info(disk, platform, directory, true),
            ),
        ),
    }
}

pub fn get_environments_from_envs_folder_in_conda_directory(
    fs: &FileSystem,
    platform: Platform,
    path: &str,
) -> (r: Option<Vec<CondaEnvironment>>)
    ensures
        r.deep_view() == environments_in_envs_folder(fs.deep_view(), platform, path@),
{
    let envs_dir = join_path(path, "envs");
    let directories = match fs.read_dir(envs_dir.as_str()) {
        Some(directories) => directories,
        None => { return None; },
    };
    let ghost disk = fs.deep_view();
    let ghost f = |directory: Seq<char>| conda_environment_info(disk, platform, directory, true);
    let mut envs: Vec<CondaEnvironment> = Vec::new();
    let mut i: usize = 0;
    assert(envs.deep_view() =~= collect(directories.deep_view().take(0), f));
    while i < directories.len()
        invariant
            i <= directories.len(),
            disk == fs.deep_view(),
            f == |directory: Seq<char>| conda_environment_info(disk, platform, directory, true),
            envs.deep_view() == collect(directories.deep_view().take(i as int), f),
        decreases directories.len() - i,
    {
        proof {
            lemma_collect_step(directories.deep_view(), f, i as int);
        }
        match get_conda_environment_info(fs, platform, directories[i].as_str(), true) {
            Some(env) => {
                let ghost before = envs.deep_view();
                envs.push(env);
                assert(envs.deep_view() =~= before.push(env.deep_view()));
            },
            None => {},
        }
        i = i + 1;
    }
    assert(directories.deep_view().take(directories.len() as int) == directories.deep_view());
    Some(envs)
}

/// The environment paths that `environments.txt` in the user's `.conda` directory lists.
pub open spec fn conda_envs_from_environment_txt(known: Known, disk: Seq<EntryView>) -> Seq<
    Seq<char>,
> {
    match known.home {
        None => seq![],
        Some(home) => match text_at(disk, join(join(home, ".conda"@), "environments.txt"@)) {
            None => seq![],
            Some(text) => lines(text),
        },
    }
}

pub fn get_conda_envs_from_environment_txt<E: Environment>(environment: &E, fs: &FileSystem) -> (r:
    Vec<String>)
    ensures
        r.deep_view() == conda_envs_from_environment_txt(environment.known(), fs.deep_view()),
{
    let none: Vec<String> = Vec::new();
    assert(none.deep_view() =~= Seq::<Seq<char>>::empty());
    match environment.get_user_home() {
        None => none,
        Some(home) => {
            let conda = join_path(home.as_str(), ".conda");
            let environments_txt = join_path(conda.as_str(), "environments.txt");
            match fs.read_to_string(environments_txt.as_str()) {
                Some(text) => lines_of(text.as_str()),
                None => none,
            }
        },
    }
}

/// What the configuration files of Conda say, as far as discovery reads them.
#[derive(Debug, PartialEq, Eq)]
pub struct Condarc {
    /// The directories of environments that the files list and that are there.
    pub env_dirs: Vec<String>,
}

/// `list`, with the three names of a configuration file under the value of
/// the variable `key` behind it, where the variable is set.
pub open spec fn push_rc_under_var(list: Seq<Seq<char>>, known: Known, key: Seq<char>) -> Seq<
    Seq<char>,
> {
    push_under_var(
        push_under_var(push_under_var(list, known, key, ".condarc"@), known, key, "condarc"@),
        known,
        key,
        ".condarc.d"@,
    )
}

/// `list`, with the configuration files under the user's home behind it.
pub open spec fn push_rc_under_home(list: Seq<Seq<char>>, known: Known) -> Seq<Seq<char>> {
    let a = push_under_home(list, known, ".config/conda/.condarc"@);
    let b = push_under_home(a, known, ".config/conda/condarc"@);
    let c = push_under_home(b, known, ".config/conda/condarc.d"@);
    let d = push_under_home(c, known, ".conda/.condarc"@);
    let e = push_under_home(d, known, ".conda/condarc"@);
    let f = push_under_home(e, known, ".conda/condarc.d"@);
    push_under_home(f, known, ".condarc"@)
}

/// `list`, with the value of the variable `key` behind it, where the variable is set.
pub open spec fn push_var(list: Seq<Seq<char>>, known: Known, key: Seq<char>) -> Seq<Seq<char>> {
    match known.var(key) {
        Some(value) => list.push(value),
        None => list,
    }
}

/// The configuration files of the whole machine, from its root.
pub open spec fn system_rc_files() -> Seq<Seq<char>> {
    seq![
        "etc/conda/.condarc"@,
        "etc/conda/condarc"@,
        "etc/conda/condarc.d/"@,
        "var/lib/conda/.condarc"@,
        "var/lib/conda/condarc"@,
        "var/lib/conda/condarc.d/"@,
    ]
}

/// The directory that stands for the root of the machine.
pub open spec fn root_directory(known: Known) -> Seq<char> {
    match known.root {
        Some(root) => root,
        None => "/"@,
    }
}

/// The places in which a configuration file of Conda is looked for, in order:
/// those of the machine, then those that `CONDA_ROOT` names, on Unix those that
/// `XDG_CONFIG_HOME` names, those under the user's home, those that
/// `CONDA_PREFIX` names, and the file that `CONDARC` names.
pub open spec fn conda_rc_search_paths(known: Known) -> Seq<Seq<char>> {
    match known.platform {
        Platform::Windows => {
            let fixed = seq![
                "C:/ProgramData/conda/.condarc"@,
                "C:/ProgramData/conda/condarc"@,
                "C:/ProgramData/conda/condarc.d"@,
            ];
            let a = push_rc_under_var(fixed, known, "CONDA_ROOT"@);
            let b = push_rc_under_home(a, known);
            let c = push_rc_under_var(b, known, "CONDA_PREFIX"@);
            push_var(c, known, "CONDARC"@)
        },
        Platform::Unix => {
            let fixed = joined_all(root_directory(known), system_rc_files());
            let a = push_rc_under_var(fixed, known, "CONDA_ROOT"@);
            let b = push_rc_under_var(a, known, "XDG_CONFIG_HOME"@);
            let c = push_rc_under_home(b, known);
            let d = push_rc_under_var(c, known, "CONDA_PREFIX"@);
            push_var(d, known, "CONDARC"@)
        },
    }
}

fn add_rc_under_var<E: Environment>(list: &mut Vec<String>, environment: &E, key: &str)
    ensures
        final(list).deep_view() == push_rc_under_var(old(list).deep_view(), environment.known(), key@),
{
    add_under_var(list, environment, key, ".condarc");
    add_under_var(list, environment, key, "condarc");
    add_under_var(list, environment, key, ".condarc.d");
}

fn add_rc_under_home<E: Environment>(list: &mut Vec<String>, environment: &E)
    ensures
        final(list).deep_view() == push_rc_under_home(old(list).deep_view(), environment.known()),
{
    add_under_home(list, environment, ".config/conda/.condarc");
    add_under_home(list, environment, ".config/conda/condarc");
    add_under_home(list, environment, ".config/conda/condarc.d");
    add_under_home(list, environment, ".conda/.condarc");
    add_under_home(list, environment, ".conda/condarc");
    add_under_home(list, environment, ".conda/condarc.d");
    add_under_home(list, environment, ".condarc");
}

fn add_var<E: Environment>(list: &mut Vec<String>, environment: &E, key: &str)
    ensures
        final(list).deep_view() == push_var(old(list).deep_view(), environment.known(), key@),
{
    match environment.get_env_var(key.to_owned()) {
        Some(value) => {
            let ghost before = list.deep_view();
            list.push(value);
            assert(list.deep_view() =~= before.push(value@));
        },
        None => {},
    }
}

pub fn get_conda_rc_search_paths<E: Environment>(environment: &E) -> (r: Vec<String>)
    ensures
        r.deep_view() == conda_rc_search_paths(environment.known()),
{
    match environment.get_platform() {
        Platform::Windows => {
            let mut out = owned_list(
                &[
                    "C:/ProgramData/conda/.condarc",
                    "C:/ProgramData/conda/condarc",
                    "C:/ProgramData/conda/condarc.d",
                ],
            );
            assert(out.deep_view() =~= seq![
                "C:/ProgramData/conda/.condarc"@,
                "C:/ProgramData/conda/condarc"@,
                "C:/ProgramData/conda/condarc.d"@,
            ]);
            add_rc_under_var(&mut out, environment, "CONDA_ROOT");
            add_rc_under_home(&mut out, environment);
            add_rc_under_var(&mut out, environment, "CONDA_PREFIX");
            add_var(&mut out, environment, "CONDARC");
            out
        },
        Platform::Unix => {
            let relatives = owned_list(
                &[
                    "etc/conda/.condarc",
                    "etc/conda/condarc",
                    "etc/conda/condarc.d/",
                    "var/lib/conda/.condarc",
                    "var/lib/conda/condarc",
                    "var/lib/conda/condarc.d/",
                ],
            );
            assert(relatives.deep_view() =~= system_rc_files());
            let root = match environment.get_root() {
                Some(root) => root,
                None => "/".to_owned(),
            };
            let mut out = join_all(root.as_str(), &relatives);
            add_rc_under_var(&mut out, environment, "CONDA_ROOT");
            add_rc_under_var(&mut out, environment, "XDG_CONFIG_HOME");
            add_rc_under_home(&mut out, environment);
            add_rc_under_var(&mut out, environment, "CONDA_PREFIX");
            add_var(&mut out, environment, "CONDARC");
            out
        },
    }
}

/// The directory of environments that one `- <path>` line of a configuration
/// file names: `envs` under the path.
pub open spec fn rc_line_entry(line: Seq<char>) -> Seq<Seq<char>> {
    match after_first(line, '-') {
        None => seq![],
        Some(path) => seq![join(trim(path), "envs"@)],
    }
}

/// The directories of environments that the lines of a configuration file
/// list: those of the `- <path>` lines that follow the first `envs_dirs:`
/// line, up to the first line that is none. `listing` says whether the
/// `envs_dirs:` line has been passed.
pub open spec fn rc_entries(file: Seq<Seq<char>>, listing: bool) -> Seq<Seq<char>>
    decreases file.len(),
{
    if file.len() == 0 {
        seq![]
    } else {
        let rest = file.subrange(1, file.len() as int);
        if !listing {
            rc_entries(rest, starts_with(file[0], "envs_dirs:"@))
        } else if starts_with(trim(file[0]), "-"@) {
            rc_line_entry(file[0]) + rc_entries(rest, true)
        } else {
            seq![]
        }
    }
}

/// The directories of environments that the configuration file `text` lists.
pub open spec fn condarc_entries(text: Seq<char>) -> Seq<Seq<char>> {
    rc_entries(lines(text), false)
}

/// The directories of environments that the configuration file `text` lists
/// and that are there.
pub open spec fn condarc_directories(disk: Seq<EntryView>, text: Seq<char>) -> Seq<Seq<char>> {
    select(condarc_entries(text), |directory: Seq<char>| exists_at(disk, directory))
}

/// The directories of environments that the configuration files among
/// `files` list, file by file.
pub open spec fn directories_of_rc_files(disk: Seq<EntryView>, files: Seq<Seq<char>>) -> Seq<
    Seq<char>,
>
    decreases files.len(),
{
    if files.len() == 0 {
        seq![]
    } else {
        directories_of_rc_files(disk, files.drop_last()) + match text_at(disk, files.last()) {
            Some(text) => condarc_directories(disk, text),
            None => seq![],
        }
    }
}

/// Some file among `files` can be read.
pub open spec fn any_readable(disk: Seq<EntryView>, files: Seq<Seq<char>>) -> bool {
    exists|i: int| 0 <= i < files.len() && text_at(disk, #[trigger] files[i]) is Some
}

/// What the configuration files of Conda say. `None` where none can be read.
pub open spec fn conda_conda_rc(known: Known, disk: Seq<EntryView>) -> Option<Seq<Seq<char>>> {
    if any_readable(disk, conda_rc_search_paths(known)) {
        Some(directories_of_rc_files(disk, conda_rc_search_paths(known)))
    } else {
        None
    }
}

/// The directories of environments that the configuration files of Conda list.
pub open spec fn conda_environment_paths_from_conda_rc(known: Known, disk: Seq<EntryView>) -> Seq<
    Seq<char>,
> {
    match conda_conda_rc(known, disk) {
        Some(directories) => directories,
        None => seq![],
    }
}

/// The directories of environments that the configuration file `text` lists.
pub fn get_condarc_entries(text: &str) -> (r: Vec<String>)
    ensures
        r.deep_view() == condarc_entries(text@),
{
    let all = lines_of(text);
    let ghost file = all.deep_view();
    let mut out: Vec<String> = Vec::new();
    let mut listing = false;
    let mut i: usize = 0;
    assert(file.subrange(0, file.len() as int) == file);
    assert(out.deep_view() =~= Seq::<Seq<char>>::empty());
    assert(out.deep_view() + rc_entries(file, false) =~= rc_entries(file, false));
    while i < all.len()
        invariant
            i <= all.len(),
            file == all.deep_view(),
            file == lines(text@),
            out.deep_view() + rc_entries(file.subrange(i as int, file.len() as int), listing)
                == rc_entries(file, false),
        decreases all.len() - i,
    {
        let ghost tail = file.subrange(i as int, file.len() as int);
        let ghost before = out.deep_view();
        assert(tail[0] == all[i as int]@);
        assert(tail.subrange(1, tail.len() as int) == file.subrange(i + 1, file.len() as int));
        let line = all[i].as_str();
        if !listing {
            listing = starts_with_str(line, "envs_dirs:");
        } else if starts_with_str(trim_str(line).as_str(), "-") {
            match after_first_char(line, '-') {
                Some(path) => {
                    let directory = join_path(trim_str(path.as_str()).as_str(), "envs");
                    out.push(directory);
                    assert(out.deep_view() =~= before + seq![directory@]);
                },
                None => {},
            }
            assert(out.deep_view() =~= before + rc_line_entry(line@));
            assert((before + rc_line_entry(line@)) + rc_entries(
                file.subrange(i + 1, file.len() as int),
                true,
            ) =~= before + (rc_line_entry(line@) + rc_entries(
                file.subrange(i + 1, file.len() as int),
                true,
            )));
        } else {
            assert(before + Seq::<Seq<char>>::empty() =~= before);
            return out;
        }
        i = i + 1;
    }
    assert(out.deep_view() + Seq::<Seq<char>>::empty() =~= out.deep_view());
    out
}

/// The directories of environments that the configuration file `text` lists
/// and that are there.
pub fn parse_condarc(fs: &FileSystem, text: &str) -> (r: Vec<String>)
    ensures
        r.deep_view() == condarc_directories(fs.deep_view(), text@),
{
    let entries = get_condarc_entries(text);
    let ghost disk = fs.deep_view();
    let ghost keep = |directory: Seq<char>| exists_at(disk, directory);
    let ghost all = entries.deep_view();
    let mut out: Vec<String> = Vec::new();
    let mut i: usize = 0;
    assert(out.deep_view() =~= select(all.take(0), keep));
    while i < entries.len()
        invariant
            i <= entries.len(),
            disk == fs.deep_view(),
            all == entries.deep_view(),
            keep == |directory: Seq<char>| exists_at(disk, directory),
            out.deep_view() == select(all.take(i as int), keep),
        decreases entries.len() - i,
    {
        proof {
            lemma_select_step(all, keep, i as int);
        }
        if fs.is_present(entries[i].as_str()) {
            let ghost before = out.deep_view();
            out.push(entries[i].clone());
            assert(out.deep_view() =~= before.push(all[i as int]));
        }
        i = i + 1;
    }
    assert(all.take(all.len() as int) == all);
    out
}

fn get_conda_conda_rc<E: Environment>(environment: &E, fs: &FileSystem) -> (r: Option<Condarc>)
    ensures
        match r {
            Some(rc) => conda_conda_rc(environment.known(), fs.deep_view()) == Some(
                rc.env_dirs.deep_view(),
            ),
            None => conda_conda_rc(environment.known(), fs.deep_view()) is None,
        },
{
    let files = get_conda_rc_search_paths(environment);
    let ghost disk = fs.deep_view();
    let ghost all = files.deep_view();
    let mut env_dirs: Vec<String> = Vec::new();
    let mut readable = false;
    let mut i: usize = 0;
    assert(env_dirs.deep_view() =~= directories_of_rc_files(disk, all.take(0)));
    while i < files.len()
        invariant
            i <= files.len(),
            disk == fs.deep_view(),
            all == files.deep_view(),
            env_dirs.deep_view() == directories_of_rc_files(disk, all.take(i as int)),
            readable == any_readable(disk, all.take(i as int)),
        decreases files.len() - i,
    {
        assert(all.take(i + 1).drop_last() == all.take(i as int));
        assert(all.take(i + 1).last() == files[i as int]@);
        let ghost seen = all.take(i as int);
        let ghost next = all.take(i + 1);
        match fs.read_to_string(files[i].as_str()) {
            Some(text) => {
                let found = parse_condarc(fs, text.as_str());
                crate::conda::append_list(&mut env_dirs, &found);
                readable = true;
                assert(text_at(disk, next[i as int]) is Some);
            },
            None => {
                assert(env_dirs.deep_view() + Seq::<Seq<char>>::empty() =~= env_dirs.deep_view());
                proof {
                    if any_readable(disk, next) {
                        let k = choose|k: int|
                            0 <= k < next.len() && text_at(disk, #[trigger] next[k]) is Some;
                        assert(k < i);
                        assert(seen[k] == next[k]);
                    }
                    if any_readable(disk, seen) {
                        let k = choose|k: int|
                            0 <= k < seen.len() && text_at(disk, #[trigger] seen[k]) is Some;
                        assert(seen[k] == next[k]);
                    }
                }
            },
        }
        i = i + 1;
    }
    assert(all.take(all.len() as int) == all);
    if readable {
        Some(Condarc { env_dirs })
    } else {
        None
    }
}

pub fn get_conda_environment_paths_from_conda_rc<E: Environment>(environment: &E, fs: &FileSystem) -> (r:
    Vec<String>)
    ensures
        r.deep_view() == conda_environment_paths_from_conda_rc(environment.known(), fs.deep_view()),
{
    match get_conda_conda_rc(environment, fs) {
        Some(rc) => rc.env_dirs,
        None => {
            let none: Vec<String> = Vec::new();
            assert(none.deep_view() =~= Seq::<Seq<char>>::empty());
            none
        },
    }
}

/// The directories in which an installation of Conda is looked for.
pub open spec fn known_conda_install_locations(known: Known) -> Seq<Seq<char>> {
    let fixed = match known.platform {
        Platform::Windows => {
            let a = push_under_var(seq![], known, "USERPROFILE"@, "Anaconda3"@);
            let b = push_under_var(a, known, "PROGRAMDATA"@, "Anaconda3"@);
            let c = push_under_var(b, known, "ALLUSERSPROFILE"@, "Anaconda3"@);
            let d = push_under_var(c, known, "HOMEDRIVE"@, "Anaconda3"@);
            let e = push_under_var(d, known, "USERPROFILE"@, "Miniconda3"@);
            let f = push_under_var(e, known, "PROGRAMDATA"@, "Miniconda3"@);
            let g = push_under_var(f, known, "ALLUSERSPROFILE"@, "Miniconda3"@);
            let h = push_under_var(g, known, "HOMEDRIVE"@, "Miniconda3"@);
            let i = push_under_var(h, known, "ALLUSERSPROFILE"@, "miniforge3"@);
            push_under_var(i, known, "HOMEDRIVE"@, "miniforge3"@)
        },
        Platform::Unix => seq![
            "/opt/anaconda3"@,
            "/opt/miniconda3"@,
            "/usr/local/anaconda3"@,
            "/usr/local/miniconda3"@,
            "/usr/anaconda3"@,
            "/usr/miniconda3"@,
            "/home/anaconda3"@,
            "/home/miniconda3"@,
            "/anaconda3"@,
            "/miniconda3"@,
            "/miniforge3"@,
            "/miniforge3"@,
        ],
    };
    let a = push_under_home(fixed, known, "anaconda3"@);
    let b = push_under_home(a, known, "miniconda3"@);
    let c = push_under_home(b, known, "miniforge3"@);
    push_under_home(c, known, ".conda"@)
}

pub fn get_known_conda_install_locations<E: Environment>(environment: &E) -> (r: Vec<String>)
    ensures
        r.deep_view() == known_conda_install_locations(environment.known()),
{
    let mut out: Vec<String>;
    match environment.get_platform() {
        Platform::Windows => {
            out = Vec::new();
            assert(out.deep_view() =~= Seq::<Seq<char>>::empty());
            add_under_var(&mut out, environment, "USERPROFILE", "Anaconda3");
            add_under_var(&mut out, environment, "PROGRAMDATA", "Anaconda3");
            add_under_var(&mut out, environment, "ALLUSERSPROFILE", "Anaconda3");
            add_under_var(&mut out, environment, "HOMEDRIVE", "Anaconda3");
            add_under_var(&mut out, environment, "USERPROFILE", "Miniconda3");
            add_under_var(&mut out, environment, "PROGRAMDATA", "Miniconda3");
            add_under_var(&mut out, environment, "ALLUSERSPROFILE", "Miniconda3");
            add_under_var(&mut out, environment, "HOMEDRIVE", "Miniconda3");
            add_under_var(&mut out, environment, "ALLUSERSPROFILE", "miniforge3");
            add_under_var(&mut out, environment, "HOMEDRIVE", "miniforge3");
        },
        Platform::Unix => {
            out = owned_list(
                &[
                    "/opt/anaconda3",
                    "/opt/miniconda3",
                    "/usr/local/anaconda3",
                    "/usr/local/miniconda3",
                    "/usr/anaconda3",
                    "/usr/miniconda3",
                    "/home/anaconda3",
                    "/home/miniconda3",
                    "/anaconda3",
                    "/miniconda3",
                    "/miniforge3",
                    "/miniforge3",
                ],
            );
            assert(out.deep_view() =~= seq![
                "/opt/anaconda3"@,
                "/opt/miniconda3"@,
                "/usr/local/anaconda3"@,
                "/usr/local/miniconda3"@,
                "/usr/anaconda3"@,
                "/usr/miniconda3"@,
                "/home/anaconda3"@,
                "/home/miniconda3"@,
                "/anaconda3"@,
                "/miniconda3"@,
                "/miniforge3"@,
                "/miniforge3"@,
            ]);
        },
    }
    add_under_home(&mut out, environment, "anaconda3");
    add_under_home(&mut out, environment, "miniconda3");
    add_under_home(&mut out, environment, "miniforge3");
    add_under_home(&mut out, environment, ".conda");
    out
}

/// The command that runs the interpreter of `env` through `manager`: by name
/// for an environment in an `envs` directory, by path for any other. There is
/// none where the environment has no interpreter.
pub open spec fn activation_command(env: CondaEnvironmentView, manager: EnvManagerView) -> Option<
    Seq<Seq<char>>,
> {
    if env.python_executable_path is None {
        None
    } else if env.named {
        Some(seq![manager.executable_path, "run"@, "-n"@, env.name, "python"@])
    } else {
        Some(seq![manager.executable_path, "run"@, "-p"@, env.env_path, "python"@])
    }
}

/// The command that runs the interpreter of the environment at `path` through `conda_exe`.
fn run_command(conda_exe: &str, flag: &str, target: &str) -> (r: Vec<String>)
    ensures
        r.deep_view() == seq![conda_exe@, "run"@, flag@, target@, "python"@],
{
    let mut out: Vec<String> = Vec::new();
    out.push(conda_exe.to_owned());
    out.push("run".to_owned());
    out.push(flag.to_owned());
    out.push(target.to_owned());
    out.push("python".to_owned());
    assert(out.deep_view() =~= seq![conda_exe@, "run"@, flag@, target@, "python"@]);
    out
}

pub fn get_activation_command(env: &CondaEnvironment, manager: &EnvManager) -> (r: Option<
    Vec<String>,
>)
    ensures
        r.deep_view() == activation_command(env.deep_view(), manager.deep_view()),
{
    if env.python_executable_path.is_none() {
        return None;
    }
    let conda_exe = manager.executable_path.as_str();
    if env.named {
        Some(run_command(conda_exe, "-n", env.name.as_str()))
    } else {
        Some(run_command(conda_exe, "-p", env.env_path.as_str()))
    }
}

/// The environment that the installation at `path` is itself. There is none
/// where the installation has no interpreter or records no `python` package.
pub open spec fn root_python_environment(
    disk: Seq<EntryView>,
    platform: Platform,
    path: Seq<char>,
    manager: EnvManagerView,
) -> Option<PythonEnvironmentView> {
    let python = join(path, relative_paths_to_main_python_executable(platform));
    if !exists_at(disk, python) {
        None
    } else {
        match conda_package(disk, path, "python"@) {
            None => None,
            Some(package) => Some(
                PythonEnvironmentView {
                    arch: package.arch,
                    ..new_environment(
                        None,
                        None,
                        Some(python),
                        PythonEnvironmentCategory::Conda,
                        Some(package.version),
                        Some(path),
                        Some(manager),
                        Some(seq![manager.executable_path, "run"@, "-p"@, path, "python"@]),
                    )
                },
            ),
        }
    }
}

pub fn get_root_python_environment(
    fs: &FileSystem,
    platform: Platform,
    path: &str,
    manager: &EnvManager,
) -> (r: Option<PythonEnvironment>)
    ensures
        r.deep_view() == root_python_environment(
            fs.deep_view(),
            platform,
            path@,
            manager.deep_view(),
        ),
{
    let relative = get_relative_paths_to_main_python_executable(platform);
    let python_exe = join_path(path, relative.as_str());
    if !fs.is_present(python_exe.as_str()) {
        return None;
    }
    match get_conda_package_json_path(fs, path, "python") {
        None => None,
        Some(package) => {
            let mut env = PythonEnvironment::new(
                None,
                None,
                Some(python_exe),
                PythonEnvironmentCategory::Conda,
                Some(package.version),
                Some(path.to_owned()),
                Some(manager.clone()),
                Some(run_command(manager.executable_path.as_str(), "-p", path)),
            );
            env.arch = package.arch;
            Some(env)
        },
    }
}

/// The installation at `path` keeps environments: it has a directory `envs`.
pub open spec fn conda_install_location(disk: Seq<EntryView>, path: Seq<char>) -> bool {
    is_dir_at(disk, join(path, "envs"@))
}

pub fn is_conda_install_location(fs: &FileSystem, path: &str) -> (r: bool)
    ensures
        r == conda_install_location(fs.deep_view(), path@),
{
    fs.is_dir(join_path(path, "envs").as_str())
}

/// The directory at `path` is an environment: it has a directory `conda-meta`.
pub open spec fn conda_env_location(disk: Seq<EntryView>, path: Seq<char>) -> bool {
    is_dir_at(disk, join(path, "conda-meta"@))
}

pub fn is_conda_env_location(fs: &FileSystem, path: &str) -> (r: bool)
    ensures
        r == conda_env_location(fs.deep_view(), path@),
{
    fs.is_dir(join_path(path, "conda-meta").as_str())
}

/// The directory of the installation that the executable `conda_binary`
/// belongs to: the directory that holds it, or the one above where that one
/// is `bin`, and again the one above where that one is `Library`.
pub open spec fn install_directory_of_binary(conda_binary: Seq<char>) -> Option<Seq<char>> {
    match parent(conda_binary) {
        None => None,
        Some(directory) => {
            let below_bin = if file_name(directory) == Some("bin"@) {
                parent(directory)
            } else {
                Some(directory)
            };
            match below_bin {
                None => None,
                Some(directory) => if file_name(directory) == Some("Library"@) {
                    parent(directory)
                } else {
                    Some(directory)
                },
            }
        },
    }
}

/// The version of the installation that the executable `conda_binary` belongs
/// to: that of the `conda` package of its directory, else of the directory above.
pub open spec fn conda_version(disk: Seq<EntryView>, conda_binary: Seq<char>) -> Option<Seq<char>> {
    match install_directory_of_binary(conda_binary) {
        None => None,
        Some(directory) => match conda_package(disk, directory, "conda"@) {
            Some(package) => Some(package.version),
            None => match parent(directory) {
                None => None,
                Some(above) => version_of(conda_package(disk, above, "conda"@)),
            },
        },
    }
}

/// Whether the last component of `path` is `name`.
fn is_named(path: &str, name: &str) -> (r: bool)
    ensures
        r == (file_name(path@) == Some(name@)),
{
    match file_name_of(path) {
        Some(found) => same_str(found.as_str(), name),
        None => false,
    }
}

/// The directory of the installation that the executable `conda_binary` belongs to.
pub fn get_install_directory_of_binary(conda_binary: &str) -> (r: Option<String>)
    ensures
        r.deep_view() == install_directory_of_binary(conda_binary@),
{
    let mut directory = match parent_of(conda_binary) {
        Some(directory) => directory,
        None => { return None; },
    };
    if is_named(directory.as_str(), "bin") {
        directory = match parent_of(directory.as_str()) {
            Some(above) => above,
            None => { return None; },
        };
    }
    if is_named(directory.as_str(), "Library") {
        directory = match parent_of(directory.as_str()) {
            Some(above) => above,
            None => { return None; },
        };
    }
    Some(directory)
}

pub fn get_conda_version(fs: &FileSystem, conda_binary: &str) -> (r: Option<String>)
    ensures
        r.deep_view() == conda_version(fs.deep_view(), conda_binary@),
{
    let directory = match get_install_directory_of_binary(conda_binary) {
        Some(directory) => directory,
        None => { return None; },
    };
    match get_conda_package_json_path(fs, directory.as_str(), "conda") {
        Some(package) => Some(package.version),
        None => {
            let above = match parent_of(directory.as_str()) {
                Some(above) => above,
                None => { return None; },
            };
            match get_conda_package_json_path(fs, above.as_str(), "conda") {
                Some(package) => Some(package.version),
                None => None,
            }
        },
    }
}

/// `envs` without the environments at `path`.
pub open spec fn without_path(envs: Seq<CondaEnvironmentView>, path: Seq<char>) -> Seq<
    CondaEnvironmentView,
> {
    select(envs, |env: CondaEnvironmentView| env.env_path != path)
}

/// `envs` without the environments at the paths of `found`.
pub open spec fn without_paths(envs: Seq<CondaEnvironmentView>, found: Seq<CondaEnvironmentView>) -> Seq<
    CondaEnvironmentView,
>
    decreases found.len(),
{
    if found.len() == 0 {
        envs
    } else {
        without_path(without_paths(envs, found.drop_last()), found.last().env_path)
    }
}

/// Each directory is there once: no two of `envs` lie at one path.
pub open spec fn distinct_paths(envs: Seq<CondaEnvironmentView>) -> bool {
    forall|i: int, j: int|
        0 <= i < j < envs.len() ==> (#[trigger] envs[i]).env_path != (#[trigger] envs[j]).env_path
}

/// Choosing among environments of which each directory is there once leaves
/// each directory there once.
pub proof fn lemma_select_keeps_distinct_paths(
    envs: Seq<CondaEnvironmentView>,
    keep: spec_fn(CondaEnvironmentView) -> bool,
)
    requires
        distinct_paths(envs),
    ensures
        distinct_paths(select(envs, keep)),
    decreases envs.len(),
{
    if envs.len() > 0 {
        let before = envs.drop_last();
        assert forall|i: int, j: int| 0 <= i < j < before.len() implies (#[trigger] before[i]).env_path
            != (#[trigger] before[j]).env_path by {
            assert(before[i] == envs[i] && before[j] == envs[j]);
        }
        lemma_select_keeps_distinct_paths(before, keep);
        crate::lists::lemma_select_members(before, keep);
        let rest = select(before, keep);
        let chosen = select(envs, keep);
        assert forall|i: int, j: int| 0 <= i < j < chosen.len() implies (#[trigger] chosen[i]).env_path
            != (#[trigger] chosen[j]).env_path by {
            if j < rest.len() {
                assert(chosen[i] == rest[i] && chosen[j] == rest[j]);
            } else {
                assert(chosen[i] == rest[i]);
                assert(chosen[j] == envs.last());
                let w = choose|w: int| 0 <= w < before.len() && before[w] == rest[i];
                assert(envs[w] == rest[i]);
                assert(envs[envs.len() - 1] == envs.last());
            }
        }
    }
}

/// Taking the environments of some paths away leaves each directory there once.
pub proof fn lemma_without_paths_keeps_distinct_paths(
    envs: Seq<CondaEnvironmentView>,
    found: Seq<CondaEnvironmentView>,
)
    requires
        distinct_paths(envs),
    ensures
        distinct_paths(without_paths(envs, found)),
    decreases found.len(),
{
    if found.len() > 0 {
        lemma_without_paths_keeps_distinct_paths(envs, found.drop_last());
        lemma_select_keeps_distinct_paths(
            without_paths(envs, found.drop_last()),
            |env: CondaEnvironmentView| env.env_path != found.last().env_path,
        );
    }
}

/// Takes the environments at `path` out of `envs`.
pub fn remove_path(envs: &mut Vec<CondaEnvironment>, path: &str)
    ensures
        final(envs).deep_view() == without_path(old(envs).deep_view(), path@),
{
    let ghost all = envs.deep_view();
    let ghost keep = |env: CondaEnvironmentView| env.env_path != path@;
    let mut out: Vec<CondaEnvironment> = Vec::new();
    let mut i: usize = 0;
    assert(out.deep_view() =~= select(all.take(0), keep));
    while i < envs.len()
        invariant
            i <= envs.len(),
            all == envs.deep_view(),
            keep == |env: CondaEnvironmentView| env.env_path != path@,
            out.deep_view() == select(all.take(i as int), keep),
        decreases envs.len() - i,
    {
        proof {
            lemma_select_step(all, keep, i as int);
        }
        if !same_str(envs[i].env_path.as_str(), path) {
            let ghost before = out.deep_view();
            out.push(envs[i].clone());
            assert(out.deep_view() =~= before.push(all[i as int]));
        }
        i = i + 1;
    }
    assert(all.take(all.len() as int) == all);
    *envs = out;
}

/// The record of `env` as an environment of `manager`.
pub open spec fn python_environment_of(env: CondaEnvironmentView, manager: EnvManagerView) -> PythonEnvironmentView {
    PythonEnvironmentView {
        arch: env.arch,
        ..new_environment(
            None,
            Some(env.name),
            env.python_executable_path,
            PythonEnvironmentCategory::Conda,
            env.version,
            Some(env.env_path),
            Some(manager),
            activation_command(env, manager),
        )
    }
}

/// The record of `env` as an environment of `manager`.
pub fn get_python_environment_of(env: &CondaEnvironment, manager: &EnvManager) -> (r:
    PythonEnvironment)
    ensures
        r.deep_view() == python_environment_of(env.deep_view(), manager.deep_view()),
{
    let mut record = PythonEnvironment::new(
        None,
        Some(env.name.clone()),
        clone_option(&env.python_executable_path),
        PythonEnvironmentCategory::Conda,
        clone_option(&env.version),
        Some(env.env_path.clone()),
        Some(manager.clone()),
        get_activation_command(env, manager),
    );
    record.arch = env.arch;
    record
}

/// Environments with the keys under which they were gathered.
pub struct Gathered {
    pub environments: Seq<PythonEnvironmentView>,
    pub keys: Seq<Seq<char>>,
}

/// The identity key of an environment: its executable's path, else the path
/// of the directory that owns it.
pub open spec fn key_of(env: PythonEnvironmentView) -> Option<Seq<char>> {
    crate::utils::environment_key(env)
}

/// `gathered`, with the record of each of `envs` behind it whose key was not
/// gathered before, in order.
pub open spec fn gather(gathered: Gathered, envs: Seq<CondaEnvironmentView>, manager: EnvManagerView) -> Gathered
    decreases envs.len(),
{
    if envs.len() == 0 {
        gathered
    } else {
        let sofar = gather(gathered, envs.drop_last(), manager);
        let record = python_environment_of(envs.last(), manager);
        match key_of(record) {
            None => sofar,
            Some(key) => if sofar.keys.contains(key) {
                sofar
            } else {
                Gathered {
                    environments: sofar.environments.push(record),
                    keys: sofar.keys.push(key),
                }
            },
        }
    }
}

/// The environments of `possible` that the installation at `folder` created
/// and that lie outside its `envs` directory.
pub open spec fn created_elsewhere(possible: Seq<CondaEnvironmentView>, folder: Seq<char>) -> Seq<
    CondaEnvironmentView,
> {
    select(
        possible,
        |env: CondaEnvironmentView|
            !is_under(env.env_path, join(folder, "envs"@)) && created_by_specific_conda(
                env,
                folder,
            ),
    )
}

/// The environments of `possible` other than those of `created_elsewhere`.
pub open spec fn not_created_elsewhere(possible: Seq<CondaEnvironmentView>, folder: Seq<char>) -> Seq<
    CondaEnvironmentView,
> {
    select(
        possible,
        |env: CondaEnvironmentView|
            !(!is_under(env.env_path, join(folder, "envs"@)) && created_by_specific_conda(
                env,
                folder,
            )),
    )
}

/// What one installation holds, and the possible environments that remain.
pub struct InstallPathOutcome {
    pub result: Option<LocatorResultView>,
    pub possible: Seq<CondaEnvironmentView>,
}

/// What was gathered once the installation's own environment has been looked at.
pub open spec fn gathered_root(root: Option<PythonEnvironmentView>, folder: Seq<char>) -> Gathered {
    match root {
        Some(env) => Gathered { environments: seq![env], keys: seq![folder] },
        None => Gathered { environments: seq![], keys: seq![] },
    }
}

/// What is left of `possible` once the installation's own environment has been looked at.
pub open spec fn possible_after_root(
    root: Option<PythonEnvironmentView>,
    folder: Seq<char>,
    possible: Seq<CondaEnvironmentView>,
) -> Seq<CondaEnvironmentView> {
    match root {
        Some(_) => without_path(possible, folder),
        None => possible,
    }
}

/// The environments in the `envs` directory of the installation at `folder`.
pub open spec fn named_environments(disk: Seq<EntryView>, platform: Platform, folder: Seq<char>) -> Seq<
    CondaEnvironmentView,
> {
    match environments_in_envs_folder(disk, platform, folder) {
        Some(envs) => envs,
        None => seq![],
    }
}

/// The installation at `folder` with all its environments: its own, those in
/// its `envs` directory, and those of `possible` that it created elsewhere;
/// each key once. There is nothing where `folder` is no directory or holds no
/// manager. The environments found leave `possible`.
pub open spec fn install_path_outcome(
    disk: Seq<EntryView>,
    platform: Platform,
    folder: Seq<char>,
    possible: Seq<CondaEnvironmentView>,
) -> InstallPathOutcome {
    if !is_dir_at(disk, folder) {
        InstallPathOutcome { result: None, possible }
    } else {
        match conda_manager(disk, platform, folder) {
            None => InstallPathOutcome { result: None, possible },
            Some(manager) => {
                let root = root_python_environment(disk, platform, folder, manager);
                let named = named_environments(disk, platform, folder);
                let left = without_paths(possible_after_root(root, folder, possible), named);
                let gathered = gather(
                    gathered_root(root, folder),
                    named + created_elsewhere(left, folder),
                    manager,
                );
                InstallPathOutcome {
                    result: Some(
                        LocatorResultView {
                            managers: seq![manager],
                            environments: gathered.environments,
                        },
                    ),
                    possible: not_created_elsewhere(left, folder),
                }
            },
        }
    }
}

/// Visiting an installation keeps the possible environments free of
/// duplicates: where each directory was there once, each that remains is there once.
pub proof fn lemma_install_path_outcome_keeps_distinct_paths(
    disk: Seq<EntryView>,
    platform: Platform,
    folder: Seq<char>,
    possible: Seq<CondaEnvironmentView>,
)
    requires
        distinct_paths(possible),
    ensures
        distinct_paths(install_path_outcome(disk, platform, folder, possible).possible),
{
    if is_dir_at(disk, folder) {
        match conda_manager(disk, platform, folder) {
            None => {},
            Some(manager) => {
                let root = root_python_environment(disk, platform, folder, manager);
                let named = named_environments(disk, platform, folder);
                lemma_select_keeps_distinct_paths(
                    possible,
                    |env: CondaEnvironmentView| env.env_path != folder,
                );
                let after_root = possible_after_root(root, folder, possible);
                lemma_without_paths_keeps_distinct_paths(after_root, named);
                let left = without_paths(after_root, named);
                lemma_select_keeps_distinct_paths(
                    left,
                    |env: CondaEnvironmentView|
                        !(!is_under(env.env_path, join(folder, "envs"@))
                            && created_by_specific_conda(env, folder)),
                );
            },
        }
    }
}

/// The command of `env`, where it has one, runs `python` through the
/// executable of `manager`, in the environment of that name or at that path.
pub open spec fn command_through(env: PythonEnvironmentView, manager: EnvManagerView) -> bool {
    match env.python_run_command {
        None => true,
        Some(command) => (env.name matches Some(name) && command == seq![
            manager.executable_path,
            "run"@,
            "-n"@,
            name,
            "python"@,
        ]) || (env.env_path matches Some(path) && command == seq![
            manager.executable_path,
            "run"@,
            "-p"@,
            path,
            "python"@,
        ]),
    }
}

/// `env` is an environment of Conda that `manager` runs: it carries
/// `manager`, and its command runs `python` through the executable of
/// `manager`, in the environment of that name or at that path. Only an
/// environment without an interpreter has no command.
pub open spec fn run_through(env: PythonEnvironmentView, manager: EnvManagerView) -> bool {
    &&& env.category == PythonEnvironmentCategory::Conda
    &&& env.env_manager == Some(manager)
    &&& command_through(env, manager)
    &&& env.python_run_command is None ==> env.python_executable_path is None
}

/// All of `environments` are run through `manager`.
pub open spec fn all_run_through(environments: Seq<PythonEnvironmentView>, manager: EnvManagerView) -> bool {
    forall|k: int| 0 <= k < environments.len() ==> run_through(#[trigger] environments[k], manager)
}

/// One of `environments` has the identity key `key`.
pub open spec fn holds_key(environments: Seq<PythonEnvironmentView>, key: Seq<char>) -> bool {
    exists|k: int| 0 <= k < environments.len() && key_of(#[trigger] environments[k]) == Some(key)
}

/// What `gather` keeps: what was gathered stays in front; every record is
/// run through `manager` where those gathered before are; the key of each of
/// `envs` is among the keys; and each key that was not there before is the
/// key of a record.
pub proof fn lemma_gather(gathered: Gathered, envs: Seq<CondaEnvironmentView>, manager: EnvManagerView)
    ensures
        gathered.environments.is_prefix_of(gather(gathered, envs, manager).environments),
        all_run_through(gathered.environments, manager) ==> all_run_through(
            gather(gathered, envs, manager).environments,
            manager,
        ),
        forall|i: int|
            0 <= i < envs.len() ==> match key_of(python_environment_of(#[trigger] envs[i], manager)) {
                Some(key) => gather(gathered, envs, manager).keys.contains(key),
                None => true,
            },
        forall|key: Seq<char>|
            #![trigger gathered.keys.contains(key)]
            gather(gathered, envs, manager).keys.contains(key) ==> gathered.keys.contains(key)
                || holds_key(gather(gathered, envs, manager).environments, key),
    decreases envs.len(),
{
    let after = gather(gathered, envs, manager);
    if envs.len() > 0 {
        let sofar = gather(gathered, envs.drop_last(), manager);
        let record = python_environment_of(envs.last(), manager);
        lemma_gather(gathered, envs.drop_last(), manager);
        assert(run_through(record, manager));
        assert forall|i: int| 0 <= i < envs.len() implies match key_of(
            python_environment_of(#[trigger] envs[i], manager),
        ) {
            Some(key) => after.keys.contains(key),
            None => true,
        } by {
            match key_of(python_environment_of(envs[i], manager)) {
                None => {},
                Some(key) => {
                    if i < envs.len() - 1 {
                        assert(envs.drop_last()[i] == envs[i]);
                        assert(sofar.keys.contains(key));
                        let at = choose|at: int| 0 <= at < sofar.keys.len() && sofar.keys[at] == key;
                        assert(after.keys[at] == key);
                    } else if !sofar.keys.contains(key) {
                        assert(after.keys[sofar.keys.len() as int] == key);
                    }
                },
            }
        }
        assert forall|key: Seq<char>|
            #![trigger gathered.keys.contains(key)]
            after.keys.contains(key) implies gathered.keys.contains(key) || holds_key(
            after.environments,
            key,
        ) by {
            if sofar.keys.contains(key) {
                if !gathered.keys.contains(key) {
                    let k = choose|k: int|
                        0 <= k < sofar.environments.len() && key_of(
                            #[trigger] sofar.environments[k],
                        ) == Some(key);
                    assert(after.environments[k] == sofar.environments[k]);
                }
            } else {
                let at = choose|at: int| 0 <= at < after.keys.len() && after.keys[at] == key;
                assert(at == sofar.keys.len());
                assert(after.environments[sofar.environments.len() as int] == record);
            }
        }
        if all_run_through(gathered.environments, manager) {
            assert forall|k: int| 0 <= k < after.environments.len() implies run_through(
                #[trigger] after.environments[k],
                manager,
            ) by {
                if k < sofar.environments.len() {
                    assert(after.environments[k] == sofar.environments[k]);
                }
            }
        }
    }
}

/// An installation runs all its environments: what the installation at
/// `folder` gives is its manager alone, and each environment carries that
/// manager and is run through its executable, by name or by path. The
/// installation's own environment comes first and is run by its path.
pub proof fn lemma_installation_runs_its_environments(
    disk: Seq<EntryView>,
    platform: Platform,
    folder: Seq<char>,
    possible: Seq<CondaEnvironmentView>,
)
    requires
        install_path_outcome(disk, platform, folder, possible).result is Some,
    ensures
        conda_manager(disk, platform, folder) is Some,
        ({
            let manager = conda_manager(disk, platform, folder)->0;
            let found = install_path_outcome(disk, platform, folder, possible).result->0;
            &&& found.managers == seq![manager]
            &&& all_run_through(found.environments, manager)
            &&& match root_python_environment(disk, platform, folder, manager) {
                None => true,
                Some(root) => found.environments.len() > 0 && found.environments[0] == root
                    && root.python_run_command == Some(
                    seq![manager.executable_path, "run"@, "-p"@, folder, "python"@],
                ),
            }
        }),
{
    let manager = conda_manager(disk, platform, folder)->0;
    let root = root_python_environment(disk, platform, folder, manager);
    let named = named_environments(disk, platform, folder);
    let left = without_paths(possible_after_root(root, folder, possible), named);
    let start = gathered_root(root, folder);
    let after = gather(start, named + created_elsewhere(left, folder), manager);
    lemma_gather(start, named + created_elsewhere(left, folder), manager);
    assert(install_path_outcome(disk, platform, folder, possible).result->0.environments
        == after.environments);
    match root {
        None => {},
        Some(env) => {
            assert(start.environments[0] == env);
            assert(run_through(env, manager));
            assert(after.environments[0] == start.environments[0]);
        },
    }
    assert(all_run_through(start.environments, manager));
}

/// An environment of `found` lies at none of the paths of `envs`, or it is
/// not among `without_paths(envs, found)`; one that lies at none of them and
/// is among `envs` stays.
pub proof fn lemma_without_paths_holds(
    envs: Seq<CondaEnvironmentView>,
    found: Seq<CondaEnvironmentView>,
    env: CondaEnvironmentView,
)
    requires
        envs.contains(env),
        forall|k: int| 0 <= k < found.len() ==> (#[trigger] found[k]).env_path != env.env_path,
    ensures
        without_paths(envs, found).contains(env),
    decreases found.len(),
{
    if found.len() > 0 {
        assert forall|k: int| 0 <= k < found.drop_last().len() implies (#[trigger] found.drop_last()[k]).env_path
            != env.env_path by {
            assert(found.drop_last()[k] == found[k]);
        }
        lemma_without_paths_holds(envs, found.drop_last(), env);
        assert(found.last() == found[found.len() - 1]);
        lemma_select_holds(
            without_paths(envs, found.drop_last()),
            |other: CondaEnvironmentView| other.env_path != found.last().env_path,
            env,
        );
    }
}

/// An environment goes to the installation that created it. Let `env` be
/// a possible environment that lies outside the installation at `folder`
/// and its `envs` directory. Where the installation created `env`, `env`
/// leaves the possible environments and a record with the key of `env` is
/// among the environments of the installation, run through its manager.
/// Where another installation created `env`, or none is known to have, `env`
/// stays among the possible environments, for the one that did.
pub proof fn lemma_environment_goes_to_its_installation(
    disk: Seq<EntryView>,
    platform: Platform,
    folder: Seq<char>,
    possible: Seq<CondaEnvironmentView>,
    env: CondaEnvironmentView,
)
    requires
        possible.contains(env),
        install_path_outcome(disk, platform, folder, possible).result is Some,
        env.env_path != folder,
        !is_under(env.env_path, join(folder, "envs"@)),
        forall|k: int|
            0 <= k < named_environments(disk, platform, folder).len() ==> (
            #[trigger] named_environments(disk, platform, folder)[k]).env_path != env.env_path,
    ensures
        ({
            let outcome = install_path_outcome(disk, platform, folder, possible);
            let manager = conda_manager(disk, platform, folder)->0;
            if created_by_specific_conda(env, folder) {
                &&& !outcome.possible.contains(env)
                &&& match key_of(python_environment_of(env, manager)) {
                    Some(key) => key == folder || holds_key(outcome.result->0.environments, key),
                    None => true,
                }
                &&& all_run_through(outcome.result->0.environments, manager)
            } else {
                outcome.possible.contains(env)
            }
        }),
{
    let outcome = install_path_outcome(disk, platform, folder, possible);
    let manager = conda_manager(disk, platform, folder)->0;
    let root = root_python_environment(disk, platform, folder, manager);
    let named = named_environments(disk, platform, folder);
    let after_root = possible_after_root(root, folder, possible);
    let left = without_paths(after_root, named);
    if root is Some {
        lemma_select_holds(possible, |other: CondaEnvironmentView| other.env_path != folder, env);
    }
    lemma_without_paths_holds(after_root, named, env);
    lemma_installation_runs_its_environments(disk, platform, folder, possible);
    if created_by_specific_conda(env, folder) {
        let created = |other: CondaEnvironmentView|
            !is_under(other.env_path, join(folder, "envs"@)) && created_by_specific_conda(
                other,
                folder,
            );
        let others = |other: CondaEnvironmentView|
            !(!is_under(other.env_path, join(folder, "envs"@)) && created_by_specific_conda(
                other,
                folder,
            ));
        lemma_select_members(left, others);
        if outcome.possible.contains(env) {
            let at = choose|at: int| 0 <= at < outcome.possible.len() && outcome.possible[at] == env;
            assert(others(select(left, others)[at]));
        }
        lemma_select_holds(left, created, env);
        let all = named + created_elsewhere(left, folder);
        let at = choose|at: int|
            0 <= at < created_elsewhere(left, folder).len() && created_elsewhere(left, folder)[at]
                == env;
        assert(all[named.len() + at] == env);
        lemma_gather(gathered_root(root, folder), all, manager);
        match key_of(python_environment_of(env, manager)) {
            None => {},
            Some(key) => {
                assert(gather(gathered_root(root, folder), all, manager).keys.contains(key));
                if gathered_root(root, folder).keys.contains(key) {
                    assert(root is Some);
                    let k = choose|k: int|
                        0 <= k < gathered_root(root, folder).keys.len() && gathered_root(
                            root,
                            folder,
                        ).keys[k] == key;
                    assert(key == folder);
                }
            },
        }
    } else {
        lemma_select_holds(
            left,
            |other: CondaEnvironmentView|
                !(!is_under(other.env_path, join(folder, "envs"@)) && created_by_specific_conda(
                    other,
                    folder,
                )),
            env,
        );
    }
}

/// One step of `gather`.
proof fn lemma_gather_step(
    gathered: Gathered,
    envs: Seq<CondaEnvironmentView>,
    manager: EnvManagerView,
    i: int,
)
    requires
        0 <= i < envs.len(),
    ensures
        gather(gathered, envs.take(i + 1), manager) == ({
            let sofar = gather(gathered, envs.take(i), manager);
            let record = python_environment_of(envs[i], manager);
            match key_of(record) {
                None => sofar,
                Some(key) => if sofar.keys.contains(key) {
                    sofar
                } else {
                    Gathered {
                        environments: sofar.environments.push(record),
                        keys: sofar.keys.push(key),
                    }
                },
            }
        }),
{
    assert(envs.take(i + 1).drop_last() == envs.take(i));
    assert(envs.take(i + 1).last() == envs[i]);
}

/// Adds to `environments` the record of each of `envs` whose key is not among `keys`.
fn gather_environments(
    environments: &mut Vec<PythonEnvironment>,
    keys: &mut Vec<String>,
    envs: &Vec<CondaEnvironment>,
    manager: &EnvManager,
)
    ensures
        (Gathered {
            environments: final(environments).deep_view(),
            keys: final(keys).deep_view(),
        }) == gather(
            Gathered { environments: old(environments).deep_view(), keys: old(keys).deep_view() },
            envs.deep_view(),
            manager.deep_view(),
        ),
{
    let ghost start = Gathered { environments: environments.deep_view(), keys: keys.deep_view() };
    let ghost all = envs.deep_view();
    let mut i: usize = 0;
    while i < envs.len()
        invariant
            i <= envs.len(),
            all == envs.deep_view(),
            (Gathered { environments: environments.deep_view(), keys: keys.deep_view() })
                == gather(start, all.take(i as int), manager.deep_view()),
        decreases envs.len() - i,
    {
        proof {
            lemma_gather_step(start, all, manager.deep_view(), i as int);
        }
        let record = get_python_environment_of(&envs[i], manager);
        match crate::utils::get_environment_key(&record) {
            Some(key) => {
                if !list_contains(keys, key.as_str()) {
                    let ghost keys_before = keys.deep_view();
                    let ghost before = environments.deep_view();
                    keys.push(key);
                    environments.push(record);
                    assert(keys.deep_view() =~= keys_before.push(key@));
                    assert(environments.deep_view() =~= before.push(record.deep_view()));
                }
            },
            None => {},
        }
        i = i + 1;
    }
    assert(all.take(all.len() as int) == all);
}

/// Takes the environments at the paths of `found` out of `envs`.
fn remove_paths(envs: &mut Vec<CondaEnvironment>, found: &Vec<CondaEnvironment>)
    ensures
        final(envs).deep_view() == without_paths(old(envs).deep_view(), found.deep_view()),
{
    let ghost start = envs.deep_view();
    let ghost all = found.deep_view();
    let mut i: usize = 0;
    while i < found.len()
        invariant
            i <= found.len(),
            all == found.deep_view(),
            envs.deep_view() == without_paths(start, all.take(i as int)),
        decreases found.len() - i,
    {
        assert(all.take(i + 1).drop_last() == all.take(i as int));
        assert(all.take(i + 1).last() == all[i as int]);
        remove_path(envs, found[i].env_path.as_str());
        i = i + 1;
    }
    assert(all.take(all.len() as int) == all);
}

/// Moves from `possible` to `envs` the environments that the installation at
/// `folder` created outside its `envs` directory.
fn take_created_elsewhere(
    possible: &mut Vec<CondaEnvironment>,
    folder: &str,
    envs: &mut Vec<CondaEnvironment>,
)
    ensures
        final(envs).deep_view() == old(envs).deep_view() + created_elsewhere(
            old(possible).deep_view(),
            folder@,
        ),
        final(possible).deep_view() == not_created_elsewhere(old(possible).deep_view(), folder@),
{
    let ghost all = possible.deep_view();
    let ghost base = envs.deep_view();
    let ghost taken = |env: CondaEnvironmentView|
        !is_under(env.env_path, join(folder@, "envs"@)) && created_by_specific_conda(env, folder@);
    let ghost left = |env: CondaEnvironmentView|
        !(!is_under(env.env_path, join(folder@, "envs"@)) && created_by_specific_conda(
            env,
            folder@,
        ));
    let envs_dir = join_path(folder, "envs");
    let mut rest: Vec<CondaEnvironment> = Vec::new();
    let mut i: usize = 0;
    assert(rest.deep_view() =~= select(all.take(0), left));
    assert(envs.deep_view() =~= base + select(all.take(0), taken));
    while i < possible.len()
        invariant
            i <= possible.len(),
            all == possible.deep_view(),
            envs_dir@ == join(folder@, "envs"@),
            taken == |env: CondaEnvironmentView|
                !is_under(env.env_path, join(folder@, "envs"@)) && created_by_specific_conda(
                    env,
                    folder@,
                ),
            left == |env: CondaEnvironmentView|
                !(!is_under(env.env_path, join(folder@, "envs"@)) && created_by_specific_conda(
                    env,
                    folder@,
                )),
            envs.deep_view() == base + select(all.take(i as int), taken),
            rest.deep_view() == select(all.take(i as int), left),
        decreases possible.len() - i,
    {
        proof {
            lemma_select_step(all, taken, i as int);
            lemma_select_step(all, left, i as int);
        }
        let env = &possible[i];
        if !is_under_path(env.env_path.as_str(), envs_dir.as_str())
            && was_conda_environment_created_by_specific_conda(env, folder) {
            let ghost before = envs.deep_view();
            envs.push(env.clone());
            assert(envs.deep_view() =~= before.push(all[i as int]));
            assert(envs.deep_view() =~= base + select(all.take(i as int), taken).push(
                all[i as int],
            ));
        } else {
            let ghost before = rest.deep_view();
            rest.push(env.clone());
            assert(rest.deep_view() =~= before.push(all[i as int]));
        }
        i = i + 1;
    }
    assert(all.take(all.len() as int) == all);
    *possible = rest;
}

pub fn get_conda_environments_in_specified_install_path(
    fs: &FileSystem,
    platform: Platform,
    conda_install_folder: &str,
    possible_conda_envs: &mut Vec<CondaEnvironment>,
) -> (r: Option<LocatorResult>)
    ensures
        r.deep_view() == install_path_outcome(
            fs.deep_view(),
            platform,
            conda_install_folder@,
            old(possible_conda_envs).deep_view(),
        ).result,
        final(possible_conda_envs).deep_view() == install_path_outcome(
            fs.deep_view(),
            platform,
            conda_install_folder@,
            old(possible_conda_envs).deep_view(),
        ).possible,
        distinct_paths(old(possible_conda_envs).deep_view()) ==> distinct_paths(
            final(possible_conda_envs).deep_view(),
        ),
{
    proof {
        if distinct_paths(possible_conda_envs.deep_view()) {
            lemma_install_path_outcome_keeps_distinct_paths(
                fs.deep_view(),
                platform,
                conda_install_folder@,
                possible_conda_envs.deep_view(),
            );
        }
    }
    if !fs.is_dir(conda_install_folder) {
        return None;
    }
    let manager = match get_conda_manager(fs, platform, conda_install_folder) {
        Some(manager) => manager,
        None => { return None; },
    };
    let mut environments: Vec<PythonEnvironment> = Vec::new();
    let mut detected_envs: Vec<String> = Vec::new();
    assert(environments.deep_view() =~= Seq::<PythonEnvironmentView>::empty());
    assert(detected_envs.deep_view() =~= Seq::<Seq<char>>::empty());

    // The installation's own environment.
    match get_root_python_environment(fs, platform, conda_install_folder, &manager) {
        Some(env) => {
            remove_path(possible_conda_envs, conda_install_folder);
            detected_envs.push(conda_install_folder.to_owned());
            environments.push(env);
            assert(detected_envs.deep_view() =~= seq![conda_install_folder@]);
            assert(environments.deep_view() =~= seq![env.deep_view()]);
        },
        None => {},
    }

    // The environments in its `envs` directory.
    let mut envs: Vec<CondaEnvironment> =
        match get_environments_from_envs_folder_in_conda_directory(
        fs,
        platform,
        conda_install_folder,
    ) {
        Some(named) => named,
        None => {
            let none: Vec<CondaEnvironment> = Vec::new();
            assert(none.deep_view() =~= Seq::<CondaEnvironmentView>::empty());
            none
        },
    };
    remove_paths(possible_conda_envs, &envs);

    // The environments that it created elsewhere.
    take_created_elsewhere(possible_conda_envs, conda_install_folder, &mut envs);

    gather_environments(&mut environments, &mut detected_envs, &envs, &manager);
    let mut managers: Vec<EnvManager> = Vec::new();
    managers.push(manager);
    assert(managers.deep_view() =~= seq![manager.deep_view()]);
    Some(LocatorResult { managers, environments })
}

/// The environments at `paths`, each path once: of two environments at one
/// path the later one stays, in the later one's place.
pub open spec fn environments_at(disk: Seq<EntryView>, platform: Platform, paths: Seq<Seq<char>>) -> Seq<
    CondaEnvironmentView,
>
    decreases paths.len(),
{
    if paths.len() == 0 {
        seq![]
    } else {
        let sofar = environments_at(disk, platform, paths.drop_last());
        match conda_environment_info(disk, platform, paths.last(), false) {
            Some(env) => without_path(sofar, env.env_path).push(env),
            None => sofar,
        }
    }
}

/// The environments at a list of paths have each directory once.
pub proof fn lemma_environments_at_distinct_paths(
    disk: Seq<EntryView>,
    platform: Platform,
    paths: Seq<Seq<char>>,
)
    ensures
        distinct_paths(environments_at(disk, platform, paths)),
    decreases paths.len(),
{
    if paths.len() > 0 {
        lemma_environments_at_distinct_paths(disk, platform, paths.drop_last());
        let sofar = environments_at(disk, platform, paths.drop_last());
        match conda_environment_info(disk, platform, paths.last(), false) {
            Some(env) => {
                let keep = |other: CondaEnvironmentView| other.env_path != env.env_path;
                lemma_select_keeps_distinct_paths(sofar, keep);
                crate::lists::lemma_select_members(sofar, keep);
                let kept = without_path(sofar, env.env_path);
                let all = kept.push(env);
                assert forall|i: int, j: int| 0 <= i < j < all.len() implies (#[trigger] all[i]).env_path
                    != (#[trigger] all[j]).env_path by {
                    if j < kept.len() {
                        assert(all[i] == kept[i] && all[j] == kept[j]);
                    } else {
                        assert(all[i] == kept[i]);
                        assert(keep(select(sofar, keep)[i]));
                    }
                }
            },
            None => {},
        }
    }
}

/// The paths at which an environment may lie that no installation lists:
/// those of `environments.txt`, then those of the configuration files.
pub open spec fn possible_environment_paths(known: Known, disk: Seq<EntryView>) -> Seq<Seq<char>> {
    conda_envs_from_environment_txt(known, disk) + conda_environment_paths_from_conda_rc(
        known,
        disk,
    )
}

/// The environments that may belong to an installation that does not list them.
pub open spec fn known_conda_envs(known: Known, disk: Seq<EntryView>) -> Seq<CondaEnvironmentView> {
    environments_at(disk, known.platform, possible_environment_paths(known, disk))
}

pub fn get_known_conda_envs_from_various_locations<E: Environment>(
    environment: &E,
    fs: &FileSystem,
) -> (r: Vec<CondaEnvironment>)
    ensures
        r.deep_view() == known_conda_envs(environment.known(), fs.deep_view()),
        distinct_paths(r.deep_view()),
{
    proof {
        lemma_environments_at_distinct_paths(
            fs.deep_view(),
            environment.known().platform,
            possible_environment_paths(environment.known(), fs.deep_view()),
        );
    }
    let platform = environment.get_platform();
    let mut env_paths = get_conda_envs_from_environment_txt(environment, fs);
    let from_rc = get_conda_environment_paths_from_conda_rc(environment, fs);
    append_list(&mut env_paths, &from_rc);
    let ghost disk = fs.deep_view();
    let ghost all = env_paths.deep_view();
    let mut envs: Vec<CondaEnvironment> = Vec::new();
    let mut i: usize = 0;
    assert(envs.deep_view() =~= environments_at(disk, platform, all.take(0)));
    while i < env_paths.len()
        invariant
            i <= env_paths.len(),
            disk == fs.deep_view(),
            all == env_paths.deep_view(),
            envs.deep_view() == environments_at(disk, platform, all.take(i as int)),
        decreases env_paths.len() - i,
    {
        assert(all.take(i + 1).drop_last() == all.take(i as int));
        assert(all.take(i + 1).last() == env_paths[i as int]@);
        match get_conda_environment_info(fs, platform, env_paths[i].as_str(), false) {
            Some(env) => {
                remove_path(&mut envs, env.env_path.as_str());
                let ghost before = envs.deep_view();
                envs.push(env);
                assert(envs.deep_view() =~= before.push(env.deep_view()));
            },
            None => {},
        }
        i = i + 1;
    }
    assert(all.take(all.len() as int) == all);
    envs
}

/// What a walk through installations has found, and the possible
/// environments that remain.
pub struct Found {
    pub managers: Seq<EnvManagerView>,
    pub environments: Seq<PythonEnvironmentView>,
    pub possible: Seq<CondaEnvironmentView>,
}

/// `found`, once the installation at `folder` has been looked at.
pub open spec fn visit_install_path(disk: Seq<EntryView>, platform: Platform, folder: Seq<char>, found: Found) -> Found {
    let outcome = install_path_outcome(disk, platform, folder, found.possible);
    match outcome.result {
        Some(result) => Found {
            managers: found.managers + result.managers,
            environments: found.environments + result.environments,
            possible: outcome.possible,
        },
        None => Found { possible: outcome.possible, ..found },
    }
}

/// `found`, once the installations at `folders` have been looked at, in order.
pub open spec fn visit_install_paths(
    disk: Seq<EntryView>,
    platform: Platform,
    folders: Seq<Seq<char>>,
    found: Found,
) -> Found
    decreases folders.len(),
{
    if folders.len() == 0 {
        found
    } else {
        visit_install_path(
            disk,
            platform,
            folders.last(),
            visit_install_paths(disk, platform, folders.drop_last(), found),
        )
    }
}

/// `found`, once the possible environment `env` has been looked at as an
/// installation. One that is an installation leaves the possible environments.
pub open spec fn visit_listed(disk: Seq<EntryView>, platform: Platform, env: CondaEnvironmentView, found: Found) -> Found {
    if !conda_install_location(disk, env.env_path) {
        found
    } else {
        let outcome = install_path_outcome(disk, platform, env.env_path, found.possible);
        match outcome.result {
            Some(result) => Found {
                managers: found.managers + result.managers,
                environments: found.environments + result.environments,
                possible: without_path(outcome.possible, env.env_path),
            },
            None => Found { possible: outcome.possible, ..found },
        }
    }
}

/// `found`, once the possible environments `listed` have been looked at as
/// installations, in order.
pub open spec fn visit_all_listed(
    disk: Seq<EntryView>,
    platform: Platform,
    listed: Seq<CondaEnvironmentView>,
    found: Found,
) -> Found
    decreases listed.len(),
{
    if listed.len() == 0 {
        found
    } else {
        visit_listed(
            disk,
            platform,
            listed.last(),
            visit_all_listed(disk, platform, listed.drop_last(), found),
        )
    }
}

/// The directories that may hold an installation: the one whose `conda`
/// executable `PATH` leads to, then those in which one is looked for.
pub open spec fn conda_install_roots(known: Known, disk: Seq<EntryView>) -> Seq<Seq<char>> {
    let on_path = match conda_binary_on_path(known, disk) {
        Some(binary) => installation_of_executable(binary),
        None => None,
    };
    match on_path {
        Some(directory) => seq![directory] + known_conda_install_locations(known),
        None => known_conda_install_locations(known),
    }
}

/// What the installations of the machine hold: those in the directories
/// that may hold one, then those among the possible environments.
pub open spec fn found_in_install_locations(
    known: Known,
    disk: Seq<EntryView>,
    possible: Seq<CondaEnvironmentView>,
) -> Found {
    let first = visit_install_paths(
        disk,
        known.platform,
        conda_install_roots(known, disk),
        Found { managers: seq![], environments: seq![], possible },
    );
    visit_all_listed(disk, known.platform, first.possible, first)
}

/// Visiting installations keeps the possible environments free of duplicates.
pub proof fn lemma_visit_install_paths_keeps_distinct_paths(
    disk: Seq<EntryView>,
    platform: Platform,
    folders: Seq<Seq<char>>,
    found: Found,
)
    requires
        distinct_paths(found.possible),
    ensures
        distinct_paths(visit_install_paths(disk, platform, folders, found).possible),
    decreases folders.len(),
{
    if folders.len() > 0 {
        lemma_visit_install_paths_keeps_distinct_paths(disk, platform, folders.drop_last(), found);
        lemma_install_path_outcome_keeps_distinct_paths(
            disk,
            platform,
            folders.last(),
            visit_install_paths(disk, platform, folders.drop_last(), found).possible,
        );
    }
}

/// Visiting listed environments as installations keeps the possible
/// environments free of duplicates.
pub proof fn lemma_visit_all_listed_keeps_distinct_paths(
    disk: Seq<EntryView>,
    platform: Platform,
    listed: Seq<CondaEnvironmentView>,
    found: Found,
)
    requires
        distinct_paths(found.possible),
    ensures
        distinct_paths(visit_all_listed(disk, platform, listed, found).possible),
    decreases listed.len(),
{
    if listed.len() > 0 {
        lemma_visit_all_listed_keeps_distinct_paths(disk, platform, listed.drop_last(), found);
        let sofar = visit_all_listed(disk, platform, listed.drop_last(), found);
        let env = listed.last();
        lemma_install_path_outcome_keeps_distinct_paths(disk, platform, env.env_path, sofar.possible);
        lemma_select_keeps_distinct_paths(
            install_path_outcome(disk, platform, env.env_path, sofar.possible).possible,
            |other: CondaEnvironmentView| other.env_path != env.env_path,
        );
    }
}

/// Looking through all installations keeps the possible environments free
/// of duplicates.
pub proof fn lemma_found_in_install_locations_keeps_distinct_paths(
    known: Known,
    disk: Seq<EntryView>,
    possible: Seq<CondaEnvironmentView>,
)
    requires
        distinct_paths(possible),
    ensures
        distinct_paths(found_in_install_locations(known, disk, possible).possible),
{
    let start = Found { managers: seq![], environments: seq![], possible };
    lemma_visit_install_paths_keeps_distinct_paths(
        disk,
        known.platform,
        conda_install_roots(known, disk),
        start,
    );
    let first = visit_install_paths(disk, known.platform, conda_install_roots(known, disk), start);
    lemma_visit_all_listed_keeps_distinct_paths(disk, known.platform, first.possible, first);
}

/// The directories that may hold an installation.
pub fn get_conda_install_roots<E: Environment>(environment: &E, fs: &FileSystem) -> (r: Vec<String>)
    ensures
        r.deep_view() == conda_install_roots(environment.known(), fs.deep_view()),
{
    let on_path = match find_conda_binary_on_path(environment, fs) {
        Some(binary) => get_installation_of_executable(binary.as_str()),
        None => None,
    };
    let known = get_known_conda_install_locations(environment);
    match on_path {
        Some(directory) => {
            let mut roots: Vec<String> = Vec::new();
            roots.push(directory);
            assert(roots.deep_view() =~= seq![directory@]);
            append_list(&mut roots, &known);
            roots
        },
        None => known,
    }
}

/// Adds the items of `extra` to `list`, in order.
pub fn append_managers(list: &mut Vec<EnvManager>, extra: Vec<EnvManager>)
    ensures
        final(list).deep_view() == old(list).deep_view() + extra.deep_view(),
{
    let ghost base = list.deep_view();
    let mut i: usize = 0;
    assert(list.deep_view() =~= base + extra.deep_view().take(0));
    while i < extra.len()
        invariant
            i <= extra.len(),
            list.deep_view() == base + extra.deep_view().take(i as int),
        decreases extra.len() - i,
    {
        let ghost before = list.deep_view();
        list.push(extra[i].clone());
        assert(list.deep_view() =~= before.push(extra[i as int].deep_view()));
        i = i + 1;
        assert(list.deep_view() =~= base + extra.deep_view().take(i as int));
    }
    assert(extra.deep_view().take(extra.len() as int) == extra.deep_view());
}

/// Adds the items of `extra` to `list`, in order.
pub fn append_environments(list: &mut Vec<PythonEnvironment>, extra: Vec<PythonEnvironment>)
    ensures
        final(list).deep_view() == old(list).deep_view() + extra.deep_view(),
{
    let ghost base = list.deep_view();
    let mut i: usize = 0;
    assert(list.deep_view() =~= base + extra.deep_view().take(0));
    while i < extra.len()
        invariant
            i <= extra.len(),
            list.deep_view() == base + extra.deep_view().take(i as int),
        decreases extra.len() - i,
    {
        let ghost before = list.deep_view();
        list.push(extra[i].clone());
        assert(list.deep_view() =~= before.push(extra[i as int].deep_view()));
        i = i + 1;
        assert(list.deep_view() =~= base + extra.deep_view().take(i as int));
    }
    assert(extra.deep_view().take(extra.len() as int) == extra.deep_view());
}

/// A copy of `list`.
fn clone_conda_environments(list: &Vec<CondaEnvironment>) -> (r: Vec<CondaEnvironment>)
    ensures
        r.deep_view() == list.deep_view(),
{
    let mut out: Vec<CondaEnvironment> = Vec::new();
    let mut i: usize = 0;
    assert(out.deep_view() =~= list.deep_view().take(0));
    while i < list.len()
        invariant
            i <= list.len(),
            out.deep_view() == list.deep_view().take(i as int),
        decreases list.len() - i,
    {
        let ghost before = out.deep_view();
        out.push(list[i].clone());
        assert(out.deep_view() =~= before.push(list[i as int].deep_view()));
        i = i + 1;
        assert(out.deep_view() =~= list.deep_view().take(i as int));
    }
    assert(list.deep_view().take(list.len() as int) =~= list.deep_view());
    out
}

fn find_conda_environments_from_known_conda_install_locations<E: Environment>(
    environment: &E,
    fs: &FileSystem,
    possible_conda_envs: &mut Vec<CondaEnvironment>,
) -> (r: (Vec<EnvManager>, Vec<PythonEnvironment>))
    ensures
        (Found {
            managers: r.0.deep_view(),
            environments: r.1.deep_view(),
            possible: final(possible_conda_envs).deep_view(),
        }) == found_in_install_locations(
            environment.known(),
            fs.deep_view(),
            old(possible_conda_envs).deep_view(),
        ),
        distinct_paths(old(possible_conda_envs).deep_view()) ==> distinct_paths(
            final(possible_conda_envs).deep_view(),
        ),
{
    proof {
        if distinct_paths(possible_conda_envs.deep_view()) {
            lemma_found_in_install_locations_keeps_distinct_paths(
                environment.known(),
                fs.deep_view(),
                possible_conda_envs.deep_view(),
            );
        }
    }
    let platform = environment.get_platform();
    let ghost disk = fs.deep_view();
    let mut managers: Vec<EnvManager> = Vec::new();
    let mut environments: Vec<PythonEnvironment> = Vec::new();
    assert(managers.deep_view() =~= Seq::<EnvManagerView>::empty());
    assert(environments.deep_view() =~= Seq::<PythonEnvironmentView>::empty());
    let ghost start = Found {
        managers: seq![],
        environments: seq![],
        possible: possible_conda_envs.deep_view(),
    };

    let folders = get_conda_install_roots(environment, fs);
    let ghost all = folders.deep_view();
    let mut i: usize = 0;
    while i < folders.len()
        invariant
            i <= folders.len(),
            disk == fs.deep_view(),
            all == folders.deep_view(),
            (Found {
                managers: managers.deep_view(),
                environments: environments.deep_view(),
                possible: possible_conda_envs.deep_view(),
            }) == visit_install_paths(disk, platform, all.take(i as int), start),
        decreases folders.len() - i,
    {
        assert(all.take(i + 1).drop_last() == all.take(i as int));
        assert(all.take(i + 1).last() == folders[i as int]@);
        match get_conda_environments_in_specified_install_path(
            fs,
            platform,
            folders[i].as_str(),
            possible_conda_envs,
        ) {
            Some(result) => {
                append_managers(&mut managers, result.managers);
                append_environments(&mut environments, result.environments);
            },
            None => {},
        }
        i = i + 1;
    }
    assert(all.take(all.len() as int) == all);

    let listed = clone_conda_environments(possible_conda_envs);
    let ghost first = Found {
        managers: managers.deep_view(),
        environments: environments.deep_view(),
        possible: possible_conda_envs.deep_view(),
    };
    let ghost snapshot = listed.deep_view();
    let mut j: usize = 0;
    while j < listed.len()
        invariant
            j <= listed.len(),
            disk == fs.deep_view(),
            snapshot == listed.deep_view(),
            (Found {
                managers: managers.deep_view(),
                environments: environments.deep_view(),
                possible: possible_conda_envs.deep_view(),
            }) == visit_all_listed(disk, platform, snapshot.take(j as int), first),
        decreases listed.len() - j,
    {
        assert(snapshot.take(j + 1).drop_last() == snapshot.take(j as int));
        assert(snapshot.take(j + 1).last() == listed[j as int].deep_view());
        let path = listed[j].env_path.as_str();
        if is_conda_install_location(fs, path) {
            match get_conda_environments_in_specified_install_path(
                fs,
                platform,
                path,
                possible_conda_envs,
            ) {
                Some(result) => {
                    remove_path(possible_conda_envs, path);
                    append_managers(&mut managers, result.managers);
                    append_environments(&mut environments, result.environments);
                },
                None => {},
            }
        }
        j = j + 1;
    }
    assert(snapshot.take(snapshot.len() as int) == snapshot);
    (managers, environments)
}

/// The manager of the first of `environments` that has one.
pub open spec fn first_manager(environments: Seq<PythonEnvironmentView>) -> Option<EnvManagerView> {
    first_some(environments, |env: PythonEnvironmentView| env.env_manager)
}

/// The manager to which environments are tied that no installation claims:
/// that of the first environment found that has one, else the `conda`
/// executable of the machine.
pub open spec fn fallback_manager(
    known: Known,
    disk: Seq<EntryView>,
    known_environment: Seq<PythonEnvironmentView>,
) -> Option<EnvManagerView> {
    match first_manager(known_environment) {
        Some(manager) => Some(manager),
        None => match conda_binary(known, disk) {
            None => None,
            Some(binary) => Some(
                EnvManagerView {
                    executable_path: binary,
                    version: conda_version(disk, binary),
                    tool: EnvManagerType::Conda,
                    company: None,
                    company_display_name: None,
                },
            ),
        },
    }
}

/// The record of an environment that no installation claims, tied to `manager`.
pub open spec fn fallback_environment(env: CondaEnvironmentView, manager: EnvManagerView) -> PythonEnvironmentView {
    new_environment(
        None,
        Some(env.name),
        env.python_executable_path,
        PythonEnvironmentCategory::Conda,
        env.version,
        Some(env.env_path),
        Some(manager),
        activation_command(env, manager),
    )
}

/// The environments that no installation claimed, tied to the manager that is
/// available. There is nothing where none is left or no manager is found.
pub open spec fn undiscovered_result(
    known: Known,
    disk: Seq<EntryView>,
    known_environment: Seq<PythonEnvironmentView>,
    undiscovered: Seq<CondaEnvironmentView>,
) -> Option<LocatorResultView> {
    if undiscovered.len() == 0 {
        None
    } else {
        match fallback_manager(known, disk, known_environment) {
            None => None,
            Some(manager) => Some(
                LocatorResultView {
                    managers: seq![manager],
                    environments: Seq::new(
                        undiscovered.len(),
                        |i: int| fallback_environment(undiscovered[i], manager),
                    ),
                },
            ),
        }
    }
}

/// The manager of the first of `environments` that has one.
pub fn find_first_manager(environments: &Vec<PythonEnvironment>) -> (r: Option<EnvManager>)
    ensures
        r.deep_view() == first_manager(environments.deep_view()),
{
    let ghost all = environments.deep_view();
    let ghost f = |env: PythonEnvironmentView| env.env_manager;
    let mut i: usize = 0;
    assert(all.subrange(0, all.len() as int) == all);
    while i < environments.len()
        invariant
            i <= environments.len(),
            all == environments.deep_view(),
            f == |env: PythonEnvironmentView| env.env_manager,
            first_some(all.subrange(i as int, all.len() as int), f) == first_manager(all),
        decreases environments.len() - i,
    {
        proof {
            lemma_first_some_step(all, f, i as int);
        }
        match &environments[i].env_manager {
            Some(manager) => {
                return Some(manager.clone());
            },
            None => {},
        }
        i = i + 1;
    }
    None
}

fn get_conda_environments_from_known_locations_that_have_not_been_discovered<E: Environment>(
    known_environment: &Vec<PythonEnvironment>,
    environment: &E,
    fs: &FileSystem,
    undiscovered_environments: &Vec<CondaEnvironment>,
) -> (r: Option<LocatorResult>)
    ensures
        r.deep_view() == undiscovered_result(
            environment.known(),
            fs.deep_view(),
            known_environment.deep_view(),
            undiscovered_environments.deep_view(),
        ),
{
    if undiscovered_environments.len() == 0 {
        return None;
    }
    let manager = match find_first_manager(known_environment) {
        Some(manager) => manager,
        None => {
            let conda_binary = match find_conda_binary(environment, fs) {
                Some(binary) => binary,
                None => { return None; },
            };
            let version = get_conda_version(fs, conda_binary.as_str());
            EnvManager::new(conda_binary, version, EnvManagerType::Conda)
        },
    };
    let ghost all = undiscovered_environments.deep_view();
    let mut environments: Vec<PythonEnvironment> = Vec::new();
    let mut i: usize = 0;
    while i < undiscovered_environments.len()
        invariant
            i <= undiscovered_environments.len(),
            all == undiscovered_environments.deep_view(),
            environments.deep_view() == Seq::new(
                i as nat,
                |k: int| fallback_environment(all[k], manager.deep_view()),
            ),
        decreases undiscovered_environments.len() - i,
    {
        let env = &undiscovered_environments[i];
        let ghost before = environments.deep_view();
        let record = PythonEnvironment::new(
            None,
            Some(env.name.clone()),
            clone_option(&env.python_executable_path),
            PythonEnvironmentCategory::Conda,
            clone_option(&env.version),
            Some(env.env_path.clone()),
            Some(manager.clone()),
            get_activation_command(env, &manager),
        );
        environments.push(record);
        assert(environments.deep_view() =~= before.push(record.deep_view()));
        i = i + 1;
        assert(environments.deep_view() =~= Seq::new(
            i as nat,
            |k: int| fallback_environment(all[k], manager.deep_view()),
        ));
    }
    let mut managers: Vec<EnvManager> = Vec::new();
    managers.push(manager);
    assert(managers.deep_view() =~= seq![manager.deep_view()]);
    Some(LocatorResult { managers, environments })
}

/// Managers with the keys under which they were gathered.
pub struct GatheredManagers {
    pub managers: Seq<EnvManagerView>,
    pub keys: Seq<Seq<char>>,
}

/// `gathered`, with each of `envs` behind it whose directory was not
/// gathered before, in order. An environment without a directory is left out.
pub open spec fn unseen_environments(gathered: Gathered, envs: Seq<PythonEnvironmentView>) -> Gathered
    decreases envs.len(),
{
    if envs.len() == 0 {
        gathered
    } else {
        let sofar = unseen_environments(gathered, envs.drop_last());
        match envs.last().env_path {
            None => sofar,
            Some(path) => if sofar.keys.contains(path) {
                sofar
            } else {
                Gathered {
                    environments: sofar.environments.push(envs.last()),
                    keys: sofar.keys.push(path),
                }
            },
        }
    }
}

/// `gathered`, with each of `managers` behind it whose key was not gathered
/// before, in order.
pub open spec fn unseen_managers(gathered: GatheredManagers, managers: Seq<EnvManagerView>) -> GatheredManagers
    decreases managers.len(),
{
    if managers.len() == 0 {
        gathered
    } else {
        let sofar = unseen_managers(gathered, managers.drop_last());
        let key = managers.last().executable_path;
        if sofar.keys.contains(key) {
            sofar
        } else {
            GatheredManagers {
                managers: sofar.managers.push(managers.last()),
                keys: sofar.keys.push(key),
            }
        }
    }
}

/// What the Conda source remembers between calls: the directories of the
/// environments and the keys of the managers that it has handed out.
pub struct Discovered {
    pub environment_paths: Seq<Seq<char>>,
    pub managers: Seq<Seq<char>>,
}

/// What is handed out of `result`, and what is remembered afterwards.
pub struct Filtered {
    pub result: Option<LocatorResultView>,
    pub discovered: Discovered,
}

/// `result` without what was handed out before: the environments whose
/// directory and the managers whose key are not among `discovered`.
pub open spec fn filtered(result: Option<LocatorResultView>, discovered: Discovered) -> Filtered {
    match result {
        None => Filtered { result: None, discovered },
        Some(result) => {
            let envs = unseen_environments(
                Gathered { environments: seq![], keys: discovered.environment_paths },
                result.environments,
            );
            let managers = unseen_managers(
                GatheredManagers { managers: seq![], keys: discovered.managers },
                result.managers,
            );
            Filtered {
                result: some_unless_empty(managers.managers, envs.environments),
                discovered: Discovered { environment_paths: envs.keys, managers: managers.keys },
            }
        },
    }
}

/// What `find_in` hands out for the directory `folder`, and what is remembered afterwards.
pub open spec fn found_in(known: Known, disk: Seq<EntryView>, folder: Seq<char>, discovered: Discovered) -> Filtered {
    if !conda_install_location(disk, folder) {
        Filtered { result: None, discovered }
    } else {
        filtered(
            install_path_outcome(disk, known.platform, folder, known_conda_envs(known, disk)).result,
            discovered,
        )
    }
}

/// The managers and environments of an optional result.
pub open spec fn managers_of(result: Option<LocatorResultView>) -> Seq<EnvManagerView> {
    match result {
        Some(result) => result.managers,
        None => seq![],
    }
}

pub open spec fn environments_of(result: Option<LocatorResultView>) -> Seq<PythonEnvironmentView> {
    match result {
        Some(result) => result.environments,
        None => seq![],
    }
}

/// The keys of `managers`.
pub open spec fn manager_keys(managers: Seq<EnvManagerView>) -> Seq<Seq<char>> {
    Seq::new(managers.len(), |i: int| managers[i].executable_path)
}

/// Everything that Conda holds on the machine, and what is remembered
/// afterwards: first what the installations hold, then the environments
/// that no installation claimed.
pub open spec fn found_everywhere(known: Known, disk: Seq<EntryView>, discovered: Discovered) -> Filtered {
    let installed = found_in_install_locations(known, disk, known_conda_envs(known, disk));
    let first = filtered(some_unless_empty(installed.managers, installed.environments), discovered);
    let second = filtered(
        undiscovered_result(known, disk, environments_of(first.result), installed.possible),
        first.discovered,
    );
    let managers = unseen_managers(
        GatheredManagers {
            managers: managers_of(first.result),
            keys: manager_keys(managers_of(first.result)),
        },
        managers_of(second.result),
    ).managers;
    Filtered {
        result: some_unless_empty(
            managers,
            environments_of(first.result) + environments_of(second.result),
        ),
        discovered: second.discovered,
    }
}

/// `env` is an environment of Conda, run through the manager of tool Conda that it carries.
pub open spec fn run_by_conda(env: PythonEnvironmentView) -> bool {
    env.env_manager matches Some(manager) && manager.tool == EnvManagerType::Conda && run_through(
        env,
        manager,
    )
}

/// All of `environments` are Conda's and all of `managers` are of tool Conda.
pub open spec fn all_of_conda(managers: Seq<EnvManagerView>, environments: Seq<PythonEnvironmentView>) -> bool {
    &&& forall|k: int| 0 <= k < managers.len() ==> (#[trigger] managers[k]).tool == EnvManagerType::Conda
    &&& forall|k: int| 0 <= k < environments.len() ==> run_by_conda(#[trigger] environments[k])
}

/// `result` holds nothing but Conda's.
pub open spec fn of_conda(result: Option<LocatorResultView>) -> bool {
    all_of_conda(managers_of(result), environments_of(result))
}

/// What an installation holds is Conda's.
pub proof fn lemma_install_path_outcome_of_conda(
    disk: Seq<EntryView>,
    platform: Platform,
    folder: Seq<char>,
    possible: Seq<CondaEnvironmentView>,
)
    ensures
        of_conda(install_path_outcome(disk, platform, folder, possible).result),
{
    if install_path_outcome(disk, platform, folder, possible).result is Some {
        lemma_installation_runs_its_environments(disk, platform, folder, possible);
    }
}

/// Leaving out what was gathered before adds nothing of another kind.
pub proof fn lemma_unseen_of_conda(
    environments: Gathered,
    managers: GatheredManagers,
    more_environments: Seq<PythonEnvironmentView>,
    more_managers: Seq<EnvManagerView>,
)
    requires
        all_of_conda(managers.managers, environments.environments),
        all_of_conda(more_managers, more_environments),
    ensures
        all_of_conda(
            unseen_managers(managers, more_managers).managers,
            unseen_environments(environments, more_environments).environments,
        ),
    decreases more_environments.len() + more_managers.len(),
{
    if more_environments.len() > 0 {
        let front = more_environments.drop_last();
        assert forall|k: int| 0 <= k < front.len() implies run_by_conda(#[trigger] front[k]) by {
            assert(front[k] == more_environments[k]);
        }
        lemma_unseen_of_conda(environments, managers, front, more_managers);
        let sofar = unseen_environments(environments, front);
        let after = unseen_environments(environments, more_environments);
        assert(run_by_conda(more_environments[more_environments.len() - 1]));
        assert forall|k: int| 0 <= k < after.environments.len() implies run_by_conda(
            #[trigger] after.environments[k],
        ) by {
            if k < sofar.environments.len() {
                assert(after.environments[k] == sofar.environments[k]);
            }
        }
    } else if more_managers.len() > 0 {
        let front = more_managers.drop_last();
        assert forall|k: int| 0 <= k < front.len() implies (#[trigger] front[k]).tool
            == EnvManagerType::Conda by {
            assert(front[k] == more_managers[k]);
        }
        lemma_unseen_of_conda(environments, managers, more_environments, front);
        let sofar = unseen_managers(managers, front);
        let after = unseen_managers(managers, more_managers);
        assert(more_managers[more_managers.len() - 1].tool == EnvManagerType::Conda);
        assert forall|k: int| 0 <= k < after.managers.len() implies (#[trigger] after.managers[k]).tool
            == EnvManagerType::Conda by {
            if k < sofar.managers.len() {
                assert(after.managers[k] == sofar.managers[k]);
            }
        }
    }
}

/// What is handed out of a result of Conda's is Conda's.
pub proof fn lemma_filtered_of_conda(result: Option<LocatorResultView>, discovered: Discovered)
    requires
        of_conda(result),
    ensures
        of_conda(filtered(result, discovered).result),
{
    match result {
        None => {},
        Some(result) => {
            lemma_unseen_of_conda(
                Gathered { environments: seq![], keys: discovered.environment_paths },
                GatheredManagers { managers: seq![], keys: discovered.managers },
                result.environments,
                result.managers,
            );
        },
    }
}

/// What one directory holds is Conda's.
pub proof fn lemma_found_in_of_conda(
    known: Known,
    disk: Seq<EntryView>,
    folder: Seq<char>,
    discovered: Discovered,
)
    ensures
        of_conda(found_in(known, disk, folder, discovered).result),
{
    let outcome = install_path_outcome(disk, known.platform, folder, known_conda_envs(known, disk));
    lemma_install_path_outcome_of_conda(
        disk,
        known.platform,
        folder,
        known_conda_envs(known, disk),
    );
    lemma_filtered_of_conda(outcome.result, discovered);
}

/// Visiting installations gathers nothing but Conda's.
pub proof fn lemma_visit_install_paths_of_conda(
    disk: Seq<EntryView>,
    platform: Platform,
    folders: Seq<Seq<char>>,
    found: Found,
)
    requires
        all_of_conda(found.managers, found.environments),
    ensures
        all_of_conda(
            visit_install_paths(disk, platform, folders, found).managers,
            visit_install_paths(disk, platform, folders, found).environments,
        ),
    decreases folders.len(),
{
    if folders.len() > 0 {
        let sofar = visit_install_paths(disk, platform, folders.drop_last(), found);
        lemma_visit_install_paths_of_conda(disk, platform, folders.drop_last(), found);
        lemma_install_path_outcome_of_conda(disk, platform, folders.last(), sofar.possible);
    }
}

/// Visiting the possible environments as installations gathers nothing but Conda's.
pub proof fn lemma_visit_all_listed_of_conda(
    disk: Seq<EntryView>,
    platform: Platform,
    listed: Seq<CondaEnvironmentView>,
    found: Found,
)
    requires
        all_of_conda(found.managers, found.environments),
    ensures
        all_of_conda(
            visit_all_listed(disk, platform, listed, found).managers,
            visit_all_listed(disk, platform, listed, found).environments,
        ),
    decreases listed.len(),
{
    if listed.len() > 0 {
        let sofar = visit_all_listed(disk, platform, listed.drop_last(), found);
        lemma_visit_all_listed_of_conda(disk, platform, listed.drop_last(), found);
        lemma_install_path_outcome_of_conda(
            disk,
            platform,
            listed.last().env_path,
            sofar.possible,
        );
    }
}

/// The environments that no installation claimed are tied to a manager of
/// tool Conda and run through it.
pub proof fn lemma_undiscovered_of_conda(
    known: Known,
    disk: Seq<EntryView>,
    known_environment: Seq<PythonEnvironmentView>,
    undiscovered: Seq<CondaEnvironmentView>,
)
    requires
        all_of_conda(seq![], known_environment),
    ensures
        of_conda(undiscovered_result(known, disk, known_environment, undiscovered)),
{
    if first_manager(known_environment) is Some {
        lemma_first_some_member(known_environment, |env: PythonEnvironmentView| env.env_manager);
        let k = choose|k: int|
            0 <= k < known_environment.len() && (#[trigger] known_environment[k]).env_manager
                == first_manager(known_environment);
        assert(run_by_conda(known_environment[k]));
    }
    match undiscovered_result(known, disk, known_environment, undiscovered) {
        None => {},
        Some(result) => {
            let manager = fallback_manager(known, disk, known_environment)->0;
            assert(result.managers[0] == manager);
            assert forall|k: int| 0 <= k < result.environments.len() implies run_by_conda(
                #[trigger] result.environments[k],
            ) by {
                assert(result.environments[k] == fallback_environment(undiscovered[k], manager));
            }
        },
    }
}

/// Everything that the Conda source finds is Conda's: each manager is of
/// tool Conda, and each environment carries such a manager and is run
/// through its executable, by name where it lies in an `envs` directory and
/// by path otherwise.
pub proof fn lemma_found_everywhere_of_conda(known: Known, disk: Seq<EntryView>, discovered: Discovered)
    ensures
        of_conda(found_everywhere(known, disk, discovered).result),
{
    let possible = known_conda_envs(known, disk);
    let start = Found { managers: seq![], environments: seq![], possible };
    let visited = visit_install_paths(disk, known.platform, conda_install_roots(known, disk), start);
    lemma_visit_install_paths_of_conda(
        disk,
        known.platform,
        conda_install_roots(known, disk),
        start,
    );
    lemma_visit_all_listed_of_conda(disk, known.platform, visited.possible, visited);
    let installed = found_in_install_locations(known, disk, possible);
    let first = filtered(some_unless_empty(installed.managers, installed.environments), discovered);
    lemma_filtered_of_conda(some_unless_empty(installed.managers, installed.environments), discovered);
    lemma_undiscovered_of_conda(known, disk, environments_of(first.result), installed.possible);
    let second = filtered(
        undiscovered_result(known, disk, environments_of(first.result), installed.possible),
        first.discovered,
    );
    lemma_filtered_of_conda(
        undiscovered_result(known, disk, environments_of(first.result), installed.possible),
        first.discovered,
    );
    lemma_unseen_of_conda(
        Gathered { environments: seq![], keys: seq![] },
        GatheredManagers {
            managers: managers_of(first.result),
            keys: manager_keys(managers_of(first.result)),
        },
        seq![],
        managers_of(second.result),
    );
}

/// The directory of an environment, the empty text where it has none.
pub open spec fn directory_of(env: PythonEnvironmentView) -> Seq<char> {
    match env.env_path {
        Some(path) => path,
        None => seq![],
    }
}

/// The warning that one environment was found that no installation claims.
pub open spec fn fallback_warning(env: PythonEnvironmentView) -> LogView {
    LogView {
        message: "Found a new conda environment using the fallback mechanism: "@ + directory_of(
            env,
        ),
        level: LogLevel::Warning,
    }
}

/// The warning that environments are listed and no `conda` executable is found.
pub open spec fn no_manager_warning() -> LogView {
    LogView {
        message: "Could not find conda executable to discover environments in environments.txt"@,
        level: LogLevel::Warning,
    }
}

/// The warnings for the environments of `result`, one for each.
pub open spec fn fallback_warnings(result: Option<LocatorResultView>) -> Seq<LogView> {
    Seq::new(
        environments_of(result).len(),
        |i: int| fallback_warning(environments_of(result)[i]),
    )
}

/// The warnings of a look at everything that Conda holds: where listed
/// environments are left that no installation claims, one warning that no
/// manager is found for them, or else one for each of them that is handed out.
pub open spec fn found_warnings(known: Known, disk: Seq<EntryView>, discovered: Discovered) -> Seq<
    LogView,
> {
    let installed = found_in_install_locations(known, disk, known_conda_envs(known, disk));
    let first = filtered(some_unless_empty(installed.managers, installed.environments), discovered);
    let undiscovered = undiscovered_result(
        known,
        disk,
        environments_of(first.result),
        installed.possible,
    );
    if installed.possible.len() > 0 && undiscovered is None {
        seq![no_manager_warning()]
    } else {
        fallback_warnings(filtered(undiscovered, first.discovered).result)
    }
}

/// The Conda source.
pub struct Conda<'a, E: Environment> {
    pub manager: Option<EnvManager>,
    pub environment: &'a E,
    pub fs: &'a FileSystem,
    pub discovered_environment_paths: Vec<String>,
    pub discovered_managers: Vec<String>,
    /// What went wrong without stopping the search.
    pub warnings: Vec<Log>,
}

/// A source that can say what the installation in one directory holds.
pub trait CondaLocator {
    /// The managers and environments of the installation at
    /// `possible_conda_folder` that this source has not handed out before.
    fn find_in(&mut self, possible_conda_folder: &str) -> Option<LocatorResult>;
}

/// Adds to `out` each of `managers` whose key is not among `keys`.
fn keep_unseen_managers(out: &mut Vec<EnvManager>, keys: &mut Vec<String>, managers: &Vec<EnvManager>)
    ensures
        (GatheredManagers { managers: final(out).deep_view(), keys: final(keys).deep_view() })
            == unseen_managers(
            GatheredManagers { managers: old(out).deep_view(), keys: old(keys).deep_view() },
            managers.deep_view(),
        ),
{
    let ghost start = GatheredManagers { managers: out.deep_view(), keys: keys.deep_view() };
    let ghost all = managers.deep_view();
    let mut i: usize = 0;
    while i < managers.len()
        invariant
            i <= managers.len(),
            all == managers.deep_view(),
            (GatheredManagers { managers: out.deep_view(), keys: keys.deep_view() })
                == unseen_managers(start, all.take(i as int)),
        decreases managers.len() - i,
    {
        assert(all.take(i + 1).drop_last() == all.take(i as int));
        assert(all.take(i + 1).last() == managers[i as int].deep_view());
        let key = crate::utils::get_environment_manager_key(&managers[i]);
        if !list_contains(keys, key.as_str()) {
            let ghost keys_before = keys.deep_view();
            let ghost before = out.deep_view();
            keys.push(key);
            out.push(managers[i].clone());
            assert(keys.deep_view() =~= keys_before.push(key@));
            assert(out.deep_view() =~= before.push(all[i as int]));
        }
        i = i + 1;
    }
    assert(all.take(all.len() as int) == all);
}

/// Adds to `out` each of `envs` whose directory is not among `keys`.
fn keep_unseen_environments(
    out: &mut Vec<PythonEnvironment>,
    keys: &mut Vec<String>,
    envs: &Vec<PythonEnvironment>,
)
    ensures
        (Gathered { environments: final(out).deep_view(), keys: final(keys).deep_view() })
            == unseen_environments(
            Gathered { environments: old(out).deep_view(), keys: old(keys).deep_view() },
            envs.deep_view(),
        ),
{
    let ghost start = Gathered { environments: out.deep_view(), keys: keys.deep_view() };
    let ghost all = envs.deep_view();
    let mut i: usize = 0;
    while i < envs.len()
        invariant
            i <= envs.len(),
            all == envs.deep_view(),
            (Gathered { environments: out.deep_view(), keys: keys.deep_view() })
                == unseen_environments(start, all.take(i as int)),
        decreases envs.len() - i,
    {
        assert(all.take(i + 1).drop_last() == all.take(i as int));
        assert(all.take(i + 1).last() == envs[i as int].deep_view());
        match &envs[i].env_path {
            Some(path) => {
                if !list_contains(keys, path.as_str()) {
                    let ghost keys_before = keys.deep_view();
                    let ghost before = out.deep_view();
                    keys.push(path.clone());
                    out.push(envs[i].clone());
                    assert(keys.deep_view() =~= keys_before.push(path@));
                    assert(out.deep_view() =~= before.push(all[i as int]));
                }
            },
            None => {},
        }
        i = i + 1;
    }
    assert(all.take(all.len() as int) == all);
}

/// The keys of `managers`.
fn keys_of_managers(managers: &Vec<EnvManager>) -> (r: Vec<String>)
    ensures
        r.deep_view() == manager_keys(managers.deep_view()),
{
    let mut out: Vec<String> = Vec::new();
    let mut i: usize = 0;
    while i < managers.len()
        invariant
            i <= managers.len(),
            out.deep_view() == manager_keys(managers.deep_view().take(i as int)),
        decreases managers.len() - i,
    {
        let ghost before = out.deep_view();
        let key = crate::utils::get_environment_manager_key(&managers[i]);
        out.push(key);
        assert(out.deep_view() =~= before.push(key@));
        i = i + 1;
        assert(out.deep_view() =~= manager_keys(managers.deep_view().take(i as int)));
    }
    assert(managers.deep_view().take(managers.len() as int) == managers.deep_view());
    out
}

/// Adds the warnings for `environments`, one for each.
fn add_fallback_warnings(warnings: &mut Vec<Log>, environments: &Vec<PythonEnvironment>)
    ensures
        final(warnings).deep_view() == old(warnings).deep_view() + fallback_warnings(
            Some(LocatorResultView { managers: seq![], environments: environments.deep_view() }),
        ),
{
    let ghost base = warnings.deep_view();
    let ghost all = fallback_warnings(
        Some(LocatorResultView { managers: seq![], environments: environments.deep_view() }),
    );
    let mut i: usize = 0;
    assert(warnings.deep_view() =~= base + all.take(0));
    while i < environments.len()
        invariant
            i <= environments.len(),
            all == fallback_warnings(
                Some(
                    LocatorResultView { managers: seq![], environments: environments.deep_view() },
                ),
            ),
            warnings.deep_view() == base + all.take(i as int),
        decreases environments.len() - i,
    {
        let ghost before = warnings.deep_view();
        let directory = match &environments[i].env_path {
            Some(path) => path.clone(),
            None => String::new(),
        };
        let log = Log {
            message: concat_str(
                "Found a new conda environment using the fallback mechanism: ",
                directory.as_str(),
            ),
            level: LogLevel::Warning,
        };
        warnings.push(log);
        assert(warnings.deep_view() =~= before.push(all[i as int]));
        i = i + 1;
        assert(warnings.deep_view() =~= base + all.take(i as int));
    }
    assert(all.take(all.len() as int) == all);
}

impl<'a, E: Environment> Conda<'a, E> {
    /// What this source remembers.
    pub open spec fn discovered(&self) -> Discovered {
        Discovered {
            environment_paths: self.discovered_environment_paths.deep_view(),
            managers: self.discovered_managers.deep_view(),
        }
    }

    pub fn with(environment: &'a E, fs: &'a FileSystem) -> (r: Conda<'a, E>)
        ensures
            r.environment == environment,
            r.fs == fs,
            r.manager is None,
            r.discovered() == (Discovered { environment_paths: seq![], managers: seq![] }),
            r.warnings.deep_view() == Seq::<LogView>::empty(),
    {
        let r = Conda {
            environment,
            fs,
            manager: None,
            discovered_environment_paths: Vec::new(),
            discovered_managers: Vec::new(),
            warnings: Vec::new(),
        };
        assert(r.warnings.deep_view() =~= Seq::<LogView>::empty());
        assert(r.discovered_environment_paths.deep_view() =~= Seq::<Seq<char>>::empty());
        assert(r.discovered_managers.deep_view() =~= Seq::<Seq<char>>::empty());
        r
    }

    /// `result` without what this source handed out before. What is handed
    /// out now is remembered.
    pub fn filter_result(&mut self, result: Option<LocatorResult>) -> (r: Option<LocatorResult>)
        ensures
            r.deep_view() == filtered(result.deep_view(), old(self).discovered()).result,
            final(self).discovered() == filtered(
                result.deep_view(),
                old(self).discovered(),
            ).discovered,
            final(self).environment == old(self).environment,
            final(self).fs == old(self).fs,
            final(self).manager == old(self).manager,
            final(self).warnings == old(self).warnings,
    {
        let result = match result {
            Some(result) => result,
            None => { return None; },
        };
        let mut envs: Vec<PythonEnvironment> = Vec::new();
        let mut managers: Vec<EnvManager> = Vec::new();
        assert(envs.deep_view() =~= Seq::<PythonEnvironmentView>::empty());
        assert(managers.deep_view() =~= Seq::<EnvManagerView>::empty());
        keep_unseen_environments(
            &mut envs,
            &mut self.discovered_environment_paths,
            &result.environments,
        );
        keep_unseen_managers(&mut managers, &mut self.discovered_managers, &result.managers);
        if envs.len() > 0 || managers.len() > 0 {
            Some(LocatorResult { managers, environments: envs })
        } else {
            None
        }
    }
}

impl<'a, E: Environment> CondaLocator for Conda<'a, E> {
    fn find_in(&mut self, possible_conda_folder: &str) -> (r: Option<LocatorResult>)
        ensures
            r.deep_view() == found_in(
                old(self).environment.known(),
                old(self).fs.deep_view(),
                possible_conda_folder@,
                old(self).discovered(),
            ).result,
            final(self).discovered() == found_in(
                old(self).environment.known(),
                old(self).fs.deep_view(),
                possible_conda_folder@,
                old(self).discovered(),
            ).discovered,
            final(self).environment == old(self).environment,
            final(self).fs == old(self).fs,
            final(self).manager == old(self).manager,
            final(self).warnings == old(self).warnings,
    {
        if !is_conda_install_location(self.fs, possible_conda_folder) {
            return None;
        }
        let mut possible_conda_envs = get_known_conda_envs_from_various_locations(
            self.environment,
            self.fs,
        );
        let result = get_conda_environments_in_specified_install_path(
            self.fs,
            self.environment.get_platform(),
            possible_conda_folder,
            &mut possible_conda_envs,
        );
        self.filter_result(result)
    }
}

/// The installation that keeps the environment at `path` in its `envs` directory.
pub open spec fn keeping_installation(path: Seq<char>) -> Option<Seq<char>> {
    match parent(path) {
        None => None,
        Some(envs) => if file_name(envs) == Some("envs"@) {
            parent(envs)
        } else {
            None
        },
    }
}

/// The record of the environment at `path` as one of the installation that
/// keeps it or, for an environment that lies elsewhere, of the one that
/// created it. There is none where that installation holds no manager.
pub open spec fn environment_of_installation(
    disk: Seq<EntryView>,
    platform: Platform,
    path: Seq<char>,
) -> Option<PythonEnvironmentView> {
    let named = keeping_installation(path) is Some;
    let installation = match keeping_installation(path) {
        Some(folder) => Some(folder),
        None => installation_used_to_create(disk, platform, path),
    };
    match installation {
        None => None,
        Some(folder) => match conda_manager(disk, platform, folder) {
            None => None,
            Some(manager) => match conda_environment_info(disk, platform, path, named) {
                None => None,
                Some(env) => Some(python_environment_of(env, manager)),
            },
        },
    }
}

/// The environment that the candidate `env` is, where its directory is an
/// environment of Conda: the installation itself where the directory is one,
/// else an environment of the installation that keeps or created it.
pub open spec fn resolved(disk: Seq<EntryView>, platform: Platform, env: PythonEnvView) -> Option<
    PythonEnvironmentView,
> {
    match env.path {
        None => None,
        Some(path) => if !conda_env_location(disk, path) {
            None
        } else {
            match conda_manager(disk, platform, path) {
                Some(manager) => root_python_environment(disk, platform, path, manager),
                None => environment_of_installation(disk, platform, path),
            }
        },
    }
}

/// The installation that keeps the environment at `path` in its `envs` directory.
pub fn get_keeping_installation(path: &str) -> (r: Option<String>)
    ensures
        r.deep_view() == keeping_installation(path@),
{
    match parent_of(path) {
        Some(envs) => if is_named(envs.as_str(), "envs") {
            parent_of(envs.as_str())
        } else {
            None
        },
        None => None,
    }
}

/// The record of the environment at `path` as one of the installation that
/// keeps or created it.
pub fn get_environment_of_installation(fs: &FileSystem, platform: Platform, path: &str) -> (r:
    Option<PythonEnvironment>)
    ensures
        r.deep_view() == environment_of_installation(fs.deep_view(), platform, path@),
{
    let keeping = get_keeping_installation(path);
    let named = keeping.is_some();
    let installation = match keeping {
        Some(folder) => Some(folder),
        None => get_conda_installation_used_to_create_conda_env(fs, platform, path),
    };
    let folder = match installation {
        Some(folder) => folder,
        None => { return None; },
    };
    let manager = match get_conda_manager(fs, platform, folder.as_str()) {
        Some(manager) => manager,
        None => { return None; },
    };
    match get_conda_environment_info(fs, platform, path, named) {
        Some(env) => Some(get_python_environment_of(&env, &manager)),
        None => None,
    }
}

impl<'a, E: Environment> Locator for Conda<'a, E> {
    fn resolve(&self, env: &PythonEnv) -> (r: Option<PythonEnvironment>)
        ensures
            r.deep_view() == resolved(
                self.fs.deep_view(),
                self.environment.known().platform,
                env.deep_view(),
            ),
    {
        let path = match &env.path {
            Some(path) => path.as_str(),
            None => { return None; },
        };
        if !is_conda_env_location(self.fs, path) {
            return None;
        }
        let platform = self.environment.get_platform();
        match get_conda_manager(self.fs, platform, path) {
            Some(manager) => get_root_python_environment(self.fs, platform, path, &manager),
            None => get_environment_of_installation(self.fs, platform, path),
        }
    }

    fn find(&mut self) -> (r: Option<LocatorResult>)
        ensures
            r.deep_view() == found_everywhere(
                old(self).environment.known(),
                old(self).fs.deep_view(),
                old(self).discovered(),
            ).result,
            final(self).discovered() == found_everywhere(
                old(self).environment.known(),
                old(self).fs.deep_view(),
                old(self).discovered(),
            ).discovered,
            final(self).warnings.deep_view() == old(self).warnings.deep_view() + found_warnings(
                old(self).environment.known(),
                old(self).fs.deep_view(),
                old(self).discovered(),
            ),
            final(self).environment == old(self).environment,
            final(self).fs == old(self).fs,
            final(self).manager == old(self).manager,
    {
        let mut possible_conda_envs = get_known_conda_envs_from_various_locations(
            self.environment,
            self.fs,
        );
        let (found_managers, found_environments) =
            find_conda_environments_from_known_conda_install_locations(
            self.environment,
            self.fs,
            &mut possible_conda_envs,
        );
        let installed = if found_managers.len() == 0 && found_environments.len() == 0 {
            None
        } else {
            Some(LocatorResult { managers: found_managers, environments: found_environments })
        };
        let (mut managers, mut environments) = match self.filter_result(installed) {
            Some(result) => (result.managers, result.environments),
            None => {
                let no_managers: Vec<EnvManager> = Vec::new();
                let no_environments: Vec<PythonEnvironment> = Vec::new();
                assert(no_managers.deep_view() =~= Seq::<EnvManagerView>::empty());
                assert(no_environments.deep_view() =~= Seq::<PythonEnvironmentView>::empty());
                (no_managers, no_environments)
            },
        };
        let mut detected_managers = keys_of_managers(&managers);

        let undiscovered =
            get_conda_environments_from_known_locations_that_have_not_been_discovered(
            &environments,
            self.environment,
            self.fs,
            &possible_conda_envs,
        );
        let without_manager = possible_conda_envs.len() > 0 && undiscovered.is_none();
        let ghost warned = self.warnings.deep_view();
        match self.filter_result(undiscovered) {
            Some(result) => {
                keep_unseen_managers(&mut managers, &mut detected_managers, &result.managers);
                add_fallback_warnings(&mut self.warnings, &result.environments);
                append_environments(&mut environments, result.environments);
            },
            None => {
                assert(environments.deep_view() + Seq::<PythonEnvironmentView>::empty()
                    =~= environments.deep_view());
                if without_manager {
                    let log = Log {
                        message: "Could not find conda executable to discover environments in environments.txt".to_owned(),
                        level: LogLevel::Warning,
                    };
                    self.warnings.push(log);
                    assert(self.warnings.deep_view() =~= warned + seq![no_manager_warning()]);
                } else {
                    assert(self.warnings.deep_view() + Seq::<LogView>::empty()
                        =~= self.warnings.deep_view());
                    assert(fallback_warnings(None) =~= Seq::<LogView>::empty());
                }
            },
        }
        if managers.len() == 0 && environments.len() == 0 {
            None
        } else {
            Some(LocatorResult { managers, environments })
        }
    }
}

} // verus!

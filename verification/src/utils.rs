//! Candidates, identity keys and the file-level checks that the sources share.

use crate::filesystem::{
    exists_at, is_dir_at, is_file_at, link_target_at, listing, text_at, EntryView, FileSystem,
};
use crate::known::Platform;
use crate::lists::{
    collect, first_some, lemma_collect_step, lemma_first_some_at, lemma_first_some_of_none,
    lemma_first_some_step, lemma_select_step, select,
};
use crate::messaging::{EnvManager, EnvManagerView, PythonEnvironment, PythonEnvironmentView};
use crate::paths::{file_name, file_name_of, join, join_path, parent, parent_of};
use crate::pattern::{first_group, first_of, is_match, regex_capture, regex_matches};
use crate::text::{
    clone_option, contains, contains_str, ends_with, ends_with_str, lines, lines_of, lowercase,
    lowercase_str, starts_with, starts_with_str,
};
use vstd::prelude::*;
use vstd::utf8::encode_utf8;

verus! {

/// An executable under consideration: its path, the directory that owns it
/// where that is known, and its version where that is known beforehand.
#[derive(Debug, PartialEq, Eq)]
pub struct PythonEnv {
    pub executable: String,
    pub path: Option<String>,
    pub version: Option<String>,
}

pub struct PythonEnvView {
    pub executable: Seq<char>,
    pub path: Option<Seq<char>>,
    pub version: Option<Seq<char>>,
}

impl DeepView for PythonEnv {
    type V = PythonEnvView;

    open spec fn deep_view(&self) -> PythonEnvView {
        PythonEnvView {
            executable: self.executable@,
            path: self.path.deep_view(),
            version: self.version.deep_view(),
        }
    }
}

impl PythonEnv {
    pub fn new(executable: String, path: Option<String>, version: Option<String>) -> (r: Self)
        ensures
            r.deep_view() == (PythonEnvView {
                executable: executable@,
                path: path.deep_view(),
                version: version.deep_view(),
            }),
    {
        Self { executable, path, version }
    }
}

/// What a `pyvenv.cfg` file says.
#[derive(Debug, PartialEq, Eq)]
pub struct PyEnvCfg {
    pub version: String,
}

/// The pattern of a `version` line of `pyvenv.cfg`.
pub open spec fn version_line_pattern() -> Seq<char> {
    "^version\\s*=\\s*(\\d+\\.\\d+\\.\\d+)$"@
}

/// The pattern of a `version_info` line of `pyvenv.cfg`.
pub open spec fn version_info_line_pattern() -> Seq<char> {
    "^version_info\\s*=\\s*(\\d+\\.\\d+\\.\\d+.*)$"@
}

/// The `pyvenv.cfg` that belongs to `python_executable`: the one beside the
/// directory that holds the executable, else the one a level further up.
pub open spec fn pyvenv_config_path(disk: Seq<EntryView>, python_executable: Seq<char>) -> Option<
    Seq<char>,
> {
    match parent(python_executable) {
        None => None,
        Some(dir) => if exists_at(disk, join(dir, "pyvenv.cfg"@)) {
            Some(join(dir, "pyvenv.cfg"@))
        } else {
            match parent(dir) {
                None => None,
                Some(up) => if exists_at(disk, join(up, "pyvenv.cfg"@)) {
                    Some(join(up, "pyvenv.cfg"@))
                } else {
                    None
                },
            }
        },
    }
}

/// The version that one line of `pyvenv.cfg` gives, given what the two
/// patterns captured in it.
pub open spec fn cfg_line_version_from(
    line: Seq<char>,
    version: Option<Seq<char>>,
    version_info: Option<Seq<char>>,
) -> Option<Seq<char>> {
    if !contains(line, "version"@) {
        None
    } else {
        first_of(version, version_info)
    }
}

/// The version that one line of `pyvenv.cfg` gives.
pub open spec fn cfg_line_version(line: Seq<char>) -> Option<Seq<char>> {
    cfg_line_version_from(
        line,
        regex_capture(version_line_pattern(), line, 1),
        regex_capture(version_info_line_pattern(), line, 1),
    )
}

/// The version that the text of a `pyvenv.cfg` gives: that of its first line that gives one.
pub open spec fn cfg_version(text: Seq<char>) -> Option<Seq<char>> {
    first_some(lines(text), |line: Seq<char>| cfg_line_version(line))
}

/// The version in the `pyvenv.cfg` that belongs to `python_executable`.
pub open spec fn pyvenv_cfg_version(disk: Seq<EntryView>, python_executable: Seq<char>) -> Option<
    Seq<char>,
> {
    match pyvenv_config_path(disk, python_executable) {
        None => None,
        Some(cfg) => match text_at(disk, cfg) {
            None => None,
            Some(text) => cfg_version(text),
        },
    }
}

/// The version in the `pyvenv.cfg` found from the directory that holds `python_executable`.
pub open spec fn version_using_pyvenv_cfg(disk: Seq<EntryView>, python_executable: Seq<char>) -> Option<
    Seq<char>,
> {
    match parent(python_executable) {
        None => None,
        Some(dir) => pyvenv_cfg_version(disk, dir),
    }
}

/// The first line that gives a version decides: where line `k` of a
/// `pyvenv.cfg` gives `version` and no line before it gives one, the file
/// gives `version`, whatever stands in the lines behind it.
pub proof fn lemma_first_version_line_decides(text: Seq<char>, k: int, version: Seq<char>)
    requires
        0 <= k < lines(text).len(),
        forall|j: int| 0 <= j < k ==> cfg_line_version(#[trigger] lines(text)[j]) is None,
        cfg_line_version(lines(text)[k]) == Some(version),
    ensures
        cfg_version(text) == Some(version),
{
    lemma_first_some_at(lines(text), |line: Seq<char>| cfg_line_version(line), k);
}

/// A `pyvenv.cfg` none of whose lines gives a version gives none.
pub proof fn lemma_no_version_line(text: Seq<char>)
    requires
        forall|j: int| 0 <= j < lines(text).len() ==> cfg_line_version(#[trigger] lines(text)[j]) is None,
    ensures
        cfg_version(text) is None,
{
    lemma_first_some_of_none(lines(text), |line: Seq<char>| cfg_line_version(line));
}

/// The version of an executable comes from the file alone: where the
/// directory of the executable holds a `pyvenv.cfg` with the text `text`, the
/// version is what `text` gives.
pub proof fn lemma_version_of_config_beside(
    disk: Seq<EntryView>,
    python_executable: Seq<char>,
    dir: Seq<char>,
    text: Seq<char>,
)
    requires
        parent(python_executable) == Some(dir),
        text_at(disk, join(dir, "pyvenv.cfg"@)) == Some(text),
    ensures
        pyvenv_config_path(disk, python_executable) == Some(join(dir, "pyvenv.cfg"@)),
        pyvenv_cfg_version(disk, python_executable) == cfg_version(text),
{
}

/// Where the directory of the executable holds no `pyvenv.cfg` and the
/// directory above it holds one with the text `text`, the version is what
/// `text` gives.
pub proof fn lemma_version_of_config_above(
    disk: Seq<EntryView>,
    python_executable: Seq<char>,
    dir: Seq<char>,
    up: Seq<char>,
    text: Seq<char>,
)
    requires
        parent(python_executable) == Some(dir),
        parent(dir) == Some(up),
        !exists_at(disk, join(dir, "pyvenv.cfg"@)),
        text_at(disk, join(up, "pyvenv.cfg"@)) == Some(text),
    ensures
        pyvenv_config_path(disk, python_executable) == Some(join(up, "pyvenv.cfg"@)),
        pyvenv_cfg_version(disk, python_executable) == cfg_version(text),
{
}

/// Without a `pyvenv.cfg` beside the executable or a level above it, the
/// file gives no version.
pub proof fn lemma_no_config_no_version(disk: Seq<EntryView>, python_executable: Seq<char>)
    requires
        pyvenv_config_path(disk, python_executable) is None,
    ensures
        pyvenv_cfg_version(disk, python_executable) is None,
{
}

/// The version of the environment that holds `python_executable` in its
/// directory of binaries `bin`: where the environment `env` holds a
/// `pyvenv.cfg` with the text `text`, the version is what `text` gives.
pub proof fn lemma_version_of_environment(
    disk: Seq<EntryView>,
    python_executable: Seq<char>,
    bin: Seq<char>,
    env: Seq<char>,
    text: Seq<char>,
)
    requires
        parent(python_executable) == Some(bin),
        parent(bin) == Some(env),
        text_at(disk, join(env, "pyvenv.cfg"@)) == Some(text),
    ensures
        version_using_pyvenv_cfg(disk, python_executable) == cfg_version(text),
{
}

pub fn find_pyvenv_config_path(fs: &FileSystem, python_executable: &str) -> (r: Option<String>)
    ensures
        r.deep_view() == pyvenv_config_path(fs.deep_view(), python_executable@),
{
    let dir = match parent_of(python_executable) {
        Some(dir) => dir,
        None => { return None; },
    };
    let cfg = join_path(dir.as_str(), "pyvenv.cfg");
    if fs.is_present(cfg.as_str()) {
        return Some(cfg);
    }
    let up = match parent_of(dir.as_str()) {
        Some(up) => up,
        None => { return None; },
    };
    let cfg = join_path(up.as_str(), "pyvenv.cfg");
    if fs.is_present(cfg.as_str()) {
        return Some(cfg);
    }
    None
}

/// The version that one line of `pyvenv.cfg` gives, given what the two
/// patterns captured in it.
pub fn version_of_cfg_line(line: &str, version: Option<String>, version_info: Option<String>) -> (r:
    Option<String>)
    ensures
        r.deep_view() == cfg_line_version_from(
            line@,
            version.deep_view(),
            version_info.deep_view(),
        ),
{
    if !contains_str(line, "version") {
        return None;
    }
    match version {
        Some(v) => Some(v),
        None => version_info,
    }
}

/// The version that the text of a `pyvenv.cfg` gives.
pub fn parse_pyvenv_cfg(text: &str) -> (r: Option<PyEnvCfg>)
    ensures
        match r {
            Some(cfg) => cfg_version(text@) == Some(cfg.version@),
            None => cfg_version(text@) is None,
        },
{
    let all = lines_of(text);
    let ghost f = |line: Seq<char>| cfg_line_version(line);
    let mut i: usize = 0;
    assert(all.deep_view().subrange(0, all.len() as int) == all.deep_view());
    while i < all.len()
        invariant
            i <= all.len(),
            all.deep_view() == lines(text@),
            f == |line: Seq<char>| cfg_line_version(line),
            first_some(all.deep_view().subrange(i as int, all.len() as int), f) == cfg_version(
                text@,
            ),
        decreases all.len() - i,
    {
        proof {
            lemma_first_some_step(all.deep_view(), f, i as int);
        }
        let line = all[i].as_str();
        let version = first_group("^version\\s*=\\s*(\\d+\\.\\d+\\.\\d+)$", line);
        let version_info = first_group("^version_info\\s*=\\s*(\\d+\\.\\d+\\.\\d+.*)$", line);
        match version_of_cfg_line(line, version, version_info) {
            Some(version) => {
                return Some(PyEnvCfg { version });
            },
            None => {},
        }
        i = i + 1;
    }
    None
}

pub fn find_and_parse_pyvenv_cfg(fs: &FileSystem, python_executable: &str) -> (r: Option<PyEnvCfg>)
    ensures
        match r {
            Some(cfg) => pyvenv_cfg_version(fs.deep_view(), python_executable@) == Some(
                cfg.version@,
            ),
            None => pyvenv_cfg_version(fs.deep_view(), python_executable@) is None,
        },
{
    let cfg = match find_pyvenv_config_path(fs, python_executable) {
        Some(cfg) => cfg,
        None => { return None; },
    };
    let contents = match fs.read_to_string(cfg.as_str()) {
        Some(contents) => contents,
        None => { return None; },
    };
    parse_pyvenv_cfg(contents.as_str())
}

pub fn get_version_using_pyvenv_cfg(fs: &FileSystem, python_executable: &str) -> (r: Option<String>)
    ensures
        r.deep_view() == version_using_pyvenv_cfg(fs.deep_view(), python_executable@),
{
    match parent_of(python_executable) {
        Some(dir) => match find_and_parse_pyvenv_cfg(fs, dir.as_str()) {
            Some(cfg) => Some(cfg.version),
            None => None,
        },
        None => None,
    }
}

/// Where the interpreter of an environment at `env_path` may stand, in the
/// order in which the places are tried.
pub open spec fn python_binary_candidates(platform: Platform, env_path: Seq<char>) -> Seq<Seq<char>> {
    match platform {
        Platform::Windows => seq![
            join(join(env_path, "Scripts"@), "python.exe"@),
            join(join(env_path, "Scripts"@), "python3.exe"@),
            join(env_path, "python.exe"@),
            join(env_path, "python3.exe"@),
        ],
        Platform::Unix => seq![
            join(join(env_path, "bin"@), "python"@),
            join(join(env_path, "bin"@), "python3"@),
            join(env_path, "python"@),
            join(env_path, "python3"@),
        ],
    }
}

/// The first of `paths` at which something is.
pub open spec fn first_existing(disk: Seq<EntryView>, paths: Seq<Seq<char>>) -> Option<Seq<char>> {
    first_some(
        paths,
        |p: Seq<char>|
            if exists_at(disk, p) {
                Some(p)
            } else {
                None
            },
    )
}

/// The interpreter of the environment at `env_path`.
pub open spec fn python_binary_path(disk: Seq<EntryView>, platform: Platform, env_path: Seq<char>) -> Option<
    Seq<char>,
> {
    first_existing(disk, python_binary_candidates(platform, env_path))
}

/// Where the interpreter of an environment at `env_path` may stand.
pub fn get_python_binary_candidates(platform: Platform, env_path: &str) -> (r: Vec<String>)
    ensures
        r.deep_view() == python_binary_candidates(platform, env_path@),
{
    let mut out: Vec<String> = Vec::new();
    match platform {
        Platform::Windows => {
            let scripts = join_path(env_path, "Scripts");
            out.push(join_path(scripts.as_str(), "python.exe"));
            out.push(join_path(scripts.as_str(), "python3.exe"));
            out.push(join_path(env_path, "python.exe"));
            out.push(join_path(env_path, "python3.exe"));
        },
        Platform::Unix => {
            let bin = join_path(env_path, "bin");
            out.push(join_path(bin.as_str(), "python"));
            out.push(join_path(bin.as_str(), "python3"));
            out.push(join_path(env_path, "python"));
            out.push(join_path(env_path, "python3"));
        },
    }
    assert(out.deep_view() =~= python_binary_candidates(platform, env_path@));
    out
}

/// The first of `paths` at which something is.
pub fn find_first_existing(fs: &FileSystem, paths: &Vec<String>) -> (r: Option<String>)
    ensures
        r.deep_view() == first_existing(fs.deep_view(), paths.deep_view()),
{
    let ghost disk = fs.deep_view();
    let ghost f = |p: Seq<char>|
        if exists_at(disk, p) {
            Some(p)
        } else {
            None
        };
    let mut i: usize = 0;
    assert(paths.deep_view().subrange(0, paths.len() as int) == paths.deep_view());
    while i < paths.len()
        invariant
            i <= paths.len(),
            disk == fs.deep_view(),
            f == |p: Seq<char>|
                if exists_at(disk, p) {
                    Some(p)
                } else {
                    None
                },
            first_some(paths.deep_view().subrange(i as int, paths.len() as int), f)
                == first_existing(disk, paths.deep_view()),
        decreases paths.len() - i,
    {
        proof {
            lemma_first_some_step(paths.deep_view(), f, i as int);
        }
        if fs.is_present(paths[i].as_str()) {
            return Some(paths[i].clone());
        }
        i = i + 1;
    }
    None
}

pub fn find_python_binary_path(fs: &FileSystem, platform: Platform, env_path: &str) -> (r: Option<
    String,
>)
    ensures
        r.deep_view() == python_binary_path(fs.deep_view(), platform, env_path@),
{
    let candidates = get_python_binary_candidates(platform, env_path);
    find_first_existing(fs, &candidates)
}

/// The pattern that the lower-case name of an interpreter matches.
pub open spec fn python_exe_pattern(platform: Platform) -> Seq<char> {
    match platform {
        Platform::Windows => "python(\\d+\\.?)*.exe"@,
        Platform::Unix => "python(\\d+\\.?)*$"@,
    }
}

/// `exe` is named like an interpreter: `python`, with or without a version.
pub open spec fn python_exe_name(platform: Platform, exe: Seq<char>) -> bool {
    let name = lowercase(
        match file_name(exe) {
            Some(name) => name,
            None => seq![],
        },
    );
    starts_with(name, "python"@) && regex_matches(python_exe_pattern(platform), name)
}

pub fn is_python_exe_name(platform: Platform, exe: &str) -> (r: bool)
    ensures
        r == python_exe_name(platform, exe@),
{
    let name = match file_name_of(exe) {
        Some(name) => name,
        None => String::new(),
    };
    let name = lowercase_str(name.as_str());
    if !starts_with_str(name.as_str(), "python") {
        return false;
    }
    match platform {
        Platform::Windows => is_match("python(\\d+\\.?)*.exe", name.as_str()),
        Platform::Unix => is_match("python(\\d+\\.?)*$", name.as_str()),
    }
}

/// The directory of an environment at `env_path` that holds its executables.
pub open spec fn binaries_directory(disk: Seq<EntryView>, platform: Platform, env_path: Seq<char>) -> Seq<
    char,
> {
    let bin = join(
        env_path,
        match platform {
            Platform::Windows => "Scripts"@,
            Platform::Unix => "bin"@,
        },
    );
    if exists_at(disk, bin) {
        bin
    } else {
        env_path
    }
}

/// The interpreters in the environment at `env_path`: the files of its
/// directory of executables that are named like one.
pub open spec fn all_python_binaries(disk: Seq<EntryView>, platform: Platform, env_path: Seq<char>) -> Seq<
    Seq<char>,
> {
    match listing(disk, binaries_directory(disk, platform, env_path)) {
        None => seq![],
        Some(files) => select(
            files,
            |file: Seq<char>| python_exe_name(platform, file) && is_file_at(disk, file),
        ),
    }
}

pub fn find_all_python_binaries_in_path(fs: &FileSystem, platform: Platform, env_path: &str) -> (r:
    Vec<String>)
    ensures
        r.deep_view() == all_python_binaries(fs.deep_view(), platform, env_path@),
{
    let bin = match platform {
        Platform::Windows => join_path(env_path, "Scripts"),
        Platform::Unix => join_path(env_path, "bin"),
    };
    let dir = if fs.is_present(bin.as_str()) {
        bin
    } else {
        env_path.to_owned()
    };
    let mut out: Vec<String> = Vec::new();
    let files = match fs.read_dir(dir.as_str()) {
        Some(files) => files,
        None => {
            assert(out.deep_view() =~= Seq::<Seq<char>>::empty());
            return out;
        },
    };
    let ghost disk = fs.deep_view();
    let ghost keep = |file: Seq<char>| python_exe_name(platform, file) && is_file_at(disk, file);
    let mut i: usize = 0;
    assert(out.deep_view() =~= select(files.deep_view().take(0), keep));
    while i < files.len()
        invariant
            i <= files.len(),
            disk == fs.deep_view(),
            keep == |file: Seq<char>| python_exe_name(platform, file) && is_file_at(disk, file),
            out.deep_view() == select(files.deep_view().take(i as int), keep),
        decreases files.len() - i,
    {
        let ghost before = out.deep_view();
        proof {
            lemma_select_step(files.deep_view(), keep, i as int);
        }
        if is_python_exe_name(platform, files[i].as_str()) && fs.is_file(files[i].as_str()) {
            out.push(files[i].clone());
            assert(out.deep_view() =~= before.push(files[i as int]@));
        }
        i = i + 1;
    }
    assert(files.deep_view().take(files.len() as int) == files.deep_view());
    out
}

/// The identity key of an environment: its executable's path, else the path
/// of the directory that owns it.
pub open spec fn environment_key(env: PythonEnvironmentView) -> Option<Seq<char>> {
    match env.python_executable_path {
        Some(path) => Some(path),
        None => env.env_path,
    }
}

/// The identity key of a manager: its executable's path.
pub open spec fn environment_manager_key(manager: EnvManagerView) -> Seq<char> {
    manager.executable_path
}

pub fn get_environment_key(env: &PythonEnvironment) -> (r: Option<String>)
    ensures
        r.deep_view() == environment_key(env.deep_view()),
{
    match &env.python_executable_path {
        Some(path) => Some(path.clone()),
        None => clone_option(&env.env_path),
    }
}

pub fn get_environment_manager_key(env: &EnvManager) -> (r: String)
    ensures
        r@ == environment_manager_key(env.deep_view()),
{
    env.executable_path.clone()
}

/// `path` is named like an interpreter and not like one of its helper tools.
pub open spec fn symlink_candidate_name(path: Seq<char>) -> bool {
    match file_name(path) {
        None => false,
        Some(name) => starts_with(name, "python"@) && !ends_with(name, "-config"@) && !ends_with(
            name,
            "-build"@,
        ),
    }
}

/// The real path of `path`, where `path` is a symbolic link named like an interpreter.
pub open spec fn symlinked_python_executable(disk: Seq<EntryView>, path: Seq<char>) -> Option<
    Seq<char>,
> {
    if symlink_candidate_name(path) {
        link_target_at(disk, path)
    } else {
        None
    }
}

pub fn is_symlinked_python_executable(fs: &FileSystem, path: &str) -> (r: Option<String>)
    ensures
        r.deep_view() == symlinked_python_executable(fs.deep_view(), path@),
{
    let name = match file_name_of(path) {
        Some(name) => name,
        None => { return None; },
    };
    if !starts_with_str(name.as_str(), "python") || ends_with_str(name.as_str(), "-config")
        || ends_with_str(name.as_str(), "-build") {
        return None;
    }
    fs.read_link(path)
}

/// The pattern of the line of `patchlevel.h` that defines the version.
pub open spec fn header_version_pattern() -> Seq<char> {
    "#define\\s+PY_VERSION\\s+\"((\\d+\\.?)*)"@
}

/// The version that the header files under `path` define.
pub open spec fn version_from_header_files(disk: Seq<EntryView>, path: Seq<char>) -> Option<
    Seq<char>,
> {
    match text_at(disk, join(join(path, "Headers"@), "patchlevel.h"@)) {
        None => None,
        Some(text) => first_some(
            lines(text),
            |line: Seq<char>| regex_capture(header_version_pattern(), line, 1),
        ),
    }
}

pub fn get_version_from_header_files(fs: &FileSystem, path: &str) -> (r: Option<String>)
    ensures
        r.deep_view() == version_from_header_files(fs.deep_view(), path@),
{
    let headers = join_path(path, "Headers");
    let patchlevel_h = join_path(headers.as_str(), "patchlevel.h");
    let contents = match fs.read_to_string(patchlevel_h.as_str()) {
        Some(contents) => contents,
        None => { return None; },
    };
    let all = lines_of(contents.as_str());
    let ghost f = |line: Seq<char>| regex_capture(header_version_pattern(), line, 1);
    let mut i: usize = 0;
    assert(all.deep_view().subrange(0, all.len() as int) == all.deep_view());
    while i < all.len()
        invariant
            i <= all.len(),
            f == |line: Seq<char>| regex_capture(header_version_pattern(), line, 1),
            first_some(all.deep_view().subrange(i as int, all.len() as int), f)
                == version_from_header_files(fs.deep_view(), path@),
        decreases all.len() - i,
    {
        proof {
            lemma_first_some_step(all.deep_view(), f, i as int);
        }
        match first_group("#define\\s+PY_VERSION\\s+\"((\\d+\\.?)*)", all[i].as_str()) {
            Some(version) => {
                return Some(version);
            },
            None => {},
        }
        i = i + 1;
    }
    None
}

/// The length of `s` in bytes of UTF-8.
pub open spec fn byte_length(s: Seq<char>) -> nat {
    encode_utf8(s).len()
}

/// The first of the shortest items of `paths`, by length in bytes.
pub open spec fn shortest(paths: Seq<Seq<char>>) -> Option<Seq<char>>
    decreases paths.len(),
{
    if paths.len() == 0 {
        None
    } else {
        match shortest(paths.drop_last()) {
            None => Some(paths.last()),
            Some(best) => if byte_length(paths.last()) < byte_length(best) {
                Some(paths.last())
            } else {
                Some(best)
            },
        }
    }
}

/// The paths among which the shortest is chosen: the aliases, then the executable.
pub open spec fn executable_candidates(symlinks: Seq<Seq<char>>, exe: Option<Seq<char>>) -> Seq<
    Seq<char>,
> {
    match exe {
        Some(exe) => symlinks.push(exe),
        None => symlinks,
    }
}

/// The path by which an interpreter is shown: the shortest of its aliases and
/// its executable, the earlier of two of one length. Without aliases it is the
/// executable.
pub open spec fn shortest_python_executable(
    symlinks: Option<Seq<Seq<char>>>,
    exe: Option<Seq<char>>,
) -> Option<Seq<char>> {
    match symlinks {
        Some(symlinks) => shortest(executable_candidates(symlinks, exe)),
        None => exe,
    }
}

/// The first of the shortest items of `paths`.
pub fn find_shortest(paths: &Vec<String>) -> (r: Option<String>)
    ensures
        r.deep_view() == shortest(paths.deep_view()),
{
    let ghost all = paths.deep_view();
    let mut best: Option<usize> = None;
    let mut i: usize = 0;
    while i < paths.len()
        invariant
            i <= paths.len(),
            all == paths.deep_view(),
            match best {
                Some(b) => b < i && shortest(all.take(i as int)) == Some(all[b as int]),
                None => shortest(all.take(i as int)) is None,
            },
        decreases paths.len() - i,
    {
        assert(all.take(i + 1).drop_last() == all.take(i as int));
        assert(all.take(i + 1).last() == all[i as int]);
        best = match best {
            None => Some(i),
            Some(b) => if paths[i].as_str().as_bytes().len() < paths[b].as_str().as_bytes().len() {
                Some(i)
            } else {
                Some(b)
            },
        };
        i = i + 1;
    }
    assert(all.take(all.len() as int) == all);
    match best {
        Some(b) => Some(paths[b].clone()),
        None => None,
    }
}

pub fn get_shortest_python_executable(symlinks: &Option<Vec<String>>, exe: &Option<String>) -> (r:
    Option<String>)
    ensures
        r.deep_view() == shortest_python_executable(symlinks.deep_view(), exe.deep_view()),
{
    match symlinks {
        Some(symlinks) => {
            let mut candidates = crate::text::clone_list(symlinks);
            match exe {
                Some(exe) => {
                    candidates.push(exe.clone());
                    assert(candidates.deep_view() =~= symlinks.deep_view().push(exe@));
                },
                None => {},
            }
            find_shortest(&candidates)
        },
        None => clone_option(exe),
    }
}

/// The candidate that the directory `directory` holds: its interpreter, with
/// the version that its `pyvenv.cfg` gives.
pub open spec fn candidate_in(disk: Seq<EntryView>, platform: Platform, directory: Seq<char>) -> Option<
    PythonEnvView,
> {
    if !is_dir_at(disk, directory) {
        None
    } else {
        match python_binary_path(disk, platform, directory) {
            None => None,
            Some(executable) => Some(
                PythonEnvView {
                    executable,
                    path: Some(directory),
                    version: version_using_pyvenv_cfg(disk, executable),
                },
            ),
        }
    }
}

/// The candidates in the directories that lie directly in `root`. `None`
/// where `root` cannot be listed.
pub open spec fn python_environments_in(disk: Seq<EntryView>, platform: Platform, root: Seq<char>) -> Option<
    Seq<PythonEnvView>,
> {
    match listing(disk, root) {
        None => None,
        Some(directories) => Some(
            collect(directories, |directory: Seq<char>| candidate_in(disk, platform, directory)),
        ),
    }
}

/// The candidate that the directory `directory` holds.
pub fn get_candidate_in(fs: &FileSystem, platform: Platform, directory: &str) -> (r: Option<
    PythonEnv,
>)
    ensures
        r.deep_view() == candidate_in(fs.deep_view(), platform, directory@),
{
    if !fs.is_dir(directory) {
        return None;
    }
    match find_python_binary_path(fs, platform, directory) {
        Some(executable) => {
            let version = get_version_using_pyvenv_cfg(fs, executable.as_str());
            Some(PythonEnv::new(executable, Some(directory.to_owned()), version))
        },
        None => None,
    }
}

pub fn list_python_environments(fs: &FileSystem, platform: Platform, path: &str) -> (r: Option<
    Vec<PythonEnv>,
>)
    ensures
        r.deep_view() == python_environments_in(fs.deep_view(), platform, path@),
{
    let directories = match fs.read_dir(path) {
        Some(directories) => directories,
        None => { return None; },
    };
    let ghost disk = fs.deep_view();
    let ghost f = |directory: Seq<char>| candidate_in(disk, platform, directory);
    let mut out: Vec<PythonEnv> = Vec::new();
    let mut i: usize = 0;
    assert(out.deep_view() =~= collect(directories.deep_view().take(0), f));
    while i < directories.len()
        invariant
            i <= directories.len(),
            disk == fs.deep_view(),
            f == |directory: Seq<char>| candidate_in(disk, platform, directory),
            out.deep_view() == collect(directories.deep_view().take(i as int), f),
        decreases directories.len() - i,
    {
        proof {
            lemma_collect_step(directories.deep_view(), f, i as int);
        }
        match get_candidate_in(fs, platform, directories[i].as_str()) {
            Some(candidate) => {
                let ghost before = out.deep_view();
                out.push(candidate);
                assert(out.deep_view() =~= before.push(candidate.deep_view()));
            },
            None => {},
        }
        i = i + 1;
    }
    assert(directories.deep_view().take(directories.len() as int) == directories.deep_view());
    Some(out)
}

/// The shortest of a list is one of its items, no item is shorter, and a
/// list with an item has a shortest.
pub proof fn lemma_shortest_member(paths: Seq<Seq<char>>)
    ensures
        paths.len() > 0 ==> shortest(paths) is Some,
        match shortest(paths) {
            Some(best) => paths.contains(best) && forall|i: int|
                0 <= i < paths.len() ==> byte_length(best) <= byte_length(#[trigger] paths[i]),
            None => paths.len() == 0,
        },
    decreases paths.len(),
{
    if paths.len() > 0 {
        lemma_shortest_member(paths.drop_last());
        let chosen = shortest(paths)->0;
        assert forall|i: int| 0 <= i < paths.len() implies byte_length(chosen) <= byte_length(
            #[trigger] paths[i],
        ) by {
            if i < paths.len() - 1 {
                assert(paths.drop_last()[i] == paths[i]);
            }
        }
        match shortest(paths.drop_last()) {
            None => {
                assert(paths[paths.len() - 1] == paths.last());
            },
            Some(best) => {
                if byte_length(paths.last()) < byte_length(best) {
                    assert(paths[paths.len() - 1] == paths.last());
                } else {
                    let w = choose|w: int|
                        0 <= w < paths.drop_last().len() && paths.drop_last()[w] == best;
                    assert(paths[w] == best);
                }
            },
        }
    }
}

} // verus!

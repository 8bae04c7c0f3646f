//! Pythons that Homebrew installed.
//!
//! Homebrew keeps each Python in its Cellar and links it into a `bin`
//! directory. A candidate is Homebrew's where its real path lies in one of the
//! three Cellars that Homebrew uses. Its other names follow from its version
//! and are computed, not looked for.

use crate::filesystem::{exists_at, listing, EntryView, FileSystem};
use crate::known::{Environment, Known};
use crate::locator::{Locator, LocatorResult, LocatorResultView};
use crate::messaging::{
    new_environment, PythonEnvironment, PythonEnvironmentCategory, PythonEnvironmentView,
};
use crate::paths::{file_name, file_name_of, is_under, is_under_path, join, join_path};
use crate::pattern::{capture, first_group, regex_capture};
use crate::text::{
    concat4, concat6, concat8, concat_str, list_contains, lowercase, lowercase_str, same_str,
    starts_with, starts_with_str,
};
use crate::utils::{is_symlinked_python_executable, symlinked_python_executable, PythonEnv};
use vstd::prelude::*;

verus! {

/// The `bin` directory under the prefix that `HOMEBREW_PREFIX` names, where it is there.
pub open spec fn homebrew_prefix_env_var(known: Known, disk: Seq<EntryView>) -> Option<Seq<char>> {
    match known.var("HOMEBREW_PREFIX"@) {
        Some(prefix) => if exists_at(disk, join(prefix, "bin"@)) {
            Some(join(prefix, "bin"@))
        } else {
            None
        },
        None => None,
    }
}

pub fn get_homebrew_prefix_env_var<E: Environment>(environment: &E, fs: &FileSystem) -> (r: Option<
    String,
>)
    ensures
        r.deep_view() == homebrew_prefix_env_var(environment.known(), fs.deep_view()),
{
    match environment.get_env_var("HOMEBREW_PREFIX".to_owned()) {
        Some(prefix) => {
            let bin = join_path(prefix.as_str(), "bin");
            if fs.is_present(bin.as_str()) {
                Some(bin)
            } else {
                None
            }
        },
        None => None,
    }
}

/// `list`, with `path` behind it where `keep` holds.
pub open spec fn push_if(list: Seq<Seq<char>>, keep: bool, path: Seq<char>) -> Seq<Seq<char>> {
    if keep {
        list.push(path)
    } else {
        list
    }
}

/// The `bin` directories in which Homebrew links its Pythons: those of the
/// three standard prefixes that are there, then that of `HOMEBREW_PREFIX`.
pub open spec fn homebrew_prefix_bin(known: Known, disk: Seq<EntryView>) -> Seq<Seq<char>> {
    let linux = push_if(
        seq![],
        exists_at(disk, "/home/linuxbrew/.linuxbrew/bin"@),
        "/home/linuxbrew/.linuxbrew/bin"@,
    );
    let silicon = push_if(linux, exists_at(disk, "/opt/homebrew/bin"@), "/opt/homebrew/bin"@);
    let standard = push_if(silicon, exists_at(disk, "/usr/local/bin"@), "/usr/local/bin"@);
    match homebrew_prefix_env_var(known, disk) {
        Some(bin) => push_if(standard, !standard.contains(bin), bin),
        None => standard,
    }
}

pub fn get_homebrew_prefix_bin<E: Environment>(environment: &E, fs: &FileSystem) -> (r: Vec<String>)
    ensures
        r.deep_view() == homebrew_prefix_bin(environment.known(), fs.deep_view()),
{
    let mut out: Vec<String> = Vec::new();
    assert(out.deep_view() =~= Seq::<Seq<char>>::empty());
    if fs.is_present("/home/linuxbrew/.linuxbrew/bin") {
        let ghost before = out.deep_view();
        out.push("/home/linuxbrew/.linuxbrew/bin".to_owned());
        assert(out.deep_view() =~= before.push("/home/linuxbrew/.linuxbrew/bin"@));
    }
    if fs.is_present("/opt/homebrew/bin") {
        let ghost before = out.deep_view();
        out.push("/opt/homebrew/bin".to_owned());
        assert(out.deep_view() =~= before.push("/opt/homebrew/bin"@));
    }
    if fs.is_present("/usr/local/bin") {
        let ghost before = out.deep_view();
        out.push("/usr/local/bin".to_owned());
        assert(out.deep_view() =~= before.push("/usr/local/bin"@));
    }
    match get_homebrew_prefix_env_var(environment, fs) {
        Some(bin) => {
            if !list_contains(&out, bin.as_str()) {
                let ghost before = out.deep_view();
                out.push(bin);
                assert(out.deep_view() =~= before.push(bin@));
            }
        },
        None => {},
    }
    out
}

/// The pattern of a real path in the Cellar of an Apple-silicon machine.
pub open spec fn silicon_pattern() -> Seq<char> {
    "/opt/homebrew/Cellar/python@((\\d+\\.?)*)/(\\d+\\.?)*/Frameworks/Python.framework/Versions/(\\d+\\.?)*/bin/python(\\d+\\.?)*"@
}

/// The pattern of a real path in the Cellar of a Linux machine.
pub open spec fn linux_pattern() -> Seq<char> {
    "/home/linuxbrew/.linuxbrew/Cellar/python@(\\d+\\.?\\d+\\.?)/(\\d+\\.?\\d+\\.?\\d+\\.?)/bin/python.*"@
}

/// The pattern of a real path in the Cellar of an Intel Mac.
pub open spec fn intel_pattern() -> Seq<char> {
    "/usr/local/Cellar/python@(\\d+\\.?\\d+\\.?)/(\\d+\\.?\\d+\\.?\\d+\\.?)/Frameworks/Python.framework/Versions/(\\d+\\.?\\d+\\.?)/bin/python.*"@
}

/// The pattern of the Cellar directory that names the minor version.
pub open spec fn formula_pattern() -> Seq<char> {
    "/python@((\\d+\\.?)*)/"@
}

/// The pattern of the Cellar directory that names the full version.
pub open spec fn full_version_pattern() -> Seq<char> {
    "/(\\d+\\.\\d+\\.\\d+)/"@
}

/// What a capture holds, the empty text where it holds nothing.
pub open spec fn or_empty(capture: Option<Seq<char>>) -> Seq<char> {
    match capture {
        Some(text) => text,
        None => seq![],
    }
}

/// `path` where something is at `path`.
pub open spec fn if_exists(disk: Seq<EntryView>, path: Seq<char>) -> Option<Seq<char>> {
    if exists_at(disk, path) {
        Some(path)
    } else {
        None
    }
}

/// The directory that Python calls its prefix, on an Apple-silicon machine.
pub open spec fn silicon_sys_prefix(version: Seq<char>) -> Seq<char> {
    "/opt/homebrew/opt/python@"@ + version + "/Frameworks/Python.framework/Versions/"@ + version
}

/// The directory that Python calls its prefix, on a Linux machine.
pub open spec fn linux_sys_prefix(version: Seq<char>, full_version: Seq<char>) -> Seq<char> {
    "/home/linuxbrew/.linuxbrew/Cellar/python@"@ + version + "/"@ + full_version
}

/// The directory that Python calls its prefix, on an Intel Mac.
pub open spec fn intel_sys_prefix(version: Seq<char>, full_version: Seq<char>) -> Seq<char> {
    "/usr/local/Cellar/python@"@ + version + "/"@ + full_version
        + "/Frameworks/Python.framework/Versions/"@ + version
}

/// The prefix directory of the Python whose real path is `resolved_file`, as
/// it follows from the path by its layout. There is none where the path has
/// none of the three layouts.
pub open spec fn sys_prefix(resolved_file: Seq<char>) -> Option<Seq<char>> {
    if starts_with(resolved_file, "/opt/homebrew"@) {
        if regex_capture(silicon_pattern(), resolved_file, 0) is None {
            None
        } else {
            Some(silicon_sys_prefix(or_empty(regex_capture(silicon_pattern(), resolved_file, 1))))
        }
    } else if starts_with(resolved_file, "/home/linuxbrew/.linuxbrew/Cellar"@) {
        if regex_capture(linux_pattern(), resolved_file, 0) is None {
            None
        } else {
            Some(
                linux_sys_prefix(
                    or_empty(regex_capture(linux_pattern(), resolved_file, 1)),
                    or_empty(regex_capture(linux_pattern(), resolved_file, 2)),
                ),
            )
        }
    } else if starts_with(resolved_file, "/usr/local/Cellar"@) {
        if regex_capture(intel_pattern(), resolved_file, 0) is None {
            None
        } else {
            Some(
                intel_sys_prefix(
                    or_empty(regex_capture(intel_pattern(), resolved_file, 1)),
                    or_empty(regex_capture(intel_pattern(), resolved_file, 2)),
                ),
            )
        }
    } else {
        None
    }
}

/// The prefix directory of the Python whose real path is `resolved_file`. It
/// counts only where it is there.
pub open spec fn env_path(disk: Seq<EntryView>, resolved_file: Seq<char>) -> Option<Seq<char>> {
    match sys_prefix(resolved_file) {
        Some(prefix) => if_exists(disk, prefix),
        None => None,
    }
}

/// What a capture holds, the empty text where it holds nothing.
fn text_or_empty(capture: Option<String>) -> (r: String)
    ensures
        r@ == or_empty(capture.deep_view()),
{
    match capture {
        Some(text) => text,
        None => String::new(),
    }
}

/// `path` where something is at `path`.
fn keep_if_exists(fs: &FileSystem, path: String) -> (r: Option<String>)
    ensures
        r.deep_view() == if_exists(fs.deep_view(), path@),
{
    if fs.is_present(path.as_str()) {
        Some(path)
    } else {
        None
    }
}

/// The prefix directory on an Apple-silicon machine, for a minor version.
pub fn get_silicon_sys_prefix(version: &str) -> (r: String)
    ensures
        r@ == silicon_sys_prefix(version@),
{
    concat4(
        "/opt/homebrew/opt/python@",
        version,
        "/Frameworks/Python.framework/Versions/",
        version,
    )
}

/// The prefix directory on a Linux machine, for a minor and a full version.
pub fn get_linux_sys_prefix(version: &str, full_version: &str) -> (r: String)
    ensures
        r@ == linux_sys_prefix(version@, full_version@),
{
    concat4("/home/linuxbrew/.linuxbrew/Cellar/python@", version, "/", full_version)
}

/// The prefix directory on an Intel Mac, for a minor and a full version.
pub fn get_intel_sys_prefix(version: &str, full_version: &str) -> (r: String)
    ensures
        r@ == intel_sys_prefix(version@, full_version@),
{
    concat6(
        "/usr/local/Cellar/python@",
        version,
        "/",
        full_version,
        "/Frameworks/Python.framework/Versions/",
        version,
    )
}

/// The prefix directory of the Python whose real path is `resolved_file`, as
/// it follows from the path by its layout.
pub fn get_sys_prefix(resolved_file: &str) -> (r: Option<String>)
    ensures
        r.deep_view() == sys_prefix(resolved_file@),
{
    if starts_with_str(resolved_file, "/opt/homebrew") {
        let pattern =
            "/opt/homebrew/Cellar/python@((\\d+\\.?)*)/(\\d+\\.?)*/Frameworks/Python.framework/Versions/(\\d+\\.?)*/bin/python(\\d+\\.?)*";
        if capture(pattern, resolved_file, 0).is_none() {
            return None;
        }
        let version = text_or_empty(capture(pattern, resolved_file, 1));
        return Some(get_silicon_sys_prefix(version.as_str()));
    }
    if starts_with_str(resolved_file, "/home/linuxbrew/.linuxbrew/Cellar") {
        let pattern =
            "/home/linuxbrew/.linuxbrew/Cellar/python@(\\d+\\.?\\d+\\.?)/(\\d+\\.?\\d+\\.?\\d+\\.?)/bin/python.*";
        if capture(pattern, resolved_file, 0).is_none() {
            return None;
        }
        let version = text_or_empty(capture(pattern, resolved_file, 1));
        let full_version = text_or_empty(capture(pattern, resolved_file, 2));
        return Some(get_linux_sys_prefix(version.as_str(), full_version.as_str()));
    }
    if starts_with_str(resolved_file, "/usr/local/Cellar") {
        let pattern =
            "/usr/local/Cellar/python@(\\d+\\.?\\d+\\.?)/(\\d+\\.?\\d+\\.?\\d+\\.?)/Frameworks/Python.framework/Versions/(\\d+\\.?\\d+\\.?)/bin/python.*";
        if capture(pattern, resolved_file, 0).is_none() {
            return None;
        }
        let version = text_or_empty(capture(pattern, resolved_file, 1));
        let full_version = text_or_empty(capture(pattern, resolved_file, 2));
        return Some(get_intel_sys_prefix(version.as_str(), full_version.as_str()));
    }
    None
}

pub fn get_env_path(fs: &FileSystem, resolved_file: &str) -> (r: Option<String>)
    ensures
        r.deep_view() == env_path(fs.deep_view(), resolved_file@),
{
    match get_sys_prefix(resolved_file) {
        Some(prefix) => keep_if_exists(fs, prefix),
        None => None,
    }
}

/// The names under which Homebrew links the Python of minor version `version`
/// and full version `full_version` on an Apple-silicon machine. The unversioned
/// `python` and `python3` are never among them: they move when another
/// version is installed.
pub open spec fn silicon_symlinks(version: Seq<char>, full_version: Seq<char>) -> Seq<Seq<char>> {
    seq![
        "/opt/homebrew/bin/python"@ + version,
        "/opt/homebrew/opt/python3/bin/python"@ + version,
        "/opt/homebrew/Cellar/python@"@ + version + "/"@ + full_version + "/bin/python"@ + version,
        "/opt/homebrew/opt/python@"@ + version + "/bin/python"@ + version,
        "/opt/homebrew/Cellar/python@"@ + version + "/"@ + full_version
            + "/Frameworks/Python.framework/Versions/"@ + version + "/bin/python"@ + version,
        "/opt/homebrew/Cellar/python@"@ + version + "/"@ + full_version
            + "/Frameworks/Python.framework/Versions/Current/bin/python"@ + version,
        "/opt/homebrew/Frameworks/Python.framework/Versions/"@ + version + "/bin/python"@
            + version,
        "/opt/homebrew/Frameworks/Python.framework/Versions/Current/bin/python"@ + version,
        "/opt/homebrew/Cellar/python@"@ + version + "/"@ + full_version
            + "/Frameworks/Python.framework/Versions/"@ + version + "/bin/python"@ + version,
    ]
}

/// `/usr/local/bin/python` with the version behind it. Other installers write
/// there too, so it counts as a name of `python_exe` only where it is a link
/// that leads to `python_exe`.
pub open spec fn user_bin_symlink(version: Seq<char>) -> Seq<char> {
    "/usr/local/bin/python"@ + version
}

/// Whether `/usr/local/bin/python<version>` leads to `python_exe`.
pub open spec fn user_bin_leads_to(disk: Seq<EntryView>, version: Seq<char>, python_exe: Seq<char>) -> bool {
    symlinked_python_executable(disk, user_bin_symlink(version)) == Some(python_exe)
}

/// The names under which Homebrew links a Python on an Intel Mac.
pub open spec fn intel_symlinks(
    disk: Seq<EntryView>,
    python_exe: Seq<char>,
    version: Seq<char>,
    full_version: Seq<char>,
) -> Seq<Seq<char>> {
    push_if(
        seq![
            "/usr/local/opt/python@"@ + version + "/bin/python"@ + version,
            "/usr/local/Cellar/python@"@ + version + "/"@ + full_version + "/bin/python"@
                + version,
        ],
        user_bin_leads_to(disk, version, python_exe),
        user_bin_symlink(version),
    )
}

/// The names under which Homebrew links a Python on a Linux machine.
pub open spec fn linux_symlinks(disk: Seq<EntryView>, python_exe: Seq<char>, version: Seq<char>) -> Seq<
    Seq<char>,
> {
    push_if(
        seq![
            "/home/linuxbrew/.linuxbrew/bin/python"@ + version,
            "/home/linuxbrew/.linuxbrew/opt/python@"@ + version + "/bin/python"@ + version,
        ],
        user_bin_leads_to(disk, version, python_exe),
        user_bin_symlink(version),
    )
}

/// The other names of the Python whose real path is `python_exe`, given the
/// minor version that its Cellar directory names. There are none where the
/// path lies in no Cellar or names no version.
pub open spec fn known_symlinks_for(
    disk: Seq<EntryView>,
    python_exe: Seq<char>,
    full_version: Seq<char>,
    version: Option<Seq<char>>,
) -> Seq<Seq<char>> {
    match version {
        None => seq![],
        Some(version) => if is_under(python_exe, "/opt/homebrew/Cellar"@) {
            silicon_symlinks(version, full_version)
        } else if is_under(python_exe, "/usr/local/Cellar"@) {
            intel_symlinks(disk, python_exe, version, full_version)
        } else if is_under(python_exe, "/home/linuxbrew/.linuxbrew/Cellar"@) {
            linux_symlinks(disk, python_exe, version)
        } else {
            seq![]
        },
    }
}

/// The other names of the Python whose real path is `python_exe`.
pub open spec fn known_symlinks(disk: Seq<EntryView>, python_exe: Seq<char>, full_version: Seq<char>) -> Seq<
    Seq<char>,
> {
    known_symlinks_for(
        disk,
        python_exe,
        full_version,
        regex_capture(formula_pattern(), python_exe, 1),
    )
}

/// The names of a Python of an Apple-silicon machine.
pub fn get_silicon_symlinks(version: &str, full_version: &str) -> (r: Vec<String>)
    ensures
        r.deep_view() == silicon_symlinks(version@, full_version@),
{
    let mut out: Vec<String> = Vec::new();
    out.push(concat_str("/opt/homebrew/bin/python", version));
    out.push(concat_str("/opt/homebrew/opt/python3/bin/python", version));
    out.push(
        concat6("/opt/homebrew/Cellar/python@", version, "/", full_version, "/bin/python", version),
    );
    out.push(concat4("/opt/homebrew/opt/python@", version, "/bin/python", version));
    out.push(
        concat8(
            "/opt/homebrew/Cellar/python@",
            version,
            "/",
            full_version,
            "/Frameworks/Python.framework/Versions/",
            version,
            "/bin/python",
            version,
        ),
    );
    out.push(
        concat6(
            "/opt/homebrew/Cellar/python@",
            version,
            "/",
            full_version,
            "/Frameworks/Python.framework/Versions/Current/bin/python",
            version,
        ),
    );
    out.push(
        concat4(
            "/opt/homebrew/Frameworks/Python.framework/Versions/",
            version,
            "/bin/python",
            version,
        ),
    );
    out.push(
        concat_str("/opt/homebrew/Frameworks/Python.framework/Versions/Current/bin/python", version),
    );
    out.push(
        concat8(
            "/opt/homebrew/Cellar/python@",
            version,
            "/",
            full_version,
            "/Frameworks/Python.framework/Versions/",
            version,
            "/bin/python",
            version,
        ),
    );
    assert(out.deep_view() =~= silicon_symlinks(version@, full_version@));
    out
}

/// Adds `/usr/local/bin/python<version>` to `symlinks` where it leads to `python_exe`.
fn push_user_bin_symlink(fs: &FileSystem, python_exe: &str, version: &str, symlinks: &mut Vec<String>)
    ensures
        final(symlinks).deep_view() == push_if(
            old(symlinks).deep_view(),
            user_bin_leads_to(fs.deep_view(), version@, python_exe@),
            user_bin_symlink(version@),
        ),
{
    let user_bin = concat_str("/usr/local/bin/python", version);
    match is_symlinked_python_executable(fs, user_bin.as_str()) {
        Some(real_file) => {
            if same_str(real_file.as_str(), python_exe) {
                let ghost before = symlinks.deep_view();
                symlinks.push(user_bin);
                assert(symlinks.deep_view() =~= before.push(user_bin@));
            }
        },
        None => {},
    }
}

/// The other names of the Python whose real path is `python_exe`, given the
/// minor version that its Cellar directory names.
pub fn get_known_symlinks_for(
    fs: &FileSystem,
    python_exe: &str,
    full_version: &str,
    version: Option<String>,
) -> (r: Vec<String>)
    ensures
        r.deep_view() == known_symlinks_for(
            fs.deep_view(),
            python_exe@,
            full_version@,
            version.deep_view(),
        ),
{
    let mut out: Vec<String> = Vec::new();
    assert(out.deep_view() =~= Seq::<Seq<char>>::empty());
    let version = match version {
        Some(version) => version,
        None => { return out; },
    };
    let version = version.as_str();
    if is_under_path(python_exe, "/opt/homebrew/Cellar") {
        get_silicon_symlinks(version, full_version)
    } else if is_under_path(python_exe, "/usr/local/Cellar") {
        out.push(concat4("/usr/local/opt/python@", version, "/bin/python", version));
        out.push(
            concat6("/usr/local/Cellar/python@", version, "/", full_version, "/bin/python", version),
        );
        assert(out.deep_view() =~= seq![
            "/usr/local/opt/python@"@ + version@ + "/bin/python"@ + version@,
            "/usr/local/Cellar/python@"@ + version@ + "/"@ + full_version@ + "/bin/python"@
                + version@,
        ]);
        push_user_bin_symlink(fs, python_exe, version, &mut out);
        out
    } else if is_under_path(python_exe, "/home/linuxbrew/.linuxbrew/Cellar") {
        out.push(concat_str("/home/linuxbrew/.linuxbrew/bin/python", version));
        out.push(concat4("/home/linuxbrew/.linuxbrew/opt/python@", version, "/bin/python", version));
        assert(out.deep_view() =~= seq![
            "/home/linuxbrew/.linuxbrew/bin/python"@ + version@,
            "/home/linuxbrew/.linuxbrew/opt/python@"@ + version@ + "/bin/python"@ + version@,
        ]);
        push_user_bin_symlink(fs, python_exe, version, &mut out);
        out
    } else {
        out
    }
}

pub fn get_known_symlinks(fs: &FileSystem, python_exe: &str, full_version: &str) -> (r: Vec<String>)
    ensures
        r.deep_view() == known_symlinks(fs.deep_view(), python_exe@, full_version@),
{
    let version = first_group("/python@((\\d+\\.?)*)/", python_exe);
    get_known_symlinks_for(fs, python_exe, full_version, version)
}

/// The record of the Homebrew Python that is shown as `friendly` and whose
/// real path is `resolved`.
pub open spec fn python_info(disk: Seq<EntryView>, friendly: Seq<char>, resolved: Seq<char>) -> PythonEnvironmentView {
    let version = regex_capture(full_version_pattern(), resolved, 1);
    PythonEnvironmentView {
        symlinks: match version {
            Some(full_version) => Some(known_symlinks(disk, resolved, full_version)),
            None => None,
        },
        ..new_environment(
            None,
            None,
            Some(friendly),
            PythonEnvironmentCategory::Homebrew,
            version,
            env_path(disk, resolved),
            None,
            Some(seq![friendly]),
        )
    }
}

/// The real path of the candidate `exe`: where its link leads, or `exe` itself.
pub open spec fn resolved_file(disk: Seq<EntryView>, exe: Seq<char>) -> Seq<char> {
    match symlinked_python_executable(disk, exe) {
        Some(target) => target,
        None => exe,
    }
}

/// The path by which a Homebrew Python named `name` is shown, given its real
/// path. `None` where the real path lies in none of Homebrew's Cellars.
pub open spec fn friendly_path(resolved: Seq<char>, name: Seq<char>) -> Option<Seq<char>> {
    if is_under(resolved, "/opt/homebrew/Cellar"@) {
        Some(join("/opt/homebrew/bin"@, name))
    } else if is_under(resolved, "/home/linuxbrew/.linuxbrew/Cellar"@) {
        Some(join("/usr/local/bin"@, name))
    } else if is_under(resolved, "/usr/local/Cellar"@) {
        Some(join("/usr/local/bin"@, name))
    } else {
        None
    }
}

/// The path by which the candidate `exe` is shown, where it is Homebrew's.
pub open spec fn homebrew_name(disk: Seq<EntryView>, exe: Seq<char>) -> Option<Seq<char>> {
    match file_name(exe) {
        None => None,
        Some(name) => friendly_path(resolved_file(disk, exe), name),
    }
}

/// The record of the candidate `exe`, where it is Homebrew's and its real
/// path is not among `reported`.
pub open spec fn resolve_unreported(disk: Seq<EntryView>, exe: Seq<char>, reported: Seq<Seq<char>>) -> Option<
    PythonEnvironmentView,
> {
    match homebrew_name(disk, exe) {
        None => None,
        Some(friendly) => if reported.contains(resolved_file(disk, exe)) {
            None
        } else {
            Some(python_info(disk, friendly, resolved_file(disk, exe)))
        },
    }
}

/// The real paths reported once the candidate `exe` has been looked at.
pub open spec fn reported_after(disk: Seq<EntryView>, exe: Seq<char>, reported: Seq<Seq<char>>) -> Seq<
    Seq<char>,
> {
    match homebrew_name(disk, exe) {
        None => reported,
        Some(_) => push_if(
            reported,
            !reported.contains(resolved_file(disk, exe)),
            resolved_file(disk, exe),
        ),
    }
}

fn get_python_info(
    fs: &FileSystem,
    python_exe_from_bin_dir: &str,
    reported: &mut Vec<String>,
    resolved_exe: &str,
) -> (r: Option<PythonEnvironment>)
    ensures
        r.deep_view() == if old(reported).deep_view().contains(resolved_exe@) {
            None
        } else {
            Some(python_info(fs.deep_view(), python_exe_from_bin_dir@, resolved_exe@))
        },
        final(reported).deep_view() == push_if(
            old(reported).deep_view(),
            !old(reported).deep_view().contains(resolved_exe@),
            resolved_exe@,
        ),
{
    let version = first_group("/(\\d+\\.\\d+\\.\\d+)/", resolved_exe);
    if list_contains(reported, resolved_exe) {
        return None;
    }
    let symlinks = match &version {
        Some(full_version) => Some(get_known_symlinks(fs, resolved_exe, full_version.as_str())),
        None => None,
    };
    let ghost before = reported.deep_view();
    reported.push(resolved_exe.to_owned());
    assert(reported.deep_view() =~= before.push(resolved_exe@));
    let mut command: Vec<String> = Vec::new();
    command.push(python_exe_from_bin_dir.to_owned());
    assert(command.deep_view() =~= seq![python_exe_from_bin_dir@]);
    let mut env = PythonEnvironment::new(
        None,
        None,
        Some(python_exe_from_bin_dir.to_owned()),
        PythonEnvironmentCategory::Homebrew,
        version,
        get_env_path(fs, resolved_exe),
        None,
        Some(command),
    );
    env.symlinks = symlinks;
    Some(env)
}

/// The record of the candidate `env`, where it is Homebrew's and its real path
/// is not among `reported`; the real path is then added to `reported`.
pub fn resolve(fs: &FileSystem, env: &PythonEnv, reported: &mut Vec<String>) -> (r: Option<
    PythonEnvironment,
>)
    ensures
        r.deep_view() == resolve_unreported(
            fs.deep_view(),
            env.executable@,
            old(reported).deep_view(),
        ),
        final(reported).deep_view() == reported_after(
            fs.deep_view(),
            env.executable@,
            old(reported).deep_view(),
        ),
{
    let exe = env.executable.as_str();
    let exe_file_name = match file_name_of(exe) {
        Some(name) => name,
        None => { return None; },
    };
    let resolved = match is_symlinked_python_executable(fs, exe) {
        Some(target) => target,
        None => exe.to_owned(),
    };
    if is_under_path(resolved.as_str(), "/opt/homebrew/Cellar") {
        let friendly = join_path("/opt/homebrew/bin", exe_file_name.as_str());
        get_python_info(fs, friendly.as_str(), reported, resolved.as_str())
    } else if is_under_path(resolved.as_str(), "/home/linuxbrew/.linuxbrew/Cellar") {
        let friendly = join_path("/usr/local/bin", exe_file_name.as_str());
        get_python_info(fs, friendly.as_str(), reported, resolved.as_str())
    } else if is_under_path(resolved.as_str(), "/usr/local/Cellar") {
        let friendly = join_path("/usr/local/bin", exe_file_name.as_str());
        get_python_info(fs, friendly.as_str(), reported, resolved.as_str())
    } else {
        None
    }
}

/// What a walk through Homebrew's directories has gathered.
pub struct Scan {
    pub environments: Seq<PythonEnvironmentView>,
    pub reported: Seq<Seq<char>>,
}

/// `scan`, once the candidate `exe` has been looked at.
pub open spec fn scan_step(disk: Seq<EntryView>, exe: Seq<char>, scan: Scan) -> Scan {
    Scan {
        environments: match resolve_unreported(disk, exe, scan.reported) {
            Some(env) => scan.environments.push(env),
            None => scan.environments,
        },
        reported: reported_after(disk, exe, scan.reported),
    }
}

/// `file` is named `python` with something behind it other than a bare `3`.
pub open spec fn versioned_python_name(file: Seq<char>) -> bool {
    let name = lowercase(or_empty(file_name(file)));
    starts_with(name, "python"@) && name != "python3"@ && name != "python"@
}

/// `scan`, once the versioned Pythons among `files` have been looked at, in order.
pub open spec fn scan_files(disk: Seq<EntryView>, files: Seq<Seq<char>>, scan: Scan) -> Scan
    decreases files.len(),
{
    if files.len() == 0 {
        scan
    } else {
        let sofar = scan_files(disk, files.drop_last(), scan);
        if versioned_python_name(files.last()) {
            scan_step(disk, files.last(), sofar)
        } else {
            sofar
        }
    }
}

/// `scan`, once the directory `bin` has been walked: its versioned Pythons
/// first, then its `python3`. A directory that cannot be listed is passed
/// over: it gives nothing and takes nothing away.
pub open spec fn scan_bin(disk: Seq<EntryView>, bin: Seq<char>, scan: Scan) -> Scan {
    match listing(disk, bin) {
        None => scan,
        Some(files) => scan_step(disk, join(bin, "python3"@), scan_files(disk, files, scan)),
    }
}

/// `scan`, once the directories `bins` have been walked, in order.
pub open spec fn scan_bins(disk: Seq<EntryView>, bins: Seq<Seq<char>>, scan: Scan) -> Scan
    decreases bins.len(),
{
    if bins.len() == 0 {
        scan
    } else {
        scan_bin(disk, bins.last(), scan_bins(disk, bins.drop_last(), scan))
    }
}

/// A directory that cannot be listed costs no other directory its Pythons:
/// wherever it stands among the directories, the walk gathers what it
/// gathers without it.
pub proof fn lemma_unlisted_directory_costs_nothing(
    disk: Seq<EntryView>,
    before: Seq<Seq<char>>,
    bin: Seq<char>,
    after: Seq<Seq<char>>,
    scan: Scan,
)
    requires
        listing(disk, bin) is None,
    ensures
        scan_bins(disk, before.push(bin) + after, scan) == scan_bins(disk, before + after, scan),
    decreases after.len(),
{
    if after.len() == 0 {
        assert(before.push(bin) + after == before.push(bin));
        assert(before + after == before);
        assert(before.push(bin).drop_last() == before);
        assert(before.push(bin).last() == bin);
    } else {
        lemma_unlisted_directory_costs_nothing(disk, before, bin, after.drop_last(), scan);
        assert((before.push(bin) + after).drop_last() == before.push(bin) + after.drop_last());
        assert((before + after).drop_last() == before + after.drop_last());
        assert((before.push(bin) + after).last() == after.last());
        assert((before + after).last() == after.last());
    }
}

/// What a walk through all of Homebrew's `bin` directories gathers.
pub open spec fn scanned(known: Known, disk: Seq<EntryView>) -> Scan {
    scan_bins(
        disk,
        homebrew_prefix_bin(known, disk),
        Scan { environments: seq![], reported: seq![] },
    )
}

/// Everything that Homebrew installed: the Pythons linked into its `bin`
/// directories, each real file once.
pub open spec fn found(known: Known, disk: Seq<EntryView>) -> Option<LocatorResultView> {
    if scanned(known, disk).environments.len() == 0 {
        None
    } else {
        Some(
            LocatorResultView {
                managers: seq![],
                environments: scanned(known, disk).environments,
            },
        )
    }
}

/// The environment `env` is the record of the real file `file`, under the
/// path by which it is shown.
pub open spec fn stands_for(disk: Seq<EntryView>, env: PythonEnvironmentView, file: Seq<char>) -> bool {
    match env.python_executable_path {
        Some(friendly) => env == python_info(disk, friendly, file),
        None => false,
    }
}

/// Each environment of `scan` stands for the real file at its place in
/// `reported`, and no real file is there twice.
pub open spec fn each_real_file_once(disk: Seq<EntryView>, scan: Scan) -> bool {
    &&& scan.environments.len() == scan.reported.len()
    &&& scan.reported.no_duplicates()
    &&& forall|i: int|
        0 <= i < scan.environments.len() ==> stands_for(
            disk,
            #[trigger] scan.environments[i],
            scan.reported[i],
        )
}

/// A link into the Cellar of an Apple-silicon machine is reported under its
/// name in `/opt/homebrew/bin`: the record is Homebrew's, it is run by that
/// path alone, it has no manager, and its version is the one that the Cellar
/// directory names. Where the real path has the form of a framework's
/// executable for the versions `version` and `full_version`, the real path is
/// among the other names of the record.
pub proof fn lemma_link_into_the_cellar(
    disk: Seq<EntryView>,
    exe: Seq<char>,
    name: Seq<char>,
    target: Seq<char>,
    reported: Seq<Seq<char>>,
)
    requires
        file_name(exe) == Some(name),
        symlinked_python_executable(disk, exe) == Some(target),
        is_under(target, "/opt/homebrew/Cellar"@),
        !reported.contains(target),
    ensures
        resolve_unreported(disk, exe, reported) is Some,
        reported_after(disk, exe, reported) == reported.push(target),
        ({
            let env = resolve_unreported(disk, exe, reported)->0;
            let shown = join("/opt/homebrew/bin"@, name);
            &&& env.category == PythonEnvironmentCategory::Homebrew
            &&& env.python_executable_path == Some(shown)
            &&& env.python_run_command == Some(seq![shown])
            &&& env.env_manager is None
            &&& env.name is None
            &&& stands_for(disk, env, target)
            &&& forall|version: Seq<char>, full_version: Seq<char>|
                #![trigger silicon_symlinks(version, full_version)]
                env.version == Some(full_version) && regex_capture(formula_pattern(), target, 1)
                    == Some(version) && target == silicon_symlinks(version, full_version)[4]
                    ==> env.symlinks == Some(silicon_symlinks(version, full_version))
                    && env.symlinks->0.contains(target)
        }),
{
    assert forall|version: Seq<char>, full_version: Seq<char>|
        #![trigger silicon_symlinks(version, full_version)]
        target == silicon_symlinks(version, full_version)[4] implies silicon_symlinks(
        version,
        full_version,
    ).contains(target) by {
        assert(silicon_symlinks(version, full_version)[4] == target);
    }
}

/// A second link to a real file adds nothing: a candidate whose real file
/// was reported leaves the walk as it was.
pub proof fn lemma_second_link_adds_nothing(disk: Seq<EntryView>, exe: Seq<char>, scan: Scan)
    requires
        scan.reported.contains(resolved_file(disk, exe)),
    ensures
        scan_step(disk, exe, scan) == scan,
{
}

/// Looking at one more candidate keeps each real file once.
pub proof fn lemma_scan_step_once(disk: Seq<EntryView>, exe: Seq<char>, scan: Scan)
    requires
        each_real_file_once(disk, scan),
    ensures
        each_real_file_once(disk, scan_step(disk, exe, scan)),
{
    let after = scan_step(disk, exe, scan);
    match homebrew_name(disk, exe) {
        None => {},
        Some(friendly) => {
            let file = resolved_file(disk, exe);
            if !scan.reported.contains(file) {
                assert forall|i: int, j: int|
                    0 <= i < after.reported.len() && 0 <= j < after.reported.len() && i
                        != j implies after.reported[i] != after.reported[j] by {
                    if i < scan.reported.len() && j < scan.reported.len() {
                    } else if i < scan.reported.len() {
                        assert(scan.reported[i] == after.reported[i]);
                    } else {
                        assert(scan.reported[j] == after.reported[j]);
                    }
                }
            }
        },
    }
}

/// Looking at the files of a directory keeps each real file once.
pub proof fn lemma_scan_files_once(disk: Seq<EntryView>, files: Seq<Seq<char>>, scan: Scan)
    requires
        each_real_file_once(disk, scan),
    ensures
        each_real_file_once(disk, scan_files(disk, files, scan)),
    decreases files.len(),
{
    if files.len() > 0 {
        lemma_scan_files_once(disk, files.drop_last(), scan);
        if versioned_python_name(files.last()) {
            lemma_scan_step_once(disk, files.last(), scan_files(disk, files.drop_last(), scan));
        }
    }
}

/// Walking directories keeps each real file once.
pub proof fn lemma_scan_bins_once(disk: Seq<EntryView>, bins: Seq<Seq<char>>, scan: Scan)
    requires
        each_real_file_once(disk, scan),
    ensures
        each_real_file_once(disk, scan_bins(disk, bins, scan)),
    decreases bins.len(),
{
    if bins.len() > 0 {
        lemma_scan_bins_once(disk, bins.drop_last(), scan);
        let sofar = scan_bins(disk, bins.drop_last(), scan);
        match listing(disk, bins.last()) {
            None => {},
            Some(files) => {
                lemma_scan_files_once(disk, files, sofar);
                lemma_scan_step_once(
                    disk,
                    join(bins.last(), "python3"@),
                    scan_files(disk, files, sofar),
                );
            },
        }
    }
}

/// Homebrew reports each real file once: however many links lead to one
/// file, the environments found stand for pairwise different real files.
pub proof fn lemma_found_each_real_file_once(known: Known, disk: Seq<EntryView>)
    ensures
        each_real_file_once(disk, scanned(known, disk)),
{
    lemma_scan_bins_once(
        disk,
        homebrew_prefix_bin(known, disk),
        Scan { environments: seq![], reported: seq![] },
    );
}

/// Homebrew is no manager of environments: what it gives holds none.
pub proof fn lemma_found_without_managers(known: Known, disk: Seq<EntryView>)
    ensures
        crate::locator::without_managers(found(known, disk)),
{
    lemma_found_each_real_file_once(known, disk);
    let scan = scanned(known, disk);
    assert forall|k: int| 0 <= k < scan.environments.len() implies crate::locator::unmanaged(
        #[trigger] scan.environments[k],
    ) by {
        assert(stands_for(disk, scan.environments[k], scan.reported[k]));
    }
}

/// Whether `file` is named `python` with something behind it other than a bare `3`.
pub fn is_versioned_python_name(file: &str) -> (r: bool)
    ensures
        r == versioned_python_name(file@),
{
    let name = match file_name_of(file) {
        Some(name) => name,
        None => String::new(),
    };
    let name = lowercase_str(name.as_str());
    starts_with_str(name.as_str(), "python") && !same_str(name.as_str(), "python3") && !same_str(
        name.as_str(),
        "python",
    )
}

/// Looks at the candidate `exe` and adds its record, where there is one, to `environments`.
fn scan_candidate(
    fs: &FileSystem,
    exe: String,
    environments: &mut Vec<PythonEnvironment>,
    reported: &mut Vec<String>,
)
    ensures
        (Scan {
            environments: final(environments).deep_view(),
            reported: final(reported).deep_view(),
        }) == scan_step(
            fs.deep_view(),
            exe@,
            Scan { environments: old(environments).deep_view(), reported: old(reported).deep_view() },
        ),
{
    let env_to_resolve = PythonEnv { executable: exe, path: None, version: None };
    match resolve(fs, &env_to_resolve, reported) {
        Some(env) => {
            let ghost before = environments.deep_view();
            environments.push(env);
            assert(environments.deep_view() =~= before.push(env.deep_view()));
        },
        None => {},
    }
}

/// The Homebrew source.
pub struct Homebrew<'a, E: Environment> {
    pub environment: &'a E,
    pub fs: &'a FileSystem,
}

impl<'a, E: Environment> Homebrew<'a, E> {
    pub fn with(environment: &'a E, fs: &'a FileSystem) -> (r: Homebrew<'a, E>)
        ensures
            r.environment == environment,
            r.fs == fs,
    {
        Homebrew { environment, fs }
    }
}

impl<'a, E: Environment> Locator for Homebrew<'a, E> {
    fn resolve(&self, env: &PythonEnv) -> (r: Option<PythonEnvironment>)
        ensures
            r.deep_view() == resolve_unreported(self.fs.deep_view(), env.executable@, seq![]),
    {
        let mut reported: Vec<String> = Vec::new();
        assert(reported.deep_view() =~= Seq::<Seq<char>>::empty());
        resolve(self.fs, env, &mut reported)
    }

    fn find(&mut self) -> (r: Option<LocatorResult>)
        ensures
            r.deep_view() == found(old(self).environment.known(), old(self).fs.deep_view()),
            final(self).environment == old(self).environment,
            final(self).fs == old(self).fs,
    {
        let fs = self.fs;
        let ghost disk = fs.deep_view();
        let mut reported: Vec<String> = Vec::new();
        let mut environments: Vec<PythonEnvironment> = Vec::new();
        assert(reported.deep_view() =~= Seq::<Seq<char>>::empty());
        assert(environments.deep_view() =~= Seq::<PythonEnvironmentView>::empty());
        let bins = get_homebrew_prefix_bin(self.environment, fs);
        let ghost all = bins.deep_view();
        let ghost start = Scan { environments: seq![], reported: seq![] };
        let mut b: usize = 0;
        while b < bins.len()
            invariant
                b <= bins.len(),
                disk == fs.deep_view(),
                all == bins.deep_view(),
                *self == *old(self),
                (Scan { environments: environments.deep_view(), reported: reported.deep_view() })
                    == scan_bins(disk, all.take(b as int), start),
            decreases bins.len() - b,
        {
            assert(all.take(b + 1).drop_last() == all.take(b as int));
            assert(all.take(b + 1).last() == bins[b as int]@);
            let bin = bins[b].as_str();
            match fs.read_dir(bin) {
                Some(files) => {
                    let ghost entered = Scan {
                        environments: environments.deep_view(),
                        reported: reported.deep_view(),
                    };
                    let ghost names = files.deep_view();
                    let mut i: usize = 0;
                    assert(names.take(0) =~= Seq::<Seq<char>>::empty());
                    while i < files.len()
                        invariant
                            i <= files.len(),
                            disk == fs.deep_view(),
                            names == files.deep_view(),
                            (Scan {
                                environments: environments.deep_view(),
                                reported: reported.deep_view(),
                            }) == scan_files(disk, names.take(i as int), entered),
                        decreases files.len() - i,
                    {
                        assert(names.take(i + 1).drop_last() == names.take(i as int));
                        assert(names.take(i + 1).last() == files[i as int]@);
                        if is_versioned_python_name(files[i].as_str()) {
                            scan_candidate(fs, files[i].clone(), &mut environments, &mut reported);
                        }
                        i = i + 1;
                    }
                    assert(names.take(names.len() as int) == names);
                    scan_candidate(fs, join_path(bin, "python3"), &mut environments, &mut reported);
                },
                None => {},
            }
            b = b + 1;
        }
        assert(all.take(all.len() as int) == all);
        if environments.len() == 0 {
            None
        } else {
            let r = LocatorResult { managers: Vec::new(), environments };
            assert(r.deep_view().managers =~= Seq::<crate::messaging::EnvManagerView>::empty());
            Some(r)
        }
    }
}

} // verus!

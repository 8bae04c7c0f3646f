//! What to read from a machine so that discovery can run on the snapshot.
//!
//! Discovery reads a bounded part of a disk. The first roots follow from the
//! environment alone. Further roots are named by what was read: the targets of
//! links, the environments that a file lists. Whoever takes the snapshot reads
//! the roots, asks again, and stops when nothing new is named.

use crate::conda::{
    conda_bin_names, conda_rc_search_paths, condarc_entries, get_conda_bin_names,
    get_conda_rc_search_paths, get_condarc_entries, get_install_directory_of_binary,
    get_installation_of_executable, get_known_conda_install_locations, get_known_conda_locations,
    install_directory_of_binary, installation_of_executable, known_conda_install_locations,
    known_conda_locations, path_list_separator, push_under_home, push_var,
};
use crate::filesystem::{EntryView, FileSystem};
use crate::homebrew::{get_sys_prefix, sys_prefix};
use crate::known::{Environment, Known, Platform};
use crate::lists::select;
use crate::paths::{
    ancestor, ancestor_of, file_name, file_name_of, join, join_path, parent, parent_of,
    strip_trailing, strip_trailing_of,
};
use crate::pyenv::{get_home_pyenv_dir, get_pyenv_dir, home_pyenv_dir, pyenv_dir};
use crate::text::{
    ends_with, ends_with_str, lines, lines_of, list_contains, pieces, same_str, split_on_char,
    trim, trim_str,
};
use vstd::prelude::*;

verus! {

/// A path to read, with the number of levels below it that are read too.
#[derive(Debug, PartialEq, Eq)]
pub struct Root {
    pub path: String,
    pub depth: usize,
}

pub struct RootView {
    pub path: Seq<char>,
    pub depth: nat,
}

impl DeepView for Root {
    type V = RootView;

    open spec fn deep_view(&self) -> RootView {
        RootView { path: self.path@, depth: self.depth as nat }
    }
}

/// Each of `paths` as a root of `depth`.
pub open spec fn roots_at(paths: Seq<Seq<char>>, depth: nat) -> Seq<RootView> {
    Seq::new(paths.len(), |i: int| RootView { path: paths[i], depth })
}

/// The text of a file named `name` is read wherever the file is met.
pub open spec fn wanted_name(name: Seq<char>) -> bool {
    name == "pyvenv.cfg"@ || name == "environments.txt"@ || name == ".condarc"@ || name
        == "condarc"@ || name == "history"@ || name == ".project"@ || name == "patchlevel.h"@
        || name == ".version"@
}

/// The text of the file at `path` is read wherever the file is met: it has
/// one of the names that discovery reads, or it records a package of Conda.
pub open spec fn wants_contents(path: Seq<char>) -> bool {
    match file_name(path) {
        None => false,
        Some(name) => wanted_name(name) || (ends_with(name, ".json"@) && match parent(path) {
            Some(directory) => file_name(directory) == Some("conda-meta"@),
            None => false,
        }),
    }
}

pub fn get_wants_contents(path: &str) -> (r: bool)
    ensures
        r == wants_contents(path@),
{
    let name = match file_name_of(path) {
        Some(name) => name,
        None => { return false; },
    };
    let name = name.as_str();
    if same_str(name, "pyvenv.cfg") || same_str(name, "environments.txt") || same_str(
        name,
        ".condarc",
    ) || same_str(name, "condarc") || same_str(name, "history") || same_str(name, ".project")
        || same_str(name, "patchlevel.h") || same_str(name, ".version") {
        return true;
    }
    if !ends_with_str(name, ".json") {
        return false;
    }
    match parent_of(path) {
        Some(directory) => match file_name_of(directory.as_str()) {
            Some(found) => same_str(found.as_str(), "conda-meta"),
            None => false,
        },
        None => false,
    }
}

/// The directories that `PATH` names.
pub open spec fn path_directories(known: Known) -> Seq<Seq<char>> {
    match known.var("PATH"@) {
        Some(paths) => pieces(paths, path_list_separator(known.platform)),
        None => seq![],
    }
}

/// The directories of pyenv: the one that the variables name, the one above
/// it, and the one under the user's home.
pub open spec fn pyenv_directories(known: Known) -> Seq<Seq<char>> {
    let named = match pyenv_dir(known) {
        Some(directory) => match parent(directory) {
            Some(above) => seq![directory, join(above, ".version"@)],
            None => seq![directory],
        },
        None => seq![],
    };
    match home_pyenv_dir(known) {
        Some(directory) => named.push(directory),
        None => named,
    }
}

/// The `bin` directories of Homebrew.
pub open spec fn homebrew_directories(known: Known) -> Seq<Seq<char>> {
    let fixed = seq!["/home/linuxbrew/.linuxbrew/bin"@, "/opt/homebrew/bin"@, "/usr/local/bin"@];
    match known.var("HOMEBREW_PREFIX"@) {
        Some(prefix) => fixed.push(join(prefix, "bin"@)),
        None => fixed,
    }
}

/// The directories in which virtual environments are kept.
pub open spec fn virtualenv_directories(known: Known) -> Seq<Seq<char>> {
    let a = push_var(seq![], known, "WORKON_HOME"@);
    let b = push_under_home(a, known, "envs"@);
    let c = push_under_home(b, known, ".direnv"@);
    let d = push_under_home(c, known, ".venvs"@);
    let e = push_under_home(d, known, ".virtualenvs"@);
    let f = push_under_home(e, known, ".local/share/virtualenvs"@);
    let g = push_under_home(f, known, "virtualenvs"@);
    push_under_home(g, known, "Envs"@)
}

/// The single paths under the user's home that discovery reads.
pub open spec fn home_paths(known: Known) -> Seq<Seq<char>> {
    push_under_home(seq![], known, ".conda/environments.txt"@)
}

/// The directory of the launchers of the Windows store.
pub open spec fn launcher_directories(known: Known) -> Seq<Seq<char>> {
    push_under_home(seq![], known, "AppData/Local/Microsoft/WindowsApps"@)
}

/// The roots that follow from the environment alone.
pub open spec fn first_roots(known: Known) -> Seq<RootView> {
    roots_at(known.search_locations, 1) + roots_at(path_directories(known), 1) + roots_at(
        known_conda_locations(known),
        1,
    ) + roots_at(known_conda_install_locations(known), 4) + roots_at(
        conda_rc_search_paths(known),
        0,
    ) + roots_at(home_paths(known), 0) + roots_at(pyenv_directories(known), 5) + roots_at(
        homebrew_directories(known),
        1,
    ) + roots_at(virtualenv_directories(known), 3) + roots_at(launcher_directories(known), 1)
}

/// Adds each of `paths` to `roots` as a root of `depth`.
pub fn add_roots(roots: &mut Vec<Root>, paths: &Vec<String>, depth: usize)
    ensures
        final(roots).deep_view() == old(roots).deep_view() + roots_at(
            paths.deep_view(),
            depth as nat,
        ),
{
    let ghost base = roots.deep_view();
    let ghost all = roots_at(paths.deep_view(), depth as nat);
    let mut i: usize = 0;
    assert(roots.deep_view() =~= base + all.take(0));
    while i < paths.len()
        invariant
            i <= paths.len(),
            all == roots_at(paths.deep_view(), depth as nat),
            roots.deep_view() == base + all.take(i as int),
        decreases paths.len() - i,
    {
        let ghost before = roots.deep_view();
        let root = Root { path: paths[i].clone(), depth };
        roots.push(root);
        assert(roots.deep_view() =~= before.push(all[i as int]));
        i = i + 1;
        assert(roots.deep_view() =~= base + all.take(i as int));
    }
    assert(all.take(all.len() as int) == all);
}

/// `child` under the user's home, where the home is known.
fn under_home<E: Environment>(environment: &E, child: &str) -> (r: Vec<String>)
    ensures
        r.deep_view() == push_under_home(seq![], environment.known(), child@),
{
    let mut out: Vec<String> = Vec::new();
    assert(out.deep_view() =~= Seq::<Seq<char>>::empty());
    match environment.get_user_home() {
        Some(home) => {
            let path = join_path(home.as_str(), child);
            out.push(path);
            assert(out.deep_view() =~= seq![path@]);
        },
        None => {},
    }
    out
}

/// Adds `child` under the user's home to `list`, where the home is known.
fn add_under_home<E: Environment>(list: &mut Vec<String>, environment: &E, child: &str)
    ensures
        final(list).deep_view() == push_under_home(
            old(list).deep_view(),
            environment.known(),
            child@,
        ),
{
    match environment.get_user_home() {
        Some(home) => {
            let ghost before = list.deep_view();
            let path = join_path(home.as_str(), child);
            list.push(path);
            assert(list.deep_view() =~= before.push(path@));
        },
        None => {},
    }
}

/// The directories of pyenv.
pub fn get_pyenv_directories<E: Environment>(environment: &E) -> (r: Vec<String>)
    ensures
        r.deep_view() == pyenv_directories(environment.known()),
{
    let mut out: Vec<String> = Vec::new();
    assert(out.deep_view() =~= Seq::<Seq<char>>::empty());
    match get_pyenv_dir(environment) {
        Some(directory) => {
            let above = parent_of(directory.as_str());
            out.push(directory);
            assert(out.deep_view() =~= seq![directory@]);
            match above {
                Some(above) => {
                    let version = join_path(above.as_str(), ".version");
                    out.push(version);
                    assert(out.deep_view() =~= seq![directory@, version@]);
                },
                None => {},
            }
        },
        None => {},
    }
    match get_home_pyenv_dir(environment) {
        Some(directory) => {
            let ghost before = out.deep_view();
            out.push(directory);
            assert(out.deep_view() =~= before.push(directory@));
        },
        None => {},
    }
    out
}

/// The `bin` directories of Homebrew.
pub fn get_homebrew_directories<E: Environment>(environment: &E) -> (r: Vec<String>)
    ensures
        r.deep_view() == homebrew_directories(environment.known()),
{
    let mut out: Vec<String> = Vec::new();
    out.push("/home/linuxbrew/.linuxbrew/bin".to_owned());
    out.push("/opt/homebrew/bin".to_owned());
    out.push("/usr/local/bin".to_owned());
    assert(out.deep_view() =~= seq![
        "/home/linuxbrew/.linuxbrew/bin"@,
        "/opt/homebrew/bin"@,
        "/usr/local/bin"@,
    ]);
    match environment.get_env_var("HOMEBREW_PREFIX".to_owned()) {
        Some(prefix) => {
            let ghost before = out.deep_view();
            let bin = join_path(prefix.as_str(), "bin");
            out.push(bin);
            assert(out.deep_view() =~= before.push(bin@));
        },
        None => {},
    }
    out
}

/// The directories in which virtual environments are kept.
pub fn get_virtualenv_directories<E: Environment>(environment: &E) -> (r: Vec<String>)
    ensures
        r.deep_view() == virtualenv_directories(environment.known()),
{
    let mut out: Vec<String> = Vec::new();
    assert(out.deep_view() =~= Seq::<Seq<char>>::empty());
    match environment.get_env_var("WORKON_HOME".to_owned()) {
        Some(value) => {
            out.push(value);
            assert(out.deep_view() =~= seq![value@]);
        },
        None => {},
    }
    add_under_home(&mut out, environment, "envs");
    add_under_home(&mut out, environment, ".direnv");
    add_under_home(&mut out, environment, ".venvs");
    add_under_home(&mut out, environment, ".virtualenvs");
    add_under_home(&mut out, environment, ".local/share/virtualenvs");
    add_under_home(&mut out, environment, "virtualenvs");
    add_under_home(&mut out, environment, "Envs");
    out
}

/// The roots that follow from the environment alone.
pub fn get_first_roots<E: Environment>(environment: &E) -> (r: Vec<Root>)
    ensures
        r.deep_view() == first_roots(environment.known()),
{
    let mut roots: Vec<Root> = Vec::new();
    assert(roots.deep_view() =~= Seq::<RootView>::empty());
    add_roots(&mut roots, &environment.get_know_global_search_locations(), 1);
    assert(roots.deep_view() =~= roots_at(environment.known().search_locations, 1));
    let on_path = match environment.get_env_var("PATH".to_owned()) {
        Some(paths) => {
            let separator = match environment.get_platform() {
                Platform::Windows => ';',
                Platform::Unix => ':',
            };
            split_on_char(paths.as_str(), separator)
        },
        None => {
            let none: Vec<String> = Vec::new();
            assert(none.deep_view() =~= Seq::<Seq<char>>::empty());
            none
        },
    };
    add_roots(&mut roots, &on_path, 1);
    add_roots(&mut roots, &get_known_conda_locations(environment), 1);
    add_roots(&mut roots, &get_known_conda_install_locations(environment), 4);
    add_roots(&mut roots, &get_conda_rc_search_paths(environment), 0);
    add_roots(&mut roots, &under_home(environment, ".conda/environments.txt"), 0);
    add_roots(&mut roots, &get_pyenv_directories(environment), 5);
    add_roots(&mut roots, &get_homebrew_directories(environment), 1);
    add_roots(&mut roots, &get_virtualenv_directories(environment), 3);
    add_roots(&mut roots, &under_home(environment, "AppData/Local/Microsoft/WindowsApps"), 1);
    roots
}

/// The roots that the target `target` of a link names: the target with what
/// lies below it, the header files of its framework, and the prefix
/// directory that Homebrew gives it.
pub open spec fn roots_of_link(target: Seq<char>) -> Seq<RootView> {
    let own = seq![RootView { path: target, depth: 3 }];
    let headers = match ancestor(target, 2) {
        Some(root) => own.push(RootView { path: join(root, "Headers"@), depth: 1 }),
        None => own,
    };
    match sys_prefix(target) {
        Some(prefix) => headers.push(RootView { path: prefix, depth: 0 }),
        None => headers,
    }
}

/// The file at `path` is a configuration file of Conda.
pub open spec fn is_conda_rc(known: Known, path: Seq<char>) -> bool {
    file_name(path) == Some(".condarc"@) || file_name(path) == Some("condarc"@)
        || conda_rc_search_paths(known).contains(path)
}

/// The roots that the text `text` of the file at `path` names: the
/// environments that `environments.txt` or a configuration file of Conda
/// lists, and the project of a Pipenv environment.
pub open spec fn roots_of_text(known: Known, path: Seq<char>, text: Seq<char>) -> Seq<RootView> {
    if file_name(path) == Some("environments.txt"@) {
        roots_at(lines(text), 4)
    } else if is_conda_rc(known, path) {
        roots_at(condarc_entries(text), 4)
    } else if file_name(path) == Some(".project"@) {
        seq![RootView { path: trim(text), depth: 1 }]
    } else {
        seq![]
    }
}

/// The `conda-meta` directories that say which version an executable at
/// `path` has.
pub open spec fn roots_of_conda_version(path: Seq<char>) -> Seq<RootView> {
    match install_directory_of_binary(path) {
        None => seq![],
        Some(directory) => {
            let own = seq![RootView { path: join(directory, "conda-meta"@), depth: 1 }];
            match parent(directory) {
                Some(above) => own.push(RootView { path: join(above, "conda-meta"@), depth: 1 }),
                None => own,
            }
        },
    }
}

/// The roots that an executable named `conda` at `path` names: the
/// installation that it belongs to, and the directories that say which
/// version it has.
pub open spec fn roots_of_conda_binary(known: Known, path: Seq<char>) -> Seq<RootView> {
    let is_conda = match file_name(path) {
        Some(name) => conda_bin_names(known.platform).contains(name),
        None => false,
    };
    if !is_conda {
        seq![]
    } else {
        match installation_of_executable(path) {
            Some(directory) => seq![RootView { path: directory, depth: 4 }]
                + roots_of_conda_version(path),
            None => roots_of_conda_version(path),
        }
    }
}

/// The roots that one entry of a snapshot names.
pub open spec fn roots_of_entry(known: Known, entry: EntryView) -> Seq<RootView> {
    let links = match entry.real_path {
        Some(target) => roots_of_link(target),
        None => seq![],
    };
    let texts = match entry.contents {
        Some(text) => roots_of_text(known, entry.path, text),
        None => seq![],
    };
    links + texts + roots_of_conda_binary(known, entry.path)
}

/// The roots that the entries of a snapshot name, entry by entry.
pub open spec fn further_roots(known: Known, disk: Seq<EntryView>) -> Seq<RootView>
    decreases disk.len(),
{
    if disk.len() == 0 {
        seq![]
    } else {
        further_roots(known, disk.drop_last()) + roots_of_entry(known, disk.last())
    }
}

/// Whether the last component of `path` is `name`.
fn is_named(path: &str, name: &str) -> (r: bool)
    ensures
        r == (file_name(path@) == Some(name@)),
{
    match file_name_of(path) {
        Some(found) => same_str(found.as_str(), name),
        None => false,
    }
}

/// Adds the roots that the target `target` of a link names.
fn add_roots_of_link(roots: &mut Vec<Root>, target: &str)
    ensures
        final(roots).deep_view() == old(roots).deep_view() + roots_of_link(target@),
{
    let mut found: Vec<Root> = Vec::new();
    found.push(Root { path: target.to_owned(), depth: 3 });
    assert(found.deep_view() =~= seq![RootView { path: target@, depth: 3 }]);
    match ancestor_of(target, 2) {
        Some(root) => {
            let ghost before = found.deep_view();
            let headers = Root { path: join_path(root.as_str(), "Headers"), depth: 1 };
            found.push(headers);
            assert(found.deep_view() =~= before.push(headers.deep_view()));
        },
        None => {},
    }
    match get_sys_prefix(target) {
        Some(prefix) => {
            let ghost before = found.deep_view();
            let root = Root { path: prefix, depth: 0 };
            found.push(root);
            assert(found.deep_view() =~= before.push(root.deep_view()));
        },
        None => {},
    }
    append_roots(roots, found);
}

/// Adds the items of `extra` to `roots`, in order.
fn append_roots(roots: &mut Vec<Root>, extra: Vec<Root>)
    ensures
        final(roots).deep_view() == old(roots).deep_view() + extra.deep_view(),
{
    let ghost base = roots.deep_view();
    let ghost all = extra.deep_view();
    let mut i: usize = 0;
    assert(roots.deep_view() =~= base + all.take(0));
    while i < extra.len()
        invariant
            i <= extra.len(),
            all == extra.deep_view(),
            roots.deep_view() == base + all.take(i as int),
        decreases extra.len() - i,
    {
        let ghost before = roots.deep_view();
        let root = Root { path: extra[i].path.clone(), depth: extra[i].depth };
        roots.push(root);
        assert(roots.deep_view() =~= before.push(all[i as int]));
        i = i + 1;
        assert(roots.deep_view() =~= base + all.take(i as int));
    }
    assert(all.take(all.len() as int) == all);
}

/// Adds the roots that the text `text` of the file at `path` names.
fn add_roots_of_text<E: Environment>(roots: &mut Vec<Root>, environment: &E, path: &str, text: &str)
    ensures
        final(roots).deep_view() == old(roots).deep_view() + roots_of_text(
            environment.known(),
            path@,
            text@,
        ),
{
    if is_named(path, "environments.txt") {
        add_roots(roots, &lines_of(text), 4);
    } else if is_named(path, ".condarc") || is_named(path, "condarc") || list_contains(
        &get_conda_rc_search_paths(environment),
        path,
    ) {
        add_roots(roots, &get_condarc_entries(text), 4);
    } else if is_named(path, ".project") {
        let ghost before = roots.deep_view();
        let root = Root { path: trim_str(text), depth: 1 };
        roots.push(root);
        assert(roots.deep_view() =~= before + seq![root.deep_view()]);
    } else {
        assert(roots.deep_view() + Seq::<RootView>::empty() =~= roots.deep_view());
    }
}

/// Adds the roots that an executable named `conda` at `path` names.
fn add_roots_of_conda_binary<E: Environment>(roots: &mut Vec<Root>, environment: &E, path: &str)
    ensures
        final(roots).deep_view() == old(roots).deep_view() + roots_of_conda_binary(
            environment.known(),
            path@,
        ),
{
    let ghost base = roots.deep_view();
    assert(base + Seq::<RootView>::empty() =~= base);
    let names = get_conda_bin_names(environment.get_platform());
    let is_conda = match file_name_of(path) {
        Some(name) => list_contains(&names, name.as_str()),
        None => false,
    };
    if !is_conda {
        return ;
    }
    let mut found: Vec<Root> = Vec::new();
    assert(found.deep_view() =~= Seq::<RootView>::empty());
    match get_installation_of_executable(path) {
        Some(directory) => {
            let root = Root { path: directory, depth: 4 };
            found.push(root);
            assert(found.deep_view() =~= seq![root.deep_view()]);
        },
        None => {},
    }
    let ghost first = found.deep_view();
    match get_install_directory_of_binary(path) {
        Some(directory) => {
            let own = Root { path: join_path(directory.as_str(), "conda-meta"), depth: 1 };
            found.push(own);
            assert(found.deep_view() =~= first + seq![own.deep_view()]);
            match parent_of(directory.as_str()) {
                Some(above) => {
                    let root = Root { path: join_path(above.as_str(), "conda-meta"), depth: 1 };
                    found.push(root);
                    assert(found.deep_view() =~= first + seq![own.deep_view()].push(
                        root.deep_view(),
                    ));
                },
                None => {},
            }
        },
        None => {
            assert(first + Seq::<RootView>::empty() =~= first);
        },
    }
    assert(Seq::<RootView>::empty() + roots_of_conda_version(path@) =~= roots_of_conda_version(
        path@,
    ));
    append_roots(roots, found);
}

/// The roots that the entries of a snapshot name.
pub fn get_further_roots<E: Environment>(environment: &E, fs: &FileSystem) -> (r: Vec<Root>)
    ensures
        r.deep_view() == further_roots(environment.known(), fs.deep_view()),
{
    let ghost known = environment.known();
    let ghost disk = fs.deep_view();
    let mut roots: Vec<Root> = Vec::new();
    let mut i: usize = 0;
    assert(roots.deep_view() =~= further_roots(known, disk.take(0)));
    while i < fs.entries.len()
        invariant
            i <= fs.entries.len(),
            known == environment.known(),
            disk == fs.deep_view(),
            roots.deep_view() == further_roots(known, disk.take(i as int)),
        decreases fs.entries.len() - i,
    {
        assert(disk.take(i + 1).drop_last() == disk.take(i as int));
        assert(disk.take(i + 1).last() == fs.entries[i as int].deep_view());
        let ghost before = roots.deep_view();
        let entry = &fs.entries[i];
        match &entry.real_path {
            Some(target) => {
                add_roots_of_link(&mut roots, target.as_str());
            },
            None => {
                assert(roots.deep_view() + Seq::<RootView>::empty() =~= roots.deep_view());
            },
        }
        match &entry.contents {
            Some(text) => {
                add_roots_of_text(&mut roots, environment, entry.path.as_str(), text.as_str());
            },
            None => {
                assert(roots.deep_view() + Seq::<RootView>::empty() =~= roots.deep_view());
            },
        }
        add_roots_of_conda_binary(&mut roots, environment, entry.path.as_str());
        assert(roots.deep_view() =~= before + roots_of_entry(known, disk[i as int]));
        i = i + 1;
    }
    assert(disk.take(disk.len() as int) == disk);
    roots
}

/// The greatest number of rounds in which roots are read. What the roots
/// of the last round name is not followed.
pub const MAX_ROUNDS: usize = 16;

/// Reading `read` has read `root`: it is the same path, read as deep or deeper.
pub open spec fn covers(read: RootView, root: RootView) -> bool {
    strip_trailing(read.path) == strip_trailing(root.path) && read.depth >= root.depth
}

/// One of the roots `read` covers `root`.
pub open spec fn is_covered(read: Seq<RootView>, root: RootView) -> bool {
    exists|i: int| 0 <= i < read.len() && covers(#[trigger] read[i], root)
}

/// The roots of `roots` that none of `read` covers, in order.
pub open spec fn uncovered(roots: Seq<RootView>, read: Seq<RootView>) -> Seq<RootView> {
    select(roots, |root: RootView| !is_covered(read, root))
}

/// The roots to read in round `round`, given the roots `read` that were read
/// in the rounds before and the snapshot `disk` that they gave. The first
/// round reads the roots that follow from the environment. Each later round
/// reads the roots that the snapshot names and that were not read. There are
/// none once `MAX_ROUNDS` rounds were made: the reading then ends.
pub open spec fn next_roots(known: Known, disk: Seq<EntryView>, read: Seq<RootView>, round: nat) -> Seq<
    RootView,
> {
    if round >= MAX_ROUNDS {
        seq![]
    } else if round == 0 {
        uncovered(first_roots(known), read)
    } else {
        uncovered(further_roots(known, disk), read)
    }
}

/// No root is asked for twice: a root to read next is covered by none that was read.
pub proof fn lemma_next_roots_are_new(
    known: Known,
    disk: Seq<EntryView>,
    read: Seq<RootView>,
    round: nat,
)
    ensures
        forall|k: int|
            0 <= k < next_roots(known, disk, read, round).len() ==> !is_covered(
                read,
                #[trigger] next_roots(known, disk, read, round)[k],
            ),
{
    crate::lists::lemma_select_members(
        first_roots(known),
        |root: RootView| !is_covered(read, root),
    );
    crate::lists::lemma_select_members(
        further_roots(known, disk),
        |root: RootView| !is_covered(read, root),
    );
}

/// Whether one of the roots `read` covers `root`.
#[verifier::loop_isolation(false)]
pub fn get_is_covered(read: &Vec<Root>, root: &Root) -> (r: bool)
    ensures
        r == is_covered(read.deep_view(), root.deep_view()),
{
    let wanted = strip_trailing_of(root.path.as_str());
    let ghost all = read.deep_view();
    let mut i: usize = 0;
    while i < read.len()
        invariant
            i <= read.len(),
            forall|j: int| 0 <= j < i ==> !covers(#[trigger] all[j], root.deep_view()),
        decreases read.len() - i,
    {
        let path = strip_trailing_of(read[i].path.as_str());
        if same_str(path.as_str(), wanted.as_str()) && read[i].depth >= root.depth {
            assert(covers(all[i as int], root.deep_view()));
            return true;
        }
        i = i + 1;
    }
    false
}

/// The roots of `roots` that none of `read` covers, in order.
pub fn get_uncovered(roots: Vec<Root>, read: &Vec<Root>) -> (r: Vec<Root>)
    ensures
        r.deep_view() == uncovered(roots.deep_view(), read.deep_view()),
{
    let ghost all = roots.deep_view();
    let ghost keep = |root: RootView| !is_covered(read.deep_view(), root);
    let mut out: Vec<Root> = Vec::new();
    let mut i: usize = 0;
    assert(out.deep_view() =~= select(all.take(0), keep));
    while i < roots.len()
        invariant
            i <= roots.len(),
            all == roots.deep_view(),
            keep == |root: RootView| !is_covered(read.deep_view(), root),
            out.deep_view() == select(all.take(i as int), keep),
        decreases roots.len() - i,
    {
        proof {
            crate::lists::lemma_select_step(all, keep, i as int);
        }
        if !get_is_covered(read, &roots[i]) {
            let ghost before = out.deep_view();
            let root = Root { path: roots[i].path.clone(), depth: roots[i].depth };
            out.push(root);
            assert(out.deep_view() =~= before.push(all[i as int]));
        }
        i = i + 1;
    }
    assert(all.take(all.len() as int) == all);
    out
}

/// The roots to read in round `round`; none where the reading is to end.
pub fn get_next_roots<E: Environment>(
    environment: &E,
    fs: &FileSystem,
    read: &Vec<Root>,
    round: usize,
) -> (r: Vec<Root>)
    ensures
        r.deep_view() == next_roots(
            environment.known(),
            fs.deep_view(),
            read.deep_view(),
            round as nat,
        ),
{
    if round >= MAX_ROUNDS {
        let none: Vec<Root> = Vec::new();
        assert(none.deep_view() =~= Seq::<RootView>::empty());
        none
    } else if round == 0 {
        get_uncovered(get_first_roots(environment), read)
    } else {
        get_uncovered(get_further_roots(environment, fs), read)
    }
}

} // verus!

//! Pythons on the search path that no other source claims.

use crate::filesystem::{EntryView, FileSystem};
use crate::known::{Environment, Known};
use crate::locator::{Locator, LocatorResult, LocatorResultView};
use crate::messaging::{
    new_environment, EnvManagerView, PythonEnvironment, PythonEnvironmentCategory,
    PythonEnvironmentView,
};
use crate::paths::{
    ancestor, ancestor_of, file_name, file_name_of, is_under, is_under_path, join, join_path,
    parent, parent_of,
};
use crate::pattern::{first_group, regex_capture};
use crate::pyenv::direct_command;
use crate::text::{
    char_count, clone_list, clone_option, find_position, list_contains, position, same_str,
};
use crate::utils::{
    all_python_binaries, byte_length, find_all_python_binaries_in_path,
    get_shortest_python_executable, get_version_from_header_files, get_version_using_pyvenv_cfg,
    is_symlinked_python_executable, shortest_python_executable, symlinked_python_executable,
    version_from_header_files, version_using_pyvenv_cfg, PythonEnv, PythonEnvView,
};
use vstd::prelude::*;

verus! {

/// The directory in which the installers of python.org keep their versions on a Mac.
pub open spec fn framework_versions() -> Seq<char> {
    "/Library/Frameworks/Python.framework/Versions"@
}

/// The pattern of the version in a real path under that directory.
pub open spec fn framework_version_pattern() -> Seq<char> {
    "/Versions/((\\d+\\.?)*)/bin"@
}

/// The version of a framework Python, given the version that its real path
/// names: what its header files say, else the version of the path where that
/// is not empty, else what was known before.
pub open spec fn framework_version(
    disk: Seq<EntryView>,
    symlink: Seq<char>,
    before: Option<Seq<char>>,
    in_path: Option<Seq<char>>,
) -> Option<Seq<char>> {
    let from_path = match in_path {
        Some(version) => if version.len() > 0 {
            Some(version)
        } else {
            before
        },
        None => before,
    };
    match ancestor(symlink, 2) {
        Some(root) => match version_from_header_files(disk, root) {
            Some(version) => Some(version),
            None => from_path,
        },
        None => from_path,
    }
}

/// The record of the candidate `env` as a Python of the system, given the real
/// path of its executable where that is a link, and the version that the real
/// path names.
pub open spec fn resolved_with(
    disk: Seq<EntryView>,
    env: PythonEnvView,
    symlink: Option<Seq<char>>,
    in_path: Option<Seq<char>>,
) -> PythonEnvironmentView {
    let plain = new_environment(
        None,
        None,
        Some(env.executable),
        PythonEnvironmentCategory::System,
        env.version,
        env.path,
        None,
        Some(seq![env.executable]),
    );
    match symlink {
        None => plain,
        Some(symlink) => if is_under(symlink, framework_versions()) {
            PythonEnvironmentView {
                symlinks: Some(seq![symlink, env.executable]),
                version: framework_version(disk, symlink, env.version, in_path),
                env_path: match ancestor(symlink, 2) {
                    Some(root) => Some(root),
                    None => env.path,
                },
                ..plain
            }
        } else {
            PythonEnvironmentView { symlinks: Some(seq![symlink, env.executable]), ..plain }
        },
    }
}

/// The record of the candidate `env` as a Python of the system. Every
/// candidate is one.
pub open spec fn resolved(disk: Seq<EntryView>, env: PythonEnvView) -> PythonEnvironmentView {
    resolved_with(
        disk,
        env,
        symlinked_python_executable(disk, env.executable),
        match symlinked_python_executable(disk, env.executable) {
            Some(symlink) => regex_capture(framework_version_pattern(), symlink, 1),
            None => None,
        },
    )
}

/// The list made of `a` and `b`.
pub fn pair(a: &str, b: &str) -> (r: Vec<String>)
    ensures
        r.deep_view() == seq![a@, b@],
{
    let mut out: Vec<String> = Vec::new();
    out.push(a.to_owned());
    out.push(b.to_owned());
    assert(out.deep_view() =~= seq![a@, b@]);
    out
}

/// The record of the candidate `env` as a Python of the system, given the real
/// path of its executable where that is a link, and the version that the real
/// path names.
pub fn resolve_with(
    fs: &FileSystem,
    env: &PythonEnv,
    symlink: Option<String>,
    in_path: Option<String>,
) -> (r: PythonEnvironment)
    ensures
        r.deep_view() == resolved_with(
            fs.deep_view(),
            env.deep_view(),
            symlink.deep_view(),
            in_path.deep_view(),
        ),
{
    let exe = env.executable.as_str();
    let mut record = PythonEnvironment::new(
        None,
        None,
        Some(exe.to_owned()),
        PythonEnvironmentCategory::System,
        clone_option(&env.version),
        clone_option(&env.path),
        None,
        Some(direct_command(exe)),
    );
    match symlink {
        None => {},
        Some(symlink) => {
            record.symlinks = Some(pair(symlink.as_str(), exe));
            if is_under_path(symlink.as_str(), "/Library/Frameworks/Python.framework/Versions") {
                match in_path {
                    Some(version) => {
                        if char_count(version.as_str()) > 0 {
                            record.version = Some(version);
                        }
                    },
                    None => {},
                }
                match ancestor_of(symlink.as_str(), 2) {
                    Some(root) => {
                        match get_version_from_header_files(fs, root.as_str()) {
                            Some(version) => {
                                record.version = Some(version);
                            },
                            None => {},
                        }
                        record.env_path = Some(root);
                    },
                    None => {},
                }
            }
        },
    }
    record
}

/// The paths of `paths` ordered by length in bytes, shorter first; two paths
/// of one length keep their order.
pub open spec fn sorted_by_length(paths: Seq<Seq<char>>) -> Seq<Seq<char>>
    decreases paths.len(),
{
    if paths.len() == 0 {
        seq![]
    } else {
        insert_by_length(sorted_by_length(paths.drop_last()), paths.last())
    }
}

/// The number of leading items of `sorted` that are not longer than `path`.
pub open spec fn not_longer_prefix(sorted: Seq<Seq<char>>, path: Seq<char>) -> nat
    decreases sorted.len(),
{
    if sorted.len() > 0 && byte_length(sorted[0]) <= byte_length(path) {
        1 + not_longer_prefix(sorted.subrange(1, sorted.len() as int), path)
    } else {
        0
    }
}

/// `sorted` with `path` put in behind the leading items that are not longer.
pub open spec fn insert_by_length(sorted: Seq<Seq<char>>, path: Seq<char>) -> Seq<Seq<char>> {
    let k = not_longer_prefix(sorted, path) as int;
    sorted.subrange(0, k) + seq![path] + sorted.subrange(k, sorted.len() as int)
}

/// No item of `paths` is longer than one behind it.
pub open spec fn ordered_by_length(paths: Seq<Seq<char>>) -> bool {
    forall|i: int, j: int|
        0 <= i <= j < paths.len() ==> byte_length(#[trigger] paths[i]) <= byte_length(
            #[trigger] paths[j],
        )
}

proof fn lemma_not_longer_prefix(sorted: Seq<Seq<char>>, path: Seq<char>)
    ensures
        not_longer_prefix(sorted, path) <= sorted.len(),
        forall|j: int|
            0 <= j < not_longer_prefix(sorted, path) ==> byte_length(#[trigger] sorted[j])
                <= byte_length(path),
        not_longer_prefix(sorted, path) < sorted.len() ==> byte_length(
            sorted[not_longer_prefix(sorted, path) as int],
        ) > byte_length(path),
    decreases sorted.len(),
{
    if sorted.len() > 0 && byte_length(sorted[0]) <= byte_length(path) {
        let rest = sorted.subrange(1, sorted.len() as int);
        lemma_not_longer_prefix(rest, path);
        assert forall|j: int| 0 <= j < not_longer_prefix(sorted, path) implies byte_length(
            #[trigger] sorted[j],
        ) <= byte_length(path) by {
            if j > 0 {
                assert(rest[j - 1] == sorted[j]);
            }
        }
        if not_longer_prefix(sorted, path) < sorted.len() {
            assert(rest[not_longer_prefix(rest, path) as int] == sorted[not_longer_prefix(
                sorted,
                path,
            ) as int]);
        }
    }
}

/// Sorting orders and loses nothing: the result of `sorted_by_length` is
/// ordered by length and holds the paths that were sorted, each as often as
/// it was there.
pub proof fn lemma_sorted_by_length(paths: Seq<Seq<char>>)
    ensures
        ordered_by_length(sorted_by_length(paths)),
        sorted_by_length(paths).len() == paths.len(),
        sorted_by_length(paths).to_multiset() == paths.to_multiset(),
    decreases paths.len(),
{
    if paths.len() == 0 {
        assert(sorted_by_length(paths) =~= paths);
    } else {
        let before = sorted_by_length(paths.drop_last());
        let path = paths.last();
        lemma_sorted_by_length(paths.drop_last());
        lemma_not_longer_prefix(before, path);
        let k = not_longer_prefix(before, path) as int;
        let after = insert_by_length(before, path);
        assert(after =~= before.insert(k, path));
        vstd::seq_lib::to_multiset_insert(before, k, path);
        assert(paths =~= paths.drop_last().push(path));
        vstd::seq_lib::to_multiset_build(paths.drop_last(), path);
        assert forall|i: int, j: int| 0 <= i <= j < after.len() implies byte_length(
            #[trigger] after[i],
        ) <= byte_length(#[trigger] after[j]) by {
            if i < k {
                assert(after[i] == before[i]);
            } else if i > k {
                assert(after[i] == before[i - 1]);
            }
            if j < k {
                assert(after[j] == before[j]);
            } else if j > k {
                assert(after[j] == before[j - 1]);
                assert(byte_length(before[k]) <= byte_length(before[j - 1]));
            }
        }
    }
}

/// The number of leading items of `sorted` that are not longer than `path`.
fn count_not_longer(sorted: &Vec<String>, path: &str) -> (r: usize)
    ensures
        r == not_longer_prefix(sorted.deep_view(), path@),
        r <= sorted.len(),
{
    let ghost all = sorted.deep_view();
    proof {
        lemma_not_longer_prefix(all, path@);
    }
    let wanted = path.as_bytes().len();
    let mut k: usize = 0;
    while k < sorted.len() && sorted[k].as_str().as_bytes().len() <= wanted
        invariant
            k <= sorted.len(),
            all == sorted.deep_view(),
            wanted == byte_length(path@),
            forall|j: int| 0 <= j < k ==> byte_length(#[trigger] all[j]) <= byte_length(path@),
        decreases sorted.len() - k,
    {
        k = k + 1;
    }
    proof {
        let n = not_longer_prefix(all, path@);
        if n < k {
            assert(byte_length(all[n as int]) <= byte_length(path@));
        }
        if n > k {
            assert(byte_length(all[k as int]) <= byte_length(path@));
        }
    }
    k
}

/// The paths of `paths` ordered by length, shorter first.
pub fn sort_by_length(paths: &Vec<String>) -> (r: Vec<String>)
    ensures
        r.deep_view() == sorted_by_length(paths.deep_view()),
        ordered_by_length(r.deep_view()),
        r.deep_view().to_multiset() == paths.deep_view().to_multiset(),
{
    let ghost all = paths.deep_view();
    proof {
        lemma_sorted_by_length(all);
    }
    let mut out: Vec<String> = Vec::new();
    let mut i: usize = 0;
    assert(out.deep_view() =~= sorted_by_length(all.take(0)));
    while i < paths.len()
        invariant
            i <= paths.len(),
            all == paths.deep_view(),
            out.deep_view() == sorted_by_length(all.take(i as int)),
        decreases paths.len() - i,
    {
        assert(all.take(i + 1).drop_last() == all.take(i as int));
        assert(all.take(i + 1).last() == paths[i as int]@);
        let ghost before = out.deep_view();
        let k = count_not_longer(&out, paths[i].as_str());
        out.insert(k, paths[i].clone());
        assert(out.deep_view() =~= insert_by_length(before, paths[i as int]@));
        i = i + 1;
    }
    assert(all.take(all.len() as int) == all);
    out
}

/// The real file behind the executable `full_path`: the path itself where a
/// `pyvenv.cfg` gives it a version or where it is no link, else where the
/// link leads.
pub open spec fn real_file(disk: Seq<EntryView>, full_path: Seq<char>) -> Seq<char> {
    match version_using_pyvenv_cfg(disk, full_path) {
        Some(_) => full_path,
        None => match symlinked_python_executable(disk, full_path) {
            Some(target) => target,
            None => full_path,
        },
    }
}

/// The other names of the executable `full_path` that are known when it is
/// first met: its real file and itself, where the two differ.
pub open spec fn first_aliases(disk: Seq<EntryView>, full_path: Seq<char>) -> Option<Seq<Seq<char>>> {
    if real_file(disk, full_path) != full_path {
        Some(seq![real_file(disk, full_path), full_path])
    } else {
        None
    }
}

/// The directory that most likely owns the executable `executable`: the
/// directory that holds it, or the one above where that one is `Scripts`.
pub open spec fn guessed_env_path(executable: Seq<char>) -> Option<Seq<char>> {
    match parent(executable) {
        None => None,
        Some(directory) => match file_name(directory) {
            None => None,
            Some(name) => if name == "Scripts"@ {
                parent(directory)
            } else {
                Some(directory)
            },
        },
    }
}

/// The directory that most likely owns the executable `executable`.
pub fn get_env_path(executable: &str) -> (r: Option<String>)
    ensures
        r.deep_view() == guessed_env_path(executable@),
{
    let directory = match parent_of(executable) {
        Some(directory) => directory,
        None => { return None; },
    };
    let name = match file_name_of(directory.as_str()) {
        Some(name) => name,
        None => { return None; },
    };
    if same_str(name.as_str(), "Scripts") {
        parent_of(directory.as_str())
    } else {
        Some(directory)
    }
}

/// The record of the executable `full_path` when it is first met. It is
/// shown by the shortest of its names.
pub open spec fn first_record(disk: Seq<EntryView>, full_path: Seq<char>) -> PythonEnvironmentView {
    let base = resolved(
        disk,
        PythonEnvView {
            executable: full_path,
            path: guessed_env_path(full_path),
            version: version_using_pyvenv_cfg(disk, full_path),
        },
    );
    PythonEnvironmentView {
        python_executable_path: shortest_python_executable(
            first_aliases(disk, full_path),
            base.python_executable_path,
        ),
        symlinks: first_aliases(disk, full_path),
        ..base
    }
}

/// `aliases` with `path` behind it, where it is not among them.
pub open spec fn with_path(aliases: Seq<Seq<char>>, path: Seq<char>) -> Seq<Seq<char>> {
    if aliases.contains(path) {
        aliases
    } else {
        aliases.push(path)
    }
}

/// `record` with `full_path` as one more name of its real file `target`. The
/// names that the record had stay, and it is shown by the shortest of all.
pub open spec fn with_alias(record: PythonEnvironmentView, target: Seq<char>, full_path: Seq<char>) -> PythonEnvironmentView {
    let aliases = match record.symlinks {
        Some(aliases) => with_path(aliases, full_path),
        None => seq![target, full_path],
    };
    PythonEnvironmentView {
        python_executable_path: shortest_python_executable(
            Some(aliases),
            record.python_executable_path,
        ),
        symlinks: Some(aliases),
        ..record
    }
}

/// The records of a walk along the search path, each with its real file.
pub struct Sweep {
    pub records: Seq<PythonEnvironmentView>,
    pub reals: Seq<Seq<char>>,
}

/// `sweep`, once the executable `full_path` has been looked at. An
/// executable whose real file has a record becomes a name of that record, where
/// it is a link; any other gets a record of its own.
pub open spec fn sweep_step(disk: Seq<EntryView>, full_path: Seq<char>, sweep: Sweep) -> Sweep {
    let target = real_file(disk, full_path);
    match position(sweep.reals, target) {
        Some(i) => if target != full_path && 0 <= i < sweep.records.len() {
            Sweep {
                records: sweep.records.update(i, with_alias(sweep.records[i], target, full_path)),
                ..sweep
            }
        } else {
            sweep
        },
        None => Sweep {
            records: sweep.records.push(first_record(disk, full_path)),
            reals: sweep.reals.push(target),
        },
    }
}

/// `start`, once the executables `paths` have been looked at, in order.
pub open spec fn sweep(disk: Seq<EntryView>, paths: Seq<Seq<char>>, start: Sweep) -> Sweep
    decreases paths.len(),
{
    if paths.len() == 0 {
        start
    } else {
        sweep_step(disk, paths.last(), sweep(disk, paths.drop_last(), start))
    }
}

/// The directory of the launchers of the Windows store under `home`.
pub open spec fn windows_apps(home: Seq<char>) -> Seq<char> {
    join(home, "AppData/Local/Microsoft/WindowsApps"@)
}

/// The interpreters in the directories `locations`, directory by directory,
/// without the directories under `apps_path`.
pub open spec fn executables_in(
    disk: Seq<EntryView>,
    platform: crate::known::Platform,
    locations: Seq<Seq<char>>,
    apps_path: Seq<char>,
) -> Seq<Seq<char>>
    decreases locations.len(),
{
    if locations.len() == 0 {
        seq![]
    } else {
        executables_in(disk, platform, locations.drop_last(), apps_path) + if is_under(
            locations.last(),
            apps_path,
        ) {
            seq![]
        } else {
            all_python_binaries(disk, platform, locations.last())
        }
    }
}

/// The Pythons of the search path: one record for each real file, found by
/// walking the interpreters of the searched directories from the shortest
/// path to the longest. There is nothing where the user's home is unknown.
pub open spec fn found(known: Known, disk: Seq<EntryView>) -> Option<LocatorResultView> {
    match known.home {
        None => None,
        Some(home) => {
            let records = sweep(
                disk,
                sorted_by_length(
                    executables_in(
                        disk,
                        known.platform,
                        known.search_locations,
                        windows_apps(home),
                    ),
                ),
                Sweep { records: seq![], reals: seq![] },
            ).records;
            if records.len() == 0 {
                None
            } else {
                Some(LocatorResultView { managers: seq![], environments: records })
            }
        },
    }
}

/// A walk along the search path adds no manager.
pub proof fn lemma_sweep_without_managers(disk: Seq<EntryView>, paths: Seq<Seq<char>>, start: Sweep)
    requires
        forall|k: int|
            0 <= k < start.records.len() ==> crate::locator::unmanaged(#[trigger] start.records[k]),
    ensures
        forall|k: int|
            0 <= k < sweep(disk, paths, start).records.len() ==> crate::locator::unmanaged(
                #[trigger] sweep(disk, paths, start).records[k],
            ),
    decreases paths.len(),
{
    if paths.len() > 0 {
        lemma_sweep_without_managers(disk, paths.drop_last(), start);
        let sofar = sweep(disk, paths.drop_last(), start);
        let after = sweep(disk, paths, start);
        assert forall|k: int| 0 <= k < after.records.len() implies crate::locator::unmanaged(
            #[trigger] after.records[k],
        ) by {
            if k < sofar.records.len() {
                assert(crate::locator::unmanaged(sofar.records[k]));
            }
        }
    }
}

/// The search path holds no manager of environments: what it gives holds none.
pub proof fn lemma_found_without_managers(known: Known, disk: Seq<EntryView>)
    ensures
        crate::locator::without_managers(found(known, disk)),
{
    match known.home {
        None => {},
        Some(home) => {
            lemma_sweep_without_managers(
                disk,
                sorted_by_length(
                    executables_in(
                        disk,
                        known.platform,
                        known.search_locations,
                        windows_apps(home),
                    ),
                ),
                Sweep { records: seq![], reals: seq![] },
            );
        },
    }
}

/// The real file behind the executable `full_path`.
pub fn get_real_file(fs: &FileSystem, full_path: &str) -> (r: String)
    ensures
        r@ == real_file(fs.deep_view(), full_path@),
{
    match get_version_using_pyvenv_cfg(fs, full_path) {
        Some(_) => full_path.to_owned(),
        None => match is_symlinked_python_executable(fs, full_path) {
            Some(target) => target,
            None => full_path.to_owned(),
        },
    }
}

/// `record` with `full_path` as one more name of its real file `target`.
pub fn add_alias(record: &PythonEnvironment, target: &str, full_path: &str) -> (r:
    PythonEnvironment)
    ensures
        r.deep_view() == with_alias(record.deep_view(), target@, full_path@),
{
    let aliases = match &record.symlinks {
        Some(aliases) => {
            let mut aliases = clone_list(aliases);
            if !list_contains(&aliases, full_path) {
                let ghost before = aliases.deep_view();
                aliases.push(full_path.to_owned());
                assert(aliases.deep_view() =~= before.push(full_path@));
            }
            aliases
        },
        None => pair(target, full_path),
    };
    let symlinks = Some(aliases);
    let mut updated = record.clone();
    updated.python_executable_path = get_shortest_python_executable(
        &symlinks,
        &record.python_executable_path,
    );
    updated.symlinks = symlinks;
    updated
}

/// The Python-on-the-search-path source.
pub struct PythonOnPath<'a, E: Environment> {
    pub environment: &'a E,
    pub fs: &'a FileSystem,
}

impl<'a, E: Environment> PythonOnPath<'a, E> {
    pub fn with(environment: &'a E, fs: &'a FileSystem) -> (r: PythonOnPath<'a, E>)
        ensures
            r.environment == environment,
            r.fs == fs,
    {
        PythonOnPath { environment, fs }
    }

    /// The record of the executable `full_path` when it is first met.
    fn first_record_of(&self, full_path: &str) -> (r: PythonEnvironment)
        ensures
            r.deep_view() == first_record(self.fs.deep_view(), full_path@),
    {
        let version = get_version_using_pyvenv_cfg(self.fs, full_path);
        let target = get_real_file(self.fs, full_path);
        let symlinks = if !same_str(target.as_str(), full_path) {
            Some(pair(target.as_str(), full_path))
        } else {
            None
        };
        let candidate = PythonEnv::new(full_path.to_owned(), get_env_path(full_path), version);
        let mut record = match self.resolve(&candidate) {
            Some(record) => record,
            None => PythonEnvironment::default(),
        };
        record.python_executable_path = get_shortest_python_executable(
            &symlinks,
            &record.python_executable_path,
        );
        record.symlinks = symlinks;
        record
    }

    /// The interpreters in the searched directories, without the launchers
    /// of the Windows store.
    fn executables(&self, apps_path: &str) -> (r: Vec<String>)
        ensures
            r.deep_view() == executables_in(
                self.fs.deep_view(),
                self.environment.known().platform,
                self.environment.known().search_locations,
                apps_path@,
            ),
    {
        let platform = self.environment.get_platform();
        let locations = self.environment.get_know_global_search_locations();
        let ghost disk = self.fs.deep_view();
        let ghost all = locations.deep_view();
        let mut out: Vec<String> = Vec::new();
        let mut i: usize = 0;
        assert(out.deep_view() =~= executables_in(disk, platform, all.take(0), apps_path@));
        while i < locations.len()
            invariant
                i <= locations.len(),
                disk == self.fs.deep_view(),
                all == locations.deep_view(),
                out.deep_view() == executables_in(disk, platform, all.take(i as int), apps_path@),
            decreases locations.len() - i,
        {
            assert(all.take(i + 1).drop_last() == all.take(i as int));
            assert(all.take(i + 1).last() == locations[i as int]@);
            if !is_under_path(locations[i].as_str(), apps_path) {
                let found = find_all_python_binaries_in_path(
                    self.fs,
                    platform,
                    locations[i].as_str(),
                );
                crate::conda::append_list(&mut out, &found);
            } else {
                assert(out.deep_view() + Seq::<Seq<char>>::empty() =~= out.deep_view());
            }
            i = i + 1;
        }
        assert(all.take(all.len() as int) == all);
        out
    }
}

impl<'a, E: Environment> Locator for PythonOnPath<'a, E> {
    fn resolve(&self, env: &PythonEnv) -> (r: Option<PythonEnvironment>)
        ensures
            r.deep_view() == Some(resolved(self.fs.deep_view(), env.deep_view())),
    {
        let symlink = is_symlinked_python_executable(self.fs, env.executable.as_str());
        let in_path = match &symlink {
            Some(symlink) => first_group("/Versions/((\\d+\\.?)*)/bin", symlink.as_str()),
            None => None,
        };
        Some(resolve_with(self.fs, env, symlink, in_path))
    }

    fn find(&mut self) -> (r: Option<LocatorResult>)
        ensures
            r.deep_view() == found(old(self).environment.known(), old(self).fs.deep_view()),
            final(self).environment == old(self).environment,
            final(self).fs == old(self).fs,
    {
        let home = match self.environment.get_user_home() {
            Some(home) => home,
            None => { return None; },
        };
        let apps_path = join_path(home.as_str(), "AppData/Local/Microsoft/WindowsApps");
        let unsorted = self.executables(apps_path.as_str());
        let python_executables = sort_by_length(&unsorted);
        let ghost disk = self.fs.deep_view();
        let ghost all = python_executables.deep_view();
        let ghost start = Sweep { records: seq![], reals: seq![] };
        let mut records: Vec<PythonEnvironment> = Vec::new();
        let mut reals: Vec<String> = Vec::new();
        assert(records.deep_view() =~= Seq::<PythonEnvironmentView>::empty());
        assert(reals.deep_view() =~= Seq::<Seq<char>>::empty());
        let mut i: usize = 0;
        while i < python_executables.len()
            invariant
                i <= python_executables.len(),
                disk == self.fs.deep_view(),
                all == python_executables.deep_view(),
                *self == *old(self),
                (Sweep { records: records.deep_view(), reals: reals.deep_view() }) == sweep(
                    disk,
                    all.take(i as int),
                    start,
                ),
            decreases python_executables.len() - i,
        {
            assert(all.take(i + 1).drop_last() == all.take(i as int));
            assert(all.take(i + 1).last() == python_executables[i as int]@);
            let full_path = python_executables[i].as_str();
            let target = get_real_file(self.fs, full_path);
            match find_position(&reals, target.as_str()) {
                Some(k) => {
                    if !same_str(target.as_str(), full_path) && k < records.len() {
                        let ghost before = records.deep_view();
                        let updated = add_alias(&records[k], target.as_str(), full_path);
                        records.set(k, updated);
                        assert(records.deep_view() =~= before.update(
                            k as int,
                            updated.deep_view(),
                        ));
                    }
                },
                None => {
                    let ghost before = records.deep_view();
                    let ghost reals_before = reals.deep_view();
                    let record = self.first_record_of(full_path);
                    records.push(record);
                    reals.push(target);
                    assert(records.deep_view() =~= before.push(record.deep_view()));
                    assert(reals.deep_view() =~= reals_before.push(target@));
                },
            }
            i = i + 1;
        }
        assert(all.take(all.len() as int) == all);
        if records.len() == 0 {
            None
        } else {
            let r = LocatorResult { managers: Vec::new(), environments: records };
            assert(r.deep_view().managers =~= Seq::<EnvManagerView>::empty());
            Some(r)
        }
    }
}

} // verus!

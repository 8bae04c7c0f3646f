//! The directories in which virtual environments are commonly kept.

use crate::filesystem::{exists_at, EntryView, FileSystem};
use crate::known::{Environment, Known};
use crate::paths::{join, join_path};
use crate::utils::{list_python_environments, python_environments_in, PythonEnv, PythonEnvView};
use crate::virtualenvwrapper::{get_work_on_home_variable, work_on_home_variable};
use vstd::prelude::*;

verus! {

/// `list`, with `child` under the user's home behind it, where it is there.
pub open spec fn push_existing_under_home(
    list: Seq<Seq<char>>,
    known: Known,
    disk: Seq<EntryView>,
    child: Seq<char>,
) -> Seq<Seq<char>> {
    match known.home {
        Some(home) => if exists_at(disk, join(home, child)) {
            list.push(join(home, child))
        } else {
            list
        },
        None => list,
    }
}

/// The directories in which virtual environments are kept: the one that
/// `WORKON_HOME` names, then those under the user's home that are there.
pub open spec fn global_virtualenv_dirs(known: Known, disk: Seq<EntryView>) -> Seq<Seq<char>> {
    let first = match work_on_home_variable(known, disk) {
        Some(work_on_home) => seq![work_on_home],
        None => seq![],
    };
    let a = push_existing_under_home(first, known, disk, "envs"@);
    let b = push_existing_under_home(a, known, disk, ".direnv"@);
    let c = push_existing_under_home(b, known, disk, ".venvs"@);
    let d = push_existing_under_home(c, known, disk, ".virtualenvs"@);
    push_existing_under_home(d, known, disk, ".local/share/virtualenvs"@)
}

fn add_existing_under_home<E: Environment>(
    list: &mut Vec<String>,
    environment: &E,
    fs: &FileSystem,
    child: &str,
)
    ensures
        final(list).deep_view() == push_existing_under_home(
            old(list).deep_view(),
            environment.known(),
            fs.deep_view(),
            child@,
        ),
{
    match environment.get_user_home() {
        Some(home) => {
            let directory = join_path(home.as_str(), child);
            if fs.is_present(directory.as_str()) {
                let ghost before = list.deep_view();
                list.push(directory);
                assert(list.deep_view() =~= before.push(directory@));
            }
        },
        None => {},
    }
}

pub fn get_global_virtualenv_dirs<E: Environment>(environment: &E, fs: &FileSystem) -> (r: Vec<
    String,
>)
    ensures
        r.deep_view() == global_virtualenv_dirs(environment.known(), fs.deep_view()),
{
    let mut venv_dirs: Vec<String> = Vec::new();
    assert(venv_dirs.deep_view() =~= Seq::<Seq<char>>::empty());
    match get_work_on_home_variable(environment, fs) {
        Some(work_on_home) => {
            venv_dirs.push(work_on_home);
            assert(venv_dirs.deep_view() =~= seq![work_on_home@]);
        },
        None => {},
    }
    add_existing_under_home(&mut venv_dirs, environment, fs, "envs");
    add_existing_under_home(&mut venv_dirs, environment, fs, ".direnv");
    add_existing_under_home(&mut venv_dirs, environment, fs, ".venvs");
    add_existing_under_home(&mut venv_dirs, environment, fs, ".virtualenvs");
    add_existing_under_home(&mut venv_dirs, environment, fs, ".local/share/virtualenvs");
    venv_dirs
}

/// The candidates in the directories `roots`, root by root. A root that
/// cannot be listed gives none.
pub open spec fn candidates_in_all(
    disk: Seq<EntryView>,
    platform: crate::known::Platform,
    roots: Seq<Seq<char>>,
) -> Seq<PythonEnvView>
    decreases roots.len(),
{
    if roots.len() == 0 {
        seq![]
    } else {
        candidates_in_all(disk, platform, roots.drop_last()) + match python_environments_in(
            disk,
            platform,
            roots.last(),
        ) {
            Some(candidates) => candidates,
            None => seq![],
        }
    }
}

/// The candidates in the directories in which virtual environments are kept.
pub open spec fn global_virtual_envs(known: Known, disk: Seq<EntryView>) -> Seq<PythonEnvView> {
    candidates_in_all(disk, known.platform, global_virtualenv_dirs(known, disk))
}

pub fn list_global_virtual_envs<E: Environment>(environment: &E, fs: &FileSystem) -> (r: Vec<
    PythonEnv,
>)
    ensures
        r.deep_view() == global_virtual_envs(environment.known(), fs.deep_view()),
{
    let platform = environment.get_platform();
    let roots = get_global_virtualenv_dirs(environment, fs);
    let ghost disk = fs.deep_view();
    let ghost all = roots.deep_view();
    let mut python_envs: Vec<PythonEnv> = Vec::new();
    let mut i: usize = 0;
    assert(python_envs.deep_view() =~= candidates_in_all(disk, platform, all.take(0)));
    while i < roots.len()
        invariant
            i <= roots.len(),
            disk == fs.deep_view(),
            all == roots.deep_view(),
            python_envs.deep_view() == candidates_in_all(disk, platform, all.take(i as int)),
        decreases roots.len() - i,
    {
        assert(all.take(i + 1).drop_last() == all.take(i as int));
        assert(all.take(i + 1).last() == roots[i as int]@);
        let ghost before = python_envs.deep_view();
        match list_python_environments(fs, platform, roots[i].as_str()) {
            Some(mut found) => {
                let ghost extra = found.deep_view();
                let mut k: usize = 0;
                while k < found.len()
                    invariant
                        k <= found.len(),
                        extra == found.deep_view(),
                        python_envs.deep_view() == before + extra.take(k as int),
                    decreases found.len() - k,
                {
                    let ghost sofar = python_envs.deep_view();
                    let candidate = PythonEnv::new(
                        found[k].executable.clone(),
                        crate::text::clone_option(&found[k].path),
                        crate::text::clone_option(&found[k].version),
                    );
                    python_envs.push(candidate);
                    assert(python_envs.deep_view() =~= sofar.push(extra[k as int]));
                    k = k + 1;
                    assert(python_envs.deep_view() =~= before + extra.take(k as int));
                }
                assert(extra.take(extra.len() as int) == extra);
            },
            None => {
                assert(before + Seq::<PythonEnvView>::empty() =~= before);
            },
        }
        i = i + 1;
    }
    assert(all.take(all.len() as int) == all);
    python_envs
}

} // verus!

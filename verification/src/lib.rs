//! Discovery of Python interpreters and of the tools that manage them.

pub mod capture;
pub mod common_python;
pub mod conda;
pub mod filesystem;
pub mod global_virtualenvs;
pub mod homebrew;
pub mod json;
pub mod known;
pub mod lists;
pub mod locator;
pub mod logging;
pub mod messaging;
pub mod paths;
pub mod pipenv;
pub mod pyenv;
pub mod registry;
pub mod pattern;
pub mod text;
pub mod utils;
pub mod venv;
pub mod virtualenv;
pub mod virtualenvwrapper;
pub mod windows_python;
pub mod windows_registry;
pub mod windows_store;

use crate::conda::{Conda, Discovered};
use crate::filesystem::{EntryView, FileSystem};
use crate::global_virtualenvs::{global_virtual_envs, list_global_virtual_envs};
use crate::known::{Environment, Known, Platform};
use crate::locator::{some_unless_empty, Locator, LocatorResult, LocatorResultView};
use crate::logging::{Log, LogView};
use crate::messaging::{
    claimed, create_dispatcher, lemma_reported_environment_well_formed,
    lemma_reported_manager_distinct, reported_environment, reported_manager, well_formed,
    EnvManagerType, EnvManagerView, JsonRpcDispatcher, MessageDispatcher, PythonEnvironment,
    PythonEnvironmentCategory, PythonEnvironmentView, StoreView,
};
use crate::registry::{Registry, RegistryKeyView};
use crate::utils::{PythonEnv, PythonEnvView};
use vstd::prelude::*;

verus! {

/// `store`, once `environments` have been reported, in order.
pub open spec fn store_with_environments(
    store: StoreView,
    environments: Seq<PythonEnvironmentView>,
) -> StoreView
    decreases environments.len(),
{
    if environments.len() == 0 {
        store
    } else {
        reported_environment(
            store_with_environments(store, environments.drop_last()),
            environments.last(),
        )
    }
}

/// `store`, once `managers` have been reported, in order.
pub open spec fn store_with_managers(store: StoreView, managers: Seq<EnvManagerView>) -> StoreView
    decreases managers.len(),
{
    if managers.len() == 0 {
        store
    } else {
        let sofar = store_with_managers(store, managers.drop_last());
        StoreView { managers: reported_manager(sofar.managers, managers.last()), ..sofar }
    }
}

/// `store`, once what a source found has been reported: its environments
/// first, then its managers.
pub open spec fn store_with_result(store: StoreView, result: Option<LocatorResultView>) -> StoreView {
    match result {
        None => store,
        Some(result) => store_with_managers(
            store_with_environments(store, result.environments),
            result.managers,
        ),
    }
}

/// Reporting a list of environments keeps the store well formed.
pub proof fn lemma_store_with_environments_well_formed(
    store: StoreView,
    environments: Seq<PythonEnvironmentView>,
)
    requires
        well_formed(store),
    ensures
        well_formed(store_with_environments(store, environments)),
    decreases environments.len(),
{
    if environments.len() > 0 {
        lemma_store_with_environments_well_formed(store, environments.drop_last());
        lemma_reported_environment_well_formed(
            store_with_environments(store, environments.drop_last()),
            environments.last(),
        );
    }
}

/// Reporting a list of managers keeps the store well formed.
pub proof fn lemma_store_with_managers_well_formed(store: StoreView, managers: Seq<EnvManagerView>)
    requires
        well_formed(store),
    ensures
        well_formed(store_with_managers(store, managers)),
    decreases managers.len(),
{
    if managers.len() > 0 {
        lemma_store_with_managers_well_formed(store, managers.drop_last());
        lemma_reported_manager_distinct(
            store_with_managers(store, managers.drop_last()).managers,
            managers.last(),
        );
    }
}

/// Reporting what a source found keeps the store well formed.
pub proof fn lemma_store_with_result_well_formed(store: StoreView, result: Option<LocatorResultView>)
    requires
        well_formed(store),
    ensures
        well_formed(store_with_result(store, result)),
{
    match result {
        None => {},
        Some(result) => {
            lemma_store_with_environments_well_formed(store, result.environments);
            lemma_store_with_managers_well_formed(
                store_with_environments(store, result.environments),
                result.managers,
            );
        },
    }
}

/// Reports what a source found: its environments first, then its managers.
pub fn report_result(result: Option<LocatorResult>, dispatcher: &mut JsonRpcDispatcher)
    ensures
        final(dispatcher).deep_view() == store_with_result(
            old(dispatcher).deep_view(),
            result.deep_view(),
        ),
        old(dispatcher).wf() ==> final(dispatcher).wf(),
{
    proof {
        if dispatcher.wf() {
            lemma_store_with_result_well_formed(dispatcher.deep_view(), result.deep_view());
        }
    }
    let result = match result {
        Some(result) => result,
        None => { return ; },
    };
    let ghost start = dispatcher.deep_view();
    let ghost environments = result.environments.deep_view();
    let mut i: usize = 0;
    while i < result.environments.len()
        invariant
            i <= result.environments.len(),
            environments == result.environments.deep_view(),
            dispatcher.deep_view() == store_with_environments(start, environments.take(i as int)),
        decreases result.environments.len() - i,
    {
        assert(environments.take(i + 1).drop_last() == environments.take(i as int));
        assert(environments.take(i + 1).last() == result.environments[i as int].deep_view());
        dispatcher.report_environment(result.environments[i].clone());
        i = i + 1;
    }
    assert(environments.take(environments.len() as int) == environments);
    let ghost middle = dispatcher.deep_view();
    let ghost managers = result.managers.deep_view();
    let mut k: usize = 0;
    while k < result.managers.len()
        invariant
            k <= result.managers.len(),
            managers == result.managers.deep_view(),
            dispatcher.deep_view() == store_with_managers(middle, managers.take(k as int)),
        decreases result.managers.len() - k,
    {
        assert(managers.take(k + 1).drop_last() == managers.take(k as int));
        assert(managers.take(k + 1).last() == result.managers[k as int].deep_view());
        dispatcher.report_environment_manager(result.managers[k].clone());
        k = k + 1;
    }
    assert(managers.take(managers.len() as int) == managers);
}

/// `store`, once the answer of a source to one candidate has been reported.
pub open spec fn store_with_resolved(store: StoreView, resolved: Option<PythonEnvironmentView>) -> StoreView {
    match resolved {
        Some(env) => reported_environment(store, env),
        None => store,
    }
}

/// Reports the answer of a source to one candidate. Returns whether the
/// source knew the candidate.
pub fn resolve_and_report_environment(
    resolved: Option<PythonEnvironment>,
    dispatcher: &mut JsonRpcDispatcher,
) -> (r: bool)
    ensures
        r == resolved is Some,
        final(dispatcher).deep_view() == store_with_resolved(
            old(dispatcher).deep_view(),
            resolved.deep_view(),
        ),
        old(dispatcher).wf() ==> final(dispatcher).wf(),
{
    match resolved {
        Some(env) => {
            dispatcher.report_environment(env);
            true
        },
        None => false,
    }
}

/// Nothing remembered: the state of a Conda source that has not been used.
pub open spec fn nothing_discovered() -> Discovered {
    Discovered { environment_paths: seq![], managers: seq![] }
}

/// What the pyenv source finds with a Conda source of its own.
pub open spec fn pyenv_result(known: Known, disk: Seq<EntryView>) -> Option<LocatorResultView> {
    some_unless_empty(
        crate::pyenv::found(known, disk, known, disk, nothing_discovered()).managers,
        crate::pyenv::found(known, disk, known, disk, nothing_discovered()).environments,
    )
}

/// What the registry source finds with a Conda source of its own.
pub open spec fn registry_result(known: Known, disk: Seq<EntryView>, keys: Seq<RegistryKeyView>) -> Option<
    LocatorResultView,
> {
    some_unless_empty(
        crate::windows_registry::registry_pythons(known, disk, keys, nothing_discovered()).managers,
        crate::windows_registry::registry_pythons(
            known,
            disk,
            keys,
            nothing_discovered(),
        ).environments,
    )
}

/// `store` with `logs` behind its log records.
pub open spec fn store_with_logs(store: StoreView, logs: Seq<LogView>) -> StoreView {
    StoreView { logs: store.logs + logs, ..store }
}

/// `store`, once the Conda source has reported what it found and what it warned of.
pub open spec fn store_with_conda(known: Known, disk: Seq<EntryView>, store: StoreView) -> StoreView {
    store_with_logs(
        store_with_result(
            store,
            crate::conda::found_everywhere(known, disk, nothing_discovered()).result,
        ),
        crate::conda::found_warnings(known, disk, nothing_discovered()),
    )
}

/// `store`, once the sources that know where to look have reported. Their
/// order is fixed. On Windows: the store, the registry, virtualenvwrapper,
/// pyenv, Conda. On Unix: virtualenvwrapper, pyenv, Homebrew, Conda.
pub open spec fn store_after_global_finders(
    known: Known,
    disk: Seq<EntryView>,
    keys: Seq<RegistryKeyView>,
    store: StoreView,
) -> StoreView {
    match known.platform {
        Platform::Windows => {
            let a = store_with_result(store, crate::windows_store::found(known, disk, keys));
            let b = store_with_result(a, registry_result(known, disk, keys));
            let c = store_with_result(b, crate::virtualenvwrapper::found(known, disk));
            let d = store_with_result(c, pyenv_result(known, disk));
            store_with_conda(known, disk, d)
        },
        Platform::Unix => {
            let a = store_with_result(store, crate::virtualenvwrapper::found(known, disk));
            let b = store_with_result(a, pyenv_result(known, disk));
            let c = store_with_result(b, crate::homebrew::found(known, disk));
            store_with_conda(known, disk, c)
        },
    }
}

/// Adds `logs` to the log records of the run, in order.
pub fn report_logs(logs: &Vec<Log>, dispatcher: &mut JsonRpcDispatcher)
    ensures
        final(dispatcher).deep_view() == store_with_logs(
            old(dispatcher).deep_view(),
            logs.deep_view(),
        ),
        old(dispatcher).wf() ==> final(dispatcher).wf(),
{
    let ghost start = dispatcher.deep_view();
    let ghost all = logs.deep_view();
    let mut i: usize = 0;
    assert(start.logs + all.take(0) =~= start.logs);
    while i < logs.len()
        invariant
            i <= logs.len(),
            all == logs.deep_view(),
            old(dispatcher).wf() ==> dispatcher.wf(),
            dispatcher.deep_view() == store_with_logs(start, all.take(i as int)),
        decreases logs.len() - i,
    {
        dispatcher.report_log(logs[i].clone());
        i = i + 1;
        assert(start.logs + all.take(i as int) =~= (start.logs + all.take(i - 1)).push(
            all[i - 1],
        ));
    }
    assert(all.take(all.len() as int) == all);
}

/// Lets the sources that know where to look report, in their fixed order.
pub fn find_using_global_finders<E: Environment>(
    environment: &E,
    fs: &FileSystem,
    registry: &Registry,
    dispatcher: &mut JsonRpcDispatcher,
)
    ensures
        final(dispatcher).deep_view() == store_after_global_finders(
            environment.known(),
            fs.deep_view(),
            registry.deep_view(),
            old(dispatcher).deep_view(),
        ),
        old(dispatcher).wf() ==> final(dispatcher).wf(),
{
    match environment.get_platform() {
        Platform::Windows => {
            let mut store = crate::windows_store::WindowsStore::with(environment, fs, registry);
            report_result(store.find(), dispatcher);
            let mut windows_registry = crate::windows_registry::WindowsRegistry::with(
                Conda::with(environment, fs),
                registry,
            );
            report_result(windows_registry.find(), dispatcher);
        },
        Platform::Unix => {},
    }
    let mut wrapper = crate::virtualenvwrapper::VirtualEnvWrapper::with(environment, fs);
    report_result(wrapper.find(), dispatcher);
    let mut pyenv = crate::pyenv::PyEnv::with(environment, fs, Conda::with(environment, fs));
    report_result(pyenv.find(), dispatcher);
    match environment.get_platform() {
        Platform::Windows => {},
        Platform::Unix => {
            let mut homebrew = crate::homebrew::Homebrew::with(environment, fs);
            report_result(homebrew.find(), dispatcher);
        },
    }
    let mut conda = Conda::with(environment, fs);
    report_result(conda.find(), dispatcher);
    assert(Seq::<LogView>::empty() + crate::conda::found_warnings(
        environment.known(),
        fs.deep_view(),
        nothing_discovered(),
    ) =~= crate::conda::found_warnings(environment.known(), fs.deep_view(), nothing_discovered()));
    report_logs(&conda.warnings, dispatcher);
}

/// The environment that the candidate `env` of a directory of virtual
/// environments is. On Unix Homebrew is asked first. Then the kinds of virtual
/// environment are asked from the most specific to the least: Pipenv,
/// virtualenvwrapper, venv, virtualenv. The first that knows the candidate
/// decides.
pub open spec fn classified(known: Known, disk: Seq<EntryView>, env: PythonEnvView) -> Option<
    PythonEnvironmentView,
> {
    let homebrew = match known.platform {
        Platform::Unix => crate::homebrew::resolve_unreported(disk, env.executable, seq![]),
        Platform::Windows => None,
    };
    match homebrew {
        Some(found) => Some(found),
        None => match crate::pipenv::resolved(disk, env) {
            Some(found) => Some(found),
            None => match crate::virtualenvwrapper::resolved(known, disk, env) {
                Some(found) => Some(found),
                None => match crate::venv::resolved(disk, env) {
                    Some(found) => Some(found),
                    None => crate::virtualenv::resolved(disk, env),
                },
            },
        },
    }
}

/// `store`, once the candidate `env` has been looked at. A candidate whose
/// executable belongs to a reported environment is passed over.
pub open spec fn store_with_candidate(
    known: Known,
    disk: Seq<EntryView>,
    store: StoreView,
    env: PythonEnvView,
) -> StoreView {
    if claimed(store.environments, env.executable) {
        store
    } else {
        store_with_resolved(store, classified(known, disk, env))
    }
}

/// A venv is reported from its file alone. Let `env` be a candidate of a
/// directory of virtual environments that is neither Homebrew's nor Pipenv's
/// nor virtualenvwrapper's, whose `pyvenv.cfg` gives `version`, and whose
/// executable was not reported. Then one environment is added to the store:
/// a venv with that version, run by its executable alone, without a manager.
pub proof fn lemma_venv_is_reported_from_its_file(
    known: Known,
    disk: Seq<EntryView>,
    store: StoreView,
    env: PythonEnvView,
    version: Seq<char>,
)
    requires
        known.platform == Platform::Windows || crate::homebrew::homebrew_name(
            disk,
            env.executable,
        ) is None,
        !crate::pipenv::pipenv(disk, env),
        !crate::virtualenvwrapper::virtualenvwrapper(known, disk, env),
        crate::venv::venv(disk, env),
        crate::utils::pyvenv_cfg_version(disk, env.executable) == Some(version),
        !claimed(store.environments, env.executable),
    ensures
        classified(known, disk, env) is Some,
        ({
            let found = classified(known, disk, env)->0;
            let after = store_with_candidate(known, disk, store, env);
            &&& found.category == PythonEnvironmentCategory::Venv
            &&& found.version == Some(version)
            &&& found.python_executable_path == Some(env.executable)
            &&& found.python_run_command == Some(seq![env.executable])
            &&& found.env_path == env.path
            &&& found.env_manager is None
            &&& after.environments == store.environments.push(found)
            &&& after.managers == store.managers
        }),
{
    let found = classified(known, disk, env)->0;
    assert(crate::venv::resolved(disk, env) is Some);
    assert(found == crate::venv::resolved(disk, env)->0);
    let key = env.executable;
    assert(crate::utils::environment_key(found) == Some(key));
    assert(crate::messaging::names_of(found, key) =~= seq![key]);
    crate::lists::lemma_first_index(
        store.environments,
        |record: PythonEnvironmentView| crate::utils::environment_key(record) == Some(key),
    );
    crate::lists::lemma_first_index(
        store.environments,
        |record: PythonEnvironmentView| crate::messaging::aliases_of(record).contains(key),
    );
    crate::lists::lemma_first_index(
        store.environments,
        |record: PythonEnvironmentView| crate::messaging::shares_name(record, seq![key]),
    );
    match crate::messaging::environment_sharing_name(store.environments, seq![key]) {
        None => {},
        Some(i) => {
            let k = choose|k: int|
                0 <= k < seq![key].len() && (crate::utils::environment_key(store.environments[i])
                    == Some(#[trigger] seq![key][k]) || crate::messaging::aliases_of(
                    store.environments[i],
                ).contains(seq![key][k]));
            assert(seq![key][k] == key);
        },
    }
}

/// `store`, once the candidates `envs` have been looked at, in order.
pub open spec fn store_with_candidates(
    known: Known,
    disk: Seq<EntryView>,
    store: StoreView,
    envs: Seq<PythonEnvView>,
) -> StoreView
    decreases envs.len(),
{
    if envs.len() == 0 {
        store
    } else {
        store_with_candidate(
            known,
            disk,
            store_with_candidates(known, disk, store, envs.drop_last()),
            envs.last(),
        )
    }
}

/// The environment that the candidate `env` of a directory of virtual environments is.
pub fn classify<E: Environment>(environment: &E, fs: &FileSystem, env: &PythonEnv) -> (r: Option<
    PythonEnvironment,
>)
    ensures
        r.deep_view() == classified(environment.known(), fs.deep_view(), env.deep_view()),
{
    match environment.get_platform() {
        Platform::Unix => {
            match crate::homebrew::Homebrew::with(environment, fs).resolve(env) {
                Some(found) => { return Some(found); },
                None => {},
            }
        },
        Platform::Windows => {},
    }
    match crate::pipenv::PipEnv::new(fs).resolve(env) {
        Some(found) => { return Some(found); },
        None => {},
    }
    match crate::virtualenvwrapper::VirtualEnvWrapper::with(environment, fs).resolve(env) {
        Some(found) => { return Some(found); },
        None => {},
    }
    match crate::venv::Venv::new(fs).resolve(env) {
        Some(found) => { return Some(found); },
        None => {},
    }
    crate::virtualenv::VirtualEnv::new(fs).resolve(env)
}

/// Looks through the directories in which virtual environments are kept and
/// reports each candidate that no earlier source claimed.
pub fn find_in_global_virtual_env_dirs<E: Environment>(
    environment: &E,
    fs: &FileSystem,
    dispatcher: &mut JsonRpcDispatcher,
)
    ensures
        final(dispatcher).deep_view() == store_with_candidates(
            environment.known(),
            fs.deep_view(),
            old(dispatcher).deep_view(),
            global_virtual_envs(environment.known(), fs.deep_view()),
        ),
        old(dispatcher).wf() ==> final(dispatcher).wf(),
{
    let candidates = list_global_virtual_envs(environment, fs);
    let ghost known = environment.known();
    let ghost disk = fs.deep_view();
    let ghost start = dispatcher.deep_view();
    let ghost all = candidates.deep_view();
    let mut i: usize = 0;
    while i < candidates.len()
        invariant
            i <= candidates.len(),
            known == environment.known(),
            disk == fs.deep_view(),
            all == candidates.deep_view(),
            old(dispatcher).wf() ==> dispatcher.wf(),
            dispatcher.deep_view() == store_with_candidates(known, disk, start, all.take(i as int)),
        decreases candidates.len() - i,
    {
        assert(all.take(i + 1).drop_last() == all.take(i as int));
        assert(all.take(i + 1).last() == candidates[i as int].deep_view());
        if !dispatcher.was_environment_reported(&candidates[i]) {
            let resolved = classify(environment, fs, &candidates[i]);
            resolve_and_report_environment(resolved, dispatcher);
        }
        i = i + 1;
    }
    assert(all.take(all.len() as int) == all);
}

/// The inventory of the machine: what is reported when all sources have run
/// in their fixed order, and the search path has been walked at the end.
pub open spec fn discovered(known: Known, disk: Seq<EntryView>, keys: Seq<RegistryKeyView>) -> StoreView {
    let empty = StoreView { managers: seq![], environments: seq![], logs: seq![], exited: false };
    let structured = store_after_global_finders(known, disk, keys, empty);
    let virtual_environments = store_with_candidates(
        known,
        disk,
        structured,
        global_virtual_envs(known, disk),
    );
    store_with_result(virtual_environments, crate::common_python::found(known, disk))
}

/// The keys of the environments of `store`, as a set.
pub open spec fn environment_key_set(store: StoreView) -> Set<Option<Seq<char>>> {
    crate::messaging::environment_keys(store.environments).to_set()
}

/// The keys of the managers of `store`, as a set.
pub open spec fn manager_key_set(store: StoreView) -> Set<Seq<char>> {
    crate::messaging::manager_keys(store.managers).to_set()
}

/// Discovery can be repeated: two runs on one machine in one state report the
/// same identity keys.
pub proof fn lemma_discovery_is_repeatable(
    first: StoreView,
    second: StoreView,
    known: Known,
    disk: Seq<EntryView>,
    keys: Seq<RegistryKeyView>,
)
    requires
        first == discovered(known, disk, keys),
        second == discovered(known, disk, keys),
    ensures
        environment_key_set(first) == environment_key_set(second),
        manager_key_set(first) == manager_key_set(second),
{
}

/// Discovery reports each installation once: no two environments of the
/// inventory share an identity key, and no two managers do.
pub proof fn lemma_discovery_is_free_of_duplicates(
    known: Known,
    disk: Seq<EntryView>,
    keys: Seq<RegistryKeyView>,
)
    ensures
        well_formed(discovered(known, disk, keys)),
{
    let empty = StoreView { managers: seq![], environments: seq![], logs: seq![], exited: false };
    lemma_store_after_global_finders_well_formed(known, disk, keys, empty);
    let structured = store_after_global_finders(known, disk, keys, empty);
    lemma_store_with_candidates_well_formed(
        known,
        disk,
        structured,
        global_virtual_envs(known, disk),
    );
    lemma_store_with_result_well_formed(
        store_with_candidates(known, disk, structured, global_virtual_envs(known, disk)),
        crate::common_python::found(known, disk),
    );
}

/// Letting the sources report keeps the store well formed.
pub proof fn lemma_store_after_global_finders_well_formed(
    known: Known,
    disk: Seq<EntryView>,
    keys: Seq<RegistryKeyView>,
    store: StoreView,
)
    requires
        well_formed(store),
    ensures
        well_formed(store_after_global_finders(known, disk, keys, store)),
{
    let conda = crate::conda::found_everywhere(known, disk, nothing_discovered()).result;
    match known.platform {
        Platform::Windows => {
            let a = store_with_result(store, crate::windows_store::found(known, disk, keys));
            lemma_store_with_result_well_formed(
                store,
                crate::windows_store::found(known, disk, keys),
            );
            let b = store_with_result(a, registry_result(known, disk, keys));
            lemma_store_with_result_well_formed(a, registry_result(known, disk, keys));
            let c = store_with_result(b, crate::virtualenvwrapper::found(known, disk));
            lemma_store_with_result_well_formed(b, crate::virtualenvwrapper::found(known, disk));
            let d = store_with_result(c, pyenv_result(known, disk));
            lemma_store_with_result_well_formed(c, pyenv_result(known, disk));
            lemma_store_with_result_well_formed(d, conda);
        },
        Platform::Unix => {
            let a = store_with_result(store, crate::virtualenvwrapper::found(known, disk));
            lemma_store_with_result_well_formed(
                store,
                crate::virtualenvwrapper::found(known, disk),
            );
            let b = store_with_result(a, pyenv_result(known, disk));
            lemma_store_with_result_well_formed(a, pyenv_result(known, disk));
            let c = store_with_result(b, crate::homebrew::found(known, disk));
            lemma_store_with_result_well_formed(b, crate::homebrew::found(known, disk));
            lemma_store_with_result_well_formed(c, conda);
        },
    }
}

/// Looking at candidates keeps the store well formed.
pub proof fn lemma_store_with_candidates_well_formed(
    known: Known,
    disk: Seq<EntryView>,
    store: StoreView,
    envs: Seq<PythonEnvView>,
)
    requires
        well_formed(store),
    ensures
        well_formed(store_with_candidates(known, disk, store, envs)),
    decreases envs.len(),
{
    if envs.len() > 0 {
        lemma_store_with_candidates_well_formed(known, disk, store, envs.drop_last());
        let sofar = store_with_candidates(known, disk, store, envs.drop_last());
        match classified(known, disk, envs.last()) {
            Some(env) => {
                lemma_reported_environment_well_formed(sofar, env);
            },
            None => {},
        }
    }
}

/// `manager` is no pyenv other than `pyenv`: it is of another tool, or it is `pyenv`.
pub open spec fn no_other_pyenv(manager: EnvManagerView, pyenv: Option<EnvManagerView>) -> bool {
    manager.tool == EnvManagerType::Pyenv ==> pyenv == Some(manager)
}

/// None of `managers` is a pyenv other than `pyenv`.
pub open spec fn only_pyenv(managers: Seq<EnvManagerView>, pyenv: Option<EnvManagerView>) -> bool {
    forall|k: int| 0 <= k < managers.len() ==> no_other_pyenv(#[trigger] managers[k], pyenv)
}

/// The manager of `env`, where it has one, is no pyenv other than `pyenv`.
pub open spec fn carries_only_pyenv(env: PythonEnvironmentView, pyenv: Option<EnvManagerView>) -> bool {
    match env.env_manager {
        Some(manager) => no_other_pyenv(manager, pyenv),
        None => true,
    }
}

/// `result` brings no pyenv other than `pyenv`, neither as a manager nor in an environment.
pub open spec fn brings_only_pyenv(result: Option<LocatorResultView>, pyenv: Option<EnvManagerView>) -> bool {
    match result {
        None => true,
        Some(result) => only_pyenv(result.managers, pyenv) && forall|k: int|
            0 <= k < result.environments.len() ==> carries_only_pyenv(
                #[trigger] result.environments[k],
                pyenv,
            ),
    }
}

/// Reporting environments that carry no other pyenv brings none into the store.
pub proof fn lemma_store_with_environments_only_pyenv(
    store: StoreView,
    environments: Seq<PythonEnvironmentView>,
    pyenv: Option<EnvManagerView>,
)
    requires
        only_pyenv(store.managers, pyenv),
        forall|k: int|
            0 <= k < environments.len() ==> carries_only_pyenv(#[trigger] environments[k], pyenv),
    ensures
        only_pyenv(store_with_environments(store, environments).managers, pyenv),
    decreases environments.len(),
{
    if environments.len() > 0 {
        let front = environments.drop_last();
        assert forall|k: int| 0 <= k < front.len() implies carries_only_pyenv(
            #[trigger] front[k],
            pyenv,
        ) by {
            assert(front[k] == environments[k]);
        }
        lemma_store_with_environments_only_pyenv(store, front, pyenv);
        assert(carries_only_pyenv(environments[environments.len() - 1], pyenv));
    }
}

/// Reporting managers none of which is another pyenv brings none into the store.
pub proof fn lemma_store_with_managers_only_pyenv(
    store: StoreView,
    managers: Seq<EnvManagerView>,
    pyenv: Option<EnvManagerView>,
)
    requires
        only_pyenv(store.managers, pyenv),
        only_pyenv(managers, pyenv),
    ensures
        only_pyenv(store_with_managers(store, managers).managers, pyenv),
    decreases managers.len(),
{
    if managers.len() > 0 {
        let front = managers.drop_last();
        assert forall|k: int| 0 <= k < front.len() implies no_other_pyenv(
            #[trigger] front[k],
            pyenv,
        ) by {
            assert(front[k] == managers[k]);
        }
        lemma_store_with_managers_only_pyenv(store, front, pyenv);
        assert(no_other_pyenv(managers[managers.len() - 1], pyenv));
    }
}

/// Reporting a result that brings no other pyenv brings none into the store.
pub proof fn lemma_store_with_result_only_pyenv(
    store: StoreView,
    result: Option<LocatorResultView>,
    pyenv: Option<EnvManagerView>,
)
    requires
        only_pyenv(store.managers, pyenv),
        brings_only_pyenv(result, pyenv),
    ensures
        only_pyenv(store_with_result(store, result).managers, pyenv),
{
    match result {
        None => {},
        Some(result) => {
            lemma_store_with_environments_only_pyenv(store, result.environments, pyenv);
            lemma_store_with_managers_only_pyenv(
                store_with_environments(store, result.environments),
                result.managers,
                pyenv,
            );
        },
    }
}

/// The only pyenv that the sources report is the pyenv of the machine.
pub proof fn lemma_sources_bring_only_pyenv(known: Known, disk: Seq<EntryView>, keys: Seq<RegistryKeyView>)
    ensures
        ({
            let pyenv = crate::pyenv::pyenv_manager(crate::pyenv::pyenv_info(known, disk));
            &&& brings_only_pyenv(crate::windows_store::found(known, disk, keys), pyenv)
            &&& brings_only_pyenv(registry_result(known, disk, keys), pyenv)
            &&& brings_only_pyenv(crate::virtualenvwrapper::found(known, disk), pyenv)
            &&& brings_only_pyenv(pyenv_result(known, disk), pyenv)
            &&& brings_only_pyenv(crate::homebrew::found(known, disk), pyenv)
            &&& brings_only_pyenv(
                crate::conda::found_everywhere(known, disk, nothing_discovered()).result,
                pyenv,
            )
            &&& brings_only_pyenv(crate::common_python::found(known, disk), pyenv)
        }),
{
    let pyenv = crate::pyenv::pyenv_manager(crate::pyenv::pyenv_info(known, disk));
    crate::windows_store::lemma_found_without_managers(known, disk, keys);
    crate::virtualenvwrapper::lemma_found_without_managers(known, disk);
    crate::homebrew::lemma_found_without_managers(known, disk);
    crate::common_python::lemma_found_without_managers(known, disk);
    crate::windows_registry::lemma_registry_pythons_managed_by_conda_only(
        known,
        disk,
        keys,
        nothing_discovered(),
    );
    crate::pyenv::lemma_found_is_of_pyenv_or_conda(known, disk, known, disk, nothing_discovered());
    crate::conda::lemma_found_everywhere_of_conda(known, disk, nothing_discovered());
    let conda = crate::conda::found_everywhere(known, disk, nothing_discovered()).result;
    match conda {
        None => {},
        Some(result) => {
            assert forall|k: int| 0 <= k < result.environments.len() implies carries_only_pyenv(
                #[trigger] result.environments[k],
                pyenv,
            ) by {
                assert(crate::conda::run_by_conda(result.environments[k]));
            }
        },
    }
    match pyenv_result(known, disk) {
        None => {},
        Some(result) => {
            assert forall|k: int| 0 <= k < result.environments.len() implies carries_only_pyenv(
                #[trigger] result.environments[k],
                pyenv,
            ) by {
                assert(crate::pyenv::run_by_pyenv(result.environments[k], pyenv)
                    || crate::conda::run_by_conda(result.environments[k]));
            }
        },
    }
}

/// Letting the sources report brings no pyenv into the store other than the
/// pyenv of the machine.
pub proof fn lemma_store_after_global_finders_only_pyenv(
    known: Known,
    disk: Seq<EntryView>,
    keys: Seq<RegistryKeyView>,
    store: StoreView,
)
    requires
        only_pyenv(store.managers, crate::pyenv::pyenv_manager(crate::pyenv::pyenv_info(known, disk))),
    ensures
        only_pyenv(
            store_after_global_finders(known, disk, keys, store).managers,
            crate::pyenv::pyenv_manager(crate::pyenv::pyenv_info(known, disk)),
        ),
{
    let pyenv = crate::pyenv::pyenv_manager(crate::pyenv::pyenv_info(known, disk));
    lemma_sources_bring_only_pyenv(known, disk, keys);
    let conda = crate::conda::found_everywhere(known, disk, nothing_discovered()).result;
    match known.platform {
        Platform::Windows => {
            let a = store_with_result(store, crate::windows_store::found(known, disk, keys));
            lemma_store_with_result_only_pyenv(
                store,
                crate::windows_store::found(known, disk, keys),
                pyenv,
            );
            let b = store_with_result(a, registry_result(known, disk, keys));
            lemma_store_with_result_only_pyenv(a, registry_result(known, disk, keys), pyenv);
            let c = store_with_result(b, crate::virtualenvwrapper::found(known, disk));
            lemma_store_with_result_only_pyenv(
                b,
                crate::virtualenvwrapper::found(known, disk),
                pyenv,
            );
            let d = store_with_result(c, pyenv_result(known, disk));
            lemma_store_with_result_only_pyenv(c, pyenv_result(known, disk), pyenv);
            lemma_store_with_result_only_pyenv(d, conda, pyenv);
        },
        Platform::Unix => {
            let a = store_with_result(store, crate::virtualenvwrapper::found(known, disk));
            lemma_store_with_result_only_pyenv(
                store,
                crate::virtualenvwrapper::found(known, disk),
                pyenv,
            );
            let b = store_with_result(a, pyenv_result(known, disk));
            lemma_store_with_result_only_pyenv(a, pyenv_result(known, disk), pyenv);
            let c = store_with_result(b, crate::homebrew::found(known, disk));
            lemma_store_with_result_only_pyenv(b, crate::homebrew::found(known, disk), pyenv);
            lemma_store_with_result_only_pyenv(c, conda, pyenv);
        },
    }
}

/// Looking at the candidates of the directories of virtual environments
/// brings no manager into the store.
pub proof fn lemma_store_with_candidates_keeps_managers(
    known: Known,
    disk: Seq<EntryView>,
    store: StoreView,
    envs: Seq<PythonEnvView>,
)
    ensures
        store_with_candidates(known, disk, store, envs).managers == store.managers,
    decreases envs.len(),
{
    if envs.len() > 0 {
        lemma_store_with_candidates_keeps_managers(known, disk, store, envs.drop_last());
    }
}

/// pyenv is reported at most once: the inventory holds at most one manager
/// of tool pyenv, and it is the pyenv of the machine. Every other manager is
/// of another tool.
pub proof fn lemma_pyenv_is_reported_at_most_once(
    known: Known,
    disk: Seq<EntryView>,
    keys: Seq<RegistryKeyView>,
)
    ensures
        ({
            let managers = discovered(known, disk, keys).managers;
            let pyenv = crate::pyenv::pyenv_manager(crate::pyenv::pyenv_info(known, disk));
            &&& forall|k: int|
                0 <= k < managers.len() && (#[trigger] managers[k]).tool == EnvManagerType::Pyenv
                    ==> pyenv == Some(managers[k])
            &&& forall|i: int, j: int|
                0 <= i < managers.len() && 0 <= j < managers.len() && (#[trigger] managers[i]).tool
                    == EnvManagerType::Pyenv && (#[trigger] managers[j]).tool
                    == EnvManagerType::Pyenv ==> i == j
        }),
{
    let pyenv = crate::pyenv::pyenv_manager(crate::pyenv::pyenv_info(known, disk));
    let empty = StoreView { managers: seq![], environments: seq![], logs: seq![], exited: false };
    lemma_store_after_global_finders_only_pyenv(known, disk, keys, empty);
    let structured = store_after_global_finders(known, disk, keys, empty);
    lemma_store_with_candidates_keeps_managers(
        known,
        disk,
        structured,
        global_virtual_envs(known, disk),
    );
    let virtual_environments = store_with_candidates(
        known,
        disk,
        structured,
        global_virtual_envs(known, disk),
    );
    lemma_sources_bring_only_pyenv(known, disk, keys);
    lemma_store_with_result_only_pyenv(
        virtual_environments,
        crate::common_python::found(known, disk),
        pyenv,
    );
    lemma_discovery_is_free_of_duplicates(known, disk, keys);
    let managers = discovered(known, disk, keys).managers;
    assert forall|k: int|
        0 <= k < managers.len() && (#[trigger] managers[k]).tool
            == EnvManagerType::Pyenv implies pyenv == Some(managers[k]) by {
        assert(no_other_pyenv(managers[k], pyenv));
    }
    assert forall|i: int, j: int|
        0 <= i < managers.len() && 0 <= j < managers.len() && (#[trigger] managers[i]).tool
            == EnvManagerType::Pyenv && (#[trigger] managers[j]).tool
            == EnvManagerType::Pyenv implies i == j by {
        assert(no_other_pyenv(managers[i], pyenv));
        assert(no_other_pyenv(managers[j], pyenv));
        assert(managers[i] == managers[j]);
    }
}

/// `env` is looked after as its kind asks. An environment of pyenv carries
/// `pyenv` and is run by one path alone. An environment of Conda carries a
/// manager of tool Conda, and its command runs `python` through that manager,
/// by name or by path. An environment of any other kind has no manager.
pub open spec fn managed_as_its_kind(env: PythonEnvironmentView, pyenv: Option<EnvManagerView>) -> bool {
    if env.category == PythonEnvironmentCategory::Pyenv || env.category
        == PythonEnvironmentCategory::PyenvVirtualEnv {
        env.env_manager == pyenv && match env.python_run_command {
            Some(command) => command.len() == 1,
            None => false,
        }
    } else if env.category == PythonEnvironmentCategory::Conda {
        match env.env_manager {
            Some(manager) => manager.tool == EnvManagerType::Conda
                && crate::conda::command_through(env, manager),
            None => false,
        }
    } else {
        env.env_manager is None
    }
}

/// All of `environments` are looked after as their kinds ask.
pub open spec fn all_managed_as_their_kind(
    environments: Seq<PythonEnvironmentView>,
    pyenv: Option<EnvManagerView>,
) -> bool {
    forall|k: int|
        0 <= k < environments.len() ==> managed_as_its_kind(#[trigger] environments[k], pyenv)
}

/// Reporting an environment that is looked after as its kind asks keeps the
/// store so: merging records touches neither kind nor manager nor command.
pub proof fn lemma_reported_environment_managed(
    store: StoreView,
    env: PythonEnvironmentView,
    pyenv: Option<EnvManagerView>,
)
    requires
        all_managed_as_their_kind(store.environments, pyenv),
        managed_as_its_kind(env, pyenv),
    ensures
        all_managed_as_their_kind(reported_environment(store, env).environments, pyenv),
{
    crate::messaging::lemma_reporting_touches_names_only(store.environments, env);
    let after = reported_environment(store, env);
    assert forall|k: int| 0 <= k < after.environments.len() implies managed_as_its_kind(
        #[trigger] after.environments[k],
        pyenv,
    ) by {
        if k < store.environments.len() {
            assert(managed_as_its_kind(store.environments[k], pyenv));
            assert(crate::messaging::same_but_names(after.environments[k], store.environments[k]));
        }
    }
}

/// Reporting environments that are looked after as their kinds ask keeps the
/// store so.
pub proof fn lemma_store_with_environments_managed(
    store: StoreView,
    environments: Seq<PythonEnvironmentView>,
    pyenv: Option<EnvManagerView>,
)
    requires
        all_managed_as_their_kind(store.environments, pyenv),
        all_managed_as_their_kind(environments, pyenv),
    ensures
        all_managed_as_their_kind(store_with_environments(store, environments).environments, pyenv),
    decreases environments.len(),
{
    if environments.len() > 0 {
        let front = environments.drop_last();
        assert forall|k: int| 0 <= k < front.len() implies managed_as_its_kind(
            #[trigger] front[k],
            pyenv,
        ) by {
            assert(front[k] == environments[k]);
        }
        lemma_store_with_environments_managed(store, front, pyenv);
        let env = environments[environments.len() - 1];
        assert(managed_as_its_kind(env, pyenv));
        lemma_reported_environment_managed(store_with_environments(store, front), env, pyenv);
    }
}

/// Reporting managers leaves the environments as they are.
pub proof fn lemma_store_with_managers_keeps_environments(store: StoreView, managers: Seq<EnvManagerView>)
    ensures
        store_with_managers(store, managers).environments == store.environments,
    decreases managers.len(),
{
    if managers.len() > 0 {
        lemma_store_with_managers_keeps_environments(store, managers.drop_last());
    }
}

/// Reporting a result whose environments are looked after as their kinds
/// ask keeps the store so.
pub proof fn lemma_store_with_result_managed(
    store: StoreView,
    result: Option<LocatorResultView>,
    pyenv: Option<EnvManagerView>,
)
    requires
        all_managed_as_their_kind(store.environments, pyenv),
        all_managed_as_their_kind(crate::conda::environments_of(result), pyenv),
    ensures
        all_managed_as_their_kind(store_with_result(store, result).environments, pyenv),
{
    match result {
        None => {},
        Some(result) => {
            lemma_store_with_environments_managed(store, result.environments, pyenv);
            lemma_store_with_managers_keeps_environments(
                store_with_environments(store, result.environments),
                result.managers,
            );
        },
    }
}

/// What each source finds is looked after as its kind asks.
pub proof fn lemma_sources_find_managed(known: Known, disk: Seq<EntryView>, keys: Seq<RegistryKeyView>)
    ensures
        ({
            let pyenv = crate::pyenv::pyenv_manager(crate::pyenv::pyenv_info(known, disk));
            let conda = crate::conda::found_everywhere(known, disk, nothing_discovered()).result;
            &&& all_managed_as_their_kind(
                crate::conda::environments_of(crate::windows_store::found(known, disk, keys)),
                pyenv,
            )
            &&& all_managed_as_their_kind(
                crate::conda::environments_of(registry_result(known, disk, keys)),
                pyenv,
            )
            &&& all_managed_as_their_kind(
                crate::conda::environments_of(crate::virtualenvwrapper::found(known, disk)),
                pyenv,
            )
            &&& all_managed_as_their_kind(
                crate::conda::environments_of(pyenv_result(known, disk)),
                pyenv,
            )
            &&& all_managed_as_their_kind(
                crate::conda::environments_of(crate::homebrew::found(known, disk)),
                pyenv,
            )
            &&& all_managed_as_their_kind(crate::conda::environments_of(conda), pyenv)
            &&& all_managed_as_their_kind(
                crate::conda::environments_of(crate::common_python::found(known, disk)),
                pyenv,
            )
        }),
{
    let pyenv = crate::pyenv::pyenv_manager(crate::pyenv::pyenv_info(known, disk));
    crate::windows_store::lemma_found_without_managers(known, disk, keys);
    crate::virtualenvwrapper::lemma_found_without_managers(known, disk);
    crate::homebrew::lemma_found_without_managers(known, disk);
    crate::common_python::lemma_found_without_managers(known, disk);
    crate::windows_registry::lemma_registry_pythons_managed_by_conda_only(
        known,
        disk,
        keys,
        nothing_discovered(),
    );
    crate::pyenv::lemma_found_is_of_pyenv_or_conda(known, disk, known, disk, nothing_discovered());
    crate::conda::lemma_found_everywhere_of_conda(known, disk, nothing_discovered());
    let conda = crate::conda::environments_of(
        crate::conda::found_everywhere(known, disk, nothing_discovered()).result,
    );
    assert forall|k: int| 0 <= k < conda.len() implies managed_as_its_kind(
        #[trigger] conda[k],
        pyenv,
    ) by {
        assert(crate::conda::run_by_conda(conda[k]));
    }
    let of_pyenv = crate::conda::environments_of(pyenv_result(known, disk));
    assert forall|k: int| 0 <= k < of_pyenv.len() implies managed_as_its_kind(
        #[trigger] of_pyenv[k],
        pyenv,
    ) by {
        assert(crate::pyenv::run_by_pyenv(of_pyenv[k], pyenv) || crate::conda::run_by_conda(
            of_pyenv[k],
        ));
    }
    let registered = crate::conda::environments_of(registry_result(known, disk, keys));
    assert forall|k: int| 0 <= k < registered.len() implies managed_as_its_kind(
        #[trigger] registered[k],
        pyenv,
    ) by {
        assert(crate::conda::run_by_conda(registered[k]) || crate::locator::unmanaged(
            registered[k],
        ));
    }
    let of_store = crate::conda::environments_of(crate::windows_store::found(known, disk, keys));
    assert forall|k: int| 0 <= k < of_store.len() implies managed_as_its_kind(
        #[trigger] of_store[k],
        pyenv,
    ) by {
        assert(crate::locator::unmanaged(of_store[k]));
    }
    let wrapped = crate::conda::environments_of(crate::virtualenvwrapper::found(known, disk));
    assert forall|k: int| 0 <= k < wrapped.len() implies managed_as_its_kind(
        #[trigger] wrapped[k],
        pyenv,
    ) by {
        assert(crate::locator::unmanaged(wrapped[k]));
    }
    let brewed = crate::conda::environments_of(crate::homebrew::found(known, disk));
    assert forall|k: int| 0 <= k < brewed.len() implies managed_as_its_kind(
        #[trigger] brewed[k],
        pyenv,
    ) by {
        assert(crate::locator::unmanaged(brewed[k]));
    }
    let on_path = crate::conda::environments_of(crate::common_python::found(known, disk));
    assert forall|k: int| 0 <= k < on_path.len() implies managed_as_its_kind(
        #[trigger] on_path[k],
        pyenv,
    ) by {
        assert(crate::locator::unmanaged(on_path[k]));
    }
}

/// Letting the sources report keeps the store looked after by kind.
pub proof fn lemma_store_after_global_finders_managed(
    known: Known,
    disk: Seq<EntryView>,
    keys: Seq<RegistryKeyView>,
    store: StoreView,
)
    requires
        all_managed_as_their_kind(
            store.environments,
            crate::pyenv::pyenv_manager(crate::pyenv::pyenv_info(known, disk)),
        ),
    ensures
        all_managed_as_their_kind(
            store_after_global_finders(known, disk, keys, store).environments,
            crate::pyenv::pyenv_manager(crate::pyenv::pyenv_info(known, disk)),
        ),
{
    let pyenv = crate::pyenv::pyenv_manager(crate::pyenv::pyenv_info(known, disk));
    lemma_sources_find_managed(known, disk, keys);
    let conda = crate::conda::found_everywhere(known, disk, nothing_discovered()).result;
    match known.platform {
        Platform::Windows => {
            let a = store_with_result(store, crate::windows_store::found(known, disk, keys));
            lemma_store_with_result_managed(
                store,
                crate::windows_store::found(known, disk, keys),
                pyenv,
            );
            let b = store_with_result(a, registry_result(known, disk, keys));
            lemma_store_with_result_managed(a, registry_result(known, disk, keys), pyenv);
            let c = store_with_result(b, crate::virtualenvwrapper::found(known, disk));
            lemma_store_with_result_managed(b, crate::virtualenvwrapper::found(known, disk), pyenv);
            let d = store_with_result(c, pyenv_result(known, disk));
            lemma_store_with_result_managed(c, pyenv_result(known, disk), pyenv);
            lemma_store_with_result_managed(d, conda, pyenv);
        },
        Platform::Unix => {
            let a = store_with_result(store, crate::virtualenvwrapper::found(known, disk));
            lemma_store_with_result_managed(
                store,
                crate::virtualenvwrapper::found(known, disk),
                pyenv,
            );
            let b = store_with_result(a, pyenv_result(known, disk));
            lemma_store_with_result_managed(a, pyenv_result(known, disk), pyenv);
            let c = store_with_result(b, crate::homebrew::found(known, disk));
            lemma_store_with_result_managed(b, crate::homebrew::found(known, disk), pyenv);
            lemma_store_with_result_managed(c, conda, pyenv);
        },
    }
}

/// A candidate of a directory of virtual environments is on its own: the
/// environment that it is has no manager and is of no kind that has one.
pub proof fn lemma_classified_is_unmanaged(known: Known, disk: Seq<EntryView>, env: PythonEnvView)
    ensures
        match classified(known, disk, env) {
            Some(found) => crate::locator::unmanaged(found),
            None => true,
        },
{
}

/// Looking at the candidates of the directories of virtual environments
/// keeps the store looked after by kind.
pub proof fn lemma_store_with_candidates_managed(
    known: Known,
    disk: Seq<EntryView>,
    store: StoreView,
    envs: Seq<PythonEnvView>,
    pyenv: Option<EnvManagerView>,
)
    requires
        all_managed_as_their_kind(store.environments, pyenv),
    ensures
        all_managed_as_their_kind(
            store_with_candidates(known, disk, store, envs).environments,
            pyenv,
        ),
    decreases envs.len(),
{
    if envs.len() > 0 {
        lemma_store_with_candidates_managed(known, disk, store, envs.drop_last(), pyenv);
        let sofar = store_with_candidates(known, disk, store, envs.drop_last());
        lemma_classified_is_unmanaged(known, disk, envs.last());
        match classified(known, disk, envs.last()) {
            Some(found) => {
                lemma_reported_environment_managed(sofar, found, pyenv);
            },
            None => {},
        }
    }
}

/// Every environment of the inventory is looked after as its kind asks.
/// Each environment of pyenv, a CPython or a virtual environment, carries the
/// pyenv of the machine and is run by one path alone. Each environment of
/// Conda carries a manager of tool Conda and is run through the executable of
/// that manager, `-n` and its name or `-p` and its path. Every other
/// environment has no manager.
pub proof fn lemma_inventory_is_managed_by_kind(
    known: Known,
    disk: Seq<EntryView>,
    keys: Seq<RegistryKeyView>,
)
    ensures
        all_managed_as_their_kind(
            discovered(known, disk, keys).environments,
            crate::pyenv::pyenv_manager(crate::pyenv::pyenv_info(known, disk)),
        ),
{
    let pyenv = crate::pyenv::pyenv_manager(crate::pyenv::pyenv_info(known, disk));
    let empty = StoreView { managers: seq![], environments: seq![], logs: seq![], exited: false };
    lemma_store_after_global_finders_managed(known, disk, keys, empty);
    let structured = store_after_global_finders(known, disk, keys, empty);
    lemma_store_with_candidates_managed(
        known,
        disk,
        structured,
        global_virtual_envs(known, disk),
        pyenv,
    );
    let virtual_environments = store_with_candidates(
        known,
        disk,
        structured,
        global_virtual_envs(known, disk),
    );
    lemma_sources_find_managed(known, disk, keys);
    lemma_store_with_result_managed(
        virtual_environments,
        crate::common_python::found(known, disk),
        pyenv,
    );
}

/// Discovers every Python on the machine that `environment`, `fs` and
/// `registry` describe. The result holds each installation once.
pub fn find_and_report_envs<E: Environment>(environment: &E, fs: &FileSystem, registry: &Registry) -> (r:
    JsonRpcDispatcher)
    ensures
        r.deep_view() == discovered(environment.known(), fs.deep_view(), registry.deep_view()),
        r.wf(),
{
    let mut dispatcher = create_dispatcher();

    // The sources that know where to look.
    find_using_global_finders(environment, fs, registry, &mut dispatcher);

    // The directories in which virtual environments are kept.
    find_in_global_virtual_env_dirs(environment, fs, &mut dispatcher);

    // The search path.
    let mut path_locator = crate::common_python::PythonOnPath::with(environment, fs);
    report_result(path_locator.find(), &mut dispatcher);
    dispatcher
}

} // verus!

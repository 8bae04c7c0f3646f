//! The records that discovery reports, and the store that keeps them free of
//! duplicates.

use crate::logging::{Log, LogView};
use crate::lists::{
    first_index, lemma_first_index, lemma_select_members, lemma_select_step, select,
};
use crate::text::{
    add_missing, clone_list, clone_option, clone_option_list, lemma_add_missing_holds,
    lemma_add_missing_keeps, lemma_add_missing_of_members, list_contains, push_missing, same_str,
};
use crate::utils::{
    environment_key, environment_manager_key, find_shortest, get_environment_key,
    get_environment_manager_key, lemma_shortest_member, shortest, PythonEnv,
};
use vstd::prelude::*;

verus! {

/// The tools that manage environments.
#[derive(Clone, Copy, Debug, PartialEq, Eq, Structural)]
pub enum EnvManagerType {
    Conda,
    Pyenv,
}

/// A tool that owns environments and can activate them.
#[derive(Debug, PartialEq, Eq)]
pub struct EnvManager {
    pub executable_path: String,
    pub version: Option<String>,
    pub tool: EnvManagerType,
    pub company: Option<String>,
    pub company_display_name: Option<String>,
}

pub struct EnvManagerView {
    pub executable_path: Seq<char>,
    pub version: Option<Seq<char>>,
    pub tool: EnvManagerType,
    pub company: Option<Seq<char>>,
    pub company_display_name: Option<Seq<char>>,
}

impl DeepView for EnvManager {
    type V = EnvManagerView;

    open spec fn deep_view(&self) -> EnvManagerView {
        EnvManagerView {
            executable_path: self.executable_path@,
            version: self.version.deep_view(),
            tool: self.tool,
            company: self.company.deep_view(),
            company_display_name: self.company_display_name.deep_view(),
        }
    }
}

impl Clone for EnvManager {
    fn clone(&self) -> (r: Self)
        ensures
            r.deep_view() == self.deep_view(),
    {
        EnvManager {
            executable_path: self.executable_path.clone(),
            version: clone_option(&self.version),
            tool: self.tool,
            company: clone_option(&self.company),
            company_display_name: clone_option(&self.company_display_name),
        }
    }
}

impl EnvManager {
    /// A manager without company data.
    pub fn new(executable_path: String, version: Option<String>, tool: EnvManagerType) -> (r: Self)
        ensures
            r.deep_view() == (EnvManagerView {
                executable_path: executable_path@,
                version: version.deep_view(),
                tool,
                company: None,
                company_display_name: None,
            }),
    {
        Self { executable_path, version, tool, company: None, company_display_name: None }
    }
}

/// The message that announces a manager.
#[derive(Debug, PartialEq, Eq)]
pub struct EnvManagerMessage {
    pub jsonrpc: String,
    pub method: String,
    pub params: EnvManager,
}

impl EnvManagerMessage {
    pub fn new(params: EnvManager) -> (r: Self)
        ensures
            r.jsonrpc@ == "2.0"@,
            r.method@ == "envManager"@,
            r.params == params,
    {
        Self { jsonrpc: "2.0".to_owned(), method: "envManager".to_owned(), params }
    }
}

/// The kinds of environment. The set is closed.
#[derive(Clone, Copy, Debug, PartialEq, Eq, Structural)]
pub enum PythonEnvironmentCategory {
    System,
    Homebrew,
    Conda,
    Pyenv,
    PyenvVirtualEnv,
    WindowsStore,
    WindowsRegistry,
    Pipenv,
    VirtualEnvWrapper,
    Venv,
    VirtualEnv,
}

#[derive(Clone, Copy, Debug, PartialEq, Eq, Structural)]
pub enum Architecture {
    X64,
    X86,
}

/// One classified, runnable Python installation or virtual environment.
#[derive(Debug, PartialEq, Eq)]
pub struct PythonEnvironment {
    pub display_name: Option<String>,
    pub name: Option<String>,
    pub python_executable_path: Option<String>,
    pub category: PythonEnvironmentCategory,
    pub version: Option<String>,
    pub env_path: Option<String>,
    pub env_manager: Option<EnvManager>,
    pub python_run_command: Option<Vec<String>>,
    /// The project that a Pipenv environment belongs to.
    pub project_path: Option<String>,
    pub arch: Option<Architecture>,
    /// Other paths known to lead to the same interpreter.
    pub symlinks: Option<Vec<String>>,
    pub creation_time: Option<u128>,
    pub modified_time: Option<u128>,
    pub company: Option<String>,
    pub company_display_name: Option<String>,
}

pub struct PythonEnvironmentView {
    pub display_name: Option<Seq<char>>,
    pub name: Option<Seq<char>>,
    pub python_executable_path: Option<Seq<char>>,
    pub category: PythonEnvironmentCategory,
    pub version: Option<Seq<char>>,
    pub env_path: Option<Seq<char>>,
    pub env_manager: Option<EnvManagerView>,
    pub python_run_command: Option<Seq<Seq<char>>>,
    pub project_path: Option<Seq<char>>,
    pub arch: Option<Architecture>,
    pub symlinks: Option<Seq<Seq<char>>>,
    pub creation_time: Option<u128>,
    pub modified_time: Option<u128>,
    pub company: Option<Seq<char>>,
    pub company_display_name: Option<Seq<char>>,
}

impl DeepView for PythonEnvironment {
    type V = PythonEnvironmentView;

    open spec fn deep_view(&self) -> PythonEnvironmentView {
        PythonEnvironmentView {
            display_name: self.display_name.deep_view(),
            name: self.name.deep_view(),
            python_executable_path: self.python_executable_path.deep_view(),
            category: self.category,
            version: self.version.deep_view(),
            env_path: self.env_path.deep_view(),
            env_manager: self.env_manager.deep_view(),
            python_run_command: self.python_run_command.deep_view(),
            project_path: self.project_path.deep_view(),
            arch: self.arch,
            symlinks: self.symlinks.deep_view(),
            creation_time: self.creation_time,
            modified_time: self.modified_time,
            company: self.company.deep_view(),
            company_display_name: self.company_display_name.deep_view(),
        }
    }
}

/// An environment of the System kind of which nothing else is known.
pub open spec fn empty_environment() -> PythonEnvironmentView {
    PythonEnvironmentView {
        display_name: None,
        name: None,
        python_executable_path: None,
        category: PythonEnvironmentCategory::System,
        version: None,
        env_path: None,
        env_manager: None,
        python_run_command: None,
        project_path: None,
        arch: None,
        symlinks: None,
        creation_time: None,
        modified_time: None,
        company: None,
        company_display_name: None,
    }
}

/// An environment with the eight leading fields given and nothing else known.
pub open spec fn new_environment(
    display_name: Option<Seq<char>>,
    name: Option<Seq<char>>,
    python_executable_path: Option<Seq<char>>,
    category: PythonEnvironmentCategory,
    version: Option<Seq<char>>,
    env_path: Option<Seq<char>>,
    env_manager: Option<EnvManagerView>,
    python_run_command: Option<Seq<Seq<char>>>,
) -> PythonEnvironmentView {
    PythonEnvironmentView {
        display_name,
        name,
        python_executable_path,
        category,
        version,
        env_path,
        env_manager,
        python_run_command,
        ..empty_environment()
    }
}

/// A copy of `o`.
pub fn clone_manager_option(o: &Option<EnvManager>) -> (r: Option<EnvManager>)
    ensures
        r.deep_view() == o.deep_view(),
{
    match o {
        Some(m) => Some(m.clone()),
        None => None,
    }
}

impl Clone for PythonEnvironment {
    fn clone(&self) -> (r: Self)
        ensures
            r.deep_view() == self.deep_view(),
    {
        PythonEnvironment {
            display_name: clone_option(&self.display_name),
            name: clone_option(&self.name),
            python_executable_path: clone_option(&self.python_executable_path),
            category: self.category,
            version: clone_option(&self.version),
            env_path: clone_option(&self.env_path),
            env_manager: clone_manager_option(&self.env_manager),
            python_run_command: clone_option_list(&self.python_run_command),
            project_path: clone_option(&self.project_path),
            arch: self.arch,
            symlinks: clone_option_list(&self.symlinks),
            creation_time: self.creation_time,
            modified_time: self.modified_time,
            company: clone_option(&self.company),
            company_display_name: clone_option(&self.company_display_name),
        }
    }
}

impl Default for PythonEnvironment {
    fn default() -> (r: Self)
        ensures
            r.deep_view() == empty_environment(),
    {
        Self {
            display_name: None,
            name: None,
            python_executable_path: None,
            category: PythonEnvironmentCategory::System,
            version: None,
            env_path: None,
            env_manager: None,
            python_run_command: None,
            project_path: None,
            arch: None,
            symlinks: None,
            creation_time: None,
            modified_time: None,
            company: None,
            company_display_name: None,
        }
    }
}

impl PythonEnvironment {
    pub fn new(
        display_name: Option<String>,
        name: Option<String>,
        python_executable_path: Option<String>,
        category: PythonEnvironmentCategory,
        version: Option<String>,
        env_path: Option<String>,
        env_manager: Option<EnvManager>,
        python_run_command: Option<Vec<String>>,
    ) -> (r: Self)
        ensures
            r.deep_view() == new_environment(
                display_name.deep_view(),
                name.deep_view(),
                python_executable_path.deep_view(),
                category,
                version.deep_view(),
                env_path.deep_view(),
                env_manager.deep_view(),
                python_run_command.deep_view(),
            ),
    {
        Self {
            display_name,
            name,
            python_executable_path,
            category,
            version,
            env_path,
            env_manager,
            python_run_command,
            project_path: None,
            arch: None,
            symlinks: None,
            creation_time: None,
            modified_time: None,
            company: None,
            company_display_name: None,
        }
    }
}

/// The message that announces an environment.
#[derive(Debug, PartialEq, Eq)]
pub struct PythonEnvironmentMessage {
    pub jsonrpc: String,
    pub method: String,
    pub params: PythonEnvironment,
}

impl PythonEnvironmentMessage {
    pub fn new(params: PythonEnvironment) -> (r: Self)
        ensures
            r.jsonrpc@ == "2.0"@,
            r.method@ == "pythonEnvironment"@,
            r.params == params,
    {
        Self { jsonrpc: "2.0".to_owned(), method: "pythonEnvironment".to_owned(), params }
    }
}

/// The message that ends a run.
#[derive(Debug, PartialEq, Eq)]
pub struct ExitMessage {
    pub jsonrpc: String,
    pub method: String,
    pub params: Option<()>,
}

impl ExitMessage {
    pub fn new() -> (r: Self)
        ensures
            r.jsonrpc@ == "2.0"@,
            r.method@ == "exit"@,
            r.params is None,
    {
        Self { jsonrpc: "2.0".to_owned(), method: "exit".to_owned(), params: None }
    }
}

/// Where the records of a run arrive.
pub trait MessageDispatcher {
    /// Whether the executable of the candidate `env` belongs to a reported environment.
    fn was_environment_reported(&self, env: &PythonEnv) -> bool;

    fn report_environment_manager(&mut self, env: EnvManager);

    fn report_environment(&mut self, env: PythonEnvironment);

    /// Ends the run.
    fn exit(&mut self);
}

/// The store of a run: the managers and the environments that were reported,
/// each physical installation once.
#[derive(Debug, PartialEq, Eq)]
pub struct JsonRpcDispatcher {
    pub reported_managers: Vec<EnvManager>,
    pub reported_environments: Vec<PythonEnvironment>,
    /// The log records of the run, in order.
    pub logs: Vec<Log>,
    pub exited: bool,
}

pub struct StoreView {
    pub managers: Seq<EnvManagerView>,
    pub environments: Seq<PythonEnvironmentView>,
    pub logs: Seq<LogView>,
    pub exited: bool,
}

impl DeepView for JsonRpcDispatcher {
    type V = StoreView;

    open spec fn deep_view(&self) -> StoreView {
        StoreView {
            managers: self.reported_managers.deep_view(),
            environments: self.reported_environments.deep_view(),
            logs: self.logs.deep_view(),
            exited: self.exited,
        }
    }
}

/// The identity keys of `environments`, in order.
pub open spec fn environment_keys(environments: Seq<PythonEnvironmentView>) -> Seq<
    Option<Seq<char>>,
> {
    Seq::new(environments.len(), |i: int| environment_key(environments[i]))
}

/// The identity keys of `managers`, in order.
pub open spec fn manager_keys(managers: Seq<EnvManagerView>) -> Seq<Seq<char>> {
    Seq::new(managers.len(), |i: int| environment_manager_key(managers[i]))
}

/// Every environment has an identity key, and no two share one.
pub open spec fn distinct_environments(environments: Seq<PythonEnvironmentView>) -> bool {
    &&& forall|i: int|
        0 <= i < environments.len() ==> environment_key(#[trigger] environments[i]) is Some
    &&& forall|i: int, j: int|
        0 <= i < j < environments.len() ==> environment_key(#[trigger] environments[i])
            != environment_key(#[trigger] environments[j])
}

/// No two managers share an identity key.
pub open spec fn distinct_managers(managers: Seq<EnvManagerView>) -> bool {
    forall|i: int, j: int|
        0 <= i < j < managers.len() ==> environment_manager_key(#[trigger] managers[i])
            != environment_manager_key(#[trigger] managers[j])
}

/// The store holds each installation once.
pub open spec fn well_formed(store: StoreView) -> bool {
    distinct_environments(store.environments) && distinct_managers(store.managers)
}

/// The other names of an environment.
pub open spec fn aliases_of(env: PythonEnvironmentView) -> Seq<Seq<char>> {
    match env.symlinks {
        Some(aliases) => aliases,
        None => seq![],
    }
}

/// The index of the manager of `managers` whose key is `key`.
pub open spec fn manager_with_key(managers: Seq<EnvManagerView>, key: Seq<char>) -> Option<int> {
    first_index(managers, |manager: EnvManagerView| environment_manager_key(manager) == key)
}

/// The index of the environment of `environments` whose key is `key`.
pub open spec fn environment_with_key(environments: Seq<PythonEnvironmentView>, key: Seq<char>) -> Option<
    int,
> {
    first_index(environments, |env: PythonEnvironmentView| environment_key(env) == Some(key))
}

/// The index of the first environment of `environments` that has `path`
/// among its other names.
pub open spec fn environment_with_alias(environments: Seq<PythonEnvironmentView>, path: Seq<char>) -> Option<
    int,
> {
    first_index(environments, |env: PythonEnvironmentView| aliases_of(env).contains(path))
}

/// `record` goes by one of `names`: one of them is its key or another name of it.
pub open spec fn shares_name(record: PythonEnvironmentView, names: Seq<Seq<char>>) -> bool {
    exists|k: int|
        0 <= k < names.len() && (environment_key(record) == Some(#[trigger] names[k])
            || aliases_of(record).contains(names[k]))
}

/// The index of the first environment of `environments` that goes by one of `names`.
pub open spec fn environment_sharing_name(
    environments: Seq<PythonEnvironmentView>,
    names: Seq<Seq<char>>,
) -> Option<int> {
    first_index(environments, |record: PythonEnvironmentView| shares_name(record, names))
}

/// The names of an environment: its other names, then its key.
pub open spec fn names_of(env: PythonEnvironmentView, key: Seq<char>) -> Seq<Seq<char>> {
    aliases_of(env).push(key)
}

/// `managers`, once `manager` has been reported: it is added unless a
/// manager with its key is there.
pub open spec fn reported_manager(managers: Seq<EnvManagerView>, manager: EnvManagerView) -> Seq<
    EnvManagerView,
> {
    match manager_with_key(managers, environment_manager_key(manager)) {
        Some(_) => managers,
        None => managers.push(manager),
    }
}

/// The names of `current` with those of `more` that it lacks behind them.
/// An environment without names stays without, where there is nothing to add.
pub open spec fn merged_symlinks(current: Option<Seq<Seq<char>>>, more: Seq<Seq<char>>) -> Option<
    Seq<Seq<char>>,
> {
    match current {
        Some(aliases) => Some(add_missing(aliases, more)),
        None => if more.len() == 0 {
            None
        } else {
            Some(add_missing(seq![], more))
        },
    }
}

/// `record`, once an environment with the same key and the names `more` has
/// been reported: the names are added, nothing else changes.
pub open spec fn with_more_aliases(record: PythonEnvironmentView, more: Seq<Seq<char>>) -> PythonEnvironmentView {
    PythonEnvironmentView { symlinks: merged_symlinks(record.symlinks, more), ..record }
}

/// The names of `candidates` by which the record with the executable
/// `current` may be shown: `current` itself, and every name that is not the key
/// of a reported environment.
pub open spec fn free_names(
    candidates: Seq<Seq<char>>,
    current: Seq<char>,
    environments: Seq<PythonEnvironmentView>,
) -> Seq<Seq<char>> {
    select(candidates, |name: Seq<char>| is_free_name(name, current, environments))
}

/// `name` is `current` or the key of no reported environment.
pub open spec fn is_free_name(
    name: Seq<char>,
    current: Seq<char>,
    environments: Seq<PythonEnvironmentView>,
) -> bool {
    name == current || environment_with_key(environments, name) is None
}

/// `record`, once an environment has been reported that shares a name with
/// it. The names `more` of that environment are added, and so is the executable
/// of `record`. The record is then shown by the shortest of its names that is
/// no other environment's key.
pub open spec fn with_attached(
    record: PythonEnvironmentView,
    more: Seq<Seq<char>>,
    environments: Seq<PythonEnvironmentView>,
) -> PythonEnvironmentView {
    match record.python_executable_path {
        None => with_more_aliases(record, more),
        Some(current) => {
            let aliases = add_missing(aliases_of(record), more.push(current));
            PythonEnvironmentView {
                python_executable_path: match shortest(
                    free_names(aliases, current, environments),
                ) {
                    Some(name) => Some(name),
                    None => Some(current),
                },
                symlinks: Some(aliases),
                ..record
            }
        },
    }
}

/// `environments`, once `env` has been reported. An environment without a key
/// is dropped. One whose key is there adds its names to the record that is
/// there. One that shares a name with a record becomes part of that record.
/// Any other is added.
pub open spec fn reported_environments(
    environments: Seq<PythonEnvironmentView>,
    env: PythonEnvironmentView,
) -> Seq<PythonEnvironmentView> {
    match environment_key(env) {
        None => environments,
        Some(key) => match environment_with_key(environments, key) {
            Some(i) => if 0 <= i < environments.len() {
                environments.update(i, with_more_aliases(environments[i], aliases_of(env)))
            } else {
                environments
            },
            None => match environment_sharing_name(environments, names_of(env, key)) {
                Some(i) => if 0 <= i < environments.len() {
                    environments.update(
                        i,
                        with_attached(environments[i], names_of(env, key), environments),
                    )
                } else {
                    environments
                },
                None => environments.push(env),
            },
        },
    }
}

/// `store`, once `env` has been reported: its manager first, then itself.
pub open spec fn reported_environment(store: StoreView, env: PythonEnvironmentView) -> StoreView {
    match environment_key(env) {
        None => store,
        Some(_) => StoreView {
            managers: match env.env_manager {
                Some(manager) => reported_manager(store.managers, manager),
                None => store.managers,
            },
            environments: reported_environments(store.environments, env),
            ..store
        },
    }
}

/// The executable `path` belongs to a reported environment: it is the key of
/// one or another name of one.
pub open spec fn claimed(environments: Seq<PythonEnvironmentView>, path: Seq<char>) -> bool {
    environment_with_key(environments, path) is Some || environment_with_alias(
        environments,
        path,
    ) is Some
}

/// Every free name is the current one or the key of no reported environment.
pub proof fn lemma_free_names(
    candidates: Seq<Seq<char>>,
    current: Seq<char>,
    environments: Seq<PythonEnvironmentView>,
)
    ensures
        forall|k: int|
            0 <= k < free_names(candidates, current, environments).len() ==> (#[trigger] free_names(
                candidates,
                current,
                environments,
            )[k] == current || environment_with_key(
                environments,
                free_names(candidates, current, environments)[k],
            ) is None),
{
    let keep = |name: Seq<char>| is_free_name(name, current, environments);
    let free = free_names(candidates, current, environments);
    lemma_select_members(candidates, keep);
    assert(free == select(candidates, keep));
    assert forall|k: int| 0 <= k < free.len() implies (#[trigger] free[k] == current
        || environment_with_key(environments, free[k]) is None) by {
        assert(keep(select(candidates, keep)[k]));
    }
}

/// Reporting a manager keeps the keys of the managers distinct.
pub proof fn lemma_reported_manager_distinct(managers: Seq<EnvManagerView>, manager: EnvManagerView)
    requires
        distinct_managers(managers),
    ensures
        distinct_managers(reported_manager(managers, manager)),
{
    lemma_first_index(
        managers,
        |m: EnvManagerView| environment_manager_key(m) == environment_manager_key(manager),
    );
}

/// Reporting an environment keeps the identity keys pairwise distinct: no
/// run reports two environments with one key.
pub proof fn lemma_reported_environments_distinct(
    environments: Seq<PythonEnvironmentView>,
    env: PythonEnvironmentView,
)
    requires
        distinct_environments(environments),
    ensures
        distinct_environments(reported_environments(environments, env)),
{
    match environment_key(env) {
        None => {},
        Some(key) => {
            let by_key = |e: PythonEnvironmentView| environment_key(e) == Some(key);
            let by_name = |e: PythonEnvironmentView| shares_name(e, names_of(env, key));
            lemma_first_index(environments, by_key);
            lemma_first_index(environments, by_name);
            let after = reported_environments(environments, env);
            match environment_with_key(environments, key) {
                Some(i) => {
                    assert forall|a: int| 0 <= a < after.len() implies environment_key(
                        #[trigger] after[a],
                    ) == environment_key(environments[a]) by {}
                },
                None => match environment_sharing_name(environments, names_of(env, key)) {
                    Some(i) => {
                        let record = environments[i];
                        match record.python_executable_path {
                            None => {
                                assert forall|a: int| 0 <= a < after.len() implies environment_key(
                                    #[trigger] after[a],
                                ) == environment_key(environments[a]) by {}
                            },
                            Some(current) => {
                                let aliases = add_missing(
                                    aliases_of(record),
                                    names_of(env, key).push(current),
                                );
                                let free = free_names(aliases, current, environments);
                                lemma_free_names(aliases, current, environments);
                                lemma_shortest_member(free);
                                let picked = environment_key(after[i])->0;
                                assert(environment_key(after[i]) is Some);
                                assert forall|a: int|
                                    0 <= a < after.len() && a != i implies environment_key(
                                    #[trigger] after[a],
                                ) != Some(picked) by {
                                    assert(after[a] == environments[a]);
                                    if picked != current {
                                        let w = choose|w: int|
                                            0 <= w < free.len() && free[w] == picked;
                                        assert(environment_with_key(environments, free[w]) is None);
                                        lemma_first_index(
                                            environments,
                                            |e: PythonEnvironmentView|
                                                environment_key(e) == Some(picked),
                                        );
                                    } else {
                                        assert(environment_key(environments[i]) == Some(current));
                                    }
                                }
                                assert forall|a: int, b: int|
                                    0 <= a < b < after.len() implies environment_key(
                                    #[trigger] after[a],
                                ) != environment_key(#[trigger] after[b]) by {
                                    if a != i && b != i {
                                        assert(after[a] == environments[a]);
                                        assert(after[b] == environments[b]);
                                    }
                                }
                            },
                        }
                    },
                    None => {
                        assert forall|a: int, b: int|
                            0 <= a < b < after.len() implies environment_key(#[trigger] after[a])
                            != environment_key(#[trigger] after[b]) by {
                            if b < environments.len() {
                                assert(after[a] == environments[a]);
                                assert(after[b] == environments[b]);
                            } else {
                                assert(after[a] == environments[a]);
                                assert(!by_key(environments[a]));
                            }
                        }
                    },
                },
            }
        },
    }
}

/// Reporting an environment keeps the store well formed.
pub proof fn lemma_reported_environment_well_formed(store: StoreView, env: PythonEnvironmentView)
    requires
        well_formed(store),
    ensures
        well_formed(reported_environment(store, env)),
{
    lemma_reported_environments_distinct(store.environments, env);
    match env.env_manager {
        Some(manager) => {
            lemma_reported_manager_distinct(store.managers, manager);
        },
        None => {},
    }
}

/// An installation that is reported again is not reported twice: the
/// environment with its key stays the only one, keeps its key, and has the
/// names of the newcomer among its own.
pub proof fn lemma_same_key_is_merged(
    environments: Seq<PythonEnvironmentView>,
    env: PythonEnvironmentView,
    key: Seq<char>,
    i: int,
)
    requires
        environment_key(env) == Some(key),
        environment_with_key(environments, key) == Some(i),
    ensures
        0 <= i < environments.len(),
        reported_environments(environments, env).len() == environments.len(),
        environment_key(reported_environments(environments, env)[i]) == Some(key),
        forall|k: int|
            0 <= k < aliases_of(env).len() ==> aliases_of(
                reported_environments(environments, env)[i],
            ).contains(#[trigger] aliases_of(env)[k]),
{
    lemma_first_index(
        environments,
        |e: PythonEnvironmentView| environment_key(e) == Some(key),
    );
    let more = aliases_of(env);
    let after = reported_environments(environments, env);
    assert forall|k: int| 0 <= k < more.len() implies aliases_of(after[i]).contains(
        #[trigger] more[k],
    ) by {
        match environments[i].symlinks {
            Some(aliases) => {
                lemma_add_missing_holds(aliases, more, k);
            },
            None => {
                lemma_add_missing_holds(seq![], more, k);
            },
        }
    }
}

/// Reporting again what the store holds changes nothing: the environments,
/// and with them the identity keys, stay as they are.
pub proof fn lemma_reporting_again_changes_nothing(environments: Seq<PythonEnvironmentView>, i: int)
    requires
        distinct_environments(environments),
        0 <= i < environments.len(),
    ensures
        reported_environments(environments, environments[i]) == environments,
{
    let env = environments[i];
    let key = environment_key(env)->0;
    lemma_first_index(
        environments,
        |e: PythonEnvironmentView| environment_key(e) == Some(key),
    );
    let found = environment_with_key(environments, key)->0;
    assert(found == i) by {
        if found < i {
            assert(environment_key(environments[found]) != environment_key(environments[i]));
        }
    }
    match env.symlinks {
        Some(aliases) => {
            assert forall|k: int| 0 <= k < aliases.len() implies aliases.contains(
                #[trigger] aliases[k],
            ) by {}
            lemma_add_missing_of_members(aliases, aliases);
        },
        None => {},
    }
    assert(reported_environments(environments, env) =~= environments);
}

/// `after` is `before` under other names: the two differ at most in the
/// path by which the environment is shown and in its other names.
pub open spec fn same_but_names(after: PythonEnvironmentView, before: PythonEnvironmentView) -> bool {
    after == PythonEnvironmentView {
        python_executable_path: after.python_executable_path,
        symlinks: after.symlinks,
        ..before
    }
}

/// Reporting touches names only: each record that was there stays what it
/// was in kind, version, directory, manager and command, and the list either
/// keeps its length or has the reported environment behind it.
pub proof fn lemma_reporting_touches_names_only(
    environments: Seq<PythonEnvironmentView>,
    env: PythonEnvironmentView,
)
    ensures
        reported_environments(environments, env).len() == environments.len()
            || reported_environments(environments, env) == environments.push(env),
        environments.len() <= reported_environments(environments, env).len(),
        forall|i: int|
            0 <= i < environments.len() ==> same_but_names(
                #[trigger] reported_environments(environments, env)[i],
                environments[i],
            ),
{
}

/// The names of an environment only grow: reporting an environment removes
/// no record, and every other name that a record had it still has.
pub proof fn lemma_aliases_only_grow(
    environments: Seq<PythonEnvironmentView>,
    env: PythonEnvironmentView,
)
    ensures
        environments.len() <= reported_environments(environments, env).len(),
        forall|i: int, k: int|
            0 <= i < environments.len() && 0 <= k < aliases_of(environments[i]).len()
                ==> aliases_of(reported_environments(environments, env)[i]).contains(
                #[trigger] aliases_of(environments[i])[k],
            ),
{
    let after = reported_environments(environments, env);
    assert forall|i: int, k: int|
        0 <= i < environments.len() && 0 <= k < aliases_of(
            environments[i],
        ).len() implies aliases_of(after[i]).contains(
        #[trigger] aliases_of(environments[i])[k],
    ) by {
        let before = aliases_of(environments[i]);
        if after[i] == environments[i] {
            assert(aliases_of(after[i])[k] == before[k]);
        } else {
            let more = match environment_key(env) {
                Some(key) => if environment_with_key(environments, key) is Some {
                    aliases_of(env)
                } else {
                    names_of(env, key)
                },
                None => aliases_of(env),
            };
            let record = environments[i];
            match record.python_executable_path {
                Some(current) => {
                    lemma_add_missing_keeps(before, more);
                    lemma_add_missing_keeps(before, more.push(current));
                    lemma_add_missing_keeps(seq![], more);
                },
                None => {
                    lemma_add_missing_keeps(before, more);
                    lemma_add_missing_keeps(seq![], more);
                },
            }
            assert(aliases_of(after[i])[k] == before[k]);
        }
    }
}

/// The index of the manager of `managers` whose key is `key`.
#[verifier::loop_isolation(false)]
fn find_manager_with_key(managers: &Vec<EnvManager>, key: &str) -> (r: Option<usize>)
    ensures
        match r {
            Some(i) => manager_with_key(managers.deep_view(), key@) == Some(i as int) && i
                < managers.len(),
            None => manager_with_key(managers.deep_view(), key@) is None,
        },
{
    let ghost all = managers.deep_view();
    let ghost wanted = |manager: EnvManagerView| environment_manager_key(manager) == key@;
    proof {
        lemma_first_index(all, wanted);
    }
    let mut i: usize = 0;
    while i < managers.len()
        invariant
            i <= managers.len(),
            forall|j: int| 0 <= j < i ==> !wanted(#[trigger] all[j]),
        decreases managers.len() - i,
    {
        if same_str(managers[i].executable_path.as_str(), key) {
            assert(wanted(all[i as int]));
            return Some(i);
        }
        i = i + 1;
    }
    None
}

/// The index of the environment of `environments` whose key is `key`.
#[verifier::loop_isolation(false)]
fn find_environment_with_key(environments: &Vec<PythonEnvironment>, key: &str) -> (r: Option<
    usize,
>)
    ensures
        match r {
            Some(i) => environment_with_key(environments.deep_view(), key@) == Some(i as int) && i
                < environments.len(),
            None => environment_with_key(environments.deep_view(), key@) is None,
        },
{
    let ghost all = environments.deep_view();
    let ghost wanted = |env: PythonEnvironmentView| environment_key(env) == Some(key@);
    proof {
        lemma_first_index(all, wanted);
    }
    let mut i: usize = 0;
    while i < environments.len()
        invariant
            i <= environments.len(),
            forall|j: int| 0 <= j < i ==> !wanted(#[trigger] all[j]),
        decreases environments.len() - i,
    {
        let same = match get_environment_key(&environments[i]) {
            Some(found) => same_str(found.as_str(), key),
            None => false,
        };
        if same {
            assert(wanted(all[i as int]));
            return Some(i);
        }
        i = i + 1;
    }
    None
}

/// The index of the first environment that has `path` among its other names.
#[verifier::loop_isolation(false)]
fn find_environment_with_alias(environments: &Vec<PythonEnvironment>, path: &str) -> (r: Option<
    usize,
>)
    ensures
        match r {
            Some(i) => environment_with_alias(environments.deep_view(), path@) == Some(i as int)
                && i < environments.len(),
            None => environment_with_alias(environments.deep_view(), path@) is None,
        },
{
    let ghost all = environments.deep_view();
    let ghost wanted = |env: PythonEnvironmentView| aliases_of(env).contains(path@);
    proof {
        lemma_first_index(all, wanted);
    }
    let mut i: usize = 0;
    while i < environments.len()
        invariant
            i <= environments.len(),
            forall|j: int| 0 <= j < i ==> !wanted(#[trigger] all[j]),
        decreases environments.len() - i,
    {
        let has = match &environments[i].symlinks {
            Some(aliases) => list_contains(aliases, path),
            None => false,
        };
        if has {
            assert(wanted(all[i as int]));
            return Some(i);
        }
        i = i + 1;
    }
    None
}

/// Whether `record` goes by one of `names`.
#[verifier::loop_isolation(false)]
fn goes_by(record: &PythonEnvironment, names: &Vec<String>) -> (r: bool)
    ensures
        r == shares_name(record.deep_view(), names.deep_view()),
{
    let key = get_environment_key(record);
    let aliases = get_aliases_of(record);
    let ghost all = names.deep_view();
    let mut k: usize = 0;
    while k < names.len()
        invariant
            k <= names.len(),
            forall|j: int|
                0 <= j < k ==> !(environment_key(record.deep_view()) == Some(#[trigger] all[j])
                    || aliases_of(record.deep_view()).contains(all[j])),
        decreases names.len() - k,
    {
        let is_key = match &key {
            Some(key) => same_str(key.as_str(), names[k].as_str()),
            None => false,
        };
        if is_key || list_contains(&aliases, names[k].as_str()) {
            assert(environment_key(record.deep_view()) == Some(all[k as int]) || aliases_of(
                record.deep_view(),
            ).contains(all[k as int]));
            return true;
        }
        k = k + 1;
    }
    false
}

/// The index of the first environment that goes by one of `names`.
#[verifier::loop_isolation(false)]
fn find_environment_sharing_name(environments: &Vec<PythonEnvironment>, names: &Vec<String>) -> (r:
    Option<usize>)
    ensures
        match r {
            Some(i) => environment_sharing_name(environments.deep_view(), names.deep_view())
                == Some(i as int) && i < environments.len(),
            None => environment_sharing_name(environments.deep_view(), names.deep_view()) is None,
        },
{
    let ghost all = environments.deep_view();
    let ghost wanted = |record: PythonEnvironmentView| shares_name(record, names.deep_view());
    proof {
        lemma_first_index(all, wanted);
    }
    let mut i: usize = 0;
    while i < environments.len()
        invariant
            i <= environments.len(),
            forall|j: int| 0 <= j < i ==> !wanted(#[trigger] all[j]),
        decreases environments.len() - i,
    {
        if goes_by(&environments[i], names) {
            assert(wanted(all[i as int]));
            return Some(i);
        }
        i = i + 1;
    }
    None
}

/// The other names of an environment.
pub fn get_aliases_of(env: &PythonEnvironment) -> (r: Vec<String>)
    ensures
        r.deep_view() == aliases_of(env.deep_view()),
{
    match &env.symlinks {
        Some(aliases) => clone_list(aliases),
        None => {
            let none: Vec<String> = Vec::new();
            assert(none.deep_view() =~= Seq::<Seq<char>>::empty());
            none
        },
    }
}

/// `record` with the names `more` added.
pub fn add_more_aliases(record: &PythonEnvironment, more: &Vec<String>) -> (r: PythonEnvironment)
    ensures
        r.deep_view() == with_more_aliases(record.deep_view(), more.deep_view()),
{
    let mut updated = record.clone();
    updated.symlinks = match &record.symlinks {
        Some(aliases) => {
            let mut aliases = clone_list(aliases);
            push_missing(&mut aliases, more);
            Some(aliases)
        },
        None => if more.len() == 0 {
            None
        } else {
            let mut aliases: Vec<String> = Vec::new();
            assert(aliases.deep_view() =~= Seq::<Seq<char>>::empty());
            push_missing(&mut aliases, more);
            Some(aliases)
        },
    };
    updated
}

/// `record` as part of which an environment with the names `more` was reported.
pub fn attach(record: &PythonEnvironment, more: &Vec<String>, environments: &Vec<PythonEnvironment>) -> (r:
    PythonEnvironment)
    ensures
        r.deep_view() == with_attached(
            record.deep_view(),
            more.deep_view(),
            environments.deep_view(),
        ),
{
    let current = match &record.python_executable_path {
        Some(current) => current,
        None => { return add_more_aliases(record, more); },
    };
    let mut aliases = get_aliases_of(record);
    let mut extra = clone_list(more);
    let ghost more_view = extra.deep_view();
    extra.push(current.clone());
    assert(extra.deep_view() =~= more_view.push(current@));
    push_missing(&mut aliases, &extra);

    let ghost all = aliases.deep_view();
    let ghost others = environments.deep_view();
    let ghost keep = |name: Seq<char>| is_free_name(name, current@, others);
    let mut free: Vec<String> = Vec::new();
    let mut i: usize = 0;
    assert(free.deep_view() =~= select(all.take(0), keep));
    while i < aliases.len()
        invariant
            i <= aliases.len(),
            all == aliases.deep_view(),
            others == environments.deep_view(),
            keep == |name: Seq<char>| is_free_name(name, current@, others),
            free.deep_view() == select(all.take(i as int), keep),
        decreases aliases.len() - i,
    {
        proof {
            lemma_select_step(all, keep, i as int);
        }
        let name = aliases[i].as_str();
        if same_str(name, current.as_str()) || find_environment_with_key(environments, name).is_none() {
            let ghost before = free.deep_view();
            free.push(aliases[i].clone());
            assert(free.deep_view() =~= before.push(all[i as int]));
        }
        i = i + 1;
    }
    assert(all.take(all.len() as int) == all);
    let picked = match find_shortest(&free) {
        Some(name) => name,
        None => current.clone(),
    };
    let mut updated = record.clone();
    updated.python_executable_path = Some(picked);
    updated.symlinks = Some(aliases);
    updated
}

impl JsonRpcDispatcher {
    /// The store holds each installation once.
    pub open spec fn wf(&self) -> bool {
        well_formed(self.deep_view())
    }

    /// The environments that were reported, in the order in which each was first reported.
    pub fn environments(&self) -> (r: &Vec<PythonEnvironment>)
        ensures
            r == &self.reported_environments,
    {
        &self.reported_environments
    }

    /// The managers that were reported, in the order in which each was first reported.
    pub fn managers(&self) -> (r: &Vec<EnvManager>)
        ensures
            r == &self.reported_managers,
    {
        &self.reported_managers
    }

    /// Adds `log` to the log records of the run.
    pub fn report_log(&mut self, log: Log)
        ensures
            final(self).deep_view() == (StoreView {
                logs: old(self).deep_view().logs.push(log.deep_view()),
                ..old(self).deep_view()
            }),
            old(self).wf() ==> final(self).wf(),
    {
        let ghost before = self.logs.deep_view();
        self.logs.push(log);
        assert(self.logs.deep_view() =~= before.push(log.deep_view()));
    }
}

impl MessageDispatcher for JsonRpcDispatcher {
    fn was_environment_reported(&self, env: &PythonEnv) -> (r: bool)
        ensures
            r == claimed(self.deep_view().environments, env.executable@),
    {
        let key = env.executable.as_str();
        find_environment_with_key(&self.reported_environments, key).is_some()
            || find_environment_with_alias(&self.reported_environments, key).is_some()
    }

    fn report_environment_manager(&mut self, env: EnvManager)
        ensures
            final(self).deep_view() == (StoreView {
                managers: reported_manager(old(self).deep_view().managers, env.deep_view()),
                ..old(self).deep_view()
            }),
            old(self).wf() ==> final(self).wf(),
    {
        proof {
            if self.wf() {
                lemma_reported_manager_distinct(self.deep_view().managers, env.deep_view());
            }
        }
        let key = get_environment_manager_key(&env);
        if find_manager_with_key(&self.reported_managers, key.as_str()).is_none() {
            let ghost before = self.reported_managers.deep_view();
            self.reported_managers.push(env);
            assert(self.reported_managers.deep_view() =~= before.push(env.deep_view()));
        }
    }

    fn report_environment(&mut self, env: PythonEnvironment)
        ensures
            final(self).deep_view() == reported_environment(old(self).deep_view(), env.deep_view()),
            old(self).wf() ==> final(self).wf(),
    {
        proof {
            if self.wf() {
                lemma_reported_environment_well_formed(self.deep_view(), env.deep_view());
            }
        }
        let key = match get_environment_key(&env) {
            Some(key) => key,
            None => { return ; },
        };
        match &env.env_manager {
            Some(manager) => {
                self.report_environment_manager(manager.clone());
            },
            None => {},
        }
        let ghost before = self.reported_environments.deep_view();
        let mut names = get_aliases_of(&env);
        names.push(key.clone());
        assert(names.deep_view() =~= names_of(env.deep_view(), key@));
        match find_environment_with_key(&self.reported_environments, key.as_str()) {
            Some(i) => {
                let updated = add_more_aliases(&self.reported_environments[i], &get_aliases_of(&env));
                self.reported_environments.set(i, updated);
                assert(self.reported_environments.deep_view() =~= before.update(
                    i as int,
                    updated.deep_view(),
                ));
            },
            None => match find_environment_sharing_name(&self.reported_environments, &names) {
                Some(i) => {
                    let updated = attach(
                        &self.reported_environments[i],
                        &names,
                        &self.reported_environments,
                    );
                    self.reported_environments.set(i, updated);
                    assert(self.reported_environments.deep_view() =~= before.update(
                        i as int,
                        updated.deep_view(),
                    ));
                },
                None => {
                    self.reported_environments.push(env);
                    assert(self.reported_environments.deep_view() =~= before.push(
                        env.deep_view(),
                    ));
                },
            },
        }
    }

    fn exit(&mut self)
        ensures
            final(self).deep_view() == (StoreView { exited: true, ..old(self).deep_view() }),
    {
        self.exited = true;
    }
}

/// A store in which nothing has been reported.
pub fn create_dispatcher() -> (r: JsonRpcDispatcher)
    ensures
        r.deep_view() == (StoreView {
            managers: seq![],
            environments: seq![],
            logs: seq![],
            exited: false,
        }),
        r.wf(),
{
    let r = JsonRpcDispatcher {
        reported_managers: Vec::new(),
        reported_environments: Vec::new(),
        logs: Vec::new(),
        exited: false,
    };
    assert(r.logs.deep_view() =~= Seq::<LogView>::empty());
    assert(r.reported_managers.deep_view() =~= Seq::<EnvManagerView>::empty());
    assert(r.reported_environments.deep_view() =~= Seq::<PythonEnvironmentView>::empty());
    r
}

} // verus!

//! Pythons that the Windows registry records.

use crate::conda::{
    found_in, lemma_found_in_of_conda, run_by_conda, Conda, CondaLocator, Discovered,
};
use crate::filesystem::{exists_at, EntryView, FileSystem};
use crate::known::{Environment, Known};
use crate::locator::{some_unless_empty, unmanaged, Locator, LocatorResult};
use crate::messaging::{
    new_environment, Architecture, EnvManager, EnvManagerType, EnvManagerView,
    PythonEnvironment, PythonEnvironmentCategory, PythonEnvironmentView,
};
use crate::pyenv::direct_command;
use crate::registry::{
    child_key, get_child_key, key_at, subkeys_at, value_at, Hive, Registry, RegistryKeyView,
};
use crate::text::{
    char_count, clone_option, contains, contains_str, replace_char, replace_char_str,
};
use crate::utils::PythonEnv;
use vstd::prelude::*;

verus! {

/// The data of a registry value, the empty text where the value is missing.
pub open spec fn or_empty(value: Option<Seq<char>>) -> Seq<char> {
    match value {
        Some(text) => text,
        None => seq![],
    }
}

/// `text`, where it is not empty.
pub open spec fn non_empty(text: Seq<char>) -> Option<Seq<char>> {
    if text.len() > 0 {
        Some(text)
    } else {
        None
    }
}

/// A path of the registry in the form in which this library writes paths.
pub open spec fn native(path: Seq<char>) -> Seq<char> {
    replace_char(path, '\\', '/')
}

/// The architecture that the value `SysArchitecture` names.
pub open spec fn registry_architecture(text: Seq<char>) -> Option<Architecture> {
    if contains(text, "32"@) {
        Some(Architecture::X86)
    } else if contains(text, "64"@) {
        Some(Architecture::X64)
    } else {
        None
    }
}

/// `manager` with the company that registered it.
pub open spec fn manager_of_company(
    manager: EnvManagerView,
    company: Seq<char>,
    display_name: Option<Seq<char>>,
) -> EnvManagerView {
    EnvManagerView { company: Some(company), company_display_name: display_name, ..manager }
}

/// `env` and its manager with the company that registered them.
pub open spec fn environment_of_company(
    env: PythonEnvironmentView,
    company: Seq<char>,
    display_name: Option<Seq<char>>,
) -> PythonEnvironmentView {
    PythonEnvironmentView {
        company: Some(company),
        company_display_name: display_name,
        env_manager: match env.env_manager {
            Some(manager) => Some(manager_of_company(manager, company, display_name)),
            None => None,
        },
        ..env
    }
}

/// The directory that the key `InstallPath` below `installed_key` names.
pub open spec fn install_directory(keys: Seq<RegistryKeyView>, hive: Hive, installed_key: Seq<char>) -> Seq<
    char,
> {
    native(or_empty(value_at(keys, hive, child_key(installed_key, "InstallPath"@), seq![])))
}

/// The executable that the key `InstallPath` below `installed_key` names.
pub open spec fn install_executable(keys: Seq<RegistryKeyView>, hive: Hive, installed_key: Seq<char>) -> Seq<
    char,
> {
    native(
        or_empty(
            value_at(keys, hive, child_key(installed_key, "InstallPath"@), "ExecutablePath"@),
        ),
    )
}

/// The record of the Python that the key `installed_key` registers. There
/// is none where the key names no executable or the executable is not there.
pub open spec fn registry_environment(
    disk: Seq<EntryView>,
    keys: Seq<RegistryKeyView>,
    hive: Hive,
    installed_key: Seq<char>,
    company: Seq<char>,
    display_name: Option<Seq<char>>,
) -> Option<PythonEnvironmentView> {
    let directory = install_directory(keys, hive, installed_key);
    let executable = install_executable(keys, hive, installed_key);
    if executable.len() == 0 || !exists_at(disk, executable) {
        None
    } else {
        Some(
            PythonEnvironmentView {
                arch: registry_architecture(
                    or_empty(value_at(keys, hive, installed_key, "SysArchitecture"@)),
                ),
                company: Some(company),
                company_display_name: display_name,
                ..new_environment(
                    Some(or_empty(value_at(keys, hive, installed_key, "DisplayName"@))),
                    None,
                    Some(executable),
                    PythonEnvironmentCategory::WindowsRegistry,
                    non_empty(or_empty(value_at(keys, hive, installed_key, "Version"@))),
                    if exists_at(disk, directory) {
                        Some(directory)
                    } else {
                        None
                    },
                    None,
                    Some(seq![executable]),
                )
            },
        )
    }
}

/// What a walk through the registry has gathered, and what the Conda source
/// remembers.
pub struct RegistryScan {
    pub managers: Seq<EnvManagerView>,
    pub environments: Seq<PythonEnvironmentView>,
    pub discovered: Discovered,
}

/// `managers`, each with the company that registered it.
pub open spec fn managers_of_company(
    managers: Seq<EnvManagerView>,
    company: Seq<char>,
    display_name: Option<Seq<char>>,
) -> Seq<EnvManagerView> {
    Seq::new(managers.len(), |i: int| manager_of_company(managers[i], company, display_name))
}

/// `environments`, each with the company that registered it.
pub open spec fn environments_of_company(
    environments: Seq<PythonEnvironmentView>,
    company: Seq<char>,
    display_name: Option<Seq<char>>,
) -> Seq<PythonEnvironmentView> {
    Seq::new(
        environments.len(),
        |i: int| environment_of_company(environments[i], company, display_name),
    )
}

/// `scan`, once the key `installed` below the key of `company` has been
/// looked at. A key without `InstallPath` gives nothing. A directory that is
/// an installation of Conda is handed to the Conda source; any other gives
/// the Python that the key registers.
pub open spec fn scan_install(
    known: Known,
    disk: Seq<EntryView>,
    keys: Seq<RegistryKeyView>,
    hive: Hive,
    company_key: Seq<char>,
    company: Seq<char>,
    installed: Seq<char>,
    scan: RegistryScan,
) -> RegistryScan {
    let installed_key = child_key(company_key, installed);
    let display_name = value_at(keys, hive, company_key, "DisplayName"@);
    if key_at(keys, hive, child_key(installed_key, "InstallPath"@)) is None {
        scan
    } else {
        let conda = found_in(
            known,
            disk,
            install_directory(keys, hive, installed_key),
            scan.discovered,
        );
        match conda.result {
            Some(result) => RegistryScan {
                managers: scan.managers + managers_of_company(
                    result.managers,
                    company,
                    display_name,
                ),
                environments: scan.environments + environments_of_company(
                    result.environments,
                    company,
                    display_name,
                ),
                discovered: conda.discovered,
            },
            None => match registry_environment(
                disk,
                keys,
                hive,
                installed_key,
                company,
                display_name,
            ) {
                Some(env) => RegistryScan {
                    environments: scan.environments.push(env),
                    discovered: conda.discovered,
                    ..scan
                },
                None => RegistryScan { discovered: conda.discovered, ..scan },
            },
        }
    }
}

/// `scan`, once the keys `installs` below the key of `company` have been looked at, in order.
pub open spec fn scan_installs(
    known: Known,
    disk: Seq<EntryView>,
    keys: Seq<RegistryKeyView>,
    hive: Hive,
    company_key: Seq<char>,
    company: Seq<char>,
    installs: Seq<Seq<char>>,
    scan: RegistryScan,
) -> RegistryScan
    decreases installs.len(),
{
    if installs.len() == 0 {
        scan
    } else {
        scan_install(
            known,
            disk,
            keys,
            hive,
            company_key,
            company,
            installs.last(),
            scan_installs(known, disk, keys, hive, company_key, company, installs.drop_last(), scan),
        )
    }
}

/// The key below which the Pythons of a hive are registered.
pub open spec fn python_key() -> Seq<char> {
    "Software\\Python"@
}

/// `scan`, once the key of `company` has been looked at.
pub open spec fn scan_company(
    known: Known,
    disk: Seq<EntryView>,
    keys: Seq<RegistryKeyView>,
    hive: Hive,
    company: Seq<char>,
    scan: RegistryScan,
) -> RegistryScan {
    scan_installs(
        known,
        disk,
        keys,
        hive,
        child_key(python_key(), company),
        company,
        subkeys_at(keys, hive, child_key(python_key(), company)),
        scan,
    )
}

/// `scan`, once the keys of `companies` have been looked at, in order.
pub open spec fn scan_companies(
    known: Known,
    disk: Seq<EntryView>,
    keys: Seq<RegistryKeyView>,
    hive: Hive,
    companies: Seq<Seq<char>>,
    scan: RegistryScan,
) -> RegistryScan
    decreases companies.len(),
{
    if companies.len() == 0 {
        scan
    } else {
        scan_company(
            known,
            disk,
            keys,
            hive,
            companies.last(),
            scan_companies(known, disk, keys, hive, companies.drop_last(), scan),
        )
    }
}

/// `scan`, once `hive` has been looked at. A hive without the key
/// `Software\Python` gives nothing.
pub open spec fn scan_hive(
    known: Known,
    disk: Seq<EntryView>,
    keys: Seq<RegistryKeyView>,
    hive: Hive,
    scan: RegistryScan,
) -> RegistryScan {
    if key_at(keys, hive, python_key()) is None {
        scan
    } else {
        scan_companies(known, disk, keys, hive, subkeys_at(keys, hive, python_key()), scan)
    }
}

/// The Pythons that the registry records: those of the machine, then those
/// of the user; with what the Conda source remembers afterwards.
pub open spec fn registry_pythons(
    known: Known,
    disk: Seq<EntryView>,
    keys: Seq<RegistryKeyView>,
    discovered: Discovered,
) -> RegistryScan {
    scan_hive(
        known,
        disk,
        keys,
        Hive::CurrentUser,
        scan_hive(
            known,
            disk,
            keys,
            Hive::LocalMachine,
            RegistryScan { managers: seq![], environments: seq![], discovered },
        ),
    )
}

/// The architecture that the value `SysArchitecture` names.
pub fn get_registry_architecture(text: &str) -> (r: Option<Architecture>)
    ensures
        r == registry_architecture(text@),
{
    if contains_str(text, "32") {
        Some(Architecture::X86)
    } else if contains_str(text, "64") {
        Some(Architecture::X64)
    } else {
        None
    }
}

/// The data of a registry value, the empty text where the value is missing.
fn text_or_empty(value: Option<String>) -> (r: String)
    ensures
        r@ == or_empty(value.deep_view()),
{
    match value {
        Some(text) => text,
        None => String::new(),
    }
}

/// `manager` with the company that registered it.
pub fn get_manager_of_company(manager: &EnvManager, company: &str, display_name: &Option<String>) -> (r:
    EnvManager)
    ensures
        r.deep_view() == manager_of_company(
            manager.deep_view(),
            company@,
            display_name.deep_view(),
        ),
{
    let mut out = manager.clone();
    out.company = Some(company.to_owned());
    out.company_display_name = clone_option(display_name);
    out
}

/// `env` and its manager with the company that registered them.
pub fn get_environment_of_company(
    env: &PythonEnvironment,
    company: &str,
    display_name: &Option<String>,
) -> (r: PythonEnvironment)
    ensures
        r.deep_view() == environment_of_company(
            env.deep_view(),
            company@,
            display_name.deep_view(),
        ),
{
    let mut out = env.clone();
    out.company = Some(company.to_owned());
    out.company_display_name = clone_option(display_name);
    out.env_manager = match &env.env_manager {
        Some(manager) => Some(get_manager_of_company(manager, company, display_name)),
        None => None,
    };
    out
}

/// The record of the Python that the key `installed_key` registers.
pub fn get_registry_environment(
    fs: &FileSystem,
    registry: &Registry,
    hive: Hive,
    installed_key: &str,
    company: &str,
    display_name: &Option<String>,
) -> (r: Option<PythonEnvironment>)
    ensures
        r.deep_view() == registry_environment(
            fs.deep_view(),
            registry.deep_view(),
            hive,
            installed_key@,
            company@,
            display_name.deep_view(),
        ),
{
    let install_path_key = get_child_key(installed_key, "InstallPath");
    let directory = replace_char_str(
        text_or_empty(registry.get_value(hive, install_path_key.as_str(), "")).as_str(),
        '\\',
        '/',
    );
    proof {
        reveal_strlit("");
        assert(""@ =~= Seq::<char>::empty());
    }
    let executable = replace_char_str(
        text_or_empty(registry.get_value(hive, install_path_key.as_str(), "ExecutablePath")).as_str(),
        '\\',
        '/',
    );
    if char_count(executable.as_str()) == 0 || !fs.is_present(executable.as_str()) {
        return None;
    }
    let version = text_or_empty(registry.get_value(hive, installed_key, "Version"));
    let architecture = text_or_empty(registry.get_value(hive, installed_key, "SysArchitecture"));
    let name = text_or_empty(registry.get_value(hive, installed_key, "DisplayName"));
    let env_path = if fs.is_present(directory.as_str()) {
        Some(directory)
    } else {
        None
    };
    let mut env = PythonEnvironment::new(
        Some(name),
        None,
        Some(executable.clone()),
        PythonEnvironmentCategory::WindowsRegistry,
        if char_count(version.as_str()) > 0 {
            Some(version)
        } else {
            None
        },
        env_path,
        None,
        Some(direct_command(executable.as_str())),
    );
    env.arch = get_registry_architecture(architecture.as_str());
    env.company = Some(company.to_owned());
    env.company_display_name = clone_option(display_name);
    Some(env)
}

/// Adds to `list` each of `extra` with the company that registered it.
fn append_managers_of_company(
    list: &mut Vec<EnvManager>,
    extra: &Vec<EnvManager>,
    company: &str,
    display_name: &Option<String>,
)
    ensures
        final(list).deep_view() == old(list).deep_view() + managers_of_company(
            extra.deep_view(),
            company@,
            display_name.deep_view(),
        ),
{
    let ghost base = list.deep_view();
    let ghost all = managers_of_company(extra.deep_view(), company@, display_name.deep_view());
    let mut i: usize = 0;
    assert(list.deep_view() =~= base + all.take(0));
    while i < extra.len()
        invariant
            i <= extra.len(),
            all == managers_of_company(extra.deep_view(), company@, display_name.deep_view()),
            list.deep_view() == base + all.take(i as int),
        decreases extra.len() - i,
    {
        let ghost before = list.deep_view();
        let item = get_manager_of_company(&extra[i], company, display_name);
        list.push(item);
        assert(list.deep_view() =~= before.push(all[i as int]));
        i = i + 1;
        assert(list.deep_view() =~= base + all.take(i as int));
    }
    assert(all.take(all.len() as int) == all);
}

/// Adds to `list` each of `extra` with the company that registered it.
fn append_environments_of_company(
    list: &mut Vec<PythonEnvironment>,
    extra: &Vec<PythonEnvironment>,
    company: &str,
    display_name: &Option<String>,
)
    ensures
        final(list).deep_view() == old(list).deep_view() + environments_of_company(
            extra.deep_view(),
            company@,
            display_name.deep_view(),
        ),
{
    let ghost base = list.deep_view();
    let ghost all = environments_of_company(extra.deep_view(), company@, display_name.deep_view());
    let mut i: usize = 0;
    assert(list.deep_view() =~= base + all.take(0));
    while i < extra.len()
        invariant
            i <= extra.len(),
            all == environments_of_company(extra.deep_view(), company@, display_name.deep_view()),
            list.deep_view() == base + all.take(i as int),
        decreases extra.len() - i,
    {
        let ghost before = list.deep_view();
        let item = get_environment_of_company(&extra[i], company, display_name);
        list.push(item);
        assert(list.deep_view() =~= before.push(all[i as int]));
        i = i + 1;
        assert(list.deep_view() =~= base + all.take(i as int));
    }
    assert(all.take(all.len() as int) == all);
}

/// Looks at the keys below the key of `company` and adds what they register.
fn get_registry_pythons_from_key_for_company<'a, E: Environment>(
    registry: &Registry,
    hive: Hive,
    company: &str,
    conda_locator: &mut Conda<'a, E>,
    managers: &mut Vec<EnvManager>,
    environments: &mut Vec<PythonEnvironment>,
)
    ensures
        final(conda_locator).environment == old(conda_locator).environment,
        final(conda_locator).fs == old(conda_locator).fs,
        final(conda_locator).manager == old(conda_locator).manager,
        final(conda_locator).warnings == old(conda_locator).warnings,
        (RegistryScan {
            managers: final(managers).deep_view(),
            environments: final(environments).deep_view(),
            discovered: final(conda_locator).discovered(),
        }) == scan_company(
            old(conda_locator).environment.known(),
            old(conda_locator).fs.deep_view(),
            registry.deep_view(),
            hive,
            company@,
            RegistryScan {
                managers: old(managers).deep_view(),
                environments: old(environments).deep_view(),
                discovered: old(conda_locator).discovered(),
            },
        ),
{
    let fs = conda_locator.fs;
    let ghost known = conda_locator.environment.known();
    let ghost disk = fs.deep_view();
    let ghost keys = registry.deep_view();
    let ghost start = RegistryScan {
        managers: managers.deep_view(),
        environments: environments.deep_view(),
        discovered: conda_locator.discovered(),
    };
    let company_key = get_child_key("Software\\Python", company);
    let company_display_name = registry.get_value(hive, company_key.as_str(), "DisplayName");
    let installs = registry.enum_keys(hive, company_key.as_str());
    let ghost all = installs.deep_view();
    let mut i: usize = 0;
    while i < installs.len()
        invariant
            i <= installs.len(),
            disk == fs.deep_view(),
            keys == registry.deep_view(),
            all == installs.deep_view(),
            conda_locator.fs == fs,
            conda_locator.environment == old(conda_locator).environment,
            conda_locator.manager == old(conda_locator).manager,
            conda_locator.warnings == old(conda_locator).warnings,
            known == conda_locator.environment.known(),
            company_key@ == child_key(python_key(), company@),
            company_display_name.deep_view() == value_at(keys, hive, company_key@, "DisplayName"@),
            (RegistryScan {
                managers: managers.deep_view(),
                environments: environments.deep_view(),
                discovered: conda_locator.discovered(),
            }) == scan_installs(
                known,
                disk,
                keys,
                hive,
                company_key@,
                company@,
                all.take(i as int),
                start,
            ),
        decreases installs.len() - i,
    {
        assert(all.take(i + 1).drop_last() == all.take(i as int));
        assert(all.take(i + 1).last() == installs[i as int]@);
        let installed_key = get_child_key(company_key.as_str(), installs[i].as_str());
        let install_path_key = get_child_key(installed_key.as_str(), "InstallPath");
        if registry.has_key(hive, install_path_key.as_str()) {
            proof {
                reveal_strlit("");
                assert(""@ =~= Seq::<char>::empty());
            }
            let directory = replace_char_str(
                text_or_empty(registry.get_value(hive, install_path_key.as_str(), "")).as_str(),
                '\\',
                '/',
            );
            match conda_locator.find_in(directory.as_str()) {
                Some(result) => {
                    append_managers_of_company(
                        managers,
                        &result.managers,
                        company,
                        &company_display_name,
                    );
                    append_environments_of_company(
                        environments,
                        &result.environments,
                        company,
                        &company_display_name,
                    );
                },
                None => {
                    match get_registry_environment(
                        fs,
                        registry,
                        hive,
                        installed_key.as_str(),
                        company,
                        &company_display_name,
                    ) {
                        Some(env) => {
                            let ghost before = environments.deep_view();
                            environments.push(env);
                            assert(environments.deep_view() =~= before.push(env.deep_view()));
                        },
                        None => {},
                    }
                },
            }
        }
        i = i + 1;
    }
    assert(all.take(all.len() as int) == all);
}

/// Looks at `hive` and adds what it registers.
fn get_registry_pythons_in_hive<'a, E: Environment>(
    registry: &Registry,
    hive: Hive,
    conda_locator: &mut Conda<'a, E>,
    managers: &mut Vec<EnvManager>,
    environments: &mut Vec<PythonEnvironment>,
)
    ensures
        final(conda_locator).environment == old(conda_locator).environment,
        final(conda_locator).fs == old(conda_locator).fs,
        final(conda_locator).manager == old(conda_locator).manager,
        final(conda_locator).warnings == old(conda_locator).warnings,
        (RegistryScan {
            managers: final(managers).deep_view(),
            environments: final(environments).deep_view(),
            discovered: final(conda_locator).discovered(),
        }) == scan_hive(
            old(conda_locator).environment.known(),
            old(conda_locator).fs.deep_view(),
            registry.deep_view(),
            hive,
            RegistryScan {
                managers: old(managers).deep_view(),
                environments: old(environments).deep_view(),
                discovered: old(conda_locator).discovered(),
            },
        ),
{
    if !registry.has_key(hive, "Software\\Python") {
        return ;
    }
    let ghost known = conda_locator.environment.known();
    let ghost disk = conda_locator.fs.deep_view();
    let ghost keys = registry.deep_view();
    let ghost start = RegistryScan {
        managers: managers.deep_view(),
        environments: environments.deep_view(),
        discovered: conda_locator.discovered(),
    };
    let companies = registry.enum_keys(hive, "Software\\Python");
    let ghost all = companies.deep_view();
    let mut i: usize = 0;
    while i < companies.len()
        invariant
            i <= companies.len(),
            keys == registry.deep_view(),
            all == companies.deep_view(),
            conda_locator.fs == old(conda_locator).fs,
            conda_locator.environment == old(conda_locator).environment,
            conda_locator.manager == old(conda_locator).manager,
            conda_locator.warnings == old(conda_locator).warnings,
            known == conda_locator.environment.known(),
            disk == conda_locator.fs.deep_view(),
            (RegistryScan {
                managers: managers.deep_view(),
                environments: environments.deep_view(),
                discovered: conda_locator.discovered(),
            }) == scan_companies(known, disk, keys, hive, all.take(i as int), start),
        decreases companies.len() - i,
    {
        assert(all.take(i + 1).drop_last() == all.take(i as int));
        assert(all.take(i + 1).last() == companies[i as int]@);
        get_registry_pythons_from_key_for_company(
            registry,
            hive,
            companies[i].as_str(),
            conda_locator,
            managers,
            environments,
        );
        i = i + 1;
    }
    assert(all.take(all.len() as int) == all);
}

/// The Pythons that the registry records: those of the machine, then those
/// of the user.
fn get_registry_pythons<'a, E: Environment>(
    registry: &Registry,
    conda_locator: &mut Conda<'a, E>,
) -> (r: LocatorResult)
    ensures
        final(conda_locator).environment == old(conda_locator).environment,
        final(conda_locator).fs == old(conda_locator).fs,
        final(conda_locator).manager == old(conda_locator).manager,
        final(conda_locator).warnings == old(conda_locator).warnings,
        (RegistryScan {
            managers: r.deep_view().managers,
            environments: r.deep_view().environments,
            discovered: final(conda_locator).discovered(),
        }) == registry_pythons(
            old(conda_locator).environment.known(),
            old(conda_locator).fs.deep_view(),
            registry.deep_view(),
            old(conda_locator).discovered(),
        ),
{
    let mut managers: Vec<EnvManager> = Vec::new();
    let mut environments: Vec<PythonEnvironment> = Vec::new();
    assert(managers.deep_view() =~= Seq::<EnvManagerView>::empty());
    assert(environments.deep_view() =~= Seq::<PythonEnvironmentView>::empty());
    get_registry_pythons_in_hive(
        registry,
        Hive::LocalMachine,
        conda_locator,
        &mut managers,
        &mut environments,
    );
    get_registry_pythons_in_hive(
        registry,
        Hive::CurrentUser,
        conda_locator,
        &mut managers,
        &mut environments,
    );
    LocatorResult { managers, environments }
}

/// The registry source. It owns the Conda source that it hands Conda's directories to.
pub struct WindowsRegistry<'a, E: Environment> {
    pub conda_locator: Conda<'a, E>,
    pub registry: &'a Registry,
}

impl<'a, E: Environment> WindowsRegistry<'a, E> {
    pub fn with(conda_locator: Conda<'a, E>, registry: &'a Registry) -> (r: WindowsRegistry<'a, E>)
        ensures
            r.conda_locator == conda_locator,
            r.registry == registry,
    {
        WindowsRegistry { conda_locator, registry }
    }

    /// What this source finds, and what its Conda source remembers afterwards.
    pub open spec fn found(&self) -> RegistryScan {
        registry_pythons(
            self.conda_locator.environment.known(),
            self.conda_locator.fs.deep_view(),
            self.registry.deep_view(),
            self.conda_locator.discovered(),
        )
    }
}

impl<'a, E: Environment> Locator for WindowsRegistry<'a, E> {
    /// The registry is read as a whole: no candidate is resolved.
    fn resolve(&self, _env: &PythonEnv) -> (r: Option<PythonEnvironment>)
        ensures
            r is None,
    {
        None
    }

    fn find(&mut self) -> (r: Option<LocatorResult>)
        ensures
            r.deep_view() == some_unless_empty(
                old(self).found().managers,
                old(self).found().environments,
            ),
            final(self).conda_locator.discovered() == old(self).found().discovered,
            final(self).conda_locator.environment == old(self).conda_locator.environment,
            final(self).conda_locator.fs == old(self).conda_locator.fs,
            final(self).registry == old(self).registry,
    {
        let result = get_registry_pythons(self.registry, &mut self.conda_locator);
        if result.managers.len() == 0 && result.environments.len() == 0 {
            None
        } else {
            Some(result)
        }
    }
}

/// The only managers of `scan` are Conda's: each manager is of tool Conda,
/// and each environment is Conda's, run through the Conda manager that it
/// carries, or it is on its own.
pub open spec fn managed_by_conda_only(scan: RegistryScan) -> bool {
    &&& forall|k: int|
        0 <= k < scan.managers.len() ==> (#[trigger] scan.managers[k]).tool == EnvManagerType::Conda
    &&& forall|k: int|
        0 <= k < scan.environments.len() ==> run_by_conda(#[trigger] scan.environments[k])
            || unmanaged(scan.environments[k])
}

/// Looking at one registered installation adds no manager but Conda's.
pub proof fn lemma_scan_install_managed_by_conda_only(
    known: Known,
    disk: Seq<EntryView>,
    keys: Seq<RegistryKeyView>,
    hive: Hive,
    company_key: Seq<char>,
    company: Seq<char>,
    installed: Seq<char>,
    scan: RegistryScan,
)
    requires
        managed_by_conda_only(scan),
    ensures
        managed_by_conda_only(
            scan_install(known, disk, keys, hive, company_key, company, installed, scan),
        ),
{
    let after = scan_install(known, disk, keys, hive, company_key, company, installed, scan);
    let installed_key = child_key(company_key, installed);
    let display_name = value_at(keys, hive, company_key, "DisplayName"@);
    let directory = install_directory(keys, hive, installed_key);
    lemma_found_in_of_conda(known, disk, directory, scan.discovered);
    let conda = found_in(known, disk, directory, scan.discovered);
    assert forall|k: int| 0 <= k < after.managers.len() implies (#[trigger] after.managers[k]).tool
        == EnvManagerType::Conda by {
        if k < scan.managers.len() {
            assert(after.managers[k] == scan.managers[k]);
        } else {
            let result = conda.result->0;
            assert(after.managers[k] == manager_of_company(
                result.managers[k - scan.managers.len()],
                company,
                display_name,
            ));
        }
    }
    assert forall|k: int| 0 <= k < after.environments.len() implies run_by_conda(
        #[trigger] after.environments[k],
    ) || unmanaged(after.environments[k]) by {
        if k < scan.environments.len() {
            assert(after.environments[k] == scan.environments[k]);
        } else if conda.result is Some {
            let result = conda.result->0;
            let found = result.environments[k - scan.environments.len()];
            assert(after.environments[k] == environment_of_company(found, company, display_name));
            assert(run_by_conda(found));
            assert(run_by_conda(after.environments[k]));
        }
    }
}

/// Looking at the installations that a company registered adds no manager but Conda's.
pub proof fn lemma_scan_installs_managed_by_conda_only(
    known: Known,
    disk: Seq<EntryView>,
    keys: Seq<RegistryKeyView>,
    hive: Hive,
    company_key: Seq<char>,
    company: Seq<char>,
    installs: Seq<Seq<char>>,
    scan: RegistryScan,
)
    requires
        managed_by_conda_only(scan),
    ensures
        managed_by_conda_only(
            scan_installs(known, disk, keys, hive, company_key, company, installs, scan),
        ),
    decreases installs.len(),
{
    if installs.len() > 0 {
        lemma_scan_installs_managed_by_conda_only(
            known,
            disk,
            keys,
            hive,
            company_key,
            company,
            installs.drop_last(),
            scan,
        );
        lemma_scan_install_managed_by_conda_only(
            known,
            disk,
            keys,
            hive,
            company_key,
            company,
            installs.last(),
            scan_installs(known, disk, keys, hive, company_key, company, installs.drop_last(), scan),
        );
    }
}

/// Looking at the companies of a hive adds no manager but Conda's.
pub proof fn lemma_scan_companies_managed_by_conda_only(
    known: Known,
    disk: Seq<EntryView>,
    keys: Seq<RegistryKeyView>,
    hive: Hive,
    companies: Seq<Seq<char>>,
    scan: RegistryScan,
)
    requires
        managed_by_conda_only(scan),
    ensures
        managed_by_conda_only(scan_companies(known, disk, keys, hive, companies, scan)),
    decreases companies.len(),
{
    if companies.len() > 0 {
        lemma_scan_companies_managed_by_conda_only(
            known,
            disk,
            keys,
            hive,
            companies.drop_last(),
            scan,
        );
        let company = companies.last();
        lemma_scan_installs_managed_by_conda_only(
            known,
            disk,
            keys,
            hive,
            child_key(python_key(), company),
            company,
            subkeys_at(keys, hive, child_key(python_key(), company)),
            scan_companies(known, disk, keys, hive, companies.drop_last(), scan),
        );
    }
}

/// The only managers that the registry leads to are Conda's.
pub proof fn lemma_registry_pythons_managed_by_conda_only(
    known: Known,
    disk: Seq<EntryView>,
    keys: Seq<RegistryKeyView>,
    discovered: Discovered,
)
    ensures
        managed_by_conda_only(registry_pythons(known, disk, keys, discovered)),
{
    let start = RegistryScan { managers: seq![], environments: seq![], discovered };
    lemma_scan_companies_managed_by_conda_only(
        known,
        disk,
        keys,
        Hive::LocalMachine,
        subkeys_at(keys, Hive::LocalMachine, python_key()),
        start,
    );
    let machine = scan_hive(known, disk, keys, Hive::LocalMachine, start);
    lemma_scan_companies_managed_by_conda_only(
        known,
        disk,
        keys,
        Hive::CurrentUser,
        subkeys_at(keys, Hive::CurrentUser, python_key()),
        machine,
    );
}

} // verus!

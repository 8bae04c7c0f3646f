use python_finder::conda::Conda;
use python_finder::filesystem::{Entry, FileSystem};
use python_finder::known::{EnvironmentApi, Platform};
use python_finder::locator::Locator;
use python_finder::messaging::{
    Architecture, EnvManagerType, PythonEnvironment, PythonEnvironmentCategory,
};
use python_finder::registry::{get_child_key, Hive, Registry, RegistryKey};
use python_finder::utils::PythonEnv;
use python_finder::windows_python::{list_store_launchers, WindowsPython};
use python_finder::windows_registry::{
    get_environment_of_company, get_registry_architecture, get_registry_environment,
    WindowsRegistry,
};
use python_finder::windows_store::{
    get_package_display_name_and_location, get_store_environment, is_windows_python_executable,
    note_entry,
    PotentialPython, StorePythonInfo, WindowsStore,
};
use python_finder::find_and_report_envs;

fn parent_of(path: &str) -> Option<String> {
    let trimmed = path.trim_end_matches('/');
    match trimmed.rfind('/') {
        Some(0) => Some("/".to_string()),
        Some(i) => Some(trimmed[..i].to_string()),
        None => None,
    }
}

fn add_directories(fs: &mut FileSystem, path: &str) {
    let mut missing: Vec<String> = vec![];
    let mut current = Some(path.to_string());
    while let Some(p) = current {
        if p == "/" || p.is_empty() || fs.is_present(&p) {
            break;
        }
        missing.push(p.clone());
        current = parent_of(&p);
    }
    for p in missing.iter().rev() {
        fs.add(Entry::directory(p));
    }
}

fn add_file(fs: &mut FileSystem, path: &str, contents: &str) {
    if let Some(dir) = parent_of(path) {
        add_directories(fs, &dir);
    }
    fs.add(Entry::file(path, contents));
}

fn key(hive: Hive, path: &str, values: &[(&str, &str)]) -> RegistryKey {
    RegistryKey {
        hive,
        path: path.to_string(),
        values: values.iter().map(|(n, v)| (n.to_string(), v.to_string())).collect(),
    }
}

fn windows() -> EnvironmentApi {
    EnvironmentApi {
        platform: Platform::Windows,
        home: Some("C:/Users/me".to_string()),
        root: None,
        vars: Vec::new(),
        search_locations: Vec::new(),
    }
}

const APPS: &str = "C:/Users/me/AppData/Local/Microsoft/WindowsApps";
const FOLDER_3_12: &str = "PythonSoftwareFoundation.Python.3.12_qbz5n2kfra8p0";
const FULL_3_12: &str = "PythonSoftwareFoundation.Python.3.12_3.12.1008.0_x64__qbz5n2kfra8p0";
const APP_MODEL: &str =
    "Software\\Classes\\Local Settings\\Software\\Microsoft\\Windows\\CurrentVersion\\AppModel";

fn store_fixture() -> (FileSystem, Registry) {
    let mut fs = FileSystem::new();
    add_directories(&mut fs, &format!("{}/{}", APPS, FOLDER_3_12));
    add_file(&mut fs, &format!("{}/python.exe", APPS), "");
    add_file(&mut fs, &format!("{}/python3.exe", APPS), "");
    add_file(&mut fs, &format!("{}/python3.12.exe", APPS), "");
    add_file(&mut fs, &format!("{}/python3.11.exe", APPS), "");
    add_file(&mut fs, &format!("{}/winget.exe", APPS), "");
    add_directories(&mut fs, &format!("{}/Microsoft.DesktopAppInstaller_8wekyb3d8bbwe", APPS));
    let mut registry = Registry::new();
    registry.add(key(
        Hive::CurrentUser,
        &format!("{}\\SystemAppData\\{}\\Schemas", APP_MODEL, FOLDER_3_12),
        &[("PackageFullName", FULL_3_12)],
    ));
    registry.add(key(
        Hive::CurrentUser,
        &format!("{}\\Repository\\Packages\\{}", APP_MODEL, FULL_3_12),
        &[
            ("DisplayName", "Python 3.12"),
            ("PackageRootFolder", "C:\\Program Files\\WindowsApps\\Python312"),
        ],
    ));
    (fs, registry)
}

fn expected_store_python() -> PythonEnvironment {
    let folder = format!("{}/{}", APPS, FOLDER_3_12);
    let root = "C:/Program Files/WindowsApps/Python312";
    PythonEnvironment {
        display_name: Some("Python 3.12".to_string()),
        python_executable_path: Some(format!("{}/python3.12.exe", APPS)),
        category: PythonEnvironmentCategory::WindowsStore,
        version: Some("3.12".to_string()),
        env_path: Some(root.to_string()),
        python_run_command: Some(vec![format!("{}/python3.12.exe", APPS)]),
        arch: Some(Architecture::X64),
        symlinks: Some(vec![
            format!("{}/python3.12.exe", APPS),
            format!("{}/python.exe", folder),
            format!("{}/python3.exe", folder),
            format!("{}/python3.12.exe", folder),
            format!("{}/python.exe", root),
            format!("{}/python3.12.exe", root),
        ]),
        ..Default::default()
    }
}

#[test]
fn store_python_needs_folder_launcher_and_registry() {
    let (fs, registry) = store_fixture();
    let known = windows();
    let result = WindowsStore::with(&known, &fs, &registry).find().unwrap();
    assert_eq!(result.managers.len(), 0);
    assert_eq!(result.environments, vec![expected_store_python()]);

    let locator = WindowsStore::with(&known, &fs, &registry);
    let candidate = PythonEnv::new(format!("{}/python3.12.exe", APPS), None, None);
    assert_eq!(locator.resolve(&candidate), Some(expected_store_python()));
    let launcher_only = PythonEnv::new(format!("{}/python3.11.exe", APPS), None, None);
    assert_eq!(locator.resolve(&launcher_only), None);

    // Without the registry nothing is known of the package.
    assert_eq!(WindowsStore::with(&known, &fs, &Registry::new()).find(), None);
    // Without the directory of launchers there is nothing at all.
    assert_eq!(WindowsStore::with(&known, &FileSystem::new(), &registry).find(), None);
    let mut without_home = windows();
    without_home.home = None;
    assert_eq!(WindowsStore::with(&without_home, &fs, &registry).find(), None);
}

#[test]
fn store_package_on_32_bit_has_no_architecture() {
    let mut registry = Registry::new();
    registry.add(key(
        Hive::CurrentUser,
        &format!("{}\\SystemAppData\\Folder\\Schemas", APP_MODEL),
        &[("PackageFullName", "Full_x86__id")],
    ));
    assert_eq!(get_package_display_name_and_location(&registry, "Folder"), None);
    registry.add(key(
        Hive::CurrentUser,
        &format!("{}\\Repository\\Packages\\Full_x86__id", APP_MODEL),
        &[("DisplayName", "Python"), ("PackageRootFolder", "C:\\Root")],
    ));
    assert_eq!(
        get_package_display_name_and_location(&registry, "Folder"),
        Some(StorePythonInfo {
            display_name: "Python".to_string(),
            env_path: "C:\\Root".to_string(),
            is64_bit: false,
        })
    );
    assert_eq!(get_package_display_name_and_location(&registry, "Other"), None);
}

#[test]
fn entries_of_the_launcher_directory() {
    let mut matches: Vec<PotentialPython> = Vec::new();
    // A launcher first, then the folder of its version.
    note_entry(&mut matches, "C:/a/python3.12.exe", None, Some("3.12".to_string()));
    note_entry(
        &mut matches,
        "C:/a/PythonSoftwareFoundation.Python.3.12_x",
        Some("3.12".to_string()),
        None,
    );
    let expected = vec![PotentialPython {
        path: Some("C:/a/PythonSoftwareFoundation.Python.3.12_x".to_string()),
        name: Some("PythonSoftwareFoundation.Python.3.12_x".to_string()),
        exe: Some("C:/a/python3.12.exe".to_string()),
        version: "3.12".to_string(),
    }];
    assert_eq!(matches, expected);
    // Unversioned launchers and other files change nothing.
    note_entry(&mut matches, "C:/a/python.exe", None, Some("9.9".to_string()));
    note_entry(&mut matches, "C:/a/python3.exe", None, Some("9.9".to_string()));
    note_entry(&mut matches, "C:/a/pip.exe", None, Some("9.9".to_string()));
    note_entry(&mut matches, "C:/a/python3.13.exe", None, None);
    assert_eq!(matches, expected);
    // A folder that begins like a package and names no version is passed over.
    note_entry(&mut matches, "C:/a/PythonSoftwareFoundation.Python.x", None, None);
    assert_eq!(matches, expected);
    note_entry(&mut matches, "C:/a/PythonSoftwareFoundation.Python.x", Some("".to_string()), None);
    assert_eq!(matches, expected);
}

#[test]
fn malformed_package_folder_costs_no_other_environment() {
    let (mut fs, registry) = store_fixture();
    add_directories(&mut fs, &format!("{}/PythonSoftwareFoundation.Python.Foo", APPS));
    let known = windows();
    let result = WindowsStore::with(&known, &fs, &registry).find().unwrap();
    assert_eq!(result.environments, vec![expected_store_python()]);
    // The malformed folder may also come first.
    let mut first = FileSystem::new();
    add_directories(&mut first, &format!("{}/PythonSoftwareFoundation.Python.Foo", APPS));
    for entry in store_fixture().0.entries {
        if !first.is_present(&entry.path) {
            first.add(entry);
        }
    }
    let result = WindowsStore::with(&known, &first, &registry).find().unwrap();
    assert_eq!(result.environments, vec![expected_store_python()]);
}

#[test]
fn version_whose_folder_has_no_parent_costs_no_other_environment() {
    let (_, registry) = store_fixture();
    let good = PotentialPython {
        path: Some(format!("{}/{}", APPS, FOLDER_3_12)),
        name: Some(FOLDER_3_12.to_string()),
        exe: Some(format!("{}/python3.12.exe", APPS)),
        version: "3.12".to_string(),
    };
    let orphan = PotentialPython {
        path: Some("/".to_string()),
        name: Some(FOLDER_3_12.to_string()),
        exe: Some("/python3.11.exe".to_string()),
        version: "3.11".to_string(),
    };
    assert_eq!(get_store_environment(&registry, &orphan), None);
    assert_eq!(get_store_environment(&registry, &good), Some(expected_store_python()));
    let without_launcher = PotentialPython { exe: None, ..good };
    assert_eq!(get_store_environment(&registry, &without_launcher), None);
}

#[test]
fn launchers_by_their_names() {
    assert!(is_windows_python_executable("C:/a/python3.12.exe"));
    assert!(is_windows_python_executable("C:/a/Python3.9.EXE"));
    assert!(is_windows_python_executable("C:/a/python3.exe"));
    assert!(!is_windows_python_executable("C:/a/python3"));
    assert!(!is_windows_python_executable("C:/a/python.exe"));
    assert!(!is_windows_python_executable("C:/"));
    let (fs, _) = store_fixture();
    let known = windows();
    assert_eq!(
        list_store_launchers(&known, &fs),
        Some(vec![
            format!("{}/python3.exe", APPS),
            format!("{}/python3.12.exe", APPS),
            format!("{}/python3.11.exe", APPS),
        ])
    );
    assert_eq!(list_store_launchers(&known, &FileSystem::new()), None);
    let result = WindowsPython::with(&known, &fs).find().unwrap();
    assert_eq!(result.environments.len(), 3);
    assert_eq!(result.environments[0].category, PythonEnvironmentCategory::WindowsStore);
    assert_eq!(result.environments[0].version, None);
    let locator = WindowsPython::with(&known, &fs);
    assert!(locator.resolve(&PythonEnv::new("C:/x/python3.12.exe".to_string(), None, None)).is_some());
    assert_eq!(locator.resolve(&PythonEnv::new("C:/x/python.exe".to_string(), None, None)), None);
}

#[test]
fn registry_snapshot_answers_from_its_keys() {
    let mut registry = Registry::new();
    registry.add(key(Hive::LocalMachine, "Software\\Python", &[]));
    registry.add(key(Hive::LocalMachine, "Software\\Python\\PythonCore", &[("DisplayName", "PSF")]));
    registry.add(key(Hive::LocalMachine, "Software\\Python\\PythonCore\\3.12", &[]));
    registry.add(key(Hive::CurrentUser, "Software\\Python\\Other", &[]));
    registry.add(key(Hive::LocalMachine, "Software\\Python\\ContinuumAnalytics", &[]));
    registry.add(key(Hive::LocalMachine, "Software\\PythonX\\Odd", &[]));
    assert!(registry.has_key(Hive::LocalMachine, "Software\\Python"));
    assert!(!registry.has_key(Hive::CurrentUser, "Software\\Python"));
    assert_eq!(
        registry.enum_keys(Hive::LocalMachine, "Software\\Python"),
        vec!["PythonCore".to_string(), "ContinuumAnalytics".to_string()]
    );
    assert_eq!(registry.enum_keys(Hive::CurrentUser, "Software\\Python"), vec!["Other".to_string()]);
    assert_eq!(
        registry.get_value(Hive::LocalMachine, "Software\\Python\\PythonCore", "DisplayName"),
        Some("PSF".to_string())
    );
    assert_eq!(registry.get_value(Hive::LocalMachine, "Software\\Python\\PythonCore", "X"), None);
    assert_eq!(registry.get_value(Hive::LocalMachine, "Software\\Missing", "X"), None);
    assert_eq!(get_child_key("Software\\Python", "PythonCore"), "Software\\Python\\PythonCore");
}

fn registry_fixture() -> (FileSystem, Registry) {
    let mut fs = FileSystem::new();
    add_file(&mut fs, "C:/Python312/python.exe", "");
    add_file(&mut fs, "C:/Python38-32/python.exe", "");
    // An installation of Conda that the registry names.
    add_file(&mut fs, "C:/ProgramData/Anaconda3/python.exe", "");
    add_file(&mut fs, "C:/ProgramData/Anaconda3/Scripts/conda.exe", "");
    add_file(&mut fs, "C:/ProgramData/Anaconda3/conda-meta/conda-23.1.0-py310_0.json", "{}");
    add_file(
        &mut fs,
        "C:/ProgramData/Anaconda3/conda-meta/python-3.10.9-h1_0.json",
        "{\"channel\": \"https://repo.anaconda.com/pkgs/main/win-64\"}",
    );
    add_directories(&mut fs, "C:/ProgramData/Anaconda3/envs");

    let mut registry = Registry::new();
    registry.add(key(Hive::LocalMachine, "Software\\Python", &[]));
    registry.add(key(
        Hive::LocalMachine,
        "Software\\Python\\PythonCore",
        &[("DisplayName", "Python Software Foundation")],
    ));
    registry.add(key(
        Hive::LocalMachine,
        "Software\\Python\\PythonCore\\3.12",
        &[("Version", "3.12.1"), ("SysArchitecture", "64bit"), ("DisplayName", "Python 3.12 (64-bit)")],
    ));
    registry.add(key(
        Hive::LocalMachine,
        "Software\\Python\\PythonCore\\3.12\\InstallPath",
        &[("", "C:\\Python312"), ("ExecutablePath", "C:\\Python312\\python.exe")],
    ));
    // No InstallPath: nothing.
    registry.add(key(Hive::LocalMachine, "Software\\Python\\PythonCore\\3.7", &[]));
    // The executable is gone: nothing.
    registry.add(key(Hive::LocalMachine, "Software\\Python\\PythonCore\\3.6", &[]));
    registry.add(key(
        Hive::LocalMachine,
        "Software\\Python\\PythonCore\\3.6\\InstallPath",
        &[("", "C:\\Python36"), ("ExecutablePath", "C:\\Python36\\python.exe")],
    ));
    registry.add(key(Hive::LocalMachine, "Software\\Python\\ContinuumAnalytics", &[]));
    registry.add(key(Hive::LocalMachine, "Software\\Python\\ContinuumAnalytics\\Anaconda310-64", &[]));
    registry.add(key(
        Hive::LocalMachine,
        "Software\\Python\\ContinuumAnalytics\\Anaconda310-64\\InstallPath",
        &[("", "C:\\ProgramData\\Anaconda3"), ("ExecutablePath", "C:\\ProgramData\\Anaconda3\\python.exe")],
    ));
    registry.add(key(Hive::CurrentUser, "Software\\Python", &[]));
    registry.add(key(Hive::CurrentUser, "Software\\Python\\PythonCore", &[]));
    registry.add(key(Hive::CurrentUser, "Software\\Python\\PythonCore\\3.8-32", &[("SysArchitecture", "32bit")]));
    registry.add(key(
        Hive::CurrentUser,
        "Software\\Python\\PythonCore\\3.8-32\\InstallPath",
        &[("", "C:\\Gone"), ("ExecutablePath", "C:\\Python38-32\\python.exe")],
    ));
    (fs, registry)
}

#[test]
fn registry_pythons_of_both_hives() {
    let (fs, registry) = registry_fixture();
    let known = windows();
    let mut locator = WindowsRegistry::with(Conda::with(&known, &fs), &registry);
    let candidate = PythonEnv::new("C:/Python312/python.exe".to_string(), None, None);
    assert_eq!(locator.resolve(&candidate), None);
    let result = locator.find().unwrap();

    assert_eq!(result.environments.len(), 3);
    let first = PythonEnvironment {
        display_name: Some("Python 3.12 (64-bit)".to_string()),
        python_executable_path: Some("C:/Python312/python.exe".to_string()),
        category: PythonEnvironmentCategory::WindowsRegistry,
        version: Some("3.12.1".to_string()),
        env_path: Some("C:/Python312".to_string()),
        python_run_command: Some(vec!["C:/Python312/python.exe".to_string()]),
        arch: Some(Architecture::X64),
        company: Some("PythonCore".to_string()),
        company_display_name: Some("Python Software Foundation".to_string()),
        ..Default::default()
    };
    assert_eq!(result.environments[0], first);

    let conda = &result.environments[1];
    assert_eq!(conda.category, PythonEnvironmentCategory::Conda);
    assert_eq!(conda.company, Some("ContinuumAnalytics".to_string()));
    assert_eq!(conda.company_display_name, None);
    assert_eq!(conda.version, Some("3.10.9".to_string()));
    let manager = conda.env_manager.clone().unwrap();
    assert_eq!(manager.company, Some("ContinuumAnalytics".to_string()));
    assert_eq!(manager.executable_path, "C:/ProgramData/Anaconda3/Scripts/conda.exe");

    let user = &result.environments[2];
    assert_eq!(user.display_name, Some("".to_string()));
    assert_eq!(user.version, None);
    assert_eq!(user.env_path, None);
    assert_eq!(user.arch, Some(Architecture::X86));
    assert_eq!(user.company_display_name, None);

    assert_eq!(result.managers.len(), 1);
    assert_eq!(result.managers[0].tool, EnvManagerType::Conda);
    assert_eq!(result.managers[0].company, Some("ContinuumAnalytics".to_string()));

    let empty = Registry::new();
    assert_eq!(WindowsRegistry::with(Conda::with(&known, &fs), &empty).find(), None);
}

#[test]
fn registry_values_of_one_python() {
    let (fs, registry) = registry_fixture();
    assert_eq!(
        get_registry_environment(
            &fs,
            &registry,
            Hive::LocalMachine,
            "Software\\Python\\PythonCore\\3.6",
            "PythonCore",
            &None
        ),
        None
    );
    assert_eq!(
        get_registry_environment(
            &fs,
            &registry,
            Hive::LocalMachine,
            "Software\\Python\\PythonCore\\3.7",
            "PythonCore",
            &None
        ),
        None
    );
    assert_eq!(get_registry_architecture("32bit"), Some(Architecture::X86));
    assert_eq!(get_registry_architecture("64bit"), Some(Architecture::X64));
    assert_eq!(get_registry_architecture("3264"), Some(Architecture::X86));
    assert_eq!(get_registry_architecture(""), None);
    let env = PythonEnvironment::default();
    let named = get_environment_of_company(&env, "Acme", &Some("Acme Inc".to_string()));
    assert_eq!(named.company, Some("Acme".to_string()));
    assert_eq!(named.company_display_name, Some("Acme Inc".to_string()));
    assert_eq!(named.env_manager, None);
}

#[test]
fn discovery_on_windows_runs_store_and_registry_first() {
    let (mut fs, registry) = registry_fixture();
    let (store_fs, store_registry) = store_fixture();
    for entry in store_fs.entries {
        fs.add(entry);
    }
    let mut all = Registry::new();
    for k in registry.keys {
        all.add(k);
    }
    for k in store_registry.keys {
        all.add(k);
    }
    let known = windows();
    let store = find_and_report_envs(&known, &fs, &all);
    let categories: Vec<PythonEnvironmentCategory> =
        store.environments().iter().map(|e| e.category).collect();
    assert_eq!(
        categories,
        vec![
            PythonEnvironmentCategory::WindowsStore,
            PythonEnvironmentCategory::WindowsRegistry,
            PythonEnvironmentCategory::Conda,
            PythonEnvironmentCategory::WindowsRegistry,
        ]
    );
    assert_eq!(store.managers().len(), 1);
}

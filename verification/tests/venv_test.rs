use python_finder::filesystem::{Entry, FileSystem};
use python_finder::global_virtualenvs::{get_global_virtualenv_dirs, list_global_virtual_envs};
use python_finder::known::{EnvironmentApi, Platform};
use python_finder::locator::Locator;
use python_finder::messaging::{
    create_dispatcher, PythonEnvironment, PythonEnvironmentCategory,
};
use python_finder::pipenv::{is_pipenv, PipEnv};
use python_finder::utils::{list_python_environments, PythonEnv};
use python_finder::venv::{is_venv, Venv};
use python_finder::virtualenv::{is_virtualenv, VirtualEnv};
use python_finder::virtualenvwrapper::{
    get_default_virtualenvwrapper_path, get_work_on_home_path, is_virtualenvwrapper,
    VirtualEnvWrapper,
};
use python_finder::{classify, find_in_global_virtual_env_dirs, resolve_and_report_environment};

fn parent_of(path: &str) -> Option<String> {
    let trimmed = path.trim_end_matches('/');
    match trimmed.rfind('/') {
        Some(0) => Some("/".to_string()),
        Some(i) => Some(trimmed[..i].to_string()),
        None => None,
    }
}

fn add_directories(fs: &mut FileSystem, path: &str) {
    let mut missing: Vec<String> = vec![];
    let mut current = Some(path.to_string());
    while let Some(p) = current {
        if p == "/" || p.is_empty() || fs.is_present(&p) {
            break;
        }
        missing.push(p.clone());
        current = parent_of(&p);
    }
    for p in missing.iter().rev() {
        fs.add(Entry::directory(p));
    }
}

fn add_file(fs: &mut FileSystem, path: &str, contents: &str) {
    if let Some(dir) = parent_of(path) {
        add_directories(fs, &dir);
    }
    fs.add(Entry::file(path, contents));
}

fn unix(vars: Vec<(String, String)>) -> EnvironmentApi {
    EnvironmentApi {
        platform: Platform::Unix,
        home: Some("/home/me".to_string()),
        root: None,
        vars,
        search_locations: Vec::new(),
    }
}

fn candidate(env: &str, version: Option<&str>) -> PythonEnv {
    PythonEnv::new(
        format!("{}/bin/python", env),
        Some(env.to_string()),
        version.map(|v| v.to_string()),
    )
}

fn expected(env: &str, category: PythonEnvironmentCategory, name: Option<&str>, version: Option<&str>) -> PythonEnvironment {
    PythonEnvironment {
        name: name.map(|n| n.to_string()),
        python_executable_path: Some(format!("{}/bin/python", env)),
        category,
        version: version.map(|v| v.to_string()),
        env_path: Some(env.to_string()),
        python_run_command: Some(vec![format!("{}/bin/python", env)]),
        ..Default::default()
    }
}

/// A home with one environment of each kind.
fn fixture() -> FileSystem {
    let mut fs = FileSystem::new();
    // venv
    add_file(&mut fs, "/home/me/.venvs/ven/bin/python", "");
    add_file(&mut fs, "/home/me/.venvs/ven/bin/activate", "");
    add_file(&mut fs, "/home/me/.venvs/ven/pyvenv.cfg", "home = /usr/bin\nversion = 3.10.2\n");
    // virtualenv
    add_file(&mut fs, "/home/me/.venvs/virt/bin/python", "");
    add_file(&mut fs, "/home/me/.venvs/virt/bin/activate.fish", "");
    // nothing
    add_file(&mut fs, "/home/me/.venvs/bare/bin/python", "");
    // virtualenvwrapper
    add_file(&mut fs, "/home/me/wrapped/w1/bin/python", "");
    add_file(&mut fs, "/home/me/wrapped/w1/bin/activate", "");
    add_file(&mut fs, "/home/me/wrapped/w1/pyvenv.cfg", "version = 3.9.0\n");
    // pipenv
    add_file(&mut fs, "/home/me/.local/share/virtualenvs/proj-Xy/bin/python", "");
    add_file(&mut fs, "/home/me/.local/share/virtualenvs/proj-Xy/bin/activate", "");
    add_file(&mut fs, "/home/me/.local/share/virtualenvs/proj-Xy/.project", "/home/me/proj\n");
    add_file(&mut fs, "/home/me/proj/Pipfile", "");
    // a project without Pipfile
    add_file(&mut fs, "/home/me/.local/share/virtualenvs/old-Ab/bin/python", "");
    add_file(&mut fs, "/home/me/.local/share/virtualenvs/old-Ab/.project", "/home/me/old");
    add_directories(&mut fs, "/home/me/old");
    fs
}

#[test]
fn venv_needs_a_configuration_file() {
    let fs = fixture();
    assert!(is_venv(&fs, &candidate("/home/me/.venvs/ven", None)));
    assert!(!is_venv(&fs, &candidate("/home/me/.venvs/virt", None)));
    assert!(!is_venv(
        &fs,
        &PythonEnv::new("/home/me/.venvs/ven/bin/python".to_string(), None, None)
    ));
    let locator = Venv::new(&fs);
    assert_eq!(
        locator.resolve(&candidate("/home/me/.venvs/ven", None)),
        Some(expected(
            "/home/me/.venvs/ven",
            PythonEnvironmentCategory::Venv,
            Some("ven"),
            Some("3.10.2")
        ))
    );
    assert_eq!(locator.resolve(&candidate("/home/me/.venvs/virt", None)), None);
    assert_eq!(Venv::new(&fs).find(), None);
}

#[test]
fn version_of_the_configuration_file_wins() {
    let fs = fixture();
    let locator = Venv::new(&fs);
    let env = locator.resolve(&candidate("/home/me/.venvs/ven", Some("3.10.9"))).unwrap();
    assert_eq!(env.version, Some("3.10.2".to_string()));
    // Without a version in the file, what was known of the candidate stays.
    let mut fs = FileSystem::new();
    add_file(&mut fs, "/e/bin/python", "");
    add_file(&mut fs, "/e/pyvenv.cfg", "home = /usr/bin\n");
    let env = Venv::new(&fs).resolve(&candidate("/e", Some("3.8.1"))).unwrap();
    assert_eq!(env.version, Some("3.8.1".to_string()));
}

#[test]
fn virtualenv_needs_an_activation_script() {
    let fs = fixture();
    assert!(is_virtualenv(&fs, &candidate("/home/me/.venvs/virt", None)));
    assert!(is_virtualenv(&fs, &candidate("/home/me/.venvs/ven", None)));
    assert!(!is_virtualenv(&fs, &candidate("/home/me/.venvs/bare", None)));
    assert!(!is_virtualenv(
        &fs,
        &PythonEnv::new("/home/me/.venvs/virt/bin/python".to_string(), None, None)
    ));
    assert_eq!(
        VirtualEnv::new(&fs).resolve(&candidate("/home/me/.venvs/virt", Some("3.7.0"))),
        Some(expected(
            "/home/me/.venvs/virt",
            PythonEnvironmentCategory::VirtualEnv,
            Some("virt"),
            Some("3.7.0")
        ))
    );
    assert_eq!(VirtualEnv::new(&fs).resolve(&candidate("/home/me/.venvs/bare", None)), None);
    assert_eq!(VirtualEnv::new(&fs).find(), None);
}

#[test]
fn pipenv_needs_a_project_with_a_pipfile() {
    let fs = fixture();
    let env = "/home/me/.local/share/virtualenvs/proj-Xy";
    assert!(is_pipenv(&fs, &candidate(env, None)));
    assert!(!is_pipenv(&fs, &candidate("/home/me/.local/share/virtualenvs/old-Ab", None)));
    assert!(!is_pipenv(&fs, &candidate("/home/me/.venvs/ven", None)));
    let mut record = expected(env, PythonEnvironmentCategory::Pipenv, None, None);
    record.project_path = Some("/home/me/proj".to_string());
    assert_eq!(PipEnv::new(&fs).resolve(&candidate(env, None)), Some(record));
    assert_eq!(PipEnv::new(&fs).find(), None);
}

#[test]
fn virtualenvwrapper_needs_its_home() {
    let fs = fixture();
    let known = unix(vec![("WORKON_HOME".to_string(), "/home/me/wrapped".to_string())]);
    assert_eq!(get_work_on_home_path(&known, &fs), Some("/home/me/wrapped".to_string()));
    assert!(is_virtualenvwrapper(&fs, &candidate("/home/me/wrapped/w1", None), &known));
    assert!(!is_virtualenvwrapper(&fs, &candidate("/home/me/.venvs/virt", None), &known));
    let mut locator = VirtualEnvWrapper::with(&known, &fs);
    let record = expected(
        "/home/me/wrapped/w1",
        PythonEnvironmentCategory::VirtualEnvWrapper,
        Some("w1"),
        Some("3.9.0"),
    );
    let found = locator.find().unwrap();
    assert_eq!(found.environments, vec![record]);
    assert_eq!(found.managers.len(), 0);

    let without = unix(Vec::new());
    assert_eq!(get_work_on_home_path(&without, &fs), None);
    assert!(!is_virtualenvwrapper(&fs, &candidate("/home/me/wrapped/w1", None), &without));
    assert_eq!(VirtualEnvWrapper::with(&without, &fs).find(), None);
}

#[test]
fn default_home_of_virtualenvwrapper() {
    let mut fs = FileSystem::new();
    add_directories(&mut fs, "/home/me/virtualenvs");
    assert_eq!(
        get_default_virtualenvwrapper_path(&unix(Vec::new()), &fs),
        Some("/home/me/virtualenvs".to_string())
    );
    let mut windows = unix(Vec::new());
    windows.platform = Platform::Windows;
    assert_eq!(get_default_virtualenvwrapper_path(&windows, &fs), None);
    add_directories(&mut fs, "/home/me/Envs");
    assert_eq!(
        get_default_virtualenvwrapper_path(&windows, &fs),
        Some("/home/me/Envs".to_string())
    );
}

#[test]
fn directories_of_virtual_environments() {
    let fs = fixture();
    let known = unix(vec![("WORKON_HOME".to_string(), "/home/me/wrapped".to_string())]);
    assert_eq!(
        get_global_virtualenv_dirs(&known, &fs),
        vec![
            "/home/me/wrapped".to_string(),
            "/home/me/.venvs".to_string(),
            "/home/me/.local/share/virtualenvs".to_string(),
        ]
    );
    let candidates = list_global_virtual_envs(&known, &fs);
    assert_eq!(candidates.len(), 6);
    assert_eq!(candidates[0], candidate("/home/me/wrapped/w1", Some("3.9.0")));
    assert_eq!(candidates[1], candidate("/home/me/.venvs/ven", Some("3.10.2")));
    assert_eq!(candidates[2], candidate("/home/me/.venvs/virt", None));
    assert_eq!(list_python_environments(&fs, Platform::Unix, "/home/me/missing"), None);
    assert_eq!(
        list_python_environments(&fs, Platform::Unix, "/home/me/proj"),
        Some(Vec::<PythonEnv>::new())
    );
}

#[test]
fn the_more_specific_kind_wins() {
    let fs = fixture();
    let known = unix(vec![("WORKON_HOME".to_string(), "/home/me/wrapped".to_string())]);
    let kind = |env: &str| classify(&known, &fs, &candidate(env, None)).map(|e| e.category);
    assert_eq!(
        kind("/home/me/.local/share/virtualenvs/proj-Xy"),
        Some(PythonEnvironmentCategory::Pipenv)
    );
    assert_eq!(kind("/home/me/wrapped/w1"), Some(PythonEnvironmentCategory::VirtualEnvWrapper));
    assert_eq!(kind("/home/me/.venvs/ven"), Some(PythonEnvironmentCategory::Venv));
    assert_eq!(kind("/home/me/.venvs/virt"), Some(PythonEnvironmentCategory::VirtualEnv));
    assert_eq!(kind("/home/me/.venvs/bare"), None);
}

#[test]
fn candidates_of_the_directories_are_reported_once() {
    let fs = fixture();
    let known = unix(vec![("WORKON_HOME".to_string(), "/home/me/wrapped".to_string())]);
    let mut store = create_dispatcher();
    assert!(resolve_and_report_environment(
        VirtualEnv::new(&fs).resolve(&candidate("/home/me/.venvs/ven", None)),
        &mut store
    ));
    assert!(!resolve_and_report_environment(None, &mut store));
    find_in_global_virtual_env_dirs(&known, &fs, &mut store);
    let categories: Vec<PythonEnvironmentCategory> =
        store.environments().iter().map(|e| e.category).collect();
    // The venv was reported as a virtualenv before and is passed over.
    assert_eq!(
        categories,
        vec![
            PythonEnvironmentCategory::VirtualEnv,
            PythonEnvironmentCategory::VirtualEnvWrapper,
            PythonEnvironmentCategory::VirtualEnv,
            PythonEnvironmentCategory::Pipenv,
        ]
    );
}

use python_finder::filesystem::{Entry, FileSystem};
use python_finder::known::{EnvironmentApi, Platform};
use python_finder::messaging::{
    create_dispatcher, EnvManagerType, JsonRpcDispatcher, PythonEnvironment,
    PythonEnvironmentCategory,
};
use python_finder::locator::LocatorResult;
use python_finder::registry::Registry;
use python_finder::utils::get_environment_key;
use python_finder::{find_and_report_envs, find_using_global_finders, report_result};

fn parent_of(path: &str) -> Option<String> {
    let trimmed = path.trim_end_matches('/');
    match trimmed.rfind('/') {
        Some(0) => Some("/".to_string()),
        Some(i) => Some(trimmed[..i].to_string()),
        None => None,
    }
}

fn add_directories(fs: &mut FileSystem, path: &str) {
    let mut missing: Vec<String> = vec![];
    let mut current = Some(path.to_string());
    while let Some(p) = current {
        if p == "/" || p.is_empty() || fs.is_present(&p) {
            break;
        }
        missing.push(p.clone());
        current = parent_of(&p);
    }
    for p in missing.iter().rev() {
        fs.add(Entry::directory(p));
    }
}

fn add_file(fs: &mut FileSystem, path: &str, contents: &str) {
    if let Some(dir) = parent_of(path) {
        add_directories(fs, &dir);
    }
    fs.add(Entry::file(path, contents));
}

fn add_link(fs: &mut FileSystem, path: &str, target: &str) {
    if let Some(dir) = parent_of(path) {
        add_directories(fs, &dir);
    }
    fs.add(Entry::link(path, target));
}

/// A home with pyenv and an installation of Conda. The installation records
/// no `python` package of its own.
fn home_fixture() -> (FileSystem, EnvironmentApi) {
    let home = "/home/me";
    let mut fs = FileSystem::new();
    add_link(&mut fs, "/opt/tools/pyenv", "/opt/Cellar/pyenv/2.4.0/libexec/pyenv");
    for folder in ["3.9.9", "3.12.1", "my-virtual-env"] {
        add_file(&mut fs, &format!("{}/.pyenv/versions/{}/bin/python", home, folder), "");
    }
    add_file(
        &mut fs,
        &format!("{}/.pyenv/versions/my-virtual-env/pyvenv.cfg", home),
        "version = 3.10.13\n",
    );
    let conda = format!("{}/anaconda3", home);
    add_file(&mut fs, &format!("{}/bin/conda", conda), "");
    add_file(&mut fs, &format!("{}/bin/python", conda), "");
    add_file(&mut fs, &format!("{}/conda-meta/conda-23.11.0-py311_0.json", conda), "{}");
    add_file(&mut fs, &format!("{}/envs/one/python", conda), "");
    add_file(&mut fs, &format!("{}/envs/one/conda-meta/python-10.0.1-h1_0.json", conda), "{}");
    add_file(&mut fs, &format!("{}/envs/two/python", conda), "");
    let known = EnvironmentApi {
        platform: Platform::Unix,
        home: Some(home.to_string()),
        root: None,
        vars: Vec::new(),
        search_locations: vec!["/opt/tools".to_string()],
    };
    (fs, known)
}

fn keys(store: &JsonRpcDispatcher) -> Vec<String> {
    store.environments().iter().map(|e| get_environment_key(e).unwrap()).collect()
}

fn find<'a>(store: &'a JsonRpcDispatcher, key: &str) -> &'a PythonEnvironment {
    store
        .environments()
        .iter()
        .find(|e| get_environment_key(e) == Some(key.to_string()))
        .unwrap()
}

#[test]
fn home_with_pyenv_and_conda() {
    let (fs, known) = home_fixture();
    let store = find_and_report_envs(&known, &fs, &Registry::new());

    let managers = store.managers();
    assert_eq!(managers.len(), 2);
    assert_eq!(managers.iter().filter(|m| m.tool == EnvManagerType::Pyenv).count(), 1);
    assert_eq!(managers.iter().filter(|m| m.tool == EnvManagerType::Conda).count(), 1);
    let pyenv = managers.iter().find(|m| m.tool == EnvManagerType::Pyenv).unwrap();
    assert_eq!(pyenv.executable_path, "/opt/tools/pyenv");
    assert_eq!(pyenv.version, Some("2.4.0".to_string()));
    let conda = managers.iter().find(|m| m.tool == EnvManagerType::Conda).unwrap();
    assert_eq!(conda.executable_path, "/home/me/anaconda3/bin/conda");
    assert_eq!(conda.version, Some("23.11.0".to_string()));

    assert_eq!(store.environments().len(), 5);
    let exe = |folder: &str| format!("/home/me/.pyenv/versions/{}/bin/python", folder);
    let plain = find(&store, &exe("3.9.9"));
    assert_eq!(plain.category, PythonEnvironmentCategory::Pyenv);
    assert_eq!(plain.version, Some("3.9.9".to_string()));
    assert_eq!(plain.python_run_command, Some(vec![exe("3.9.9")]));
    assert_eq!(plain.env_manager, Some(pyenv.clone()));
    let other = find(&store, &exe("3.12.1"));
    assert_eq!(other.category, PythonEnvironmentCategory::Pyenv);
    assert_eq!(other.version, Some("3.12.1".to_string()));
    let virtual_env = find(&store, &exe("my-virtual-env"));
    assert_eq!(virtual_env.category, PythonEnvironmentCategory::PyenvVirtualEnv);
    assert_eq!(virtual_env.version, Some("3.10.13".to_string()));
    assert_eq!(virtual_env.name, Some("my-virtual-env".to_string()));
    assert_eq!(virtual_env.python_run_command, Some(vec![exe("my-virtual-env")]));

    let run = |name: &str| {
        Some(vec![
            "/home/me/anaconda3/bin/conda".to_string(),
            "run".to_string(),
            "-n".to_string(),
            name.to_string(),
            "python".to_string(),
        ])
    };
    let one = find(&store, "/home/me/anaconda3/envs/one/python");
    assert_eq!(one.category, PythonEnvironmentCategory::Conda);
    assert_eq!(one.version, Some("10.0.1".to_string()));
    assert_eq!(one.python_run_command, run("one"));
    assert_eq!(one.env_manager, Some(conda.clone()));
    let two = find(&store, "/home/me/anaconda3/envs/two/python");
    assert_eq!(two.category, PythonEnvironmentCategory::Conda);
    assert_eq!(two.version, None);
    assert_eq!(two.python_run_command, run("two"));
}

#[test]
fn every_kind_with_a_manager_carries_it() {
    let (fs, known) = home_fixture();
    let store = find_and_report_envs(&known, &fs, &Registry::new());
    for env in store.environments() {
        match env.category {
            PythonEnvironmentCategory::Conda
            | PythonEnvironmentCategory::Pyenv
            | PythonEnvironmentCategory::PyenvVirtualEnv => assert!(env.env_manager.is_some()),
            _ => assert!(env.env_manager.is_none()),
        }
    }
}

#[test]
fn two_runs_report_the_same_keys() {
    let (fs, known) = home_fixture();
    let first = find_and_report_envs(&known, &fs, &Registry::new());
    let second = find_and_report_envs(&known, &fs, &Registry::new());
    assert_eq!(keys(&first), keys(&second));
    assert_eq!(first, second);
}

#[test]
fn no_two_reported_environments_share_a_key() {
    let (mut fs, mut known) = home_fixture();
    // The same interpreters are also on the search path, under several names.
    add_link(&mut fs, "/usr/local/bin/python3", "/home/me/.pyenv/versions/3.12.1/bin/python");
    add_link(&mut fs, "/usr/local/bin/python3.12", "/home/me/.pyenv/versions/3.12.1/bin/python");
    add_file(&mut fs, "/usr/bin/python3", "");
    known.search_locations = vec![
        "/opt/tools".to_string(),
        "/usr/local/bin".to_string(),
        "/usr/bin".to_string(),
        "/home/me/.pyenv/versions/3.9.9/bin".to_string(),
    ];
    let store = find_and_report_envs(&known, &fs, &Registry::new());
    let all = keys(&store);
    for i in 0..all.len() {
        for j in (i + 1)..all.len() {
            assert_ne!(all[i], all[j]);
        }
    }
    // Five from the managers and the system's own Python.
    assert_eq!(all.len(), 6);
    let system = find(&store, "/usr/bin/python3");
    assert_eq!(system.category, PythonEnvironmentCategory::System);
    // The pyenv Python that the search path links to stays pyenv's.
    let linked = store
        .environments()
        .iter()
        .find(|e| e.version == Some("3.12.1".to_string()))
        .unwrap();
    assert_eq!(linked.category, PythonEnvironmentCategory::Pyenv);
    assert!(linked.symlinks.clone().unwrap().contains(&"/usr/local/bin/python3.12".to_string()));
}

#[test]
fn sources_report_in_their_fixed_order() {
    let (fs, known) = home_fixture();
    let mut store = create_dispatcher();
    find_using_global_finders(&known, &fs, &Registry::new(), &mut store);
    let categories: Vec<PythonEnvironmentCategory> =
        store.environments().iter().map(|e| e.category).collect();
    assert_eq!(
        categories,
        vec![
            PythonEnvironmentCategory::Pyenv,
            PythonEnvironmentCategory::Pyenv,
            PythonEnvironmentCategory::PyenvVirtualEnv,
            PythonEnvironmentCategory::Conda,
            PythonEnvironmentCategory::Conda,
        ]
    );
}

#[test]
fn reporting_a_result_reports_environments_then_managers() {
    let mut store = create_dispatcher();
    report_result(None, &mut store);
    assert_eq!(store.environments().len(), 0);
    let env = PythonEnvironment {
        python_executable_path: Some("/a/python".to_string()),
        ..Default::default()
    };
    let result = LocatorResult { managers: Vec::new(), environments: vec![env.clone(), env.clone()] };
    report_result(Some(result.clone()), &mut store);
    report_result(Some(result), &mut store);
    assert_eq!(store.environments(), &vec![env]);
}

#[test]
fn empty_machine_reports_nothing() {
    let known = EnvironmentApi::new(Platform::Unix, Vec::new());
    let store = find_and_report_envs(&known, &FileSystem::new(), &Registry::new());
    assert_eq!(store.environments().len(), 0);
    assert_eq!(store.managers().len(), 0);
}

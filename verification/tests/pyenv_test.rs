use python_finder::conda::Conda;
use python_finder::filesystem::{Entry, FileSystem};
use python_finder::known::{EnvironmentApi, Platform};
use python_finder::locator::Locator;
use python_finder::messaging::{
    Architecture, EnvManager, EnvManagerType, PythonEnvironment, PythonEnvironmentCategory,
};
use python_finder::pyenv::{
    get_pure_python_environment, get_pyenv_info, get_version, is_conda_environment,
    pick_first_version, PyEnv,
};
use python_finder::utils::PythonEnv;

fn parent_of(path: &str) -> Option<String> {
    let trimmed = path.trim_end_matches('/');
    match trimmed.rfind('/') {
        Some(0) => Some("/".to_string()),
        Some(i) => Some(trimmed[..i].to_string()),
        None => None,
    }
}

fn add_directories(fs: &mut FileSystem, path: &str) {
    let mut missing: Vec<String> = vec![];
    let mut current = Some(path.to_string());
    while let Some(p) = current {
        if p == "/" || p.is_empty() || fs.is_present(&p) {
            break;
        }
        missing.push(p.clone());
        current = parent_of(&p);
    }
    for p in missing.iter().rev() {
        fs.add(Entry::directory(p));
    }
}

fn add_file(fs: &mut FileSystem, path: &str, contents: &str) {
    if let Some(dir) = parent_of(path) {
        add_directories(fs, &dir);
    }
    fs.add(Entry::file(path, contents));
}

fn add_link(fs: &mut FileSystem, path: &str, target: &str) {
    if let Some(dir) = parent_of(path) {
        add_directories(fs, &dir);
    }
    fs.add(Entry::link(path, target));
}

fn test_environment(
    vars: Vec<(String, String)>,
    home: Option<String>,
    globals_locations: Vec<String>,
) -> EnvironmentApi {
    EnvironmentApi {
        platform: Platform::Unix,
        home,
        root: None,
        vars,
        search_locations: globals_locations,
    }
}

fn assert_same_environments(expected: &[PythonEnvironment], actual: &[PythonEnvironment]) {
    assert_eq!(expected.len(), actual.len(), "Incorrect number of environments");
    for e in expected {
        assert!(actual.contains(e), "missing {:?} in {:?}", e, actual);
    }
}

fn pyenv_environment(
    home: &str,
    folder: &str,
    category: PythonEnvironmentCategory,
    name: Option<&str>,
    version: &str,
    manager: &EnvManager,
) -> PythonEnvironment {
    let exe = format!("{}/.pyenv/versions/{}/bin/python", home, folder);
    PythonEnvironment {
        display_name: None,
        project_path: None,
        name: name.map(|n| n.to_string()),
        python_executable_path: Some(exe.clone()),
        python_run_command: Some(vec![exe]),
        category,
        version: Some(version.to_string()),
        env_path: Some(format!("{}/.pyenv/versions/{}", home, folder)),
        env_manager: Some(manager.clone()),
        arch: None,
        ..Default::default()
    }
}

#[test]
fn does_not_find_any_pyenv_envs() {
    let fs = FileSystem::new();
    let known = test_environment(Vec::new(), Some("SOME_BOGUS_HOME_DIR".to_string()), Vec::new());

    let conda = Conda::with(&known, &fs);
    let mut locator = PyEnv::with(&known, &fs, conda);
    let result = locator.find();

    assert_eq!(result.is_none(), true);
}

#[test]
fn does_not_find_any_pyenv_envs_even_with_pyenv_installed() {
    let home = "/fixture/pyenv_without_envs/user_home".to_string();
    let homebrew_bin = "/fixture/pyenv_without_envs/home/opt/homebrew/bin".to_string();
    let pyenv_exe = format!("{}/pyenv", homebrew_bin);
    let mut fs = FileSystem::new();
    add_directories(&mut fs, &home);
    add_file(&mut fs, &pyenv_exe, "");
    let known = test_environment(Vec::new(), Some(home.clone()), vec![homebrew_bin]);

    let conda = Conda::with(&known, &fs);
    let mut locator = PyEnv::with(&known, &fs, conda);
    let result = locator.find().unwrap();

    let managers = result.clone().managers;
    assert_eq!(managers.len(), 1);

    let expected_manager = EnvManager {
        executable_path: pyenv_exe.clone(),
        version: None,
        tool: EnvManagerType::Pyenv,
        company: None,
        company_display_name: None,
    };
    assert_eq!(expected_manager, result.managers[0]);
}

fn pyenv_fixture() -> (FileSystem, String, String) {
    let home = "/fixture/pyenv/user_home".to_string();
    let homebrew_bin = "/fixture/pyenv/home/opt/homebrew/bin".to_string();
    let mut fs = FileSystem::new();
    add_file(&mut fs, &format!("{}/pyenv", homebrew_bin), "");
    for folder in ["3.9.9", "3.12.1", "3.13-dev", "3.12.1a3", "my-virtual-env", "nothing"] {
        add_file(&mut fs, &format!("{}/.pyenv/versions/{}/bin/python", home, folder), "");
    }
    add_file(
        &mut fs,
        &format!("{}/.pyenv/versions/my-virtual-env/pyvenv.cfg", home),
        "home = /Users/me/.pyenv/versions/3.10.13/bin\ninclude-system-site-packages = false\nversion = 3.10.13\n",
    );
    add_directories(&mut fs, &format!("{}/.pyenv/versions/empty", home));
    add_file(&mut fs, &format!("{}/.pyenv/versions/README", home), "");
    (fs, home, homebrew_bin)
}

#[test]
fn find_pyenv_envs() {
    let (fs, home, homebrew_bin) = pyenv_fixture();
    let pyenv_exe = format!("{}/pyenv", homebrew_bin);
    let known = test_environment(Vec::new(), Some(home.clone()), vec![homebrew_bin]);

    let conda = Conda::with(&known, &fs);
    let mut locator = PyEnv::with(&known, &fs, conda);
    let result = locator.find().unwrap();

    assert_eq!(result.managers.len(), 1);

    let expected_manager = EnvManager {
        executable_path: pyenv_exe.clone(),
        version: None,
        tool: EnvManagerType::Pyenv,
        company: None,
        company_display_name: None,
    };
    assert_eq!(expected_manager, result.managers[0]);

    let pyenv = PythonEnvironmentCategory::Pyenv;
    let expected_3_9_9 = pyenv_environment(&home, "3.9.9", pyenv, None, "3.9.9", &expected_manager);
    let expected_virtual_env = pyenv_environment(
        &home,
        "my-virtual-env",
        PythonEnvironmentCategory::PyenvVirtualEnv,
        Some("my-virtual-env"),
        "3.10.13",
        &expected_manager,
    );
    let expected_3_12_1 =
        pyenv_environment(&home, "3.12.1", pyenv, None, "3.12.1", &expected_manager);
    let expected_3_13_dev =
        pyenv_environment(&home, "3.13-dev", pyenv, None, "3.13-dev", &expected_manager);
    let expected_3_12_1a3 =
        pyenv_environment(&home, "3.12.1a3", pyenv, None, "3.12.1a3", &expected_manager);

    assert_same_environments(
        &[
            expected_3_9_9,
            expected_virtual_env,
            expected_3_12_1,
            expected_3_13_dev,
            expected_3_12_1a3,
        ],
        &result.environments,
    )
}

#[test]
fn folder_names_are_classified_by_the_first_pattern_that_matches() {
    assert_eq!(get_version("3.9.9"), Some("3.9.9".to_string()));
    assert_eq!(get_version("3.13-dev"), Some("3.13-dev".to_string()));
    assert_eq!(get_version("3.12.1a3"), Some("3.12.1a3".to_string()));
    assert_eq!(get_version("3.11.0a4-win32"), Some("3.11.0a4".to_string()));
    assert_eq!(get_version("my-virtual-env"), None);
    assert_eq!(get_version("3.10"), None);
    assert_eq!(get_version(""), None);
    assert_eq!(
        pick_first_version(None, Some("b".to_string()), Some("c".to_string()), None),
        Some("b".to_string())
    );
    assert_eq!(
        pick_first_version(Some("a".to_string()), Some("b".to_string()), None, None),
        Some("a".to_string())
    );
    assert_eq!(pick_first_version(None, None, None, Some("d".to_string())), Some("d".to_string()));
    assert_eq!(pick_first_version(None, None, None, None), None);
}

#[test]
fn win32_folder_is_a_32_bit_python() {
    let env = get_pure_python_environment(
        "/p/versions/3.11.0a4-win32/python.exe",
        "/p/versions/3.11.0a4-win32",
        &None,
    )
    .unwrap();
    assert_eq!(env.arch, Some(Architecture::X86));
    assert_eq!(env.version, Some("3.11.0a4".to_string()));
    assert_eq!(env.env_manager, None);
    assert_eq!(get_pure_python_environment("/p/versions/x/python", "/p/versions/x", &None), None);
}

#[test]
fn pyenv_resolves_candidates_in_its_versions_directory() {
    let (fs, home, homebrew_bin) = pyenv_fixture();
    let known = test_environment(Vec::new(), Some(home.clone()), vec![homebrew_bin.clone()]);
    let locator = PyEnv::with(&known, &fs, Conda::with(&known, &fs));
    let manager = EnvManager::new(format!("{}/pyenv", homebrew_bin), None, EnvManagerType::Pyenv);

    let candidate = PythonEnv::new(
        format!("{}/.pyenv/versions/3.9.9/bin/python", home),
        Some(format!("{}/.pyenv/versions/3.9.9", home)),
        None,
    );
    assert_eq!(
        locator.resolve(&candidate),
        Some(pyenv_environment(
            &home,
            "3.9.9",
            PythonEnvironmentCategory::Pyenv,
            None,
            "3.9.9",
            &manager
        ))
    );
    let virtual_env = PythonEnv::new(
        format!("{}/.pyenv/versions/my-virtual-env/bin/python", home),
        Some(format!("{}/.pyenv/versions/my-virtual-env", home)),
        None,
    );
    assert_eq!(
        locator.resolve(&virtual_env).unwrap().category,
        PythonEnvironmentCategory::PyenvVirtualEnv
    );
    let without_version = PythonEnv::new(
        format!("{}/.pyenv/versions/nothing/bin/python", home),
        Some(format!("{}/.pyenv/versions/nothing", home)),
        None,
    );
    assert_eq!(locator.resolve(&without_version), None);
    let elsewhere =
        PythonEnv::new("/usr/bin/python3.9.9".to_string(), Some("/usr/3.9.9".to_string()), None);
    assert_eq!(locator.resolve(&elsewhere), None);
    let without_path =
        PythonEnv::new(format!("{}/.pyenv/versions/3.9.9/bin/python", home), None, None);
    assert_eq!(locator.resolve(&without_path), None);
}

#[test]
fn pyenv_version_comes_from_the_real_path_of_the_executable() {
    let mut fs = FileSystem::new();
    add_link(&mut fs, "/opt/homebrew/bin/pyenv", "/opt/homebrew/Cellar/pyenv/2.4.0/libexec/pyenv");
    add_directories(&mut fs, "/home/me/.pyenv/versions");
    let known = test_environment(
        Vec::new(),
        Some("/home/me".to_string()),
        vec!["/opt/homebrew/bin".to_string()],
    );
    let info = get_pyenv_info(&known, &fs);
    assert_eq!(info.exe, Some("/opt/homebrew/bin/pyenv".to_string()));
    assert_eq!(info.versions, Some("/home/me/.pyenv/versions".to_string()));
    assert_eq!(info.version, Some("2.4.0".to_string()));
}

#[test]
fn pyenv_root_variable_names_the_directory() {
    let mut fs = FileSystem::new();
    add_file(&mut fs, "/custom/pyenv/bin/pyenv", "");
    add_directories(&mut fs, "/custom/pyenv/versions");
    add_directories(&mut fs, "/home/me/.pyenv/versions");
    let known = test_environment(
        vec![
            ("PYENV".to_string(), "/other".to_string()),
            ("PYENV_ROOT".to_string(), "/custom/pyenv".to_string()),
        ],
        Some("/home/me".to_string()),
        Vec::new(),
    );
    let info = get_pyenv_info(&known, &fs);
    assert_eq!(info.exe, Some("/custom/pyenv/bin/pyenv".to_string()));
    assert_eq!(info.versions, Some("/custom/pyenv/versions".to_string()));
    assert_eq!(info.version, None);
}

#[test]
fn pyenv_on_windows_reads_its_version_file() {
    let mut fs = FileSystem::new();
    add_file(&mut fs, "C:/Users/me/.pyenv/pyenv-win/bin/pyenv", "");
    add_file(&mut fs, "C:/Users/me/.pyenv/.version", "3.1.1\n");
    let known = EnvironmentApi {
        platform: Platform::Windows,
        home: Some("C:/Users/me".to_string()),
        root: None,
        vars: vec![("PYENV".to_string(), "C:/Users/me/.pyenv/pyenv-win".to_string())],
        search_locations: Vec::new(),
    };
    let info = get_pyenv_info(&known, &fs);
    assert_eq!(info.exe, Some("C:/Users/me/.pyenv/pyenv-win/bin/pyenv".to_string()));
    assert_eq!(info.version, Some("3.1.1".to_string()));
}

#[test]
fn conda_distribution_in_versions_is_handed_to_conda() {
    let home = "/home/me".to_string();
    let mut fs = FileSystem::new();
    let conda_dir = format!("{}/.pyenv/versions/miniconda3-latest", home);
    add_file(&mut fs, &format!("{}/bin/python", conda_dir), "");
    add_file(&mut fs, &format!("{}/bin/conda", conda_dir), "");
    add_file(&mut fs, &format!("{}/conda-meta/conda-23.1.0-py310_0.json", conda_dir), "{}");
    add_file(&mut fs, &format!("{}/conda-meta/python-3.10.9-h1_0.json", conda_dir), "{}");
    add_file(&mut fs, &format!("{}/envs/data/bin/python", conda_dir), "");
    assert!(is_conda_environment(&fs, &conda_dir));
    assert!(is_conda_environment(&fs, "/x/Anaconda3-2023"));
    assert!(!is_conda_environment(&fs, "/x/3.9.9"));
    let known = test_environment(Vec::new(), Some(home.clone()), Vec::new());
    let mut locator = PyEnv::with(&known, &fs, Conda::with(&known, &fs));
    let result = locator.find().unwrap();
    assert_eq!(result.managers.len(), 1);
    assert_eq!(result.managers[0].tool, EnvManagerType::Conda);
    assert_eq!(result.managers[0].executable_path, format!("{}/bin/conda", conda_dir));
    assert_eq!(result.environments.len(), 2);
    for env in result.environments.iter() {
        assert_eq!(env.category, PythonEnvironmentCategory::Conda);
    }
}

use python_finder::conda::{
    get_activation_command, get_conda_environment_info, get_conda_environment_paths_from_conda_rc,
    get_conda_package_json_path, get_conda_rc_search_paths, get_conda_version,
    get_creating_executable, get_installation_in_history, get_installation_of_executable,
    get_conda_environments_in_specified_install_path, get_known_conda_envs_from_various_locations,
    get_known_conda_install_locations, find_conda_binary, parse_condarc,
    was_conda_environment_created_by_specific_conda, Conda, CondaEnvironment, CondaLocator,
    CondaPackage,
};
use python_finder::filesystem::{Entry, FileSystem};
use python_finder::known::{EnvironmentApi, Platform};
use python_finder::locator::Locator;
use python_finder::logging::{Log, LogLevel};
use python_finder::find_and_report_envs;
use python_finder::registry::Registry;
use python_finder::messaging::{
    Architecture, EnvManager, EnvManagerType, PythonEnvironment, PythonEnvironmentCategory,
};
use python_finder::utils::PythonEnv;

fn parent_of(path: &str) -> Option<String> {
    let trimmed = path.trim_end_matches('/');
    match trimmed.rfind('/') {
        Some(0) => Some("/".to_string()),
        Some(i) => Some(trimmed[..i].to_string()),
        None => None,
    }
}

fn add_directories(fs: &mut FileSystem, path: &str) {
    let mut missing: Vec<String> = vec![];
    let mut current = Some(path.to_string());
    while let Some(p) = current {
        if p == "/" || p.is_empty() || fs.is_present(&p) {
            break;
        }
        missing.push(p.clone());
        current = parent_of(&p);
    }
    for p in missing.iter().rev() {
        fs.add(Entry::directory(p));
    }
}

fn add_file(fs: &mut FileSystem, path: &str, contents: &str) {
    if let Some(dir) = parent_of(path) {
        add_directories(fs, &dir);
    }
    fs.add(Entry::file(path, contents));
}

fn test_environment(
    vars: Vec<(String, String)>,
    home: Option<String>,
    globals_locations: Vec<String>,
    root: Option<String>,
) -> EnvironmentApi {
    EnvironmentApi { platform: Platform::Unix, home, root, vars, search_locations: globals_locations }
}

fn path_var(value: &str) -> Vec<(String, String)> {
    vec![("PATH".to_string(), value.to_string())]
}

fn assert_same_environments(expected: &[PythonEnvironment], actual: &[PythonEnvironment]) {
    assert_eq!(expected.len(), actual.len(), "Incorrect number of environments");
    for e in expected {
        assert!(actual.contains(e), "missing {:?} in {:?}", e, actual);
    }
}

const CHANNEL_64: &str = "{\"build\": \"h966fe2a_2\", \"channel\": \"https://repo.anaconda.com/pkgs/main/osx-64\"}";

/// An installation with a base environment and the environments `one` and `two`.
fn conda_fixture() -> (FileSystem, String, String) {
    let home = "/fixture/conda/user_home".to_string();
    let conda_dir = format!("{}/anaconda3", home);
    let mut fs = FileSystem::new();
    add_file(&mut fs, &format!("{}/bin/conda", conda_dir), "");
    add_file(&mut fs, &format!("{}/bin/python", conda_dir), "");
    add_file(
        &mut fs,
        &format!("{}/conda-meta/conda-23.11.0-py311hca03da5_0.json", conda_dir),
        CHANNEL_64,
    );
    add_file(
        &mut fs,
        &format!("{}/conda-meta/python-3.11.5-hb885b13_0.json", conda_dir),
        CHANNEL_64,
    );
    add_file(&mut fs, &format!("{}/envs/one/python", conda_dir), "");
    add_file(
        &mut fs,
        &format!("{}/envs/one/conda-meta/python-10.0.1-hdf0ec26_0_cpython.json", conda_dir),
        "{}",
    );
    add_file(&mut fs, &format!("{}/envs/two/python", conda_dir), "");
    (fs, home, conda_dir)
}

fn conda_manager(conda_dir: &str, version: &str) -> EnvManager {
    EnvManager {
        executable_path: format!("{}/bin/conda", conda_dir),
        version: Some(version.to_string()),
        tool: EnvManagerType::Conda,
        company: None,
        company_display_name: None,
    }
}

fn run_command(conda_exe: &str, flag: &str, target: &str) -> Option<Vec<String>> {
    Some(vec![
        conda_exe.to_string(),
        "run".to_string(),
        flag.to_string(),
        target.to_string(),
        "python".to_string(),
    ])
}

#[test]
fn does_not_find_any_conda_envs() {
    let fs = FileSystem::new();
    let known = test_environment(
        path_var(""),
        Some("SOME_BOGUS_HOME_DIR".to_string()),
        Vec::new(),
        None,
    );

    let mut locator = Conda::with(&known, &fs);
    let result = locator.find();

    assert_eq!(result.is_none(), true);
}

#[test]
fn no_paths_from_conda_rc_if_conda_rc_does_not_exist() {
    let user_home = "/fixture/no_conda_rc/user_home".to_string();
    let root = "/fixture/no_conda_rc/root".to_string();
    let mut fs = FileSystem::new();
    add_directories(&mut fs, &user_home);
    add_directories(&mut fs, &root);

    let known = test_environment(path_var(""), Some(user_home), Vec::new(), Some(root));

    let result = get_conda_environment_paths_from_conda_rc(&known, &fs);

    assert_eq!(result.len(), 0);
}

#[test]
fn paths_from_conda_rc() {
    fn test_with(conda_rc_file: &str) {
        let home = "/fixture/conda_rc/user_home".to_string();
        let root = "/fixture/conda_rc/root".to_string();
        let conda_dir = format!("{}/.conda", home);
        let conda_envs = format!("{}/envs", conda_dir);

        let known =
            test_environment(path_var(""), Some(home.clone()), Vec::new(), Some(root.clone()));
        let mut fs = FileSystem::new();
        add_directories(&mut fs, &home);
        add_directories(&mut fs, &root);
        add_directories(&mut fs, &conda_envs);
        add_file(&mut fs, conda_rc_file, &format!("envs_dirs:\n - {}\n", conda_dir));

        let result = get_conda_environment_paths_from_conda_rc(&known, &fs);
        assert_eq!(result.len(), 1);
        assert_eq!(result[0], conda_envs);
    }

    test_with("/fixture/conda_rc/root/etc/conda/.condarc");
    test_with("/fixture/conda_rc/user_home/.condarc");
}

#[test]
fn find_conda_exe_and_empty_envs() {
    let user_home = "/fixture/conda_without_envs/user_home".to_string();
    let conda_dir = format!("{}/anaconda3", user_home);
    let mut fs = FileSystem::new();
    add_file(&mut fs, &format!("{}/bin/conda", conda_dir), "");
    add_file(
        &mut fs,
        &format!("{}/conda-meta/conda-4.0.2-pyhd3eb1b0_0.json", conda_dir),
        "{}",
    );
    add_directories(&mut fs, &format!("{}/envs", conda_dir));

    let known = test_environment(path_var(&user_home), Some(user_home.clone()), Vec::new(), None);

    let mut locator = Conda::with(&known, &fs);
    let result = locator.find().unwrap();
    let managers = result.managers;
    assert_eq!(managers.len(), 1);

    let expected_conda_manager = conda_manager(&conda_dir, "4.0.2");
    assert_eq!(managers.len(), 1);
    assert_eq!(expected_conda_manager, managers[0]);
}

#[test]
fn find_conda_from_custom_install_location() {
    let home = "/fixture/conda_custom_install_path/user_home".to_string();
    let conda_dir = format!("{}/some_location/anaconda3", home);
    let mut fs = FileSystem::new();
    add_file(&mut fs, &format!("{}/bin/conda", conda_dir), "");
    add_file(&mut fs, &format!("{}/bin/python", conda_dir), "");
    add_file(
        &mut fs,
        &format!("{}/conda-meta/conda-4.0.2-pyhd3eb1b0_0.json", conda_dir),
        "{}",
    );
    add_file(
        &mut fs,
        &format!("{}/conda-meta/python-10.0.1-hdf0ec26_0_cpython.json", conda_dir),
        "{}",
    );
    add_directories(&mut fs, &format!("{}/envs", conda_dir));
    add_file(&mut fs, &format!("{}/.conda/environments.txt", home), &conda_dir);

    let known = test_environment(Vec::new(), Some(home), Vec::new(), None);

    let mut locator = Conda::with(&known, &fs);
    let result = locator.find().unwrap();

    assert_eq!(result.managers.len(), 1);
    assert_eq!(result.environments.len(), 1);

    let conda_exe = format!("{}/bin/conda", conda_dir);
    let expected_conda_manager = conda_manager(&conda_dir, "4.0.2");
    assert_eq!(expected_conda_manager, result.managers[0]);

    let expected_conda_env = PythonEnvironment {
        display_name: None,
        name: None,
        project_path: None,
        python_executable_path: Some(format!("{}/bin/python", conda_dir)),
        category: PythonEnvironmentCategory::Conda,
        version: Some("10.0.1".to_string()),
        env_path: Some(conda_dir.clone()),
        env_manager: Some(expected_conda_manager.clone()),
        python_run_command: run_command(&conda_exe, "-p", &conda_dir),
        arch: None,
        ..Default::default()
    };
    assert_eq!(expected_conda_env, result.environments[0]);
}

fn expected_conda_root(conda_dir: &str) -> PythonEnvironment {
    let conda_exe = format!("{}/bin/conda", conda_dir);
    PythonEnvironment {
        display_name: None,
        name: None,
        project_path: None,
        python_executable_path: Some(format!("{}/bin/python", conda_dir)),
        category: PythonEnvironmentCategory::Conda,
        version: Some("3.11.5".to_string()),
        env_path: Some(conda_dir.to_string()),
        env_manager: Some(conda_manager(conda_dir, "23.11.0")),
        python_run_command: run_command(&conda_exe, "-p", conda_dir),
        arch: Some(Architecture::X64),
        ..Default::default()
    }
}

fn expected_conda_one(conda_dir: &str) -> PythonEnvironment {
    let conda_exe = format!("{}/bin/conda", conda_dir);
    let conda_1 = format!("{}/envs/one", conda_dir);
    PythonEnvironment {
        display_name: None,
        name: Some("one".to_string()),
        project_path: None,
        python_executable_path: Some(format!("{}/python", conda_1)),
        category: PythonEnvironmentCategory::Conda,
        version: Some("10.0.1".to_string()),
        env_path: Some(conda_1.clone()),
        env_manager: Some(conda_manager(conda_dir, "23.11.0")),
        python_run_command: run_command(&conda_exe, "-n", "one"),
        arch: None,
        ..Default::default()
    }
}

#[test]
fn finds_two_conda_envs_from_known_location() {
    let (fs, home, conda_dir) = conda_fixture();
    let conda_2 = format!("{}/envs/two", conda_dir);

    let known = test_environment(path_var(&conda_dir), Some(home), Vec::new(), None);

    let mut locator = Conda::with(&known, &fs);
    let result = locator.find().unwrap();

    let managers = result.managers;
    let environments = result.environments;
    assert_eq!(managers.len(), 1);

    let conda_exe = format!("{}/bin/conda", conda_dir);
    let expected_conda_manager = conda_manager(&conda_dir, "23.11.0");

    assert_eq!(managers.len(), 1);
    assert_eq!(expected_conda_manager, managers[0]);

    let expected_conda_2 = PythonEnvironment {
        display_name: None,
        name: Some("two".to_string()),
        project_path: None,
        python_executable_path: Some(format!("{}/python", conda_2)),
        category: PythonEnvironmentCategory::Conda,
        version: None,
        env_path: Some(conda_2.clone()),
        env_manager: Some(expected_conda_manager.clone()),
        python_run_command: run_command(&conda_exe, "-n", "two"),
        arch: None,
        ..Default::default()
    };
    assert_same_environments(
        &[expected_conda_root(&conda_dir), expected_conda_one(&conda_dir), expected_conda_2],
        &environments,
    );
}

#[test]
fn detect_conda_envs_from_envs_directory() {
    let (fs, home, conda_dir) = conda_fixture();
    let conda_1 = format!("{}/envs/one", conda_dir);

    let known = test_environment(path_var(&conda_dir), Some(home), Vec::new(), None);

    let locator = Conda::with(&known, &fs);
    let python_env = PythonEnv {
        executable: format!("{}/bin/python", conda_1),
        version: None,
        path: Some(conda_1.clone()),
    };
    let result = locator.resolve(&python_env);
    assert_eq!(result.is_some(), true);
    let result = result.unwrap();

    let expected_conda_manager = conda_manager(&conda_dir, "23.11.0");
    assert_eq!(Some(expected_conda_manager), result.env_manager);
    assert_eq!(expected_conda_one(&conda_dir), result);
}

#[test]
fn detect_root_conda_envs_from_install_directory() {
    let (fs, home, conda_dir) = conda_fixture();

    let known = test_environment(path_var(&conda_dir), Some(home), Vec::new(), None);

    let locator = Conda::with(&known, &fs);
    let python_env = PythonEnv {
        executable: format!("{}/bin/python", conda_dir),
        version: None,
        path: Some(conda_dir.clone()),
    };
    let result = locator.resolve(&python_env);
    assert_eq!(result.is_some(), true);
    let result = result.unwrap();

    let expected_conda_manager = conda_manager(&conda_dir, "23.11.0");
    assert_eq!(Some(expected_conda_manager), result.env_manager);
    assert_eq!(expected_conda_root(&conda_dir), result);
}

/// Two installations, and an environment elsewhere that the first created.
fn two_installations() -> (FileSystem, String, String, String, String) {
    let home = "/fixture/conda_env_created_using_p_flag/user_home".to_string();
    let first = format!("{}/anaconda3", home);
    let second = format!("{}/miniconda3", home);
    let conda_env = format!("{}/dev_folder/two", home);
    let mut fs = FileSystem::new();
    for (dir, version) in [(&first, "4.0.2"), (&second, "23.1.0")] {
        add_file(&mut fs, &format!("{}/bin/conda", dir), "");
        add_file(
            &mut fs,
            &format!("{}/conda-meta/conda-{}-pyhd3eb1b0_0.json", dir, version),
            "{}",
        );
        add_directories(&mut fs, &format!("{}/envs", dir));
    }
    add_file(&mut fs, &format!("{}/python", conda_env), "");
    add_file(
        &mut fs,
        &format!("{}/conda-meta/python-3.12.2-hdf0ec26_0_cpython.json", conda_env),
        "{}",
    );
    add_file(
        &mut fs,
        &format!("{}/conda-meta/history", conda_env),
        &format!(
            "==> 2024-02-28 23:05:07 <==\n# cmd: {}/bin/conda-script.py create -p {}\n# conda version: 23.11.0\n",
            first, conda_env
        ),
    );
    add_file(&mut fs, &format!("{}/.conda/environments.txt", home), &conda_env);
    (fs, home, first, second, conda_env)
}

#[test]
fn detect_conda_envs_from_project_dir_created_using_p_flag() {
    let (fs, home, conda_dir, _, conda_env) = two_installations();

    let known = test_environment(path_var(&conda_dir), Some(home), Vec::new(), None);

    let locator = Conda::with(&known, &fs);
    let python_env = PythonEnv {
        executable: format!("{}/bin/python", conda_env),
        version: None,
        path: Some(conda_env.clone()),
    };
    let result = locator.resolve(&python_env);
    assert_eq!(result.is_some(), true);
    let result = result.unwrap();

    let conda_exe = format!("{}/bin/conda", conda_dir);
    let expected_conda_manager = conda_manager(&conda_dir, "4.0.2");
    assert_eq!(Some(expected_conda_manager.clone()), result.env_manager);

    let expected_conda_env = PythonEnvironment {
        display_name: None,
        name: Some("two".to_string()),
        project_path: None,
        python_executable_path: Some(format!("{}/python", conda_env)),
        category: PythonEnvironmentCategory::Conda,
        version: Some("3.12.2".to_string()),
        env_path: Some(conda_env.clone()),
        env_manager: Some(expected_conda_manager.clone()),
        python_run_command: run_command(&conda_exe, "-p", &conda_env),
        arch: None,
        ..Default::default()
    };
    assert_eq!(expected_conda_env, result);
}

#[test]
fn environment_is_attributed_to_the_installation_that_created_it() {
    let (fs, home, first, second, conda_env) = two_installations();
    let known = test_environment(Vec::new(), Some(home), Vec::new(), None);
    let mut locator = Conda::with(&known, &fs);
    let found = locator.find().unwrap();
    assert_eq!(found.managers.len(), 2);
    let env = found
        .environments
        .iter()
        .find(|e| e.env_path == Some(conda_env.clone()))
        .unwrap();
    assert_eq!(env.env_manager, Some(conda_manager(&first, "4.0.2")));
    assert_ne!(env.env_manager, Some(conda_manager(&second, "23.1.0")));
    assert_eq!(
        env.python_run_command,
        run_command(&format!("{}/bin/conda", first), "-p", &conda_env)
    );
    // Exactly once, although both installations were asked.
    assert_eq!(
        found.environments.iter().filter(|e| e.env_path == Some(conda_env.clone())).count(),
        1
    );
}

#[test]
fn get_conda_package_info() {
    let (fs, _, conda_dir) = conda_fixture();

    let conda_package = get_conda_package_json_path(&fs, &conda_dir, "conda").unwrap();
    assert_eq!(
        conda_package,
        CondaPackage {
            path: format!("{}/conda-meta/conda-23.11.0-py311hca03da5_0.json", conda_dir),
            version: "23.11.0".to_string(),
            arch: Some(Architecture::X64),
        }
    );
    let python_package = get_conda_package_json_path(&fs, &conda_dir, "python").unwrap();
    assert_eq!(
        python_package,
        CondaPackage {
            path: format!("{}/conda-meta/python-3.11.5-hb885b13_0.json", conda_dir),
            version: "3.11.5".to_string(),
            arch: Some(Architecture::X64),
        }
    );
}

#[test]
fn package_architecture_follows_the_channel() {
    let mut fs = FileSystem::new();
    add_file(
        &mut fs,
        "/c/conda-meta/python-3.8.1-h1_0.json",
        "{\"channel\": \"https://repo.anaconda.com/pkgs/main/win-32\"}",
    );
    assert_eq!(
        get_conda_package_json_path(&fs, "/c", "python").unwrap().arch,
        Some(Architecture::X86)
    );
    let mut fs = FileSystem::new();
    add_file(&mut fs, "/c/conda-meta/python-3.8.1-h1_0.json", "{\"channel\": \"defaults\"}");
    assert_eq!(get_conda_package_json_path(&fs, "/c", "python").unwrap().arch, None);
    // A file that is no JSON still names its version.
    let mut fs = FileSystem::new();
    add_file(&mut fs, "/c/conda-meta/python-3.8.1-h1_0.json", "not json [");
    let package = get_conda_package_json_path(&fs, "/c", "python").unwrap();
    assert_eq!(package.version, "3.8.1");
    assert_eq!(package.arch, None);
    // A channel that is no string gives no architecture.
    let mut fs = FileSystem::new();
    add_file(&mut fs, "/c/conda-meta/python-3.8.1-h1_0.json", "{\"channel\": 64}");
    assert_eq!(get_conda_package_json_path(&fs, "/c", "python").unwrap().arch, None);
    // Nor does a document whose top level is no object.
    let mut fs = FileSystem::new();
    add_file(&mut fs, "/c/conda-meta/python-3.8.1-h1_0.json", "[\"main/win-64\"]");
    assert_eq!(get_conda_package_json_path(&fs, "/c", "python").unwrap().arch, None);
    // Escapes in the channel are read as JSON says.
    let mut fs = FileSystem::new();
    add_file(
        &mut fs,
        "/c/conda-meta/python-3.8.1-h1_0.json",
        "{\"n\": 1, \"channel\": \"main/win\\u002d64\"}",
    );
    assert_eq!(
        get_conda_package_json_path(&fs, "/c", "python").unwrap().arch,
        Some(Architecture::X64)
    );
}

#[test]
fn package_name_that_is_no_pattern_finds_nothing() {
    let mut fs = FileSystem::new();
    add_file(&mut fs, "/c/conda-meta/(-3.8.1-h1_0.json", "{}");
    assert_eq!(get_conda_package_json_path(&fs, "/c", "("), None);
    // The version is what the pattern captures, not the whole name.
    add_file(&mut fs, "/c/conda-meta/conda-4.0.2-py_0.json", "{}");
    assert_eq!(get_conda_package_json_path(&fs, "/c", "conda").unwrap().version, "4.0.2");
    add_file(&mut fs, "/d/conda-meta/conda-nightly-py_0.json", "{}");
    assert_eq!(get_conda_package_json_path(&fs, "/d", "conda"), None);
}

#[test]
fn package_file_must_be_named_for_the_package() {
    let mut fs = FileSystem::new();
    add_file(&mut fs, "/c/conda-meta/python-dateutil-2.8.2-pyhd3eb1b0_0.json", "{}");
    add_file(&mut fs, "/c/conda-meta/pythonx-3.8.1-h1_0.json", "{}");
    add_file(&mut fs, "/c/conda-meta/python-3.9.1-h1_0.txt", "{}");
    assert_eq!(get_conda_package_json_path(&fs, "/c", "python"), None);
    add_file(&mut fs, "/c/conda-meta/python-3.10.4-h1_0.json", "{}");
    assert_eq!(get_conda_package_json_path(&fs, "/c", "python").unwrap().version, "3.10.4");
    assert_eq!(get_conda_package_json_path(&fs, "/missing", "python"), None);
}

#[test]
fn history_names_the_creating_installation() {
    assert_eq!(
        get_creating_executable("# cmd: /Users/me/miniconda3/bin/conda create -n conda1"),
        Some("/Users/me/miniconda3/bin/conda".to_string())
    );
    assert_eq!(get_creating_executable("# cmd: conda install numpy"), None);
    assert_eq!(
        get_installation_of_executable("/Users/me/miniconda3/bin/conda"),
        Some("/Users/me/miniconda3".to_string())
    );
    assert_eq!(
        get_installation_of_executable("/Users/me/miniconda3/Scripts/conda-script.py"),
        Some("/Users/me/miniconda3".to_string())
    );
    assert_eq!(
        get_installation_of_executable("/Users/me/tools/conda"),
        Some("/Users/me/tools".to_string())
    );
    assert_eq!(get_installation_of_executable("conda"), None);
    assert_eq!(
        get_installation_in_history(
            Platform::Unix,
            "==> 2024 <==\n# cmd: /a/bin/conda install x\n  # CMD: /opt/conda3/bin/conda create -p /x  \n# cmd: /b/bin/conda create -n y\n"
        ),
        Some("/opt/conda3".to_string())
    );
    assert_eq!(
        get_installation_in_history(
            Platform::Windows,
            "# cmd: C:\\Users\\user\\miniconda3\\Scripts\\conda-script.py create --name myenv\n"
        ),
        Some("C:/Users/user/miniconda3".to_string())
    );
    assert_eq!(get_installation_in_history(Platform::Unix, "# cmd: conda create -n sample\n"), None);
    assert_eq!(get_installation_in_history(Platform::Unix, ""), None);
}

fn conda_environment(named: bool, exe: Option<&str>, folder: Option<&str>) -> CondaEnvironment {
    CondaEnvironment {
        name: "two".to_string(),
        named,
        env_path: "/home/dev/two".to_string(),
        python_executable_path: exe.map(|e| e.to_string()),
        version: None,
        conda_install_folder: folder.map(|f| f.to_string()),
        arch: None,
    }
}

#[test]
fn created_by_compares_installation_directories() {
    let env = conda_environment(false, None, Some("/Users/Me/Anaconda3"));
    assert!(was_conda_environment_created_by_specific_conda(&env, "/users/me/anaconda3"));
    assert!(!was_conda_environment_created_by_specific_conda(&env, "/users/me/anaconda"));
    assert!(!was_conda_environment_created_by_specific_conda(&env, "/users/me/anaconda33"));
    let env = conda_environment(false, None, None);
    assert!(!was_conda_environment_created_by_specific_conda(&env, "/users/me/anaconda3"));
}

#[test]
fn activation_command_by_name_or_by_path() {
    let manager = EnvManager::new("/c/bin/conda".to_string(), None, EnvManagerType::Conda);
    let named = conda_environment(true, Some("/home/dev/two/bin/python"), None);
    assert_eq!(get_activation_command(&named, &manager), run_command("/c/bin/conda", "-n", "two"));
    let by_path = conda_environment(false, Some("/home/dev/two/bin/python"), None);
    assert_eq!(
        get_activation_command(&by_path, &manager),
        run_command("/c/bin/conda", "-p", "/home/dev/two")
    );
    let without_python = conda_environment(true, None, None);
    assert_eq!(get_activation_command(&without_python, &manager), None);
}

#[test]
fn condarc_lists_directories_until_the_list_ends() {
    let mut fs = FileSystem::new();
    add_directories(&mut fs, "/a/envs");
    add_directories(&mut fs, "/b/envs");
    add_directories(&mut fs, "/d/envs");
    let text = "channels:\n  - defaults\nenvs_dirs:\n  - /a\n - /missing\n-   /b  \nother: 1\n  - /d\n";
    assert_eq!(parse_condarc(&fs, text), vec!["/a/envs".to_string(), "/b/envs".to_string()]);
    assert_eq!(parse_condarc(&fs, "  - /a\n"), Vec::<String>::new());
    assert_eq!(parse_condarc(&fs, ""), Vec::<String>::new());
}

#[test]
fn condarc_files_are_read_in_search_order() {
    let home = "/home/me".to_string();
    let mut fs = FileSystem::new();
    add_directories(&mut fs, "/a/envs");
    add_directories(&mut fs, "/b/envs");
    add_file(&mut fs, "/home/me/.condarc", "envs_dirs:\n - /b\n");
    add_file(&mut fs, "/etc/conda/condarc", "envs_dirs:\n - /a\n");
    add_directories(&mut fs, "/etc/conda/condarc.d");
    let known = test_environment(Vec::new(), Some(home), Vec::new(), None);
    assert_eq!(
        get_conda_environment_paths_from_conda_rc(&known, &fs),
        vec!["/a/envs".to_string(), "/b/envs".to_string()]
    );
}

#[test]
fn condarc_search_paths_on_unix() {
    let known = test_environment(
        vec![
            ("CONDARC".to_string(), "/custom/rc".to_string()),
            ("CONDA_ROOT".to_string(), "/croot".to_string()),
        ],
        Some("/home/me".to_string()),
        Vec::new(),
        None,
    );
    let expected: Vec<String> = [
        "/etc/conda/.condarc",
        "/etc/conda/condarc",
        "/etc/conda/condarc.d/",
        "/var/lib/conda/.condarc",
        "/var/lib/conda/condarc",
        "/var/lib/conda/condarc.d/",
        "/croot/.condarc",
        "/croot/condarc",
        "/croot/.condarc.d",
        "/home/me/.config/conda/.condarc",
        "/home/me/.config/conda/condarc",
        "/home/me/.config/conda/condarc.d",
        "/home/me/.conda/.condarc",
        "/home/me/.conda/condarc",
        "/home/me/.conda/condarc.d",
        "/home/me/.condarc",
        "/custom/rc",
    ]
    .iter()
    .map(|p| p.to_string())
    .collect();
    assert_eq!(get_conda_rc_search_paths(&known), expected);
}

#[test]
fn install_locations_end_with_those_of_the_home() {
    let known = test_environment(Vec::new(), Some("/home/me".to_string()), Vec::new(), None);
    let locations = get_known_conda_install_locations(&known);
    assert_eq!(locations.len(), 16);
    assert_eq!(locations[0], "/opt/anaconda3");
    assert_eq!(locations[12], "/home/me/anaconda3");
    assert_eq!(locations[15], "/home/me/.conda");
    let known = test_environment(Vec::new(), None, Vec::new(), None);
    assert_eq!(get_known_conda_install_locations(&known).len(), 12);
}

#[test]
fn conda_binary_from_path_before_known_locations() {
    let mut fs = FileSystem::new();
    add_file(&mut fs, "/opt/anaconda3/bin/conda", "");
    add_file(&mut fs, "/tools/conda", "");
    let known = test_environment(path_var("/nothing:/tools"), None, Vec::new(), None);
    assert_eq!(find_conda_binary(&known, &fs), Some("/tools/conda".to_string()));
    let known = test_environment(path_var("/nothing"), None, Vec::new(), None);
    assert_eq!(find_conda_binary(&known, &fs), Some("/opt/anaconda3/bin/conda".to_string()));
    let known = test_environment(Vec::new(), None, Vec::new(), None);
    assert_eq!(find_conda_binary(&known, &FileSystem::new()), None);
}

#[test]
fn conda_version_from_the_installation_of_the_binary() {
    let (fs, _, conda_dir) = conda_fixture();
    assert_eq!(
        get_conda_version(&fs, &format!("{}/bin/conda", conda_dir)),
        Some("23.11.0".to_string())
    );
    assert_eq!(
        get_conda_version(&fs, &format!("{}/Library/bin/conda", conda_dir)),
        Some("23.11.0".to_string())
    );
    assert_eq!(get_conda_version(&fs, "/elsewhere/bin/conda"), None);
}

#[test]
fn environment_without_python_has_no_version() {
    let mut fs = FileSystem::new();
    add_file(&mut fs, "/c/envs/empty/conda-meta/python-3.9.1-h1_0.json", "{}");
    let env = get_conda_environment_info(&fs, Platform::Unix, "/c/envs/empty", true).unwrap();
    assert_eq!(env.name, "empty");
    assert_eq!(env.python_executable_path, None);
    assert_eq!(env.version, None);
    assert_eq!(get_conda_environment_info(&fs, Platform::Unix, "/c/envs/none", true), None);
}

#[test]
fn installation_without_conda_executable_is_skipped() {
    let mut fs = FileSystem::new();
    add_file(&mut fs, "/home/me/anaconda3/bin/python", "");
    add_file(&mut fs, "/home/me/anaconda3/conda-meta/python-3.9.1-h1_0.json", "{}");
    add_directories(&mut fs, "/home/me/anaconda3/envs");
    let known = test_environment(Vec::new(), Some("/home/me".to_string()), Vec::new(), None);
    assert_eq!(Conda::with(&known, &fs).find(), None);
}

#[test]
fn orphan_environment_goes_to_the_manager_that_is_available() {
    let mut fs = FileSystem::new();
    add_file(&mut fs, "/tools/conda", "");
    add_file(&mut fs, "/work/env1/bin/python", "");
    add_file(&mut fs, "/home/me/.conda/environments.txt", "/work/env1\n/work/gone\n");
    let known =
        test_environment(path_var("/tools"), Some("/home/me".to_string()), Vec::new(), None);
    let result = Conda::with(&known, &fs).find().unwrap();
    assert_eq!(result.managers.len(), 1);
    assert_eq!(result.managers[0].executable_path, "/tools/conda");
    assert_eq!(result.environments.len(), 1);
    assert_eq!(result.environments[0].env_path, Some("/work/env1".to_string()));
    assert_eq!(
        result.environments[0].python_run_command,
        run_command("/tools/conda", "-p", "/work/env1")
    );
    // Without any conda executable the orphan is not reported.
    let known = test_environment(Vec::new(), Some("/home/me".to_string()), Vec::new(), None);
    assert_eq!(Conda::with(&known, &fs).find(), None);
}

#[test]
fn conda_resolves_only_its_own_environments() {
    let (fs, home, conda_dir) = conda_fixture();
    let known = test_environment(Vec::new(), Some(home), Vec::new(), None);
    let locator = Conda::with(&known, &fs);
    let candidate = |path: Option<&str>| PythonEnv {
        executable: "/somewhere/bin/python".to_string(),
        version: None,
        path: path.map(|p| p.to_string()),
    };
    assert_eq!(locator.resolve(&candidate(None)), None);
    assert_eq!(locator.resolve(&candidate(Some("/usr"))), None);
    // `two` records no package: it has no `conda-meta` and is not recognised.
    assert_eq!(locator.resolve(&candidate(Some(&format!("{}/envs/two", conda_dir)))), None);
    // What resolve says of an environment is what find says of it.
    let found = Conda::with(&known, &fs).find().unwrap();
    for path in [conda_dir.clone(), format!("{}/envs/one", conda_dir)] {
        let resolved = locator.resolve(&candidate(Some(&path))).unwrap();
        assert!(found.environments.contains(&resolved));
    }
    // An environment elsewhere whose installation cannot be found is not resolved.
    let mut fs = FileSystem::new();
    add_file(&mut fs, "/work/e/conda-meta/history", "# cmd: /gone/bin/conda create -p /work/e\n");
    add_file(&mut fs, "/work/e/bin/python", "");
    assert_eq!(Conda::with(&known, &fs).resolve(&candidate(Some("/work/e"))), None);
}

#[test]
fn installation_that_the_path_leads_to_is_visited() {
    let mut fs = FileSystem::new();
    add_file(&mut fs, "/opt/custom/conda3/bin/conda", "");
    add_file(&mut fs, "/opt/custom/conda3/bin/python", "");
    add_file(&mut fs, "/opt/custom/conda3/conda-meta/conda-24.1.2-py311_0.json", "{}");
    add_file(&mut fs, "/opt/custom/conda3/conda-meta/python-3.11.7-h1_0.json", "{}");
    add_file(&mut fs, "/opt/custom/conda3/envs/data/bin/python", "");
    let known = test_environment(path_var("/usr/bin:/opt/custom/conda3/bin"), None, Vec::new(), None);
    let result = Conda::with(&known, &fs).find().unwrap();
    assert_eq!(result.managers, vec![conda_manager("/opt/custom/conda3", "24.1.2")]);
    assert_eq!(result.environments.len(), 2);
    assert_eq!(result.environments[1].name, Some("data".to_string()));
}

#[test]
fn orphan_environments_are_warned_of() {
    let mut fs = FileSystem::new();
    add_file(&mut fs, "/tools/conda", "");
    add_file(&mut fs, "/work/env1/bin/python", "");
    add_file(&mut fs, "/home/me/.conda/environments.txt", "/work/env1\n");
    let known =
        test_environment(path_var("/tools"), Some("/home/me".to_string()), Vec::new(), None);
    let mut locator = Conda::with(&known, &fs);
    assert_eq!(locator.warnings.len(), 0);
    assert!(locator.find().is_some());
    let expected = Log {
        message: "Found a new conda environment using the fallback mechanism: /work/env1"
            .to_string(),
        level: LogLevel::Warning,
    };
    assert_eq!(locator.warnings, vec![expected.clone()]);
    let store = find_and_report_envs(&known, &fs, &Registry::new());
    assert_eq!(store.logs, vec![expected]);

    let known = test_environment(Vec::new(), Some("/home/me".to_string()), Vec::new(), None);
    let mut locator = Conda::with(&known, &fs);
    assert_eq!(locator.find(), None);
    assert_eq!(
        locator.warnings,
        vec![Log {
            message: "Could not find conda executable to discover environments in environments.txt"
                .to_string(),
            level: LogLevel::Warning,
        }]
    );

    // An installation that lists its environments itself gives no warning.
    let (fs, home, _) = conda_fixture();
    let known = test_environment(Vec::new(), Some(home), Vec::new(), None);
    let mut locator = Conda::with(&known, &fs);
    assert!(locator.find().is_some());
    assert_eq!(locator.warnings.len(), 0);
}

#[test]
fn conda_hands_out_each_environment_once() {
    let (fs, home, conda_dir) = conda_fixture();
    let known = test_environment(Vec::new(), Some(home), Vec::new(), None);
    let mut locator = Conda::with(&known, &fs);
    let first = locator.find_in(&conda_dir).unwrap();
    assert_eq!(first.environments.len(), 3);
    assert_eq!(first.managers.len(), 1);
    assert_eq!(locator.find_in(&conda_dir), None);
    assert_eq!(locator.find(), None);
    assert_eq!(locator.find_in("/not/an/installation"), None);
}

#[test]
fn directory_listed_twice_is_a_possible_environment_once() {
    let (mut fs, home, first, _, conda_env) = two_installations();
    // The file lists the directory twice, and a configuration file names the
    // directory in which it lies.
    fs = {
        let mut again = FileSystem::new();
        for entry in fs.entries {
            if entry.path != format!("{}/.conda/environments.txt", home) {
                again.add(entry);
            }
        }
        again
    };
    add_file(
        &mut fs,
        &format!("{}/.conda/environments.txt", home),
        &format!("{}\n{}\n{}\n", conda_env, conda_env, conda_env),
    );
    add_file(
        &mut fs,
        &format!("{}/.condarc", home),
        &format!("envs_dirs:\n  - {}/dev_folder\n", home),
    );
    let known = test_environment(Vec::new(), Some(home), Vec::new(), None);
    let mut possible = get_known_conda_envs_from_various_locations(&known, &fs);
    assert_eq!(possible.iter().filter(|e| e.env_path == conda_env).count(), 1);
    for i in 0..possible.len() {
        for j in (i + 1)..possible.len() {
            assert_ne!(possible[i].env_path, possible[j].env_path);
        }
    }
    // The installation that created it takes it; it is reported once.
    let found =
        get_conda_environments_in_specified_install_path(&fs, Platform::Unix, &first, &mut possible)
            .unwrap();
    assert_eq!(
        found.environments.iter().filter(|e| e.env_path == Some(conda_env.clone())).count(),
        1
    );
    assert_eq!(possible.iter().filter(|e| e.env_path == conda_env).count(), 0);
}

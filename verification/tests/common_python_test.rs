use python_finder::common_python::{get_env_path, sort_by_length, PythonOnPath};
use python_finder::filesystem::{Entry, FileSystem};
use python_finder::known::{EnvironmentApi, Platform};
use python_finder::locator::Locator;
use python_finder::messaging::{PythonEnvironment, PythonEnvironmentCategory};
use python_finder::utils::PythonEnv;

fn parent_of(path: &str) -> Option<String> {
    let trimmed = path.trim_end_matches('/');
    match trimmed.rfind('/') {
        Some(0) => Some("/".to_string()),
        Some(i) => Some(trimmed[..i].to_string()),
        None => None,
    }
}

fn add_directories(fs: &mut FileSystem, path: &str) {
    let mut missing: Vec<String> = vec![];
    let mut current = Some(path.to_string());
    while let Some(p) = current {
        if p == "/" || p.is_empty() || fs.is_present(&p) {
            break;
        }
        missing.push(p.clone());
        current = parent_of(&p);
    }
    for p in missing.iter().rev() {
        fs.add(Entry::directory(p));
    }
}

fn add_file(fs: &mut FileSystem, path: &str, contents: &str) {
    if let Some(dir) = parent_of(path) {
        add_directories(fs, &dir);
    }
    fs.add(Entry::file(path, contents));
}

fn add_link(fs: &mut FileSystem, path: &str, target: &str) {
    if let Some(dir) = parent_of(path) {
        add_directories(fs, &dir);
    }
    fs.add(Entry::link(path, target));
}

fn environment_with_path(home: &str, path: &str) -> EnvironmentApi {
    EnvironmentApi::new(
        Platform::Unix,
        vec![("PATH".to_string(), path.to_string()), ("HOME".to_string(), home.to_string())],
    )
}

#[test]
fn find_python_in_path_this() {
    let user_home = "/fixture/known/user_home".to_string();
    let unix_python_exe = format!("{}/python", user_home);
    let mut fs = FileSystem::new();
    add_file(&mut fs, &unix_python_exe, "");

    let known = environment_with_path(&user_home, &user_home);

    let mut locator = PythonOnPath::with(&known, &fs);
    let result = locator.find().unwrap();

    assert_eq!(result.environments.len(), 1);

    let env = PythonEnvironment {
        display_name: None,
        env_manager: None,
        project_path: None,
        name: None,
        python_executable_path: Some(unix_python_exe.clone()),
        category: PythonEnvironmentCategory::System,
        version: None,
        python_run_command: Some(vec![unix_python_exe.clone()]),
        env_path: Some(user_home.clone()),
        arch: None,
        ..Default::default()
    };
    assert_eq!(vec![env], result.environments);
}

#[test]
fn links_to_one_file_make_one_environment() {
    let mut fs = FileSystem::new();
    add_file(&mut fs, "/usr/lib/python3.10/bin/python3.10", "");
    add_link(&mut fs, "/usr/local/bin/python3.10", "/usr/lib/python3.10/bin/python3.10");
    add_link(&mut fs, "/usr/local/bin/python3", "/usr/lib/python3.10/bin/python3.10");
    add_file(&mut fs, "/usr/local/bin/python3-config", "");
    add_file(&mut fs, "/usr/local/bin/pip", "");
    let known = environment_with_path("/home/me", "/usr/local/bin");
    let result = PythonOnPath::with(&known, &fs).find().unwrap();
    assert_eq!(result.environments.len(), 1);
    let env = &result.environments[0];
    assert_eq!(env.python_executable_path, Some("/usr/local/bin/python3".to_string()));
    assert_eq!(
        env.symlinks,
        Some(vec![
            "/usr/lib/python3.10/bin/python3.10".to_string(),
            "/usr/local/bin/python3".to_string(),
            "/usr/local/bin/python3.10".to_string(),
        ])
    );
    assert_eq!(env.category, PythonEnvironmentCategory::System);
    assert_eq!(env.python_run_command, Some(vec!["/usr/local/bin/python3".to_string()]));
}

#[test]
fn launchers_of_the_windows_store_are_left_out() {
    let mut fs = FileSystem::new();
    add_file(&mut fs, "/home/me/AppData/Local/Microsoft/WindowsApps/python3", "");
    let known = EnvironmentApi {
        platform: Platform::Unix,
        home: Some("/home/me".to_string()),
        root: None,
        vars: Vec::new(),
        search_locations: vec!["/home/me/AppData/Local/Microsoft/WindowsApps".to_string()],
    };
    assert_eq!(PythonOnPath::with(&known, &fs).find(), None);
    let without_home = EnvironmentApi {
        platform: Platform::Unix,
        home: None,
        root: None,
        vars: Vec::new(),
        search_locations: vec!["/usr/bin".to_string()],
    };
    let mut fs = FileSystem::new();
    add_file(&mut fs, "/usr/bin/python3", "");
    assert_eq!(PythonOnPath::with(&without_home, &fs).find(), None);
}

#[test]
fn framework_python_takes_its_version_from_its_real_path() {
    let real = "/Library/Frameworks/Python.framework/Versions/3.10/bin/python3.10";
    let mut fs = FileSystem::new();
    add_file(&mut fs, real, "");
    add_link(&mut fs, "/usr/local/bin/python3.10", real);
    let known = environment_with_path("/home/me", "/usr/local/bin");
    let locator = PythonOnPath::with(&known, &fs);
    let env = locator
        .resolve(&PythonEnv::new("/usr/local/bin/python3.10".to_string(), None, None))
        .unwrap();
    assert_eq!(env.version, Some("3.10".to_string()));
    assert_eq!(
        env.env_path,
        Some("/Library/Frameworks/Python.framework/Versions/3.10".to_string())
    );
    assert_eq!(env.symlinks, Some(vec![real.to_string(), "/usr/local/bin/python3.10".to_string()]));

    add_file(
        &mut fs,
        "/Library/Frameworks/Python.framework/Versions/3.10/Headers/patchlevel.h",
        "/* Version as a string */\n#define PY_VERSION              \"3.10.2\"\n/*--end constants--*/\n",
    );
    let locator = PythonOnPath::with(&known, &fs);
    let env = locator
        .resolve(&PythonEnv::new("/usr/local/bin/python3.10".to_string(), None, None))
        .unwrap();
    assert_eq!(env.version, Some("3.10.2".to_string()));
}

#[test]
fn shorter_paths_come_first_and_equal_lengths_keep_their_order() {
    let paths: Vec<String> =
        ["/b/python3.10", "/a/python", "/c/py", "/b/python", "/a/python3.11"]
            .iter()
            .map(|p| p.to_string())
            .collect();
    let sorted: Vec<String> =
        ["/c/py", "/a/python", "/b/python", "/b/python3.10", "/a/python3.11"]
            .iter()
            .map(|p| p.to_string())
            .collect();
    assert_eq!(sort_by_length(&paths), sorted);
    assert_eq!(sort_by_length(&Vec::new()), Vec::<String>::new());
}

#[test]
fn owning_directory_is_guessed_from_the_executable() {
    assert_eq!(get_env_path("/usr/bin/python3"), Some("/usr/bin".to_string()));
    assert_eq!(get_env_path("C:/Python312/Scripts/python.exe"), Some("C:/Python312".to_string()));
    assert_eq!(get_env_path("C:/Python312/python.exe"), Some("C:/Python312".to_string()));
    assert_eq!(get_env_path("/python3"), None);
    assert_eq!(get_env_path("python3"), None);
}

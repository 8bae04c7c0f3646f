use python_finder::filesystem::{Entry, FileSystem};
use python_finder::homebrew::{
    get_env_path, get_homebrew_prefix_bin, get_intel_sys_prefix, get_known_symlinks,
    get_known_symlinks_for, get_linux_sys_prefix, get_silicon_symlinks, get_silicon_sys_prefix,
    is_versioned_python_name, resolve, Homebrew,
};
use python_finder::known::{EnvironmentApi, Platform};
use python_finder::locator::Locator;
use python_finder::messaging::{
    create_dispatcher, MessageDispatcher, PythonEnvironment, PythonEnvironmentCategory,
};
use python_finder::utils::PythonEnv;
use python_finder::{find_and_report_envs, report_result};
use python_finder::registry::Registry;

fn parent_of(path: &str) -> Option<String> {
    let trimmed = path.trim_end_matches('/');
    match trimmed.rfind('/') {
        Some(0) => Some("/".to_string()),
        Some(i) => Some(trimmed[..i].to_string()),
        None => None,
    }
}

fn add_directories(fs: &mut FileSystem, path: &str) {
    let mut missing: Vec<String> = vec![];
    let mut current = Some(path.to_string());
    while let Some(p) = current {
        if p == "/" || p.is_empty() || fs.is_present(&p) {
            break;
        }
        missing.push(p.clone());
        current = parent_of(&p);
    }
    for p in missing.iter().rev() {
        fs.add(Entry::directory(p));
    }
}

fn add_file(fs: &mut FileSystem, path: &str, contents: &str) {
    if let Some(dir) = parent_of(path) {
        add_directories(fs, &dir);
    }
    fs.add(Entry::file(path, contents));
}

fn add_link(fs: &mut FileSystem, path: &str, target: &str) {
    if let Some(dir) = parent_of(path) {
        add_directories(fs, &dir);
    }
    fs.add(Entry::link(path, target));
}

fn unix(vars: Vec<(String, String)>, search_locations: Vec<String>) -> EnvironmentApi {
    EnvironmentApi {
        platform: Platform::Unix,
        home: Some("/Users/me".to_string()),
        root: None,
        vars,
        search_locations,
    }
}

const REAL_3_12: &str =
    "/opt/homebrew/Cellar/python@3.12/3.12.3/Frameworks/Python.framework/Versions/3.12/bin/python3.12";

fn silicon_fixture() -> FileSystem {
    let mut fs = FileSystem::new();
    add_file(&mut fs, REAL_3_12, "");
    add_link(&mut fs, "/opt/homebrew/bin/python3.12", REAL_3_12);
    add_link(&mut fs, "/opt/homebrew/bin/python3", REAL_3_12);
    add_link(&mut fs, "/opt/homebrew/bin/python3-config", "/opt/homebrew/Cellar/x/python3-config");
    add_file(&mut fs, "/opt/homebrew/bin/pip3", "");
    add_directories(
        &mut fs,
        "/opt/homebrew/opt/python@3.12/Frameworks/Python.framework/Versions/3.12",
    );
    fs
}

fn strings(items: &[&str]) -> Vec<String> {
    items.iter().map(|s| s.to_string()).collect()
}

fn silicon_symlinks_3_12() -> Vec<String> {
    strings(&[
        "/opt/homebrew/bin/python3.12",
        "/opt/homebrew/opt/python3/bin/python3.12",
        "/opt/homebrew/Cellar/python@3.12/3.12.3/bin/python3.12",
        "/opt/homebrew/opt/python@3.12/bin/python3.12",
        "/opt/homebrew/Cellar/python@3.12/3.12.3/Frameworks/Python.framework/Versions/3.12/bin/python3.12",
        "/opt/homebrew/Cellar/python@3.12/3.12.3/Frameworks/Python.framework/Versions/Current/bin/python3.12",
        "/opt/homebrew/Frameworks/Python.framework/Versions/3.12/bin/python3.12",
        "/opt/homebrew/Frameworks/Python.framework/Versions/Current/bin/python3.12",
        "/opt/homebrew/Cellar/python@3.12/3.12.3/Frameworks/Python.framework/Versions/3.12/bin/python3.12",
    ])
}

fn expected_3_12() -> PythonEnvironment {
    PythonEnvironment {
        python_executable_path: Some("/opt/homebrew/bin/python3.12".to_string()),
        category: PythonEnvironmentCategory::Homebrew,
        version: Some("3.12.3".to_string()),
        env_path: Some(
            "/opt/homebrew/opt/python@3.12/Frameworks/Python.framework/Versions/3.12".to_string(),
        ),
        python_run_command: Some(vec!["/opt/homebrew/bin/python3.12".to_string()]),
        symlinks: Some(silicon_symlinks_3_12()),
        ..Default::default()
    }
}

#[test]
fn homebrew_finds_each_real_file_once() {
    let fs = silicon_fixture();
    let known = unix(Vec::new(), Vec::new());
    let result = Homebrew::with(&known, &fs).find().unwrap();
    assert_eq!(result.managers.len(), 0);
    assert_eq!(result.environments, vec![expected_3_12()]);
}

#[test]
fn homebrew_resolves_a_link_into_the_cellar() {
    let fs = silicon_fixture();
    let known = unix(Vec::new(), Vec::new());
    let locator = Homebrew::with(&known, &fs);
    let candidate = PythonEnv::new("/opt/homebrew/bin/python3.12".to_string(), None, None);
    assert_eq!(locator.resolve(&candidate), Some(expected_3_12()));
    // Asking twice gives the same answer.
    assert_eq!(locator.resolve(&candidate), Some(expected_3_12()));
    let not_homebrew = PythonEnv::new("/opt/homebrew/bin/pip3".to_string(), None, None);
    assert_eq!(locator.resolve(&not_homebrew), None);
    let elsewhere = PythonEnv::new("/usr/bin/python3".to_string(), None, None);
    assert_eq!(locator.resolve(&elsewhere), None);
}

#[test]
fn resolve_remembers_the_real_files_it_reported() {
    let fs = silicon_fixture();
    let mut reported: Vec<String> = Vec::new();
    let first = PythonEnv::new("/opt/homebrew/bin/python3.12".to_string(), None, None);
    let second = PythonEnv::new("/opt/homebrew/bin/python3".to_string(), None, None);
    assert!(resolve(&fs, &first, &mut reported).is_some());
    assert_eq!(reported, vec![REAL_3_12.to_string()]);
    assert_eq!(resolve(&fs, &second, &mut reported), None);
    assert_eq!(reported, vec![REAL_3_12.to_string()]);
}

#[test]
fn symlinked_homebrew_python_is_reported_once_with_both_paths() {
    let mut fs = FileSystem::new();
    add_file(&mut fs, REAL_3_12, "");
    add_link(&mut fs, "/opt/homebrew/bin/python3.12", REAL_3_12);
    let known = EnvironmentApi {
        platform: Platform::Unix,
        home: Some("/Users/me".to_string()),
        root: None,
        vars: Vec::new(),
        search_locations: vec!["/opt/homebrew/bin".to_string()],
    };
    let store = find_and_report_envs(&known, &fs, &Registry::new());
    let environments = store.environments();
    assert_eq!(environments.len(), 1);
    let env = &environments[0];
    assert_eq!(env.category, PythonEnvironmentCategory::Homebrew);
    assert_eq!(env.python_executable_path, Some("/opt/homebrew/bin/python3.12".to_string()));
    let aliases = env.symlinks.clone().unwrap();
    assert!(aliases.contains(&REAL_3_12.to_string()));
    assert!(aliases.contains(&"/opt/homebrew/bin/python3.12".to_string()));
}

#[test]
fn unversioned_link_found_on_the_path_joins_the_homebrew_record() {
    let fs = silicon_fixture();
    let known = EnvironmentApi {
        platform: Platform::Unix,
        home: Some("/Users/me".to_string()),
        root: None,
        vars: Vec::new(),
        search_locations: vec!["/opt/homebrew/bin".to_string()],
    };
    let store = find_and_report_envs(&known, &fs, &Registry::new());
    let environments = store.environments();
    assert_eq!(environments.len(), 1);
    let env = &environments[0];
    assert_eq!(env.category, PythonEnvironmentCategory::Homebrew);
    assert_eq!(env.version, Some("3.12.3".to_string()));
    // The shortest name shows the record.
    assert_eq!(env.python_executable_path, Some("/opt/homebrew/bin/python3".to_string()));
    let aliases = env.symlinks.clone().unwrap();
    assert!(aliases.contains(&REAL_3_12.to_string()));
    assert!(aliases.contains(&"/opt/homebrew/bin/python3.12".to_string()));
    assert!(aliases.contains(&"/opt/homebrew/bin/python3".to_string()));
}

#[test]
fn path_candidate_that_is_an_alias_makes_no_second_environment() {
    let fs = silicon_fixture();
    let known = unix(Vec::new(), Vec::new());
    let mut store = create_dispatcher();
    report_result(Homebrew::with(&known, &fs).find(), &mut store);
    assert_eq!(store.environments().len(), 1);
    let alias = PythonEnv::new("/opt/homebrew/opt/python@3.12/bin/python3.12".to_string(), None, None);
    assert!(store.was_environment_reported(&alias));
    let system = PythonEnvironment {
        python_executable_path: Some("/opt/homebrew/opt/python@3.12/bin/python3.12".to_string()),
        category: PythonEnvironmentCategory::System,
        ..Default::default()
    };
    store.report_environment(system);
    assert_eq!(store.environments().len(), 1);
    assert_eq!(store.environments()[0].category, PythonEnvironmentCategory::Homebrew);
    assert_eq!(
        store.environments()[0].python_executable_path,
        Some("/opt/homebrew/bin/python3.12".to_string())
    );
}

#[test]
fn known_symlinks_follow_from_the_version() {
    let fs = FileSystem::new();
    assert_eq!(get_silicon_symlinks("3.12", "3.12.3"), silicon_symlinks_3_12());
    assert_eq!(get_known_symlinks(&fs, REAL_3_12, "3.12.3"), silicon_symlinks_3_12());
    assert_eq!(
        get_known_symlinks_for(&fs, REAL_3_12, "3.12.3", Some("3.12".to_string())),
        silicon_symlinks_3_12()
    );
    assert_eq!(get_known_symlinks_for(&fs, REAL_3_12, "3.12.3", None), Vec::<String>::new());
    assert_eq!(
        get_known_symlinks_for(&fs, "/usr/lib/python3.12", "3.12.3", Some("3.12".to_string())),
        Vec::<String>::new()
    );
    let intel = "/usr/local/Cellar/python@3.8/3.8.19/Frameworks/Python.framework/Versions/3.8/bin/python3.8";
    assert_eq!(
        get_known_symlinks(&fs, intel, "3.8.19"),
        strings(&[
            "/usr/local/opt/python@3.8/bin/python3.8",
            "/usr/local/Cellar/python@3.8/3.8.19/bin/python3.8",
        ])
    );
    let linux = "/home/linuxbrew/.linuxbrew/Cellar/python@3.12/3.12.3/bin/python3.12";
    assert_eq!(
        get_known_symlinks(&fs, linux, "3.12.3"),
        strings(&[
            "/home/linuxbrew/.linuxbrew/bin/python3.12",
            "/home/linuxbrew/.linuxbrew/opt/python@3.12/bin/python3.12",
        ])
    );
}

#[test]
fn user_bin_counts_only_where_it_leads_to_the_same_file() {
    let linux = "/home/linuxbrew/.linuxbrew/Cellar/python@3.12/3.12.3/bin/python3.12";
    let mut fs = FileSystem::new();
    add_link(&mut fs, "/usr/local/bin/python3.12", linux);
    assert_eq!(
        get_known_symlinks(&fs, linux, "3.12.3"),
        strings(&[
            "/home/linuxbrew/.linuxbrew/bin/python3.12",
            "/home/linuxbrew/.linuxbrew/opt/python@3.12/bin/python3.12",
            "/usr/local/bin/python3.12",
        ])
    );
    let mut fs = FileSystem::new();
    add_link(&mut fs, "/usr/local/bin/python3.12", "/somewhere/else/python3.12");
    assert_eq!(get_known_symlinks(&fs, linux, "3.12.3").len(), 2);
    let mut fs = FileSystem::new();
    add_file(&mut fs, "/usr/local/bin/python3.12", "");
    assert_eq!(get_known_symlinks(&fs, linux, "3.12.3").len(), 2);
}

#[test]
fn sys_prefix_follows_the_layout_and_must_exist() {
    assert_eq!(
        get_silicon_sys_prefix("3.12"),
        "/opt/homebrew/opt/python@3.12/Frameworks/Python.framework/Versions/3.12"
    );
    assert_eq!(
        get_linux_sys_prefix("3.12", "3.12.3"),
        "/home/linuxbrew/.linuxbrew/Cellar/python@3.12/3.12.3"
    );
    assert_eq!(
        get_intel_sys_prefix("3.8", "3.8.19"),
        "/usr/local/Cellar/python@3.8/3.8.19/Frameworks/Python.framework/Versions/3.8"
    );
    let fs = silicon_fixture();
    assert_eq!(
        get_env_path(&fs, REAL_3_12),
        Some("/opt/homebrew/opt/python@3.12/Frameworks/Python.framework/Versions/3.12".to_string())
    );
    assert_eq!(get_env_path(&FileSystem::new(), REAL_3_12), None);
    assert_eq!(get_env_path(&fs, "/opt/homebrew/bin/python3.12"), None);
    assert_eq!(get_env_path(&fs, "/usr/bin/python3"), None);
    let linux = "/home/linuxbrew/.linuxbrew/Cellar/python@3.12/3.12.3/bin/python3.12";
    let mut fs = FileSystem::new();
    add_file(&mut fs, linux, "");
    assert_eq!(
        get_env_path(&fs, linux),
        Some("/home/linuxbrew/.linuxbrew/Cellar/python@3.12/3.12.3".to_string())
    );
    let intel = "/usr/local/Cellar/python@3.8/3.8.19/Frameworks/Python.framework/Versions/3.8/bin/python3.8";
    let mut fs = FileSystem::new();
    add_file(&mut fs, intel, "");
    assert_eq!(
        get_env_path(&fs, intel),
        Some("/usr/local/Cellar/python@3.8/3.8.19/Frameworks/Python.framework/Versions/3.8".to_string())
    );
}

#[test]
fn prefix_directories_that_exist_are_searched() {
    let mut fs = FileSystem::new();
    add_directories(&mut fs, "/usr/local/bin");
    add_directories(&mut fs, "/opt/homebrew/bin");
    add_directories(&mut fs, "/custom/brew/bin");
    let known = unix(vec![("HOMEBREW_PREFIX".to_string(), "/custom/brew".to_string())], Vec::new());
    assert_eq!(
        get_homebrew_prefix_bin(&known, &fs),
        strings(&["/opt/homebrew/bin", "/usr/local/bin", "/custom/brew/bin"])
    );
    let known = unix(vec![("HOMEBREW_PREFIX".to_string(), "/usr/local".to_string())], Vec::new());
    assert_eq!(
        get_homebrew_prefix_bin(&known, &fs),
        strings(&["/opt/homebrew/bin", "/usr/local/bin"])
    );
    let known = unix(vec![("HOMEBREW_PREFIX".to_string(), "/missing".to_string())], Vec::new());
    assert_eq!(get_homebrew_prefix_bin(&known, &FileSystem::new()), Vec::<String>::new());
}

#[test]
fn unversioned_names_are_not_walked() {
    assert!(is_versioned_python_name("/opt/homebrew/bin/python3.12"));
    assert!(is_versioned_python_name("/opt/homebrew/bin/Python3.12"));
    assert!(!is_versioned_python_name("/opt/homebrew/bin/python3"));
    assert!(!is_versioned_python_name("/opt/homebrew/bin/python"));
    assert!(!is_versioned_python_name("/opt/homebrew/bin/pip3"));
}

#[test]
fn python3_alone_is_found_too() {
    let mut fs = FileSystem::new();
    add_file(&mut fs, REAL_3_12, "");
    add_link(&mut fs, "/opt/homebrew/bin/python3", REAL_3_12);
    let known = unix(Vec::new(), Vec::new());
    let result = Homebrew::with(&known, &fs).find().unwrap();
    assert_eq!(result.environments.len(), 1);
    assert_eq!(
        result.environments[0].python_executable_path,
        Some("/opt/homebrew/bin/python3".to_string())
    );
    assert_eq!(Homebrew::with(&known, &FileSystem::new()).find(), None);
}

#[test]
fn bin_directory_that_cannot_be_listed_is_passed_over() {
    let mut fs = silicon_fixture();
    // `/usr/local/bin` is there and is no directory.
    add_file(&mut fs, "/usr/local/bin", "");
    let known = unix(Vec::new(), Vec::new());
    let result = Homebrew::with(&known, &fs).find().unwrap();
    assert_eq!(result.environments, vec![expected_3_12()]);
    // It may also come before the directory that holds the links.
    let mut fs = FileSystem::new();
    add_file(&mut fs, "/home/linuxbrew/.linuxbrew/bin", "");
    for entry in silicon_fixture().entries {
        fs.add(entry);
    }
    let result = Homebrew::with(&known, &fs).find().unwrap();
    assert_eq!(result.environments, vec![expected_3_12()]);
}

use python_finder::messaging::{
    add_more_aliases, attach, create_dispatcher, EnvManager, EnvManagerMessage, EnvManagerType,
    ExitMessage, MessageDispatcher, PythonEnvironment, PythonEnvironmentCategory,
    PythonEnvironmentMessage,
};
use python_finder::logging::{LogLevel, LogMessage};
use python_finder::utils::{
    get_environment_key, get_environment_manager_key, get_shortest_python_executable, PythonEnv,
};

fn env_with(exe: Option<&str>, path: Option<&str>, aliases: Option<Vec<&str>>) -> PythonEnvironment {
    PythonEnvironment {
        python_executable_path: exe.map(|e| e.to_string()),
        env_path: path.map(|e| e.to_string()),
        symlinks: aliases.map(|a| a.iter().map(|s| s.to_string()).collect()),
        ..Default::default()
    }
}

fn keys(store: &python_finder::messaging::JsonRpcDispatcher) -> Vec<Option<String>> {
    store.environments().iter().map(|e| get_environment_key(e)).collect()
}

fn strings(items: &[&str]) -> Vec<String> {
    items.iter().map(|s| s.to_string()).collect()
}

#[test]
fn identity_key_is_the_executable_else_the_directory() {
    assert_eq!(
        get_environment_key(&env_with(Some("/a/bin/python"), Some("/a"), None)),
        Some("/a/bin/python".to_string())
    );
    assert_eq!(get_environment_key(&env_with(None, Some("/a"), None)), Some("/a".to_string()));
    assert_eq!(get_environment_key(&env_with(None, None, None)), None);
    let manager = EnvManager::new("/c/bin/conda".to_string(), None, EnvManagerType::Conda);
    assert_eq!(get_environment_manager_key(&manager), "/c/bin/conda");
}

#[test]
fn environment_without_key_is_dropped() {
    let mut store = create_dispatcher();
    store.report_environment(env_with(None, None, Some(vec!["/x"])));
    assert_eq!(store.environments().len(), 0);
}

#[test]
fn reported_keys_are_pairwise_distinct() {
    let mut store = create_dispatcher();
    let reports = vec![
        env_with(Some("/usr/bin/python3"), None, None),
        env_with(Some("/usr/bin/python3.10"), None, Some(vec!["/usr/bin/python3", "/usr/bin/py"])),
        env_with(Some("/usr/bin/python3"), None, Some(vec!["/real/python3"])),
        env_with(None, Some("/envs/a"), None),
        env_with(None, Some("/envs/a"), None),
        env_with(Some("/usr/bin/py"), None, None),
        env_with(Some("/real/python3"), None, Some(vec!["/r"])),
        env_with(Some("/usr/bin/python3.10"), None, None),
    ];
    for report in reports {
        store.report_environment(report);
        let all = keys(&store);
        for i in 0..all.len() {
            assert!(all[i].is_some());
            for j in (i + 1)..all.len() {
                assert_ne!(all[i], all[j]);
            }
        }
    }
    assert_eq!(store.environments().len(), 2);
    assert_eq!(keys(&store), vec![Some("/r".to_string()), Some("/envs/a".to_string())]);
}

#[test]
fn same_key_merges_the_aliases() {
    let mut store = create_dispatcher();
    let mut first = env_with(Some("/opt/bin/python3.12"), None, Some(vec!["/cellar/python3.12"]));
    first.category = PythonEnvironmentCategory::Homebrew;
    store.report_environment(first);
    store.report_environment(env_with(
        Some("/opt/bin/python3.12"),
        None,
        Some(vec!["/cellar/python3.12", "/opt/bin/python3.12", "/other"]),
    ));
    assert_eq!(store.environments().len(), 1);
    let env = &store.environments()[0];
    assert_eq!(env.category, PythonEnvironmentCategory::Homebrew);
    assert_eq!(env.python_executable_path, Some("/opt/bin/python3.12".to_string()));
    assert_eq!(
        env.symlinks,
        Some(strings(&["/cellar/python3.12", "/opt/bin/python3.12", "/other"]))
    );
}

#[test]
fn alias_match_picks_the_shortest_free_name() {
    let mut store = create_dispatcher();
    store.report_environment(env_with(Some("/usr/bin/py"), None, None));
    store.report_environment(env_with(
        Some("/usr/local/bin/python3.10"),
        None,
        Some(vec!["/real/bin/python3.10", "/usr/bin/p3"]),
    ));
    assert_eq!(store.environments().len(), 2);
    // The key of the newcomer is another name of the second record.
    store.report_environment(env_with(Some("/real/bin/python3.10"), None, Some(vec!["/r"])));
    assert_eq!(store.environments().len(), 2);
    let merged = &store.environments()[1];
    // `/r` is the shortest name and nobody's key.
    assert_eq!(merged.python_executable_path, Some("/r".to_string()));
    assert_eq!(
        merged.symlinks,
        Some(strings(&[
            "/real/bin/python3.10",
            "/usr/bin/p3",
            "/r",
            "/usr/local/bin/python3.10",
        ]))
    );
    // `/usr/bin/py` is shorter than the rest but is the key of the first record.
    let record = env_with(
        Some("/usr/local/bin/python3.10"),
        None,
        Some(vec!["/usr/bin/py", "/usr/bin/python3"]),
    );
    let others = vec![env_with(Some("/usr/bin/py"), None, None), record.clone()];
    let attached = attach(&record, &Vec::new(), &others);
    assert_eq!(attached.python_executable_path, Some("/usr/bin/python3".to_string()));
}

#[test]
fn newcomer_whose_alias_is_a_reported_key_joins_that_record() {
    let mut store = create_dispatcher();
    store.report_environment(env_with(Some("/opt/bin/python3.12"), None, None));
    store.report_environment(env_with(
        Some("/opt/bin/python3"),
        None,
        Some(vec!["/cellar/python3.12", "/opt/bin/python3", "/opt/bin/python3.12"]),
    ));
    assert_eq!(store.environments().len(), 1);
    let env = &store.environments()[0];
    assert_eq!(env.python_executable_path, Some("/opt/bin/python3".to_string()));
    assert_eq!(
        env.symlinks,
        Some(strings(&["/cellar/python3.12", "/opt/bin/python3", "/opt/bin/python3.12"]))
    );
}

#[test]
fn attach_keeps_a_record_without_executable_keyed_by_its_directory() {
    let record = env_with(None, Some("/envs/a"), Some(vec!["/x"]));
    let attached = attach(&record, &strings(&["/y"]), &vec![record.clone()]);
    assert_eq!(attached.python_executable_path, None);
    assert_eq!(attached.symlinks, Some(strings(&["/x", "/y"])));
    let plain = env_with(Some("/a"), None, None);
    assert_eq!(add_more_aliases(&plain, &Vec::new()).symlinks, None);
    assert_eq!(add_more_aliases(&plain, &strings(&["/b", "/b"])).symlinks, Some(strings(&["/b"])));
}

#[test]
fn managers_are_reported_once() {
    let mut store = create_dispatcher();
    let manager = EnvManager::new("/c/bin/conda".to_string(), None, EnvManagerType::Conda);
    let mut with_version = manager.clone();
    with_version.version = Some("4.0.2".to_string());
    store.report_environment_manager(manager.clone());
    store.report_environment_manager(with_version);
    assert_eq!(store.managers(), &vec![manager.clone()]);
    let mut env = env_with(Some("/c/bin/python"), None, None);
    env.env_manager = Some(EnvManager::new("/p/pyenv".to_string(), None, EnvManagerType::Pyenv));
    store.report_environment(env);
    assert_eq!(store.managers().len(), 2);
    // The manager of an environment without a key is not reported.
    let mut dropped = env_with(None, None, None);
    dropped.env_manager = Some(EnvManager::new("/q".to_string(), None, EnvManagerType::Pyenv));
    store.report_environment(dropped);
    assert_eq!(store.managers().len(), 2);
}

#[test]
fn candidates_are_claimed_by_key_or_alias() {
    let mut store = create_dispatcher();
    store.report_environment(env_with(Some("/a/python"), None, Some(vec!["/b/python"])));
    assert!(store.was_environment_reported(&PythonEnv::new("/a/python".to_string(), None, None)));
    assert!(store.was_environment_reported(&PythonEnv::new("/b/python".to_string(), None, None)));
    assert!(!store.was_environment_reported(&PythonEnv::new("/c/python".to_string(), None, None)));
    assert!(!store.exited);
    store.exit();
    assert!(store.exited);
}

#[test]
fn shortest_executable_is_the_first_of_the_shortest() {
    let aliases = Some(strings(&["/usr/local/bin/python3.10", "/bin/py", "/bin/p3"]));
    assert_eq!(
        get_shortest_python_executable(&aliases, &Some("/bin/px".to_string())),
        Some("/bin/py".to_string())
    );
    assert_eq!(
        get_shortest_python_executable(&aliases, &Some("/py".to_string())),
        Some("/py".to_string())
    );
    assert_eq!(
        get_shortest_python_executable(&None, &Some("/usr/bin/python".to_string())),
        Some("/usr/bin/python".to_string())
    );
    assert_eq!(get_shortest_python_executable(&None, &None), None);
    assert_eq!(get_shortest_python_executable(&Some(Vec::new()), &None), None);
    // Length counts bytes: two letters with accents are longer than three without.
    let accents = Some(strings(&["/éé", "/abc"]));
    assert_eq!(get_shortest_python_executable(&accents, &None), Some("/abc".to_string()));
}

#[test]
fn messages_carry_their_method() {
    let manager = EnvManager::new("/c/bin/conda".to_string(), None, EnvManagerType::Conda);
    let message = EnvManagerMessage::new(manager.clone());
    assert_eq!(message.jsonrpc, "2.0");
    assert_eq!(message.method, "envManager");
    assert_eq!(message.params, manager);
    let env = env_with(Some("/a"), None, None);
    let message = PythonEnvironmentMessage::new(env.clone());
    assert_eq!(message.jsonrpc, "2.0");
    assert_eq!(message.method, "pythonEnvironment");
    assert_eq!(message.params, env);
    let message = ExitMessage::new();
    assert_eq!(message.method, "exit");
    assert_eq!(message.params, None);
    let message = LogMessage::new("hello".to_string(), LogLevel::Warning);
    assert_eq!(message.method, "log");
    assert_eq!(message.params.message, "hello");
    assert_eq!(message.params.level, LogLevel::Warning);
}

#[test]
fn new_environment_fills_the_leading_fields() {
    let env = PythonEnvironment::new(
        Some("d".to_string()),
        Some("n".to_string()),
        Some("/e".to_string()),
        PythonEnvironmentCategory::Venv,
        Some("3.1".to_string()),
        Some("/p".to_string()),
        None,
        Some(vec!["/e".to_string()]),
    );
    assert_eq!(env.display_name, Some("d".to_string()));
    assert_eq!(env.category, PythonEnvironmentCategory::Venv);
    assert_eq!(env.symlinks, None);
    assert_eq!(env.arch, None);
    assert_eq!(PythonEnvironment::default().category, PythonEnvironmentCategory::System);
    assert_eq!(env.clone(), env);
}

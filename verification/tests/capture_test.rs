use python_finder::capture::{
    get_first_roots, get_further_roots, get_is_covered, get_next_roots, get_uncovered, get_homebrew_directories, get_pyenv_directories,
    get_virtualenv_directories, get_wants_contents, Root,
};
use python_finder::conda::get_condarc_entries;
use python_finder::filesystem::{Entry, FileSystem};
use python_finder::homebrew::get_sys_prefix;
use python_finder::known::{EnvironmentApi, Platform};

fn root(path: &str, depth: usize) -> Root {
    Root { path: path.to_string(), depth }
}

fn unix(vars: &[(&str, &str)], home: Option<&str>, locations: &[&str]) -> EnvironmentApi {
    EnvironmentApi {
        platform: Platform::Unix,
        home: home.map(|h| h.to_string()),
        root: None,
        vars: vars.iter().map(|(n, v)| (n.to_string(), v.to_string())).collect(),
        search_locations: locations.iter().map(|l| l.to_string()).collect(),
    }
}

#[test]
fn texts_that_are_read_wherever_they_are_met() {
    assert!(get_wants_contents("/env/pyvenv.cfg"));
    assert!(get_wants_contents("/home/me/.conda/environments.txt"));
    assert!(get_wants_contents("/home/me/.condarc"));
    assert!(get_wants_contents("/env/conda-meta/history"));
    assert!(get_wants_contents("/env/conda-meta/python-3.9.1-h1_0.json"));
    assert!(get_wants_contents("/env/.project"));
    assert!(!get_wants_contents("/env/other/python-3.9.1-h1_0.json"));
    assert!(!get_wants_contents("/env/bin/python"));
    assert!(!get_wants_contents("/"));
}

#[test]
fn first_roots_follow_from_the_environment() {
    let known = unix(&[("PATH", "/a:/b")], None, &["/usr/bin"]);
    let roots = get_first_roots(&known);
    assert_eq!(roots[0], root("/usr/bin", 1));
    assert_eq!(roots[1], root("/a", 1));
    assert_eq!(roots[2], root("/b", 1));
    // The home is unknown: nothing under it is named.
    assert!(roots.contains(&root("/opt/anaconda3", 4)));
    assert!(roots.contains(&root("/etc/conda/.condarc", 0)));
    assert!(roots.contains(&root("/opt/homebrew/bin", 1)));
    assert!(!roots.iter().any(|r| r.path.contains("virtualenvs")));

    let known = unix(&[("WORKON_HOME", "/work/envs")], Some("/home/me"), &[]);
    let roots = get_first_roots(&known);
    assert!(roots.contains(&root("/home/me/anaconda3", 4)));
    assert!(roots.contains(&root("/home/me/.conda/environments.txt", 0)));
    assert!(roots.contains(&root("/home/me/.pyenv", 5)));
    assert!(roots.contains(&root("/work/envs", 3)));
    assert!(roots.contains(&root("/home/me/.virtualenvs", 3)));
    assert!(roots.contains(&root("/home/me/AppData/Local/Microsoft/WindowsApps", 1)));
}

#[test]
fn directories_that_the_variables_name() {
    let known = unix(&[("PYENV_ROOT", "/custom/pyenv")], Some("/home/me"), &[]);
    assert_eq!(
        get_pyenv_directories(&known),
        vec![
            "/custom/pyenv".to_string(),
            "/custom/.version".to_string(),
            "/home/me/.pyenv".to_string()
        ]
    );
    assert_eq!(get_pyenv_directories(&unix(&[], None, &[])), Vec::<String>::new());
    let known = unix(&[("HOMEBREW_PREFIX", "/brew")], None, &[]);
    assert_eq!(get_homebrew_directories(&known).last(), Some(&"/brew/bin".to_string()));
    assert_eq!(get_homebrew_directories(&unix(&[], None, &[])).len(), 3);
    assert_eq!(get_virtualenv_directories(&unix(&[], None, &[])), Vec::<String>::new());
    assert_eq!(get_virtualenv_directories(&unix(&[], Some("/h"), &[])).len(), 7);
}

#[test]
fn further_roots_are_named_by_what_was_read() {
    let known = unix(&[("CONDARC", "/etc/my-rc")], Some("/home/me"), &[]);
    let mut fs = FileSystem::new();
    fs.add(Entry::link(
        "/opt/homebrew/bin/python3.12",
        "/opt/homebrew/Cellar/python@3.12/3.12.3/Frameworks/Python.framework/Versions/3.12/bin/python3.12",
    ));
    fs.add(Entry::file("/home/me/.conda/environments.txt", "/work/env1\n/work/env2\n"));
    fs.add(Entry::file("/etc/my-rc", "envs_dirs:\n - /data\n"));
    fs.add(Entry::file("/venvs/p/.project", " /home/me/project \n"));
    fs.add(Entry::file("/tools/bin/conda", ""));
    fs.add(Entry::file("/tools/bin/python", "ignored"));
    fs.add(Entry::directory("/tools"));
    assert_eq!(
        get_further_roots(&known, &fs),
        vec![
            root(
                "/opt/homebrew/Cellar/python@3.12/3.12.3/Frameworks/Python.framework/Versions/3.12/bin/python3.12",
                3
            ),
            root(
                "/opt/homebrew/Cellar/python@3.12/3.12.3/Frameworks/Python.framework/Versions/3.12/Headers",
                1
            ),
            root("/opt/homebrew/opt/python@3.12/Frameworks/Python.framework/Versions/3.12", 0),
            root("/work/env1", 4),
            root("/work/env2", 4),
            root("/data/envs", 4),
            root("/home/me/project", 1),
            root("/tools", 4),
            root("/tools/conda-meta", 1),
            root("/conda-meta", 1),
        ]
    );
    assert_eq!(get_further_roots(&known, &FileSystem::new()), Vec::<Root>::new());
}

#[test]
fn prefix_of_a_homebrew_python_follows_from_its_path() {
    assert_eq!(
        get_sys_prefix("/usr/local/Cellar/python@3.8/3.8.19/Frameworks/Python.framework/Versions/3.8/bin/python3.8"),
        Some("/usr/local/Cellar/python@3.8/3.8.19/Frameworks/Python.framework/Versions/3.8".to_string())
    );
    assert_eq!(get_sys_prefix("/usr/local/Cellar/python@3.8/bin/python3.8"), None);
    assert_eq!(get_sys_prefix("/usr/bin/python3"), None);
}

#[test]
fn entries_of_a_configuration_file() {
    assert_eq!(
        get_condarc_entries("envs_dirs:\n  - /a\n  - ~/b-c\nchannels:\n  - x\n"),
        vec!["/a/envs".to_string(), "~/b-c/envs".to_string()]
    );
    assert_eq!(get_condarc_entries("channels:\n  - x\n"), Vec::<String>::new());
}

#[test]
fn next_roots_are_those_not_read_yet() {
    let known = unix(&[], Some("/home/me"), &["/usr/bin"]);
    let mut fs = FileSystem::new();
    // The first round reads what follows from the environment.
    let first = get_next_roots(&known, &fs, &Vec::new(), 0);
    assert_eq!(first, get_first_roots(&known));
    // A later round reads what the snapshot names and was not read.
    fs.add(Entry::file("/home/me/.conda/environments.txt", "/work/env1\n/opt/anaconda3/\n/work/env2\n"));
    let mut read = first;
    assert_eq!(
        get_next_roots(&known, &fs, &read, 1),
        vec![root("/work/env1", 4), root("/work/env2", 4)]
    );
    read.push(root("/work/env1", 4));
    read.push(root("/work/env2/", 2));
    assert_eq!(get_next_roots(&known, &fs, &read, 2), vec![root("/work/env2", 4)]);
    read.push(root("/work/env2", 5));
    assert_eq!(get_next_roots(&known, &fs, &read, 3), Vec::<Root>::new());
    // After the last round nothing is asked for.
    assert_eq!(get_next_roots(&known, &fs, &Vec::new(), 15).len(), 2 + 1);
    assert_eq!(get_next_roots(&known, &fs, &Vec::new(), 16), Vec::<Root>::new());
    assert_eq!(get_next_roots(&known, &fs, &Vec::new(), 400), Vec::<Root>::new());
}

#[test]
fn a_root_is_covered_by_the_same_path_read_as_deep() {
    let read = vec![root("/a", 2), root("/b/", 0)];
    assert!(get_is_covered(&read, &root("/a", 2)));
    assert!(get_is_covered(&read, &root("/a/", 1)));
    assert!(!get_is_covered(&read, &root("/a", 3)));
    assert!(get_is_covered(&read, &root("/b", 0)));
    assert!(!get_is_covered(&read, &root("/a/b", 0)));
    assert_eq!(
        get_uncovered(vec![root("/a", 1), root("/c", 0), root("/a", 3)], &read),
        vec![root("/c", 0), root("/a", 3)]
    );
}

use python_finder::filesystem::{Entry, EntryKind, FileSystem};
use python_finder::known::{
    get_unix_search_directories, lookup_variable, Environment, EnvironmentApi, Platform,
};
use python_finder::paths::{
    ancestor_of, file_name_of, is_under_path, join_path, parent_of, strip_trailing_of,
};
use python_finder::text::{
    after_first_char, char_count, chars_of, concat3, concat4, concat6, concat8, concat_str,
    contains_str, ends_with_str, find_position, find_str, lines_of, list_contains, lowercase_str,
    push_missing, replace_char_str, same_str, slice_str, split_on_char, starts_with_str,
    string_of, trim_str,
};
use python_finder::utils::{
    find_all_python_binaries_in_path, find_and_parse_pyvenv_cfg, find_pyvenv_config_path,
    find_python_binary_path, get_version_from_header_files, get_version_using_pyvenv_cfg,
    is_python_exe_name, is_symlinked_python_executable, parse_pyvenv_cfg, version_of_cfg_line,
};

fn strings(items: &[&str]) -> Vec<String> {
    items.iter().map(|s| s.to_string()).collect()
}

#[test]
fn characters_and_back() {
    assert_eq!(chars_of("aé/"), vec!['a', 'é', '/']);
    assert_eq!(string_of(&vec!['p', 'y']), "py");
    assert_eq!(char_count("aé"), 2);
    assert_eq!(concat_str("a", "b"), "ab");
    assert_eq!(concat3("a", "b", "c"), "abc");
    assert_eq!(concat4("a", "b", "c", "d"), "abcd");
    assert_eq!(concat6("a", "b", "c", "d", "e", "f"), "abcdef");
    assert_eq!(concat8("a", "b", "c", "d", "e", "f", "g", "h"), "abcdefgh");
}

#[test]
fn prefixes_suffixes_and_occurrences() {
    assert!(starts_with_str("python3.10", "python"));
    assert!(starts_with_str("python", ""));
    assert!(!starts_with_str("pytho", "python"));
    assert!(ends_with_str("a.json", ".json"));
    assert!(!ends_with_str("json", ".json"));
    assert!(contains_str("# cmd: x create -n", " create -"));
    assert!(contains_str("abc", ""));
    assert!(!contains_str("abc", "abd"));
    assert_eq!(find_str("abcabc", "bc"), Some(1));
    assert_eq!(find_str("abc", ""), Some(0));
    assert_eq!(find_str("abc", "abcd"), None);
    assert_eq!(find_str("", ""), Some(0));
    assert!(same_str("é", "é"));
    assert!(!same_str("a", "ab"));
    assert_eq!(slice_str("abcdef", 2, 4), Some("cd".to_string()));
    assert_eq!(slice_str("abc", 2, 1), None);
    assert_eq!(slice_str("abc", 0, 4), None);
}

#[test]
fn lower_case_is_for_ascii_letters_only() {
    assert_eq!(lowercase_str("PyThOn3.EXE"), "python3.exe");
    assert_eq!(lowercase_str("ÀB"), "Àb");
    assert_eq!(lowercase_str(""), "");
}

#[test]
fn trim_takes_white_space_from_both_ends() {
    assert_eq!(trim_str("  \t a b \r\n"), "a b");
    assert_eq!(trim_str("\u{a0}x\u{3000}"), "x");
    assert_eq!(trim_str("   "), "");
    assert_eq!(trim_str(""), "");
    assert_eq!(trim_str("x"), "x");
}

#[test]
fn lines_end_at_line_feeds() {
    assert_eq!(lines_of("a\nb\r\n\nc"), strings(&["a", "b", "", "c"]));
    assert_eq!(lines_of("a\n"), strings(&["a"]));
    assert_eq!(lines_of("\n"), strings(&[""]));
    assert_eq!(lines_of(""), Vec::<String>::new());
    assert_eq!(lines_of("a\r"), strings(&["a"]));
}

#[test]
fn pieces_between_separators() {
    assert_eq!(split_on_char("/a:/b::/c", ':'), strings(&["/a", "/b", "", "/c"]));
    assert_eq!(split_on_char("", ':'), strings(&[""]));
    assert_eq!(split_on_char("/a:", ':'), strings(&["/a", ""]));
    assert_eq!(after_first_char(" - /a-b", '-'), Some(" /a-b".to_string()));
    assert_eq!(after_first_char("abc", '-'), None);
    assert_eq!(replace_char_str("C:\\a\\b", '\\', '/'), "C:/a/b");
}

#[test]
fn lists_of_strings() {
    let mut list = strings(&["/a", "/b"]);
    assert!(list_contains(&list, "/b"));
    assert!(!list_contains(&list, "/c"));
    push_missing(&mut list, &strings(&["/b", "/c", "/c", "/a", "/d"]));
    assert_eq!(list, strings(&["/a", "/b", "/c", "/d"]));
    assert_eq!(find_position(&list, "/c"), Some(2));
    assert_eq!(find_position(&list, "/x"), None);
}

#[test]
fn paths_are_taken_apart_by_their_text() {
    assert_eq!(file_name_of("/a/b/python3"), Some("python3".to_string()));
    assert_eq!(file_name_of("/a/b/"), Some("b".to_string()));
    assert_eq!(file_name_of("python"), Some("python".to_string()));
    assert_eq!(file_name_of("/"), None);
    assert_eq!(file_name_of(""), None);
    assert_eq!(file_name_of("/a/.."), None);
    assert_eq!(parent_of("/a/b/c"), Some("/a/b".to_string()));
    assert_eq!(parent_of("/a/b/"), Some("/a".to_string()));
    assert_eq!(parent_of("/a"), Some("/".to_string()));
    assert_eq!(parent_of("a"), Some("".to_string()));
    assert_eq!(parent_of("/"), None);
    assert_eq!(parent_of(""), None);
    assert_eq!(parent_of("/a//b"), Some("/a".to_string()));
    assert_eq!(ancestor_of("/a/b/c/d", 0), Some("/a/b/c/d".to_string()));
    assert_eq!(ancestor_of("/a/b/c/d", 2), Some("/a/b".to_string()));
    assert_eq!(ancestor_of("/a", 2), None);
    assert_eq!(strip_trailing_of("/a/b///"), "/a/b");
    assert_eq!(strip_trailing_of("///"), "/");
    assert_eq!(strip_trailing_of(""), "");
}

#[test]
fn joining_paths() {
    assert_eq!(join_path("/a", "b"), "/a/b");
    assert_eq!(join_path("/a/", "b"), "/a/b");
    assert_eq!(join_path("/a", "/b"), "/b");
    assert_eq!(join_path("", "b"), "b");
    assert_eq!(join_path("/", "etc/conda"), "/etc/conda");
    assert_eq!(join_path("/a", "b/c"), "/a/b/c");
    assert_eq!(join_path("/a", ""), "/a/");
}

#[test]
fn below_goes_by_components() {
    assert!(is_under_path("/opt/homebrew/Cellar/python@3.12", "/opt/homebrew/Cellar"));
    assert!(is_under_path("/opt/homebrew/Cellar", "/opt/homebrew/Cellar"));
    assert!(is_under_path("/opt/homebrew/Cellar/", "/opt/homebrew/Cellar"));
    assert!(!is_under_path("/opt/homebrew/Cellar2/x", "/opt/homebrew/Cellar"));
    assert!(!is_under_path("/opt/homebrew", "/opt/homebrew/Cellar"));
    assert!(is_under_path("/usr/bin", "/"));
    assert!(is_under_path("/usr/bin", ""));
}

#[test]
fn environment_from_variables() {
    let vars = vec![
        ("USERPROFILE".to_string(), "/profile".to_string()),
        ("PATH".to_string(), "/usr/bin:/custom/bin".to_string()),
        ("HOME".to_string(), "/home/me".to_string()),
        ("PATH".to_string(), "/ignored".to_string()),
    ];
    assert_eq!(lookup_variable(&vars, "PATH"), Some("/usr/bin:/custom/bin".to_string()));
    assert_eq!(lookup_variable(&vars, "path"), None);
    let known = EnvironmentApi::new(Platform::Unix, vars);
    assert_eq!(known.get_user_home(), Some("/home/me".to_string()));
    assert_eq!(known.get_root(), None);
    assert_eq!(known.get_platform(), Platform::Unix);
    assert_eq!(known.get_env_var("HOME".to_string()), Some("/home/me".to_string()));
    assert_eq!(known.get_env_var("NOPE".to_string()), None);
    let locations = known.get_know_global_search_locations();
    assert_eq!(locations[0], "/usr/bin");
    assert_eq!(locations[1], "/custom/bin");
    assert_eq!(locations[2], "/bin");
    // `/usr/bin` is named by PATH and not added again.
    assert_eq!(locations.iter().filter(|l| l.as_str() == "/usr/bin").count(), 1);
    assert_eq!(locations.len(), 2 + get_unix_search_directories().len() - 1);
    assert_eq!(get_unix_search_directories().len(), 28);

    let windows = EnvironmentApi::new(
        Platform::Windows,
        vec![("USERPROFILE".to_string(), "C:/Users/me".to_string())],
    );
    assert_eq!(windows.get_user_home(), Some("C:/Users/me".to_string()));
    assert_eq!(windows.get_know_global_search_locations(), Vec::<String>::new());
    let empty = EnvironmentApi::new(Platform::Unix, Vec::new());
    assert_eq!(empty.get_user_home(), None);
    assert_eq!(empty.get_know_global_search_locations()[0], "");
}

fn sample_fs() -> FileSystem {
    let mut fs = FileSystem::new();
    fs.add(Entry::directory("/env"));
    fs.add(Entry::directory("/env/bin"));
    fs.add(Entry::file("/env/pyvenv.cfg", "home = /usr/bin\nversion_info = 3.9.1.final.0\nversion = 3.9.1\n"));
    fs.add(Entry::file("/env/bin/python3", ""));
    fs.add(Entry::link("/env/bin/python", "/usr/bin/python3.9"));
    fs.add(Entry::file("/env/bin/python3.9", ""));
    fs.add(Entry::file("/env/bin/python3-config", ""));
    fs.add(Entry::directory("/env/bin/python3.8"));
    fs.add(Entry::file("/env/bin/pip", ""));
    fs.add(Entry::file("/env/bin/sub/python", ""));
    fs
}

#[test]
fn snapshot_answers_from_its_entries() {
    let fs = sample_fs();
    assert!(fs.is_present("/env"));
    assert!(fs.is_present("/env/"));
    assert!(!fs.is_present("/en"));
    assert!(fs.is_dir("/env/bin"));
    assert!(!fs.is_dir("/env/pyvenv.cfg"));
    assert!(fs.is_file("/env/pyvenv.cfg"));
    assert!(!fs.is_file("/env"));
    assert!(!fs.is_file("/missing"));
    assert_eq!(fs.read_to_string("/env/bin/python3"), Some("".to_string()));
    assert_eq!(fs.read_to_string("/env"), None);
    assert_eq!(fs.read_to_string("/env/bin/python"), None);
    assert_eq!(fs.read_link("/env/bin/python"), Some("/usr/bin/python3.9".to_string()));
    assert_eq!(fs.read_link("/env/bin/python3"), None);
    assert_eq!(fs.canonicalize("/env/bin/python"), Some("/usr/bin/python3.9".to_string()));
    assert_eq!(fs.canonicalize("/env/bin/"), Some("/env/bin".to_string()));
    assert_eq!(fs.canonicalize("/missing"), None);
    assert_eq!(
        fs.read_dir("/env/bin"),
        Some(strings(&[
            "/env/bin/python3",
            "/env/bin/python",
            "/env/bin/python3.9",
            "/env/bin/python3-config",
            "/env/bin/python3.8",
            "/env/bin/pip",
        ]))
    );
    assert_eq!(fs.read_dir("/env/pyvenv.cfg"), None);
    assert_eq!(fs.read_dir("/missing"), None);
    assert_eq!(Entry::directory("/d").kind, EntryKind::Directory);
    assert_eq!(Entry::link("/l", "/t").real_path, Some("/t".to_string()));
}

#[test]
fn interpreter_of_an_environment() {
    let fs = sample_fs();
    assert_eq!(
        find_python_binary_path(&fs, Platform::Unix, "/env"),
        Some("/env/bin/python".to_string())
    );
    assert_eq!(find_python_binary_path(&fs, Platform::Windows, "/env"), None);
    assert_eq!(find_python_binary_path(&fs, Platform::Unix, "/other"), None);
    let mut windows = FileSystem::new();
    windows.add(Entry::file("C:/env/python.exe", ""));
    assert_eq!(
        find_python_binary_path(&windows, Platform::Windows, "C:/env"),
        Some("C:/env/python.exe".to_string())
    );
    assert_eq!(
        find_all_python_binaries_in_path(&fs, Platform::Unix, "/env"),
        strings(&["/env/bin/python3", "/env/bin/python", "/env/bin/python3.9"])
    );
    assert_eq!(
        find_all_python_binaries_in_path(&fs, Platform::Unix, "/env/bin"),
        strings(&["/env/bin/python3", "/env/bin/python", "/env/bin/python3.9"])
    );
    assert_eq!(
        find_all_python_binaries_in_path(&fs, Platform::Unix, "/nowhere"),
        Vec::<String>::new()
    );
    assert!(is_python_exe_name(Platform::Unix, "/usr/bin/Python3.10"));
    assert!(!is_python_exe_name(Platform::Unix, "/usr/bin/python3.10-config"));
    assert!(!is_python_exe_name(Platform::Unix, "/usr/bin/pypy3"));
    assert!(is_python_exe_name(Platform::Windows, "C:/py/python3.10.exe"));
    assert!(!is_python_exe_name(Platform::Windows, "C:/py/python3"));
}

#[test]
fn symbolic_links_named_like_an_interpreter() {
    let mut fs = sample_fs();
    fs.add(Entry::link("/env/bin/python3.9-config", "/usr/bin/python3.9-config"));
    fs.add(Entry::link("/env/bin/pip3", "/usr/bin/pip3"));
    assert_eq!(
        is_symlinked_python_executable(&fs, "/env/bin/python"),
        Some("/usr/bin/python3.9".to_string())
    );
    assert_eq!(is_symlinked_python_executable(&fs, "/env/bin/python3"), None);
    assert_eq!(is_symlinked_python_executable(&fs, "/env/bin/python3.9-config"), None);
    assert_eq!(is_symlinked_python_executable(&fs, "/env/bin/pip3"), None);
    assert_eq!(is_symlinked_python_executable(&fs, "/missing/python"), None);
}

#[test]
fn configuration_of_a_virtual_environment() {
    let fs = sample_fs();
    assert_eq!(
        find_pyvenv_config_path(&fs, "/env/bin/python"),
        Some("/env/pyvenv.cfg".to_string())
    );
    assert_eq!(find_pyvenv_config_path(&fs, "/env/python"), Some("/env/pyvenv.cfg".to_string()));
    assert_eq!(find_pyvenv_config_path(&fs, "/env/bin/sub/python"), None);
    assert_eq!(find_pyvenv_config_path(&fs, "python"), None);
    // The first line that gives a version decides.
    assert_eq!(
        find_and_parse_pyvenv_cfg(&fs, "/env/bin/python").unwrap().version,
        "3.9.1.final.0"
    );
    assert_eq!(
        get_version_using_pyvenv_cfg(&fs, "/env/bin/python"),
        Some("3.9.1.final.0".to_string())
    );
    assert_eq!(get_version_using_pyvenv_cfg(&fs, "/usr/bin/python"), None);
    assert_eq!(parse_pyvenv_cfg("version = 3.10.2\n").unwrap().version, "3.10.2");
    assert_eq!(parse_pyvenv_cfg("version=3.10.2").unwrap().version, "3.10.2");
    assert_eq!(parse_pyvenv_cfg("home = /version\nversion = 3.10\n"), None);
    assert_eq!(parse_pyvenv_cfg(" version = 3.10.2"), None);
    assert_eq!(parse_pyvenv_cfg(""), None);
    assert_eq!(
        version_of_cfg_line("version = 1", Some("a".to_string()), Some("b".to_string())),
        Some("a".to_string())
    );
    assert_eq!(version_of_cfg_line("version", None, Some("b".to_string())), Some("b".to_string()));
    assert_eq!(version_of_cfg_line("home", Some("a".to_string()), None), None);
}

#[test]
fn version_in_the_header_files() {
    let mut fs = FileSystem::new();
    fs.add(Entry::file(
        "/fw/Headers/patchlevel.h",
        "#define PY_MINOR_VERSION 10\n#define PY_VERSION \"3.10.2\"\n#define PY_VERSION \"9.9\"\n",
    ));
    assert_eq!(get_version_from_header_files(&fs, "/fw"), Some("3.10.2".to_string()));
    assert_eq!(get_version_from_header_files(&fs, "/other"), None);
}

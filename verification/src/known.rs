//! What discovery is told about the machine: the platform, the user's home,
//! the environment variables and the directories that are searched on every
//! machine of that platform.

use crate::text::{
    add_missing, clone_list, clone_option, owned_list, pieces, push_missing, same_str,
    split_on_char,
};
use vstd::prelude::*;

verus! {

/// The family of operating systems whose layout of files applies.
#[derive(Clone, Copy, Debug, PartialEq, Eq, Structural)]
pub enum Platform {
    Unix,
    Windows,
}

/// What an `Environment` answers, as plain values.
pub struct Known {
    pub platform: Platform,
    pub home: Option<Seq<char>>,
    pub root: Option<Seq<char>>,
    pub vars: Map<Seq<char>, Seq<char>>,
    pub search_locations: Seq<Seq<char>>,
}

impl Known {
    /// The value of the variable `key`.
    pub open spec fn var(self, key: Seq<char>) -> Option<Seq<char>> {
        if self.vars.dom().contains(key) {
            Some(self.vars[key])
        } else {
            None
        }
    }
}

/// The source of everything that discovery learns from the process around it.
/// An implementation answers each question the same way every time it is asked.
pub trait Environment {
    /// The answers of this environment.
    spec fn known(&self) -> Known;

    fn get_platform(&self) -> (r: Platform)
        ensures
            r == self.known().platform,
    ;

    fn get_user_home(&self) -> (r: Option<String>)
        ensures
            r.deep_view() == self.known().home,
    ;

    /// A directory that stands for `/` where the real root cannot be used.
    fn get_root(&self) -> (r: Option<String>)
        ensures
            r.deep_view() == self.known().root,
    ;

    fn get_env_var(&self, key: String) -> (r: Option<String>)
        ensures
            r.deep_view() == self.known().var(key@),
    ;

    fn get_know_global_search_locations(&self) -> (r: Vec<String>)
        ensures
            r.deep_view() == self.known().search_locations,
    ;
}

/// The directories that are searched on every Unix machine, after those of `PATH`.
pub open spec fn unix_search_directories() -> Seq<Seq<char>> {
    seq![
        "/bin"@,
        "/etc"@,
        "/lib"@,
        "/lib/x86_64-linux-gnu"@,
        "/lib64"@,
        "/sbin"@,
        "/snap/bin"@,
        "/usr/bin"@,
        "/usr/games"@,
        "/usr/include"@,
        "/usr/lib"@,
        "/usr/lib/x86_64-linux-gnu"@,
        "/usr/lib64"@,
        "/usr/libexec"@,
        "/usr/local"@,
        "/usr/local/bin"@,
        "/usr/local/etc"@,
        "/usr/local/games"@,
        "/usr/local/lib"@,
        "/usr/local/sbin"@,
        "/usr/sbin"@,
        "/usr/share"@,
        "~/.local/bin"@,
        "/home/bin"@,
        "/home/sbin"@,
        "/opt"@,
        "/opt/bin"@,
        "/opt/sbin"@,
    ]
}

/// The value of the first pair of `vars` named `key`.
pub open spec fn value_of(vars: Seq<(Seq<char>, Seq<char>)>, key: Seq<char>) -> Option<Seq<char>>
    decreases vars.len(),
{
    if vars.len() == 0 {
        None
    } else if vars[0].0 == key {
        Some(vars[0].1)
    } else {
        value_of(vars.subrange(1, vars.len() as int), key)
    }
}

/// The home directory that the variables name: `HOME`, else `USERPROFILE`.
pub open spec fn home_of(vars: Seq<(Seq<char>, Seq<char>)>) -> Option<Seq<char>> {
    match value_of(vars, "HOME"@) {
        Some(home) => Some(home),
        None => value_of(vars, "USERPROFILE"@),
    }
}

/// The directories searched on a machine with these variables: on Unix those
/// of `PATH`, then the fixed ones that `PATH` did not name; on Windows none.
pub open spec fn search_locations_of(platform: Platform, vars: Seq<(Seq<char>, Seq<char>)>) -> Seq<
    Seq<char>,
> {
    match platform {
        Platform::Windows => seq![],
        Platform::Unix => add_missing(
            pieces(
                match value_of(vars, "PATH"@) {
                    Some(path) => path,
                    None => seq![],
                },
                ':',
            ),
            unix_search_directories(),
        ),
    }
}

/// An environment given by plain values.
#[derive(Debug, PartialEq, Eq)]
pub struct EnvironmentApi {
    pub platform: Platform,
    pub home: Option<String>,
    pub root: Option<String>,
    pub vars: Vec<(String, String)>,
    pub search_locations: Vec<String>,
}

/// The value of the first pair of `vars` named `key`.
pub fn lookup_variable(vars: &Vec<(String, String)>, key: &str) -> (r: Option<String>)
    ensures
        r.deep_view() == value_of(vars.deep_view(), key@),
{
    let ghost all = vars.deep_view();
    let mut i: usize = 0;
    assert(all.subrange(0, all.len() as int) == all);
    while i < vars.len()
        invariant
            i <= vars.len(),
            all == vars.deep_view(),
            value_of(all.subrange(i as int, all.len() as int), key@) == value_of(all, key@),
        decreases vars.len() - i,
    {
        let ghost tail = all.subrange(i as int, all.len() as int);
        assert(tail[0] == vars[i as int].deep_view());
        if same_str(vars[i].0.as_str(), key) {
            return Some(vars[i].1.clone());
        }
        assert(tail.subrange(1, tail.len() as int) == all.subrange(i + 1, all.len() as int));
        i = i + 1;
    }
    None
}

/// The fixed Unix search directories.
pub fn get_unix_search_directories() -> (r: Vec<String>)
    ensures
        r.deep_view() == unix_search_directories(),
{
    let r = owned_list(
        &[
            "/bin",
            "/etc",
            "/lib",
            "/lib/x86_64-linux-gnu",
            "/lib64",
            "/sbin",
            "/snap/bin",
            "/usr/bin",
            "/usr/games",
            "/usr/include",
            "/usr/lib",
            "/usr/lib/x86_64-linux-gnu",
            "/usr/lib64",
            "/usr/libexec",
            "/usr/local",
            "/usr/local/bin",
            "/usr/local/etc",
            "/usr/local/games",
            "/usr/local/lib",
            "/usr/local/sbin",
            "/usr/sbin",
            "/usr/share",
            "~/.local/bin",
            "/home/bin",
            "/home/sbin",
            "/opt",
            "/opt/bin",
            "/opt/sbin",
        ],
    );
    assert(r.deep_view() =~= unix_search_directories());
    r
}

impl EnvironmentApi {
    /// The environment of a machine of `platform` whose variables are `vars`.
    /// The home directory and the search locations are read from the variables.
    pub fn new(platform: Platform, vars: Vec<(String, String)>) -> (r: EnvironmentApi)
        ensures
            r.platform == platform,
            r.vars == vars,
            r.root is None,
            r.home.deep_view() == home_of(vars.deep_view()),
            r.search_locations.deep_view() == search_locations_of(platform, vars.deep_view()),
    {
        let home = match lookup_variable(&vars, "HOME") {
            Some(home) => Some(home),
            None => lookup_variable(&vars, "USERPROFILE"),
        };
        let search_locations = match platform {
            Platform::Windows => {
                let none: Vec<String> = Vec::new();
                assert(none.deep_view() =~= Seq::<Seq<char>>::empty());
                none
            },
            Platform::Unix => {
                let path = match lookup_variable(&vars, "PATH") {
                    Some(path) => path,
                    None => String::new(),
                };
                let mut locations = split_on_char(path.as_str(), ':');
                let fixed = get_unix_search_directories();
                push_missing(&mut locations, &fixed);
                locations
            },
        };
        EnvironmentApi { platform, home, root: None, vars, search_locations }
    }
}

impl Environment for EnvironmentApi {
    open spec fn known(&self) -> Known {
        Known {
            platform: self.platform,
            home: self.home.deep_view(),
            root: self.root.deep_view(),
            vars: Map::new(
                |key: Seq<char>| value_of(self.vars.deep_view(), key) is Some,
                |key: Seq<char>| value_of(self.vars.deep_view(), key)->0,
            ),
            search_locations: self.search_locations.deep_view(),
        }
    }

    fn get_platform(&self) -> (r: Platform) {
        self.platform
    }

    fn get_user_home(&self) -> (r: Option<String>) {
        clone_option(&self.home)
    }

    fn get_root(&self) -> (r: Option<String>) {
        clone_option(&self.root)
    }

    fn get_env_var(&self, key: String) -> (r: Option<String>) {
        lookup_variable(&self.vars, key.as_str())
    }

    fn get_know_global_search_locations(&self) -> (r: Vec<String>) {
        clone_list(&self.search_locations)
    }
}

} // verus!

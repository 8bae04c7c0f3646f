//! A snapshot of the part of a file system that discovery reads.
//!
//! Discovery never touches a disk. It is handed a `FileSystem`: a list of
//! entries, each with its path, what it is, the text it holds and, for a
//! symbolic link, the real path it resolves to. All answers are functions of
//! that list.

use crate::paths::{parent, parent_of, strip_trailing, strip_trailing_of};
use crate::text::same_str;
use vstd::prelude::*;

verus! {

/// What an entry is, once symbolic links are followed.
#[derive(Clone, Copy, Debug, PartialEq, Eq, Structural)]
pub enum EntryKind {
    File,
    Directory,
}

/// One path of the snapshot.
#[derive(Debug, PartialEq, Eq)]
pub struct Entry {
    /// The path, absolute and without a separator at its end (but for the root).
    pub path: String,
    /// What the path leads to.
    pub kind: EntryKind,
    /// The text of a file that could be read.
    pub contents: Option<String>,
    /// For a symbolic link, the path of the real file or directory it leads to.
    pub real_path: Option<String>,
}

pub struct EntryView {
    pub path: Seq<char>,
    pub kind: EntryKind,
    pub contents: Option<Seq<char>>,
    pub real_path: Option<Seq<char>>,
}

impl DeepView for Entry {
    type V = EntryView;

    open spec fn deep_view(&self) -> EntryView {
        EntryView {
            path: self.path@,
            kind: self.kind,
            contents: self.contents.deep_view(),
            real_path: self.real_path.deep_view(),
        }
    }
}

/// The snapshot: its entries, in the order in which a directory lists them.
#[derive(Debug, PartialEq, Eq)]
pub struct FileSystem {
    pub entries: Vec<Entry>,
}

impl DeepView for FileSystem {
    type V = Seq<EntryView>;

    open spec fn deep_view(&self) -> Seq<EntryView> {
        self.entries.deep_view()
    }
}

/// The first entry of `disk` at `path`. Separators at the end of `path` do not count.
pub open spec fn lookup(disk: Seq<EntryView>, path: Seq<char>) -> Option<EntryView>
    decreases disk.len(),
{
    if disk.len() == 0 {
        None
    } else if disk[0].path == strip_trailing(path) {
        Some(disk[0])
    } else {
        lookup(disk.subrange(1, disk.len() as int), path)
    }
}

/// Something is at `path`.
pub open spec fn exists_at(disk: Seq<EntryView>, path: Seq<char>) -> bool {
    lookup(disk, path) is Some
}

/// A directory is at `path`.
pub open spec fn is_dir_at(disk: Seq<EntryView>, path: Seq<char>) -> bool {
    lookup(disk, path) matches Some(e) && e.kind == EntryKind::Directory
}

/// A file is at `path`.
pub open spec fn is_file_at(disk: Seq<EntryView>, path: Seq<char>) -> bool {
    lookup(disk, path) matches Some(e) && e.kind == EntryKind::File
}

/// The text of the file at `path`.
pub open spec fn text_at(disk: Seq<EntryView>, path: Seq<char>) -> Option<Seq<char>> {
    match lookup(disk, path) {
        Some(e) => if e.kind == EntryKind::File {
            e.contents
        } else {
            None
        },
        None => None,
    }
}

/// Where the symbolic link at `path` leads. `None` where `path` is no link.
pub open spec fn link_target_at(disk: Seq<EntryView>, path: Seq<char>) -> Option<Seq<char>> {
    match lookup(disk, path) {
        Some(e) => e.real_path,
        None => None,
    }
}

/// The real path of what is at `path`: the target of a link, the path itself otherwise.
pub open spec fn real_path_at(disk: Seq<EntryView>, path: Seq<char>) -> Option<Seq<char>> {
    match lookup(disk, path) {
        Some(e) => match e.real_path {
            Some(t) => Some(t),
            None => Some(e.path),
        },
        None => None,
    }
}

/// The paths of the entries of `disk` that lie directly in `dir`, in order.
pub open spec fn children(disk: Seq<EntryView>, dir: Seq<char>) -> Seq<Seq<char>>
    decreases disk.len(),
{
    if disk.len() == 0 {
        seq![]
    } else {
        let rest = children(disk.drop_last(), dir);
        if parent(disk.last().path) == Some(strip_trailing(dir)) {
            rest.push(disk.last().path)
        } else {
            rest
        }
    }
}

/// What listing the directory `dir` gives. `None` where `dir` is no directory.
pub open spec fn listing(disk: Seq<EntryView>, dir: Seq<char>) -> Option<Seq<Seq<char>>> {
    if is_dir_at(disk, dir) {
        Some(children(disk, dir))
    } else {
        None
    }
}

impl Entry {
    /// A file with the text `contents`.
    pub fn file(path: &str, contents: &str) -> (r: Entry)
        ensures
            r.deep_view() == (EntryView {
                path: path@,
                kind: EntryKind::File,
                contents: Some(contents@),
                real_path: None,
            }),
    {
        Entry {
            path: path.to_owned(),
            kind: EntryKind::File,
            contents: Some(contents.to_owned()),
            real_path: None,
        }
    }

    /// A directory.
    pub fn directory(path: &str) -> (r: Entry)
        ensures
            r.deep_view() == (EntryView {
                path: path@,
                kind: EntryKind::Directory,
                contents: None,
                real_path: None,
            }),
    {
        Entry { path: path.to_owned(), kind: EntryKind::Directory, contents: None, real_path: None }
    }

    /// A symbolic link to the file at `real_path`.
    pub fn link(path: &str, real_path: &str) -> (r: Entry)
        ensures
            r.deep_view() == (EntryView {
                path: path@,
                kind: EntryKind::File,
                contents: None,
                real_path: Some(real_path@),
            }),
    {
        Entry {
            path: path.to_owned(),
            kind: EntryKind::File,
            contents: None,
            real_path: Some(real_path.to_owned()),
        }
    }
}

impl FileSystem {
    /// A snapshot that holds nothing.
    pub fn new() -> (r: FileSystem)
        ensures
            r.deep_view() == Seq::<EntryView>::empty(),
    {
        let r = FileSystem { entries: Vec::new() };
        assert(r.deep_view() =~= Seq::<EntryView>::empty());
        r
    }

    /// Adds `entry` after the entries that are there.
    pub fn add(&mut self, entry: Entry)
        ensures
            final(self).deep_view() == old(self).deep_view().push(entry.deep_view()),
    {
        self.entries.push(entry);
        assert(self.deep_view() =~= old(self).deep_view().push(entry.deep_view()));
    }

    /// The index of the first entry at `path`.
    fn position(&self, path: &str) -> (r: Option<usize>)
        ensures
            match r {
                Some(i) => i < self.entries.len() && lookup(self.deep_view(), path@) == Some(
                    self.entries[i as int].deep_view(),
                ),
                None => lookup(self.deep_view(), path@) is None,
            },
    {
        let wanted = strip_trailing_of(path);
        let ghost disk = self.deep_view();
        let mut i: usize = 0;
        assert(disk.subrange(0, disk.len() as int) == disk);
        while i < self.entries.len()
            invariant
                i <= self.entries.len(),
                disk == self.deep_view(),
                wanted@ == strip_trailing(path@),
                lookup(disk.subrange(i as int, disk.len() as int), path@) == lookup(disk, path@),
            decreases self.entries.len() - i,
        {
            let ghost tail = disk.subrange(i as int, disk.len() as int);
            assert(tail[0] == self.entries[i as int].deep_view());
            if same_str(self.entries[i].path.as_str(), wanted.as_str()) {
                return Some(i);
            }
            assert(tail.subrange(1, tail.len() as int) == disk.subrange(
                i + 1,
                disk.len() as int,
            ));
            i = i + 1;
        }
        None
    }

    /// Whether something is at `path`.
    pub fn is_present(&self, path: &str) -> (r: bool)
        ensures
            r == exists_at(self.deep_view(), path@),
    {
        self.position(path).is_some()
    }

    /// Whether a directory is at `path`.
    pub fn is_dir(&self, path: &str) -> (r: bool)
        ensures
            r == is_dir_at(self.deep_view(), path@),
    {
        match self.position(path) {
            Some(i) => match self.entries[i].kind {
                EntryKind::Directory => true,
                EntryKind::File => false,
            },
            None => false,
        }
    }

    /// Whether a file is at `path`.
    pub fn is_file(&self, path: &str) -> (r: bool)
        ensures
            r == is_file_at(self.deep_view(), path@),
    {
        match self.position(path) {
            Some(i) => match self.entries[i].kind {
                EntryKind::File => true,
                EntryKind::Directory => false,
            },
            None => false,
        }
    }

    /// The text of the file at `path`.
    pub fn read_to_string(&self, path: &str) -> (r: Option<String>)
        ensures
            r.deep_view() == text_at(self.deep_view(), path@),
    {
        match self.position(path) {
            Some(i) => match self.entries[i].kind {
                EntryKind::File => match &self.entries[i].contents {
                    Some(text) => Some(text.clone()),
                    None => None,
                },
                EntryKind::Directory => None,
            },
            None => None,
        }
    }

    /// Where the symbolic link at `path` leads.
    pub fn read_link(&self, path: &str) -> (r: Option<String>)
        ensures
            r.deep_view() == link_target_at(self.deep_view(), path@),
    {
        match self.position(path) {
            Some(i) => match &self.entries[i].real_path {
                Some(target) => Some(target.clone()),
                None => None,
            },
            None => None,
        }
    }

    /// The real path of what is at `path`.
    pub fn canonicalize(&self, path: &str) -> (r: Option<String>)
        ensures
            r.deep_view() == real_path_at(self.deep_view(), path@),
    {
        match self.position(path) {
            Some(i) => match &self.entries[i].real_path {
                Some(target) => Some(target.clone()),
                None => Some(self.entries[i].path.clone()),
            },
            None => None,
        }
    }

    /// The paths of the entries directly in the directory `dir`, in order.
    pub fn read_dir(&self, dir: &str) -> (r: Option<Vec<String>>)
        ensures
            r.deep_view() == listing(self.deep_view(), dir@),
    {
        if !self.is_dir(dir) {
            return None;
        }
        let wanted = strip_trailing_of(dir);
        let ghost disk = self.deep_view();
        let mut out: Vec<String> = Vec::new();
        let mut i: usize = 0;
        assert(out.deep_view() =~= children(disk.take(0), dir@));
        while i < self.entries.len()
            invariant
                i <= self.entries.len(),
                disk == self.deep_view(),
                wanted@ == strip_trailing(dir@),
                out.deep_view() == children(disk.take(i as int), dir@),
            decreases self.entries.len() - i,
        {
            let ghost before = out.deep_view();
            assert(disk.take(i + 1).drop_last() == disk.take(i as int));
            assert(disk.take(i + 1).last() == self.entries[i as int].deep_view());
            let up = parent_of(self.entries[i].path.as_str());
            let inside = match &up {
                Some(p) => same_str(p.as_str(), wanted.as_str()),
                None => false,
            };
            if inside {
                out.push(self.entries[i].path.clone());
                assert(out.deep_view() =~= before.push(self.entries[i as int].path@));
            }
            i = i + 1;
        }
        assert(disk.take(disk.len() as int) == disk);
        Some(out)
    }
}

} // verus!

//! The image index: which pictures the site can show, as paths below the
//! web root.

use vstd::prelude::*;
use crate::text::{from_chars, matches_at, occurs_at, to_chars};

verus! {

/// The directory that the web root maps to. Every file the site serves
/// lies beneath it.
pub const STATIC_ROOT: &'static str = "./static/";

/// What kind of thing a directory entry is.
#[derive(Clone, Copy, Debug, PartialEq, Eq, Structural)]
pub enum EntryKind {
    /// A regular file.
    File,
    Directory,
    Symlink,
    /// Anything else: a socket, a device, a pipe.
    Other,
}

/// One entry of the image directory, as the file system reported it.
#[derive(Clone, Debug, PartialEq, Eq)]
pub struct DirEntry {
    /// Path of the entry, starting at the working directory.
    pub path: String,
    pub kind: EntryKind,
}

/// A directory entry as a mathematical value.
pub struct DirEntryView {
    pub path: Seq<char>,
    pub kind: EntryKind,
}

impl View for DirEntry {
    type V = DirEntryView;

    open spec fn view(&self) -> DirEntryView {
        DirEntryView { path: self.path@, kind: self.kind }
    }
}

impl DeepView for DirEntry {
    type V = DirEntryView;

    open spec fn deep_view(&self) -> DirEntryView {
        self@
    }
}

/// `path` lies beneath the static root.
pub open spec fn under_static_root(path: Seq<char>) -> bool {
    occurs_at(path, STATIC_ROOT@, 0)
}

/// The path by which a client asks for the file at `path`: what follows the
/// static root, with a slash in front.
pub open spec fn web_path(path: Seq<char>) -> Seq<char> {
    seq!['/'] + path.skip(STATIC_ROOT@.len() as int)
}

/// What an entry adds to the index: its web path if it is a regular file,
/// nothing otherwise.
pub open spec fn indexed(entry: DirEntryView) -> Option<Seq<char>> {
    if entry.kind == EntryKind::File {
        Some(web_path(entry.path))
    } else {
        None
    }
}

/// The index built from `entries`: the web paths of the regular files, in
/// the order of the entries.
pub open spec fn listed(entries: Seq<DirEntryView>) -> Seq<Seq<char>> {
    entries.filter_map(|entry: DirEntryView| indexed(entry))
}

/// Every path of the index stands for a regular file among the entries.
pub proof fn law_index_lists_files_only(entries: Seq<DirEntryView>, path: Seq<char>)
    requires
        listed(entries).contains(path),
    ensures
        exists|i: int|
            0 <= i < entries.len() && (#[trigger] entries[i]).kind == EntryKind::File && path
                == web_path(entries[i].path),
{
    let f = |entry: DirEntryView| indexed(entry);
    entries.lemma_filter_map_contains(f, path);
    let entry = choose|entry: DirEntryView| #[trigger]
        entries.contains(entry) && f(entry) == Some(path);
    let i = choose|i: int| 0 <= i < entries.len() && entries[i] == entry;
    assert(entries[i].kind == EntryKind::File);
}

/// The web path of the file at `path`.
pub fn to_web_path(path: &str) -> (web: String)
    requires
        under_static_root(path@),
    ensures
        web@ == web_path(path@),
{
    let chars = to_chars(path);
    let root = to_chars(STATIC_ROOT);
    let mut out: Vec<char> = Vec::new();
    out.push('/');
    let mut i: usize = root.len();
    while i < chars.len()
        invariant
            root.len() <= i <= chars.len(),
            out@ == seq!['/'] + chars@.subrange(root.len() as int, i as int),
        decreases chars.len() - i,
    {
        out.push(chars[i]);
        i += 1;
    }
    assert(chars@.subrange(root.len() as int, chars.len() as int) =~= chars@.skip(
        root.len() as int,
    ));
    from_chars(&out)
}

/// Whether `path` lies beneath the static root.
pub fn is_under_static_root(path: &str) -> (b: bool)
    ensures
        b == under_static_root(path@),
{
    matches_at(&to_chars(path), &to_chars(STATIC_ROOT), 0)
}

/// Builds the image index from the entries of the image directory: every
/// regular file is listed by its web path, everything else is skipped.
pub fn images(entries: &Vec<DirEntry>) -> (paths: Vec<String>)
    requires
        forall|i: int|
            0 <= i < entries.len() && entries[i].kind == EntryKind::File ==> under_static_root(
                #[trigger] entries[i].path@,
            ),
    ensures
        paths.deep_view() == listed(entries.deep_view()),
{
    let mut paths: Vec<String> = Vec::new();
    let mut i: usize = 0;
    while i < entries.len()
        invariant
            i <= entries.len(),
            forall|k: int|
                0 <= k < entries.len() && entries[k].kind == EntryKind::File
                    ==> under_static_root(#[trigger] entries[k].path@),
            paths.deep_view() == listed(entries.deep_view().take(i as int)),
        decreases entries.len() - i,
    {
        let entry = &entries[i];
        let ghost before = paths.deep_view();
        proof {
            entries.deep_view().lemma_filter_map_take_succ(
                |entry: DirEntryView| indexed(entry),
                i as int,
            );
            assert(entries.deep_view()[i as int] == entry@);
        }
        match entry.kind {
            EntryKind::File => {
                let web = to_web_path(entry.path.as_str());
                paths.push(web);
                assert(paths.deep_view() =~= before + seq![web_path(entry.path@)]);
            },
            _ => {},
        }
        i += 1;
    }
    assert(entries.deep_view().take(entries.len() as int) =~= entries.deep_view());
    paths
}

} // verus!

//! The item model: one browsable entry and the rules that say what its
//! children are.
//!
//! An entry is a directory, a regular file, a symlink classified by its
//! target's kind, a path of unknown kind, one line of a previewed file, the
//! live search-box text, or the `Empty` placeholder that stands in for
//! "nothing here".  Materializing an entry's children needs the filesystem;
//! [`child_source`] says what has to be read, and [`make_items`] /
//! [`items_from_lines`] turn what was read into records.

use vstd::prelude::*;

use crate::paths::file_name_of;
use crate::paths::file_name_str;

verus! {

/// A symlink, classified by what its target resolved to.
#[derive(Debug, PartialEq, Eq)]
pub enum ItemSymlink {
    Dir(String),
    File(String),
}

impl Clone for ItemSymlink {
    fn clone(&self) -> (r: Self)
        ensures
            r == *self,
    {
        match self {
            ItemSymlink::Dir(p) => ItemSymlink::Dir(p.clone()),
            ItemSymlink::File(p) => ItemSymlink::File(p.clone()),
        }
    }
}

impl ItemSymlink {
    pub open spec fn spec_path(&self) -> Seq<char> {
        match self {
            ItemSymlink::Dir(p) => p@,
            ItemSymlink::File(p) => p@,
        }
    }

    pub fn get_path(&self) -> (r: String)
        ensures
            r@ == self.spec_path(),
    {
        match self {
            ItemSymlink::Dir(p) => p.clone(),
            ItemSymlink::File(p) => p.clone(),
        }
    }
}

/// A path-bearing entry: the four kinds a directory listing distinguishes.
#[derive(Debug, PartialEq, Eq)]
pub enum ItemPath {
    Dir(String),
    File(String),
    Symlink(ItemSymlink),
    Unknown(String),
}

impl Clone for ItemPath {
    fn clone(&self) -> (r: Self)
        ensures
            r == *self,
    {
        match self {
            ItemPath::Dir(p) => ItemPath::Dir(p.clone()),
            ItemPath::File(p) => ItemPath::File(p.clone()),
            ItemPath::Symlink(s) => ItemPath::Symlink(s.clone()),
            ItemPath::Unknown(p) => ItemPath::Unknown(p.clone()),
        }
    }
}

impl ItemPath {
    pub open spec fn spec_path(&self) -> Seq<char> {
        match self {
            ItemPath::Dir(p) => p@,
            ItemPath::File(p) => p@,
            ItemPath::Symlink(s) => s.spec_path(),
            ItemPath::Unknown(p) => p@,
        }
    }

    pub open spec fn spec_is_dir(&self) -> bool {
        self is Dir || (self matches ItemPath::Symlink(ItemSymlink::Dir(_)))
    }

    pub open spec fn spec_is_file(&self) -> bool {
        self is File || (self matches ItemPath::Symlink(ItemSymlink::File(_)))
    }

    pub fn get_path(&self) -> (r: String)
        ensures
            r@ == self.spec_path(),
    {
        match self {
            ItemPath::Dir(p) => p.clone(),
            ItemPath::File(p) => p.clone(),
            ItemPath::Symlink(s) => s.get_path(),
            ItemPath::Unknown(p) => p.clone(),
        }
    }

    pub fn is_dir(&self) -> (r: bool)
        ensures
            r == self.spec_is_dir(),
    {
        matches!(self, ItemPath::Dir(_) | ItemPath::Symlink(ItemSymlink::Dir(_)))
    }

    pub fn is_file(&self) -> (r: bool)
        ensures
            r == self.spec_is_file(),
    {
        matches!(self, ItemPath::File(_) | ItemPath::Symlink(ItemSymlink::File(_)))
    }
}

/// One browsable entry.
#[derive(Debug, PartialEq, Eq)]
pub enum Item {
    /// An entry that names a path on disk.
    Path(ItemPath),
    /// One line of a file browsed in content-view mode.
    Content(String),
    /// The live search-box text, rendered as a pseudo-entry.
    Search(String),
    /// Placeholder for "nothing here": an unreadable or empty directory, or a
    /// working path that has no children.
    Empty,
}

impl Clone for Item {
    fn clone(&self) -> (r: Self)
        ensures
            r == *self,
    {
        match self {
            Item::Path(p) => Item::Path(p.clone()),
            Item::Content(s) => Item::Content(s.clone()),
            Item::Search(s) => Item::Search(s.clone()),
            Item::Empty => Item::Empty,
        }
    }
}

impl Item {
    pub open spec fn spec_is_dir(&self) -> bool {
        match self {
            Item::Path(p) => p.spec_is_dir(),
            _ => false,
        }
    }

    pub open spec fn spec_is_file(&self) -> bool {
        match self {
            Item::Path(p) => p.spec_is_file(),
            _ => false,
        }
    }

    /// The placeholder entry.
    pub fn new() -> (r: Self)
        ensures
            r == Item::Empty,
    {
        Item::Empty
    }

    pub fn create_dir(path: &str) -> (r: Self)
        ensures
            r matches Item::Path(ItemPath::Dir(p)) && p@ == path@,
    {
        Item::Path(ItemPath::Dir(path.to_owned()))
    }

    pub fn is_dir(&self) -> (r: bool)
        ensures
            r == self.spec_is_dir(),
    {
        if let Item::Path(path) = self {
            path.is_dir()
        } else {
            false
        }
    }

    pub fn is_file(&self) -> (r: bool)
        ensures
            r == self.spec_is_file(),
    {
        if let Item::Path(path) = self {
            path.is_file()
        } else {
            false
        }
    }
}

/// One record of a pane: an entry plus the optional back-reference into the
/// unfiltered list it was derived from.  `index` is `Some` exactly for
/// records produced by text-line enumeration or by search filtering.
#[derive(Debug, PartialEq, Eq)]
pub struct ItemInfo {
    pub item: Item,
    pub index: Option<usize>,
}

impl Clone for ItemInfo {
    fn clone(&self) -> (r: Self)
        ensures
            r == *self,
    {
        ItemInfo { item: self.item.clone(), index: self.index }
    }
}

impl ItemInfo {
    /// The placeholder record.
    pub open spec fn spec_default() -> ItemInfo {
        ItemInfo { item: Item::Empty, index: None }
    }

    pub open spec fn spec_path_opt(&self) -> Option<Seq<char>> {
        match self.item {
            Item::Path(p) => Some(p.spec_path()),
            _ => None,
        }
    }

    pub open spec fn spec_is_dir(&self) -> bool {
        self.item.spec_is_dir()
    }

    pub open spec fn spec_is_file(&self) -> bool {
        self.item.spec_is_file()
    }

    pub open spec fn spec_is_symlink(&self) -> bool {
        self.item matches Item::Path(ItemPath::Symlink(_))
    }

    pub fn default() -> (r: Self)
        ensures
            r == Self::spec_default(),
    {
        Self { item: Item::new(), index: None }
    }

    pub fn get_path(&self) -> (r: Option<String>)
        ensures
            match r {
                Some(p) => self.spec_path_opt() == Some(p@),
                None => self.spec_path_opt() is None,
            },
    {
        if let Item::Path(path) = &self.item {
            Some(path.get_path())
        } else {
            None
        }
    }

    /// The file name of the record's path, when it has one.
    pub fn generate_filename(&self) -> (r: Option<String>)
        ensures
            match self.spec_path_opt() {
                Some(p) => match r {
                    Some(n) => file_name_of(p) == Some(n@),
                    None => file_name_of(p) is None,
                },
                None => r is None,
            },
    {
        match self.get_path() {
            Some(p) => file_name_str(p.as_str()),
            None => None,
        }
    }

    /// Whether content preview could read this entry: it must be a regular
    /// file (or a symlink to one).
    pub fn can_read(&self) -> (r: bool)
        ensures
            r == self.spec_is_file(),
    {
        if let Item::Path(path) = &self.item {
            path.is_file()
        } else {
            false
        }
    }

    pub fn is_dir(&self) -> (r: bool)
        ensures
            r == self.spec_is_dir(),
    {
        self.item.is_dir()
    }

    pub fn is_file(&self) -> (r: bool)
        ensures
            r == self.spec_is_file(),
    {
        self.item.is_file()
    }

    pub fn is_symlink(&self) -> (r: bool)
        ensures
            r == self.spec_is_symlink(),
    {
        matches!(self.item, Item::Path(ItemPath::Symlink(_)))
    }
}

/// What a raw directory entry was found to be, as plain data; the caller
/// reads the metadata, [`classify_path`] turns it into an entry.
#[derive(Debug, Clone, Copy, PartialEq, Eq, Structural)]
pub enum PathKind {
    Dir,
    File,
    SymlinkDir,
    SymlinkFile,
    Unknown,
}

/// One raw directory entry: its path text and its classified kind.
#[derive(Debug)]
pub struct RawEntry {
    pub path: String,
    pub kind: PathKind,
}

impl Clone for RawEntry {
    fn clone(&self) -> (r: Self)
        ensures
            r == *self,
    {
        RawEntry { path: self.path.clone(), kind: self.kind }
    }
}

/// The record a raw directory entry becomes.
pub open spec fn spec_classify(entry: RawEntry) -> ItemInfo {
    ItemInfo {
        item: match entry.kind {
            PathKind::Dir => Item::Path(ItemPath::Dir(entry.path)),
            PathKind::File => Item::Path(ItemPath::File(entry.path)),
            PathKind::SymlinkDir => Item::Path(ItemPath::Symlink(ItemSymlink::Dir(entry.path))),
            PathKind::SymlinkFile => Item::Path(ItemPath::Symlink(ItemSymlink::File(entry.path))),
            PathKind::Unknown => Item::Path(ItemPath::Unknown(entry.path)),
        },
        index: None,
    }
}

/// Classifies one raw directory entry.
pub fn classify_path(entry: RawEntry) -> (r: ItemInfo)
    ensures
        r == spec_classify(entry),
{
    let item = match entry.kind {
        PathKind::Dir => Item::Path(ItemPath::Dir(entry.path)),
        PathKind::File => Item::Path(ItemPath::File(entry.path)),
        PathKind::SymlinkDir => Item::Path(ItemPath::Symlink(ItemSymlink::Dir(entry.path))),
        PathKind::SymlinkFile => Item::Path(ItemPath::Symlink(ItemSymlink::File(entry.path))),
        PathKind::Unknown => Item::Path(ItemPath::Unknown(entry.path)),
    };
    ItemInfo { item, index: None }
}

/// An empty listing, normalized: the single placeholder record takes its
/// place.
pub open spec fn normalize_items(items: Seq<ItemInfo>) -> Seq<ItemInfo> {
    if items.len() == 0 {
        seq![ItemInfo::spec_default()]
    } else {
        items
    }
}

/// Substitutes the placeholder for an empty listing: panes built from a
/// directory listing are never truly empty.
pub fn make_items(items: Vec<ItemInfo>) -> (r: Vec<ItemInfo>)
    ensures
        r@ == normalize_items(items@),
        r@.len() > 0,
{
    if items.len() == 0 {
        let mut v: Vec<ItemInfo> = Vec::new();
        v.push(ItemInfo::default());
        proof {
            assert(v@ =~= normalize_items(items@));
        }
        v
    } else {
        items
    }
}

/// One record per line of a previewed file, each carrying its line number.
pub fn items_from_lines(lines: Vec<String>) -> (r: Vec<ItemInfo>)
    ensures
        r@.len() == lines@.len(),
        forall|i: int|
            0 <= i < lines@.len() ==> #[trigger] r@[i] == (ItemInfo {
                item: Item::Content(lines@[i]),
                index: Some(i as usize),
            }),
{
    let mut r: Vec<ItemInfo> = Vec::new();
    let mut i: usize = 0;
    while i < lines.len()
        invariant
            i <= lines@.len(),
            r@.len() == i,
            forall|j: int|
                0 <= j < i ==> #[trigger] r@[j] == (ItemInfo {
                    item: Item::Content(lines@[j]),
                    index: Some(j as usize),
                }),
        decreases lines@.len() - i,
    {
        let line = lines[i].clone();
        r.push(ItemInfo { item: Item::Content(line), index: Some(i) });
        i = i + 1;
    }
    r
}

/// What has to be read from the filesystem to materialize an entry's
/// children.
#[derive(Debug, PartialEq, Eq)]
pub enum ChildSource {
    /// List this directory.
    ListDir(String),
    /// Read this file's lines.
    ReadFile(String),
    /// Resolve this symlink one level, then ask [`source_for_path`] again
    /// with the target's classification.
    ResolveLink(String),
    /// Nothing to read: the children are the single placeholder record.
    Placeholder,
}

/// `r` is what materializing the children of `item` needs from the
/// filesystem: a symlink is resolved first, a directory is listed, a regular
/// file is read as lines when content preview is enabled, anything else
/// degrades to the placeholder.
pub open spec fn source_matches(r: ChildSource, item: ItemInfo, view_file_contents: bool) -> bool {
    match item.item {
        Item::Path(ItemPath::Symlink(s)) => r matches ChildSource::ResolveLink(p) && p@
            == s.spec_path(),
        Item::Path(ItemPath::Dir(d)) => r matches ChildSource::ListDir(p) && p@ == d@,
        Item::Path(ItemPath::File(f)) => if view_file_contents {
            r matches ChildSource::ReadFile(p) && p@ == f@
        } else {
            r == ChildSource::Placeholder
        },
        _ => r == ChildSource::Placeholder,
    }
}

/// Decides what materializing the children of `item` has to read.
pub fn child_source(item: &ItemInfo, view_file_contents: bool) -> (r: ChildSource)
    ensures
        source_matches(r, *item, view_file_contents),
{
    match &item.item {
        Item::Path(ItemPath::Symlink(s)) => ChildSource::ResolveLink(s.get_path()),
        Item::Path(ItemPath::Dir(p)) => ChildSource::ListDir(p.clone()),
        Item::Path(ItemPath::File(p)) => {
            if view_file_contents {
                ChildSource::ReadFile(p.clone())
            } else {
                ChildSource::Placeholder
            }
        },
        _ => ChildSource::Placeholder,
    }
}

/// Decides what to read for a resolved symlink target, classified by the
/// caller: a directory is listed, a file is read as lines when content
/// preview is enabled, anything else degrades to the placeholder.
pub fn source_for_path(path: String, kind: PathKind, view_file_contents: bool) -> (r: ChildSource)
    ensures
        kind == PathKind::Dir || kind == PathKind::SymlinkDir ==> r == ChildSource::ListDir(path),
        (kind == PathKind::File || kind == PathKind::SymlinkFile) && view_file_contents ==> r
            == ChildSource::ReadFile(path),
        (kind == PathKind::File || kind == PathKind::SymlinkFile) && !view_file_contents ==> r
            == ChildSource::Placeholder,
        kind == PathKind::Unknown ==> r == ChildSource::Placeholder,
{
    match kind {
        PathKind::Dir | PathKind::SymlinkDir => ChildSource::ListDir(path),
        PathKind::File | PathKind::SymlinkFile => {
            if view_file_contents {
                ChildSource::ReadFile(path)
            } else {
                ChildSource::Placeholder
            }
        },
        PathKind::Unknown => ChildSource::Placeholder,
    }
}

} // verus!

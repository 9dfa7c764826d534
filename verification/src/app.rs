//! The navigation state machine.
//!
//! Four panes (two ancestor levels, the current listing, the descendant
//! preview), the working-directory path, and the search overlay.  Every
//! transition is a pure function of the state before it: the `spec_*`
//! functions here say exactly what each operation does, and the executable
//! methods are proved to realize them.
//!
//! Filesystem reads stay with the caller.  Cursor movement and descending
//! need no fresh data; after any transition the caller re-materializes the
//! descendant preview by fetching what [`App::preview_source`] names and
//! handing it to [`App::update_child_items`].  Ascending takes the freshly
//! listed grandparent directory as an argument, at the path
//! [`App::ascend_listing_path`] names.

use vstd::prelude::*;

use crate::config::Config;
use crate::error::AppError;
use crate::error::FileSystemError;
use crate::error::UiError;
use crate::item::ChildSource;
use crate::item::Item;
use crate::item::ItemInfo;
use crate::item::child_source;
use crate::item::make_items;
use crate::item::normalize_items;
use crate::pane::PaneV;
use crate::pane::StatefulList;
use crate::paths::contains_seq;
use crate::paths::file_name_of;
use crate::paths::file_name_str;
use crate::paths::generate_parent_path;
use crate::paths::parent_of;
use crate::paths::parent_or_empty_of;
use crate::paths::parent_str;
use crate::paths::str_contains;

verus! {

/// Whether keystrokes act on the current listing or on the search overlay.
/// The mode is derived from the query text, never stored.
#[derive(Debug, Clone, Copy, PartialEq, Eq, Structural)]
pub enum AppMode {
    Normal,
    Search,
}

/// How a session ends: adopt the final working directory, or keep the
/// caller's original location.
#[derive(Debug, PartialEq, Eq)]
pub enum Action {
    Change(String),
    Keep(String),
}

/// The cursor jump size of one page movement.
pub const JUMP: usize = 4;

/// Abstract value of the whole navigation state.
#[verifier::ext_equal]
pub ghost struct AppV {
    /// The path the current pane lists; in content-view mode, the file whose
    /// lines it shows.
    pub wd: Seq<char>,
    /// The parent of the parent of `wd`, cached because ascending needs to
    /// look one level further up before the panes shift.
    pub grandparent_path: Seq<char>,
    pub grandparent: PaneV,
    pub parent: PaneV,
    pub current: PaneV,
    pub child: PaneV,
    pub search_text: Seq<char>,
    pub search_list: PaneV,
    pub config: Config,
}

impl AppV {
    /// Every pane's cursor is in range, and the three listing panes are
    /// never truly empty.
    pub open spec fn wf(self) -> bool {
        &&& self.grandparent.wf()
        &&& self.parent.wf()
        &&& self.current.wf()
        &&& self.child.wf()
        &&& self.search_list.wf()
        &&& self.grandparent.entries.len() > 0
        &&& self.parent.entries.len() > 0
        &&& self.current.entries.len() > 0
    }

    /// The mode, derived from the query text.
    pub open spec fn mode(self) -> AppMode {
        if self.search_text.len() == 0 {
            AppMode::Normal
        } else {
            AppMode::Search
        }
    }

    /// The list the cursor operations act on: the current pane in Normal
    /// mode, the filtered list in Search mode.
    pub open spec fn auth(self) -> PaneV {
        if self.mode() == AppMode::Normal {
            self.current
        } else {
            self.search_list
        }
    }

    /// The record under the cursor of the authoritative list.
    pub open spec fn selected_entry(self) -> ItemInfo {
        self.auth().entries[self.auth().sel_or_zero()]
    }
}

/// `v` with the authoritative cursor at `i`.
pub open spec fn spec_cursor_set(v: AppV, i: int) -> AppV {
    if v.mode() == AppMode::Normal {
        AppV { current: PaneV { entries: v.current.entries, selected: Some(i) }, ..v }
    } else {
        AppV { search_list: PaneV { entries: v.search_list.entries, selected: Some(i) }, ..v }
    }
}

/// Cyclic move forward; a no-op when the authoritative list is empty.
pub open spec fn spec_move_next(v: AppV) -> AppV {
    if v.auth().entries.len() == 0 {
        v
    } else {
        spec_cursor_set(v, v.auth().next_index())
    }
}

/// Cyclic move backward; a no-op when the authoritative list is empty.
pub open spec fn spec_move_previous(v: AppV) -> AppV {
    if v.auth().entries.len() == 0 {
        v
    } else {
        spec_cursor_set(v, v.auth().prev_index())
    }
}

/// Jump to the first record; a no-op when the authoritative list is empty.
pub open spec fn spec_move_home(v: AppV) -> AppV {
    if v.auth().entries.len() == 0 {
        v
    } else {
        spec_cursor_set(v, 0)
    }
}

/// Jump to the last record; a no-op when the authoritative list is empty.
pub open spec fn spec_move_end(v: AppV) -> AppV {
    if v.auth().entries.len() == 0 {
        v
    } else {
        spec_cursor_set(v, v.auth().entries.len() - 1)
    }
}

/// Jump four records forward, clamped to the last index rather than
/// wrapping; a no-op when the authoritative list is empty.
pub open spec fn spec_move_page_down(v: AppV) -> AppV {
    if v.auth().entries.len() == 0 {
        v
    } else {
        let last = v.auth().entries.len() - 1;
        let old_i = v.auth().sel_or_zero();
        spec_cursor_set(
            v,
            if old_i + JUMP <= last {
                old_i + JUMP
            } else {
                last
            },
        )
    }
}

/// Jump four records backward, clamped to index zero; a no-op when the
/// authoritative list is empty.
pub open spec fn spec_move_page_up(v: AppV) -> AppV {
    if v.auth().entries.len() == 0 {
        v
    } else {
        let old_i = v.auth().sel_or_zero();
        spec_cursor_set(
            v,
            if old_i < JUMP {
                0
            } else {
                old_i - JUMP
            },
        )
    }
}

/// The rebuilt descendant preview: empty when the authoritative list is
/// empty; otherwise the given records, keeping the previous preview cursor
/// where it still points into them, and no cursor at all when the selected
/// entry is a regular file.
pub open spec fn spec_update_child(v: AppV, given: Seq<ItemInfo>) -> AppV {
    if v.auth().entries.len() == 0 {
        AppV { child: PaneV::empty(), ..v }
    } else {
        let kept = PaneV::clamp(given, v.child.selected);
        let sel = if v.selected_entry().spec_is_file() {
            None
        } else {
            kept
        };
        AppV { child: PaneV { entries: given, selected: sel }, ..v }
    }
}

/// The navigation state: four panes, the working-directory path, the cached
/// grandparent path, the search overlay, and the configuration.
pub struct App {
    child_items: StatefulList,
    items: StatefulList,
    parent_items: StatefulList,
    grandparent_items: StatefulList,
    wd: String,
    grandparent_path: String,
    search_text: String,
    search_list: StatefulList,
    config: Config,
}

impl View for App {
    type V = AppV;

    closed spec fn view(&self) -> AppV {
        AppV {
            wd: self.wd@,
            grandparent_path: self.grandparent_path@,
            grandparent: self.grandparent_items@,
            parent: self.parent_items@,
            current: self.items@,
            child: self.child_items@,
            search_text: self.search_text@,
            search_list: self.search_list@,
            config: self.config,
        }
    }
}

/// Whether `items` holds a record whose path is `path`.
pub open spec fn contains_path(items: Seq<ItemInfo>, path: Seq<char>) -> bool {
    exists|i: int| 0 <= i < items.len() && (#[trigger] items[i].spec_path_opt()) == Some(path)
}

/// The position of the first record whose path is `path`, or zero when no
/// record matches: the index-recovery rule used at startup and when
/// ascending.
pub open spec fn index_of_path(items: Seq<ItemInfo>, path: Seq<char>) -> int
    decreases items.len(),
{
    if items.len() == 0 {
        0
    } else if items[0].spec_path_opt() == Some(path) {
        0
    } else if contains_path(items.drop_first(), path) {
        1 + index_of_path(items.drop_first(), path)
    } else {
        0
    }
}

proof fn lemma_index_of_path_bounds(items: Seq<ItemInfo>, path: Seq<char>)
    ensures
        0 <= index_of_path(items, path),
        items.len() > 0 ==> index_of_path(items, path) < items.len(),
        contains_path(items, path) ==> items[index_of_path(items, path)].spec_path_opt() == Some(
            path,
        ),
    decreases items.len(),
{
    if items.len() > 0 && items[0].spec_path_opt() != Some(path) {
        lemma_index_of_path_bounds(items.drop_first(), path);
        if contains_path(items, path) && !contains_path(items.drop_first(), path) {
            let w = choose|i: int|
                0 <= i < items.len() && (#[trigger] items[i].spec_path_opt()) == Some(path);
            assert(items.drop_first()[w - 1].spec_path_opt() == Some(path));
        }
    }
}

proof fn lemma_index_of_path_first(items: Seq<ItemInfo>, path: Seq<char>, i: int)
    requires
        0 <= i < items.len(),
        items[i].spec_path_opt() == Some(path),
        forall|j: int| 0 <= j < i ==> (#[trigger] items[j].spec_path_opt()) != Some(path),
    ensures
        index_of_path(items, path) == i,
    decreases items.len(),
{
    if i > 0 {
        assert(items.drop_first()[i - 1].spec_path_opt() == Some(path));
        assert forall|j: int| 0 <= j < i - 1 implies (#[trigger] items.drop_first()[
            j
        ].spec_path_opt()) != Some(path) by {
            assert(items.drop_first()[j] == items[j + 1]);
        }
        lemma_index_of_path_first(items.drop_first(), path, i - 1);
    }
}

proof fn lemma_index_of_path_missing(items: Seq<ItemInfo>, path: Seq<char>)
    requires
        !contains_path(items, path),
    ensures
        index_of_path(items, path) == 0,
{
    if items.len() > 0 {
        assert(items[0].spec_path_opt() != Some(path));
        if contains_path(items.drop_first(), path) {
            let w = choose|i: int|
                0 <= i < items.drop_first().len() && (#[trigger] items.drop_first()[
                    i
                ].spec_path_opt()) == Some(path);
            assert(items[w + 1].spec_path_opt() == Some(path));
        }
    }
}

/// The navigation state built at startup: each listing normalized, the
/// current and preview cursors unset, and the ancestor cursors recovered by
/// locating the path each pane descends toward.
pub open spec fn spec_new(
    wd: Seq<char>,
    items: Seq<ItemInfo>,
    parent_items: Seq<ItemInfo>,
    grandparent_items: Seq<ItemInfo>,
    child_items: Seq<ItemInfo>,
    config: Config,
) -> AppV {
    let parent_path = parent_or_empty_of(wd);
    let pn = normalize_items(parent_items);
    let gn = normalize_items(grandparent_items);
    AppV {
        wd: wd,
        grandparent_path: parent_or_empty_of(parent_path),
        grandparent: PaneV { entries: gn, selected: Some(index_of_path(gn, parent_path)) },
        parent: PaneV { entries: pn, selected: Some(index_of_path(pn, wd)) },
        current: PaneV { entries: normalize_items(items), selected: None },
        child: PaneV { entries: normalize_items(child_items), selected: None },
        search_text: Seq::empty(),
        search_list: PaneV::empty(),
        config: config,
    }
}

impl App {
    /// The position of the first record whose path equals `path`, or zero
    /// when none matches.
    pub fn generate_index(items: &Vec<ItemInfo>, path: &String) -> (r: usize)
        ensures
            r as int == index_of_path(items@, path@),
            items@.len() > 0 ==> (r as int) < items@.len(),
    {
        let mut i: usize = 0;
        while i < items.len()
            invariant
                i <= items@.len(),
                forall|j: int| 0 <= j < i ==> (#[trigger] items@[j].spec_path_opt()) != Some(path@),
            decreases items@.len() - i,
        {
            let matched = match items[i].get_path() {
                Some(p) => p == *path,
                None => false,
            };
            if matched {
                proof {
                    lemma_index_of_path_first(items@, path@, i as int);
                }
                return i;
            }
            i = i + 1;
        }
        proof {
            if contains_path(items@, path@) {
                let w = choose|k: int|
                    0 <= k < items@.len() && (#[trigger] items@[k].spec_path_opt()) == Some(path@);
                assert(false);
            }
            lemma_index_of_path_missing(items@, path@);
        }
        0
    }

    /// Builds the startup state from the already-read listings: the current
    /// directory's records, its parent's, its grandparent's, and the
    /// children of the entry the preview starts on.
    pub fn new(
        wd: String,
        items: Vec<ItemInfo>,
        parent_items: Vec<ItemInfo>,
        grandparent_items: Vec<ItemInfo>,
        child_items: Vec<ItemInfo>,
        config: Config,
    ) -> (a: App)
        ensures
            a@ == spec_new(wd@, items@, parent_items@, grandparent_items@, child_items@, config),
            a@.wf(),
    {
        let items = make_items(items);
        let parent_items = make_items(parent_items);
        let grandparent_items = make_items(grandparent_items);
        let child_items = make_items(child_items);
        let parent_path = generate_parent_path(wd.as_str());
        let grandparent_path = generate_parent_path(parent_path.as_str());
        let pi = Self::generate_index(&parent_items, &wd);
        let gi = Self::generate_index(&grandparent_items, &parent_path);
        let a = App {
            child_items: StatefulList::with_items(child_items),
            items: StatefulList::with_items(items),
            parent_items: StatefulList::with_items_select(parent_items, pi),
            grandparent_items: StatefulList::with_items_select(grandparent_items, gi),
            wd,
            grandparent_path,
            search_text: String::new(),
            search_list: StatefulList::with_items(Vec::new()),
            config,
        };
        proof {
            assert(a@.search_list =~= PaneV::empty());
            assert(a@ =~= spec_new(
                a.wd@,
                items@,
                parent_items@,
                grandparent_items@,
                child_items@,
                config,
            ));
        }
        a
    }

    /// The mode, derived from the query text: Normal exactly when the query
    /// is empty.
    pub fn judge_mode(&self) -> (r: AppMode)
        ensures
            r == self@.mode(),
    {
        if self.search_text.as_str().is_empty() {
            AppMode::Normal
        } else {
            AppMode::Search
        }
    }

    fn is_empty_in_working_block(&self) -> (r: bool)
        ensures
            r == (self@.auth().entries.len() == 0),
    {
        match self.judge_mode() {
            AppMode::Normal => self.items.is_empty(),
            AppMode::Search => self.search_list.is_empty(),
        }
    }

    /// The working-directory path, for rendering.
    pub fn generate_wd_str(&self) -> (r: String)
        ensures
            r@ == self@.wd,
    {
        self.wd.clone()
    }

    /// The records of the current pane.
    pub fn get_items(&self) -> (r: Vec<ItemInfo>)
        ensures
            r@ == self@.current.entries,
    {
        self.items.clone_items()
    }

    /// The records of the first ancestor pane.
    pub fn get_parent_items(&self) -> (r: Vec<ItemInfo>)
        ensures
            r@ == self@.parent.entries,
    {
        self.parent_items.clone_items()
    }

    /// The records of the second ancestor pane.
    pub fn get_grandparent_items(&self) -> (r: Vec<ItemInfo>)
        ensures
            r@ == self@.grandparent.entries,
    {
        self.grandparent_items.clone_items()
    }

    /// The records of the descendant preview pane.
    pub fn get_child_items(&self) -> (r: Vec<ItemInfo>)
        ensures
            r@ == self@.child.entries,
    {
        self.child_items.clone_items()
    }

    /// The records of the search overlay's filtered list.
    pub fn get_search_list(&self) -> (r: Vec<ItemInfo>)
        ensures
            r@ == self@.search_list.entries,
    {
        self.search_list.clone_items()
    }

    /// The live query text.
    pub fn get_search_text(&self) -> (r: String)
        ensures
            r@ == self@.search_text,
    {
        self.search_text.clone()
    }

    pub fn get_current_selection(&self) -> (r: Option<usize>)
        ensures
            self@.current.selected == match r {
                Some(i) => Some(i as int),
                None => None::<int>,
            },
    {
        self.items.selected_opt()
    }

    pub fn get_parent_selection(&self) -> (r: Option<usize>)
        ensures
            self@.parent.selected == match r {
                Some(i) => Some(i as int),
                None => None::<int>,
            },
    {
        self.parent_items.selected_opt()
    }

    pub fn get_grandparent_selection(&self) -> (r: Option<usize>)
        ensures
            self@.grandparent.selected == match r {
                Some(i) => Some(i as int),
                None => None::<int>,
            },
    {
        self.grandparent_items.selected_opt()
    }

    pub fn get_child_selection(&self) -> (r: Option<usize>)
        ensures
            self@.child.selected == match r {
                Some(i) => Some(i as int),
                None => None::<int>,
            },
    {
        self.child_items.selected_opt()
    }

    pub fn get_search_selection(&self) -> (r: Option<usize>)
        ensures
            self@.search_list.selected == match r {
                Some(i) => Some(i as int),
                None => None::<int>,
            },
    {
        self.search_list.selected_opt()
    }

    pub fn get_config(&self) -> (r: Config)
        ensures
            r == self@.config,
    {
        self.config
    }

    /// The record under the authoritative cursor, or an `InvalidSelection`
    /// error when the list cannot supply one.
    fn get_selected_item(&self) -> (r: Result<ItemInfo, AppError>)
        requires
            self@.wf(),
        ensures
            match r {
                Ok(it) => self@.auth().entries.len() > 0 && it == self@.selected_entry(),
                Err(e) => self@.auth().entries.len() == 0 && (e matches AppError::Ui(
                    UiError::InvalidSelection(i),
                ) && i == 0),
            },
    {
        match self.judge_mode() {
            AppMode::Normal => {
                let index = self.items.selected();
                Ok(self.items.entry_at(index).clone())
            },
            AppMode::Search => {
                if self.search_list.is_empty() {
                    let index = self.search_list.selected();
                    Err(AppError::Ui(UiError::InvalidSelection(index)))
                } else {
                    let index = self.search_list.selected();
                    Ok(self.search_list.entry_at(index).clone())
                }
            },
        }
    }

    /// The path of the record under the authoritative cursor.  Fails with
    /// `InvalidSelection` when the list is empty and with `InvalidPath` when
    /// the selected record carries no path.
    pub fn get_selected_filepath(&self) -> (r: Result<String, AppError>)
        requires
            self@.wf(),
        ensures
            match r {
                Ok(p) => self@.auth().entries.len() > 0 && self@.selected_entry().spec_path_opt()
                    == Some(p@),
                Err(e) => (self@.auth().entries.len() == 0 && (e matches AppError::Ui(
                    UiError::InvalidSelection(i),
                ) && i == 0)) || (self@.auth().entries.len() > 0
                    && self@.selected_entry().spec_path_opt() is None && (e
                    matches AppError::FileSystem(FileSystemError::InvalidPath(m)) && m@
                    == "Selected item has no valid path"@)),
            },
    {
        let item = match self.get_selected_item() {
            Ok(it) => it,
            Err(e) => {
                return Err(e);
            },
        };
        match item.get_path() {
            Some(p) => Ok(p),
            None => Err(
                AppError::FileSystem(
                    FileSystemError::InvalidPath("Selected item has no valid path".to_owned()),
                ),
            ),
        }
    }

    /// Whether the current pane shows a file's lines: the first ancestor
    /// pane's selected record is a regular file.
    fn is_contents_in_working_block(&self) -> (r: bool)
        requires
            self@.wf(),
        ensures
            r == self@.parent.entries[self@.parent.sel_or_zero()].spec_is_file(),
    {
        let i = self.parent_items.selected();
        self.parent_items.entry_at(i).is_file()
    }

    /// Cyclic cursor move forward, of whichever list is authoritative.
    pub fn move_next(&mut self)
        requires
            old(self)@.wf(),
        ensures
            final(self)@ == spec_move_next(old(self)@),
            final(self)@.wf(),
    {
        if self.is_empty_in_working_block() {
            return ;
        }
        match self.judge_mode() {
            AppMode::Normal => {
                self.items.next();
            },
            AppMode::Search => {
                self.search_list.next();
            },
        }
        proof {
            assert(self@ =~= spec_move_next(old(self)@));
        }
    }

    /// Cyclic cursor move backward, of whichever list is authoritative.
    pub fn move_previous(&mut self)
        requires
            old(self)@.wf(),
        ensures
            final(self)@ == spec_move_previous(old(self)@),
            final(self)@.wf(),
    {
        if self.is_empty_in_working_block() {
            return ;
        }
        match self.judge_mode() {
            AppMode::Normal => {
                self.items.previous();
            },
            AppMode::Search => {
                self.search_list.previous();
            },
        }
        proof {
            assert(self@ =~= spec_move_previous(old(self)@));
        }
    }

    /// Cursor to the first record.
    pub fn move_home(&mut self)
        requires
            old(self)@.wf(),
        ensures
            final(self)@ == spec_move_home(old(self)@),
            final(self)@.wf(),
    {
        if self.is_empty_in_working_block() {
            return ;
        }
        match self.judge_mode() {
            AppMode::Normal => self.items.select(0),
            AppMode::Search => self.search_list.select(0),
        }
        proof {
            assert(self@ =~= spec_move_home(old(self)@));
        }
    }

    /// Cursor to the last record.
    pub fn move_end(&mut self)
        requires
            old(self)@.wf(),
        ensures
            final(self)@ == spec_move_end(old(self)@),
            final(self)@.wf(),
    {
        if self.is_empty_in_working_block() {
            return ;
        }
        match self.judge_mode() {
            AppMode::Normal => {
                let last_i = self.items.len() - 1;
                self.items.select(last_i);
            },
            AppMode::Search => {
                let last_i = self.search_list.len() - 1;
                self.search_list.select(last_i);
            },
        }
        proof {
            assert(self@ =~= spec_move_end(old(self)@));
        }
    }

    /// Cursor four records forward, clamped to the last index.
    pub fn move_page_down(&mut self)
        requires
            old(self)@.wf(),
        ensures
            final(self)@ == spec_move_page_down(old(self)@),
            final(self)@.wf(),
    {
        if self.is_empty_in_working_block() {
            return ;
        }
        let (last_i, old_i) = match self.judge_mode() {
            AppMode::Normal => (self.items.len() - 1, self.items.selected()),
            AppMode::Search => (self.search_list.len() - 1, self.search_list.selected()),
        };
        let new_i = if last_i >= JUMP && old_i <= last_i - JUMP {
            old_i + JUMP
        } else {
            last_i
        };
        match self.judge_mode() {
            AppMode::Normal => self.items.select(new_i),
            AppMode::Search => self.search_list.select(new_i),
        }
        proof {
            assert(self@ =~= spec_move_page_down(old(self)@));
        }
    }

    /// Cursor four records backward, clamped to index zero.
    pub fn move_page_up(&mut self)
        requires
            old(self)@.wf(),
        ensures
            final(self)@ == spec_move_page_up(old(self)@),
            final(self)@.wf(),
    {
        if self.is_empty_in_working_block() {
            return ;
        }
        let old_i = match self.judge_mode() {
            AppMode::Normal => self.items.selected(),
            AppMode::Search => self.search_list.selected(),
        };
        let new_i = if old_i < JUMP {
            0
        } else {
            old_i - JUMP
        };
        match self.judge_mode() {
            AppMode::Normal => self.items.select(new_i),
            AppMode::Search => self.search_list.select(new_i),
        }
        proof {
            assert(self@ =~= spec_move_page_up(old(self)@));
        }
    }

    /// Rebuilds the descendant preview from the freshly materialized
    /// children of the selected record.
    pub fn update_child_items(&mut self, new_child: Vec<ItemInfo>)
        requires
            old(self)@.wf(),
        ensures
            final(self)@ == spec_update_child(old(self)@, new_child@),
            final(self)@.wf(),
    {
        if self.is_empty_in_working_block() {
            self.child_items = StatefulList::with_items(Vec::new());
            proof {
                assert(self@.child =~= PaneV::empty());
                assert(self@ =~= spec_update_child(old(self)@, new_child@));
            }
            return ;
        }
        let ci = self.child_items.selected_opt();
        let is_file = match self.judge_mode() {
            AppMode::Normal => {
                let index = self.items.selected();
                self.items.entry_at(index).is_file()
            },
            AppMode::Search => {
                let index = self.search_list.selected();
                self.search_list.entry_at(index).is_file()
            },
        };
        self.child_items = StatefulList::with_items_option(new_child, ci);
        if is_file {
            self.child_items.unselect();
        }
        proof {
            assert(self@ =~= spec_update_child(old(self)@, new_child@));
        }
    }

    /// What the caller must read to rebuild the descendant preview:
    /// materialization of the record under the authoritative cursor, or
    /// nothing when the authoritative list is empty.
    pub fn preview_source(&self) -> (r: ChildSource)
        requires
            self@.wf(),
        ensures
            self@.auth().entries.len() == 0 ==> r == ChildSource::Placeholder,
            self@.auth().entries.len() > 0 ==> crate::item::source_matches(
                r,
                self@.selected_entry(),
                self@.config.spec_view_file_contents(),
            ),
    {
        if self.is_empty_in_working_block() {
            return ChildSource::Placeholder;
        }
        let view_contents = self.config.is_view_file_contents();
        match self.judge_mode() {
            AppMode::Normal => {
                let index = self.items.selected();
                child_source(self.items.entry_at(index), view_contents)
            },
            AppMode::Search => {
                let index = self.search_list.selected();
                child_source(self.search_list.entry_at(index), view_contents)
            },
        }
    }
}

/// The cursor the demoted current pane hands to the new first-ancestor pane
/// on descent: the current cursor in Normal mode; in Search mode the
/// selected filtered record's back-reference, or the raw filtered cursor
/// when it carries none.
pub open spec fn spec_new_parent_sel(v: AppV) -> Option<int> {
    if v.mode() == AppMode::Normal {
        Some(v.current.sel_or_zero())
    } else {
        match v.search_list.entries[v.search_list.sel_or_zero()].index {
            Some(oi) => Some(oi as int),
            None => Some(v.search_list.sel_or_zero()),
        }
    }
}

/// Entering content view on `s`: the working path becomes the file itself,
/// the panes shift down one level, the file's lines (held by the preview)
/// become the current pane with the cursor forced to the first line, the
/// preview degrades to the placeholder, and the search overlay resets.  A
/// record without a path changes nothing.
pub open spec fn spec_move_content(v: AppV, s: ItemInfo) -> AppV {
    match s.spec_path_opt() {
        None => v,
        Some(p) => AppV {
            wd: p,
            grandparent_path: parent_or_empty_of(v.wd),
            grandparent: v.parent,
            parent: PaneV {
                entries: v.current.entries,
                selected: PaneV::clamp(v.current.entries, spec_new_parent_sel(v)),
            },
            current: PaneV { entries: normalize_items(v.child.entries), selected: Some(0) },
            child: PaneV { entries: seq![ItemInfo::spec_default()], selected: None },
            search_text: Seq::empty(),
            search_list: PaneV::empty(),
            config: v.config,
        },
    }
}

/// Descending: on a directory the panes shift down one level, the preview
/// becomes the current pane reselected at the preview cursor, and the search
/// overlay resets; on a regular file with content preview enabled, content
/// view is entered; anything else, or an empty authoritative list or empty
/// preview, changes nothing.
pub open spec fn spec_move_child(v: AppV) -> AppV {
    if v.auth().entries.len() == 0 || v.child.entries.len() == 0 {
        v
    } else {
        let s = v.selected_entry();
        if s.spec_is_dir() {
            AppV {
                wd: s.spec_path_opt().unwrap(),
                grandparent_path: parent_or_empty_of(v.wd),
                grandparent: v.parent,
                parent: PaneV {
                    entries: v.current.entries,
                    selected: PaneV::clamp(v.current.entries, spec_new_parent_sel(v)),
                },
                current: PaneV { entries: v.child.entries, selected: Some(v.child.sel_or_zero()) },
                child: PaneV::empty(),
                search_text: Seq::empty(),
                search_list: PaneV::empty(),
                config: v.config,
            }
        } else if s.spec_is_file() && v.config.spec_view_file_contents() {
            spec_move_content(v, s)
        } else {
            v
        }
    }
}

/// The cursor the demoted current pane keeps as the new preview on ascent:
/// none at all when the current pane shows file lines; otherwise the current
/// cursor in Normal mode, and in Search mode the selected filtered record's
/// back-reference (falling back to the current cursor when the filtered list
/// is empty).
pub open spec fn spec_parent_child_sel(v: AppV) -> Option<int> {
    if v.parent.entries[v.parent.sel_or_zero()].spec_is_file() {
        None
    } else if v.mode() == AppMode::Normal {
        Some(v.current.sel_or_zero())
    } else if v.search_list.entries.len() > 0 {
        match v.search_list.entries[v.search_list.sel_or_zero()].index {
            Some(oi) => Some(oi as int),
            None => None,
        }
    } else {
        Some(v.current.sel_or_zero())
    }
}

/// Ascending: a no-op at the filesystem root; otherwise the panes shift up
/// one level, the freshly listed grandparent (normalized, with its cursor
/// recovered by locating the previous grandparent path) becomes the top
/// pane, the demoted current pane becomes the preview, and the search
/// overlay resets.
pub open spec fn spec_move_parent(v: AppV, given: Seq<ItemInfo>) -> AppV {
    match parent_of(v.wd) {
        None => v,
        Some(new_wd) => {
            let gp = normalize_items(given);
            AppV {
                wd: new_wd,
                grandparent_path: parent_or_empty_of(v.grandparent_path),
                grandparent: PaneV {
                    entries: gp,
                    selected: Some(index_of_path(gp, v.grandparent_path)),
                },
                parent: v.grandparent,
                current: v.parent,
                child: PaneV {
                    entries: v.current.entries,
                    selected: PaneV::clamp(v.current.entries, spec_parent_child_sel(v)),
                },
                search_text: Seq::empty(),
                search_list: PaneV::empty(),
                config: v.config,
            }
        },
    }
}

impl App {
    /// The cursor handed to the new first-ancestor pane on descent.
    fn new_parent_sel(&self) -> (r: Option<usize>)
        requires
            self@.wf(),
            self@.auth().entries.len() > 0,
        ensures
            (match r {
                Some(i) => Some(i as int),
                None => None::<int>,
            }) == spec_new_parent_sel(self@),
    {
        match self.judge_mode() {
            AppMode::Normal => Some(self.items.selected()),
            AppMode::Search => {
                let idx = self.search_list.selected();
                match self.search_list.entry_at(idx).index {
                    Some(oi) => Some(oi),
                    None => Some(idx),
                }
            },
        }
    }

    /// Descends into the selected entry: a directory becomes the new working
    /// directory, a regular file opens in content view when the
    /// configuration allows it, anything else is a no-op.  Always succeeds.
    pub fn move_child(&mut self) -> (r: Result<(), AppError>)
        requires
            old(self)@.wf(),
        ensures
            final(self)@ == spec_move_child(old(self)@),
            final(self)@.wf(),
            r is Ok,
    {
        if self.is_empty_in_working_block() || self.child_items.is_empty() {
            return Ok(());
        }
        let selected_item = match self.get_selected_item() {
            Ok(it) => it,
            Err(_) => {
                proof {
                    assert(false);
                }
                return Ok(());
            },
        };
        if selected_item.is_dir() {
            let new_wd = match selected_item.get_path() {
                Some(p) => p,
                None => {
                    proof {
                        assert(false);
                    }
                    String::new()
                },
            };
            let new_i = self.child_items.selected();
            let new_pi = self.new_parent_sel();
            let new_gpp = generate_parent_path(self.wd.as_str());
            self.wd = new_wd;
            self.grandparent_path = new_gpp;
            self.search_text = String::new();
            self.search_list = StatefulList::with_items(Vec::new());
            let mut fresh = StatefulList::with_items(Vec::new());
            core::mem::swap(&mut self.child_items, &mut fresh);
            core::mem::swap(&mut self.items, &mut fresh);
            core::mem::swap(&mut self.parent_items, &mut fresh);
            core::mem::swap(&mut self.grandparent_items, &mut fresh);
            self.items.select(new_i);
            self.parent_items.select_opt(new_pi);
            proof {
                assert(self@.child =~= PaneV::empty());
                assert(self@.search_list =~= PaneV::empty());
                assert(self@ =~= spec_move_child(old(self)@));
            }
            Ok(())
        } else if selected_item.is_file() && self.config.is_view_file_contents() {
            let r = self.move_content(selected_item);
            proof {
                assert(self@ =~= spec_move_child(old(self)@));
            }
            r
        } else {
            proof {
                assert(self@ =~= spec_move_child(old(self)@));
            }
            Ok(())
        }
    }

    /// Enters content view on `selected_item`: the panes shift down one
    /// level and the preview's records (the file's lines) become the current
    /// pane.  Fails with `InvalidPath` exactly when the record carries no
    /// path, leaving the state unchanged.
    pub fn move_content(&mut self, selected_item: ItemInfo) -> (r: Result<(), AppError>)
        requires
            old(self)@.wf(),
            old(self)@.auth().entries.len() > 0,
        ensures
            final(self)@ == spec_move_content(old(self)@, selected_item),
            final(self)@.wf(),
            r is Ok <==> selected_item.spec_path_opt() is Some,
            r matches Err(e) ==> (e matches AppError::FileSystem(FileSystemError::InvalidPath(m))
                && m@ == "Content item has no valid path"@),
    {
        let new_pi = self.new_parent_sel();
        let new_wd = match selected_item.get_path() {
            Some(p) => p,
            None => {
                return Err(
                    AppError::FileSystem(
                        FileSystemError::InvalidPath("Content item has no valid path".to_owned()),
                    ),
                );
            },
        };
        let new_gpp = generate_parent_path(self.wd.as_str());
        self.wd = new_wd;
        self.grandparent_path = new_gpp;
        self.search_text = String::new();
        self.search_list = StatefulList::with_items(Vec::new());
        let mut placeholder: Vec<ItemInfo> = Vec::new();
        placeholder.push(ItemInfo::default());
        let mut fresh = StatefulList::with_items(placeholder);
        core::mem::swap(&mut self.child_items, &mut fresh);
        let lines = make_items(fresh.into_items());
        let mut fresh = StatefulList::with_items_select(lines, 0);
        core::mem::swap(&mut self.items, &mut fresh);
        core::mem::swap(&mut self.parent_items, &mut fresh);
        core::mem::swap(&mut self.grandparent_items, &mut fresh);
        self.parent_items.select_opt(new_pi);
        proof {
            assert(self@.child.entries =~= seq![ItemInfo::spec_default()]);
            assert(self@.search_list =~= PaneV::empty());
            assert(self@ =~= spec_move_content(old(self)@, selected_item));
        }
        Ok(())
    }

    /// The path whose listing [`App::move_parent`] will need: the parent of
    /// the cached grandparent path.  `None` exactly when the working
    /// directory has no parent, in which case ascending is a no-op.
    pub fn ascend_listing_path(&self) -> (r: Option<String>)
        ensures
            match parent_of(self@.wd) {
                None => r is None,
                Some(_) => r matches Some(p) && p@ == parent_or_empty_of(self@.grandparent_path),
            },
    {
        match parent_str(self.wd.as_str()) {
            None => None,
            Some(_) => Some(generate_parent_path(self.grandparent_path.as_str())),
        }
    }

    /// Ascends one level, taking the freshly listed grandparent directory
    /// (read at [`App::ascend_listing_path`]).  A no-op at the filesystem
    /// root.
    pub fn move_parent(&mut self, new_grandparent_items: Vec<ItemInfo>)
        requires
            old(self)@.wf(),
        ensures
            final(self)@ == spec_move_parent(old(self)@, new_grandparent_items@),
            final(self)@.wf(),
    {
        let new_wd = match parent_str(self.wd.as_str()) {
            Some(p) => p,
            None => {
                return ;
            },
        };
        let new_gpp = generate_parent_path(self.grandparent_path.as_str());
        let gp_items = make_items(new_grandparent_items);
        let new_gi = Self::generate_index(&gp_items, &self.grandparent_path);
        let new_ci: Option<usize> = if self.is_contents_in_working_block() {
            None
        } else {
            match self.judge_mode() {
                AppMode::Normal => Some(self.items.selected()),
                AppMode::Search => {
                    if self.search_list.is_empty() {
                        Some(self.items.selected())
                    } else {
                        let idx = self.search_list.selected();
                        self.search_list.entry_at(idx).index
                    }
                },
            }
        };
        self.wd = new_wd;
        self.grandparent_path = new_gpp;
        self.search_text = String::new();
        self.search_list = StatefulList::with_items(Vec::new());
        let mut fresh = StatefulList::with_items_select(gp_items, new_gi);
        core::mem::swap(&mut self.grandparent_items, &mut fresh);
        core::mem::swap(&mut self.parent_items, &mut fresh);
        core::mem::swap(&mut self.items, &mut fresh);
        core::mem::swap(&mut self.child_items, &mut fresh);
        self.child_items.select_opt(new_ci);
        proof {
            lemma_index_of_path_bounds(
                normalize_items(new_grandparent_items@),
                old(self)@.grandparent_path,
            );
            assert(self@.search_list =~= PaneV::empty());
            assert(self@ =~= spec_move_parent(old(self)@, new_grandparent_items@));
        }
    }
}

/// The search match rule: a text line matches when its content contains the
/// query; a path-bearing record matches when its file name contains the
/// query; nothing else matches.  Matching is case-sensitive.
pub open spec fn matches_query(it: ItemInfo, q: Seq<char>) -> bool {
    match it.item {
        Item::Content(s) => contains_seq(s@, q),
        Item::Path(p) => match file_name_of(p.spec_path()) {
            Some(n) => contains_seq(n, q),
            None => false,
        },
        Item::Search(_) => false,
        Item::Empty => false,
    }
}

/// The filtered list: the matching records in their original order, each
/// re-indexed with its position in the unfiltered list, so that a filtered
/// cursor can be mapped back to an absolute one.
pub open spec fn filter_indexed(entries: Seq<ItemInfo>, q: Seq<char>) -> Seq<ItemInfo>
    decreases entries.len(),
{
    if entries.len() == 0 {
        Seq::empty()
    } else {
        let prefix = filter_indexed(entries.drop_last(), q);
        let k = entries.len() - 1;
        if matches_query(entries[k], q) {
            prefix.push(ItemInfo { item: entries[k].item, index: Some(k as usize) })
        } else {
            prefix
        }
    }
}

/// Replacing the query text.  An empty text reverts to Normal mode: the
/// current cursor is restored from the selected filtered record's
/// back-reference and the overlay is cleared.  A non-empty text refilters
/// the current pane and clamps the filtered cursor into range (to the first
/// record when it was out of bounds or unset, to nothing when the filtered
/// list is empty).
pub open spec fn spec_update_search_query(v: AppV, t: Seq<char>) -> AppV {
    if t.len() == 0 {
        let restored = if v.mode() == AppMode::Search && v.search_list.entries.len() > 0 {
            match v.search_list.entries[v.search_list.sel_or_zero()].index {
                Some(oi) => PaneV::clamp(v.current.entries, Some(oi as int)),
                None => v.current.selected,
            }
        } else {
            v.current.selected
        };
        AppV {
            current: PaneV { entries: v.current.entries, selected: restored },
            search_text: Seq::empty(),
            search_list: PaneV::empty(),
            ..v
        }
    } else {
        let filtered = filter_indexed(v.current.entries, t);
        let sel = match v.search_list.selected {
            Some(i) => if 0 <= i < filtered.len() {
                Some(i)
            } else if filtered.len() > 0 {
                Some(0int)
            } else {
                None
            },
            None => if filtered.len() > 0 {
                Some(0int)
            } else {
                None
            },
        };
        AppV { search_text: t, search_list: PaneV { entries: filtered, selected: sel }, ..v }
    }
}

impl App {
    /// The current pane's records filtered by the live query, in their
    /// original order, each re-indexed with its unfiltered position.
    pub fn search_sort_to_vec(&self) -> (r: Vec<ItemInfo>)
        ensures
            r@ == filter_indexed(self@.current.entries, self@.search_text),
    {
        let ghost entries = self@.current.entries;
        let ghost q = self@.search_text;
        let mut r: Vec<ItemInfo> = Vec::new();
        let n = self.items.len();
        let mut i: usize = 0;
        proof {
            assert(entries.take(0) =~= Seq::<ItemInfo>::empty());
        }
        while i < n
            invariant
                i <= n,
                n == entries.len(),
                entries == self@.current.entries,
                q == self@.search_text,
                r@ == filter_indexed(entries.take(i as int), q),
            decreases n - i,
        {
            let it = self.items.entry_at(i);
            let matched = match &it.item {
                Item::Content(s) => str_contains(s.as_str(), self.search_text.as_str()),
                Item::Path(p) => {
                    let path = p.get_path();
                    match file_name_str(path.as_str()) {
                        Some(name) => str_contains(name.as_str(), self.search_text.as_str()),
                        None => false,
                    }
                },
                Item::Search(_) => false,
                Item::Empty => false,
            };
            proof {
                assert(matched == matches_query(entries[i as int], q));
            }
            if matched {
                r.push(ItemInfo { item: it.item.clone(), index: Some(i) });
            }
            proof {
                assert(entries.take(i + 1).drop_last() =~= entries.take(i as int));
                assert(entries.take(i + 1)[i as int] == entries[i as int]);
            }
            i = i + 1;
        }
        proof {
            assert(entries.take(n as int) =~= entries);
        }
        r
    }

    /// Replaces the query text, refiltering or reverting to Normal mode.
    /// The caller re-materializes the descendant preview afterwards.
    pub fn update_search_query(&mut self, new_text: String)
        requires
            old(self)@.wf(),
        ensures
            final(self)@ == spec_update_search_query(old(self)@, new_text@),
            final(self)@.wf(),
    {
        if new_text.as_str().is_empty() {
            let in_search = match self.judge_mode() {
                AppMode::Search => true,
                AppMode::Normal => false,
            };
            if in_search && !self.search_list.is_empty() {
                let idx = self.search_list.selected();
                match self.search_list.entry_at(idx).index {
                    Some(oi) => self.items.select_opt(Some(oi)),
                    None => {},
                }
            }
            self.search_text = String::new();
            self.search_list = StatefulList::with_items(Vec::new());
            proof {
                assert(self@.search_list =~= PaneV::empty());
                assert(self@ =~= spec_update_search_query(old(self)@, new_text@));
            }
        } else {
            self.search_text = new_text;
            let filtered = self.search_sort_to_vec();
            let old_sel = self.search_list.selected_opt();
            let has_any = filtered.len() > 0;
            let sel: Option<usize> = match old_sel {
                Some(i) => if i < filtered.len() {
                    Some(i)
                } else if has_any {
                    Some(0)
                } else {
                    None
                },
                None => if has_any {
                    Some(0)
                } else {
                    None
                },
            };
            self.search_list = StatefulList::with_items_option(filtered, sel);
            proof {
                assert(self@ =~= spec_update_search_query(old(self)@, new_text@));
            }
        }
    }

    /// Recomputes the filtered list for the query text as it stands, with
    /// the same cursor rule as [`App::update_search_query`].
    pub fn update_search_effect(&mut self)
        requires
            old(self)@.wf(),
        ensures
            final(self)@ == spec_update_search_query(old(self)@, old(self)@.search_text),
            final(self)@.wf(),
    {
        let t = self.search_text.clone();
        self.update_search_query(t);
    }
}

} // verus!

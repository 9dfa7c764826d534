//! Behaviour switches, read once at startup and immutable afterwards.

use vstd::prelude::*;

use crate::item::Item;
use crate::item::ItemInfo;

verus! {

/// The set of boolean options the navigator consumes.  Each flag is the raw
/// optional value its source held; a flag is on exactly when the value is
/// `Some(1)`.
#[derive(Debug, Clone, Copy)]
pub struct Config {
    pub _ed_pwd: Option<u8>,
    pub _ed_set_bg: Option<u8>,
    pub _ed_show_index: Option<u8>,
    pub _ed_view_file_contents: Option<u8>,
    pub _ed_log: Option<u8>,
}

impl Config {
    /// A configuration from the raw flag values.
    pub fn new(
        pwd: Option<u8>,
        set_bg: Option<u8>,
        show_index: Option<u8>,
        view_file_contents: Option<u8>,
        log: Option<u8>,
    ) -> (r: Config)
        ensures
            r._ed_pwd == pwd,
            r._ed_set_bg == set_bg,
            r._ed_show_index == show_index,
            r._ed_view_file_contents == view_file_contents,
            r._ed_log == log,
    {
        Config {
            _ed_pwd: pwd,
            _ed_set_bg: set_bg,
            _ed_show_index: show_index,
            _ed_view_file_contents: view_file_contents,
            _ed_log: log,
        }
    }

    pub open spec fn spec_view_file_contents(&self) -> bool {
        self._ed_view_file_contents == Some(1u8)
    }

    pub fn is_pwd(&self) -> (r: bool)
        ensures
            r == (self._ed_pwd == Some(1u8)),
    {
        match self._ed_pwd {
            Some(v) => v == 1,
            None => false,
        }
    }

    /// Whether line numbers are rendered: asked for, of a non-empty listing
    /// that is not the search pseudo-entry.
    pub fn is_show_index(&self, items: &Vec<ItemInfo>) -> (r: bool)
        ensures
            r == (self._ed_show_index == Some(1u8) && items@.len() > 0 && !(items@[0].item
                is Search)),
    {
        let on = match self._ed_show_index {
            Some(v) => v == 1,
            None => false,
        };
        on && items.len() > 0 && !matches!(items[0].item, Item::Search(_))
    }

    pub fn is_view_file_contents(&self) -> (r: bool)
        ensures
            r == self.spec_view_file_contents(),
    {
        match self._ed_view_file_contents {
            Some(v) => v == 1,
            None => false,
        }
    }

    pub fn is_set_bg(&self) -> (r: bool)
        ensures
            r == (self._ed_set_bg == Some(1u8)),
    {
        match self._ed_set_bg {
            Some(v) => v == 1,
            None => false,
        }
    }

    pub fn is_log(&self) -> (r: bool)
        ensures
            r == (self._ed_log == Some(1u8)),
    {
        match self._ed_log {
            Some(v) => v == 1,
            None => false,
        }
    }
}

} // verus!

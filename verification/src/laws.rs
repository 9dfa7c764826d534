//! Laws of the navigation state machine, stated over the abstract state and
//! the transition functions and proved once for every state they apply to.

use vstd::prelude::*;

use crate::app::AppMode;
use crate::app::AppV;
use crate::app::filter_indexed;
use crate::app::matches_query;
use crate::app::spec_move_child;
use crate::app::spec_move_home;
use crate::app::spec_move_parent;
use crate::app::spec_update_child;
use crate::item::ItemInfo;
use crate::paths::parent_of;

verus! {

/// The mode is consistent with the query text by construction: it is Normal
/// exactly when the query is empty, and since no transition stores a mode,
/// none can desynchronize the two.
pub proof fn lemma_mode_derived(v: AppV)
    ensures
        (v.mode() == AppMode::Normal) <==> v.search_text.len() == 0,
{
}

/// Jumping to the first record twice yields the same state as doing it
/// once.
pub proof fn lemma_move_home_idempotent(v: AppV)
    ensures
        spec_move_home(spec_move_home(v)) == spec_move_home(v),
{
    if v.auth().entries.len() > 0 {
        let v1 = spec_move_home(v);
        assert(v1.search_text == v.search_text);
        assert(v1.auth().entries == v.auth().entries);
        assert(spec_move_home(v1) =~= v1);
    }
}

/// Ascending at the filesystem root is a no-op: the state is unchanged,
/// whatever listing the caller read.
pub proof fn lemma_move_parent_at_root(v: AppV, given: Seq<ItemInfo>)
    requires
        parent_of(v.wd) is None,
    ensures
        spec_move_parent(v, given) == v,
{
}

/// Descending into a directory and immediately ascending restores the
/// working directory and the whole current pane, records and cursor alike,
/// whatever records either step materialized for the preview or for the new
/// grandparent listing.  It holds in Normal mode, for a selected directory
/// entry whose path's parent is the working directory, as every real
/// directory listing provides.
pub proof fn lemma_child_parent_round_trip(v: AppV, preview: Seq<ItemInfo>, gp_listing: Seq<
    ItemInfo,
>)
    requires
        v.wf(),
        v.mode() == AppMode::Normal,
        v.child.entries.len() > 0,
        v.current.selected is Some,
        v.selected_entry().spec_is_dir(),
        parent_of(v.selected_entry().spec_path_opt().unwrap()) == Some(v.wd),
    ensures
        ({
            let descended = spec_update_child(spec_move_child(v), preview);
            let ascended = spec_move_parent(descended, gp_listing);
            ascended.wd == v.wd && ascended.current == v.current
        }),
{
    let v1 = spec_move_child(v);
    assert(v1.parent =~= v.current);
    let descended = spec_update_child(v1, preview);
    assert(descended.parent == v1.parent);
    assert(descended.wd == v1.wd);
    let ascended = spec_move_parent(descended, gp_listing);
    assert(ascended.wd == v.wd);
    assert(ascended.current == v.current);
}

/// Search filtering preserves the original order and loses nothing it
/// should keep: every filtered record carries, as its back-reference, its
/// position in the unfiltered list; the record there matches the query and
/// has the same entry; and the back-references grow strictly from one
/// filtered record to the next.
pub proof fn lemma_filter_indexed_order(entries: Seq<ItemInfo>, q: Seq<char>)
    requires
        entries.len() <= usize::MAX,
    ensures
        forall|k: int|
            0 <= k < filter_indexed(entries, q).len() ==> {
                let rec = #[trigger] filter_indexed(entries, q)[k];
                &&& rec.index is Some
                &&& (rec.index.unwrap() as int) < entries.len()
                &&& matches_query(entries[rec.index.unwrap() as int], q)
                &&& rec.item == entries[rec.index.unwrap() as int].item
            },
        forall|k1: int, k2: int|
            0 <= k1 < k2 < filter_indexed(entries, q).len() ==> (#[trigger] filter_indexed(
                entries,
                q,
            )[k1]).index.unwrap() < (#[trigger] filter_indexed(entries, q)[k2]).index.unwrap(),
    decreases entries.len(),
{
    if entries.len() > 0 {
        let dl = entries.drop_last();
        lemma_filter_indexed_order(dl, q);
        let f = filter_indexed(entries, q);
        let fp = filter_indexed(dl, q);
        assert forall|k: int| 0 <= k < fp.len() implies f[k] == fp[k] by {}
        assert forall|k: int| 0 <= k < f.len() implies {
            let rec = #[trigger] f[k];
            &&& rec.index is Some
            &&& (rec.index.unwrap() as int) < entries.len()
            &&& matches_query(entries[rec.index.unwrap() as int], q)
            &&& rec.item == entries[rec.index.unwrap() as int].item
        } by {
            if k < fp.len() {
                let rec = fp[k];
                assert((rec.index.unwrap() as int) < dl.len());
                assert(dl[rec.index.unwrap() as int] == entries[rec.index.unwrap() as int]);
            } else {
                let n = entries.len() as int;
                assert(matches_query(entries[n - 1], q));
                assert(f[k] == ItemInfo {
                    item: entries[n - 1].item,
                    index: Some((n - 1) as usize),
                });
            }
        }
        assert forall|k1: int, k2: int| 0 <= k1 < k2 < f.len() implies (#[trigger] f[
            k1
        ]).index.unwrap() < (#[trigger] f[k2]).index.unwrap() by {
            if k2 < fp.len() {
                assert(fp[k1].index.unwrap() < fp[k2].index.unwrap());
            } else {
                let n = entries.len() as int;
                assert((fp[k1].index.unwrap() as int) < dl.len());
                assert(f[k2].index == Some((n - 1) as usize));
            }
        }
    }
}

} // verus!

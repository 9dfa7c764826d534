//! Deterministic ordering of directory listings.
//!
//! A listing is sorted by the UTF-8 bytes of each record's path, so that
//! index-based selection survives re-reads of the same directory.  The order
//! is byte-lexicographic, the same order `str` itself uses.

use vstd::prelude::*;
use vstd::string::StringSliceAdditionalSpecFns;
use vstd::utf8::encode_utf8;

use crate::item::ItemInfo;
use crate::item::RawEntry;
use crate::item::classify_path;
use crate::item::spec_classify;

verus! {

/// Byte-lexicographic strict order.
pub open spec fn lex_lt(a: Seq<u8>, b: Seq<u8>) -> bool
    decreases a.len(),
{
    if b.len() == 0 {
        false
    } else if a.len() == 0 {
        true
    } else if a[0] < b[0] {
        true
    } else if a[0] > b[0] {
        false
    } else {
        lex_lt(a.drop_first(), b.drop_first())
    }
}

/// The sort key of a record: the UTF-8 bytes of its path, or the empty key
/// for records that have no path.
pub open spec fn item_key(it: ItemInfo) -> Seq<u8> {
    match it.spec_path_opt() {
        Some(p) => encode_utf8(p),
        None => Seq::empty(),
    }
}

/// `a` comes no later than `b` in the listing order.
pub open spec fn key_leq(a: Seq<u8>, b: Seq<u8>) -> bool {
    !lex_lt(b, a)
}

/// The records stand in listing order.
pub open spec fn sorted_items(s: Seq<ItemInfo>) -> bool {
    forall|i: int, j: int|
        0 <= i < j < s.len() ==> key_leq(item_key(#[trigger] s[i]), item_key(#[trigger] s[j]))
}

proof fn lemma_lex_lt_irreflexive(a: Seq<u8>)
    ensures
        !lex_lt(a, a),
    decreases a.len(),
{
    if a.len() > 0 {
        lemma_lex_lt_irreflexive(a.drop_first());
    }
}

proof fn lemma_lex_lt_transitive(a: Seq<u8>, b: Seq<u8>, c: Seq<u8>)
    requires
        lex_lt(a, b),
        lex_lt(b, c),
    ensures
        lex_lt(a, c),
    decreases a.len(),
{
    if a.len() == 0 {
    } else {
        if a[0] == b[0] && b[0] == c[0] {
            lemma_lex_lt_transitive(a.drop_first(), b.drop_first(), c.drop_first());
        }
    }
}

proof fn lemma_eq_from_parts(a: Seq<u8>, b: Seq<u8>)
    requires
        a.len() > 0,
        b.len() > 0,
        a[0] == b[0],
        a.drop_first() == b.drop_first(),
    ensures
        a == b,
{
    assert(a.drop_first() =~= a.subrange(1, a.len() as int));
    assert(a.drop_first().len() == a.len() - 1);
    assert(b.drop_first().len() == b.len() - 1);
    assert(a.len() == b.len());
    assert forall|k: int| 0 <= k < a.len() implies a[k] == b[k] by {
        if k > 0 {
            assert(a[k] == a.drop_first()[k - 1]);
            assert(b[k] == b.drop_first()[k - 1]);
        }
    }
    assert(a =~= b);
}

proof fn lemma_lex_lt_total(a: Seq<u8>, b: Seq<u8>)
    ensures
        lex_lt(a, b) || lex_lt(b, a) || a == b,
    decreases a.len(),
{
    if a.len() == 0 && b.len() == 0 {
        assert(a =~= b);
    } else if a.len() > 0 && b.len() > 0 {
        if a[0] == b[0] {
            lemma_lex_lt_total(a.drop_first(), b.drop_first());
            if a.drop_first() == b.drop_first() {
                lemma_eq_from_parts(a, b);
            }
        }
    }
}

/// `a <= b` and `b < c` give `a < c`.
proof fn lemma_leq_then_lt(a: Seq<u8>, b: Seq<u8>, c: Seq<u8>)
    requires
        !lex_lt(b, a),
        lex_lt(b, c),
    ensures
        lex_lt(a, c),
{
    lemma_lex_lt_total(a, b);
    if lex_lt(a, b) {
        lemma_lex_lt_transitive(a, b, c);
    }
}

/// Compares two path strings in byte-lexicographic order.
fn bytes_lt(a: &str, b: &str) -> (r: bool)
    ensures
        r == lex_lt(a.spec_bytes(), b.spec_bytes()),
{
    let ab = a.as_bytes();
    let bb = b.as_bytes();
    let mut i: usize = 0;
    proof {
        assert(ab@.skip(0) =~= ab@);
        assert(bb@.skip(0) =~= bb@);
    }
    loop
        invariant
            i <= ab@.len(),
            i <= bb@.len(),
            ab@ == a.spec_bytes(),
            bb@ == b.spec_bytes(),
            lex_lt(a.spec_bytes(), b.spec_bytes()) == lex_lt(
                ab@.skip(i as int),
                bb@.skip(i as int),
            ),
        decreases ab@.len() - i,
    {
        if i == bb.len() {
            return false;
        }
        if i == ab.len() {
            return true;
        }
        let x = ab[i];
        let y = bb[i];
        if x < y {
            return true;
        }
        if x > y {
            return false;
        }
        proof {
            let sa = ab@.skip(i as int);
            let sb = bb@.skip(i as int);
            assert(sa.drop_first() =~= ab@.skip(i as int + 1));
            assert(sb.drop_first() =~= bb@.skip(i as int + 1));
            assert(sa[0] == ab@[i as int]);
            assert(sb[0] == bb@[i as int]);
        }
        i = i + 1;
    }
}

/// Compares two records in the listing order.
fn item_lt(a: &ItemInfo, b: &ItemInfo) -> (r: bool)
    ensures
        r == lex_lt(item_key(*a), item_key(*b)),
{
    let pa = a.get_path();
    let pb = b.get_path();
    match (pa, pb) {
        (Some(p), Some(q)) => {
            let ps = p.as_str();
            let qs = q.as_str();
            let r = bytes_lt(ps, qs);
            proof {
                assert(ps.spec_bytes() == encode_utf8(p@));
                assert(qs.spec_bytes() == encode_utf8(q@));
                assert(item_key(*a) == encode_utf8(p@));
                assert(item_key(*b) == encode_utf8(q@));
            }
            r
        },
        (None, Some(q)) => {
            let qs = q.as_str();
            let r = bytes_lt("", qs);
            proof {
                reveal_strlit("");
                assert(""@ =~= Seq::<char>::empty());
                assert(encode_utf8(Seq::<char>::empty()) =~= Seq::<u8>::empty());
                assert("".spec_bytes() == Seq::<u8>::empty());
                assert(item_key(*a) == Seq::<u8>::empty());
                assert(qs.spec_bytes() == encode_utf8(q@));
                assert(item_key(*b) == encode_utf8(q@));
            }
            r
        },
        (_, None) => {
            proof {
                assert(item_key(*b) == Seq::<u8>::empty());
                assert(!lex_lt(item_key(*a), Seq::<u8>::empty()));
            }
            false
        },
    }
}

/// Sorts the records into the listing order.  The result holds exactly the
/// given records.
pub fn sort_items(v: Vec<ItemInfo>) -> (r: Vec<ItemInfo>)
    ensures
        r@.len() == v@.len(),
        sorted_items(r@),
        r@.to_multiset() == v@.to_multiset(),
{
    let ghost orig = v@;
    let mut out: Vec<ItemInfo> = Vec::new();
    let mut k: usize = 0;
    proof {
        assert(out@ =~= v@.take(0));
    }
    while k < v.len()
        invariant
            k <= v@.len(),
            v@ == orig,
            out@.len() == k,
            sorted_items(out@),
            out@.to_multiset() == v@.take(k as int).to_multiset(),
        decreases v@.len() - k,
    {
        let it = v[k].clone();
        let ghost old_out = out@;
        let mut p: usize = 0;
        while p < out.len() && item_lt(&out[p], &it)
            invariant
                p <= out@.len(),
                out@ == old_out,
                forall|j: int| 0 <= j < p ==> lex_lt(item_key(#[trigger] out@[j]), item_key(it)),
            decreases out@.len() - p,
        {
            p = p + 1;
        }
        out.insert(p, it);
        proof {
            broadcast use vstd::seq_lib::group_to_multiset_ensures;

            let pi = p as int;
            assert(out@ == old_out.insert(pi, it));
            old_out.insert_ensures(pi, it);
            // The new sequence is still sorted.
            assert forall|i: int, j: int| 0 <= i < j < out@.len() implies key_leq(
                item_key(out@[i]),
                item_key(out@[j]),
            ) by {
                if j < pi {
                    assert(out@[i] == old_out[i]);
                    assert(out@[j] == old_out[j]);
                } else if i > pi {
                    assert(out@[i] == old_out[i - 1]);
                    assert(out@[j] == old_out[j - 1]);
                } else if i < pi && j == pi {
                    assert(out@[i] == old_out[i]);
                    if lex_lt(item_key(it), item_key(old_out[i])) {
                        lemma_lex_lt_transitive(item_key(it), item_key(old_out[i]), item_key(it));
                        lemma_lex_lt_irreflexive(item_key(it));
                    }
                } else if i < pi && j > pi {
                    assert(out@[i] == old_out[i]);
                    assert(out@[j] == old_out[j - 1]);
                } else if i == pi && j > pi {
                    assert(out@[j] == old_out[j - 1]);
                    if pi < old_out.len() {
                        // `it` is no later than the record it displaced, which
                        // is no later than everything after it.
                        if lex_lt(item_key(old_out[j - 1]), item_key(it)) {
                            lemma_leq_then_lt(
                                item_key(old_out[pi]),
                                item_key(old_out[j - 1]),
                                item_key(it),
                            );
                        }
                    }
                }
            }
            // The new sequence holds the old records plus `it`.
            let front = old_out.subrange(0, pi);
            let back = old_out.subrange(pi, old_out.len() as int);
            vstd::seq_lib::lemma_multiset_commutative(front.push(it), back);
            vstd::seq_lib::lemma_multiset_commutative(front, back);
            assert(front + back =~= old_out);
            assert(front.push(it).to_multiset() =~= front.to_multiset().insert(it));
            assert(front.to_multiset().insert(it).add(back.to_multiset()) =~= front.to_multiset()
                .add(back.to_multiset()).insert(it));
            assert(v@.take(k as int + 1).drop_last() =~= v@.take(k as int));
            assert(v@.take(k as int + 1).last() == v@[k as int]);
            assert(v@.take(k as int + 1) =~= v@.take(k as int).push(v@[k as int]));
        }
        k = k + 1;
    }
    proof {
        assert(v@.take(v@.len() as int) =~= v@);
    }
    out
}

/// Classifies and sorts a raw directory listing.
pub fn read_items(raw: Vec<RawEntry>) -> (r: Vec<ItemInfo>)
    ensures
        r@.len() == raw@.len(),
        sorted_items(r@),
        r@.to_multiset() == raw@.map_values(|e: RawEntry| spec_classify(e)).to_multiset(),
{
    let mut cv: Vec<ItemInfo> = Vec::new();
    let mut i: usize = 0;
    while i < raw.len()
        invariant
            i <= raw@.len(),
            cv@.len() == i,
            forall|j: int| 0 <= j < i ==> #[trigger] cv@[j] == spec_classify(raw@[j]),
        decreases raw@.len() - i,
    {
        cv.push(classify_path(raw[i].clone()));
        i = i + 1;
    }
    proof {
        assert(cv@ =~= raw@.map_values(|e: RawEntry| spec_classify(e)));
    }
    sort_items(cv)
}

} // verus!

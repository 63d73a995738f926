//! The order of a flattened value's items: they come in dictionary order of
//! their paths, so a header comes before everything under it, and everything
//! under it comes before the header's next sibling.

use crate::builder::flattened;
use crate::finalize::finalized;
use crate::layout::{lemma_fitting_length, node_index, raw_children, raw_items, walkable,
    children_walkable};
use crate::sub_index::{
    is_prefix, is_strict_prefix, lemma_sub_index_of, lemma_trim_nonzero_last, lex_less,
    lex_less_at, narrow, path_fits,
};
use crate::traced_value::{SimpleValue, ValueItem};
use crate::values::Value;
use vstd::prelude::*;

verus! {

/// The paths of `items` come in strictly rising dictionary order.
pub open spec fn rising(items: Seq<ValueItem>) -> bool {
    forall|a: int, b: int|
        0 <= a < b < items.len() ==> lex_less(
            (#[trigger] items[a]).sub_index@,
            (#[trigger] items[b]).sub_index@,
        )
}

/// Every item of `items` stands at `p` or under it.
pub open spec fn all_under(items: Seq<ValueItem>, p: Seq<u16>) -> bool {
    forall|k: int| 0 <= k < items.len() ==> is_prefix(p, (#[trigger] items[k]).sub_index@)
}

/// Every item of `items` stands under `p`, in a child of `p` with number
/// `low` or higher.
pub open spec fn all_in_children(items: Seq<ValueItem>, p: Seq<u16>, low: int) -> bool {
    forall|k: int|
        0 <= k < items.len() ==> {
            &&& is_strict_prefix(p, (#[trigger] items[k]).sub_index@)
            &&& items[k].sub_index@[p.len() as int] >= low
        }
}

/// `p` and `s` are different children of one parent.
pub open spec fn are_siblings(p: Seq<u16>, s: Seq<u16>) -> bool {
    &&& p.len() == s.len()
    &&& p.len() > 0
    &&& p.last() != s.last()
    &&& forall|i: int| 0 <= i < p.len() - 1 ==> p[i] == s[i]
}

/// Of two paths, at most one comes before the other.
pub proof fn lemma_lex_less_asymmetric(p: Seq<u16>, q: Seq<u16>)
    requires
        lex_less(p, q),
    ensures
        !lex_less(q, p),
{
    if lex_less(q, p) {
        let k1 = choose|k: int|
            0 <= k <= p.len() && k <= q.len() && (forall|i: int| 0 <= i < k ==> p[i] == q[i])
                && #[trigger] lex_less_at(p, q, k);
        let k2 = choose|k: int|
            0 <= k <= q.len() && k <= p.len() && (forall|i: int| 0 <= i < k ==> q[i] == p[i])
                && #[trigger] lex_less_at(q, p, k);
        if k1 < k2 {
            assert(q[k1] == p[k1]);
        } else if k2 < k1 {
            assert(p[k2] == q[k2]);
        }
    }
}

/// A path comes before every path it is a strict prefix of.
pub proof fn lemma_prefix_is_less(p: Seq<u16>, q: Seq<u16>)
    requires
        is_strict_prefix(p, q),
    ensures
        lex_less(p, q),
{
    assert(lex_less_at(p, q, p.len() as int));
}

/// Two rising sequences, each item of the first before each item of the
/// second, make a rising sequence together.
pub proof fn lemma_rising_concat(first: Seq<ValueItem>, second: Seq<ValueItem>)
    requires
        rising(first),
        rising(second),
        forall|a: int, b: int|
            0 <= a < first.len() && 0 <= b < second.len() ==> lex_less(
                (#[trigger] first[a]).sub_index@,
                (#[trigger] second[b]).sub_index@,
            ),
    ensures
        rising(first + second),
{
    let both = first + second;
    assert forall|a: int, b: int| 0 <= a < b < both.len() implies lex_less(
        (#[trigger] both[a]).sub_index@,
        (#[trigger] both[b]).sub_index@,
    ) by {
        if b < first.len() {
            assert(both[a] == first[a] && both[b] == first[b]);
        } else if a >= first.len() {
            assert(both[a] == second[a - first.len()] && both[b] == second[b - first.len()]);
        } else {
            assert(both[a] == first[a] && both[b] == second[b - first.len()]);
        }
    }
}

/// The path of a node whose child numbers fit is those numbers.
pub proof fn lemma_node_path(q: Seq<usize>)
    requires
        path_fits(q),
        q.len() > 0 ==> q.last() != 0,
    ensures
        node_index(q)@ == narrow(q),
        narrow(q).len() == q.len(),
        forall|i: int| 0 <= i < q.len() ==> (#[trigger] narrow(q)[i]) == q[i],
{
    lemma_fitting_length(q);
    lemma_sub_index_of(narrow(q));
    lemma_trim_nonzero_last(narrow(q));
}

/// The items of a value that stands at `q` stand at `q` or under it, and come
/// in rising order.
pub proof fn lemma_layout_order(value: Value, q: Seq<usize>)
    requires
        walkable(value, q),
        q.len() > 0 ==> q.last() != 0,
    ensures
        all_under(raw_items(value, q), narrow(q)),
        rising(raw_items(value, q)),
    decreases value, 1nat,
{
    match value {
        Value::Struct { fields, .. } => {
            assert(fields.len() == fields@.len());
            lemma_container_order(fields@, q);
        },
        Value::Vector { elements, .. } => {
            assert(elements.len() == elements@.len());
            lemma_container_order(elements@, q);
        },
        Value::ContainerRef { .. } => {},
        Value::IndexedRef { .. } => {},
        _ => {
            lemma_node_path(q);
        },
    }
}

/// As [`lemma_layout_order`], for a header at `q` followed by the items
/// of its children.
pub proof fn lemma_container_order(children: Seq<Value>, q: Seq<usize>)
    requires
        path_fits(q),
        q.len() > 0 ==> q.last() != 0,
        children.len() <= usize::MAX,
        children_walkable(children, q, 0),
    ensures
        ({
            let header = ValueItem {
                sub_index: node_index(q),
                header: true,
                value: SimpleValue::U64(children.len() as u64),
            };
            &&& all_under(seq![header] + raw_children(children, q, 0), narrow(q))
            &&& rising(seq![header] + raw_children(children, q, 0))
        }),
    decreases children, children.len() + 1,
{
    let header = ValueItem {
        sub_index: node_index(q),
        header: true,
        value: SimpleValue::U64(children.len() as u64),
    };
    let rest = raw_children(children, q, 0);
    lemma_node_path(q);
    lemma_children_order(children, q, 0);
    assert forall|a: int, b: int| 0 <= a < 1 && 0 <= b < rest.len() implies lex_less(
        (#[trigger] seq![header][a]).sub_index@,
        (#[trigger] rest[b]).sub_index@,
    ) by {
        lemma_prefix_is_less(narrow(q), rest[b].sub_index@);
    }
    lemma_rising_concat(seq![header], rest);
    let both = seq![header] + rest;
    assert forall|k: int| 0 <= k < both.len() implies is_prefix(
        narrow(q),
        (#[trigger] both[k]).sub_index@,
    ) by {
        if k > 0 {
            assert(both[k] == rest[k - 1]);
        }
    }
}

/// The items of the children from position `from` on stand in children of
/// `q` with number `from + 1` or higher, and come in rising order.
#[verifier::rlimit(40)]
pub proof fn lemma_children_order(children: Seq<Value>, q: Seq<usize>, from: nat)
    requires
        path_fits(q),
        q.len() > 0 ==> q.last() != 0,
        children.len() <= usize::MAX,
        children_walkable(children, q, from),
    ensures
        all_in_children(raw_children(children, q, from), narrow(q), from as int + 1),
        rising(raw_children(children, q, from)),
    decreases children, children.len() - from,
{
    if from < children.len() {
        let child = children[from as int];
        let child_q = q.push((from + 1) as usize);
        let block = raw_items(child, child_q);
        let rest = raw_children(children, q, from + 1);
        lemma_node_path(q);
        lemma_layout_order(child, child_q);
        lemma_children_order(children, q, from + 1);
        lemma_walkable_fits(child, child_q);
        lemma_node_path(child_q);
        let p = narrow(q);
        let cp = narrow(child_q);
        assert(cp.len() == p.len() + 1);
        assert forall|k: int| 0 <= k < block.len() implies is_strict_prefix(
            p,
            (#[trigger] block[k]).sub_index@,
        ) && block[k].sub_index@[p.len() as int] == from + 1 by {
            let x = block[k].sub_index@;
            assert(is_prefix(cp, x));
            assert forall|i: int| 0 <= i < p.len() implies p[i] == x[i] by {
                assert(cp[i] == x[i]);
                assert(cp[i] == child_q[i]);
                assert(p[i] == q[i]);
            }
            assert(cp[p.len() as int] == x[p.len() as int]);
            assert(cp[p.len() as int] == child_q[p.len() as int]);
        }
        assert forall|a: int, b: int| 0 <= a < block.len() && 0 <= b < rest.len() implies lex_less(
            (#[trigger] block[a]).sub_index@,
            (#[trigger] rest[b]).sub_index@,
        ) by {
            let x = block[a].sub_index@;
            let y = rest[b].sub_index@;
            assert(is_strict_prefix(p, x));
            assert(is_strict_prefix(p, y));
            assert(lex_less_at(x, y, p.len() as int));
        }
        lemma_rising_concat(block, rest);
        let both = block + rest;
        assert forall|k: int| 0 <= k < both.len() implies is_strict_prefix(
            p,
            (#[trigger] both[k]).sub_index@,
        ) && both[k].sub_index@[p.len() as int] >= from + 1 by {
            if k < block.len() {
                assert(both[k] == block[k]);
            } else {
                assert(both[k] == rest[k - block.len()]);
            }
        }
    }
}

/// The child numbers of a value that can be walked fit.
pub proof fn lemma_walkable_fits(value: Value, q: Seq<usize>)
    requires
        walkable(value, q),
    ensures
        path_fits(q),
{
}

/// Making headers final changes no path and no header mark.
pub proof fn lemma_finalized_paths(items: Seq<ValueItem>)
    ensures
        finalized(items).len() == items.len(),
        forall|k: int|
            0 <= k < items.len() ==> (#[trigger] finalized(items)[k]).sub_index
                == items[k].sub_index && finalized(items)[k].header == items[k].header,
{
}

/// The items of a flattened value come in strictly rising dictionary order
/// of their paths.
pub proof fn law_flattened_items_rise(value: Value)
    requires
        flattened(value) is Ok,
    ensures
        rising(flattened(value).unwrap().items),
{
    let raw = raw_items(value, Seq::empty());
    lemma_layout_order(value, Seq::empty());
    lemma_finalized_paths(raw);
    let items = finalized(raw);
    assert forall|a: int, b: int| 0 <= a < b < items.len() implies lex_less(
        (#[trigger] items[a]).sub_index@,
        (#[trigger] items[b]).sub_index@,
    ) by {
        assert(lex_less(raw[a].sub_index@, raw[b].sub_index@));
    }
}

/// In the items of a flattened value, an item whose path has a header's path
/// as a strict prefix comes after that header, and before any sibling of the
/// header that comes after the header.
#[verifier::rlimit(40)]
pub proof fn law_preorder(value: Value, h: int, x: int, s: int)
    requires
        flattened(value) is Ok,
        0 <= h < flattened(value).unwrap().items.len(),
        0 <= x < flattened(value).unwrap().items.len(),
        flattened(value).unwrap().items[h].header,
        is_strict_prefix(
            flattened(value).unwrap().items[h].sub_index@,
            flattened(value).unwrap().items[x].sub_index@,
        ),
    ensures
        h < x,
        h < s < flattened(value).unwrap().items.len() && are_siblings(
            flattened(value).unwrap().items[h].sub_index@,
            flattened(value).unwrap().items[s].sub_index@,
        ) ==> x < s,
{
    let items = flattened(value).unwrap().items;
    law_flattened_items_rise(value);
    let hp = items[h].sub_index@;
    let xp = items[x].sub_index@;
    lemma_prefix_is_less(hp, xp);
    lemma_lex_less_asymmetric(hp, xp);
    if x < h {
        assert(lex_less(items[x].sub_index@, items[h].sub_index@));
    }
    if h < s < items.len() && are_siblings(hp, items[s].sub_index@) {
        let sp = items[s].sub_index@;
        assert(lex_less(items[h].sub_index@, items[s].sub_index@));
        let k = choose|k: int|
            0 <= k <= hp.len() && k <= sp.len() && (forall|i: int| 0 <= i < k ==> hp[i] == sp[i])
                && #[trigger] lex_less_at(hp, sp, k);
        if k < hp.len() - 1 {
            assert(hp[k] == sp[k]);
        }
        assert(hp.last() < sp.last());
        assert(lex_less_at(xp, sp, hp.len() - 1));
        assert(lex_less(xp, sp));
        lemma_lex_less_asymmetric(xp, sp);
        if s < x {
            assert(lex_less(items[s].sub_index@, items[x].sub_index@));
        }
    }
}

/// In the items of a flattened value, a leaf stands alone at the root, or
/// under the header that comes first and stands at the root.
pub proof fn law_leaves_stand_under_a_header(value: Value, x: int)
    requires
        flattened(value) is Ok,
        0 <= x < flattened(value).unwrap().items.len(),
        !flattened(value).unwrap().items[x].header,
    ensures
        ({
            let items = flattened(value).unwrap().items;
            if value.is_container() {
                &&& x > 0
                &&& items[0].header
                &&& items[0].sub_index@.len() == 0
                &&& is_strict_prefix(items[0].sub_index@, items[x].sub_index@)
            } else {
                &&& items.len() == 1
                &&& items[x].sub_index@.len() == 0
            }
        }),
{
    let q = Seq::<usize>::empty();
    let raw = raw_items(value, q);
    lemma_finalized_paths(raw);
    lemma_node_path(q);
    match value {
        Value::Struct { fields, .. } => {
            assert(fields.len() == fields@.len());
            lemma_children_order(fields@, q, 0);
            let rest = raw_children(fields@, q, 0);
            if x > 0 {
                assert(raw[x] == rest[x - 1]);
            }
        },
        Value::Vector { elements, .. } => {
            assert(elements.len() == elements@.len());
            lemma_children_order(elements@, q, 0);
            let rest = raw_children(elements@, q, 0);
            if x > 0 {
                assert(raw[x] == rest[x - 1]);
            }
        },
        _ => {},
    }
}

} // verus!

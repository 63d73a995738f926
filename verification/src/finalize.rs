//! Making headers final: each header's value becomes its declared length
//! and the number of items under it.

use crate::sub_index::{is_strict_prefix, SubIndex};
use crate::traced_value::{SimpleValue, ValueItem, U256};
use vstd::prelude::*;

verus! {

/// Number of items among `items` whose path has `path` as a strict prefix.
pub open spec fn count_strictly_under(items: Seq<ValueItem>, path: Seq<u16>) -> nat
    decreases items.len(),
{
    if items.len() == 0 {
        0
    } else {
        count_strictly_under(items.drop_last(), path) + if is_strict_prefix(
            path,
            items.last().sub_index@,
        ) {
            1nat
        } else {
            0nat
        }
    }
}

/// The subtree-item count of an aggregate at `path`: for the root the number
/// of all items, for any other aggregate the number of items strictly under
/// it.
pub open spec fn subtree_count(items: Seq<ValueItem>, path: Seq<u16>) -> nat {
    if path.len() == 0 {
        items.len()
    } else {
        count_strictly_under(items, path)
    }
}

/// The item at position `i` of `items` in its final form: a header that
/// holds its declared length as a 64-bit integer gets the 256-bit value whose
/// upper half is that length and whose lower half is the subtree-item count;
/// any other item stays as it is.
pub open spec fn final_item(items: Seq<ValueItem>, i: int) -> ValueItem {
    let item = items[i];
    match item.value {
        SimpleValue::U64(len) if item.header => ValueItem {
            sub_index: item.sub_index,
            header: true,
            value: SimpleValue::U256(
                U256 { hi: len as u128, lo: subtree_count(items, item.sub_index@) as u128 },
            ),
        },
        _ => item,
    }
}

/// The items with every header made final.
pub open spec fn finalized(items: Seq<ValueItem>) -> Seq<ValueItem> {
    Seq::new(items.len(), |i: int| final_item(items, i))
}

/// The count never exceeds the number of items.
pub proof fn lemma_count_bounded(items: Seq<ValueItem>, path: Seq<u16>)
    ensures
        count_strictly_under(items, path) <= items.len(),
    decreases items.len(),
{
    if items.len() > 0 {
        lemma_count_bounded(items.drop_last(), path);
    }
}

/// Number of items strictly under `path`.
pub fn count_under(items: &Vec<ValueItem>, path: &SubIndex) -> (n: usize)
    ensures
        n == count_strictly_under(items@, path@),
{
    let mut n: usize = 0;
    let mut i: usize = 0;
    while i < items.len()
        invariant
            i <= items.len(),
            n == count_strictly_under(items@.take(i as int), path@),
            n <= i,
        decreases items.len() - i,
    {
        proof {
            assert(items@.take(i + 1).drop_last() =~= items@.take(i as int));
        }
        if items[i].sub_index.is_strictly_under(path) {
            n += 1;
        }
        i += 1;
    }
    proof {
        assert(items@.take(i as int) =~= items@);
    }
    n
}

/// Rewrites every header that holds its declared length into its final form.
pub fn add_flen(items: &mut Vec<ValueItem>)
    ensures
        final(items)@ == finalized(old(items)@),
{
    let ghost before = items@;
    let item_num = items.len();
    let mut k: usize = 0;
    while k < item_num
        invariant
            k <= item_num,
            item_num == items.len(),
            item_num == before.len(),
            forall|j: int| 0 <= j < k ==> #[trigger] items[j] == final_item(before, j),
            forall|j: int| k <= j < item_num ==> #[trigger] items[j] == before[j],
        decreases item_num - k,
    {
        let item = items[k];
        if item.header {
            match item.value {
                SimpleValue::U64(len) => {
                    let count = if item.sub_index.is_root() {
                        item_num
                    } else {
                        proof {
                            lemma_count_by_paths(items@, before, item.sub_index@);
                        }
                        count_under(items, &item.sub_index)
                    };
                    items.set(
                        k,
                        ValueItem {
                            sub_index: item.sub_index,
                            header: true,
                            value: SimpleValue::U256(U256 { hi: len as u128, lo: count as u128 }),
                        },
                    );
                },
                _ => {},
            }
        }
        k += 1;
    }
    proof {
        assert(items@ =~= finalized(before));
    }
}

/// Each header of `items` holds a 256-bit value whose lower half is the
/// subtree-item count of the header's path.
pub open spec fn counts_are_final(items: Seq<ValueItem>) -> bool {
    forall|h: int|
        0 <= h < items.len() && (#[trigger] items[h]).header ==> {
            &&& items[h].value matches SimpleValue::U256(u)
            &&& u.lo == subtree_count(items, items[h].sub_index@)
        }
}

/// Two sequences with the same paths have the same counts.
pub proof fn lemma_count_by_paths(a: Seq<ValueItem>, b: Seq<ValueItem>, path: Seq<u16>)
    requires
        a.len() == b.len(),
        forall|k: int| 0 <= k < a.len() ==> (#[trigger] a[k]).sub_index == b[k].sub_index,
    ensures
        count_strictly_under(a, path) == count_strictly_under(b, path),
        subtree_count(a, path) == subtree_count(b, path),
    decreases a.len(),
{
    if a.len() > 0 {
        assert(a.last().sub_index == b.last().sub_index);
        lemma_count_by_paths(a.drop_last(), b.drop_last(), path);
    }
}

/// After the headers are made final, a header that held its declared length
/// holds that length in the upper half of its value, and in the lower half
/// the number of items whose path has the header's path as a strict prefix;
/// for a header at the root, the number of all items.
pub proof fn law_subtree_count(items: Seq<ValueItem>, h: int)
    requires
        0 <= h < items.len() <= u128::MAX,
        items[h].header,
        items[h].value is U64,
    ensures
        finalized(items)[h].header,
        finalized(items)[h].sub_index == items[h].sub_index,
        finalized(items)[h].value matches SimpleValue::U256(u) && u.hi == items[h].value->U64_0
            && u.lo == subtree_count(finalized(items), items[h].sub_index@) && (
        items[h].sub_index@.len() == 0 ==> u.lo == finalized(items).len()) && (
        items[h].sub_index@.len() > 0 ==> u.lo == count_strictly_under(
            finalized(items),
            items[h].sub_index@,
        )),
{
    lemma_count_by_paths(finalized(items), items, items[h].sub_index@);
    lemma_count_bounded(items, items[h].sub_index@);
}

/// Where every header of `items` holds its declared length and the items
/// are not too many to count, every header of the final items holds its
/// subtree-item count.
pub proof fn lemma_counts_are_final(items: Seq<ValueItem>)
    requires
        items.len() <= u128::MAX,
        forall|k: int| 0 <= k < items.len() && (#[trigger] items[k]).header ==> items[k].value is U64,
    ensures
        counts_are_final(finalized(items)),
{
    let fin = finalized(items);
    assert forall|h: int| 0 <= h < fin.len() && (#[trigger] fin[h]).header implies {
        &&& fin[h].value matches SimpleValue::U256(u)
        &&& u.lo == subtree_count(fin, fin[h].sub_index@)
    } by {
        assert(items[h].header);
        law_subtree_count(items, h);
    }
}

} // verus!

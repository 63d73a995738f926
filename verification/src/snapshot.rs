//! Snapshots of operands: the items of one value, or of several in order.

use crate::builder::{trace, trace_plain, traced, traced_plain};
use crate::error::RecorderError;
use crate::operation::lists_view;
use crate::traced_value::{Reference, ValueItem, ValueItems};
use crate::values::Value;
use std::collections::BTreeMap;
use vstd::prelude::*;

verus! {

/// The items of `value` traced against the reverse map `reverse`.
pub open spec fn items_of(value: Value, reverse: Map<usize, Reference>) -> Result<
    Seq<ValueItem>,
    RecorderError,
> {
    match traced(value, reverse) {
        Ok(t) => Ok(t.items),
        Err(e) => Err(e),
    }
}

/// The items of the plain value `value`.
pub open spec fn plain_items_of(value: Value) -> Result<Seq<ValueItem>, RecorderError> {
    match traced_plain(value) {
        Ok(t) => Ok(t.items),
        Err(e) => Err(e),
    }
}

/// The items of each of `values`, in order; the first value that cannot be
/// traced decides the error.
pub open spec fn items_of_all(values: Seq<Value>, reverse: Map<usize, Reference>) -> Result<
    Seq<Seq<ValueItem>>,
    RecorderError,
>
    decreases values.len(),
{
    if values.len() == 0 {
        Ok(Seq::empty())
    } else {
        match items_of_all(values.drop_last(), reverse) {
            Ok(head) => match items_of(values.last(), reverse) {
                Ok(items) => Ok(head.push(items)),
                Err(e) => Err(e),
            },
            Err(e) => Err(e),
        }
    }
}

/// The items of each of the plain values `values`, in order; the first value
/// that cannot be flattened decides the error.
pub open spec fn plain_items_of_all(values: Seq<Value>) -> Result<
    Seq<Seq<ValueItem>>,
    RecorderError,
>
    decreases values.len(),
{
    if values.len() == 0 {
        Ok(Seq::empty())
    } else {
        match plain_items_of_all(values.drop_last()) {
            Ok(head) => match plain_items_of(values.last()) {
                Ok(items) => Ok(head.push(items)),
                Err(e) => Err(e),
            },
            Err(e) => Err(e),
        }
    }
}

/// Traces `value` against `reverse` and keeps its items.
pub fn snapshot(value: &Value, reverse: &BTreeMap<usize, Reference>) -> (r: Result<
    ValueItems,
    RecorderError,
>)
    ensures
        match r {
            Ok(items) => items_of(*value, reverse@) == Ok::<Seq<ValueItem>, RecorderError>(items@),
            Err(e) => items_of(*value, reverse@) == Err::<Seq<ValueItem>, RecorderError>(e),
        },
{
    match trace(value, reverse) {
        Ok(traced) => Ok(traced.items),
        Err(e) => Err(e),
    }
}

/// Flattens the plain value `value` and keeps its items.
pub fn snapshot_plain(value: &Value) -> (r: Result<ValueItems, RecorderError>)
    ensures
        match r {
            Ok(items) => plain_items_of(*value) == Ok::<Seq<ValueItem>, RecorderError>(items@),
            Err(e) => plain_items_of(*value) == Err::<Seq<ValueItem>, RecorderError>(e),
        },
{
    match trace_plain(value) {
        Ok(traced) => Ok(traced.items),
        Err(e) => Err(e),
    }
}

/// Traces each of `values` against `reverse`, in order.
pub fn snapshot_all(values: &[Value], reverse: &BTreeMap<usize, Reference>) -> (r: Result<
    Vec<ValueItems>,
    RecorderError,
>)
    ensures
        match r {
            Ok(lists) => items_of_all(values@, reverse@) == Ok::<
                Seq<Seq<ValueItem>>,
                RecorderError,
            >(lists_view(lists)),
            Err(e) => items_of_all(values@, reverse@) == Err::<Seq<Seq<ValueItem>>, RecorderError>(
                e,
            ),
        },
{
    let mut lists: Vec<ValueItems> = Vec::new();
    let mut i: usize = 0;
    proof {
        assert(lists_view(lists) =~= Seq::<Seq<ValueItem>>::empty());
    }
    while i < values.len()
        invariant
            i <= values.len(),
            items_of_all(values@.take(i as int), reverse@) == Ok::<
                Seq<Seq<ValueItem>>,
                RecorderError,
            >(lists_view(lists)),
        decreases values.len() - i,
    {
        proof {
            assert(values@.take(i + 1).drop_last() =~= values@.take(i as int));
        }
        match snapshot(&values[i], reverse) {
            Ok(items) => {
                let ghost before = lists_view(lists);
                let ghost added = items@;
                lists.push(items);
                proof {
                    assert(lists_view(lists) =~= before.push(added));
                }
            },
            Err(e) => {
                proof {
                    lemma_items_of_all_error(values@, i as int, reverse@, e);
                }
                return Err(e);
            },
        }
        i += 1;
    }
    proof {
        assert(values@.take(i as int) =~= values@);
    }
    Ok(lists)
}

/// Flattens each of the plain values `values`, in order.
pub fn snapshot_all_plain(values: &[Value]) -> (r: Result<Vec<ValueItems>, RecorderError>)
    ensures
        match r {
            Ok(lists) => plain_items_of_all(values@) == Ok::<Seq<Seq<ValueItem>>, RecorderError>(
                lists_view(lists),
            ),
            Err(e) => plain_items_of_all(values@) == Err::<Seq<Seq<ValueItem>>, RecorderError>(e),
        },
{
    let mut lists: Vec<ValueItems> = Vec::new();
    let mut i: usize = 0;
    proof {
        assert(lists_view(lists) =~= Seq::<Seq<ValueItem>>::empty());
    }
    while i < values.len()
        invariant
            i <= values.len(),
            plain_items_of_all(values@.take(i as int)) == Ok::<Seq<Seq<ValueItem>>, RecorderError>(
                lists_view(lists),
            ),
        decreases values.len() - i,
    {
        proof {
            assert(values@.take(i + 1).drop_last() =~= values@.take(i as int));
        }
        match snapshot_plain(&values[i]) {
            Ok(items) => {
                let ghost before = lists_view(lists);
                let ghost added = items@;
                lists.push(items);
                proof {
                    assert(lists_view(lists) =~= before.push(added));
                }
            },
            Err(e) => {
                proof {
                    lemma_plain_items_of_all_error(values@, i as int, e);
                }
                return Err(e);
            },
        }
        i += 1;
    }
    proof {
        assert(values@.take(i as int) =~= values@);
    }
    Ok(lists)
}

/// Where the values before position `i` can be traced and the one at `i`
/// cannot, its error is the error of the whole.
pub proof fn lemma_items_of_all_error(
    values: Seq<Value>,
    i: int,
    reverse: Map<usize, Reference>,
    e: RecorderError,
)
    requires
        0 <= i < values.len(),
        items_of_all(values.take(i), reverse) is Ok,
        items_of(values[i], reverse) == Err::<Seq<ValueItem>, RecorderError>(e),
    ensures
        items_of_all(values, reverse) == Err::<Seq<Seq<ValueItem>>, RecorderError>(e),
    decreases values.len(),
{
    if i == values.len() - 1 {
        assert(values.drop_last() =~= values.take(i));
    } else {
        assert(values.drop_last().take(i) =~= values.take(i));
        lemma_items_of_all_error(values.drop_last(), i, reverse, e);
    }
}

/// Where the values before position `i` can be flattened and the one at `i`
/// cannot, its error is the error of the whole.
pub proof fn lemma_plain_items_of_all_error(values: Seq<Value>, i: int, e: RecorderError)
    requires
        0 <= i < values.len(),
        plain_items_of_all(values.take(i)) is Ok,
        plain_items_of(values[i]) == Err::<Seq<ValueItem>, RecorderError>(e),
    ensures
        plain_items_of_all(values) == Err::<Seq<Seq<ValueItem>>, RecorderError>(e),
    decreases values.len(),
{
    if i == values.len() - 1 {
        assert(values.drop_last() =~= values.take(i));
    } else {
        assert(values.drop_last().take(i) =~= values.take(i));
        lemma_plain_items_of_all_error(values.drop_last(), i, e);
    }
}

} // verus!

//! Flattening one runtime value: a plain value into its items, a reference
//! into the stable coordinate of what it points at.

use crate::error::RecorderError;
use crate::finalize::{counts_are_final, finalized, lemma_counts_are_final};
use crate::flatten::{resolved, visited};
use crate::layout::{lemma_raw_headers, lemma_walk_from_root, paths_after, raw_items, walkable};
use crate::reference_visitor::ReferenceValueVisitor;
use crate::sub_index::{lemma_sub_index_of, sub_index_of, SubIndex};
use crate::traced_value::{Reference, SimpleValue, TracedValue, TracedValueView, ValueItem};
use crate::values::Value;
use crate::visitor::{completed, initial_state, PlainValueVisitor, VisitState};
use std::collections::BTreeMap;
use vstd::prelude::*;

verus! {

/// What flattening the plain value `value` yields: the items of its layout
/// from the root, with their headers made final, and the path of each
/// container in it. A value that cannot be walked is refused.
pub open spec fn flattened(value: Value) -> Result<TracedValueView, RecorderError> {
    if walkable(value, Seq::empty()) {
        Ok(
            TracedValueView {
                items: finalized(raw_items(value, Seq::empty())),
                container_sub_indexes: paths_after(Map::empty(), value, Seq::empty()),
            },
        )
    } else {
        Err(RecorderError::InvalidVisitorState)
    }
}

/// The number that a reference appends to the path of the container it
/// points into: one more than the index for a reference to an element, zero
/// for a reference to the whole container.
pub open spec fn child_number(indexed: Option<usize>) -> int {
    match indexed {
        Some(i) => i + 1,
        None => 0,
    }
}

/// The stable coordinate of what a reference with raw address `pointer` and
/// element index `indexed` points at, as the reverse map `reverse` gives it.
pub open spec fn coordinate(
    pointer: usize,
    indexed: Option<usize>,
    reverse: Map<usize, Reference>,
) -> Result<Reference, RecorderError> {
    if !reverse.contains_key(pointer) {
        Err(RecorderError::PointerLookupMiss)
    } else if child_number(indexed) > usize::MAX || !reverse[pointer].admits_child(
        child_number(indexed) as usize,
    ) {
        Err(RecorderError::InvalidVisitorState)
    } else {
        Ok(
            Reference {
                frame_index: reverse[pointer].frame_index,
                local_index: reverse[pointer].local_index,
                sub_index: sub_index_of(
                    reverse[pointer].sub_index@.push(child_number(indexed) as u16),
                ),
            },
        )
    }
}

/// The stable coordinate of what the reference `value` points at; a plain
/// value has none.
pub open spec fn reference_of(value: Value, reverse: Map<usize, Reference>) -> Result<
    Reference,
    RecorderError,
> {
    match resolved(value) {
        Some((pointer, indexed)) => coordinate(pointer, indexed, reverse),
        None => Err(RecorderError::InvalidVisitorState),
    }
}

/// The one item that stands for a reference: a leaf at the root that holds
/// the coordinate.
pub open spec fn reference_item(reference: Reference) -> ValueItem {
    ValueItem {
        sub_index: sub_index_of(Seq::empty()),
        header: false,
        value: SimpleValue::Reference(reference),
    }
}

/// What tracing `value` yields: for a plain value its flattening, for a
/// reference the single leaf that holds its coordinate, with no container.
pub open spec fn traced(value: Value, reverse: Map<usize, Reference>) -> Result<
    TracedValueView,
    RecorderError,
> {
    if value.is_reference() {
        match reference_of(value, reverse) {
            Ok(reference) => Ok(
                TracedValueView {
                    items: seq![reference_item(reference)],
                    container_sub_indexes: Map::empty(),
                },
            ),
            Err(e) => Err(e),
        }
    } else {
        flattened(value)
    }
}

/// The plain value flattened; a reference is refused.
pub open spec fn traced_plain(value: Value) -> Result<TracedValueView, RecorderError> {
    if value.is_reference() {
        Err(RecorderError::InvalidVisitorState)
    } else {
        flattened(value)
    }
}

/// A value that has been walked, and is ready to be built into a traced
/// value or a coordinate.
pub struct TracedValueBuilder {
    visitor: Result<PlainValueVisitor, ReferenceValueVisitor>,
}

impl TracedValueBuilder {
    /// The state of the flattening visitor, where a plain value was walked.
    pub closed spec fn plain(self) -> Option<VisitState> {
        match self.visitor {
            Ok(visitor) => Some(visitor@),
            Err(_) => None,
        }
    }

    /// Raw address and element index, where a reference was walked.
    pub closed spec fn pointer(self) -> Option<(usize, Option<usize>)> {
        match self.visitor {
            Ok(_) => None,
            Err(visitor) => Some((visitor.reference_pointer, visitor.indexed)),
        }
    }

    /// Walks `value`: a reference with the resolving visitor, any other value
    /// with the flattening visitor from the root.
    pub fn new(value: &Value) -> (r: Result<Self, RecorderError>)
        ensures
            match r {
                Ok(builder) => if value.is_reference() {
                    builder.plain() is None && builder.pointer() == resolved(*value)
                } else {
                    builder.pointer() is None && visited(initial_state(), *value, 0) == Ok::<
                        VisitState,
                        RecorderError,
                    >(builder.plain().unwrap())
                },
                Err(e) => !value.is_reference() && visited(initial_state(), *value, 0) == Err::<
                    VisitState,
                    RecorderError,
                >(e),
            },
            r is Ok <==> value.is_reference() || walkable(*value, Seq::empty()),
            r matches Err(e) ==> e == RecorderError::InvalidVisitorState,
    {
        proof {
            lemma_walk_from_root(*value);
        }
        if !value.is_ref_value() {
            let mut visitor = PlainValueVisitor::new();
            match value.visit(&mut visitor, 0) {
                Ok(()) => Ok(TracedValueBuilder { visitor: Ok(visitor) }),
                Err(e) => Err(e),
            }
        } else {
            let mut visitor = ReferenceValueVisitor::new();
            match value.visit_reference(&mut visitor) {
                Ok(()) => Ok(TracedValueBuilder { visitor: Err(visitor) }),
                Err(e) => Err(e),
            }
        }
    }

    /// True where a reference was walked.
    pub fn is_ref_value(&self) -> (b: bool)
        ensures
            b == self.pointer() is Some,
            b == self.plain() is None,
    {
        self.visitor.is_err()
    }

    /// The coordinate of what the reference points at; nothing for a plain
    /// value.
    pub fn build_as_reference(
        self,
        reverse_local_value_addressings: &BTreeMap<usize, Reference>,
    ) -> (r: Result<Option<Reference>, RecorderError>)
        ensures
            match self.pointer() {
                Some((pointer, indexed)) => match coordinate(
                    pointer,
                    indexed,
                    reverse_local_value_addressings@,
                ) {
                    Ok(reference) => r == Ok::<Option<Reference>, RecorderError>(Some(reference)),
                    Err(e) => r == Err::<Option<Reference>, RecorderError>(e),
                },
                None => r == Ok::<Option<Reference>, RecorderError>(None),
            },
    {
        match self.visitor {
            Ok(_) => Ok(None),
            Err(visitor) => {
                match resolve(
                    visitor.reference_pointer,
                    visitor.indexed,
                    reverse_local_value_addressings,
                ) {
                    Ok(reference) => Ok(Some(reference)),
                    Err(e) => Err(e),
                }
            },
        }
    }

    /// The flattened value; nothing for a reference.
    pub fn build_as_plain_value(self) -> (r: Result<Option<TracedValue>, RecorderError>)
        ensures
            match self.plain() {
                Some(s) => if completed(s.stack).len() == 0 {
                    r matches Ok(Some(traced)) && traced@ == (TracedValueView {
                        items: finalized(s.items),
                        container_sub_indexes: s.containers,
                    })
                } else {
                    r == Err::<Option<TracedValue>, RecorderError>(
                        RecorderError::InvalidVisitorState,
                    )
                },
                None => r matches Ok(None),
            },
    {
        match self.visitor {
            Ok(visitor) => match visitor.get_trace_value() {
                Ok(traced) => Ok(Some(traced)),
                Err(e) => Err(e),
            },
            _ => Ok(None),
        }
    }

    /// The traced value: the flattening of a plain value, or the one leaf
    /// that holds the coordinate of a reference.
    pub fn build(self, reverse_local_value_addressings: &BTreeMap<usize, Reference>) -> (r: Result<
        TracedValue,
        RecorderError,
    >)
        ensures
            match self.plain() {
                Some(s) => if completed(s.stack).len() == 0 {
                    r matches Ok(traced) && traced@ == (TracedValueView {
                        items: finalized(s.items),
                        container_sub_indexes: s.containers,
                    })
                } else {
                    r matches Err(e) && e == RecorderError::InvalidVisitorState
                },
                None => match coordinate(
                    self.pointer().unwrap().0,
                    self.pointer().unwrap().1,
                    reverse_local_value_addressings@,
                ) {
                    Ok(reference) => r matches Ok(traced) && traced@ == (TracedValueView {
                        items: seq![reference_item(reference)],
                        container_sub_indexes: Map::empty(),
                    }),
                    Err(e) => r matches Err(f) && f == e,
                },
            },
    {
        match self.visitor {
            Ok(visitor) => visitor.get_trace_value(),
            Err(visitor) => {
                let reference = resolve(
                    visitor.reference_pointer,
                    visitor.indexed,
                    reverse_local_value_addressings,
                )?;
                let mut items: Vec<ValueItem> = Vec::new();
                let root = SubIndex::root();
                proof {
                    lemma_sub_index_of(Seq::empty());
                }
                items.push(
                    ValueItem {
                        sub_index: root,
                        header: false,
                        value: SimpleValue::Reference(reference),
                    },
                );
                proof {
                    assert(items@ =~= seq![reference_item(reference)]);
                }
                Ok(TracedValue { items, container_sub_indexes: BTreeMap::new() })
            },
        }
    }
}

/// Looks the container at `pointer` up in the reverse map and steps from its
/// coordinate to the element that `indexed` names.
pub fn resolve(pointer: usize, indexed: Option<usize>, reverse: &BTreeMap<usize, Reference>) -> (r:
    Result<Reference, RecorderError>)
    ensures
        r == coordinate(pointer, indexed, reverse@),
{
    let parent = match reverse.get(&pointer) {
        Some(parent) => *parent,
        None => {
            return Err(RecorderError::PointerLookupMiss);
        },
    };
    let child: usize = match indexed {
        Some(i) => {
            if i == usize::MAX {
                return Err(RecorderError::InvalidVisitorState);
            }
            i + 1
        },
        None => 0,
    };
    match parent.checked_ref_child(child) {
        Some(reference) => {
            proof {
                parent.sub_index.lemma_holds_view();
                lemma_sub_index_of(parent.sub_index@.push(child as u16));
            }
            Ok(reference)
        },
        None => Err(RecorderError::InvalidVisitorState),
    }
}

/// Traces `value`: see [`traced`].
pub fn trace(value: &Value, reverse: &BTreeMap<usize, Reference>) -> (r: Result<
    TracedValue,
    RecorderError,
>)
    ensures
        match r {
            Ok(t) => traced(*value, reverse@) == Ok::<TracedValueView, RecorderError>(t@),
            Err(e) => traced(*value, reverse@) == Err::<TracedValueView, RecorderError>(e),
        },
{
    proof {
        lemma_walk_from_root(*value);
    }
    TracedValueBuilder::new(value)?.build(reverse)
}

/// Flattens the plain value `value`: see [`traced_plain`].
pub fn trace_plain(value: &Value) -> (r: Result<TracedValue, RecorderError>)
    ensures
        match r {
            Ok(t) => traced_plain(*value) == Ok::<TracedValueView, RecorderError>(t@),
            Err(e) => traced_plain(*value) == Err::<TracedValueView, RecorderError>(e),
        },
        r matches Ok(t) ==> counts_are_final(t.items@),
{
    proof {
        lemma_walk_from_root(*value);
    }
    match TracedValueBuilder::new(value)?.build_as_plain_value()? {
        Some(traced) => {
            proof {
                let raw = raw_items(*value, Seq::empty());
                lemma_raw_headers(*value, Seq::empty());
                assert(traced.items.len() == finalized(raw).len());
                lemma_counts_are_final(raw);
            }
            Ok(traced)
        },
        None => Err(RecorderError::InvalidVisitorState),
    }
}

/// The coordinate of what the reference `value` points at: see
/// [`reference_of`].
pub fn trace_reference(value: &Value, reverse: &BTreeMap<usize, Reference>) -> (r: Result<
    Reference,
    RecorderError,
>)
    ensures
        r == reference_of(*value, reverse@),
{
    if !value.is_ref_value() {
        return Err(RecorderError::InvalidVisitorState);
    }
    match TracedValueBuilder::new(value)?.build_as_reference(reverse)? {
        Some(reference) => Ok(reference),
        None => Err(RecorderError::InvalidVisitorState),
    }
}

} // verus!

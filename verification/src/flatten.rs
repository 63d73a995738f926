//! Walking a runtime value with a visitor.

use crate::error::RecorderError;
use crate::reference_visitor::ReferenceValueVisitor;
use crate::values::Value;
use crate::visitor::{container_step, enter_step, leaf_step, PlainValueVisitor, VisitState};
use vstd::prelude::*;

verus! {

/// The state of a flattening visitor after it has walked `value` at depth
/// `depth`: a scalar is visited as a leaf; a struct or a vector is entered,
/// crossed into, and its children are walked in order one level down; a
/// reference is refused.
#[verifier::opaque]
pub open spec fn visited(s: VisitState, value: Value, depth: usize) -> Result<
    VisitState,
    RecorderError,
>
    decreases value, 0nat,
{
    match value {
        Value::Struct { address, fields } => match enter_step(s, depth, fields@.len() as usize) {
            Ok(entered) => match container_step(entered, address) {
                Ok(inside) => if depth == usize::MAX {
                    Err(RecorderError::InvalidVisitorState)
                } else {
                    visited_all(inside, fields@, 0, (depth + 1) as usize)
                },
                Err(e) => Err(e),
            },
            Err(e) => Err(e),
        },
        Value::Vector { address, elements } => match enter_step(
            s,
            depth,
            elements@.len() as usize,
        ) {
            Ok(entered) => match container_step(entered, address) {
                Ok(inside) => if depth == usize::MAX {
                    Err(RecorderError::InvalidVisitorState)
                } else {
                    visited_all(inside, elements@, 0, (depth + 1) as usize)
                },
                Err(e) => Err(e),
            },
            Err(e) => Err(e),
        },
        Value::ContainerRef { .. } => Err(RecorderError::InvalidVisitorState),
        Value::IndexedRef { .. } => Err(RecorderError::InvalidVisitorState),
        _ => leaf_step(s, depth, value.leaf().unwrap()),
    }
}

/// The state after the values of `values` from position `from` on were
/// walked in order, each at depth `depth`.
pub open spec fn visited_all(s: VisitState, values: Seq<Value>, from: nat, depth: usize) -> Result<
    VisitState,
    RecorderError,
>
    decreases values, values.len() - from,
{
    if from >= values.len() {
        Ok(s)
    } else {
        match visited(s, values[from as int], depth) {
            Ok(next) => visited_all(next, values, from + 1, depth),
            Err(e) => Err(e),
        }
    }
}

/// The walk of several values is the walk of the first, followed by the walk
/// of the others.
pub proof fn lemma_visited_all_unfolds(s: VisitState, values: Seq<Value>, from: nat, depth: usize)
    ensures
        visited_all(s, values, from, depth) == if from >= values.len() {
            Ok::<VisitState, RecorderError>(s)
        } else {
            match visited(s, values[from as int], depth) {
                Ok(next) => visited_all(next, values, from + 1, depth),
                Err(e) => Err(e),
            }
        },
{
    reveal(visited);
}

/// What the walk of a reference finds: the raw address of the container
/// pointed into, and the index of the element where the reference points at
/// one.
pub open spec fn resolved(value: Value) -> Option<(usize, Option<usize>)> {
    match value {
        Value::ContainerRef { address, .. } => Some((address, None)),
        Value::IndexedRef { address, index, .. } => Some((address, Some(index))),
        _ => None,
    }
}

impl Value {
    /// Walks the children of a container that the visitor is inside of.
    fn visit_children(children: &Vec<Value>, visitor: &mut PlainValueVisitor, depth: usize) -> (r:
        Result<(), RecorderError>)
        ensures
            match r {
                Ok(()) => visited_all(old(visitor)@, children@, 0, depth) == Ok::<
                    VisitState,
                    RecorderError,
                >(final(visitor)@),
                Err(e) => visited_all(old(visitor)@, children@, 0, depth) == Err::<
                    VisitState,
                    RecorderError,
                >(e),
            },
        decreases children, 0nat,
    {
        let mut i: usize = 0;
        while i < children.len()
            invariant
                i <= children.len(),
                visited_all(old(visitor)@, children@, 0, depth) == visited_all(
                    visitor@,
                    children@,
                    i as nat,
                    depth,
                ),
            decreases children.len() - i,
        {
            proof {
                lemma_visited_all_unfolds(visitor@, children@, i as nat, depth);
            }
            match children[i].visit(visitor, depth) {
                Ok(()) => {},
                Err(e) => {
                    return Err(e);
                },
            }
            i += 1;
        }
        proof {
            lemma_visited_all_unfolds(visitor@, children@, i as nat, depth);
        }
        Ok(())
    }

    /// Walks the value with a flattening visitor, as a node at depth `depth`.
    pub fn visit(&self, visitor: &mut PlainValueVisitor, depth: usize) -> (r: Result<
        (),
        RecorderError,
    >)
        ensures
            match r {
                Ok(()) => visited(old(visitor)@, *self, depth) == Ok::<VisitState, RecorderError>(
                    final(visitor)@,
                ),
                Err(e) => visited(old(visitor)@, *self, depth) == Err::<VisitState, RecorderError>(
                    e,
                ),
            },
        decreases self, 1nat,
    {
        proof {
            reveal(visited);
        }
        match self {
            Value::Struct { address, fields } => {
                visitor.visit_struct(depth, fields.len())?;
                visitor.visit_container(*address, depth)?;
                if depth == usize::MAX {
                    return Err(RecorderError::InvalidVisitorState);
                }
                Value::visit_children(fields, visitor, depth + 1)
            },
            Value::Vector { address, elements } => {
                visitor.visit_vec(depth, elements.len())?;
                visitor.visit_container(*address, depth)?;
                if depth == usize::MAX {
                    return Err(RecorderError::InvalidVisitorState);
                }
                Value::visit_children(elements, visitor, depth + 1)
            },
            Value::ContainerRef { .. } | Value::IndexedRef { .. } => {
                visitor.visit_ref(depth, false)?;
                Err(RecorderError::InvalidVisitorState)
            },
            _ => match self.to_leaf() {
                Some(leaf) => visitor.visit_simple(depth, leaf),
                None => Err(RecorderError::InvalidVisitorState),
            },
        }
    }

    /// Walks a reference with the resolving visitor: the reference itself at
    /// depth zero, then the container it points at one level down, or the
    /// element it points at.
    pub fn visit_reference(&self, visitor: &mut ReferenceValueVisitor) -> (r: Result<
        (),
        RecorderError,
    >)
        requires
            !old(visitor).seen,
        ensures
            match r {
                Ok(()) => match resolved(*self) {
                    Some((pointer, Some(index))) => *final(visitor) == (ReferenceValueVisitor {
                        reference_pointer: pointer,
                        indexed: Some(index),
                        seen: true,
                    }),
                    Some((pointer, None)) => *final(visitor) == (ReferenceValueVisitor {
                        reference_pointer: pointer,
                        indexed: old(visitor).indexed,
                        seen: true,
                    }),
                    None => false,
                },
                Err(e) => e == RecorderError::InvalidVisitorState && !self.is_reference(),
            },
    {
        match self {
            Value::ContainerRef { address, target } => {
                visitor.visit_ref(0, false)?;
                visitor.visit_container(*address, 1)?;
                match &**target {
                    Value::Struct { fields, .. } => {
                        visitor.visit_struct(1, fields.len());
                    },
                    Value::Vector { elements, .. } => {
                        visitor.visit_vec(1, elements.len());
                    },
                    _ => {},
                }
                Ok(())
            },
            Value::IndexedRef { address, index, .. } => {
                visitor.visit_ref(0, false)?;
                visitor.visit_indexed(*address, 0, *index)?;
                Ok(())
            },
            _ => Err(RecorderError::InvalidVisitorState),
        }
    }
}

} // verus!

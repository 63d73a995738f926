//! The reference resolver: reads from a reference the raw address of the
//! container it points into and, where it points at an element, the
//! element's index.

use crate::error::RecorderError;
use vstd::prelude::*;

verus! {

/// What the walk of a reference has found so far.
#[derive(Clone, Copy, Debug, PartialEq, Eq)]
pub struct ReferenceValueVisitor {
    /// Raw address of the container pointed into; zero until one is seen.
    pub reference_pointer: usize,
    /// Index of the element pointed at, for a reference to an element.
    pub indexed: Option<usize>,
    /// The reference itself has been seen.
    pub seen: bool,
}

impl ReferenceValueVisitor {
    /// A visitor that has seen nothing.
    pub fn new() -> (r: Self)
        ensures
            r == (ReferenceValueVisitor { reference_pointer: 0, indexed: None, seen: false }),
    {
        ReferenceValueVisitor { reference_pointer: 0, indexed: None, seen: false }
    }

    /// Visits the reference itself. Exactly one is expected, at depth zero;
    /// the answer `true` asks for what the reference points at.
    pub fn visit_ref(&mut self, depth: usize, is_global: bool) -> (r: Result<bool, RecorderError>)
        ensures
            r == if depth == 0 && !old(self).seen {
                Ok::<bool, RecorderError>(true)
            } else {
                Err::<bool, RecorderError>(RecorderError::InvalidVisitorState)
            },
            r is Ok ==> *final(self) == (ReferenceValueVisitor { seen: true, ..*old(self) }),
            r is Err ==> *final(self) == *old(self),
    {
        if depth == 0 && !self.seen {
            self.seen = true;
            Ok(true)
        } else {
            Err(RecorderError::InvalidVisitorState)
        }
    }

    /// Visits the container that the reference points at. It is expected at
    /// depth one, and its raw address is kept.
    pub fn visit_container(&mut self, raw_address: usize, depth: usize) -> (r: Result<
        (),
        RecorderError,
    >)
        ensures
            r == if depth == 1 {
                Ok::<(), RecorderError>(())
            } else {
                Err::<(), RecorderError>(RecorderError::InvalidVisitorState)
            },
            r is Ok ==> *final(self) == (ReferenceValueVisitor {
                reference_pointer: raw_address,
                ..*old(self)
            }),
            r is Err ==> *final(self) == *old(self),
    {
        if depth == 1 {
            self.reference_pointer = raw_address;
            Ok(())
        } else {
            Err(RecorderError::InvalidVisitorState)
        }
    }

    /// Visits the element that the reference points at. It is expected at
    /// depth zero; the raw address of its container and its index are kept.
    pub fn visit_indexed(&mut self, raw_address: usize, depth: usize, idx: usize) -> (r: Result<
        (),
        RecorderError,
    >)
        ensures
            r == if depth == 0 {
                Ok::<(), RecorderError>(())
            } else {
                Err::<(), RecorderError>(RecorderError::InvalidVisitorState)
            },
            r is Ok ==> *final(self) == (ReferenceValueVisitor {
                reference_pointer: raw_address,
                indexed: Some(idx),
                ..*old(self)
            }),
            r is Err ==> *final(self) == *old(self),
    {
        if depth == 0 {
            self.reference_pointer = raw_address;
            self.indexed = Some(idx);
            Ok(())
        } else {
            Err(RecorderError::InvalidVisitorState)
        }
    }

    /// Visits a struct: nothing is kept, and its fields are not asked for.
    pub fn visit_struct(&mut self, depth: usize, len: usize) -> (r: bool)
        ensures
            !r,
            *final(self) == *old(self),
    {
        false
    }

    /// Visits a vector: nothing is kept, and its elements are not asked for.
    pub fn visit_vec(&mut self, depth: usize, len: usize) -> (r: bool)
        ensures
            !r,
            *final(self) == *old(self),
    {
        false
    }
}

} // verus!

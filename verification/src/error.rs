//! The ways in which recording can fail.

use vstd::prelude::*;

verus! {

/// Why the recorder refused to append a record.
#[derive(Clone, Copy, Debug, PartialEq, Eq)]
pub enum RecorderError {
    /// The instruction works on global storage, which the recorder does not
    /// witness.
    UnsupportedInstruction,
    /// A value could not be walked: a reference stood inside a container or
    /// where a plain value was due, a plain value stood where a reference was
    /// due, a callback came at an unexpected depth, or a path did not fit in
    /// eight 16-bit slots.
    InvalidVisitorState,
    /// A reference points at a container that the pointer index does not know.
    PointerLookupMiss,
    /// The interpreter refused a read: the operand stack is too short, an
    /// operand has another type than the instruction takes, a local is
    /// unset, an index is out of range, or the resolver does not know a handle.
    OperandAccess,
}

} // verus!

//! Execution-trace witnessing for a stack-based bytecode virtual machine.
//!
//! Before each instruction executes, the recorder appends one footprint to
//! an in-memory trace: the program counter, the frame, the height of the
//! operand stack, the instruction's compact encoding, and a snapshot of what
//! the instruction touches. Aggregate values are flattened into a linear
//! stream of items, each at a bounded-depth path; references are rewritten
//! from raw container addresses into stable coordinates, frame, local and
//! path, through a pointer index that is kept in step with stores, moves and
//! returns. The recorder reads the interpreter and never changes it.
//!
//! Every function of the library is verified against a contract that says
//! what it returns or changes. The arithmetic of field elements is done by
//! outside crates; the few functions that call them say so.

pub mod algebra;
pub mod builder;
pub mod bytecode;
pub mod error;
pub mod finalize;
pub mod flatten;
pub mod interpreter;
pub mod layout;
pub mod natives;
pub mod operation;
pub mod payload;
pub mod pointer_index;
pub mod preorder;
pub mod proof_verification;
pub mod recorder;
pub mod reference_visitor;
pub mod snapshot;
pub mod sub_index;
pub mod traced_value;
pub mod values;
pub mod vector_payload;
pub mod visitor;
pub mod zkhash;

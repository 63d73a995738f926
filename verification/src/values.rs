//! Runtime values as the interpreter's read-only accessors show them.
//!
//! A container is a struct or a vector. It is shared, and its raw address
//! tells it from every other container; the recorder uses the address as a
//! key only. A reference names the container it points into, the element
//! where it points at one, and carries the value that reading it yields.

use crate::traced_value::{AccountAddress, IntegerValue, SimpleValue, U256};
use vstd::prelude::*;

verus! {

/// A value on the operand stack or in a local.
#[derive(Debug, PartialEq, Eq)]
pub enum Value {
    U8(u8),
    U16(u16),
    U32(u32),
    U64(u64),
    U128(u128),
    U256(U256),
    Bool(bool),
    Address(AccountAddress),
    /// A struct: the container at `address`, its fields in declaration order.
    Struct { address: usize, fields: Vec<Value> },
    /// A vector: the container at `address`, its elements in order.
    Vector { address: usize, elements: Vec<Value> },
    /// A reference to the whole container at `address`; `target` is what
    /// reading the reference yields.
    ContainerRef { address: usize, target: Box<Value> },
    /// A reference to element `index` of the container at `address`; `target`
    /// is what reading the reference yields.
    IndexedRef { address: usize, index: usize, target: Box<Value> },
}

impl Value {
    /// The leaf that a scalar value is flattened to.
    pub open spec fn leaf(self) -> Option<SimpleValue> {
        match self {
            Value::U8(v) => Some(SimpleValue::U8(v)),
            Value::U16(v) => Some(SimpleValue::U16(v)),
            Value::U32(v) => Some(SimpleValue::U32(v)),
            Value::U64(v) => Some(SimpleValue::U64(v)),
            Value::U128(v) => Some(SimpleValue::U128(v)),
            Value::U256(v) => Some(SimpleValue::U256(v)),
            Value::Bool(v) => Some(SimpleValue::Bool(v)),
            Value::Address(v) => Some(SimpleValue::Address(v)),
            _ => None,
        }
    }

    /// The value is a reference.
    pub open spec fn is_reference(self) -> bool {
        self is ContainerRef || self is IndexedRef
    }

    /// The value is a struct or a vector.
    pub open spec fn is_container(self) -> bool {
        self is Struct || self is Vector
    }

    /// The children of a container, in order; empty for any other value.
    pub open spec fn children(self) -> Seq<Value> {
        match self {
            Value::Struct { fields, .. } => fields@,
            Value::Vector { elements, .. } => elements@,
            _ => Seq::empty(),
        }
    }

    /// The boolean that the value holds.
    pub open spec fn as_bool(self) -> Option<bool> {
        match self {
            Value::Bool(v) => Some(v),
            _ => None,
        }
    }

    /// The 8-bit integer that the value holds.
    pub open spec fn as_u8(self) -> Option<u8> {
        match self {
            Value::U8(v) => Some(v),
            _ => None,
        }
    }

    /// The 64-bit integer that the value holds.
    pub open spec fn as_u64(self) -> Option<u64> {
        match self {
            Value::U64(v) => Some(v),
            _ => None,
        }
    }

    /// The integer that the value holds, whatever its width.
    pub open spec fn as_integer(self) -> Option<IntegerValue> {
        match self {
            Value::U8(v) => Some(IntegerValue::U8(v)),
            Value::U16(v) => Some(IntegerValue::U16(v)),
            Value::U32(v) => Some(IntegerValue::U32(v)),
            Value::U64(v) => Some(IntegerValue::U64(v)),
            Value::U128(v) => Some(IntegerValue::U128(v)),
            Value::U256(v) => Some(IntegerValue::U256(v)),
            _ => None,
        }
    }

    /// What reading a reference yields.
    pub open spec fn referent(self) -> Option<Value> {
        match self {
            Value::ContainerRef { target, .. } => Some(*target),
            Value::IndexedRef { target, .. } => Some(*target),
            _ => None,
        }
    }

    /// The elements of the vector that a reference points at.
    pub open spec fn referent_elements(self) -> Option<Seq<Value>> {
        match self {
            Value::ContainerRef { target, .. } => match *target {
                Value::Vector { elements, .. } => Some(elements@),
                _ => None,
            },
            _ => None,
        }
    }

    /// True for a reference.
    pub fn is_ref_value(&self) -> (b: bool)
        ensures
            b == self.is_reference(),
    {
        match self {
            Value::ContainerRef { .. } => true,
            Value::IndexedRef { .. } => true,
            _ => false,
        }
    }

    /// The leaf of a scalar value.
    pub fn to_leaf(&self) -> (r: Option<SimpleValue>)
        ensures
            r == self.leaf(),
    {
        match self {
            Value::U8(v) => Some(SimpleValue::U8(*v)),
            Value::U16(v) => Some(SimpleValue::U16(*v)),
            Value::U32(v) => Some(SimpleValue::U32(*v)),
            Value::U64(v) => Some(SimpleValue::U64(*v)),
            Value::U128(v) => Some(SimpleValue::U128(*v)),
            Value::U256(v) => Some(SimpleValue::U256(*v)),
            Value::Bool(v) => Some(SimpleValue::Bool(*v)),
            Value::Address(v) => Some(SimpleValue::Address(*v)),
            _ => None,
        }
    }

    /// The value as a boolean.
    pub fn value_as_bool(&self) -> (r: Option<bool>)
        ensures
            r == self.as_bool(),
    {
        match self {
            Value::Bool(v) => Some(*v),
            _ => None,
        }
    }

    /// The value as an 8-bit integer.
    pub fn value_as_u8(&self) -> (r: Option<u8>)
        ensures
            r == self.as_u8(),
    {
        match self {
            Value::U8(v) => Some(*v),
            _ => None,
        }
    }

    /// The value as a 64-bit integer.
    pub fn value_as_u64(&self) -> (r: Option<u64>)
        ensures
            r == self.as_u64(),
    {
        match self {
            Value::U64(v) => Some(*v),
            _ => None,
        }
    }

    /// The value as an integer of any width.
    pub fn value_as_integer(&self) -> (r: Option<IntegerValue>)
        ensures
            r == self.as_integer(),
    {
        match self {
            Value::U8(v) => Some(IntegerValue::U8(*v)),
            Value::U16(v) => Some(IntegerValue::U16(*v)),
            Value::U32(v) => Some(IntegerValue::U32(*v)),
            Value::U64(v) => Some(IntegerValue::U64(*v)),
            Value::U128(v) => Some(IntegerValue::U128(*v)),
            Value::U256(v) => Some(IntegerValue::U256(*v)),
            _ => None,
        }
    }

    /// What reading the reference yields.
    pub fn read_ref(&self) -> (r: Option<&Value>)
        ensures
            match r {
                Some(v) => self.referent() == Some(*v),
                None => self.referent() is None,
            },
    {
        match self {
            Value::ContainerRef { target, .. } => Some(&**target),
            Value::IndexedRef { target, .. } => Some(&**target),
            _ => None,
        }
    }

    /// The elements of the vector that the reference points at.
    pub fn vector_elements(&self) -> (r: Option<&Vec<Value>>)
        ensures
            match r {
                Some(v) => self.referent_elements() == Some(v@),
                None => self.referent_elements() is None,
            },
    {
        match self {
            Value::ContainerRef { target, .. } => match &**target {
                Value::Vector { elements, .. } => Some(elements),
                _ => None,
            },
            _ => None,
        }
    }
}

} // verus!

//! The atoms of a flattened value: leaf values, stable references and items.

use crate::sub_index::{trim, SubIndex};
use std::collections::BTreeMap;
use vstd::bytes::{
    lemma_auto_spec_u128_to_from_le_bytes, spec_u128_from_le_bytes, spec_u128_to_le_bytes,
    u128_from_le_bytes, u128_to_le_bytes,
};
use vstd::prelude::*;
use vstd::slice::slice_subrange;
use vstd::std_specs::convert::FromSpecImpl;
use vstd::std_specs::convert::TryFromSpecImpl;

verus! {

/// Two to the power 128.
pub open spec fn two_pow_128() -> int {
    0x1_0000_0000_0000_0000_0000_0000_0000_0000int
}

/// A 256-bit unsigned integer, held as its two 128-bit halves.
#[derive(Clone, Copy, Debug, PartialEq, Eq, Hash)]
pub struct U256 {
    pub hi: u128,
    pub lo: u128,
}

impl U256 {
    /// The number that the two halves stand for.
    pub open spec fn value(self) -> int {
        self.hi * two_pow_128() + self.lo
    }

    /// The number whose upper 128 bits are `hi` and whose lower 128 bits are `lo`.
    pub fn from_halves(hi: u128, lo: u128) -> (r: Self)
        ensures
            r == (U256 { hi, lo }),
    {
        U256 { hi, lo }
    }

    /// The number whose 32 bytes, least significant first, are `bytes`.
    pub fn from_le_bytes(bytes: &[u8; 32]) -> (r: Self)
        ensures
            r.lo == spec_u128_from_le_bytes(bytes@.subrange(0, 16)),
            r.hi == spec_u128_from_le_bytes(bytes@.subrange(16, 32)),
    {
        let all = bytes.as_slice();
        let lo = u128_from_le_bytes(slice_subrange(all, 0, 16));
        let hi = u128_from_le_bytes(slice_subrange(all, 16, 32));
        U256 { hi, lo }
    }

    /// The 32 bytes of the number, least significant first.
    pub fn to_le_bytes(&self) -> (r: Vec<u8>)
        ensures
            r@ == spec_u128_to_le_bytes(self.lo) + spec_u128_to_le_bytes(self.hi),
            r@.len() == 32,
            spec_u128_from_le_bytes(r@.subrange(0, 16)) == self.lo,
            spec_u128_from_le_bytes(r@.subrange(16, 32)) == self.hi,
    {
        let mut r = u128_to_le_bytes(self.lo);
        let mut upper = u128_to_le_bytes(self.hi);
        r.append(&mut upper);
        proof {
            lemma_auto_spec_u128_to_from_le_bytes();
            assert(r@.subrange(0, 16) =~= spec_u128_to_le_bytes(self.lo));
            assert(r@.subrange(16, 32) =~= spec_u128_to_le_bytes(self.hi));
        }
        r
    }

    /// The lower 128 bits.
    pub fn low128(&self) -> (r: u128)
        ensures
            r == self.lo,
            r == self.value() % two_pow_128(),
    {
        proof {
            lemma_halves(self.hi as int, self.lo as int);
        }
        self.lo
    }

    /// The upper 128 bits.
    pub fn high128(&self) -> (r: u128)
        ensures
            r == self.hi,
            r == self.value() / two_pow_128(),
    {
        proof {
            lemma_halves(self.hi as int, self.lo as int);
        }
        self.hi
    }
}

/// Quotient and remainder of `hi * 2^128 + lo` by `2^128`.
pub proof fn lemma_halves(hi: int, lo: int)
    requires
        0 <= lo < two_pow_128(),
    ensures
        (hi * two_pow_128() + lo) / two_pow_128() == hi,
        (hi * two_pow_128() + lo) % two_pow_128() == lo,
{
    vstd::arithmetic::div_mod::lemma_fundamental_div_mod_converse(
        hi * two_pow_128() + lo,
        two_pow_128(),
        hi,
        lo,
    );
}

/// A fixed-width account identifier.
#[derive(Clone, Copy, Debug, PartialEq, Eq, Hash)]
pub struct AccountAddress {
    pub bytes: [u8; 20],
}

/// The stable coordinate of a position in a local slot of a call frame.
#[derive(Clone, Copy, Debug, PartialEq, Eq, Hash)]
pub struct Reference {
    pub frame_index: usize,
    pub local_index: usize,
    pub sub_index: SubIndex,
}

impl Reference {
    /// The coordinate made of its three parts.
    pub fn new(frame_index: usize, local_index: usize, sub_index: SubIndex) -> (r: Self)
        ensures
            r == (Reference { frame_index, local_index, sub_index }),
    {
        Reference { frame_index, local_index, sub_index }
    }

    /// `child` can be appended to the path: it is zero, which appends
    /// nothing, or it fits in a slot and a slot is free.
    pub open spec fn admits_child(self, child: usize) -> bool {
        child == 0 || (self.sub_index@.len() < 8 && child <= u16::MAX)
    }

    /// The path of this coordinate with `child` appended.
    pub open spec fn child_path(self, child: usize) -> Seq<u16> {
        trim(self.sub_index@.push(child as u16))
    }

    /// The coordinate of child `child` of this position: the same slot, and
    /// the path with `child` appended after its trailing zeros are dropped.
    pub fn ref_child(self, child: usize) -> (r: Self)
        requires
            self.admits_child(child),
        ensures
            r.frame_index == self.frame_index,
            r.local_index == self.local_index,
            r.sub_index@ == self.child_path(child),
    {
        match self.sub_index.checked_push(child) {
            Some(sub_index) => Reference {
                frame_index: self.frame_index,
                local_index: self.local_index,
                sub_index,
            },
            // Not reached: the path admits the child.
            None => self,
        }
    }

    /// As [`Reference::ref_child`], where the path has room for `child`.
    pub fn checked_ref_child(self, child: usize) -> (r: Option<Self>)
        ensures
            r is Some <==> self.admits_child(child),
            r matches Some(c) ==> {
                &&& c.frame_index == self.frame_index
                &&& c.local_index == self.local_index
                &&& c.sub_index@ == self.child_path(child)
            },
    {
        match self.sub_index.checked_push(child) {
            Some(sub_index) => Some(
                Reference {
                    frame_index: self.frame_index,
                    local_index: self.local_index,
                    sub_index,
                },
            ),
            None => None,
        }
    }
}

/// A leaf of a flattened value.
#[derive(Clone, Copy, Debug, PartialEq, Eq)]
pub enum SimpleValue {
    U8(u8),
    U16(u16),
    U32(u32),
    U64(u64),
    U128(u128),
    U256(U256),
    Bool(bool),
    Address(AccountAddress),
    Reference(Reference),
}

/// An unsigned integer of one of the six widths.
#[derive(Clone, Copy, Debug, PartialEq, Eq)]
pub enum Integer {
    U8(u8),
    U16(u16),
    U32(u32),
    U64(u64),
    U128(u128),
    U256(U256),
}

/// An integer as the interpreter's operand stack holds it.
#[derive(Clone, Copy, Debug, PartialEq, Eq)]
pub enum IntegerValue {
    U8(u8),
    U16(u16),
    U32(u32),
    U64(u64),
    U128(u128),
    U256(U256),
}

/// The reason why a leaf is no integer.
#[derive(Clone, Copy, Debug, PartialEq, Eq)]
pub enum ConversionError {
    /// The leaf is a boolean, an address or a reference.
    NotAnInteger,
}

/// The integer that the interpreter's integer stands for.
pub open spec fn integer_of(value: IntegerValue) -> Integer {
    match value {
        IntegerValue::U8(v) => Integer::U8(v),
        IntegerValue::U16(v) => Integer::U16(v),
        IntegerValue::U32(v) => Integer::U32(v),
        IntegerValue::U64(v) => Integer::U64(v),
        IntegerValue::U128(v) => Integer::U128(v),
        IntegerValue::U256(v) => Integer::U256(v),
    }
}

/// The interpreter's integer for an integer.
pub open spec fn integer_value_of(value: Integer) -> IntegerValue {
    match value {
        Integer::U8(v) => IntegerValue::U8(v),
        Integer::U16(v) => IntegerValue::U16(v),
        Integer::U32(v) => IntegerValue::U32(v),
        Integer::U64(v) => IntegerValue::U64(v),
        Integer::U128(v) => IntegerValue::U128(v),
        Integer::U256(v) => IntegerValue::U256(v),
    }
}

/// The leaf that holds an integer.
pub open spec fn leaf_of(value: Integer) -> SimpleValue {
    match value {
        Integer::U8(v) => SimpleValue::U8(v),
        Integer::U16(v) => SimpleValue::U16(v),
        Integer::U32(v) => SimpleValue::U32(v),
        Integer::U64(v) => SimpleValue::U64(v),
        Integer::U128(v) => SimpleValue::U128(v),
        Integer::U256(v) => SimpleValue::U256(v),
    }
}

/// The integer in a leaf, where the leaf holds one.
pub open spec fn integer_in(value: SimpleValue) -> Result<Integer, ConversionError> {
    match value {
        SimpleValue::U8(v) => Ok(Integer::U8(v)),
        SimpleValue::U16(v) => Ok(Integer::U16(v)),
        SimpleValue::U32(v) => Ok(Integer::U32(v)),
        SimpleValue::U64(v) => Ok(Integer::U64(v)),
        SimpleValue::U128(v) => Ok(Integer::U128(v)),
        SimpleValue::U256(v) => Ok(Integer::U256(v)),
        _ => Err(ConversionError::NotAnInteger),
    }
}

/// The lower and the upper 128 bits of an integer.
pub open spec fn halves_of(value: Integer) -> (u128, u128) {
    match value {
        Integer::U8(v) => (v as u128, 0u128),
        Integer::U16(v) => (v as u128, 0u128),
        Integer::U32(v) => (v as u128, 0u128),
        Integer::U64(v) => (v as u128, 0u128),
        Integer::U128(v) => (v, 0u128),
        Integer::U256(v) => (v.lo, v.hi),
    }
}

impl From<IntegerValue> for Integer {
    fn from(value: IntegerValue) -> (r: Self) {
        match value {
            IntegerValue::U8(v) => Integer::U8(v),
            IntegerValue::U16(v) => Integer::U16(v),
            IntegerValue::U32(v) => Integer::U32(v),
            IntegerValue::U64(v) => Integer::U64(v),
            IntegerValue::U128(v) => Integer::U128(v),
            IntegerValue::U256(v) => Integer::U256(v),
        }
    }
}

impl FromSpecImpl<IntegerValue> for Integer {
    open spec fn obeys_from_spec() -> bool {
        true
    }

    open spec fn from_spec(value: IntegerValue) -> Self {
        integer_of(value)
    }
}

impl From<Integer> for IntegerValue {
    fn from(value: Integer) -> (r: Self) {
        match value {
            Integer::U8(v) => IntegerValue::U8(v),
            Integer::U16(v) => IntegerValue::U16(v),
            Integer::U32(v) => IntegerValue::U32(v),
            Integer::U64(v) => IntegerValue::U64(v),
            Integer::U128(v) => IntegerValue::U128(v),
            Integer::U256(v) => IntegerValue::U256(v),
        }
    }
}

impl FromSpecImpl<Integer> for IntegerValue {
    open spec fn obeys_from_spec() -> bool {
        true
    }

    open spec fn from_spec(value: Integer) -> Self {
        integer_value_of(value)
    }
}

impl From<Integer> for SimpleValue {
    fn from(value: Integer) -> (r: Self) {
        match value {
            Integer::U8(v) => SimpleValue::U8(v),
            Integer::U16(v) => SimpleValue::U16(v),
            Integer::U32(v) => SimpleValue::U32(v),
            Integer::U64(v) => SimpleValue::U64(v),
            Integer::U128(v) => SimpleValue::U128(v),
            Integer::U256(v) => SimpleValue::U256(v),
        }
    }
}

impl FromSpecImpl<Integer> for SimpleValue {
    open spec fn obeys_from_spec() -> bool {
        true
    }

    open spec fn from_spec(value: Integer) -> Self {
        leaf_of(value)
    }
}

impl TryFrom<SimpleValue> for Integer {
    type Error = ConversionError;

    fn try_from(value: SimpleValue) -> (r: Result<Integer, ConversionError>) {
        match value {
            SimpleValue::U8(v) => Ok(Integer::U8(v)),
            SimpleValue::U16(v) => Ok(Integer::U16(v)),
            SimpleValue::U32(v) => Ok(Integer::U32(v)),
            SimpleValue::U64(v) => Ok(Integer::U64(v)),
            SimpleValue::U128(v) => Ok(Integer::U128(v)),
            SimpleValue::U256(v) => Ok(Integer::U256(v)),
            _ => Err(ConversionError::NotAnInteger),
        }
    }
}

impl TryFromSpecImpl<SimpleValue> for Integer {
    open spec fn obeys_try_from_spec() -> bool {
        true
    }

    open spec fn try_from_spec(value: SimpleValue) -> Result<Self, ConversionError> {
        integer_in(value)
    }
}

impl From<Integer> for (u128, u128) {
    fn from(value: Integer) -> (r: (u128, u128)) {
        match value {
            Integer::U8(v) => (v as u128, 0u128),
            Integer::U16(v) => (v as u128, 0u128),
            Integer::U32(v) => (v as u128, 0u128),
            Integer::U64(v) => (v as u128, 0u128),
            Integer::U128(v) => (v, 0u128),
            Integer::U256(v) => (v.lo, v.hi),
        }
    }
}

impl FromSpecImpl<Integer> for (u128, u128) {
    open spec fn obeys_from_spec() -> bool {
        true
    }

    open spec fn from_spec(value: Integer) -> Self {
        halves_of(value)
    }
}

/// An integer turned into the interpreter's integer and back is the same
/// integer, whatever its width.
pub proof fn law_integer_round_trip(value: Integer)
    ensures
        integer_of(integer_value_of(value)) == value,
{
}

/// The interpreter's integer turned into an integer and back is the same.
pub proof fn law_integer_value_round_trip(value: IntegerValue)
    ensures
        integer_value_of(integer_of(value)) == value,
{
}

/// An integer put into a leaf is read back from it.
pub proof fn law_integer_leaf_round_trip(value: Integer)
    ensures
        integer_in(leaf_of(value)) == Ok::<Integer, ConversionError>(value),
{
}

/// One emitted atom of a flattened value.
///
/// A header introduces an aggregate at `sub_index`; once the stream is
/// final its value is a 256-bit number whose upper half is the aggregate's
/// declared length and whose lower half is the number of items under it. Any
/// other item is a leaf at `sub_index`.
#[derive(Clone, Copy, Debug, PartialEq, Eq)]
pub struct ValueItem {
    pub sub_index: SubIndex,
    pub header: bool,
    pub value: SimpleValue,
}

/// The items of one flattened value, in the order of emission.
pub type ValueItems = Vec<ValueItem>;

/// What flattening one runtime value yields: the items, and for each
/// container that was passed the path at which it stands.
pub struct TracedValue {
    pub items: Vec<ValueItem>,
    pub container_sub_indexes: BTreeMap<usize, SubIndex>,
}

/// A traced value as mathematics sees it.
pub struct TracedValueView {
    pub items: Seq<ValueItem>,
    pub container_sub_indexes: Map<usize, SubIndex>,
}

impl View for TracedValue {
    type V = TracedValueView;

    open spec fn view(&self) -> TracedValueView {
        TracedValueView {
            items: self.items@,
            container_sub_indexes: self.container_sub_indexes@,
        }
    }
}

} // verus!

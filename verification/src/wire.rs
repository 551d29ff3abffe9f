//! The transport's wire-value grammar.
//!
//! A [`WireValue`] is one node of the dynamically typed value tree exchanged
//! with the message transport: scalars of several widths, strings, object
//! references, and nested arrays and structs.  Each node owns its children
//! outright, so a value is a finite tree.  The mathematical model of a value
//! is [`WireSpec`], where strings are character sequences and the children of
//! a composite are a `Seq`.

use vstd::prelude::*;

verus! {

broadcast use vstd::std_specs::vec::axiom_vec_decreases_to_view, vstd::seq::axiom_seq_index_decreases;

/// One wire value.
///
/// `Array` carries the element count that the transport declares alongside
/// the elements themselves; the encoder only ever constructs arrays whose
/// declared count equals the element count, while the decoder trusts the
/// declared count, as the transport's grammar prescribes.  `Double` carries
/// the raw bit pattern of an IEEE-754 double: the codec never does arithmetic
/// on the number, and the transport glue converts at the boundary.
#[derive(Debug, PartialEq)]
pub enum WireValue {
    Bool(bool),
    Byte(u8),
    Int16(i16),
    UInt16(u16),
    Int32(i32),
    UInt32(u32),
    Int64(i64),
    UInt64(u64),
    Double(u64),
    Str(String),
    ObjectPath(String),
    Array(Vec<WireValue>, i32),
    Struct(Vec<WireValue>),
}

/// The mathematical model of a [`WireValue`].
pub enum WireSpec {
    Bool(bool),
    Byte(u8),
    Int16(i16),
    UInt16(u16),
    Int32(i32),
    UInt32(u32),
    Int64(i64),
    UInt64(u64),
    Double(u64),
    Str(Seq<char>),
    ObjectPath(Seq<char>),
    Array(Seq<WireSpec>, int),
    Struct(Seq<WireSpec>),
}

/// The models of a sequence of wire values, in order.  The bounds test keeps
/// the recursion well founded; the out-of-range arm is never reached for the
/// indices the sequence constructor uses.
pub open spec fn wire_views(s: Seq<WireValue>) -> Seq<WireSpec>
    decreases s,
{
    Seq::new(
        s.len(),
        |i: int|
            if 0 <= i < s.len() {
                s[i].view()
            } else {
                WireSpec::Bool(false)
            },
    )
}

impl View for WireValue {
    type V = WireSpec;

    open spec fn view(&self) -> WireSpec
        decreases self,
    {
        match self {
            WireValue::Bool(b) => WireSpec::Bool(*b),
            WireValue::Byte(n) => WireSpec::Byte(*n),
            WireValue::Int16(n) => WireSpec::Int16(*n),
            WireValue::UInt16(n) => WireSpec::UInt16(*n),
            WireValue::Int32(n) => WireSpec::Int32(*n),
            WireValue::UInt32(n) => WireSpec::UInt32(*n),
            WireValue::Int64(n) => WireSpec::Int64(*n),
            WireValue::UInt64(n) => WireSpec::UInt64(*n),
            WireValue::Double(bits) => WireSpec::Double(*bits),
            WireValue::Str(s) => WireSpec::Str(s@),
            WireValue::ObjectPath(s) => WireSpec::ObjectPath(s@),
            WireValue::Array(items, n) => WireSpec::Array(wire_views(items@), *n as int),
            WireValue::Struct(items) => WireSpec::Struct(wire_views(items@)),
        }
    }
}

impl DeepView for WireValue {
    type V = WireSpec;

    open spec fn deep_view(&self) -> WireSpec {
        self.view()
    }
}

} // verus!

//! The tagged values that flow through the operand stack.
//!
//! [`StackValue`] is a closed variant type: every value carries its tag, and
//! no payload is ever read without checking it. A floating-point value is
//! carried as the raw bit pattern of an IEEE 754 single-precision number; the
//! interpreter moves and compares these bits for identity with zero, but
//! never does floating-point arithmetic itself (see the crate root).

use vstd::prelude::*;

use crate::stack::StackComponent;

verus! {

/// A tagged value: the discriminated union the interpreter computes over.
#[derive(Clone, Debug, PartialEq)]
pub enum StackValue {
    /// A 32-bit signed integer.
    Integer(i32),
    /// The bit pattern of an IEEE 754 single-precision number.
    Float(u32),
    /// An 8-bit unsigned byte.
    Byte(u8),
    /// An owned, variable-length sequence of bytes: opaque payloads such as
    /// text in arbitrary encodings, binary blobs, addresses or hashes.
    ByteArray(Vec<u8>),
    /// A truth value.
    Bool(bool),
}

/// The mathematical shadow of a [`StackValue`]: the same closed variant
/// type, with the byte-array payload as a sequence.
pub enum ValueModel {
    /// A 32-bit signed integer.
    Int(i32),
    /// The bit pattern of an IEEE 754 single-precision number.
    Float(u32),
    /// An 8-bit unsigned byte.
    Byte(u8),
    /// A sequence of bytes.
    Bytes(Seq<u8>),
    /// A truth value.
    Bool(bool),
}

impl View for StackValue {
    type V = ValueModel;

    open spec fn view(&self) -> ValueModel {
        match self {
            StackValue::Integer(i) => ValueModel::Int(*i),
            StackValue::Float(bits) => ValueModel::Float(*bits),
            StackValue::Byte(b) => ValueModel::Byte(*b),
            StackValue::ByteArray(bytes) => ValueModel::Bytes(bytes@),
            StackValue::Bool(b) => ValueModel::Bool(*b),
        }
    }
}

/// The models of a sequence of tagged values.
pub open spec fn values_view(s: Seq<StackValue>) -> Seq<ValueModel> {
    s.map_values(|v: StackValue| v@)
}

/// The operand stack of the interpreter: a bounded stack of tagged values.
pub type CompositeStack = StackComponent<StackValue>;

/// Taking the models of a sequence commutes with pushing one value.
pub proof fn values_view_push(s: Seq<StackValue>, v: StackValue)
    ensures
        values_view(s.push(v)) == values_view(s).push(v@),
{
    assert(values_view(s.push(v)) =~= values_view(s).push(v@));
}

/// Taking the models of a sequence commutes with dropping the last value.
pub proof fn values_view_drop_last(s: Seq<StackValue>)
    requires
        s.len() > 0,
    ensures
        values_view(s.drop_last()) == values_view(s).drop_last(),
        s.last()@ == values_view(s).last(),
{
    assert(values_view(s.drop_last()) =~= values_view(s).drop_last());
}

/// Taking the models of a sequence commutes with taking a prefix.
pub proof fn values_view_take(s: Seq<StackValue>, k: int)
    requires
        0 <= k <= s.len(),
    ensures
        values_view(s.take(k)) == values_view(s).take(k),
{
    assert(values_view(s.take(k)) =~= values_view(s).take(k));
}

/// Taking the models of a sequence commutes with taking a subrange.
pub proof fn values_view_subrange(s: Seq<StackValue>, a: int, b: int)
    requires
        0 <= a <= b <= s.len(),
    ensures
        values_view(s.subrange(a, b)) == values_view(s).subrange(a, b),
{
    assert(values_view(s.subrange(a, b)) =~= values_view(s).subrange(a, b));
}

} // verus!

//! The externally visible result representation.
//!
//! A finished run is reported across the boundary as a tag plus a payload.
//! This module holds the tag set, the description of a transferred byte
//! buffer, and the two total mappings the boundary needs: from a tagged
//! value to its result tag, and from a run error to its small integer code.
//! The caller-facing record itself (a C-layout union, read under the tag) is
//! assembled outside the verified library from exactly these pieces.

use vstd::prelude::*;

use crate::composite_stack::StackValue;
use crate::stack::StackError;

verus! {

/// The tag of an externally visible result.
#[derive(Clone, Copy, Debug, PartialEq, Eq)]
pub enum VMResultTag {
    /// The run produced a 32-bit signed integer.
    Integer,
    /// The run produced a floating-point number.
    Float,
    /// The run produced a byte.
    Byte,
    /// The run produced a byte array, handed over as an owned buffer.
    ByteArray,
    /// The run produced a truth value.
    Bool,
    /// The run failed with a small integer error code.
    Error,
}

/// A byte buffer whose ownership has been transferred to the caller: the
/// buffer's address, its exact length, and the capacity of its allocation.
/// The receiver must later hand all three back, unchanged, to the dedicated
/// release operation, exactly once.
#[derive(Clone, Copy, Debug, PartialEq, Eq)]
pub struct ByteArrayPtr {
    /// The address of the buffer's first byte.
    pub ptr: usize,
    /// The number of bytes in the buffer.
    pub len: usize,
    /// The capacity of the allocation backing the buffer.
    pub capacity: usize,
}

/// The result tag under which a final tagged value is reported.
pub open spec fn spec_value_tag(v: StackValue) -> VMResultTag {
    match v {
        StackValue::Integer(_) => VMResultTag::Integer,
        StackValue::Float(_) => VMResultTag::Float,
        StackValue::Byte(_) => VMResultTag::Byte,
        StackValue::ByteArray(_) => VMResultTag::ByteArray,
        StackValue::Bool(_) => VMResultTag::Bool,
    }
}

/// Maps a final tagged value to its result tag.
pub fn value_tag(v: &StackValue) -> (t: VMResultTag)
    ensures
        t == spec_value_tag(*v),
{
    match v {
        StackValue::Integer(_) => VMResultTag::Integer,
        StackValue::Float(_) => VMResultTag::Float,
        StackValue::Byte(_) => VMResultTag::Byte,
        StackValue::ByteArray(_) => VMResultTag::ByteArray,
        StackValue::Bool(_) => VMResultTag::Bool,
    }
}

/// The small integer code under which a run error is reported.
pub open spec fn spec_error_code(e: StackError) -> i32 {
    match e {
        StackError::StackUnderFlow => 0,
        StackError::StackOverFlow => 1,
        StackError::StackInvalidType => 2,
        StackError::DivisionByZero => 3,
    }
}

/// Maps a run error to its small, disjoint integer code.
pub fn error_code(e: &StackError) -> (c: i32)
    ensures
        c == spec_error_code(*e),
{
    match e {
        StackError::StackUnderFlow => 0,
        StackError::StackOverFlow => 1,
        StackError::StackInvalidType => 2,
        StackError::DivisionByZero => 3,
    }
}

} // verus!

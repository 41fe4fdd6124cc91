//! Instructions, and the decoding of caller-supplied instruction records.
//!
//! A caller hands the interpreter a flat array of fixed-layout records, each
//! a one-byte opcode tag and a four-byte payload. [`decode_instruction`]
//! translates one record into an [`OpCode`] by tag-driven dispatch; an
//! unrecognized tag yields `None`, which the caller must treat as a fatal
//! configuration error (a caller/interpreter version mismatch), not as a
//! runtime condition.

use vstd::prelude::*;

verus! {

/// One instruction: an opcode and, for the push and pack instructions, an
/// inline operand.
#[allow(non_camel_case_types)]
#[derive(Clone, Copy, Debug, PartialEq)]
pub enum OpCode {
    /// Push a tagged integer literal.
    PUSHINT(i32),
    /// Push a tagged floating-point literal, carried as its bit pattern.
    PUSHFLOAT(u32),
    /// Push a tagged byte literal.
    PUSHBYTE(u8),
    /// Pop the top `n` values, all of which must be bytes, and push one byte
    /// array holding them in stack order (deepest first).
    PACK(u32),
    /// Discard the top value.
    POP,
    /// Pop two operands and push their sum.
    ADD,
    /// Pop two operands and push their difference.
    SUB,
    /// Pop two operands and push their product.
    MUL,
    /// Pop two operands and push their quotient.
    DIV,
    /// Pop two operands and push whether they are equal.
    EQ,
    /// Pop two operands and push whether the deeper one is greater.
    GT,
    /// Pop two operands and push whether the deeper one is greater or equal.
    GTE,
    /// Pop two operands and push whether the deeper one is smaller.
    LT,
    /// Pop two operands and push whether the deeper one is smaller or equal.
    LTE,
    /// Terminate the run; the result is the current top of the stack.
    HALT,
    /// Pop two byte arrays and push their concatenation, the deeper one's
    /// bytes first.
    CONCAT,
}

/// One caller-supplied instruction record, in the fixed layout of the
/// boundary: a one-byte opcode tag and the record's four payload bytes, read
/// as a little-endian 32-bit word. The push and pack instructions interpret
/// the word per their operand type; a byte operand sits in the word's
/// least-significant byte.
#[derive(Clone, Copy, Debug, PartialEq)]
pub struct Operation {
    /// The opcode tag.
    pub kind: u8,
    /// The payload word.
    pub val: u32,
}

/// The meaning of one instruction record: the opcode a recognized tag
/// denotes, `None` for an unrecognized tag.
pub open spec fn spec_decode(kind: u8, val: u32) -> Option<OpCode> {
    if kind == 0x00 {
        Some(OpCode::HALT)
    } else if kind == 0x01 {
        Some(OpCode::PUSHINT(val as i32))
    } else if kind == 0x02 {
        Some(OpCode::PUSHFLOAT(val))
    } else if kind == 0x03 {
        Some(OpCode::PUSHBYTE((val & 0xFF) as u8))
    } else if kind == 0x04 {
        Some(OpCode::PACK(val))
    } else if kind == 0x05 {
        Some(OpCode::POP)
    } else if kind == 0x06 {
        Some(OpCode::ADD)
    } else if kind == 0x07 {
        Some(OpCode::SUB)
    } else if kind == 0x08 {
        Some(OpCode::MUL)
    } else if kind == 0x09 {
        Some(OpCode::DIV)
    } else if kind == 0x0A {
        Some(OpCode::EQ)
    } else if kind == 0x0B {
        Some(OpCode::GT)
    } else if kind == 0x0C {
        Some(OpCode::GTE)
    } else if kind == 0x0D {
        Some(OpCode::LT)
    } else if kind == 0x0E {
        Some(OpCode::LTE)
    } else if kind == 0x0F {
        Some(OpCode::CONCAT)
    } else {
        None
    }
}

/// Decodes one instruction record by tag-driven dispatch.
pub fn decode_instruction(record: Operation) -> (r: Option<OpCode>)
    ensures
        r == spec_decode(record.kind, record.val),
{
    match record.kind {
        0x00 => Some(OpCode::HALT),
        0x01 => Some(OpCode::PUSHINT(#[verifier::truncate] (record.val as i32))),
        0x02 => Some(OpCode::PUSHFLOAT(record.val)),
        0x03 => Some(OpCode::PUSHBYTE((record.val & 0xFF) as u8)),
        0x04 => Some(OpCode::PACK(record.val)),
        0x05 => Some(OpCode::POP),
        0x06 => Some(OpCode::ADD),
        0x07 => Some(OpCode::SUB),
        0x08 => Some(OpCode::MUL),
        0x09 => Some(OpCode::DIV),
        0x0A => Some(OpCode::EQ),
        0x0B => Some(OpCode::GT),
        0x0C => Some(OpCode::GTE),
        0x0D => Some(OpCode::LT),
        0x0E => Some(OpCode::LTE),
        0x0F => Some(OpCode::CONCAT),
        _ => None,
    }
}

/// The meaning of a whole record array: every record decoded, `None` as soon
/// as one tag is unrecognized.
pub open spec fn spec_decode_program(records: Seq<Operation>) -> Option<Seq<OpCode>>
    decreases records.len(),
{
    if records.len() == 0 {
        Some(Seq::empty())
    } else {
        match spec_decode(records[0].kind, records[0].val) {
            None => None,
            Some(op) => match spec_decode_program(records.drop_first()) {
                None => None,
                Some(rest) => Some(seq![op] + rest),
            },
        }
    }
}

/// Decodes a whole record array, in order; `None` exactly when some record's
/// tag is unrecognized.
pub fn decode_program(records: &Vec<Operation>) -> (r: Option<Vec<OpCode>>)
    ensures
        match r {
            Some(ops) => spec_decode_program(records@) == Some(ops@),
            None => spec_decode_program(records@) is None,
        },
{
    let mut ops: Vec<OpCode> = Vec::new();
    let mut i: usize = 0;
    proof {
        assert(records@.skip(0) =~= records@);
        if spec_decode_program(records@) is Some {
            let all = spec_decode_program(records@)->Some_0;
            assert(Seq::<OpCode>::empty() + all =~= all);
        }
    }
    while i < records.len()
        invariant
            i <= records.len(),
            spec_decode_program(records@) matches Some(all) ==> {
                &&& spec_decode_program(records@.skip(i as int)) matches Some(rest)
                &&& all == ops@ + rest
            },
            spec_decode_program(records@) is None ==> spec_decode_program(
                records@.skip(i as int),
            ) is None,
            ops@.len() == i,
        decreases records.len() - i,
    {
        proof {
            assert(records@.skip(i as int)[0] == records@[i as int]);
            assert(records@.skip(i as int).drop_first() =~= records@.skip(i + 1));
        }
        match decode_instruction(records[i]) {
            Some(op) => {
                ops.push(op);
                proof {
                    if spec_decode_program(records@) is Some {
                        let all = spec_decode_program(records@)->Some_0;
                        let rest = spec_decode_program(records@.skip(i as int))->Some_0;
                        let rest2 = spec_decode_program(records@.skip(i + 1))->Some_0;
                        assert(rest == seq![op] + rest2);
                        assert(ops@ + rest2 =~= all);
                    }
                }
            },
            None => {
                proof {
                    assert(spec_decode_program(records@.skip(i as int)) is None);
                    lemma_decode_prefix_none(records@, i as int);
                }
                return None;
            },
        }
        i = i + 1;
    }
    proof {
        assert(records@.skip(records@.len() as int) =~= Seq::<Operation>::empty());
        if spec_decode_program(records@) is Some {
            assert(spec_decode_program(records@)->Some_0 =~= ops@);
        } else {
            assert(false);
        }
    }
    Some(ops)
}

/// When the suffix starting at `i` does not decode as a whole, the whole
/// array does not decode either.
proof fn lemma_decode_prefix_none(records: Seq<Operation>, i: int)
    requires
        0 <= i <= records.len(),
        spec_decode_program(records.skip(i)) is None,
    ensures
        spec_decode_program(records) is None,
    decreases i,
{
    if i > 0 {
        assert(records.skip(1).skip(i - 1) =~= records.skip(i));
        lemma_decode_prefix_none(records.skip(1), i - 1);
        assert(records.drop_first() =~= records.skip(1));
    } else {
        assert(records.skip(0) =~= records);
    }
}

} // verus!

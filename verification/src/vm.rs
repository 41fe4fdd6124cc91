//! The interpreter: a fetch-decode-execute loop over the operand stack.
//!
//! The meaning of a run is given by the spec functions [`spec_step`] (one
//! instruction against a stack of value models) and [`spec_run`] (the loop:
//! fetch at the instruction pointer, advance it, execute, until the run
//! stops). [`VirtualMachine::execute`] and [`VM::resume`] are verified to
//! follow them
//! exactly.
//!
//! A run stops in one of three ways: done with the final value, failed with
//! a [`StackError`], or paused with a [`RunOutcome::Request`] because an
//! instruction needs a floating-point result the interpreter does not
//! compute itself. The caller evaluates the requested operation on the two
//! reported operands — widening an integer operand to single precision — and
//! hands the result back to [`VM::resume`], which pushes it and carries on.

use vstd::prelude::*;

use crate::composite_stack::{
    values_view,
    values_view_drop_last,
    values_view_push,
    values_view_subrange,
    values_view_take,
    CompositeStack,
    StackValue,
    ValueModel,
};
use crate::op::OpCode;
use crate::stack::{spec_pop, spec_pop_n, spec_push, FrameStack, Stack, StackComponent, StackError};

verus! {

/// A binary operator an instruction applies to two popped operands.
#[derive(Clone, Copy, Debug, PartialEq, Eq)]
pub enum BinOp {
    /// Addition.
    Add,
    /// Subtraction.
    Sub,
    /// Multiplication.
    Mul,
    /// Division.
    Div,
    /// Equality.
    Eq,
    /// Strictly smaller.
    Lt,
    /// Smaller or equal.
    Lte,
    /// Strictly greater.
    Gt,
    /// Greater or equal.
    Gte,
}

/// The binary operator an opcode applies, if it applies one.
pub open spec fn binop_of(op: OpCode) -> Option<BinOp> {
    match op {
        OpCode::ADD => Some(BinOp::Add),
        OpCode::SUB => Some(BinOp::Sub),
        OpCode::MUL => Some(BinOp::Mul),
        OpCode::DIV => Some(BinOp::Div),
        OpCode::EQ => Some(BinOp::Eq),
        OpCode::LT => Some(BinOp::Lt),
        OpCode::LTE => Some(BinOp::Lte),
        OpCode::GT => Some(BinOp::Gt),
        OpCode::GTE => Some(BinOp::Gte),
        _ => None,
    }
}

/// Whether an operator is one of the five comparisons (its result is a
/// truth value); the other four are arithmetic.
pub open spec fn is_comparison(bop: BinOp) -> bool {
    ||| bop is Eq
    ||| bop is Lt
    ||| bop is Lte
    ||| bop is Gt
    ||| bop is Gte
}

/// The wrapped two's-complement result of an arithmetic operator on two
/// integers. The interpreter's integer arithmetic wraps around on overflow.
pub open spec fn spec_int_arith(bop: BinOp, a: i32, b: i32) -> i32
    recommends
        bop is Add || bop is Sub || bop is Mul,
{
    match bop {
        BinOp::Add => a.wrapping_add(b),
        BinOp::Sub => a.wrapping_sub(b),
        BinOp::Mul => a.wrapping_mul(b),
        _ => 0,
    }
}

/// The quotient of two integers, truncated toward zero, wrapping on the one
/// overflowing case (the smallest integer divided by minus one).
pub open spec fn spec_int_div(a: i32, b: i32) -> i32
    recommends
        b != 0,
{
    match a.checked_div(b) {
        Some(q) => q,
        None => i32::MIN,
    }
}

/// The truth value of a comparison operator on two integers.
pub open spec fn spec_compare(bop: BinOp, a: int, b: int) -> bool
    recommends
        is_comparison(bop),
{
    match bop {
        BinOp::Eq => a == b,
        BinOp::Lt => a < b,
        BinOp::Lte => a <= b,
        BinOp::Gt => a > b,
        BinOp::Gte => a >= b,
        _ => false,
    }
}

/// Whether a bit pattern denotes an IEEE 754 single-precision number equal
/// to zero: every bit but the sign bit is clear (positive or negative zero).
pub open spec fn spec_float_is_zero(bits: u32) -> bool {
    bits & 0x7FFF_FFFF == 0
}

/// Whether two operands form a numeric pair with at least one
/// floating-point member: the combinations an arithmetic or comparison
/// instruction hands out for floating-point evaluation.
pub open spec fn float_pair(l: ValueModel, r: ValueModel) -> bool {
    ||| l is Float && r is Float
    ||| l is Int && r is Float
    ||| l is Float && r is Int
}

/// Whether a comparison instruction is defined on two operands: same-tag
/// integers, same-tag bytes, or a numeric pair involving a float.
pub open spec fn comparable(l: ValueModel, r: ValueModel) -> bool {
    ||| l is Int && r is Int
    ||| l is Byte && r is Byte
    ||| float_pair(l, r)
}

/// What applying a binary operator to two popped operands yields.
pub enum BinOpModel {
    /// The operands are acceptable and the result is this value.
    Push(ValueModel),
    /// The operation fails with this error.
    Fail(StackError),
    /// The result is a floating-point computation the caller must perform.
    Ask,
}

/// The meaning of a binary operator on two operands, the deeper-stacked one
/// first. Integer pairs are computed outright; a pair involving a float is
/// handed out, except that a division whose divisor is integer zero or a
/// zero bit pattern fails first; every other pair is an invalid-type error.
pub open spec fn spec_binop(bop: BinOp, l: ValueModel, r: ValueModel) -> BinOpModel {
    if l is Int && r is Int {
        let a = l->Int_0;
        let b = r->Int_0;
        if is_comparison(bop) {
            BinOpModel::Push(ValueModel::Bool(spec_compare(bop, a as int, b as int)))
        } else if bop is Div {
            if b == 0 {
                BinOpModel::Fail(StackError::DivisionByZero)
            } else {
                BinOpModel::Push(ValueModel::Int(spec_int_div(a, b)))
            }
        } else {
            BinOpModel::Push(ValueModel::Int(spec_int_arith(bop, a, b)))
        }
    } else if l is Byte && r is Byte && is_comparison(bop) {
        BinOpModel::Push(
            ValueModel::Bool(spec_compare(bop, l->Byte_0 as int, r->Byte_0 as int)),
        )
    } else if float_pair(l, r) {
        if bop is Div {
            if r matches ValueModel::Int(b) && b == 0 {
                BinOpModel::Fail(StackError::DivisionByZero)
            } else if r matches ValueModel::Float(bits) && spec_float_is_zero(bits) {
                BinOpModel::Fail(StackError::DivisionByZero)
            } else {
                BinOpModel::Ask
            }
        } else {
            BinOpModel::Ask
        }
    } else {
        BinOpModel::Fail(StackError::StackInvalidType)
    }
}

/// Whether every value of a group is a byte.
pub open spec fn all_bytes(g: Seq<ValueModel>) -> bool {
    forall|i: int| 0 <= i < g.len() ==> g[i] is Byte
}

/// The bytes of a group of byte values, in group order.
pub open spec fn bytes_of(g: Seq<ValueModel>) -> Seq<u8> {
    g.map_values(|v: ValueModel| v->Byte_0)
}

/// How one instruction leaves the stack: the run continues with the new
/// stack, or it stops with a final stack and an outcome.
pub enum StepModel {
    /// The run continues against this stack.
    Next(Seq<ValueModel>),
    /// The run stops, leaving this stack, with this outcome.
    Stop(Seq<ValueModel>, RunModel),
}

/// The outcome of a run, at the model level.
pub enum RunModel {
    /// The run terminated; this is the final top-of-stack value.
    Done(ValueModel),
    /// The run failed with this error.
    Fault(StackError),
    /// The run paused: the caller must evaluate this operator on these two
    /// operands (deeper-stacked operand first) and resume with the result.
    Request(BinOp, ValueModel, ValueModel),
}

/// What halting yields: the top value is popped and reported, or the halt
/// fails on an empty stack.
pub open spec fn spec_halt(s: Seq<ValueModel>) -> (Seq<ValueModel>, RunModel) {
    let (s2, r) = spec_pop(s);
    match r {
        Ok(v) => (s2, RunModel::Done(v)),
        Err(e) => (s2, RunModel::Fault(e)),
    }
}

/// A push in the middle of a step: the run continues after a successful
/// push, and stops with an overflow fault, leaving the stack as it was,
/// after a failed one.
pub open spec fn spec_step_push(s: Seq<ValueModel>, cap: nat, v: ValueModel) -> StepModel {
    let (s2, r) = spec_push(s, cap, v);
    if r is Err {
        StepModel::Stop(s, RunModel::Fault(StackError::StackOverFlow))
    } else {
        StepModel::Next(s2)
    }
}

/// A binary-operator step: pop the right operand, pop the left operand
/// (each pop may underflow, and a value already popped stays popped), then
/// apply the operator per [`spec_binop`].
pub open spec fn spec_step_binop(bop: BinOp, s: Seq<ValueModel>, cap: nat) -> StepModel {
    if s.len() == 0 {
        StepModel::Stop(s, RunModel::Fault(StackError::StackUnderFlow))
    } else if s.len() == 1 {
        StepModel::Stop(s.drop_last(), RunModel::Fault(StackError::StackUnderFlow))
    } else {
        let l = s[s.len() - 2];
        let r = s[s.len() - 1];
        let s2 = s.take(s.len() - 2);
        match spec_binop(bop, l, r) {
            BinOpModel::Push(v) => spec_step_push(s2, cap, v),
            BinOpModel::Fail(e) => StepModel::Stop(s2, RunModel::Fault(e)),
            BinOpModel::Ask => StepModel::Stop(s2, RunModel::Request(bop, l, r)),
        }
    }
}

/// The meaning of one instruction against a stack of value models, for a
/// stack of the given capacity. The instruction pointer has already
/// advanced; it plays no part here.
pub open spec fn spec_step(op: OpCode, s: Seq<ValueModel>, cap: nat) -> StepModel {
    match op {
        OpCode::HALT => {
            let (s2, o) = spec_halt(s);
            StepModel::Stop(s2, o)
        },
        OpCode::PUSHINT(i) => spec_step_push(s, cap, ValueModel::Int(i)),
        OpCode::PUSHFLOAT(bits) => spec_step_push(s, cap, ValueModel::Float(bits)),
        OpCode::PUSHBYTE(b) => spec_step_push(s, cap, ValueModel::Byte(b)),
        OpCode::POP => {
            let (s2, r) = spec_pop(s);
            match r {
                Ok(_) => StepModel::Next(s2),
                Err(e) => StepModel::Stop(s2, RunModel::Fault(e)),
            }
        },
        OpCode::PACK(u) => {
            let (s2, r) = spec_pop_n(s, u as nat, false);
            match r {
                Err(e) => StepModel::Stop(s2, RunModel::Fault(e)),
                Ok(group) => {
                    if all_bytes(group) {
                        spec_step_push(s2, cap, ValueModel::Bytes(bytes_of(group)))
                    } else {
                        StepModel::Stop(s2, RunModel::Fault(StackError::StackInvalidType))
                    }
                },
            }
        },
        OpCode::CONCAT => {
            if s.len() == 0 {
                StepModel::Stop(s, RunModel::Fault(StackError::StackUnderFlow))
            } else if s.len() == 1 {
                StepModel::Stop(s.drop_last(), RunModel::Fault(StackError::StackUnderFlow))
            } else {
                let l = s[s.len() - 2];
                let r = s[s.len() - 1];
                let s2 = s.take(s.len() - 2);
                if l is Bytes && r is Bytes {
                    spec_step_push(s2, cap, ValueModel::Bytes(l->Bytes_0 + r->Bytes_0))
                } else {
                    StepModel::Stop(s2, RunModel::Fault(StackError::StackInvalidType))
                }
            }
        },
        _ => spec_step_binop(binop_of(op)->Some_0, s, cap),
    }
}

/// The meaning of running from a state: fetch at the instruction pointer,
/// advance it, execute, and repeat until a step stops the run; past the end
/// of the instructions, halt implicitly, exactly as an explicit halt does.
/// Yields the final stack, the final instruction pointer, and the outcome.
pub open spec fn spec_run(prog: Seq<OpCode>, cap: nat, s: Seq<ValueModel>, ip: nat) -> (
    Seq<ValueModel>,
    nat,
    RunModel,
)
    decreases prog.len() - ip,
{
    if ip >= prog.len() {
        let (s2, o) = spec_halt(s);
        (s2, ip, o)
    } else {
        match spec_step(prog[ip as int], s, cap) {
            StepModel::Next(s2) => spec_run(prog, cap, s2, (ip + 1) as nat),
            StepModel::Stop(s2, o) => (s2, (ip + 1) as nat, o),
        }
    }
}

/// One unfolding of [`spec_run`] at an in-bounds instruction pointer.
proof fn lemma_run_unfold(prog: Seq<OpCode>, cap: nat, s: Seq<ValueModel>, ip: nat)
    requires
        ip < prog.len(),
    ensures
        spec_run(prog, cap, s, ip) == (match spec_step(prog[ip as int], s, cap) {
            StepModel::Next(s2) => spec_run(prog, cap, s2, (ip + 1) as nat),
            StepModel::Stop(s2, o) => (s2, (ip + 1) as nat, o),
        }),
{
}

/// How a run reports back: the mirror of [`RunModel`] with executable
/// payloads.
#[derive(Debug, PartialEq)]
pub enum RunOutcome {
    /// The run terminated; this is the final top-of-stack value.
    Done(StackValue),
    /// The run failed with this error.
    Fault(StackError),
    /// The run paused: the caller must evaluate this operator on these two
    /// operands (deeper-stacked operand first, integers widened to single
    /// precision) and resume with the result.
    Request(BinOp, StackValue, StackValue),
}

impl View for RunOutcome {
    type V = RunModel;

    open spec fn view(&self) -> RunModel {
        match self {
            RunOutcome::Done(v) => RunModel::Done(v@),
            RunOutcome::Fault(e) => RunModel::Fault(*e),
            RunOutcome::Request(bop, l, r) => RunModel::Request(*bop, l@, r@),
        }
    }
}

/// The interpreter: a bounded operand stack, an immutable instruction
/// sequence, and an instruction pointer.
pub struct VM {
    stack: CompositeStack,
    instructions: Vec<OpCode>,
    ip: usize,
}

/// How a finished call of [`VirtualMachine::execute`] relates the machine it ran to the
/// machine it leaves behind and the outcome it reports: exactly as
/// [`spec_run`] from the old state says.
pub open spec fn executes_to(pre: VM, post: VM, o: RunModel) -> bool {
    let (s2, ip2, o2) = spec_run(pre.prog(), pre.cap(), pre.stack_model(), pre.ip_model());
    &&& post.stack_model() == s2
    &&& post.ip_model() == ip2
    &&& o == o2
    &&& post.prog() == pre.prog()
    &&& post.cap() == pre.cap()
    &&& post.frame_model() == pre.frame_model()
    &&& post.frame_cap() == pre.frame_cap()
}

/// How a finished call of [`VM::resume`] relates the machine and the
/// outcome to the old state and the value handed back: the value is pushed
/// (a full stack faults with an overflow, changing nothing), then the run
/// carries on exactly as [`spec_run`] says.
pub open spec fn resumes_to(pre: VM, post: VM, v: ValueModel, o: RunModel) -> bool {
    let (s1, pr) = spec_push(pre.stack_model(), pre.cap(), v);
    if pr is Err {
        &&& post.stack_model() == pre.stack_model()
        &&& post.ip_model() == pre.ip_model()
        &&& o == RunModel::Fault(StackError::StackOverFlow)
        &&& post.prog() == pre.prog()
        &&& post.cap() == pre.cap()
        &&& post.frame_model() == pre.frame_model()
        &&& post.frame_cap() == pre.frame_cap()
    } else {
        let (s2, ip2, o2) = spec_run(pre.prog(), pre.cap(), s1, pre.ip_model());
        &&& post.stack_model() == s2
        &&& post.ip_model() == ip2
        &&& o == o2
        &&& post.prog() == pre.prog()
        &&& post.cap() == pre.cap()
        &&& post.frame_model() == pre.frame_model()
        &&& post.frame_cap() == pre.frame_cap()
    }
}

impl VM {
    /// The instruction sequence.
    pub closed spec fn prog(&self) -> Seq<OpCode> {
        self.instructions@
    }

    /// The operand stack's fixed capacity.
    pub closed spec fn cap(&self) -> nat {
        self.stack.capacity()
    }

    /// The models of the operand stack's values, bottom first.
    pub closed spec fn stack_model(&self) -> Seq<ValueModel> {
        values_view(self.stack.values())
    }

    /// The instruction pointer.
    pub closed spec fn ip_model(&self) -> nat {
        self.ip as nat
    }

    /// The models of the frames on the owned stack's auxiliary sequence,
    /// bottom first. The interpreter never touches them: every run leaves
    /// them exactly as they were.
    pub closed spec fn frame_model(&self) -> Seq<Seq<ValueModel>> {
        self.stack.frames().map_values(|f: Seq<StackValue>| values_view(f))
    }

    /// The fixed capacity of the owned stack's auxiliary frame sequence.
    pub closed spec fn frame_cap(&self) -> nat {
        self.stack.frame_capacity()
    }

    /// Builds an interpreter owning a fresh stack of the given positive
    /// capacity and the given instruction sequence, ready to run from the
    /// first instruction.
    pub fn new(stack_size: usize, instructions: Vec<OpCode>) -> (r: Self)
        requires
            stack_size > 0,
        ensures
            r.prog() == instructions@,
            r.cap() == stack_size as nat,
            r.stack_model() == Seq::<ValueModel>::empty(),
            r.ip_model() == 0,
            r.frame_model() == Seq::<Seq<ValueModel>>::empty(),
            r.frame_cap() == stack_size as nat,
    {
        let r = VM { stack: StackComponent::new(stack_size), instructions, ip: 0 };
        proof {
            assert(r.stack_model() =~= Seq::<ValueModel>::empty());
            assert(r.frame_model() =~= Seq::<Seq<ValueModel>>::empty());
        }
        r
    }

    /// Pushes the result of a floating-point operation the run paused for,
    /// then carries the run on; behaves exactly as [`resumes_to`] says.
    pub fn resume(&mut self, value: StackValue) -> (r: RunOutcome)
        ensures
            resumes_to(*old(self), *final(self), value@, r@),
    {
        let ghost pre_values = self.stack.values();
        match self.stack.push(value) {
            Err(_) => RunOutcome::Fault(StackError::StackOverFlow),
            Ok(_) => {
                proof {
                    values_view_push(pre_values, value);
                }
                self.run_loop()
            },
        }
    }

    /// The loop shared by [`VirtualMachine::execute`] and [`VM::resume`].
    #[verifier::loop_isolation(false)]
    fn run_loop(&mut self) -> (r: RunOutcome)
        ensures
            executes_to(*old(self), *final(self), r@),
    {
        let ghost prog0 = self.prog();
        let ghost cap0 = self.cap();
        let ghost s0 = self.stack_model();
        let ghost ip0 = self.ip_model();
        let ghost frames0 = self.frame_model();
        let ghost frame_cap0 = self.frame_cap();
        loop
            invariant
                self.prog() == prog0,
                self.cap() == cap0,
                self.frame_model() == frames0,
                self.frame_cap() == frame_cap0,
                spec_run(prog0, cap0, self.stack_model(), self.ip_model()) == spec_run(
                    prog0,
                    cap0,
                    s0,
                    ip0,
                ),
            decreases prog0.len() - self.ip_model(),
        {
            let ghost s_before = self.stack_model();
            let ghost ip_before = self.ip_model();
            if self.ip >= self.instructions.len() {
                let ghost pre_values = self.stack.values();
                match self.stack.pop() {
                    Ok(v) => {
                        proof {
                            values_view_drop_last(pre_values);
                        }
                        return RunOutcome::Done(v);
                    },
                    Err(e) => {
                        return RunOutcome::Fault(e);
                    },
                }
            }
            let op = self.instructions[self.ip];
            self.ip = self.ip + 1;
            proof {
                lemma_run_unfold(prog0, cap0, s_before, ip_before);
            }
            match step(&mut self.stack, op) {
                Ok(_) => {
                },
                Err(out) => {
                    return out;
                },
            }
        }
    }
}

/// The interpreter interface: run until the machine stops or pauses.
pub trait VirtualMachine {
    /// Runs the fetch-decode-execute loop from the current state until the
    /// run terminates, faults, or pauses for a floating-point result.
    fn execute(&mut self) -> RunOutcome;
}

impl VirtualMachine for VM {
    /// Behaves exactly as [`spec_run`] from the old state says.
    fn execute(&mut self) -> (r: RunOutcome)
        ensures
            executes_to(*old(self), *final(self), r@),
    {
        self.run_loop()
    }
}

/// Executes one already-fetched instruction against the stack: `Ok` when
/// the run continues, `Err` with the outcome when it stops; behaves exactly
/// as [`spec_step`] says.
fn step(stack: &mut CompositeStack, op: OpCode) -> (r: Result<(), RunOutcome>)
    ensures
        final(stack).capacity() == old(stack).capacity(),
        final(stack).frames() == old(stack).frames(),
        (match spec_step(op, values_view(old(stack).values()), old(stack).capacity()) {
            StepModel::Next(s2) => r is Ok && values_view(final(stack).values()) == s2,
            StepModel::Stop(s2, o) => {
                &&& r matches Err(out) && out@ == o
                &&& values_view(final(stack).values()) == s2
            },
        }),
{
    let ghost pre_values = stack.values();
    match op {
        OpCode::HALT => {
            match stack.pop() {
                Ok(v) => {
                    proof {
                        values_view_drop_last(pre_values);
                    }
                    Err(RunOutcome::Done(v))
                },
                Err(e) => Err(RunOutcome::Fault(e)),
            }
        },
        OpCode::PUSHINT(i) => {
            match stack.push(StackValue::Integer(i)) {
                Ok(_) => {
                    proof {
                        values_view_push(pre_values, StackValue::Integer(i));
                    }
                    Ok(())
                },
                Err(_) => Err(RunOutcome::Fault(StackError::StackOverFlow)),
            }
        },
        OpCode::PUSHFLOAT(bits) => {
            match stack.push(StackValue::Float(bits)) {
                Ok(_) => {
                    proof {
                        values_view_push(pre_values, StackValue::Float(bits));
                    }
                    Ok(())
                },
                Err(_) => Err(RunOutcome::Fault(StackError::StackOverFlow)),
            }
        },
        OpCode::PUSHBYTE(b) => {
            match stack.push(StackValue::Byte(b)) {
                Ok(_) => {
                    proof {
                        values_view_push(pre_values, StackValue::Byte(b));
                    }
                    Ok(())
                },
                Err(_) => Err(RunOutcome::Fault(StackError::StackOverFlow)),
            }
        },
        OpCode::POP => {
            match stack.pop() {
                Ok(_) => {
                    proof {
                        values_view_drop_last(pre_values);
                    }
                    Ok(())
                },
                Err(e) => Err(RunOutcome::Fault(e)),
            }
        },
        OpCode::PACK(u) => step_pack(stack, u),
        OpCode::CONCAT => step_concat(stack),
        OpCode::ADD => step_binop(stack, BinOp::Add),
        OpCode::SUB => step_binop(stack, BinOp::Sub),
        OpCode::MUL => step_binop(stack, BinOp::Mul),
        OpCode::DIV => step_binop(stack, BinOp::Div),
        OpCode::EQ => step_binop(stack, BinOp::Eq),
        OpCode::LT => step_binop(stack, BinOp::Lt),
        OpCode::LTE => step_binop(stack, BinOp::Lte),
        OpCode::GT => step_binop(stack, BinOp::Gt),
        OpCode::GTE => step_binop(stack, BinOp::Gte),
    }
}

/// The pack step: pops the top `n` values in stack order, requires each to
/// be a byte, and pushes one byte array holding them in that order.
#[verifier::loop_isolation(false)]
fn step_pack(stack: &mut CompositeStack, u: u32) -> (r: Result<(), RunOutcome>)
    ensures
        final(stack).capacity() == old(stack).capacity(),
        final(stack).frames() == old(stack).frames(),
        (match spec_step(OpCode::PACK(u), values_view(old(stack).values()), old(
            stack,
        ).capacity()) {
            StepModel::Next(s2) => r is Ok && values_view(final(stack).values()) == s2,
            StepModel::Stop(s2, o) => {
                &&& r matches Err(out) && out@ == o
                &&& values_view(final(stack).values()) == s2
            },
        }),
{
    let ghost pre_values = stack.values();
    let count: usize = u as usize;
    let vals = match stack.pop_n(count, false) {
        Ok(vals) => vals,
        Err(e) => {
            return Err(RunOutcome::Fault(e));
        },
    };
    proof {
        values_view_take(pre_values, pre_values.len() - count);
        values_view_subrange(pre_values, pre_values.len() - count, pre_values.len() as int);
    }
    let ghost group = values_view(vals@);
    let mut bytes: Vec<u8> = Vec::new();
    let mut i: usize = 0;
    while i < vals.len()
        invariant
            i <= vals.len(),
            group == values_view(vals@),
            group.len() == vals@.len(),
            forall|j: int| 0 <= j < i ==> group[j] is Byte,
            bytes@.len() == i,
            forall|j: int| 0 <= j < i ==> bytes@[j] == group[j]->Byte_0,
        decreases vals.len() - i,
    {
        match &vals[i] {
            StackValue::Byte(b) => {
                bytes.push(*b);
            },
            _ => {
                proof {
                    assert(!(group[i as int] is Byte));
                }
                return Err(RunOutcome::Fault(StackError::StackInvalidType));
            },
        }
        i = i + 1;
    }
    proof {
        assert(all_bytes(group));
        assert(bytes@ =~= bytes_of(group));
    }
    let ghost mid_values = stack.values();
    match stack.push(StackValue::ByteArray(bytes)) {
        Ok(_) => {
            proof {
                values_view_push(mid_values, StackValue::ByteArray(bytes));
            }
            Ok(())
        },
        Err(_) => Err(RunOutcome::Fault(StackError::StackOverFlow)),
    }
}

/// The concatenation step: pops two byte arrays and pushes one byte array
/// holding the deeper one's bytes, then the shallower one's.
fn step_concat(stack: &mut CompositeStack) -> (r: Result<(), RunOutcome>)
    ensures
        final(stack).capacity() == old(stack).capacity(),
        final(stack).frames() == old(stack).frames(),
        (match spec_step(OpCode::CONCAT, values_view(old(stack).values()), old(
            stack,
        ).capacity()) {
            StepModel::Next(s2) => r is Ok && values_view(final(stack).values()) == s2,
            StepModel::Stop(s2, o) => {
                &&& r matches Err(out) && out@ == o
                &&& values_view(final(stack).values()) == s2
            },
        }),
{
    let ghost s0 = values_view(stack.values());
    let ghost pre_values = stack.values();
    let rhs = match stack.pop() {
        Ok(v) => v,
        Err(e) => {
            return Err(RunOutcome::Fault(e));
        },
    };
    proof {
        values_view_drop_last(pre_values);
    }
    let ghost mid_values = stack.values();
    let lhs = match stack.pop() {
        Ok(v) => v,
        Err(e) => {
            return Err(RunOutcome::Fault(e));
        },
    };
    proof {
        values_view_drop_last(mid_values);
        assert(values_view(stack.values()) =~= s0.take(s0.len() - 2));
    }
    match (lhs, rhs) {
        (StackValue::ByteArray(deep), StackValue::ByteArray(shallow)) => {
            let mut joined = deep;
            let mut tail = shallow;
            joined.append(&mut tail);
            let ghost post_pop_values = stack.values();
            match stack.push(StackValue::ByteArray(joined)) {
                Ok(_) => {
                    proof {
                        values_view_push(post_pop_values, StackValue::ByteArray(joined));
                    }
                    Ok(())
                },
                Err(_) => Err(RunOutcome::Fault(StackError::StackOverFlow)),
            }
        },
        _ => Err(RunOutcome::Fault(StackError::StackInvalidType)),
    }
}

/// The arithmetic-or-comparison step: pops the right operand, then the
/// left, and applies the operator per [`spec_binop`].
fn step_binop(stack: &mut CompositeStack, bop: BinOp) -> (r: Result<(), RunOutcome>)
    ensures
        final(stack).capacity() == old(stack).capacity(),
        final(stack).frames() == old(stack).frames(),
        (match spec_step_binop(bop, values_view(old(stack).values()), old(stack).capacity()) {
            StepModel::Next(s2) => r is Ok && values_view(final(stack).values()) == s2,
            StepModel::Stop(s2, o) => {
                &&& r matches Err(out) && out@ == o
                &&& values_view(final(stack).values()) == s2
            },
        }),
{
    let ghost s0 = values_view(stack.values());
    let ghost pre_values = stack.values();
    let rhs = match stack.pop() {
        Ok(v) => v,
        Err(e) => {
            return Err(RunOutcome::Fault(e));
        },
    };
    proof {
        values_view_drop_last(pre_values);
    }
    let ghost mid_values = stack.values();
    let lhs = match stack.pop() {
        Ok(v) => v,
        Err(e) => {
            return Err(RunOutcome::Fault(e));
        },
    };
    proof {
        values_view_drop_last(mid_values);
        assert(values_view(stack.values()) =~= s0.take(s0.len() - 2));
    }
    let outcome: StackValue = match (&lhs, &rhs) {
        (StackValue::Integer(a), StackValue::Integer(b)) => {
            if comparison_op(bop) {
                StackValue::Bool(int_compare(bop, *a, *b))
            } else if matches!(bop, BinOp::Div) {
                if *b == 0 {
                    return Err(RunOutcome::Fault(StackError::DivisionByZero));
                } else {
                    StackValue::Integer(int_div(*a, *b))
                }
            } else {
                StackValue::Integer(int_arith(bop, *a, *b))
            }
        },
        (StackValue::Byte(a), StackValue::Byte(b)) => {
            if comparison_op(bop) {
                StackValue::Bool(byte_compare(bop, *a, *b))
            } else {
                return Err(RunOutcome::Fault(StackError::StackInvalidType));
            }
        },
        (StackValue::Integer(_), StackValue::Float(bits)) | (
            StackValue::Float(_),
            StackValue::Float(bits),
        ) => {
            if matches!(bop, BinOp::Div) && *bits & 0x7FFF_FFFF == 0 {
                return Err(RunOutcome::Fault(StackError::DivisionByZero));
            }
            return Err(RunOutcome::Request(bop, lhs, rhs));
        },
        (StackValue::Float(_), StackValue::Integer(b)) => {
            if matches!(bop, BinOp::Div) && *b == 0 {
                return Err(RunOutcome::Fault(StackError::DivisionByZero));
            }
            return Err(RunOutcome::Request(bop, lhs, rhs));
        },
        _ => {
            return Err(RunOutcome::Fault(StackError::StackInvalidType));
        },
    };
    let ghost post_pop_values = stack.values();
    match stack.push(outcome) {
        Ok(_) => {
            proof {
                values_view_push(post_pop_values, outcome);
            }
            Ok(())
        },
        Err(_) => Err(RunOutcome::Fault(StackError::StackOverFlow)),
    }
}

/// A comparison instruction on an operand pair outside its defined set —
/// same-tag integers, same-tag bytes, or a numeric pair with a float —
/// always fails with an invalid-type error: the run stops with both
/// operands popped, whatever the operands hold and whatever the capacity.
pub proof fn lemma_compare_mismatch(bop: BinOp, s: Seq<ValueModel>, cap: nat)
    requires
        is_comparison(bop),
        s.len() >= 2,
        !comparable(s[s.len() - 2], s[s.len() - 1]),
    ensures
        spec_step_binop(bop, s, cap) == StepModel::Stop(
            s.take(s.len() - 2),
            RunModel::Fault(StackError::StackInvalidType),
        ),
{
}

/// Running with the instruction pointer already past the last instruction
/// halts implicitly: the stack and the outcome are exactly those of
/// [`spec_halt`], the same pop an explicit halt performs.
pub proof fn lemma_implicit_halt(prog: Seq<OpCode>, cap: nat, s: Seq<ValueModel>, ip: nat)
    requires
        ip >= prog.len(),
    ensures
        spec_run(prog, cap, s, ip) == ({
            let (s2, o) = spec_halt(s);
            (s2, ip, o)
        }),
{
}

/// Fetching an explicit halt instruction stops the run with the stack and
/// the outcome of [`spec_halt`]: together with [`lemma_implicit_halt`],
/// running off the end of the instructions and executing a halt there
/// leave the same stack and report the same outcome.
pub proof fn lemma_explicit_halt(prog: Seq<OpCode>, cap: nat, s: Seq<ValueModel>, ip: nat)
    requires
        ip < prog.len(),
        prog[ip as int] == OpCode::HALT,
    ensures
        spec_run(prog, cap, s, ip) == ({
            let (s2, o) = spec_halt(s);
            (s2, (ip + 1) as nat, o)
        }),
{
}

/// Whether an operator is a comparison, decided at run time.
fn comparison_op(bop: BinOp) -> (r: bool)
    ensures
        r == is_comparison(bop),
{
    match bop {
        BinOp::Eq | BinOp::Lt | BinOp::Lte | BinOp::Gt | BinOp::Gte => true,
        _ => false,
    }
}

/// Wrapped two's-complement integer arithmetic, per [`spec_int_arith`].
fn int_arith(bop: BinOp, a: i32, b: i32) -> (r: i32)
    requires
        bop is Add || bop is Sub || bop is Mul,
    ensures
        r == spec_int_arith(bop, a, b),
{
    match bop {
        BinOp::Add => a.wrapping_add(b),
        BinOp::Sub => a.wrapping_sub(b),
        BinOp::Mul => a.wrapping_mul(b),
        _ => 0,
    }
}

/// Truncated integer division, wrapping on its one overflowing case, per
/// [`spec_int_div`].
fn int_div(a: i32, b: i32) -> (r: i32)
    requires
        b != 0,
    ensures
        r == spec_int_div(a, b),
{
    match a.checked_div(b) {
        Some(q) => q,
        None => i32::MIN,
    }
}

/// Integer comparison, per [`spec_compare`].
fn int_compare(bop: BinOp, a: i32, b: i32) -> (r: bool)
    requires
        is_comparison(bop),
    ensures
        r == spec_compare(bop, a as int, b as int),
{
    match bop {
        BinOp::Eq => a == b,
        BinOp::Lt => a < b,
        BinOp::Lte => a <= b,
        BinOp::Gt => a > b,
        BinOp::Gte => a >= b,
        _ => false,
    }
}

/// Byte comparison, per [`spec_compare`].
fn byte_compare(bop: BinOp, a: u8, b: u8) -> (r: bool)
    requires
        is_comparison(bop),
    ensures
        r == spec_compare(bop, a as int, b as int),
{
    match bop {
        BinOp::Eq => a == b,
        BinOp::Lt => a < b,
        BinOp::Lte => a <= b,
        BinOp::Gt => a > b,
        BinOp::Gte => a >= b,
        _ => false,
    }
}

} // verus!

//! A minimal embeddable bytecode interpreter.
//!
//! A caller supplies a flat sequence of instructions; the interpreter executes
//! them against a bounded operand stack of tagged values and reports the final
//! top-of-stack value, or a small error, to its caller.
//!
//! Floating-point values travel through the interpreter as raw IEEE 754
//! single-precision bit patterns (`u32`). The interpreter itself never
//! computes with them: whenever an arithmetic or comparison instruction needs
//! a floating-point result, execution pauses and reports the pending operation
//! to the caller, who computes the result and resumes the run with it.

pub mod composite_stack;
pub mod op;
pub mod result;
pub mod stack;
pub mod vm;

//! Model of a packet-filter handle built over a foreign filter compiler and
//! a foreign BPF JIT engine.
//!
//! The foreign libraries do the heavy lifting: parsing filter text, producing
//! classic BPF instructions, and emitting native code. What this crate states
//! and proves is the wrapper's own obligations: the data model of a compiled
//! program, the decision taken after each foreign step of construction, the
//! rule that a caller only ever sees a handle holding both resources, the
//! release-exactly-once discipline for the JIT callable, and the diagnostic
//! rendering of a program's instructions.

pub mod dump;
pub mod error;
pub mod insn;
pub mod lifecycle;
pub mod matching;

//! A safe, typed instruction-emission layer for building JIT functions.
//!
//! Contexts own functions; functions, values and labels are plain handles
//! into their context's arena, and every operation checks the handles it is
//! given, so a stale or foreign handle yields an error instead of undefined
//! behaviour. Compiled functions run on a step-bounded engine for the
//! integer part of the instruction set.
pub mod compilable;
pub mod engine;
pub mod error;
pub mod function;
pub mod ir;
pub mod lemmas;
pub mod types;

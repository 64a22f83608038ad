//! The errors that the builder reports.
use vstd::prelude::*;

verus! {

/// Why an operation was refused or failed.
#[derive(Clone, Copy, Debug, PartialEq, Eq, Structural)]
pub enum JitError {
    /// The context was destroyed; every handle derived from it is dead.
    ContextDestroyed,
    /// The function handle names no function of this context.
    InvalidFunction,
    /// The function was abandoned and may no longer be used.
    FunctionAbandoned,
    /// The function is compiled: its instruction stream is frozen.
    AlreadyCompiled,
    /// The function has not been compiled yet.
    NotCompiled,
    /// A signature type was needed and a scalar one was given.
    NotASignature,
    /// A scalar type was needed and a signature was given.
    NotAScalar,
    /// The parent of a nested function is not being built.
    ParentNotBuilding,
    /// A parameter index beyond the signature's parameter count.
    ParamOutOfRange,
    /// A value that does not belong to this function (or its parent), or that
    /// carries no data.
    InvalidValue,
    /// A label that does not belong to this function.
    InvalidLabel,
    /// A label that was already bound.
    LabelAlreadyBound,
    /// Compilation found a label that was never bound.
    UnboundLabel { label: usize },
    /// A throw in a function that has not declared a catch region.
    CatcherRequired,
    /// A branch condition or table index that is not integer-like.
    ConditionType,
    /// The number of arguments differs from the signature's parameter count.
    ArgumentCount,
    /// An argument's kind differs from the signature's parameter kind.
    ArgumentType,
    /// A called function's signature differs from the one given.
    SignatureMismatch,
    /// Running the function hit an instruction that traps.
    Trap,
    /// Running the function did not finish within the step budget.
    StepLimit,
    /// Running the function reached an instruction this engine cannot run.
    Unsupported,
}

} // verus!

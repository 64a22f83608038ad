//! Properties that relate several operations of the builder.
use vstd::prelude::*;
use crate::error::JitError;
use crate::engine::{apply_outcome, run, code_of, init_regs, STEP_LIMIT};
use crate::function::{
    param_result,
    CtxModel, FnState, FuncModel, binop_outcome, unop_outcome, building_check, fn_check, value_ok,
    kind_of, label_ok, set_label_outcome, branch_outcome, plain_outcome, compile_outcome,
    all_bound,
};
use crate::ir::{Value, Label, BinOp, UnOp, Insn, InsnModel, binop_kind, unop_kind};
use crate::types::Kind;

verus! {

/// The value that a binary instruction defines has the kind that the
/// operator gives for its operands' kinds, and nothing else decides it.
pub proof fn lemma_binop_result_kind(m: CtxModel, f: usize, op: BinOp, a: Value, b: Value)
    requires
        binop_outcome(m, f, op, a, b).0 is Ok,
        m.funcs[f as int].values.len() <= usize::MAX,
    ensures
        kind_of(binop_outcome(m, f, op, a, b).1, binop_outcome(m, f, op, a, b).0->Ok_0)
            == binop_kind(op, kind_of(m, a), kind_of(m, b)),
{
}

/// The value that a unary instruction defines has the kind that the
/// operator gives for its operand's kind.
pub proof fn lemma_unop_result_kind(m: CtxModel, f: usize, op: UnOp, a: Value)
    requires
        unop_outcome(m, f, op, a).0 is Ok,
        m.funcs[f as int].values.len() <= usize::MAX,
    ensures
        kind_of(unop_outcome(m, f, op, a).1, unop_outcome(m, f, op, a).0->Ok_0) == unop_kind(op, kind_of(m, a)),
{
}

/// Adding two 32-bit integers yields a 32-bit integer, and every
/// comparison yields a 32-bit integer flag.
pub proof fn lemma_int32_add_and_compare(ka: Kind, kb: Kind)
    ensures
        binop_kind(BinOp::Add, Kind::Int32, Kind::Int32) == Kind::Int32,
        binop_kind(BinOp::Eq, ka, kb) == Kind::Int32,
        binop_kind(BinOp::Ne, ka, kb) == Kind::Int32,
        binop_kind(BinOp::Lt, ka, kb) == Kind::Int32,
        binop_kind(BinOp::Le, ka, kb) == Kind::Int32,
        binop_kind(BinOp::Gt, ka, kb) == Kind::Int32,
        binop_kind(BinOp::Ge, ka, kb) == Kind::Int32,
{
}

/// Binding a label that was just bound fails, and changes nothing.
pub proof fn lemma_label_bound_twice_fails(m: CtxModel, f: usize, l: Label)
    requires
        set_label_outcome(m, f, l).0 is Ok,
    ensures
        set_label_outcome(set_label_outcome(m, f, l).1, f, l) == (
            Err::<(), JitError>(JitError::LabelAlreadyBound),
            set_label_outcome(m, f, l).1,
        ),
{
    let m1 = set_label_outcome(m, f, l).1;
    assert(m1.funcs[f as int].labels[l.index as int] is Some);
}

/// A function with a label that was never bound does not compile, and the
/// failed compilation changes nothing.
pub proof fn lemma_unbound_label_fails_compile(m: CtxModel, f: usize, l: Label)
    requires
        fn_check(m, f) is None,
        label_ok(m, f, l),
        m.funcs[f as int].labels[l.index as int] is None,
    ensures
        compile_outcome(m, f).0 is Err,
        compile_outcome(m, f).1 == m,
{
    assert(!all_bound(m.funcs[f as int].labels));
}

/// In a function whose other labels are all bound, an unbound label that
/// is the target of a branch, then bound once, with a return after it, lets
/// the function compile.
pub proof fn lemma_branch_then_bind_compiles(m: CtxModel, f: usize, l: Label, v: Value)
    requires
        building_check(m, f) is None,
        label_ok(m, f, l),
        value_ok(m, f, v),
        m.funcs[f as int].labels[l.index as int] is None,
        forall|j: int|
            0 <= j < m.funcs[f as int].labels.len() && j != l.index ==> (
            #[trigger] m.funcs[f as int].labels[j]) is Some,
    ensures
        ({
            let m1 = branch_outcome(m, f, l).1;
            let m2 = set_label_outcome(m1, f, l).1;
            let m3 = plain_outcome(m2, f, seq![v], InsnModel::Plain(Insn::Return { value: v })).1;
            &&& branch_outcome(m, f, l).0 is Ok
            &&& set_label_outcome(m1, f, l).0 is Ok
            &&& plain_outcome(m2, f, seq![v], InsnModel::Plain(Insn::Return { value: v })).0 is Ok
            &&& compile_outcome(m3, f).0 is Ok
        }),
{
    let m1 = branch_outcome(m, f, l).1;
    let m2 = set_label_outcome(m1, f, l).1;
    let vs = seq![v];
    let m3 = plain_outcome(m2, f, vs, InsnModel::Plain(Insn::Return { value: v })).1;
    assert(value_ok(m2, f, vs[0]));
    assert(forall|j: int| 0 <= j < vs.len() ==> value_ok(m2, f, #[trigger] vs[j]));
    let labels = m3.funcs[f as int].labels;
    assert forall|j: int| 0 <= j < labels.len() implies (#[trigger] labels[j]) is Some by {
        if j != l.index {
            assert(m.funcs[f as int].labels[j] is Some);
        }
    }
}

/// Compiling a function that is being built and whose labels are all bound
/// succeeds, a path that runs off the end returning the default value;
/// afterwards
/// applying the function to as many arguments as it has parameters runs its
/// instructions.
pub proof fn lemma_compile_then_invocable(m: CtxModel, f: usize, args: Seq<i64>)
    requires
        building_check(m, f) is None,
        all_bound(m.funcs[f as int].labels),
        args.len() == m.funcs[f as int].sig.params.len(),
    ensures
        compile_outcome(m, f).0 is Ok,
        compile_outcome(m, f).1.funcs[f as int].state == FnState::Compiled,
        apply_outcome(compile_outcome(m, f).1, f, args) == run(
            code_of(m.funcs[f as int]),
            f,
            args,
            init_regs(m.funcs[f as int].values, args),
            0,
            STEP_LIMIT as nat,
        ),
{
    let m2 = compile_outcome(m, f).1;
    assert(code_of(m2.funcs[f as int]) == code_of(m.funcs[f as int]));
}

/// Compiling a function a second time, when it was not made recompilable,
/// is refused and changes nothing; when it was, it succeeds and leaves the
/// same compiled function.
pub proof fn lemma_compile_twice(m: CtxModel, f: usize)
    requires
        compile_outcome(m, f).0 is Ok,
    ensures
        !m.funcs[f as int].recompilable ==> compile_outcome(compile_outcome(m, f).1, f) == (
            Err::<(), JitError>(JitError::AlreadyCompiled),
            compile_outcome(m, f).1,
        ),
        m.funcs[f as int].recompilable ==> compile_outcome(compile_outcome(m, f).1, f) == (
            Ok::<(), JitError>(()),
            compile_outcome(m, f).1,
        ),
{
    let m2 = compile_outcome(m, f).1;
    assert(m2.funcs[f as int] == FuncModel { state: FnState::Compiled, ..m.funcs[f as int] });
    assert(m2.funcs.update(f as int, FuncModel { state: FnState::Compiled, ..m2.funcs[f as int] }) =~= m2.funcs);
}

/// A compiled function that was made recompilable accepts a new
/// instruction, which takes it back to the building state; a compiled
/// function that was not refuses it and stays compiled.
pub proof fn lemma_recompilable_accepts_edits(m: CtxModel, f: usize, op: BinOp, a: Value, b: Value)
    requires
        fn_check(m, f) is None,
        m.funcs[f as int].state == FnState::Compiled,
        value_ok(m, f, a),
        value_ok(m, f, b),
    ensures
        m.funcs[f as int].recompilable ==> binop_outcome(m, f, op, a, b).0 is Ok
            && binop_outcome(m, f, op, a, b).1.funcs[f as int].state == FnState::Building,
        !m.funcs[f as int].recompilable ==> binop_outcome(m, f, op, a, b) == (
            Err::<Value, JitError>(JitError::AlreadyCompiled),
            m,
        ),
{
}

/// Asking twice for the same parameter gives the same value and changes
/// nothing.
pub proof fn lemma_param_is_stable(m: CtxModel, f: usize, i: usize)
    requires
        fn_check(m, f) is None,
        i < m.funcs[f as int].sig.params.len(),
    ensures
        param_result(m, f, i) == Ok::<Value, JitError>(Value { ctx: m.id, func: f, index: i }),
{
}

} // verus!

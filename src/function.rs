//! Contexts, functions and instruction emission.
//!
//! A `Context` is an arena of functions. `Function`, `Value` and `Label` are
//! handles into it; every operation validates the handles it is given
//! against the context's current state.
use vstd::prelude::*;
use crate::error::JitError;
use crate::ir::{Value, Label, BinOp, UnOp, Insn, InsnModel, binop_kind, unop_kind, binop_result_kind, unop_result_kind};
use crate::compilable::Compilable;
use crate::types::{CallFlags, Kind, SigModel, Signature, Type, TypeModel, is_int_like, copy_kinds};

verus! {

/// The life cycle of a function.
#[derive(Clone, Copy, Debug, PartialEq, Eq, Structural)]
pub enum FnState {
    /// Instructions may be appended.
    Building,
    /// The instruction stream is frozen and the function may be run.
    Compiled,
    /// Its resources were released; no further use is allowed.
    Abandoned,
}

/// The mathematical form of one function.
pub struct FuncModel {
    pub sig: SigModel,
    pub parent: Option<usize>,
    pub state: FnState,
    /// The kind of each value, by index.
    pub values: Seq<Kind>,
    pub insns: Seq<InsnModel>,
    /// For each label, the index of the instruction that binds it, if any.
    pub labels: Seq<Option<usize>>,
    pub opt_level: u32,
    pub recompilable: bool,
    pub uses_catcher: bool,
}

/// The mathematical form of a context.
pub struct CtxModel {
    pub alive: bool,
    /// The identity of the context, carried by every handle made in it.
    pub id: u64,
    pub funcs: Seq<FuncModel>,
}

struct FuncData {
    sig: Signature,
    parent: Option<usize>,
    state: FnState,
    values: Vec<Kind>,
    insns: Vec<Insn>,
    labels: Vec<Option<usize>>,
    opt_level: u32,
    recompilable: bool,
    uses_catcher: bool,
}

impl FuncData {
    spec fn model(&self) -> FuncModel {
        FuncModel {
            sig: self.sig@,
            parent: self.parent,
            state: self.state,
            values: self.values@,
            insns: self.insns@.map_values(|i: Insn| i@),
            labels: self.labels@,
            opt_level: self.opt_level,
            recompilable: self.recompilable,
            uses_catcher: self.uses_catcher,
        }
    }
}

/// An isolated compilation environment that owns its functions.
pub struct Context {
    alive: bool,
    id: u64,
    funcs: Vec<FuncData>,
}

/// The parameters of each function are its first values, in order.
pub open spec fn params_first(fm: FuncModel) -> bool {
    &&& fm.sig.params.len() <= fm.values.len()
    &&& forall|j: int| 0 <= j < fm.sig.params.len() ==> fm.values[j] == #[trigger] fm.sig.params[j]
}

impl Context {
    #[verifier::type_invariant]
    closed spec fn inv(&self) -> bool {
        forall|i: int| 0 <= i < self@.funcs.len() ==> params_first(#[trigger] self@.funcs[i])
    }

    /// Every count in a context fits in `usize`: the number of functions,
    /// and the number of values, instructions and labels of each.
    pub proof fn lemma_lengths_fit(&self)
        ensures
            self@.funcs.len() <= usize::MAX,
            forall|i: int|
                0 <= i < self@.funcs.len() ==> {
                    &&& (#[trigger] self@.funcs[i]).values.len() <= usize::MAX
                    &&& self@.funcs[i].insns.len() <= usize::MAX
                    &&& self@.funcs[i].labels.len() <= usize::MAX
                },
    {
        broadcast use vstd::std_specs::vec::axiom_spec_len;
        assert(self@.funcs.len() == self.funcs@.len());
        assert(self.funcs.len() == self.funcs@.len());
        assert forall|i: int| 0 <= i < self@.funcs.len() implies {
            &&& (#[trigger] self@.funcs[i]).values.len() <= usize::MAX
            &&& self@.funcs[i].insns.len() <= usize::MAX
            &&& self@.funcs[i].labels.len() <= usize::MAX
        } by {
            let d = self.funcs@[i];
            assert(d.values.len() == d.values@.len());
            assert(d.insns.len() == d.insns@.len());
            assert(d.labels.len() == d.labels@.len());
        }
    }
}

/// Editing one function keeps every parameter as its function's first values
/// when the edited function keeps its signature and only gains values.
proof fn lemma_keep_params(old_fs: Seq<FuncData>, fs: Seq<FuncData>, f: int)
    requires
        forall|i: int| 0 <= i < old_fs.len() ==> params_first(#[trigger] old_fs[i].model()),
        fs.len() == old_fs.len(),
        0 <= f < fs.len(),
        forall|i: int| 0 <= i < fs.len() && i != f ==> fs[i] == old_fs[i],
        fs[f].model().sig == old_fs[f].model().sig,
        old_fs[f].model().values.len() <= fs[f].model().values.len(),
        forall|j: int| 0 <= j < old_fs[f].model().values.len() ==> fs[f].model().values[j] == old_fs[f].model().values[j],
    ensures
        forall|i: int| 0 <= i < fs.len() ==> params_first(#[trigger] fs[i].model()),
{
    assert forall|i: int| 0 <= i < fs.len() implies params_first(#[trigger] fs[i].model()) by {
        if i != f {
            assert(fs[i] == old_fs[i]);
            assert(params_first(old_fs[i].model()));
        } else {
            let o = old_fs[f].model();
            let n = fs[f].model();
            assert(params_first(o));
            assert(o.values.len() <= n.values.len());
            assert forall|j: int| 0 <= j < n.sig.params.len() implies n.values[j] == #[trigger] n.sig.params[j] by {
                assert(o.sig.params[j] == n.sig.params[j]);
            }
            assert(params_first(n));
        }
    }
}

impl View for Context {
    type V = CtxModel;

    closed spec fn view(&self) -> CtxModel {
        CtxModel { alive: self.alive, id: self.id, funcs: self.funcs@.map_values(|f: FuncData| f.model()) }
    }
}

/// A handle to a function of a context. Copying it shares the function.
#[derive(Clone, Copy, Debug, PartialEq, Eq, Structural)]
pub struct Function {
    pub ctx: u64,
    pub index: usize,
}

/// The position that handle `h` names in context `m`. A handle made in
/// another context names `usize::MAX`, which no function can occupy.
pub open spec fn slot(m: CtxModel, h: Function) -> usize {
    if h.ctx == m.id {
        h.index
    } else {
        usize::MAX
    }
}

// ---------------------------------------------------------------------------
// The model of each operation.

/// A function freshly created with signature `sig`.
pub open spec fn fresh_fn(sig: SigModel, parent: Option<usize>) -> FuncModel {
    FuncModel {
        sig,
        parent,
        state: FnState::Building,
        values: sig.params,
        insns: Seq::empty(),
        labels: Seq::empty(),
        opt_level: 0,
        recompilable: false,
        uses_catcher: false,
    }
}

/// Why function `f` cannot be used at all, if it cannot.
pub open spec fn fn_check(m: CtxModel, f: usize) -> Option<JitError> {
    if !m.alive {
        Some(JitError::ContextDestroyed)
    } else if f >= m.funcs.len() {
        Some(JitError::InvalidFunction)
    } else if m.funcs[f as int].state == FnState::Abandoned {
        Some(JitError::FunctionAbandoned)
    } else {
        None
    }
}

/// Why no instruction can be appended to function `f`, if none can. A
/// compiled function accepts edits only when it was made recompilable; an
/// edit takes it back to the building state.
pub open spec fn building_check(m: CtxModel, f: usize) -> Option<JitError> {
    match fn_check(m, f) {
        Some(e) => Some(e),
        None => if m.funcs[f as int].state == FnState::Compiled && !m.funcs[f as int].recompilable {
            Some(JitError::AlreadyCompiled)
        } else {
            None
        },
    }
}

/// Value `v` may be an operand of an instruction of function `f`: it was
/// made in this context, produced by `f` or by `f`'s parent, and it carries data.
pub open spec fn value_ok(m: CtxModel, f: usize, v: Value) -> bool {
    &&& v.ctx == m.id
    &&& v.func == f || m.funcs[f as int].parent == Some(v.func)
    &&& v.func < m.funcs.len()
    &&& v.index < m.funcs[v.func as int].values.len()
    &&& m.funcs[v.func as int].values[v.index as int] != Kind::Void
}

/// The kind of value `v`.
pub open spec fn kind_of(m: CtxModel, v: Value) -> Kind {
    m.funcs[v.func as int].values[v.index as int]
}

/// The handle that the next value of function `f` gets.
pub open spec fn next_value(m: CtxModel, f: usize) -> Value {
    Value { ctx: m.id, func: f, index: m.funcs[f as int].values.len() as usize }
}

pub open spec fn update_fn(m: CtxModel, f: usize, fm: FuncModel) -> CtxModel {
    CtxModel { funcs: m.funcs.update(f as int, fm), ..m }
}

/// Replaces function `f` by `fm`, in the building state.
pub open spec fn edit_fn(m: CtxModel, f: usize, fm: FuncModel) -> CtxModel {
    update_fn(m, f, FuncModel { state: FnState::Building, ..fm })
}

/// Appends an instruction to function `f`.
pub open spec fn push_insn(m: CtxModel, f: usize, i: InsnModel) -> CtxModel {
    edit_fn(m, f, FuncModel { insns: m.funcs[f as int].insns.push(i), ..m.funcs[f as int] })
}

/// Appends an instruction that defines a new value of kind `k` to function `f`.
pub open spec fn push_value(m: CtxModel, f: usize, k: Kind, i: InsnModel) -> CtxModel {
    edit_fn(
        m,
        f,
        FuncModel {
            values: m.funcs[f as int].values.push(k),
            insns: m.funcs[f as int].insns.push(i),
            ..m.funcs[f as int]
        },
    )
}

/// The outcome of an instruction that defines a value of kind `k`, once its
/// operands were found valid.
pub open spec fn define(m: CtxModel, f: usize, k: Kind, i: InsnModel) -> (Result<Value, JitError>, CtxModel) {
    (Ok(next_value(m, f)), push_value(m, f, k, i))
}

pub open spec fn binop_outcome(m: CtxModel, f: usize, op: BinOp, a: Value, b: Value) -> (Result<Value, JitError>, CtxModel) {
    match building_check(m, f) {
        Some(e) => (Err(e), m),
        None => if !value_ok(m, f, a) || !value_ok(m, f, b) {
            (Err(JitError::InvalidValue), m)
        } else {
            define(
                m,
                f,
                binop_kind(op, kind_of(m, a), kind_of(m, b)),
                InsnModel::Plain(Insn::Binary { dst: next_value(m, f).index, op, a, b }),
            )
        },
    }
}

pub open spec fn unop_outcome(m: CtxModel, f: usize, op: UnOp, a: Value) -> (Result<Value, JitError>, CtxModel) {
    match building_check(m, f) {
        Some(e) => (Err(e), m),
        None => if !value_ok(m, f, a) {
            (Err(JitError::InvalidValue), m)
        } else {
            define(m, f, unop_kind(op, kind_of(m, a)), InsnModel::Plain(Insn::Unary { dst: next_value(m, f).index, op, a }))
        },
    }
}

pub open spec fn new_outcome(m: CtxModel, sig: TypeModel, parent: Option<usize>) -> (Result<Function, JitError>, CtxModel) {
    if !m.alive {
        (Err(JitError::ContextDestroyed), m)
    } else if !(sig is Sig) {
        (Err(JitError::NotASignature), m)
    } else if parent is Some && parent->0 >= m.funcs.len() {
        (Err(JitError::InvalidFunction), m)
    } else if parent is Some && m.funcs[parent->0 as int].state != FnState::Building {
        (Err(JitError::ParentNotBuilding), m)
    } else {
        (
            Ok(Function { ctx: m.id, index: m.funcs.len() as usize }),
            CtxModel { funcs: m.funcs.push(fresh_fn(sig->Sig_0, parent)), ..m },
        )
    }
}

/// The value of parameter `index`: the parameters are the first values of
/// a function, one per parameter, made when the function is created.
pub open spec fn param_result(m: CtxModel, f: usize, index: usize) -> Result<Value, JitError> {
    match fn_check(m, f) {
        Some(e) => Err(e),
        None => if index >= m.funcs[f as int].sig.params.len() {
            Err(JitError::ParamOutOfRange)
        } else {
            Ok(Value { ctx: m.id, func: f, index })
        },
    }
}

pub open spec fn const_outcome(m: CtxModel, f: usize, kind: Kind, bits: u64) -> (Result<Value, JitError>, CtxModel) {
    match building_check(m, f) {
        Some(e) => (Err(e), m),
        None => define(m, f, kind, InsnModel::Plain(Insn::Const { dst: next_value(m, f).index, kind, bits })),
    }
}

pub open spec fn convert_outcome(m: CtxModel, f: usize, v: Value, t: TypeModel, overflow_check: bool) -> (Result<Value, JitError>, CtxModel) {
    match building_check(m, f) {
        Some(e) => (Err(e), m),
        None => if !value_ok(m, f, v) {
            (Err(JitError::InvalidValue), m)
        } else if !(t is Scalar) {
            (Err(JitError::NotAScalar), m)
        } else {
            define(
                m,
                f,
                t->Scalar_0,
                InsnModel::Plain(Insn::Convert { dst: next_value(m, f).index, src: v, kind: t->Scalar_0, overflow_check }),
            )
        },
    }
}

pub open spec fn alloca_outcome(m: CtxModel, f: usize, size: Value) -> (Result<Value, JitError>, CtxModel) {
    match building_check(m, f) {
        Some(e) => (Err(e), m),
        None => if !value_ok(m, f, size) {
            (Err(JitError::InvalidValue), m)
        } else {
            define(m, f, Kind::Ptr, InsnModel::Plain(Insn::Alloca { dst: next_value(m, f).index, size }))
        },
    }
}

/// The outcome of an instruction that defines no value and whose operands
/// `vs` must be valid.
pub open spec fn plain_outcome(m: CtxModel, f: usize, vs: Seq<Value>, i: InsnModel) -> (Result<(), JitError>, CtxModel) {
    match building_check(m, f) {
        Some(e) => (Err(e), m),
        None => if exists|j: int| 0 <= j < vs.len() && !value_ok(m, f, #[trigger] vs[j]) {
            (Err(JitError::InvalidValue), m)
        } else {
            (Ok(()), push_insn(m, f, i))
        },
    }
}

pub open spec fn throw_outcome(m: CtxModel, f: usize, v: Value) -> (Result<(), JitError>, CtxModel) {
    match building_check(m, f) {
        Some(e) => (Err(e), m),
        None => if !value_ok(m, f, v) {
            (Err(JitError::InvalidValue), m)
        } else if !m.funcs[f as int].uses_catcher {
            (Err(JitError::CatcherRequired), m)
        } else {
            (Ok(()), push_insn(m, f, InsnModel::Plain(Insn::Throw { value: v })))
        },
    }
}

pub open spec fn catcher_outcome(m: CtxModel, f: usize) -> (Result<(), JitError>, CtxModel) {
    match building_check(m, f) {
        Some(e) => (Err(e), m),
        None => (Ok(()), edit_fn(m, f, FuncModel { uses_catcher: true, ..m.funcs[f as int] })),
    }
}

/// Label `l` is a label of function `f`.
pub open spec fn label_ok(m: CtxModel, f: usize, l: Label) -> bool {
    l.ctx == m.id && l.func == f && l.index < m.funcs[f as int].labels.len()
}

pub open spec fn new_label_outcome(m: CtxModel, f: usize) -> (Result<Label, JitError>, CtxModel) {
    match building_check(m, f) {
        Some(e) => (Err(e), m),
        None => (
            Ok(Label { ctx: m.id, func: f, index: m.funcs[f as int].labels.len() as usize }),
            edit_fn(m, f, FuncModel { labels: m.funcs[f as int].labels.push(None), ..m.funcs[f as int] }),
        ),
    }
}

pub open spec fn set_label_outcome(m: CtxModel, f: usize, l: Label) -> (Result<(), JitError>, CtxModel) {
    match building_check(m, f) {
        Some(e) => (Err(e), m),
        None => if !label_ok(m, f, l) {
            (Err(JitError::InvalidLabel), m)
        } else if m.funcs[f as int].labels[l.index as int] is Some {
            (Err(JitError::LabelAlreadyBound), m)
        } else {
            (
                Ok(()),
                edit_fn(
                    m,
                    f,
                    FuncModel {
                        labels: m.funcs[f as int].labels.update(
                            l.index as int,
                            Some(m.funcs[f as int].insns.len() as usize),
                        ),
                        insns: m.funcs[f as int].insns.push(InsnModel::Plain(Insn::SetLabel { label: l.index })),
                        ..m.funcs[f as int]
                    },
                ),
            )
        },
    }
}

pub open spec fn branch_outcome(m: CtxModel, f: usize, l: Label) -> (Result<(), JitError>, CtxModel) {
    match building_check(m, f) {
        Some(e) => (Err(e), m),
        None => if !label_ok(m, f, l) {
            (Err(JitError::InvalidLabel), m)
        } else {
            (Ok(()), push_insn(m, f, InsnModel::Plain(Insn::Branch { label: l.index })))
        },
    }
}

/// The conditional branch instruction; `negate` branches when `cond` is zero.
pub open spec fn cond_branch(cond: Value, label: usize, negate: bool) -> Insn {
    if negate {
        Insn::BranchIfNot { cond, label }
    } else {
        Insn::BranchIf { cond, label }
    }
}

pub open spec fn branch_if_outcome(m: CtxModel, f: usize, cond: Value, l: Label, negate: bool) -> (Result<(), JitError>, CtxModel) {
    match building_check(m, f) {
        Some(e) => (Err(e), m),
        None => if !value_ok(m, f, cond) {
            (Err(JitError::InvalidValue), m)
        } else if !is_int_like(kind_of(m, cond)) {
            (Err(JitError::ConditionType), m)
        } else if !label_ok(m, f, l) {
            (Err(JitError::InvalidLabel), m)
        } else {
            (Ok(()), push_insn(m, f, InsnModel::Plain(cond_branch(cond, l.index, negate))))
        },
    }
}

pub open spec fn label_indices(ls: Seq<Label>) -> Seq<usize> {
    ls.map_values(|l: Label| l.index)
}

pub open spec fn jump_table_outcome(m: CtxModel, f: usize, v: Value, ls: Seq<Label>) -> (Result<(), JitError>, CtxModel) {
    match building_check(m, f) {
        Some(e) => (Err(e), m),
        None => if !value_ok(m, f, v) {
            (Err(JitError::InvalidValue), m)
        } else if !is_int_like(kind_of(m, v)) {
            (Err(JitError::ConditionType), m)
        } else if exists|j: int| 0 <= j < ls.len() && !label_ok(m, f, #[trigger] ls[j]) {
            (Err(JitError::InvalidLabel), m)
        } else {
            (Ok(()), push_insn(m, f, InsnModel::JumpTable { index: v, labels: label_indices(ls) }))
        },
    }
}

/// Why `args` cannot be passed to a callee of signature `sig` from function
/// `f`, if they cannot.
pub open spec fn args_check(m: CtxModel, f: usize, sig: SigModel, args: Seq<Value>) -> Option<JitError> {
    if exists|j: int| 0 <= j < args.len() && !value_ok(m, f, #[trigger] args[j]) {
        Some(JitError::InvalidValue)
    } else if args.len() != sig.params.len() {
        Some(JitError::ArgumentCount)
    } else if exists|j: int| 0 <= j < args.len() && kind_of(m, #[trigger] args[j]) != sig.params[j] {
        Some(JitError::ArgumentType)
    } else {
        None
    }
}

/// The flags of a call site: no-throw unless the caller holds a catch region.
pub open spec fn call_flags(m: CtxModel, f: usize) -> u32 {
    if m.funcs[f as int].uses_catcher {
        0
    } else {
        CallFlags::JitCallNothrow.spec_bits()
    }
}

pub open spec fn call_indirect_outcome(m: CtxModel, f: usize, callee: usize, sig: TypeModel, args: Seq<Value>) -> (Result<Value, JitError>, CtxModel) {
    match building_check(m, f) {
        Some(e) => (Err(e), m),
        None => if !(sig is Sig) {
            (Err(JitError::NotASignature), m)
        } else if callee >= m.funcs.len() {
            (Err(JitError::InvalidFunction), m)
        } else if m.funcs[callee as int].state == FnState::Abandoned {
            (Err(JitError::FunctionAbandoned), m)
        } else if m.funcs[callee as int].sig != sig->Sig_0 {
            (Err(JitError::SignatureMismatch), m)
        } else {
            match args_check(m, f, sig->Sig_0, args) {
                Some(e) => (Err(e), m),
                None => define(
                    m,
                    f,
                    sig->Sig_0.ret,
                    InsnModel::CallIndirect {
                        dst: next_value(m, f).index,
                        callee,
                        args,
                        flags: call_flags(m, f),
                    },
                ),
            }
        },
    }
}

/// The outcome of a call of the native function at `address`; `arity`, when
/// given, is the parameter count that the host function is known to have.
pub open spec fn call_native_outcome(m: CtxModel, f: usize, name: Seq<char>, address: usize, sig: TypeModel, args: Seq<Value>, arity: Option<nat>) -> (Result<Value, JitError>, CtxModel) {
    match building_check(m, f) {
        Some(e) => (Err(e), m),
        None => if !(sig is Sig) {
            (Err(JitError::NotASignature), m)
        } else if arity is Some && sig->Sig_0.params.len() != arity->0 {
            (Err(JitError::ArgumentCount), m)
        } else {
            match args_check(m, f, sig->Sig_0, args) {
                Some(e) => (Err(e), m),
                None => define(
                    m,
                    f,
                    sig->Sig_0.ret,
                    InsnModel::CallNative {
                        dst: next_value(m, f).index,
                        name,
                        address,
                        args,
                        flags: call_flags(m, f),
                    },
                ),
            }
        },
    }
}

pub open spec fn opt_level_outcome(m: CtxModel, f: usize, level: u32) -> (Result<(), JitError>, CtxModel) {
    match fn_check(m, f) {
        Some(e) => (Err(e), m),
        None => (Ok(()), update_fn(m, f, FuncModel { opt_level: level, ..m.funcs[f as int] })),
    }
}

pub open spec fn recompilable_outcome(m: CtxModel, f: usize) -> (Result<(), JitError>, CtxModel) {
    match fn_check(m, f) {
        Some(e) => (Err(e), m),
        None => (Ok(()), update_fn(m, f, FuncModel { recompilable: true, ..m.funcs[f as int] })),
    }
}

/// Every label of the function is bound.
pub open spec fn all_bound(labels: Seq<Option<usize>>) -> bool {
    forall|j: int| 0 <= j < labels.len() ==> (#[trigger] labels[j]) is Some
}

/// `k` is the first label that is not bound.
pub open spec fn first_unbound(labels: Seq<Option<usize>>, k: int) -> bool {
    &&& 0 <= k < labels.len()
    &&& labels[k] is None
    &&& forall|j: int| 0 <= j < k ==> (#[trigger] labels[j]) is Some
}

/// The outcome of compiling function `f`. A compiled function that was
/// not made recompilable refuses a second compilation.
pub open spec fn compile_outcome(m: CtxModel, f: usize) -> (Result<(), JitError>, CtxModel) {
    match fn_check(m, f) {
        Some(e) => (Err(e), m),
        None => {
            let fm = m.funcs[f as int];
            if fm.state == FnState::Compiled && !fm.recompilable {
                (Err(JitError::AlreadyCompiled), m)
            } else if !all_bound(fm.labels) {
                let k = choose|k: int| first_unbound(fm.labels, k);
                (Err(JitError::UnboundLabel { label: k as usize }), m)
            } else {
                (Ok(()), update_fn(m, f, FuncModel { state: FnState::Compiled, ..fm }))
            }
        },
    }
}

pub open spec fn abandon_outcome(m: CtxModel, f: usize) -> (Result<(), JitError>, CtxModel) {
    match fn_check(m, f) {
        Some(e) => (Err(e), m),
        None => (Ok(()), update_fn(m, f, FuncModel { state: FnState::Abandoned, ..m.funcs[f as int] })),
    }
}

// ---------------------------------------------------------------------------
// Arena access.

impl Context {
    /// A fresh, empty context with identity zero.
    pub fn new() -> (r: Context)
        ensures
            r@.alive,
            r@.id == 0,
            r@.funcs.len() == 0,
    {
        Context::with_id(0)
    }

    /// A fresh, empty context with identity `id`. Handles made in contexts
    /// of different identities are told apart.
    pub fn with_id(id: u64) -> (r: Context)
        ensures
            r@.alive,
            r@.id == id,
            r@.funcs.len() == 0,
    {
        let r = Context { alive: true, id, funcs: Vec::new() };
        assert(r@.funcs =~= Seq::<FuncModel>::empty());
        r
    }

    /// Destroys the context: every function, value and label made in it
    /// becomes invalid.
    pub fn destroy(&mut self)
        ensures
            !final(self)@.alive,
            final(self)@.id == old(self)@.id,
            final(self)@.funcs.len() == 0,
    {
        proof {
            use_type_invariant(&*self);
        }
        self.funcs = Vec::new();
        self.alive = false;
        assert(self@.funcs =~= Seq::<FuncModel>::empty());
    }

    /// Whether the context is still alive.
    pub fn is_alive(&self) -> (r: bool)
        ensures
            r == self@.alive,
    {
        self.alive
    }

    /// Instruction `pc` of function `f`.
    pub(crate) fn insn_at(&self, f: usize, pc: usize) -> (r: &Insn)
        requires
            f < self@.funcs.len(),
            pc < self@.funcs[f as int].insns.len(),
        ensures
            r@ == self@.funcs[f as int].insns[pc as int],
    {
        &self.funcs[f].insns[pc]
    }

    pub(crate) fn insn_count(&self, f: usize) -> (r: usize)
        requires
            f < self@.funcs.len(),
        ensures
            r == self@.funcs[f as int].insns.len(),
    {
        self.funcs[f].insns.len()
    }

    pub(crate) fn value_count(&self, f: usize) -> (r: usize)
        requires
            f < self@.funcs.len(),
        ensures
            r == self@.funcs[f as int].values.len(),
    {
        self.funcs[f].values.len()
    }

    pub(crate) fn param_count(&self, f: usize) -> (r: usize)
        requires
            f < self@.funcs.len(),
        ensures
            r == self@.funcs[f as int].sig.params.len(),
    {
        self.funcs[f].sig.params.len()
    }

    pub(crate) fn state_at(&self, f: usize) -> (r: FnState)
        requires
            f < self@.funcs.len(),
        ensures
            r == self@.funcs[f as int].state,
    {
        self.funcs[f].state
    }

    /// The kind of value `i` of function `f`.
    pub(crate) fn kind_at(&self, f: usize, i: usize) -> (r: Kind)
        requires
            f < self@.funcs.len(),
            i < self@.funcs[f as int].values.len(),
        ensures
            r == self@.funcs[f as int].values[i as int],
    {
        self.funcs[f].values[i]
    }

    /// Where label `l` of function `f` is bound, if it exists and is bound.
    pub(crate) fn label_at(&self, f: usize, l: usize) -> (r: Option<usize>)
        requires
            f < self@.funcs.len(),
        ensures
            r == (if l < self@.funcs[f as int].labels.len() {
                self@.funcs[f as int].labels[l as int]
            } else {
                None
            }),
    {
        if l < self.funcs[f].labels.len() {
            self.funcs[f].labels[l]
        } else {
            None
        }
    }

    /// Takes the functions out, leaving none; `put_funcs` puts them back.
    fn take_funcs(&mut self) -> (r: Vec<FuncData>)
        ensures
            r@.map_values(|d: FuncData| d.model()) == old(self)@.funcs,
            final(self)@ == (CtxModel { alive: old(self)@.alive, id: old(self)@.id, funcs: Seq::empty() }),
            forall|i: int| 0 <= i < r@.len() ==> params_first(#[trigger] r@[i].model()),
    {
        proof {
            use_type_invariant(&*self);
        }
        let mut r: Vec<FuncData> = Vec::new();
        std::mem::swap(&mut self.funcs, &mut r);
        proof {
            assert forall|i: int| 0 <= i < r@.len() implies params_first(#[trigger] r@[i].model()) by {
                assert(old(self)@.funcs[i] == r@[i].model());
            }
        }
        assert(self@.funcs =~= Seq::<FuncModel>::empty());
        r
    }

    fn put_funcs(&mut self, fs: Vec<FuncData>)
        requires
            forall|i: int| 0 <= i < fs@.len() ==> params_first(#[trigger] fs@[i].model()),
        ensures
            final(self)@ == (CtxModel { alive: old(self)@.alive, id: old(self)@.id, funcs: fs@.map_values(|d: FuncData| d.model()) }),
    {
        self.funcs = fs;
    }

    /// The position that handle `h` names in this context.
    pub(crate) fn slot_exec(&self, h: Function) -> (r: usize)
        ensures
            r == slot(self@, h),
    {
        if h.ctx == self.id {
            h.index
        } else {
            usize::MAX
        }
    }

    pub(crate) fn fn_check_exec(&self, f: usize) -> (r: Option<JitError>)
        ensures
            r == fn_check(self@, f),
    {
        if !self.alive {
            Some(JitError::ContextDestroyed)
        } else if f >= self.funcs.len() {
            Some(JitError::InvalidFunction)
        } else if self.funcs[f].state == FnState::Abandoned {
            Some(JitError::FunctionAbandoned)
        } else {
            None
        }
    }

    fn building_check_exec(&self, f: usize) -> (r: Option<JitError>)
        ensures
            r == building_check(self@, f),
    {
        match self.fn_check_exec(f) {
            Some(e) => Some(e),
            None => if self.funcs[f].state == FnState::Compiled && !self.funcs[f].recompilable {
                Some(JitError::AlreadyCompiled)
            } else {
                None
            },
        }
    }

    fn value_ok_exec(&self, f: usize, v: Value) -> (r: bool)
        requires
            f < self@.funcs.len(),
        ensures
            r == value_ok(self@, f, v),
    {
        v.ctx == self.id && (v.func == f || self.funcs[f].parent == Some(v.func)) && v.func < self.funcs.len()
            && v.index < self.funcs[v.func].values.len() && self.funcs[v.func].values[v.index]
            != Kind::Void
    }

    fn kind_exec(&self, v: Value) -> (r: Kind)
        requires
            v.func < self@.funcs.len(),
            v.index < self@.funcs[v.func as int].values.len(),
        ensures
            r == kind_of(self@, v),
    {
        self.funcs[v.func].values[v.index]
    }

    fn next_value_exec(&self, f: usize) -> (r: Value)
        requires
            f < self@.funcs.len(),
        ensures
            r == next_value(self@, f),
    {
        Value { ctx: self.id, func: f, index: self.funcs[f].values.len() }
    }

    fn push_insn_exec(&mut self, f: usize, i: Insn)
        requires
            f < old(self)@.funcs.len(),
        ensures
            final(self)@ == push_insn(old(self)@, f, i@),
    {
        let ghost pre = self@;
        let ghost vi = i@;
        let mut fs = self.take_funcs();
        let ghost old_fs = fs@;
        fs[f].insns.push(i);
        fs[f].state = FnState::Building;
        assert(fs@[f as int].insns@.map_values(|i: Insn| i@) =~= pre.funcs[f as int].insns.push(vi));
        proof {
            lemma_keep_params(old_fs, fs@, f as int);
        }
        self.put_funcs(fs);
        assert(self@.funcs =~= push_insn(pre, f, vi).funcs);
    }

    fn push_value_exec(&mut self, f: usize, k: Kind, i: Insn) -> (r: Value)
        requires
            f < old(self)@.funcs.len(),
        ensures
            (Ok::<Value, JitError>(r), final(self)@) == define(old(self)@, f, k, i@),
    {
        let ghost pre = self@;
        let r = self.next_value_exec(f);
        let ghost vi = i@;
        let mut fs = self.take_funcs();
        let ghost old_fs = fs@;
        fs[f].values.push(k);
        fs[f].insns.push(i);
        fs[f].state = FnState::Building;
        assert(fs@[f as int].insns@.map_values(|i: Insn| i@) =~= pre.funcs[f as int].insns.push(vi));
        proof {
            lemma_keep_params(old_fs, fs@, f as int);
        }
        self.put_funcs(fs);
        assert(self@.funcs =~= push_value(pre, f, k, vi).funcs);
        r
    }

    fn label_ok_exec(&self, f: usize, l: Label) -> (r: bool)
        requires
            f < self@.funcs.len(),
        ensures
            r == label_ok(self@, f, l),
    {
        l.ctx == self.id && l.func == f && l.index < self.funcs[f].labels.len()
    }

    fn args_check_exec(&self, f: usize, sig: &Signature, args: &[Value]) -> (r: Option<JitError>)
        requires
            f < self@.funcs.len(),
        ensures
            r == args_check(self@, f, sig@, args@),
    {
        let mut i: usize = 0;
        while i < args.len()
            invariant
                i <= args@.len(),
                f < self@.funcs.len(),
                forall|j: int| 0 <= j < i ==> value_ok(self@, f, #[trigger] args@[j]),
            decreases args@.len() - i,
        {
            if !self.value_ok_exec(f, args[i]) {
                return Some(JitError::InvalidValue);
            }
            i = i + 1;
        }
        if args.len() != sig.params.len() {
            return Some(JitError::ArgumentCount);
        }
        let mut i: usize = 0;
        while i < args.len()
            invariant
                i <= args@.len(),
                args@.len() == sig.params@.len(),
                f < self@.funcs.len(),
                forall|j: int| 0 <= j < args@.len() ==> value_ok(self@, f, #[trigger] args@[j]),
                forall|j: int| 0 <= j < i ==> kind_of(self@, #[trigger] args@[j]) == sig.params@[j],
            decreases args@.len() - i,
        {
            assert(value_ok(self@, f, args@[i as int]));
            if self.kind_exec(args[i]) != sig.params[i] {
                return Some(JitError::ArgumentType);
            }
            i = i + 1;
        }
        None
    }

    fn label_targets_exec(&self, f: usize, labels: &[Label]) -> (r: Option<Vec<usize>>)
        requires
            f < self@.funcs.len(),
        ensures
            r is None <==> exists|j: int| 0 <= j < labels@.len() && !label_ok(self@, f, #[trigger] labels@[j]),
            r matches Some(t) ==> t@ == label_indices(labels@),
    {
        let mut targets: Vec<usize> = Vec::new();
        let mut i: usize = 0;
        while i < labels.len()
            invariant
                i <= labels@.len(),
                f < self@.funcs.len(),
                forall|j: int| 0 <= j < i ==> label_ok(self@, f, #[trigger] labels@[j]),
                targets@ == label_indices(labels@.subrange(0, i as int)),
            decreases labels@.len() - i,
        {
            if !self.label_ok_exec(f, labels[i]) {
                assert(!label_ok(self@, f, labels@[i as int]));
                return None;
            }
            targets.push(labels[i].index);
            i = i + 1;
            assert(targets@ =~= label_indices(labels@.subrange(0, i as int)));
        }
        assert(labels@.subrange(0, i as int) =~= labels@);
        Some(targets)
    }

    fn first_unbound_exec(&self, f: usize) -> (r: Option<usize>)
        requires
            f < self@.funcs.len(),
        ensures
            r is None <==> all_bound(self@.funcs[f as int].labels),
            r matches Some(k) ==> first_unbound(self@.funcs[f as int].labels, k as int),
            r matches Some(k) ==> k as int == choose|k: int| first_unbound(self@.funcs[f as int].labels, k),
    {
        let ghost labels = self@.funcs[f as int].labels;
        let n = self.funcs[f].labels.len();
        let mut i: usize = 0;
        while i < n
            invariant
                f < self@.funcs.len(),
                labels == self@.funcs[f as int].labels,
                n == labels.len(),
                i <= n,
                forall|j: int| 0 <= j < i ==> (#[trigger] labels[j]) is Some,
            decreases n - i,
        {
            if self.funcs[f].labels[i].is_none() {
                assert(first_unbound(labels, i as int));
                assert forall|k: int| first_unbound(labels, k) implies k == i by {
                    if k < i {
                        assert(labels[k] is Some);
                    } else if k > i {
                        assert(labels[i as int] is Some);
                    }
                }
                return Some(i);
            }
            i = i + 1;
        }
        None
    }

    fn call_flags_exec(&self, f: usize) -> (r: u32)
        requires
            f < self@.funcs.len(),
        ensures
            r == call_flags(self@, f),
    {
        if self.funcs[f].uses_catcher {
            0
        } else {
            CallFlags::JitCallNothrow.bits()
        }
    }
}

fn copy_values(args: &[Value]) -> (r: Vec<Value>)
    ensures
        r@ == args@,
{
    let mut r: Vec<Value> = Vec::new();
    let mut i: usize = 0;
    while i < args.len()
        invariant
            i <= args@.len(),
            r@ == args@.subrange(0, i as int),
        decreases args@.len() - i,
    {
        r.push(args[i]);
        i = i + 1;
        assert(r@ =~= args@.subrange(0, i as int));
    }
    assert(r@ =~= args@);
    r
}

// ---------------------------------------------------------------------------
// Emission.

impl Label {
    /// Declares a new, unbound label of `func`.
    pub fn new(ctx: &mut Context, func: &Function) -> (r: Result<Label, JitError>)
        ensures
            (r, final(ctx)@) == new_label_outcome(old(ctx)@, slot(old(ctx)@, *func)),
    {
        let f = ctx.slot_exec(*func);
        if let Some(e) = ctx.building_check_exec(f) {
            return Err(e);
        }
        let ghost pre = ctx@;
        let index = ctx.funcs[f].labels.len();
        let mut fs = ctx.take_funcs();
        let ghost old_fs = fs@;
        fs[f].labels.push(None);
        fs[f].state = FnState::Building;
        proof {
            lemma_keep_params(old_fs, fs@, f as int);
        }
        ctx.put_funcs(fs);
        assert(ctx@.funcs =~= new_label_outcome(pre, f).1.funcs);
        Ok(Label { ctx: ctx.id, func: f, index })
    }
}

impl Function {
    /// Creates a function in `context` with the signature given.
    pub fn new(context: &mut Context, signature: &Type) -> (r: Result<Function, JitError>)
        ensures
            (r, final(context)@) == new_outcome(old(context)@, signature@, None),
    {
        Function::create(context, signature, None)
    }

    /// Creates a function in `context` with the signature given, nested inside
    /// `parent` so that it can use the parent's values.
    pub fn new_nested(context: &mut Context, signature: &Type, parent: &Function) -> (r: Result<Function, JitError>)
        ensures
            (r, final(context)@) == new_outcome(old(context)@, signature@, Some(slot(old(context)@, *parent))),
    {
        let p = context.slot_exec(*parent);
        Function::create(context, signature, Some(p))
    }

    fn create(ctx: &mut Context, signature: &Type, parent: Option<usize>) -> (r: Result<Function, JitError>)
        ensures
            (r, final(ctx)@) == new_outcome(old(ctx)@, signature@, parent),
    {
        if !ctx.alive {
            return Err(JitError::ContextDestroyed);
        }
        let sig = match signature {
            Type::Scalar(_) => {
                return Err(JitError::NotASignature);
            },
            Type::Sig(s) => Signature { abi: s.abi, params: copy_kinds(&s.params), ret: s.ret },
        };
        if let Some(p) = parent {
            if p >= ctx.funcs.len() {
                return Err(JitError::InvalidFunction);
            }
            if ctx.funcs[p].state != FnState::Building {
                return Err(JitError::ParentNotBuilding);
            }
        }
        let ghost pre = ctx@;
        let index = ctx.funcs.len();
        let values = copy_kinds(&sig.params);
        let data = FuncData {
            sig,
            parent,
            state: FnState::Building,
            values,
            insns: Vec::new(),
            labels: Vec::new(),
            opt_level: 0,
            recompilable: false,
            uses_catcher: false,
        };
        assert(data.insns@.map_values(|i: Insn| i@) =~= Seq::<InsnModel>::empty());
        assert(data.model() == fresh_fn(signature@->Sig_0, parent));
        let mut fs = ctx.take_funcs();
        let ghost old_fs = fs@;
        fs.push(data);
        proof {
            assert forall|i: int| 0 <= i < fs@.len() implies params_first(#[trigger] fs@[i].model()) by {
                if i < old_fs.len() {
                    assert(fs@[i] == old_fs[i]);
                }
            }
        }
        ctx.put_funcs(fs);
        assert(ctx@.funcs =~= pre.funcs.push(fresh_fn(signature@->Sig_0, parent)));
        Ok(Function { ctx: ctx.id, index })
    }

    /// Whether this handle names a function of `ctx` that may still be used.
    pub fn is_valid(&self, ctx: &Context) -> (r: bool)
        ensures
            r == (fn_check(ctx@, slot(ctx@, *self)) is None),
    {
        ctx.fn_check_exec(ctx.slot_exec(*self)).is_none()
    }

    /// The state of this function in `ctx`.
    pub fn state(&self, ctx: &Context) -> (r: Result<FnState, JitError>)
        ensures
            r == (match fn_check(ctx@, slot(ctx@, *self)) {
                Some(e) => Err(e),
                None => Ok(ctx@.funcs[slot(ctx@, *self) as int].state),
            }),
    {
        let f = ctx.slot_exec(*self);
        match ctx.fn_check_exec(f) {
            Some(e) => Err(e),
            None => Ok(ctx.funcs[f].state),
        }
    }

    /// The kind of a value that this function may use.
    pub fn value_kind(&self, ctx: &Context, v: &Value) -> (r: Result<Kind, JitError>)
        ensures
            r == (match fn_check(ctx@, slot(ctx@, *self)) {
                Some(e) => Err(e),
                None => if value_ok(ctx@, slot(ctx@, *self), *v) {
                    Ok(kind_of(ctx@, *v))
                } else {
                    Err(JitError::InvalidValue)
                },
            }),
    {
        let f = ctx.slot_exec(*self);
        match ctx.fn_check_exec(f) {
            Some(e) => Err(e),
            None => if ctx.value_ok_exec(f, *v) {
                Ok(ctx.kind_exec(*v))
            } else {
                Err(JitError::InvalidValue)
            },
        }
    }

    /// The value of parameter `param` of this function's signature.
    pub fn get_param(&self, ctx: &Context, param: usize) -> (r: Result<Value, JitError>)
        ensures
            r == param_result(ctx@, slot(ctx@, *self), param),
            r matches Ok(v) ==> kind_of(ctx@, v) == ctx@.funcs[slot(ctx@, *self) as int].sig.params[param as int],
    {
        let f = ctx.slot_exec(*self);
        if let Some(e) = ctx.fn_check_exec(f) {
            return Err(e);
        }
        if param >= ctx.funcs[f].sig.params.len() {
            return Err(JitError::ParamOutOfRange);
        }
        proof {
            use_type_invariant(ctx);
            assert(params_first(ctx@.funcs[f as int]));
        }
        Ok(Value { ctx: ctx.id, func: f, index: param })
    }

    /// A value holding the host constant `val`.
    pub fn insn_of<T: Compilable>(&self, ctx: &mut Context, val: &T) -> (r: Result<Value, JitError>)
        ensures
            (r, final(ctx)@) == const_outcome(old(ctx)@, slot(old(ctx)@, *self), T::spec_kind(), val.spec_bits()),
    {
        let f = ctx.slot_exec(*self);
        if let Some(e) = ctx.building_check_exec(f) {
            return Err(e);
        }
        let kind = T::kind();
        let bits = val.bits();
        let dst = ctx.funcs[f].values.len();
        Ok(ctx.push_value_exec(f, kind, Insn::Const { dst, kind, bits }))
    }

    /// Converts `v` to the scalar type `t`; with `overflow_check`, a
    /// conversion that loses information faults at run time.
    pub fn insn_convert(&self, ctx: &mut Context, v: &Value, t: &Type, overflow_check: bool) -> (r: Result<Value, JitError>)
        ensures
            (r, final(ctx)@) == convert_outcome(old(ctx)@, slot(old(ctx)@, *self), *v, t@, overflow_check),
    {
        let f = ctx.slot_exec(*self);
        if let Some(e) = ctx.building_check_exec(f) {
            return Err(e);
        }
        if !ctx.value_ok_exec(f, *v) {
            return Err(JitError::InvalidValue);
        }
        match t {
            Type::Sig(_) => Err(JitError::NotAScalar),
            Type::Scalar(kind) => {
                let dst = ctx.funcs[f].values.len();
                Ok(ctx.push_value_exec(f, *kind, Insn::Convert { dst, src: *v, kind: *kind, overflow_check }))
            },
        }
    }

    /// Reserves stack space of `size` bytes; the result points to it.
    pub fn insn_alloca(&self, ctx: &mut Context, size: &Value) -> (r: Result<Value, JitError>)
        ensures
            (r, final(ctx)@) == alloca_outcome(old(ctx)@, slot(old(ctx)@, *self), *size),
    {
        let f = ctx.slot_exec(*self);
        if let Some(e) = ctx.building_check_exec(f) {
            return Err(e);
        }
        if !ctx.value_ok_exec(f, *size) {
            return Err(JitError::InvalidValue);
        }
        let dst = ctx.funcs[f].values.len();
        Ok(ctx.push_value_exec(f, Kind::Ptr, Insn::Alloca { dst, size: *size }))
    }

    fn emit_plain2(&self, ctx: &mut Context, a: Value, b: Value, i: Insn) -> (r: Result<(), JitError>)
        ensures
            (r, final(ctx)@) == plain_outcome(old(ctx)@, slot(old(ctx)@, *self), seq![a, b], i@),
    {
        let f = ctx.slot_exec(*self);
        if let Some(e) = ctx.building_check_exec(f) {
            return Err(e);
        }
        let ghost vs = seq![a, b];
        if !ctx.value_ok_exec(f, a) {
            assert(!value_ok(ctx@, f, vs[0]));
            return Err(JitError::InvalidValue);
        }
        if !ctx.value_ok_exec(f, b) {
            assert(!value_ok(ctx@, f, vs[1]));
            return Err(JitError::InvalidValue);
        }
        assert(forall|j: int| 0 <= j < vs.len() ==> value_ok(ctx@, f, #[trigger] vs[j]));
        ctx.push_insn_exec(f, i);
        Ok(())
    }

    fn emit_plain1(&self, ctx: &mut Context, a: Value, i: Insn) -> (r: Result<(), JitError>)
        ensures
            (r, final(ctx)@) == plain_outcome(old(ctx)@, slot(old(ctx)@, *self), seq![a], i@),
    {
        let f = ctx.slot_exec(*self);
        if let Some(e) = ctx.building_check_exec(f) {
            return Err(e);
        }
        let ghost vs = seq![a];
        if !ctx.value_ok_exec(f, a) {
            assert(!value_ok(ctx@, f, vs[0]));
            return Err(JitError::InvalidValue);
        }
        assert(forall|j: int| 0 <= j < vs.len() ==> value_ok(ctx@, f, #[trigger] vs[j]));
        ctx.push_insn_exec(f, i);
        Ok(())
    }

    /// Stores `src` at the location `dest` points to.
    pub fn insn_store(&self, ctx: &mut Context, dest: &Value, src: &Value) -> (r: Result<(), JitError>)
        ensures
            (r, final(ctx)@) == plain_outcome(old(ctx)@, slot(old(ctx)@, *self), seq![*dest, *src], InsnModel::Plain(Insn::Store { dest: *dest, src: *src })),
    {
        self.emit_plain2(ctx, *dest, *src, Insn::Store { dest: *dest, src: *src })
    }

    /// Stores `src` at `offset` bytes from the location `dest` points to.
    pub fn insn_store_relative(&self, ctx: &mut Context, dest: &Value, offset: i64, src: &Value) -> (r: Result<(), JitError>)
        ensures
            (r, final(ctx)@) == plain_outcome(old(ctx)@, slot(old(ctx)@, *self), seq![*dest, *src], InsnModel::Plain(Insn::StoreRelative { dest: *dest, offset, src: *src })),
    {
        self.emit_plain2(ctx, *dest, *src, Insn::StoreRelative { dest: *dest, offset, src: *src })
    }

    /// Returns `retval` from the function.
    pub fn insn_return(&self, ctx: &mut Context, retval: &Value) -> (r: Result<(), JitError>)
        ensures
            (r, final(ctx)@) == plain_outcome(old(ctx)@, slot(old(ctx)@, *self), seq![*retval], InsnModel::Plain(Insn::Return { value: *retval })),
    {
        self.emit_plain1(ctx, *retval, Insn::Return { value: *retval })
    }

    /// Returns from the function with the default value of its return kind.
    pub fn insn_default_return(&self, ctx: &mut Context) -> (r: Result<(), JitError>)
        ensures
            (r, final(ctx)@) == plain_outcome(old(ctx)@, slot(old(ctx)@, *self), Seq::empty(), InsnModel::Plain(Insn::DefaultReturn)),
    {
        let f = ctx.slot_exec(*self);
        if let Some(e) = ctx.building_check_exec(f) {
            return Err(e);
        }
        ctx.push_insn_exec(f, Insn::DefaultReturn);
        Ok(())
    }

    /// Declares that this function holds a catch region; needed before a throw.
    pub fn insn_uses_catcher(&self, ctx: &mut Context) -> (r: Result<(), JitError>)
        ensures
            (r, final(ctx)@) == catcher_outcome(old(ctx)@, slot(old(ctx)@, *self)),
    {
        let f = ctx.slot_exec(*self);
        if let Some(e) = ctx.building_check_exec(f) {
            return Err(e);
        }
        let ghost pre = ctx@;
        let mut fs = ctx.take_funcs();
        let ghost old_fs = fs@;
        fs[f].uses_catcher = true;
        fs[f].state = FnState::Building;
        proof {
            lemma_keep_params(old_fs, fs@, f as int);
        }
        ctx.put_funcs(fs);
        assert(ctx@.funcs =~= catcher_outcome(pre, f).1.funcs);
        Ok(())
    }

    /// Throws `retval` to the nearest enclosing catch region.
    pub fn insn_throw(&self, ctx: &mut Context, retval: &Value) -> (r: Result<(), JitError>)
        ensures
            (r, final(ctx)@) == throw_outcome(old(ctx)@, slot(old(ctx)@, *self), *retval),
    {
        let f = ctx.slot_exec(*self);
        if let Some(e) = ctx.building_check_exec(f) {
            return Err(e);
        }
        if !ctx.value_ok_exec(f, *retval) {
            return Err(JitError::InvalidValue);
        }
        if !ctx.funcs[f].uses_catcher {
            return Err(JitError::CatcherRequired);
        }
        ctx.push_insn_exec(f, Insn::Throw { value: *retval });
        Ok(())
    }

    /// Binds `label` at the current end of the instruction stream.
    pub fn insn_set_label(&self, ctx: &mut Context, label: &Label) -> (r: Result<(), JitError>)
        ensures
            (r, final(ctx)@) == set_label_outcome(old(ctx)@, slot(old(ctx)@, *self), *label),
    {
        let f = ctx.slot_exec(*self);
        if let Some(e) = ctx.building_check_exec(f) {
            return Err(e);
        }
        if !ctx.label_ok_exec(f, *label) {
            return Err(JitError::InvalidLabel);
        }
        if ctx.funcs[f].labels[label.index].is_some() {
            return Err(JitError::LabelAlreadyBound);
        }
        let ghost pre = ctx@;
        let pos = ctx.funcs[f].insns.len();
        let i = Insn::SetLabel { label: label.index };
        let ghost vi = i@;
        let mut fs = ctx.take_funcs();
        let ghost old_fs = fs@;
        fs[f].labels.set(label.index, Some(pos));
        fs[f].insns.push(i);
        fs[f].state = FnState::Building;
        assert(fs@[f as int].insns@.map_values(|i: Insn| i@) =~= pre.funcs[f as int].insns.push(vi));
        proof {
            lemma_keep_params(old_fs, fs@, f as int);
        }
        ctx.put_funcs(fs);
        assert(ctx@.funcs =~= set_label_outcome(pre, f, *label).1.funcs);
        Ok(())
    }

    /// Branches unconditionally to `label`.
    pub fn insn_branch(&self, ctx: &mut Context, label: &Label) -> (r: Result<(), JitError>)
        ensures
            (r, final(ctx)@) == branch_outcome(old(ctx)@, slot(old(ctx)@, *self), *label),
    {
        let f = ctx.slot_exec(*self);
        if let Some(e) = ctx.building_check_exec(f) {
            return Err(e);
        }
        if !ctx.label_ok_exec(f, *label) {
            return Err(JitError::InvalidLabel);
        }
        ctx.push_insn_exec(f, Insn::Branch { label: label.index });
        Ok(())
    }

    fn emit_branch_if(&self, ctx: &mut Context, value: &Value, label: &Label, negate: bool) -> (r: Result<(), JitError>)
        ensures
            (r, final(ctx)@) == branch_if_outcome(old(ctx)@, slot(old(ctx)@, *self), *value, *label, negate),
    {
        let f = ctx.slot_exec(*self);
        if let Some(e) = ctx.building_check_exec(f) {
            return Err(e);
        }
        if !ctx.value_ok_exec(f, *value) {
            return Err(JitError::InvalidValue);
        }
        let k = ctx.kind_exec(*value);
        if k == Kind::Void || k == Kind::Float32 || k == Kind::Float64 {
            return Err(JitError::ConditionType);
        }
        if !ctx.label_ok_exec(f, *label) {
            return Err(JitError::InvalidLabel);
        }
        let i = if negate {
            Insn::BranchIfNot { cond: *value, label: label.index }
        } else {
            Insn::BranchIf { cond: *value, label: label.index }
        };
        ctx.push_insn_exec(f, i);
        Ok(())
    }

    /// Branches to `label` when `value` is non-zero.
    pub fn insn_branch_if(&self, ctx: &mut Context, value: &Value, label: &Label) -> (r: Result<(), JitError>)
        ensures
            (r, final(ctx)@) == branch_if_outcome(old(ctx)@, slot(old(ctx)@, *self), *value, *label, false),
    {
        self.emit_branch_if(ctx, value, label, false)
    }

    /// Branches to `label` when `value` is zero.
    pub fn insn_branch_if_not(&self, ctx: &mut Context, value: &Value, label: &Label) -> (r: Result<(), JitError>)
        ensures
            (r, final(ctx)@) == branch_if_outcome(old(ctx)@, slot(old(ctx)@, *self), *value, *label, true),
    {
        self.emit_branch_if(ctx, value, label, true)
    }

    /// Branches to the label at position `value` of `labels`.
    pub fn insn_jump_table(&self, ctx: &mut Context, value: &Value, labels: &[Label]) -> (r: Result<(), JitError>)
        ensures
            (r, final(ctx)@) == jump_table_outcome(old(ctx)@, slot(old(ctx)@, *self), *value, labels@),
    {
        let f = ctx.slot_exec(*self);
        if let Some(e) = ctx.building_check_exec(f) {
            return Err(e);
        }
        if !ctx.value_ok_exec(f, *value) {
            return Err(JitError::InvalidValue);
        }
        let k = ctx.kind_exec(*value);
        if k == Kind::Void || k == Kind::Float32 || k == Kind::Float64 {
            return Err(JitError::ConditionType);
        }
        let targets = match ctx.label_targets_exec(f, labels) {
            None => {
                return Err(JitError::InvalidLabel);
            },
            Some(t) => t,
        };
        ctx.push_insn_exec(f, Insn::JumpTable { index: *value, labels: targets });
        Ok(())
    }

    /// Calls `func`, whose signature must equal `signature`, with `args`.
    pub fn insn_call_indirect(&self, ctx: &mut Context, func: &Function, signature: &Type, args: &[Value]) -> (r: Result<Value, JitError>)
        ensures
            (r, final(ctx)@) == call_indirect_outcome(old(ctx)@, slot(old(ctx)@, *self), slot(old(ctx)@, *func), signature@, args@),
    {
        let f = ctx.slot_exec(*self);
        if let Some(e) = ctx.building_check_exec(f) {
            return Err(e);
        }
        let sig = match signature {
            Type::Scalar(_) => {
                return Err(JitError::NotASignature);
            },
            Type::Sig(s) => s,
        };
        let callee = ctx.slot_exec(*func);
        if callee >= ctx.funcs.len() {
            return Err(JitError::InvalidFunction);
        }
        if ctx.funcs[callee].state == FnState::Abandoned {
            return Err(JitError::FunctionAbandoned);
        }
        if !ctx.funcs[callee].sig.same_as(sig) {
            return Err(JitError::SignatureMismatch);
        }
        if let Some(e) = ctx.args_check_exec(f, sig, args) {
            return Err(e);
        }
        let flags = ctx.call_flags_exec(f);
        let dst = ctx.funcs[f].values.len();
        let ins = Insn::CallIndirect { dst, callee, args: copy_values(args), flags };
        Ok(ctx.push_value_exec(f, sig.ret, ins))
    }

    fn insn_call_native(&self, ctx: &mut Context, name: &str, native_func: usize, signature: &Type, args: &[Value], arity: Option<usize>) -> (r: Result<Value, JitError>)
        ensures
            (r, final(ctx)@) == call_native_outcome(
                old(ctx)@,
                slot(old(ctx)@, *self),
                name@,
                native_func,
                signature@,
                args@,
                match arity {
                    Some(n) => Some(n as nat),
                    None => None,
                },
            ),
    {
        let f = ctx.slot_exec(*self);
        if let Some(e) = ctx.building_check_exec(f) {
            return Err(e);
        }
        let sig = match signature {
            Type::Scalar(_) => {
                return Err(JitError::NotASignature);
            },
            Type::Sig(s) => s,
        };
        if let Some(n) = arity {
            if sig.params.len() != n {
                return Err(JitError::ArgumentCount);
            }
        }
        if let Some(e) = ctx.args_check_exec(f, sig, args) {
            return Err(e);
        }
        let flags = ctx.call_flags_exec(f);
        let dst = ctx.funcs[f].values.len();
        let ins = Insn::CallNative { dst, name: name.to_owned(), address: native_func, args: copy_values(args), flags };
        Ok(ctx.push_value_exec(f, sig.ret, ins))
    }

    /// Calls the host function at address `native_func`, which takes no
    /// argument. `name` only serves diagnostics. The host function must have
    /// exactly the representation that `signature` describes.
    pub fn insn_call_native0(&self, ctx: &mut Context, name: &str, native_func: usize, signature: &Type, args: &[Value]) -> (r: Result<Value, JitError>)
        ensures
            (r, final(ctx)@) == call_native_outcome(old(ctx)@, slot(old(ctx)@, *self), name@, native_func, signature@, args@, Some(0)),
    {
        self.insn_call_native(ctx, name, native_func, signature, args, Some(0))
    }

    /// Calls the host function at address `native_func`, which takes one
    /// argument; see `insn_call_native0`.
    pub fn insn_call_native1(&self, ctx: &mut Context, name: &str, native_func: usize, signature: &Type, args: &[Value]) -> (r: Result<Value, JitError>)
        ensures
            (r, final(ctx)@) == call_native_outcome(old(ctx)@, slot(old(ctx)@, *self), name@, native_func, signature@, args@, Some(1)),
    {
        self.insn_call_native(ctx, name, native_func, signature, args, Some(1))
    }

    /// Calls the host function at address `native_func`, which takes two
    /// arguments; see `insn_call_native0`.
    pub fn insn_call_native2(&self, ctx: &mut Context, name: &str, native_func: usize, signature: &Type, args: &[Value]) -> (r: Result<Value, JitError>)
        ensures
            (r, final(ctx)@) == call_native_outcome(old(ctx)@, slot(old(ctx)@, *self), name@, native_func, signature@, args@, Some(2)),
    {
        self.insn_call_native(ctx, name, native_func, signature, args, Some(2))
    }

    /// Calls the host function at address `native_func`, which takes three
    /// arguments; see `insn_call_native0`.
    pub fn insn_call_native3(&self, ctx: &mut Context, name: &str, native_func: usize, signature: &Type, args: &[Value]) -> (r: Result<Value, JitError>)
        ensures
            (r, final(ctx)@) == call_native_outcome(old(ctx)@, slot(old(ctx)@, *self), name@, native_func, signature@, args@, Some(3)),
    {
        self.insn_call_native(ctx, name, native_func, signature, args, Some(3))
    }

    /// Calls the host function at address `native_func`, which takes four
    /// arguments; see `insn_call_native0`.
    pub fn insn_call_native4(&self, ctx: &mut Context, name: &str, native_func: usize, signature: &Type, args: &[Value]) -> (r: Result<Value, JitError>)
        ensures
            (r, final(ctx)@) == call_native_outcome(old(ctx)@, slot(old(ctx)@, *self), name@, native_func, signature@, args@, Some(4)),
    {
        self.insn_call_native(ctx, name, native_func, signature, args, Some(4))
    }

    /// Sets how much effort the code generator spends optimising.
    pub fn set_optimization_level(&self, ctx: &mut Context, level: u32) -> (r: Result<(), JitError>)
        ensures
            (r, final(ctx)@) == opt_level_outcome(old(ctx)@, slot(old(ctx)@, *self), level),
    {
        let f = ctx.slot_exec(*self);
        if let Some(e) = ctx.fn_check_exec(f) {
            return Err(e);
        }
        let ghost pre = ctx@;
        let mut fs = ctx.take_funcs();
        let ghost old_fs = fs@;
        fs[f].opt_level = level;
        proof {
            lemma_keep_params(old_fs, fs@, f as int);
        }
        ctx.put_funcs(fs);
        assert(ctx@.funcs =~= opt_level_outcome(pre, f, level).1.funcs);
        Ok(())
    }

    /// Makes this function a candidate for recompilation.
    pub fn set_recompilable(&self, ctx: &mut Context) -> (r: Result<(), JitError>)
        ensures
            (r, final(ctx)@) == recompilable_outcome(old(ctx)@, slot(old(ctx)@, *self)),
    {
        let f = ctx.slot_exec(*self);
        if let Some(e) = ctx.fn_check_exec(f) {
            return Err(e);
        }
        let ghost pre = ctx@;
        let mut fs = ctx.take_funcs();
        let ghost old_fs = fs@;
        fs[f].recompilable = true;
        proof {
            lemma_keep_params(old_fs, fs@, f as int);
        }
        ctx.put_funcs(fs);
        assert(ctx@.funcs =~= recompilable_outcome(pre, f).1.funcs);
        Ok(())
    }

    /// Freezes the instruction stream after checking that every label is
    /// bound. A path that runs off the end returns the default value, as an
    /// implicit default return would.
    pub fn compile(&self, ctx: &mut Context) -> (r: Result<(), JitError>)
        ensures
            (r, final(ctx)@) == compile_outcome(old(ctx)@, slot(old(ctx)@, *self)),
            r matches Err(JitError::UnboundLabel { label }) ==> first_unbound(
                old(ctx)@.funcs[slot(old(ctx)@, *self) as int].labels,
                label as int,
            ),
    {
        let f = ctx.slot_exec(*self);
        if let Some(e) = ctx.fn_check_exec(f) {
            return Err(e);
        }
        if ctx.funcs[f].state == FnState::Compiled && !ctx.funcs[f].recompilable {
            return Err(JitError::AlreadyCompiled);
        }
        if let Some(k) = ctx.first_unbound_exec(f) {
            return Err(JitError::UnboundLabel { label: k });
        }
        let ghost pre = ctx@;
        let mut fs = ctx.take_funcs();
        let ghost old_fs = fs@;
        fs[f].state = FnState::Compiled;
        proof {
            lemma_keep_params(old_fs, fs@, f as int);
        }
        ctx.put_funcs(fs);
        assert(ctx@.funcs =~= compile_outcome(pre, f).1.funcs);
        Ok(())
    }

    /// Releases this function: it is abandoned if it was never compiled, and
    /// its code is released otherwise. No later use is allowed.
    pub fn abandon(&self, ctx: &mut Context) -> (r: Result<(), JitError>)
        ensures
            (r, final(ctx)@) == abandon_outcome(old(ctx)@, slot(old(ctx)@, *self)),
    {
        let f = ctx.slot_exec(*self);
        if let Some(e) = ctx.fn_check_exec(f) {
            return Err(e);
        }
        let ghost pre = ctx@;
        let mut fs = ctx.take_funcs();
        let ghost old_fs = fs@;
        fs[f].state = FnState::Abandoned;
        proof {
            lemma_keep_params(old_fs, fs@, f as int);
        }
        ctx.put_funcs(fs);
        assert(ctx@.funcs =~= abandon_outcome(pre, f).1.funcs);
        Ok(())
    }

    fn insn_binop(&self, ctx: &mut Context, op: BinOp, v1: &Value, v2: &Value) -> (r: Result<Value, JitError>)
        ensures
            (r, final(ctx)@) == binop_outcome(old(ctx)@, slot(old(ctx)@, *self), op, *v1, *v2),
    {
        let f = ctx.slot_exec(*self);
        match ctx.building_check_exec(f) {
            Some(e) => Err(e),
            None => {
                if !ctx.value_ok_exec(f, *v1) || !ctx.value_ok_exec(f, *v2) {
                    return Err(JitError::InvalidValue);
                }
                let k = binop_result_kind(op, ctx.kind_exec(*v1), ctx.kind_exec(*v2));
                let dst = ctx.funcs[f].values.len();
                Ok(ctx.push_value_exec(f, k, Insn::Binary { dst, op, a: *v1, b: *v2 }))
            },
        }
    }

    fn insn_unop(&self, ctx: &mut Context, op: UnOp, v: &Value) -> (r: Result<Value, JitError>)
        ensures
            (r, final(ctx)@) == unop_outcome(old(ctx)@, slot(old(ctx)@, *self), op, *v),
    {
        let f = ctx.slot_exec(*self);
        match ctx.building_check_exec(f) {
            Some(e) => Err(e),
            None => {
                if !ctx.value_ok_exec(f, *v) {
                    return Err(JitError::InvalidValue);
                }
                let k = unop_result_kind(op, ctx.kind_exec(*v));
                let dst = ctx.funcs[f].values.len();
                Ok(ctx.push_value_exec(f, k, Insn::Unary { dst, op, a: *v }))
            },
        }
    }

    /// Emits an instruction that multiplies the values.
    pub fn insn_mul(&self, ctx: &mut Context, v1: &Value, v2: &Value) -> (r: Result<Value, JitError>)
        ensures
            (r, final(ctx)@) == binop_outcome(old(ctx)@, slot(old(ctx)@, *self), BinOp::Mul, *v1, *v2),
    {
        self.insn_binop(ctx, BinOp::Mul, v1, v2)
    }

    /// Emits an instruction that adds the values.
    pub fn insn_add(&self, ctx: &mut Context, v1: &Value, v2: &Value) -> (r: Result<Value, JitError>)
        ensures
            (r, final(ctx)@) == binop_outcome(old(ctx)@, slot(old(ctx)@, *self), BinOp::Add, *v1, *v2),
    {
        self.insn_binop(ctx, BinOp::Add, v1, v2)
    }

    /// Emits an instruction that subtracts the second value from the first.
    pub fn insn_sub(&self, ctx: &mut Context, v1: &Value, v2: &Value) -> (r: Result<Value, JitError>)
        ensures
            (r, final(ctx)@) == binop_outcome(old(ctx)@, slot(old(ctx)@, *self), BinOp::Sub, *v1, *v2),
    {
        self.insn_binop(ctx, BinOp::Sub, v1, v2)
    }

    /// Emits an instruction that divides the first value by the second.
    pub fn insn_div(&self, ctx: &mut Context, v1: &Value, v2: &Value) -> (r: Result<Value, JitError>)
        ensures
            (r, final(ctx)@) == binop_outcome(old(ctx)@, slot(old(ctx)@, *self), BinOp::Div, *v1, *v2),
    {
        self.insn_binop(ctx, BinOp::Div, v1, v2)
    }

    /// Emits an instruction that finds the remainder of dividing the first value by the second.
    pub fn insn_rem(&self, ctx: &mut Context, v1: &Value, v2: &Value) -> (r: Result<Value, JitError>)
        ensures
            (r, final(ctx)@) == binop_outcome(old(ctx)@, slot(old(ctx)@, *self), BinOp::Rem, *v1, *v2),
    {
        self.insn_binop(ctx, BinOp::Rem, v1, v2)
    }

    /// Emits an instruction that checks whether the first value is lower than or equal to the second.
    pub fn insn_leq(&self, ctx: &mut Context, v1: &Value, v2: &Value) -> (r: Result<Value, JitError>)
        ensures
            (r, final(ctx)@) == binop_outcome(old(ctx)@, slot(old(ctx)@, *self), BinOp::Le, *v1, *v2),
    {
        self.insn_binop(ctx, BinOp::Le, v1, v2)
    }

    /// Emits an instruction that checks whether the first value is greater than or equal to the second.
    pub fn insn_geq(&self, ctx: &mut Context, v1: &Value, v2: &Value) -> (r: Result<Value, JitError>)
        ensures
            (r, final(ctx)@) == binop_outcome(old(ctx)@, slot(old(ctx)@, *self), BinOp::Ge, *v1, *v2),
    {
        self.insn_binop(ctx, BinOp::Ge, v1, v2)
    }

    /// Emits an instruction that checks whether the first value is lower than the second.
    pub fn insn_lt(&self, ctx: &mut Context, v1: &Value, v2: &Value) -> (r: Result<Value, JitError>)
        ensures
            (r, final(ctx)@) == binop_outcome(old(ctx)@, slot(old(ctx)@, *self), BinOp::Lt, *v1, *v2),
    {
        self.insn_binop(ctx, BinOp::Lt, v1, v2)
    }

    /// Emits an instruction that checks whether the first value is greater than the second.
    pub fn insn_gt(&self, ctx: &mut Context, v1: &Value, v2: &Value) -> (r: Result<Value, JitError>)
        ensures
            (r, final(ctx)@) == binop_outcome(old(ctx)@, slot(old(ctx)@, *self), BinOp::Gt, *v1, *v2),
    {
        self.insn_binop(ctx, BinOp::Gt, v1, v2)
    }

    /// Emits an instruction that checks whether the values are equal.
    pub fn insn_eq(&self, ctx: &mut Context, v1: &Value, v2: &Value) -> (r: Result<Value, JitError>)
        ensures
            (r, final(ctx)@) == binop_outcome(old(ctx)@, slot(old(ctx)@, *self), BinOp::Eq, *v1, *v2),
    {
        self.insn_binop(ctx, BinOp::Eq, v1, v2)
    }

    /// Emits an instruction that checks whether the values differ.
    pub fn insn_neq(&self, ctx: &mut Context, v1: &Value, v2: &Value) -> (r: Result<Value, JitError>)
        ensures
            (r, final(ctx)@) == binop_outcome(old(ctx)@, slot(old(ctx)@, *self), BinOp::Ne, *v1, *v2),
    {
        self.insn_binop(ctx, BinOp::Ne, v1, v2)
    }

    /// Emits an instruction that takes the bitwise and of the values.
    pub fn insn_and(&self, ctx: &mut Context, v1: &Value, v2: &Value) -> (r: Result<Value, JitError>)
        ensures
            (r, final(ctx)@) == binop_outcome(old(ctx)@, slot(old(ctx)@, *self), BinOp::And, *v1, *v2),
    {
        self.insn_binop(ctx, BinOp::And, v1, v2)
    }

    /// Emits an instruction that takes the bitwise or of the values.
    pub fn insn_or(&self, ctx: &mut Context, v1: &Value, v2: &Value) -> (r: Result<Value, JitError>)
        ensures
            (r, final(ctx)@) == binop_outcome(old(ctx)@, slot(old(ctx)@, *self), BinOp::Or, *v1, *v2),
    {
        self.insn_binop(ctx, BinOp::Or, v1, v2)
    }

    /// Emits an instruction that takes the bitwise exclusive or of the values.
    pub fn insn_xor(&self, ctx: &mut Context, v1: &Value, v2: &Value) -> (r: Result<Value, JitError>)
        ensures
            (r, final(ctx)@) == binop_outcome(old(ctx)@, slot(old(ctx)@, *self), BinOp::Xor, *v1, *v2),
    {
        self.insn_binop(ctx, BinOp::Xor, v1, v2)
    }

    /// Emits an instruction that shifts the first value left by the second.
    pub fn insn_shl(&self, ctx: &mut Context, v1: &Value, v2: &Value) -> (r: Result<Value, JitError>)
        ensures
            (r, final(ctx)@) == binop_outcome(old(ctx)@, slot(old(ctx)@, *self), BinOp::Shl, *v1, *v2),
    {
        self.insn_binop(ctx, BinOp::Shl, v1, v2)
    }

    /// Emits an instruction that shifts the first value right by the second, keeping its sign.
    pub fn insn_shr(&self, ctx: &mut Context, v1: &Value, v2: &Value) -> (r: Result<Value, JitError>)
        ensures
            (r, final(ctx)@) == binop_outcome(old(ctx)@, slot(old(ctx)@, *self), BinOp::Shr, *v1, *v2),
    {
        self.insn_binop(ctx, BinOp::Shr, v1, v2)
    }

    /// Emits an instruction that shifts the first value right by the second, filling with zeros.
    pub fn insn_ushr(&self, ctx: &mut Context, v1: &Value, v2: &Value) -> (r: Result<Value, JitError>)
        ensures
            (r, final(ctx)@) == binop_outcome(old(ctx)@, slot(old(ctx)@, *self), BinOp::Ushr, *v1, *v2),
    {
        self.insn_binop(ctx, BinOp::Ushr, v1, v2)
    }

    /// Emits an instruction that finds the inverse tangent of the first value over the second.
    pub fn insn_atan2(&self, ctx: &mut Context, v1: &Value, v2: &Value) -> (r: Result<Value, JitError>)
        ensures
            (r, final(ctx)@) == binop_outcome(old(ctx)@, slot(old(ctx)@, *self), BinOp::Atan2, *v1, *v2),
    {
        self.insn_binop(ctx, BinOp::Atan2, v1, v2)
    }

    /// Emits an instruction that raises the first value to the power of the second.
    pub fn insn_pow(&self, ctx: &mut Context, v1: &Value, v2: &Value) -> (r: Result<Value, JitError>)
        ensures
            (r, final(ctx)@) == binop_outcome(old(ctx)@, slot(old(ctx)@, *self), BinOp::Pow, *v1, *v2),
    {
        self.insn_binop(ctx, BinOp::Pow, v1, v2)
    }

    /// Emits an instruction that finds the smaller of the values.
    pub fn insn_min(&self, ctx: &mut Context, v1: &Value, v2: &Value) -> (r: Result<Value, JitError>)
        ensures
            (r, final(ctx)@) == binop_outcome(old(ctx)@, slot(old(ctx)@, *self), BinOp::Min, *v1, *v2),
    {
        self.insn_binop(ctx, BinOp::Min, v1, v2)
    }

    /// Emits an instruction that finds the larger of the values.
    pub fn insn_max(&self, ctx: &mut Context, v1: &Value, v2: &Value) -> (r: Result<Value, JitError>)
        ensures
            (r, final(ctx)@) == binop_outcome(old(ctx)@, slot(old(ctx)@, *self), BinOp::Max, *v1, *v2),
    {
        self.insn_binop(ctx, BinOp::Max, v1, v2)
    }

    /// Emits an instruction that takes the bitwise complement of the value.
    pub fn insn_not(&self, ctx: &mut Context, value: &Value) -> (r: Result<Value, JitError>)
        ensures
            (r, final(ctx)@) == unop_outcome(old(ctx)@, slot(old(ctx)@, *self), UnOp::Not, *value),
    {
        self.insn_unop(ctx, UnOp::Not, value)
    }

    /// Emits an instruction that negates the value.
    pub fn insn_neg(&self, ctx: &mut Context, value: &Value) -> (r: Result<Value, JitError>)
        ensures
            (r, final(ctx)@) == unop_outcome(old(ctx)@, slot(old(ctx)@, *self), UnOp::Neg, *value),
    {
        self.insn_unop(ctx, UnOp::Neg, value)
    }

    /// Emits an instruction that copies the value.
    pub fn insn_dup(&self, ctx: &mut Context, value: &Value) -> (r: Result<Value, JitError>)
        ensures
            (r, final(ctx)@) == unop_outcome(old(ctx)@, slot(old(ctx)@, *self), UnOp::Load, *value),
    {
        self.insn_unop(ctx, UnOp::Load, value)
    }

    /// Emits an instruction that copies the value.
    pub fn insn_load(&self, ctx: &mut Context, src: &Value) -> (r: Result<Value, JitError>)
        ensures
            (r, final(ctx)@) == unop_outcome(old(ctx)@, slot(old(ctx)@, *self), UnOp::Load, *src),
    {
        self.insn_unop(ctx, UnOp::Load, src)
    }

    /// Emits an instruction that finds the inverse cosine.
    pub fn insn_acos(&self, ctx: &mut Context, v: &Value) -> (r: Result<Value, JitError>)
        ensures
            (r, final(ctx)@) == unop_outcome(old(ctx)@, slot(old(ctx)@, *self), UnOp::Acos, *v),
    {
        self.insn_unop(ctx, UnOp::Acos, v)
    }

    /// Emits an instruction that finds the inverse sine.
    pub fn insn_asin(&self, ctx: &mut Context, v: &Value) -> (r: Result<Value, JitError>)
        ensures
            (r, final(ctx)@) == unop_outcome(old(ctx)@, slot(old(ctx)@, *self), UnOp::Asin, *v),
    {
        self.insn_unop(ctx, UnOp::Asin, v)
    }

    /// Emits an instruction that finds the inverse tangent.
    pub fn insn_atan(&self, ctx: &mut Context, v: &Value) -> (r: Result<Value, JitError>)
        ensures
            (r, final(ctx)@) == unop_outcome(old(ctx)@, slot(old(ctx)@, *self), UnOp::Atan, *v),
    {
        self.insn_unop(ctx, UnOp::Atan, v)
    }

    /// Emits an instruction that rounds up to an integer.
    pub fn insn_ceil(&self, ctx: &mut Context, v: &Value) -> (r: Result<Value, JitError>)
        ensures
            (r, final(ctx)@) == unop_outcome(old(ctx)@, slot(old(ctx)@, *self), UnOp::Ceil, *v),
    {
        self.insn_unop(ctx, UnOp::Ceil, v)
    }

    /// Emits an instruction that finds the cosine.
    pub fn insn_cos(&self, ctx: &mut Context, v: &Value) -> (r: Result<Value, JitError>)
        ensures
            (r, final(ctx)@) == unop_outcome(old(ctx)@, slot(old(ctx)@, *self), UnOp::Cos, *v),
    {
        self.insn_unop(ctx, UnOp::Cos, v)
    }

    /// Emits an instruction that finds the hyperbolic cosine.
    pub fn insn_cosh(&self, ctx: &mut Context, v: &Value) -> (r: Result<Value, JitError>)
        ensures
            (r, final(ctx)@) == unop_outcome(old(ctx)@, slot(old(ctx)@, *self), UnOp::Cosh, *v),
    {
        self.insn_unop(ctx, UnOp::Cosh, v)
    }

    /// Emits an instruction that raises e to the power of the value.
    pub fn insn_exp(&self, ctx: &mut Context, v: &Value) -> (r: Result<Value, JitError>)
        ensures
            (r, final(ctx)@) == unop_outcome(old(ctx)@, slot(old(ctx)@, *self), UnOp::Exp, *v),
    {
        self.insn_unop(ctx, UnOp::Exp, v)
    }

    /// Emits an instruction that rounds down to an integer.
    pub fn insn_floor(&self, ctx: &mut Context, v: &Value) -> (r: Result<Value, JitError>)
        ensures
            (r, final(ctx)@) == unop_outcome(old(ctx)@, slot(old(ctx)@, *self), UnOp::Floor, *v),
    {
        self.insn_unop(ctx, UnOp::Floor, v)
    }

    /// Emits an instruction that finds the natural logarithm.
    pub fn insn_log(&self, ctx: &mut Context, v: &Value) -> (r: Result<Value, JitError>)
        ensures
            (r, final(ctx)@) == unop_outcome(old(ctx)@, slot(old(ctx)@, *self), UnOp::Log, *v),
    {
        self.insn_unop(ctx, UnOp::Log, v)
    }

    /// Emits an instruction that finds the base 10 logarithm.
    pub fn insn_log10(&self, ctx: &mut Context, v: &Value) -> (r: Result<Value, JitError>)
        ensures
            (r, final(ctx)@) == unop_outcome(old(ctx)@, slot(old(ctx)@, *self), UnOp::Log10, *v),
    {
        self.insn_unop(ctx, UnOp::Log10, v)
    }

    /// Emits an instruction that rounds to the nearest integer, ties to even.
    pub fn insn_rint(&self, ctx: &mut Context, v: &Value) -> (r: Result<Value, JitError>)
        ensures
            (r, final(ctx)@) == unop_outcome(old(ctx)@, slot(old(ctx)@, *self), UnOp::Rint, *v),
    {
        self.insn_unop(ctx, UnOp::Rint, v)
    }

    /// Emits an instruction that rounds to the nearest integer, ties away from zero.
    pub fn insn_round(&self, ctx: &mut Context, v: &Value) -> (r: Result<Value, JitError>)
        ensures
            (r, final(ctx)@) == unop_outcome(old(ctx)@, slot(old(ctx)@, *self), UnOp::Round, *v),
    {
        self.insn_unop(ctx, UnOp::Round, v)
    }

    /// Emits an instruction that finds the sine.
    pub fn insn_sin(&self, ctx: &mut Context, v: &Value) -> (r: Result<Value, JitError>)
        ensures
            (r, final(ctx)@) == unop_outcome(old(ctx)@, slot(old(ctx)@, *self), UnOp::Sin, *v),
    {
        self.insn_unop(ctx, UnOp::Sin, v)
    }

    /// Emits an instruction that finds the hyperbolic sine.
    pub fn insn_sinh(&self, ctx: &mut Context, v: &Value) -> (r: Result<Value, JitError>)
        ensures
            (r, final(ctx)@) == unop_outcome(old(ctx)@, slot(old(ctx)@, *self), UnOp::Sinh, *v),
    {
        self.insn_unop(ctx, UnOp::Sinh, v)
    }

    /// Emits an instruction that finds the square root.
    pub fn insn_sqrt(&self, ctx: &mut Context, v: &Value) -> (r: Result<Value, JitError>)
        ensures
            (r, final(ctx)@) == unop_outcome(old(ctx)@, slot(old(ctx)@, *self), UnOp::Sqrt, *v),
    {
        self.insn_unop(ctx, UnOp::Sqrt, v)
    }

    /// Emits an instruction that finds the tangent.
    pub fn insn_tan(&self, ctx: &mut Context, v: &Value) -> (r: Result<Value, JitError>)
        ensures
            (r, final(ctx)@) == unop_outcome(old(ctx)@, slot(old(ctx)@, *self), UnOp::Tan, *v),
    {
        self.insn_unop(ctx, UnOp::Tan, v)
    }

    /// Emits an instruction that finds the hyperbolic tangent.
    pub fn insn_tanh(&self, ctx: &mut Context, v: &Value) -> (r: Result<Value, JitError>)
        ensures
            (r, final(ctx)@) == unop_outcome(old(ctx)@, slot(old(ctx)@, *self), UnOp::Tanh, *v),
    {
        self.insn_unop(ctx, UnOp::Tanh, v)
    }

    /// Emits an instruction that rounds towards zero.
    pub fn insn_trunc(&self, ctx: &mut Context, v: &Value) -> (r: Result<Value, JitError>)
        ensures
            (r, final(ctx)@) == unop_outcome(old(ctx)@, slot(old(ctx)@, *self), UnOp::Trunc, *v),
    {
        self.insn_unop(ctx, UnOp::Trunc, v)
    }

    /// Emits an instruction that checks whether the value is not a number.
    pub fn insn_is_nan(&self, ctx: &mut Context, v: &Value) -> (r: Result<Value, JitError>)
        ensures
            (r, final(ctx)@) == unop_outcome(old(ctx)@, slot(old(ctx)@, *self), UnOp::IsNan, *v),
    {
        self.insn_unop(ctx, UnOp::IsNan, v)
    }

    /// Emits an instruction that checks whether the value is finite.
    pub fn insn_is_finite(&self, ctx: &mut Context, v: &Value) -> (r: Result<Value, JitError>)
        ensures
            (r, final(ctx)@) == unop_outcome(old(ctx)@, slot(old(ctx)@, *self), UnOp::IsFinite, *v),
    {
        self.insn_unop(ctx, UnOp::IsFinite, v)
    }

    /// Emits an instruction that checks whether the value is infinite.
    pub fn insn_is_inf(&self, ctx: &mut Context, v: &Value) -> (r: Result<Value, JitError>)
        ensures
            (r, final(ctx)@) == unop_outcome(old(ctx)@, slot(old(ctx)@, *self), UnOp::IsInf, *v),
    {
        self.insn_unop(ctx, UnOp::IsInf, v)
    }

    /// Emits an instruction that finds the absolute value.
    pub fn insn_abs(&self, ctx: &mut Context, v: &Value) -> (r: Result<Value, JitError>)
        ensures
            (r, final(ctx)@) == unop_outcome(old(ctx)@, slot(old(ctx)@, *self), UnOp::Abs, *v),
    {
        self.insn_unop(ctx, UnOp::Abs, v)
    }

    /// Emits an instruction that finds the sign of the value.
    pub fn insn_sign(&self, ctx: &mut Context, v: &Value) -> (r: Result<Value, JitError>)
        ensures
            (r, final(ctx)@) == unop_outcome(old(ctx)@, slot(old(ctx)@, *self), UnOp::Sign, *v),
    {
        self.insn_unop(ctx, UnOp::Sign, v)
    }
}

} // verus!

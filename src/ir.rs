//! The instruction stream: handles for values and labels, the operators,
//! and the kind of the value that each instruction yields.
use vstd::prelude::*;
use crate::types::{Kind, common, promote, float_of, common_kind, promote_kind, float_kind};

verus! {

/// A handle to a value: the context it was made in, the function that
/// produced it and its index among that function's values.
#[derive(Clone, Copy, Debug, PartialEq, Eq, Structural)]
pub struct Value {
    pub ctx: u64,
    pub func: usize,
    pub index: usize,
}

/// A handle to a control-flow target of one function of one context.
#[derive(Clone, Copy, Debug, PartialEq, Eq, Structural)]
pub struct Label {
    pub ctx: u64,
    pub func: usize,
    pub index: usize,
}

/// Two-operand instructions.
#[derive(Clone, Copy, Debug, PartialEq, Eq, Structural)]
pub enum BinOp {
    Add,
    Sub,
    Mul,
    Div,
    Rem,
    Le,
    Ge,
    Lt,
    Gt,
    Eq,
    Ne,
    And,
    Or,
    Xor,
    Shl,
    Shr,
    Ushr,
    Atan2,
    Pow,
    Min,
    Max,
}

/// One-operand instructions.
#[derive(Clone, Copy, Debug, PartialEq, Eq, Structural)]
pub enum UnOp {
    Not,
    Neg,
    Load,
    Acos,
    Asin,
    Atan,
    Ceil,
    Cos,
    Cosh,
    Exp,
    Floor,
    Log,
    Log10,
    Rint,
    Round,
    Sin,
    Sinh,
    Sqrt,
    Tan,
    Tanh,
    Trunc,
    IsNan,
    IsFinite,
    IsInf,
    Abs,
    Sign,
}

/// One recorded instruction. `dst` is the index of the value it defines.
#[derive(Debug)]
pub enum Insn {
    Const { dst: usize, kind: Kind, bits: u64 },
    Binary { dst: usize, op: BinOp, a: Value, b: Value },
    Unary { dst: usize, op: UnOp, a: Value },
    Convert { dst: usize, src: Value, kind: Kind, overflow_check: bool },
    Alloca { dst: usize, size: Value },
    Store { dest: Value, src: Value },
    StoreRelative { dest: Value, offset: i64, src: Value },
    SetLabel { label: usize },
    Branch { label: usize },
    BranchIf { cond: Value, label: usize },
    BranchIfNot { cond: Value, label: usize },
    JumpTable { index: Value, labels: Vec<usize> },
    CallIndirect { dst: usize, callee: usize, args: Vec<Value>, flags: u32 },
    CallNative { dst: usize, name: String, address: usize, args: Vec<Value>, flags: u32 },
    Return { value: Value },
    DefaultReturn,
    Throw { value: Value },
}

/// The mathematical form of an instruction: the instructions that carry a
/// list carry it as a sequence.
pub enum InsnModel {
    Plain(Insn),
    JumpTable { index: Value, labels: Seq<usize> },
    CallIndirect { dst: usize, callee: usize, args: Seq<Value>, flags: u32 },
    CallNative { dst: usize, name: Seq<char>, address: usize, args: Seq<Value>, flags: u32 },
}

impl View for Insn {
    type V = InsnModel;

    open spec fn view(&self) -> InsnModel {
        match self {
            Insn::JumpTable { index, labels } => InsnModel::JumpTable { index: *index, labels: labels@ },
            Insn::CallIndirect { dst, callee, args, flags } => InsnModel::CallIndirect {
                dst: *dst,
                callee: *callee,
                args: args@,
                flags: *flags,
            },
            Insn::CallNative { dst, name, address, args, flags } => InsnModel::CallNative {
                dst: *dst,
                name: name@,
                address: *address,
                args: args@,
                flags: *flags,
            },
            _ => InsnModel::Plain(*self),
        }
    }
}

/// The kind of the result of a binary instruction on operands of kinds
/// `a` and `b`.
pub open spec fn binop_kind(op: BinOp, a: Kind, b: Kind) -> Kind {
    match op {
        BinOp::Le | BinOp::Ge | BinOp::Lt | BinOp::Gt | BinOp::Eq | BinOp::Ne => Kind::Int32,
        BinOp::Shl | BinOp::Shr | BinOp::Ushr => promote(a),
        BinOp::Atan2 | BinOp::Pow => float_of(common(a, b)),
        _ => common(a, b),
    }
}

/// The kind of the result of a unary instruction on an operand of kind `a`.
pub open spec fn unop_kind(op: UnOp, a: Kind) -> Kind {
    match op {
        UnOp::Load => a,
        UnOp::Not | UnOp::Neg | UnOp::Abs => promote(a),
        UnOp::IsNan | UnOp::IsFinite | UnOp::IsInf | UnOp::Sign => Kind::Int32,
        _ => float_of(promote(a)),
    }
}

pub fn binop_result_kind(op: BinOp, a: Kind, b: Kind) -> (r: Kind)
    ensures
        r == binop_kind(op, a, b),
{
    match op {
        BinOp::Le | BinOp::Ge | BinOp::Lt | BinOp::Gt | BinOp::Eq | BinOp::Ne => Kind::Int32,
        BinOp::Shl | BinOp::Shr | BinOp::Ushr => promote_kind(a),
        BinOp::Atan2 | BinOp::Pow => float_kind(common_kind(a, b)),
        _ => common_kind(a, b),
    }
}

pub fn unop_result_kind(op: UnOp, a: Kind) -> (r: Kind)
    ensures
        r == unop_kind(op, a),
{
    match op {
        UnOp::Load => a,
        UnOp::Not | UnOp::Neg | UnOp::Abs => promote_kind(a),
        UnOp::IsNan | UnOp::IsFinite | UnOp::IsInf | UnOp::Sign => Kind::Int32,
        _ => float_kind(promote_kind(a)),
    }
}

} // verus!

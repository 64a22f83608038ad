//! Running compiled functions.
//!
//! The engine runs the integer part of the instruction set: parameters,
//! constants, integer arithmetic, comparisons, bitwise
//! operations, conversions, branches, jump tables and returns. Every value
//! is held in a 64-bit cell, normalised to its kind. Any other instruction
//! stops the run with `Unsupported`.
use vstd::prelude::*;
use crate::error::JitError;
use crate::function::{Context, Function, FuncModel, CtxModel, FnState, fn_check, slot};
use crate::ir::{Value, BinOp, UnOp, Insn, InsnModel};
use crate::types::{Kind, common, common_kind};

verus! {

/// The number of instructions that one run may execute.
pub const STEP_LIMIT: u64 = 1000000;

/// `x` reduced to the range of kind `k`: narrow kinds wrap, and unsigned
/// ones are zero-extended.
pub open spec fn fit(k: Kind, x: i64) -> i64 {
    match k {
        Kind::Int8 => #[verifier::truncate] (x as i8) as i64,
        Kind::UInt8 => #[verifier::truncate] (x as u8) as i64,
        Kind::Int16 => #[verifier::truncate] (x as i16) as i64,
        Kind::UInt16 => #[verifier::truncate] (x as u16) as i64,
        Kind::Int32 => #[verifier::truncate] (x as i32) as i64,
        Kind::UInt32 => #[verifier::truncate] (x as u32) as i64,
        _ => x,
    }
}

/// Kinds whose cells are read as unsigned 64-bit integers.
pub open spec fn is_unsigned_wide(k: Kind) -> bool {
    k == Kind::UInt64 || k == Kind::Ptr
}

/// The integer that cell `x` of kind `k` stands for.
pub open spec fn math(k: Kind, x: i64) -> int {
    if is_unsigned_wide(k) {
        x as u64 as int
    } else {
        x as int
    }
}

/// Kinds that the engine can hold.
pub open spec fn runnable(k: Kind) -> bool {
    k != Kind::Void && k != Kind::Float32 && k != Kind::Float64
}

pub open spec fn less(k: Kind, x: i64, y: i64) -> bool {
    math(k, x) < math(k, y)
}

pub open spec fn flag(b: bool) -> i64 {
    if b {
        1
    } else {
        0
    }
}

/// The shift count that `y` gives for a cell of kind `k`: it is taken
/// modulo the kind's width, 64 for wide kinds and 32 for the others.
pub open spec fn shift_count(k: Kind, y: i64) -> u32 {
    if is_wide_cell(k) {
        (y & 63) as u32
    } else {
        (y & 31) as u32
    }
}

pub open spec fn is_wide_cell(k: Kind) -> bool {
    k == Kind::Int64 || k == Kind::UInt64 || k == Kind::Ptr
}

/// Shift instructions. The value keeps the kind `k` of its first operand,
/// promoted; a right shift of an unsigned kind fills with zeros.
pub open spec fn shift_eval(op: BinOp, k: Kind, a: i64, b: i64) -> i64 {
    let x = fit(k, a);
    let n = shift_count(k, b);
    let logical = op == BinOp::Ushr || k == Kind::UInt32 || is_unsigned_wide(k);
    if op == BinOp::Shl {
        fit(k, x << n)
    } else if !logical {
        x >> n
    } else if is_wide_cell(k) {
        #[verifier::truncate] (((x as u64) >> n) as i64)
    } else {
        fit(k, (#[verifier::truncate] (x as u32) >> n) as i64)
    }
}

/// The absolute value of `x`.
pub open spec fn magnitude(x: i64) -> nat {
    if x < 0 {
        (-(x as int)) as nat
    } else {
        x as nat
    }
}

/// Division (`rem` false) or remainder (`rem` true) of cells `x` and `y`
/// of kind `c`, rounding the quotient towards zero. A zero divisor traps,
/// and so does a signed quotient that does not fit kind `c`.
pub open spec fn div_eval(c: Kind, x: i64, y: i64, rem: bool) -> Result<i64, JitError> {
    if y == 0 {
        Err(JitError::Trap)
    } else if is_unsigned_wide(c) {
        let q = if rem {
            (#[verifier::truncate] (x as u64)) % (#[verifier::truncate] (y as u64))
        } else {
            (#[verifier::truncate] (x as u64)) / (#[verifier::truncate] (y as u64))
        };
        Ok(#[verifier::truncate] (q as i64))
    } else {
        let q = magnitude(x) / magnitude(y);
        let r = magnitude(x) % magnitude(y);
        let sq: int = if (x < 0) != (y < 0) {
            -(q as int)
        } else {
            q as int
        };
        if sq > i64::MAX || fit(c, sq as i64) != sq as i64 {
            Err(JitError::Trap)
        } else if rem {
            Ok(
                (if x < 0 {
                    -(r as int)
                } else {
                    r as int
                }) as i64,
            )
        } else {
            Ok(sq as i64)
        }
    }
}

/// The result of binary instruction `op` whose operands are `a` (kind `ka`)
/// and `b` (kind `kb`), and whose result has kind `k`.
pub open spec fn bin_eval(op: BinOp, k: Kind, ka: Kind, kb: Kind, a: i64, b: i64) -> Option<Result<i64, JitError>> {
    let c = common(ka, kb);
    let x = fit(c, a);
    let y = fit(c, b);
    if !runnable(c) || !runnable(k) {
        None
    } else {
        match op {
            BinOp::Div | BinOp::Rem => Some(
                match div_eval(c, x, y, op == BinOp::Rem) {
                    Ok(q) => Ok(fit(k, q)),
                    Err(e) => Err(e),
                },
            ),
            BinOp::Shl | BinOp::Shr | BinOp::Ushr => Some(Ok(shift_eval(op, k, a, b))),
            _ => match bin_pure(op, k, c, x, y) {
                Some(z) => Some(Ok(z)),
                None => None,
            },
        }
    }
}

/// The binary instructions that cannot trap, on operands already reduced
/// to their common kind `c`.
pub open spec fn bin_pure(op: BinOp, k: Kind, c: Kind, x: i64, y: i64) -> Option<i64> {
    {
        match op {
            BinOp::Add => Some(fit(k, x.wrapping_add(y))),
            BinOp::Sub => Some(fit(k, x.wrapping_sub(y))),
            BinOp::Mul => Some(fit(k, x.wrapping_mul(y))),
            BinOp::And => Some(fit(k, x & y)),
            BinOp::Or => Some(fit(k, x | y)),
            BinOp::Xor => Some(fit(k, x ^ y)),
            BinOp::Lt => Some(flag(less(c, x, y))),
            BinOp::Le => Some(flag(!less(c, y, x))),
            BinOp::Gt => Some(flag(less(c, y, x))),
            BinOp::Ge => Some(flag(!less(c, x, y))),
            BinOp::Eq => Some(flag(x == y)),
            BinOp::Ne => Some(flag(x != y)),
            BinOp::Min => Some(if less(c, y, x) { y } else { x }),
            BinOp::Max => Some(if less(c, x, y) { y } else { x }),
            _ => None,
        }
    }
}

/// The result of unary instruction `op` on `a` (kind `ka`), whose result
/// has kind `k`.
pub open spec fn un_eval(op: UnOp, k: Kind, ka: Kind, a: i64) -> Option<i64> {
    if !runnable(ka) || !runnable(k) {
        None
    } else {
        match op {
            UnOp::Load => Some(a),
            UnOp::Not => Some(fit(k, !a)),
            UnOp::Neg => Some(fit(k, 0i64.wrapping_sub(a))),
            UnOp::Abs => Some(
                if is_unsigned_wide(k) || a >= 0 {
                    a
                } else {
                    fit(k, 0i64.wrapping_sub(a))
                },
            ),
            _ => None,
        }
    }
}

/// The result of converting `a` (kind `ka`) to kind `k`; with
/// `overflow_check`, a conversion that changes the integer traps.
pub open spec fn convert_eval(k: Kind, ka: Kind, a: i64, overflow_check: bool) -> Result<i64, JitError> {
    if !runnable(ka) || !runnable(k) {
        Err(JitError::Unsupported)
    } else if overflow_check && math(k, fit(k, a)) != math(ka, a) {
        Err(JitError::Trap)
    } else {
        Ok(fit(k, a))
    }
}

/// What running a function depends on: its instructions, the kinds of its
/// values, and where its labels are bound.
pub struct Code {
    pub insns: Seq<InsnModel>,
    pub values: Seq<Kind>,
    pub labels: Seq<Option<usize>>,
}

pub open spec fn code_of(fm: FuncModel) -> Code {
    Code { insns: fm.insns, values: fm.values, labels: fm.labels }
}

/// What one instruction does.
pub enum Step {
    /// Go on at instruction `pc` with registers `regs`.
    Next { regs: Seq<i64>, pc: int },
    /// The function returned this cell.
    Done(i64),
    /// The run stopped with this error.
    Fail(JitError),
}

/// The cell of value `v` when function `f` uses it.
pub open spec fn read(fm: Code, f: usize, regs: Seq<i64>, v: Value) -> Option<(i64, Kind)> {
    if v.func == f && v.index < regs.len() && v.index < fm.values.len() {
        Some((regs[v.index as int], fm.values[v.index as int]))
    } else {
        None
    }
}

/// Stores `x` in register `dst`, then goes on with the next instruction.
pub open spec fn put(regs: Seq<i64>, dst: usize, x: i64, pc: int) -> Step {
    if dst < regs.len() {
        Step::Next { regs: regs.update(dst as int, x), pc: pc + 1 }
    } else {
        Step::Fail(JitError::Trap)
    }
}

/// Goes to the instruction that binds label `l`.
pub open spec fn jump(fm: Code, regs: Seq<i64>, l: usize) -> Step {
    if l < fm.labels.len() && fm.labels[l as int] is Some {
        Step::Next { regs, pc: fm.labels[l as int]->0 as int }
    } else {
        Step::Fail(JitError::Trap)
    }
}

pub open spec fn kind_at(fm: Code, dst: usize) -> Kind {
    if dst < fm.values.len() {
        fm.values[dst as int]
    } else {
        Kind::Void
    }
}

/// What instruction `pc` of function `f` does, given the arguments and the
/// registers.
pub open spec fn step(fm: Code, f: usize, args: Seq<i64>, regs: Seq<i64>, pc: int) -> Step {
    match fm.insns[pc] {
        InsnModel::Plain(i) => match i {
            Insn::Const { dst, kind, bits } => put(regs, dst, fit(kind, #[verifier::truncate] (bits as i64)), pc),
            Insn::Binary { dst, op, a, b } => match (read(fm, f, regs, a), read(fm, f, regs, b)) {
                (Some((x, ka)), Some((y, kb))) => match bin_eval(op, kind_at(fm, dst), ka, kb, x, y) {
                    Some(Ok(z)) => put(regs, dst, z, pc),
                    Some(Err(e)) => Step::Fail(e),
                    None => Step::Fail(JitError::Unsupported),
                },
                _ => Step::Fail(JitError::Unsupported),
            },
            Insn::Unary { dst, op, a } => match read(fm, f, regs, a) {
                Some((x, ka)) => match un_eval(op, kind_at(fm, dst), ka, x) {
                    Some(z) => put(regs, dst, z, pc),
                    None => Step::Fail(JitError::Unsupported),
                },
                None => Step::Fail(JitError::Unsupported),
            },
            Insn::Convert { dst, src, kind, overflow_check } => match read(fm, f, regs, src) {
                Some((x, ka)) => match convert_eval(kind, ka, x, overflow_check) {
                    Ok(z) => put(regs, dst, z, pc),
                    Err(e) => Step::Fail(e),
                },
                None => Step::Fail(JitError::Unsupported),
            },
            Insn::SetLabel { .. } => Step::Next { regs, pc: pc + 1 },
            Insn::Branch { label } => jump(fm, regs, label),
            Insn::BranchIf { cond, label } => match read(fm, f, regs, cond) {
                Some((x, _)) => if x != 0 {
                    jump(fm, regs, label)
                } else {
                    Step::Next { regs, pc: pc + 1 }
                },
                None => Step::Fail(JitError::Unsupported),
            },
            Insn::BranchIfNot { cond, label } => match read(fm, f, regs, cond) {
                Some((x, _)) => if x == 0 {
                    jump(fm, regs, label)
                } else {
                    Step::Next { regs, pc: pc + 1 }
                },
                None => Step::Fail(JitError::Unsupported),
            },
            Insn::Return { value } => match read(fm, f, regs, value) {
                Some((x, _)) => Step::Done(x),
                None => Step::Fail(JitError::Unsupported),
            },
            Insn::DefaultReturn => Step::Done(0),
            _ => Step::Fail(JitError::Unsupported),
        },
        InsnModel::JumpTable { index, labels } => match read(fm, f, regs, index) {
            Some((x, _)) => if 0 <= x < labels.len() {
                jump(fm, regs, labels[x as int])
            } else {
                Step::Fail(JitError::Trap)
            },
            None => Step::Fail(JitError::Unsupported),
        },
        _ => Step::Fail(JitError::Unsupported),
    }
}

/// The result of running function `f` from instruction `pc` for at most
/// `fuel` instructions. Running off the end returns zero, as a default
/// return would.
pub open spec fn run(fm: Code, f: usize, args: Seq<i64>, regs: Seq<i64>, pc: int, fuel: nat) -> Result<i64, JitError>
    decreases fuel,
{
    if fuel == 0 {
        Err(JitError::StepLimit)
    } else if pc == fm.insns.len() {
        Ok(0)
    } else if pc < 0 || pc > fm.insns.len() {
        Err(JitError::Trap)
    } else {
        match step(fm, f, args, regs, pc) {
            Step::Next { regs: r, pc: p } => run(fm, f, args, r, p, (fuel - 1) as nat),
            Step::Done(x) => Ok(x),
            Step::Fail(e) => Err(e),
        }
    }
}

/// The registers when a run starts: the parameter values hold the
/// arguments, reduced to their kinds, and the other values hold zero.
pub open spec fn init_regs(values: Seq<Kind>, args: Seq<i64>) -> Seq<i64> {
    Seq::new(
        values.len(),
        |i: int|
            if i < args.len() {
                fit(values[i], args[i])
            } else {
                0i64
            },
    )
}

/// The result of applying function `f` to the argument cells `args`.
pub open spec fn apply_outcome(m: CtxModel, f: usize, args: Seq<i64>) -> Result<i64, JitError> {
    match fn_check(m, f) {
        Some(e) => Err(e),
        None => {
            let fm = m.funcs[f as int];
            if fm.state != FnState::Compiled {
                Err(JitError::NotCompiled)
            } else if args.len() != fm.sig.params.len() {
                Err(JitError::ArgumentCount)
            } else {
                run(code_of(fm), f, args, init_regs(fm.values, args), 0, STEP_LIMIT as nat)
            }
        },
    }
}

fn fit_exec(k: Kind, x: i64) -> (r: i64)
    ensures
        r == fit(k, x),
{
    match k {
        Kind::Int8 => #[verifier::truncate] (x as i8) as i64,
        Kind::UInt8 => #[verifier::truncate] (x as u8) as i64,
        Kind::Int16 => #[verifier::truncate] (x as i16) as i64,
        Kind::UInt16 => #[verifier::truncate] (x as u16) as i64,
        Kind::Int32 => #[verifier::truncate] (x as i32) as i64,
        Kind::UInt32 => #[verifier::truncate] (x as u32) as i64,
        _ => x,
    }
}

fn runnable_exec(k: Kind) -> (r: bool)
    ensures
        r == runnable(k),
{
    k != Kind::Void && k != Kind::Float32 && k != Kind::Float64
}

fn less_exec(k: Kind, x: i64, y: i64) -> (r: bool)
    ensures
        r == less(k, x, y),
{
    if k == Kind::UInt64 || k == Kind::Ptr {
        (x as u64) < (y as u64)
    } else {
        x < y
    }
}

fn flag_exec(b: bool) -> (r: i64)
    ensures
        r == flag(b),
{
    if b {
        1
    } else {
        0
    }
}

fn shift_eval_exec(op: BinOp, k: Kind, a: i64, b: i64) -> (r: i64)
    ensures
        r == shift_eval(op, k, a, b),
{
    let x = fit_exec(k, a);
    let wide = k == Kind::Int64 || k == Kind::UInt64 || k == Kind::Ptr;
    let n: u32 = if wide {
        let m = b & 63;
        assert(0 <= m < 64) by (bit_vector)
            requires
                m == b & 63,
        ;
        m as u32
    } else {
        let m = b & 31;
        assert(0 <= m < 32) by (bit_vector)
            requires
                m == b & 31,
        ;
        m as u32
    };
    let logical = op == BinOp::Ushr || k == Kind::UInt32 || k == Kind::UInt64 || k == Kind::Ptr;
    if op == BinOp::Shl {
        fit_exec(k, x << n)
    } else if !logical {
        x >> n
    } else if wide {
        #[verifier::truncate] (((x as u64) >> n) as i64)
    } else {
        fit_exec(k, (#[verifier::truncate] (x as u32) >> n) as i64)
    }
}

fn magnitude_exec(x: i64) -> (r: u64)
    ensures
        r as nat == magnitude(x),
{
    if x < 0 {
        (0i128 - x as i128) as u64
    } else {
        x as u64
    }
}

fn div_eval_exec(c: Kind, x: i64, y: i64, rem: bool) -> (r: Result<i64, JitError>)
    ensures
        r == div_eval(c, x, y, rem),
{
    if y == 0 {
        return Err(JitError::Trap);
    }
    if c == Kind::UInt64 || c == Kind::Ptr {
        let ux: u64 = #[verifier::truncate] (x as u64);
        let uy: u64 = #[verifier::truncate] (y as u64);
        assert(uy != 0) by (bit_vector)
            requires
                uy == y as u64,
                y != 0,
        ;
        let q = if rem {
            ux % uy
        } else {
            ux / uy
        };
        return Ok(#[verifier::truncate] (q as i64));
    }
    let mx = magnitude_exec(x);
    let my = magnitude_exec(y);
    let q = mx / my;
    let r = mx % my;
    let sq: i128 = if (x < 0) != (y < 0) {
        0i128 - q as i128
    } else {
        q as i128
    };
    if sq > i64::MAX as i128 || fit_exec(c, sq as i64) != sq as i64 {
        return Err(JitError::Trap);
    }
    if rem {
        let sr: i128 = if x < 0 {
            0i128 - r as i128
        } else {
            r as i128
        };
        Ok(sr as i64)
    } else {
        Ok(sq as i64)
    }
}

fn bin_eval_exec(op: BinOp, k: Kind, ka: Kind, kb: Kind, a: i64, b: i64) -> (r: Option<Result<i64, JitError>>)
    ensures
        r == bin_eval(op, k, ka, kb, a, b),
{
    let c = common_kind(ka, kb);
    let x = fit_exec(c, a);
    let y = fit_exec(c, b);
    if !runnable_exec(c) || !runnable_exec(k) {
        return None;
    }
    match op {
        BinOp::Div | BinOp::Rem => Some(
            match div_eval_exec(c, x, y, op == BinOp::Rem) {
                Ok(q) => Ok(fit_exec(k, q)),
                Err(e) => Err(e),
            },
        ),
        BinOp::Shl | BinOp::Shr | BinOp::Ushr => Some(Ok(shift_eval_exec(op, k, a, b))),
        _ => match bin_pure_exec(op, k, c, x, y) {
            Some(z) => Some(Ok(z)),
            None => None,
        },
    }
}

fn bin_pure_exec(op: BinOp, k: Kind, c: Kind, x: i64, y: i64) -> (r: Option<i64>)
    ensures
        r == bin_pure(op, k, c, x, y),
{
    match op {
        BinOp::Add => Some(fit_exec(k, x.wrapping_add(y))),
        BinOp::Sub => Some(fit_exec(k, x.wrapping_sub(y))),
        BinOp::Mul => Some(fit_exec(k, x.wrapping_mul(y))),
        BinOp::And => Some(fit_exec(k, x & y)),
        BinOp::Or => Some(fit_exec(k, x | y)),
        BinOp::Xor => Some(fit_exec(k, x ^ y)),
        BinOp::Lt => Some(flag_exec(less_exec(c, x, y))),
        BinOp::Le => Some(flag_exec(!less_exec(c, y, x))),
        BinOp::Gt => Some(flag_exec(less_exec(c, y, x))),
        BinOp::Ge => Some(flag_exec(!less_exec(c, x, y))),
        BinOp::Eq => Some(flag_exec(x == y)),
        BinOp::Ne => Some(flag_exec(x != y)),
        BinOp::Min => Some(if less_exec(c, y, x) { y } else { x }),
        BinOp::Max => Some(if less_exec(c, x, y) { y } else { x }),
        _ => None,
    }
}

fn un_eval_exec(op: UnOp, k: Kind, ka: Kind, a: i64) -> (r: Option<i64>)
    ensures
        r == un_eval(op, k, ka, a),
{
    if !runnable_exec(ka) || !runnable_exec(k) {
        return None;
    }
    match op {
        UnOp::Load => Some(a),
        UnOp::Not => Some(fit_exec(k, !a)),
        UnOp::Neg => Some(fit_exec(k, 0i64.wrapping_sub(a))),
        UnOp::Abs => Some(
            if k == Kind::UInt64 || k == Kind::Ptr || a >= 0 {
                a
            } else {
                fit_exec(k, 0i64.wrapping_sub(a))
            },
        ),
        _ => None,
    }
}

fn same_integer(k: Kind, x: i64, ka: Kind, a: i64) -> (r: bool)
    ensures
        r == (math(k, x) == math(ka, a)),
{
    let xm: i128 = if k == Kind::UInt64 || k == Kind::Ptr {
        x as u64 as i128
    } else {
        x as i128
    };
    let am: i128 = if ka == Kind::UInt64 || ka == Kind::Ptr {
        a as u64 as i128
    } else {
        a as i128
    };
    xm == am
}

fn convert_eval_exec(k: Kind, ka: Kind, a: i64, overflow_check: bool) -> (r: Result<i64, JitError>)
    ensures
        r == convert_eval(k, ka, a, overflow_check),
{
    if !runnable_exec(ka) || !runnable_exec(k) {
        return Err(JitError::Unsupported);
    }
    let z = fit_exec(k, a);
    if overflow_check && !same_integer(k, z, ka, a) {
        Err(JitError::Trap)
    } else {
        Ok(z)
    }
}

/// `Step` as the running engine sees it: the registers are updated in place.
enum Stepped {
    Next(usize),
    Done(i64),
    Fail(JitError),
}

spec fn stepped_matches(s: Step, r: Stepped, regs: Seq<i64>) -> bool {
    match s {
        Step::Next { regs: rs, pc } => r == Stepped::Next(pc as usize) && regs == rs && 0 <= pc
            <= usize::MAX,
        Step::Done(x) => r == Stepped::Done(x),
        Step::Fail(e) => r == Stepped::Fail(e),
    }
}

fn read_exec(ctx: &Context, f: usize, regs: &Vec<i64>, v: Value) -> (r: Option<(i64, Kind)>)
    requires
        f < ctx@.funcs.len(),
    ensures
        r == read(code_of(ctx@.funcs[f as int]), f, regs@, v),
{
    if v.func == f && v.index < regs.len() && v.index < ctx.value_count(f) {
        Some((regs[v.index], ctx.kind_at(f, v.index)))
    } else {
        None
    }
}

fn kind_at_exec(ctx: &Context, f: usize, dst: usize) -> (r: Kind)
    requires
        f < ctx@.funcs.len(),
    ensures
        r == kind_at(code_of(ctx@.funcs[f as int]), dst),
{
    if dst < ctx.value_count(f) {
        ctx.kind_at(f, dst)
    } else {
        Kind::Void
    }
}

fn put_exec(regs: &mut Vec<i64>, dst: usize, x: i64, pc: usize) -> (r: Stepped)
    requires
        pc < usize::MAX,
    ensures
        stepped_matches(put(old(regs)@, dst, x, pc as int), r, final(regs)@),
        r is Fail ==> final(regs)@ == old(regs)@,
{
    if dst < regs.len() {
        regs.set(dst, x);
        Stepped::Next(pc + 1)
    } else {
        Stepped::Fail(JitError::Trap)
    }
}

fn jump_exec(ctx: &Context, f: usize, l: usize) -> (r: Stepped)
    requires
        f < ctx@.funcs.len(),
    ensures
        forall|regs: Seq<i64>| stepped_matches(jump(code_of(ctx@.funcs[f as int]), regs, l), r, regs),
{
    match ctx.label_at(f, l) {
        Some(p) => Stepped::Next(p),
        None => Stepped::Fail(JitError::Trap),
    }
}

fn step_exec(ctx: &Context, f: usize, args: &[i64], regs: &mut Vec<i64>, pc: usize) -> (r: Stepped)
    requires
        f < ctx@.funcs.len(),
        pc < code_of(ctx@.funcs[f as int]).insns.len(),
    ensures
        stepped_matches(step(code_of(ctx@.funcs[f as int]), f, args@, old(regs)@, pc as int), r, final(regs)@),
{
    let n = ctx.insn_count(f);
    assert(pc < usize::MAX);
    let insn = ctx.insn_at(f, pc);
    match insn {
        Insn::Const { dst, kind, bits } => put_exec(regs, *dst, fit_exec(*kind, #[verifier::truncate] (*bits as i64)), pc),
        Insn::Binary { dst, op, a, b } => {
            match (read_exec(ctx, f, regs, *a), read_exec(ctx, f, regs, *b)) {
                (Some((x, ka)), Some((y, kb))) => {
                    let k = kind_at_exec(ctx, f, *dst);
                    match bin_eval_exec(*op, k, ka, kb, x, y) {
                        Some(Ok(z)) => put_exec(regs, *dst, z, pc),
                        Some(Err(e)) => Stepped::Fail(e),
                        None => Stepped::Fail(JitError::Unsupported),
                    }
                },
                _ => Stepped::Fail(JitError::Unsupported),
            }
        },
        Insn::Unary { dst, op, a } => {
            match read_exec(ctx, f, regs, *a) {
                Some((x, ka)) => {
                    let k = kind_at_exec(ctx, f, *dst);
                    match un_eval_exec(*op, k, ka, x) {
                        Some(z) => put_exec(regs, *dst, z, pc),
                        None => Stepped::Fail(JitError::Unsupported),
                    }
                },
                None => Stepped::Fail(JitError::Unsupported),
            }
        },
        Insn::Convert { dst, src, kind, overflow_check } => {
            match read_exec(ctx, f, regs, *src) {
                Some((x, ka)) => match convert_eval_exec(*kind, ka, x, *overflow_check) {
                    Ok(z) => put_exec(regs, *dst, z, pc),
                    Err(e) => Stepped::Fail(e),
                },
                None => Stepped::Fail(JitError::Unsupported),
            }
        },
        Insn::SetLabel { .. } => Stepped::Next(pc + 1),
        Insn::Branch { label } => jump_exec(ctx, f, *label),
        Insn::BranchIf { cond, label } => {
            match read_exec(ctx, f, regs, *cond) {
                Some((x, _)) => if x != 0 {
                    jump_exec(ctx, f, *label)
                } else {
                    Stepped::Next(pc + 1)
                },
                None => Stepped::Fail(JitError::Unsupported),
            }
        },
        Insn::BranchIfNot { cond, label } => {
            match read_exec(ctx, f, regs, *cond) {
                Some((x, _)) => if x == 0 {
                    jump_exec(ctx, f, *label)
                } else {
                    Stepped::Next(pc + 1)
                },
                None => Stepped::Fail(JitError::Unsupported),
            }
        },
        Insn::Return { value } => {
            match read_exec(ctx, f, regs, *value) {
                Some((x, _)) => Stepped::Done(x),
                None => Stepped::Fail(JitError::Unsupported),
            }
        },
        Insn::DefaultReturn => Stepped::Done(0),
        Insn::JumpTable { index, labels } => {
            match read_exec(ctx, f, regs, *index) {
                Some((x, _)) => if 0 <= x && (x as u64) < (labels.len() as u64) {
                    jump_exec(ctx, f, labels[x as usize])
                } else {
                    Stepped::Fail(JitError::Trap)
                },
                None => Stepped::Fail(JitError::Unsupported),
            }
        },
        _ => Stepped::Fail(JitError::Unsupported),
    }
}

fn init_regs_exec(ctx: &Context, f: usize, args: &[i64]) -> (r: Vec<i64>)
    requires
        f < ctx@.funcs.len(),
    ensures
        r@ == init_regs(ctx@.funcs[f as int].values, args@),
{
    let ghost values = ctx@.funcs[f as int].values;
    let n = ctx.value_count(f);
    let mut r: Vec<i64> = Vec::new();
    let mut i: usize = 0;
    while i < n
        invariant
            f < ctx@.funcs.len(),
            values == ctx@.funcs[f as int].values,
            n == values.len(),
            i <= n,
            r@ == init_regs(values, args@).subrange(0, i as int),
        decreases n - i,
    {
        let x = if i < args.len() {
            fit_exec(ctx.kind_at(f, i), args[i])
        } else {
            0
        };
        r.push(x);
        i = i + 1;
        assert(r@ =~= init_regs(values, args@).subrange(0, i as int));
    }
    assert(r@ =~= init_regs(values, args@));
    r
}

fn run_exec(ctx: &Context, f: usize, args: &[i64]) -> (r: Result<i64, JitError>)
    requires
        f < ctx@.funcs.len(),
    ensures
        r == run(code_of(ctx@.funcs[f as int]), f, args@, init_regs(code_of(ctx@.funcs[f as int]).values, args@), 0, STEP_LIMIT as nat),
{
    let ghost fm = code_of(ctx@.funcs[f as int]);
    let mut regs = init_regs_exec(ctx, f, args);
    let n = ctx.insn_count(f);
    let mut pc: usize = 0;
    let mut fuel: u64 = STEP_LIMIT;
    while fuel > 0
        invariant
            f < ctx@.funcs.len(),
            fm == code_of(ctx@.funcs[f as int]),
            n == fm.insns.len(),
            run(fm, f, args@, regs@, pc as int, fuel as nat) == run(
                fm,
                f,
                args@,
                init_regs(fm.values, args@),
                0,
                STEP_LIMIT as nat,
            ),
        decreases fuel,
    {
        if pc == n {
            return Ok(0);
        }
        if pc > n {
            return Err(JitError::Trap);
        }
        match step_exec(ctx, f, args, &mut regs, pc) {
            Stepped::Next(p) => {
                pc = p;
            },
            Stepped::Done(x) => {
                return Ok(x);
            },
            Stepped::Fail(e) => {
                return Err(e);
            },
        }
        fuel = fuel - 1;
    }
    Err(JitError::StepLimit)
}

impl Function {
    /// Runs this compiled function on the argument cells `args`, one per
    /// parameter, and returns the cell it returns.
    pub fn apply(&self, ctx: &Context, args: &[i64]) -> (r: Result<i64, JitError>)
        ensures
            r == apply_outcome(ctx@, slot(ctx@, *self), args@),
    {
        let f = ctx.slot_exec(*self);
        if let Some(e) = ctx.fn_check_exec(f) {
            return Err(e);
        }
        if ctx.state_at(f) != FnState::Compiled {
            return Err(JitError::NotCompiled);
        }
        if args.len() != ctx.param_count(f) {
            return Err(JitError::ArgumentCount);
        }
        run_exec(ctx, f, args)
    }

    /// Runs this compiled function on `args` and discards what it returns.
    pub fn execute(&self, ctx: &Context, args: &[i64]) -> (r: Result<(), JitError>)
        ensures
            match apply_outcome(ctx@, slot(ctx@, *self), args@) {
                Ok(_) => r is Ok,
                Err(e) => r == Err::<(), JitError>(e),
            },
    {
        match self.apply(ctx, args) {
            Ok(_) => Ok(()),
            Err(e) => Err(e),
        }
    }
}

} // verus!

use libjit::engine::STEP_LIMIT;
use libjit::error::JitError;
use libjit::function::{Context, FnState, Function};
use libjit::ir::Label;
use libjit::types::{Kind, Type, ABI, CallFlags};

fn sig(params: Vec<Kind>, ret: Kind) -> Type {
    Type::create_signature(ABI::CDECL, ret, params)
}

fn adder(ctx: &mut Context) -> Function {
    let f = Function::new(ctx, &sig(vec![Kind::Int32, Kind::Int32], Kind::Int32)).unwrap();
    let a = f.get_param(ctx, 0).unwrap();
    let b = f.get_param(ctx, 1).unwrap();
    let s = f.insn_add(ctx, &a, &b).unwrap();
    f.insn_return(ctx, &s).unwrap();
    f
}

#[test]
fn add_two_parameters() {
    let mut ctx = Context::new();
    let f = adder(&mut ctx);
    f.compile(&mut ctx).unwrap();
    assert_eq!(f.apply(&ctx, &[2, 3]), Ok(5));
    assert_eq!(f.execute(&ctx, &[2, 3]), Ok(()));
}

#[test]
fn clamp_below_zero() {
    let mut ctx = Context::new();
    let f = Function::new(&mut ctx, &sig(vec![Kind::Int32], Kind::Int32)).unwrap();
    let x = f.get_param(&mut ctx, 0).unwrap();
    let zero = f.insn_of(&mut ctx, &0i32).unwrap();
    let non_positive = Label::new(&mut ctx, &f).unwrap();
    let positive = Label::new(&mut ctx, &f).unwrap();
    let c = f.insn_leq(&mut ctx, &x, &zero).unwrap();
    f.insn_branch_if(&mut ctx, &c, &non_positive).unwrap();
    f.insn_branch(&mut ctx, &positive).unwrap();
    f.insn_set_label(&mut ctx, &non_positive).unwrap();
    f.insn_return(&mut ctx, &zero).unwrap();
    f.insn_set_label(&mut ctx, &positive).unwrap();
    f.insn_return(&mut ctx, &x).unwrap();
    f.compile(&mut ctx).unwrap();
    assert_eq!(f.apply(&ctx, &[-4]), Ok(0));
    assert_eq!(f.apply(&ctx, &[7]), Ok(7));
    assert_eq!(f.apply(&ctx, &[0]), Ok(0));
}

#[test]
fn destroyed_context_refuses_use() {
    let mut ctx = Context::new();
    let f = adder(&mut ctx);
    ctx.destroy();
    assert!(!ctx.is_alive());
    assert_eq!(f.compile(&mut ctx), Err(JitError::ContextDestroyed));
    assert_eq!(f.get_param(&mut ctx, 0), Err(JitError::ContextDestroyed));
    assert_eq!(f.apply(&ctx, &[1, 2]), Err(JitError::ContextDestroyed));
    assert_eq!(Label::new(&mut ctx, &f), Err(JitError::ContextDestroyed));
    assert!(!f.is_valid(&ctx));
}

#[test]
fn unbound_label_fails_compile() {
    let mut ctx = Context::new();
    let f = Function::new(&mut ctx, &sig(vec![], Kind::Int32)).unwrap();
    let l = Label::new(&mut ctx, &f).unwrap();
    f.insn_branch(&mut ctx, &l).unwrap();
    assert_eq!(f.compile(&mut ctx), Err(JitError::UnboundLabel { label: 0 }));
    assert_eq!(f.state(&ctx), Ok(FnState::Building));
}

#[test]
fn first_unbound_label_is_reported() {
    let mut ctx = Context::new();
    let f = Function::new(&mut ctx, &sig(vec![], Kind::Int32)).unwrap();
    let a = Label::new(&mut ctx, &f).unwrap();
    let _b = Label::new(&mut ctx, &f).unwrap();
    let _c = Label::new(&mut ctx, &f).unwrap();
    f.insn_set_label(&mut ctx, &a).unwrap();
    f.insn_default_return(&mut ctx).unwrap();
    assert_eq!(f.compile(&mut ctx), Err(JitError::UnboundLabel { label: 1 }));
}

#[test]
fn label_bound_twice_fails() {
    let mut ctx = Context::new();
    let f = Function::new(&mut ctx, &sig(vec![], Kind::Int32)).unwrap();
    let l = Label::new(&mut ctx, &f).unwrap();
    f.insn_set_label(&mut ctx, &l).unwrap();
    assert_eq!(f.insn_set_label(&mut ctx, &l), Err(JitError::LabelAlreadyBound));
}

#[test]
fn forward_branch_then_bind_compiles() {
    let mut ctx = Context::new();
    let f = Function::new(&mut ctx, &sig(vec![Kind::Int32], Kind::Int32)).unwrap();
    let x = f.get_param(&mut ctx, 0).unwrap();
    let l = Label::new(&mut ctx, &f).unwrap();
    f.insn_branch(&mut ctx, &l).unwrap();
    f.insn_set_label(&mut ctx, &l).unwrap();
    f.insn_return(&mut ctx, &x).unwrap();
    assert_eq!(f.compile(&mut ctx), Ok(()));
    assert_eq!(f.apply(&ctx, &[9]), Ok(9));
}

#[test]
fn compile_twice_is_refused() {
    let mut ctx = Context::new();
    let f = adder(&mut ctx);
    assert_eq!(f.compile(&mut ctx), Ok(()));
    assert_eq!(f.compile(&mut ctx), Err(JitError::AlreadyCompiled));
    assert_eq!(f.apply(&ctx, &[4, 5]), Ok(9));
}

#[test]
fn recompilable_compiles_again() {
    let mut ctx = Context::new();
    let f = adder(&mut ctx);
    f.set_recompilable(&mut ctx).unwrap();
    assert_eq!(f.compile(&mut ctx), Ok(()));
    assert_eq!(f.compile(&mut ctx), Ok(()));
    assert_eq!(f.apply(&ctx, &[4, 5]), Ok(9));
}

#[test]
fn falling_off_the_end_returns_default() {
    let mut ctx = Context::new();
    let f = Function::new(&mut ctx, &sig(vec![Kind::Int32], Kind::Int32)).unwrap();
    assert_eq!(f.compile(&mut ctx), Ok(()));
    assert_eq!(f.apply(&ctx, &[3]), Ok(0));
}

#[test]
fn unreachable_trailing_code_compiles() {
    let mut ctx = Context::new();
    let f = Function::new(&mut ctx, &sig(vec![Kind::Int32], Kind::Int32)).unwrap();
    let x = f.get_param(&ctx, 0).unwrap();
    f.insn_return(&mut ctx, &x).unwrap();
    f.insn_neg(&mut ctx, &x).unwrap();
    assert_eq!(f.compile(&mut ctx), Ok(()));
    assert_eq!(f.apply(&ctx, &[6]), Ok(6));
}

#[test]
fn get_param_is_a_lookup() {
    let mut ctx = Context::new();
    let f = adder(&mut ctx);
    let a = f.get_param(&ctx, 0).unwrap();
    assert_eq!(f.get_param(&ctx, 0), Ok(a));
    assert_eq!(a, libjit::ir::Value { ctx: 0, func: 0, index: 0 });
    f.compile(&mut ctx).unwrap();
    assert_eq!(f.get_param(&ctx, 1), Ok(libjit::ir::Value { ctx: 0, func: 0, index: 1 }));
    assert_eq!(f.apply(&ctx, &[1, 2]), Ok(3));
}

#[test]
fn recompilable_function_accepts_edits() {
    let mut ctx = Context::new();
    let f = Function::new(&mut ctx, &sig(vec![Kind::Int32, Kind::Int32], Kind::Int32)).unwrap();
    let a = f.get_param(&ctx, 0).unwrap();
    let b = f.get_param(&ctx, 1).unwrap();
    let l = Label::new(&mut ctx, &f).unwrap();
    f.insn_branch(&mut ctx, &l).unwrap();
    f.insn_set_label(&mut ctx, &l).unwrap();
    let s = f.insn_add(&mut ctx, &a, &b).unwrap();
    f.insn_return(&mut ctx, &s).unwrap();
    f.set_recompilable(&mut ctx).unwrap();
    f.compile(&mut ctx).unwrap();
    assert_eq!(f.apply(&ctx, &[2, 3]), Ok(5));
    let m = f.insn_mul(&mut ctx, &a, &b).unwrap();
    assert_eq!(f.state(&ctx), Ok(FnState::Building));
    assert_eq!(f.apply(&ctx, &[2, 3]), Err(JitError::NotCompiled));
    f.insn_return(&mut ctx, &m).unwrap();
    f.compile(&mut ctx).unwrap();
    assert_eq!(f.apply(&ctx, &[2, 3]), Ok(5));
}

#[test]
fn compiled_function_refuses_edits() {
    let mut ctx = Context::new();
    let f = adder(&mut ctx);
    f.compile(&mut ctx).unwrap();
    let a = f.get_param(&ctx, 0).unwrap();
    assert_eq!(f.insn_neg(&mut ctx, &a), Err(JitError::AlreadyCompiled));
    assert_eq!(f.state(&ctx), Ok(FnState::Compiled));
}

#[test]
fn signature_round_trip() {
    let t = sig(vec![Kind::Int8, Kind::Float64, Kind::Ptr], Kind::UInt32);
    assert!(t.is_signature());
    assert_eq!(t.get_params(), Some(vec![Kind::Int8, Kind::Float64, Kind::Ptr]));
    assert_eq!(t.get_return(), Some(Kind::UInt32));
    let s = Type::scalar(Kind::Int64);
    assert!(!s.is_signature());
    assert_eq!(s.get_params(), None);
    assert_eq!(s.get_return(), None);
    assert!(t.same_as(&sig(vec![Kind::Int8, Kind::Float64, Kind::Ptr], Kind::UInt32)));
    assert!(!t.same_as(&sig(vec![Kind::Float64, Kind::Int8, Kind::Ptr], Kind::UInt32)));
    assert!(!t.same_as(&s));
}

#[test]
fn result_kinds_follow_operands() {
    let mut ctx = Context::new();
    let f = Function::new(
        &mut ctx,
        &sig(vec![Kind::Int32, Kind::Int32, Kind::Int8, Kind::UInt64, Kind::UInt32, Kind::Float32], Kind::Void),
    )
    .unwrap();
    let a = f.get_param(&mut ctx, 0).unwrap();
    let b = f.get_param(&mut ctx, 1).unwrap();
    let c = f.get_param(&mut ctx, 2).unwrap();
    let d = f.get_param(&mut ctx, 3).unwrap();
    let e = f.get_param(&mut ctx, 4).unwrap();
    let g = f.get_param(&mut ctx, 5).unwrap();
    let kind = |ctx: &Context, v| f.value_kind(ctx, &v).unwrap();
    let v = f.insn_add(&mut ctx, &a, &b).unwrap();
    assert_eq!(kind(&ctx, v), Kind::Int32);
    let v = f.insn_eq(&mut ctx, &d, &g).unwrap();
    assert_eq!(kind(&ctx, v), Kind::Int32);
    let v = f.insn_mul(&mut ctx, &c, &c).unwrap();
    assert_eq!(kind(&ctx, v), Kind::Int32);
    let v = f.insn_sub(&mut ctx, &c, &d).unwrap();
    assert_eq!(kind(&ctx, v), Kind::Int64);
    let v = f.insn_or(&mut ctx, &d, &e).unwrap();
    assert_eq!(kind(&ctx, v), Kind::UInt64);
    let v = f.insn_and(&mut ctx, &e, &e).unwrap();
    assert_eq!(kind(&ctx, v), Kind::UInt32);
    let v = f.insn_add(&mut ctx, &a, &g).unwrap();
    assert_eq!(kind(&ctx, v), Kind::Float32);
    let v = f.insn_sin(&mut ctx, &a).unwrap();
    assert_eq!(kind(&ctx, v), Kind::Float64);
    let v = f.insn_is_nan(&mut ctx, &g).unwrap();
    assert_eq!(kind(&ctx, v), Kind::Int32);
    let v = f.insn_neg(&mut ctx, &c).unwrap();
    assert_eq!(kind(&ctx, v), Kind::Int32);
    let v = f.insn_dup(&mut ctx, &c).unwrap();
    assert_eq!(kind(&ctx, v), Kind::Int8);
    let v = f.insn_shl(&mut ctx, &e, &a).unwrap();
    assert_eq!(kind(&ctx, v), Kind::UInt32);
    let v = f.insn_pow(&mut ctx, &a, &b).unwrap();
    assert_eq!(kind(&ctx, v), Kind::Float64);
    let v = f.insn_convert(&mut ctx, &a, &Type::scalar(Kind::Int16), false).unwrap();
    assert_eq!(kind(&ctx, v), Kind::Int16);
    let v = f.insn_alloca(&mut ctx, &a).unwrap();
    assert_eq!(kind(&ctx, v), Kind::Ptr);
}

#[test]
fn parameter_out_of_range() {
    let mut ctx = Context::new();
    let f = adder(&mut ctx);
    assert_eq!(f.get_param(&mut ctx, 2), Err(JitError::ParamOutOfRange));
}

#[test]
fn scalar_type_is_no_signature() {
    let mut ctx = Context::new();
    assert_eq!(Function::new(&mut ctx, &Type::scalar(Kind::Int32)), Err(JitError::NotASignature));
}

#[test]
fn foreign_value_is_refused() {
    let mut ctx = Context::new();
    let f = adder(&mut ctx);
    let g = Function::new(&mut ctx, &sig(vec![Kind::Int32], Kind::Int32)).unwrap();
    let x = g.get_param(&mut ctx, 0).unwrap();
    let h = Function::new(&mut ctx, &sig(vec![Kind::Int32], Kind::Int32)).unwrap();
    assert_eq!(h.insn_return(&mut ctx, &x), Err(JitError::InvalidValue));
    let l = Label::new(&mut ctx, &g).unwrap();
    assert_eq!(h.insn_branch(&mut ctx, &l), Err(JitError::InvalidLabel));
    assert_eq!(f.insn_return(&mut ctx, &x), Err(JitError::InvalidValue));
}

#[test]
fn nested_function_uses_parent_values() {
    let mut ctx = Context::new();
    let parent = Function::new(&mut ctx, &sig(vec![Kind::Int32], Kind::Int32)).unwrap();
    let x = parent.get_param(&mut ctx, 0).unwrap();
    let child = Function::new_nested(&mut ctx, &sig(vec![], Kind::Int32), &parent).unwrap();
    assert!(child.insn_neg(&mut ctx, &x).is_ok());
    parent.insn_return(&mut ctx, &x).unwrap();
    parent.compile(&mut ctx).unwrap();
    assert_eq!(
        Function::new_nested(&mut ctx, &sig(vec![], Kind::Int32), &parent),
        Err(JitError::ParentNotBuilding)
    );
}

#[test]
fn throw_needs_catcher() {
    let mut ctx = Context::new();
    let f = adder(&mut ctx);
    let x = f.get_param(&mut ctx, 0).unwrap();
    assert_eq!(f.insn_throw(&mut ctx, &x), Err(JitError::CatcherRequired));
    f.insn_uses_catcher(&mut ctx).unwrap();
    assert_eq!(f.insn_throw(&mut ctx, &x), Ok(()));
}

#[test]
fn float_condition_is_refused() {
    let mut ctx = Context::new();
    let f = Function::new(&mut ctx, &sig(vec![Kind::Float64], Kind::Int32)).unwrap();
    let x = f.get_param(&mut ctx, 0).unwrap();
    let l = Label::new(&mut ctx, &f).unwrap();
    assert_eq!(f.insn_branch_if(&mut ctx, &x, &l), Err(JitError::ConditionType));
    assert_eq!(f.insn_jump_table(&mut ctx, &x, &[l]), Err(JitError::ConditionType));
}

#[test]
fn call_indirect_checks_signature_and_arguments() {
    let mut ctx = Context::new();
    let callee = adder(&mut ctx);
    let two = sig(vec![Kind::Int32, Kind::Int32], Kind::Int32);
    let f = Function::new(&mut ctx, &sig(vec![Kind::Int32, Kind::Int64], Kind::Int32)).unwrap();
    let a = f.get_param(&mut ctx, 0).unwrap();
    let w = f.get_param(&mut ctx, 1).unwrap();
    assert_eq!(
        f.insn_call_indirect(&mut ctx, &callee, &sig(vec![Kind::Int32], Kind::Int32), &[a]),
        Err(JitError::SignatureMismatch)
    );
    assert_eq!(f.insn_call_indirect(&mut ctx, &callee, &two, &[a]), Err(JitError::ArgumentCount));
    assert_eq!(f.insn_call_indirect(&mut ctx, &callee, &two, &[a, w]), Err(JitError::ArgumentType));
    assert_eq!(
        f.insn_call_indirect(&mut ctx, &callee, &Type::scalar(Kind::Int32), &[a, a]),
        Err(JitError::NotASignature)
    );
    let r = f.insn_call_indirect(&mut ctx, &callee, &two, &[a, a]).unwrap();
    assert_eq!(f.value_kind(&ctx, &r), Ok(Kind::Int32));
}

#[test]
fn native_call_arity_is_checked() {
    let mut ctx = Context::new();
    let f = Function::new(&mut ctx, &sig(vec![Kind::Int32], Kind::Void)).unwrap();
    let a = f.get_param(&mut ctx, 0).unwrap();
    let one = sig(vec![Kind::Int32], Kind::Int64);
    assert_eq!(f.insn_call_native2(&mut ctx, "h", 0x1000, &one, &[a]), Err(JitError::ArgumentCount));
    assert_eq!(f.insn_call_native0(&mut ctx, "h", 0x1000, &one, &[]), Err(JitError::ArgumentCount));
    let r = f.insn_call_native1(&mut ctx, "h", 0x1000, &one, &[a]).unwrap();
    assert_eq!(f.value_kind(&ctx, &r), Ok(Kind::Int64));
    let v = f
        .insn_call_native0(&mut ctx, "v", 0x2000, &sig(vec![], Kind::Void), &[])
        .unwrap();
    assert_eq!(f.insn_neg(&mut ctx, &v), Err(JitError::InvalidValue));
}

#[test]
fn abandoned_function_is_dead() {
    let mut ctx = Context::new();
    let f = adder(&mut ctx);
    assert_eq!(f.abandon(&mut ctx), Ok(()));
    assert_eq!(f.compile(&mut ctx), Err(JitError::FunctionAbandoned));
    assert_eq!(f.abandon(&mut ctx), Err(JitError::FunctionAbandoned));
    assert_eq!(f.apply(&ctx, &[1, 1]), Err(JitError::FunctionAbandoned));
}

#[test]
fn run_before_compile_is_refused() {
    let mut ctx = Context::new();
    let f = adder(&mut ctx);
    assert_eq!(f.apply(&ctx, &[1, 1]), Err(JitError::NotCompiled));
    f.compile(&mut ctx).unwrap();
    assert_eq!(f.apply(&ctx, &[1]), Err(JitError::ArgumentCount));
    let x = Function { ctx: 0, index: 0 };
    assert_eq!(x.insn_default_return(&mut ctx), Err(JitError::AlreadyCompiled));
    let y = Function { ctx: 0, index: 7 };
    assert_eq!(y.compile(&mut ctx), Err(JitError::InvalidFunction));
}

#[test]
fn convert_with_overflow_check_traps() {
    let mut ctx = Context::new();
    let f = Function::new(&mut ctx, &sig(vec![Kind::Int32], Kind::Int8)).unwrap();
    let x = f.get_param(&mut ctx, 0).unwrap();
    assert_eq!(f.insn_convert(&mut ctx, &x, &sig(vec![], Kind::Int8), true), Err(JitError::NotAScalar));
    let y = f.insn_convert(&mut ctx, &x, &Type::scalar(Kind::Int8), true).unwrap();
    f.insn_return(&mut ctx, &y).unwrap();
    f.compile(&mut ctx).unwrap();
    assert_eq!(f.apply(&ctx, &[100]), Ok(100));
    assert_eq!(f.apply(&ctx, &[300]), Err(JitError::Trap));
}

#[test]
fn convert_without_check_truncates() {
    let mut ctx = Context::new();
    let f = Function::new(&mut ctx, &sig(vec![Kind::Int32], Kind::UInt8)).unwrap();
    let x = f.get_param(&mut ctx, 0).unwrap();
    let y = f.insn_convert(&mut ctx, &x, &Type::scalar(Kind::UInt8), false).unwrap();
    f.insn_return(&mut ctx, &y).unwrap();
    f.compile(&mut ctx).unwrap();
    assert_eq!(f.apply(&ctx, &[300]), Ok(44));
    assert_eq!(f.apply(&ctx, &[-1]), Ok(255));
}

#[test]
fn int32_addition_wraps() {
    let mut ctx = Context::new();
    let f = adder(&mut ctx);
    f.compile(&mut ctx).unwrap();
    assert_eq!(f.apply(&ctx, &[i32::MAX as i64, 1]), Ok(i32::MIN as i64));
}

#[test]
fn unsigned_comparison() {
    let mut ctx = Context::new();
    let f = Function::new(&mut ctx, &sig(vec![Kind::UInt64, Kind::UInt64], Kind::Int32)).unwrap();
    let a = f.get_param(&mut ctx, 0).unwrap();
    let b = f.get_param(&mut ctx, 1).unwrap();
    let c = f.insn_lt(&mut ctx, &a, &b).unwrap();
    f.insn_return(&mut ctx, &c).unwrap();
    f.compile(&mut ctx).unwrap();
    assert_eq!(f.apply(&ctx, &[1, -1]), Ok(1));
    assert_eq!(f.apply(&ctx, &[-1, 1]), Ok(0));
}

#[test]
fn arithmetic_and_constants() {
    let mut ctx = Context::new();
    let f = Function::new(&mut ctx, &sig(vec![Kind::Int64], Kind::Int64)).unwrap();
    let x = f.get_param(&mut ctx, 0).unwrap();
    let three = f.insn_of(&mut ctx, &3i64).unwrap();
    let m = f.insn_mul(&mut ctx, &x, &three).unwrap();
    let s = f.insn_sub(&mut ctx, &m, &x).unwrap();
    let n = f.insn_not(&mut ctx, &s).unwrap();
    let mx = f.insn_max(&mut ctx, &n, &three).unwrap();
    let mn = f.insn_min(&mut ctx, &mx, &x).unwrap();
    let ab = f.insn_abs(&mut ctx, &mn).unwrap();
    let xo = f.insn_xor(&mut ctx, &ab, &three).unwrap();
    f.insn_return(&mut ctx, &xo).unwrap();
    f.compile(&mut ctx).unwrap();
    // x = 5: m = 15, s = 10, n = -11, mx = 3, mn = 3, ab = 3, xo = 0
    assert_eq!(f.apply(&ctx, &[5]), Ok(0));
    // x = -2: m = -6, s = -4, n = 3, mx = 3, mn = -2, ab = 2, xo = 1
    assert_eq!(f.apply(&ctx, &[-2]), Ok(1));
}

#[test]
fn jump_table_dispatch() {
    let mut ctx = Context::new();
    let f = Function::new(&mut ctx, &sig(vec![Kind::Int32], Kind::Int32)).unwrap();
    let x = f.get_param(&mut ctx, 0).unwrap();
    let l0 = Label::new(&mut ctx, &f).unwrap();
    let l1 = Label::new(&mut ctx, &f).unwrap();
    f.insn_jump_table(&mut ctx, &x, &[l0, l1]).unwrap();
    f.insn_set_label(&mut ctx, &l0).unwrap();
    let ten = f.insn_of(&mut ctx, &10i32).unwrap();
    f.insn_return(&mut ctx, &ten).unwrap();
    f.insn_set_label(&mut ctx, &l1).unwrap();
    let twenty = f.insn_of(&mut ctx, &20i32).unwrap();
    f.insn_return(&mut ctx, &twenty).unwrap();
    f.compile(&mut ctx).unwrap();
    assert_eq!(f.apply(&ctx, &[0]), Ok(10));
    assert_eq!(f.apply(&ctx, &[1]), Ok(20));
    assert_eq!(f.apply(&ctx, &[2]), Err(JitError::Trap));
}

#[test]
fn endless_loop_hits_step_limit() {
    let mut ctx = Context::new();
    let f = Function::new(&mut ctx, &sig(vec![], Kind::Int32)).unwrap();
    let l = Label::new(&mut ctx, &f).unwrap();
    f.insn_set_label(&mut ctx, &l).unwrap();
    f.insn_branch(&mut ctx, &l).unwrap();
    f.compile(&mut ctx).unwrap();
    assert_eq!(f.apply(&ctx, &[]), Err(JitError::StepLimit));
    assert!(STEP_LIMIT > 0);
}

fn divider(ctx: &mut Context, rem: bool) -> Function {
    let f = Function::new(ctx, &sig(vec![Kind::Int32, Kind::Int32], Kind::Int32)).unwrap();
    let p = f.get_param(ctx, 0).unwrap();
    let q = f.get_param(ctx, 1).unwrap();
    let d = if rem { f.insn_rem(ctx, &p, &q) } else { f.insn_div(ctx, &p, &q) }.unwrap();
    f.insn_return(ctx, &d).unwrap();
    f.compile(ctx).unwrap();
    f
}

#[test]
fn division_rounds_towards_zero() {
    let mut ctx = Context::new();
    let d = divider(&mut ctx, false);
    let r = divider(&mut ctx, true);
    assert_eq!(d.apply(&ctx, &[7, 2]), Ok(3));
    assert_eq!(d.apply(&ctx, &[-7, 2]), Ok(-3));
    assert_eq!(r.apply(&ctx, &[-7, 2]), Ok(-1));
    assert_eq!(r.apply(&ctx, &[7, -2]), Ok(1));
}

#[test]
fn division_traps() {
    let mut ctx = Context::new();
    let d = divider(&mut ctx, false);
    let r = divider(&mut ctx, true);
    assert_eq!(d.apply(&ctx, &[5, 0]), Err(JitError::Trap));
    assert_eq!(r.apply(&ctx, &[5, 0]), Err(JitError::Trap));
    assert_eq!(d.apply(&ctx, &[i32::MIN as i64, -1]), Err(JitError::Trap));
}

#[test]
fn unsigned_wide_division() {
    let mut ctx = Context::new();
    let f = Function::new(&mut ctx, &sig(vec![Kind::UInt64, Kind::UInt64], Kind::UInt64)).unwrap();
    let p = f.get_param(&mut ctx, 0).unwrap();
    let q = f.get_param(&mut ctx, 1).unwrap();
    let d = f.insn_div(&mut ctx, &p, &q).unwrap();
    f.insn_return(&mut ctx, &d).unwrap();
    f.compile(&mut ctx).unwrap();
    // u64::MAX / 2
    assert_eq!(f.apply(&ctx, &[-1, 2]), Ok(i64::MAX));
}

#[test]
fn float_instruction_is_unsupported() {
    let mut ctx = Context::new();
    let g = Function::new(&mut ctx, &sig(vec![Kind::Int32], Kind::Float64)).unwrap();
    let p = g.get_param(&mut ctx, 0).unwrap();
    let s = g.insn_sqrt(&mut ctx, &p).unwrap();
    g.insn_return(&mut ctx, &s).unwrap();
    g.compile(&mut ctx).unwrap();
    assert_eq!(g.apply(&ctx, &[4]), Err(JitError::Unsupported));
}

#[test]
fn default_return_and_flags() {
    let mut ctx = Context::new();
    let f = Function::new(&mut ctx, &sig(vec![], Kind::Int32)).unwrap();
    f.set_optimization_level(&mut ctx, 3).unwrap();
    f.insn_default_return(&mut ctx).unwrap();
    f.compile(&mut ctx).unwrap();
    assert_eq!(f.apply(&ctx, &[]), Ok(0));
    assert_eq!(CallFlags::JitCallNothrow.bits(), 1);
    assert_eq!(CallFlags::JitCallNoReturn.bits(), 2);
    assert_eq!(CallFlags::JitCallTail.bits(), 4);
}

#[test]
fn store_instructions_are_recorded() {
    let mut ctx = Context::new();
    let f = Function::new(&mut ctx, &sig(vec![Kind::Ptr, Kind::Int32], Kind::Void)).unwrap();
    let p = f.get_param(&mut ctx, 0).unwrap();
    let v = f.get_param(&mut ctx, 1).unwrap();
    assert_eq!(f.insn_store(&mut ctx, &p, &v), Ok(()));
    assert_eq!(f.insn_store_relative(&mut ctx, &p, 8, &v), Ok(()));
    let bad = libjit::ir::Value { ctx: 0, func: 0, index: 99 };
    assert_eq!(f.insn_store(&mut ctx, &p, &bad), Err(JitError::InvalidValue));
    let _ = f.insn_load(&mut ctx, &p).unwrap();
}

fn shifter(ctx: &mut Context, kind: Kind, which: u8) -> Function {
    let f = Function::new(ctx, &sig(vec![kind, Kind::Int32], kind)).unwrap();
    let a = f.get_param(ctx, 0).unwrap();
    let n = f.get_param(ctx, 1).unwrap();
    let r = match which {
        0 => f.insn_shl(ctx, &a, &n),
        1 => f.insn_shr(ctx, &a, &n),
        _ => f.insn_ushr(ctx, &a, &n),
    }
    .unwrap();
    f.insn_return(ctx, &r).unwrap();
    f.compile(ctx).unwrap();
    f
}

#[test]
fn shifts_mask_their_count() {
    let mut ctx = Context::new();
    let shl = shifter(&mut ctx, Kind::Int32, 0);
    let shr = shifter(&mut ctx, Kind::Int32, 1);
    let ushr = shifter(&mut ctx, Kind::Int32, 2);
    assert_eq!(shl.apply(&ctx, &[1, 33]), Ok(2));
    assert_eq!(shl.apply(&ctx, &[1, 31]), Ok(i32::MIN as i64));
    assert_eq!(shr.apply(&ctx, &[-8, 1]), Ok(-4));
    assert_eq!(ushr.apply(&ctx, &[-8, 28]), Ok(15));
    let wide = shifter(&mut ctx, Kind::UInt64, 1);
    assert_eq!(wide.apply(&ctx, &[-1, 60]), Ok(15));
}

#[test]
fn handles_from_another_context_are_refused() {
    let mut one = Context::with_id(1);
    let mut two = Context::with_id(2);
    let f = adder(&mut one);
    let g = adder(&mut two);
    let a = f.get_param(&one, 0).unwrap();
    assert_eq!(f.compile(&mut two), Err(JitError::InvalidFunction));
    assert_eq!(f.get_param(&two, 0), Err(JitError::InvalidFunction));
    assert_eq!(g.insn_return(&mut two, &a), Err(JitError::InvalidValue));
    let l = Label::new(&mut one, &f).unwrap();
    assert_eq!(g.insn_branch(&mut two, &l), Err(JitError::InvalidLabel));
    assert!(!f.is_valid(&two));
    assert!(g.is_valid(&two));
}

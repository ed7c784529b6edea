//! A reference interpreter for the intermediate representation: it executes
//! the straight-line entry block of a function, checking types, argument
//! counts, and produced-before-use as it goes.
//!
//! A call to an external declaration (a function with no blocks, such as the
//! variadic host `printf`) is checked for argument count and fixed-parameter
//! types and then yields the scalar zero of the callee's return type: the
//! host's side effect is outside the module.

use vstd::prelude::*;
use vstd::arithmetic::div_mod::lemma_small_mod;
use crate::ir::{fn_named, int32_type, scalar_card, truncate_to, Instr, Module, ScalarTy, Term, Ty, Value};
use crate::builder::{BuildError, BuilderFunctions, LlvmBuilder};
use vstd::pervasive::unreached;

verus! {

/// A runtime value of the interpreter.
#[derive(Clone, Copy, PartialEq, Eq, Structural, Debug)]
pub enum RtVal {
    /// A scalar of type `ty`, always held in canonical (wrapped) form.
    IntV { ty: ScalarTy, val: u64 },
    /// A byte pointer to the start of constant-string global `global`.
    PtrV { global: usize },
    /// A pointer to the stack slot allocated by instruction `idx`.
    SlotV { ty: ScalarTy, idx: usize },
}

/// Why interpretation stopped.
#[derive(Clone, Copy, PartialEq, Eq, Structural, Debug)]
pub enum InterpError {
    /// The requested handle does not name a function of this module.
    NoSuchFunction,
    /// The function has no blocks: it is an external declaration.
    NoEntryBlock,
    /// The entry block was never finished with a terminator.
    MissingTerminator,
    /// An operand was not produced before its point of use.
    UnboundValue,
    /// An operand's type does not fit where it is used.
    TypeMismatch,
    /// A call passes fewer (or, for a non-variadic callee, a different
    /// number of) arguments than the declared parameters.
    ArgCountMismatch,
    /// A call to a function this interpreter cannot dispatch.
    UnsupportedCall,
}

/// The type of a runtime value.
pub open spec fn rt_ty(v: RtVal) -> Ty {
    match v {
        RtVal::IntV { ty, .. } => Ty::Scalar(ty),
        RtVal::PtrV { .. } => Ty::Ptr(ScalarTy::Int8),
        RtVal::SlotV { ty, .. } => Ty::Ptr(ty),
    }
}

/// What operand `v` denotes in function `f` with environment `env` (the
/// results of the entry block's instructions, in order).
pub open spec fn spec_eval_value(
    m: Module,
    f: int,
    env: Seq<Option<RtVal>>,
    v: Value,
) -> Result<RtVal, InterpError> {
    match v {
        Value::ConstInt { ty, val } => Ok(RtVal::IntV { ty, val: truncate_to(ty, val) }),
        Value::GlobalStrPtr { global } => if global < m.globals@.len() {
            Ok(RtVal::PtrV { global })
        } else {
            Err(InterpError::UnboundValue)
        },
        Value::Inst { func, block, inst } => if func as int == f && block == 0 && inst
            < env.len() && env[inst as int] is Some {
            Ok(env[inst as int]->Some_0)
        } else {
            Err(InterpError::UnboundValue)
        },
        Value::Func { .. } => Err(InterpError::TypeMismatch),
    }
}

/// The runtime values of `args[k..]`, or the first error among them.
pub open spec fn spec_eval_args(
    m: Module,
    f: int,
    env: Seq<Option<RtVal>>,
    args: Seq<Value>,
    k: int,
) -> Result<Seq<RtVal>, InterpError>
    decreases args.len() - k,
{
    if k < 0 || k >= args.len() {
        Ok(Seq::empty())
    } else {
        match spec_eval_value(m, f, env, args[k]) {
            Err(e) => Err(e),
            Ok(v) => match spec_eval_args(m, f, env, args, k + 1) {
                Err(e) => Err(e),
                Ok(rest) => Ok(seq![v] + rest),
            },
        }
    }
}

/// Whether each declared fixed parameter is matched in type by the argument
/// in its position.
pub open spec fn args_match(params: Seq<Ty>, vals: Seq<RtVal>) -> bool {
    forall|i: int| 0 <= i < params.len() ==> i < vals.len() && rt_ty(vals[i]) == params[i]
}

/// Whether `n` arguments are an acceptable count for the callee: exactly the
/// declared parameters, or at least them when the callee is variadic.
pub open spec fn count_ok(variadic: bool, n_params: nat, n: nat) -> bool {
    if variadic {
        n >= n_params
    } else {
        n == n_params
    }
}

/// One step of the interpreter: the result value of `ins` (`None` for a
/// store) and the memory after it, given the environment and memory before.
pub open spec fn spec_step(
    m: Module,
    f: int,
    env: Seq<Option<RtVal>>,
    mem: Seq<Option<u64>>,
    ins: Instr,
) -> Result<(Option<RtVal>, Seq<Option<u64>>), InterpError> {
    match ins {
        Instr::Alloca { ty, .. } => Ok((Some(RtVal::SlotV { ty, idx: env.len() as usize }), mem)),
        Instr::Store { src, dst } => match spec_eval_value(m, f, env, src) {
            Err(e) => Err(e),
            Ok(sv) => match spec_eval_value(m, f, env, dst) {
                Err(e) => Err(e),
                Ok(dv) => match (sv, dv) {
                    (RtVal::IntV { ty: st, val }, RtVal::SlotV { ty: dt, idx }) => if st != dt {
                        Err(InterpError::TypeMismatch)
                    } else if idx < mem.len() {
                        Ok((None, mem.update(idx as int, Some(val))))
                    } else {
                        Err(InterpError::UnboundValue)
                    },
                    _ => Err(InterpError::TypeMismatch),
                },
            },
        },
        Instr::Load { src, .. } => match spec_eval_value(m, f, env, src) {
            Err(e) => Err(e),
            Ok(sv) => match sv {
                RtVal::SlotV { ty, idx } => if idx < mem.len() && mem[idx as int] is Some {
                    Ok((Some(RtVal::IntV { ty, val: mem[idx as int]->Some_0 }), mem))
                } else {
                    Err(InterpError::UnboundValue)
                },
                _ => Err(InterpError::TypeMismatch),
            },
        },
        Instr::Mul { lhs, rhs, .. } => match spec_eval_value(m, f, env, lhs) {
            Err(e) => Err(e),
            Ok(lv) => match spec_eval_value(m, f, env, rhs) {
                Err(e) => Err(e),
                Ok(rv) => match (lv, rv) {
                    (RtVal::IntV { ty: t1, val: v1 }, RtVal::IntV { ty: t2, val: v2 }) => if t1
                        == t2 {
                        Ok(
                            (
                                Some(
                                    RtVal::IntV {
                                        ty: t1,
                                        val: ((v1 as int * v2 as int) % scalar_card(t1) as int)
                                            as u64,
                                    },
                                ),
                                mem,
                            ),
                        )
                    } else {
                        Err(InterpError::TypeMismatch)
                    },
                    _ => Err(InterpError::TypeMismatch),
                },
            },
        },
        Instr::Call { callee, args, .. } => if callee as int >= m.funcs@.len() {
            Err(InterpError::UnboundValue)
        } else {
            let cf = m.funcs@[callee as int];
            match spec_eval_args(m, f, env, args@, 0) {
                Err(e) => Err(e),
                Ok(vals) => if cf.blocks@.len() > 0 {
                    Err(InterpError::UnsupportedCall)
                } else if !count_ok(cf.variadic, cf.params@.len(), vals.len()) {
                    Err(InterpError::ArgCountMismatch)
                } else if !args_match(cf.params@, vals) {
                    Err(InterpError::TypeMismatch)
                } else {
                    match cf.ret {
                        Ty::Scalar(t) => Ok((Some(RtVal::IntV { ty: t, val: 0 }), mem)),
                        Ty::Ptr(_) => Err(InterpError::UnsupportedCall),
                    }
                },
            }
        },
    }
}

/// Interpretation of `instrs[k..]` of the entry block of `f`: the final
/// environment and memory, or the first error. The environment and memory
/// grow by exactly one entry per instruction.
pub open spec fn spec_interp_instrs(
    m: Module,
    f: int,
    instrs: Seq<Instr>,
    k: int,
    env: Seq<Option<RtVal>>,
    mem: Seq<Option<u64>>,
) -> Result<(Seq<Option<RtVal>>, Seq<Option<u64>>), InterpError>
    decreases instrs.len() - k,
{
    if k < 0 || k >= instrs.len() {
        Ok((env, mem))
    } else {
        match spec_step(m, f, env, mem, instrs[k]) {
            Err(e) => Err(e),
            Ok((res, mem2)) => spec_interp_instrs(m, f, instrs, k + 1, env.push(res), mem2.push(None)),
        }
    }
}

/// Interpretation of function `f` of module `m` from its entry block: the
/// returned 32-bit (or 8-bit) integer, or the first error.
pub open spec fn spec_interp_entry(m: Module, f: int) -> Result<u64, InterpError> {
    if !(0 <= f < m.funcs@.len()) {
        Err(InterpError::NoSuchFunction)
    } else if m.funcs@[f].blocks@.len() == 0 {
        Err(InterpError::NoEntryBlock)
    } else {
        let blk = m.funcs@[f].blocks@[0];
        match spec_interp_instrs(m, f, blk.instrs@, 0, Seq::empty(), Seq::empty()) {
            Err(e) => Err(e),
            Ok((env, mem)) => match blk.term {
                None => Err(InterpError::MissingTerminator),
                Some(Term::Ret { val }) => match spec_eval_value(m, f, env, val) {
                    Err(e) => Err(e),
                    Ok(rv) => match rv {
                        RtVal::IntV { ty, val: x } => if Ty::Scalar(ty) == m.funcs@[f].ret {
                            Ok(x)
                        } else {
                            Err(InterpError::TypeMismatch)
                        },
                        _ => Err(InterpError::TypeMismatch),
                    },
                },
            },
        }
    }
}

/// What running a handle means: interpret the function it names.
pub open spec fn spec_run(m: Module, func: Value) -> Result<u64, InterpError> {
    match func {
        Value::Func { func: fi } => spec_interp_entry(m, fi as int),
        _ => Err(InterpError::NoSuchFunction),
    }
}

/// The type of a runtime value, executably.
fn rt_ty_exec(v: RtVal) -> (t: Ty)
    ensures
        t == rt_ty(v),
{
    match v {
        RtVal::IntV { ty, .. } => Ty::Scalar(ty),
        RtVal::PtrV { .. } => Ty::Ptr(ScalarTy::Int8),
        RtVal::SlotV { ty, .. } => Ty::Ptr(ty),
    }
}

/// Evaluates one operand.
fn eval_value(m: &Module, f: usize, env: &Vec<Option<RtVal>>, v: Value) -> (r: Result<
    RtVal,
    InterpError,
>)
    ensures
        r == spec_eval_value(*m, f as int, env@, v),
{
    match v {
        Value::ConstInt { ty, val } => {
            let card: u64 = match ty {
                ScalarTy::Int8 => 0x100,
                ScalarTy::Int32 => 0x1_0000_0000,
            };
            Ok(RtVal::IntV { ty, val: val % card })
        },
        Value::GlobalStrPtr { global } => {
            if global < m.globals.len() {
                Ok(RtVal::PtrV { global })
            } else {
                Err(InterpError::UnboundValue)
            }
        },
        Value::Inst { func, block, inst } => {
            if func == f && block == 0 && inst < env.len() {
                match env[inst] {
                    Some(rv) => Ok(rv),
                    None => Err(InterpError::UnboundValue),
                }
            } else {
                Err(InterpError::UnboundValue)
            }
        },
        Value::Func { .. } => Err(InterpError::TypeMismatch),
    }
}

/// Evaluates the arguments `args[k..]`.
fn eval_args(m: &Module, f: usize, env: &Vec<Option<RtVal>>, args: &Vec<Value>, k: usize) -> (r:
    Result<Vec<RtVal>, InterpError>)
    requires
        k <= args@.len(),
    ensures
        ({
            let s = spec_eval_args(*m, f as int, env@, args@, k as int);
            match r {
                Ok(vals) => s == Ok::<Seq<RtVal>, InterpError>(vals@),
                Err(e) => s == Err::<Seq<RtVal>, InterpError>(e),
            }
        }),
    decreases args@.len() - k,
{
    if k == args.len() {
        let out: Vec<RtVal> = Vec::new();
        proof {
            assert(out@ =~= Seq::<RtVal>::empty());
        }
        Ok(out)
    } else {
        match eval_value(m, f, env, args[k]) {
            Err(e) => Err(e),
            Ok(v) => match eval_args(m, f, env, args, k + 1) {
                Err(e) => Err(e),
                Ok(mut rest) => {
                    let ghost tail = rest@;
                    rest.insert(0, v);
                    proof {
                        assert(rest@ =~= seq![v] + tail);
                    }
                    Ok(rest)
                },
            },
        }
    }
}

/// Checks the fixed parameters against the argument values.
fn check_args(params: &Vec<Ty>, vals: &Vec<RtVal>) -> (r: bool)
    requires
        vals@.len() >= params@.len(),
    ensures
        r == args_match(params@, vals@),
{
    let n = params.len();
    for i in 0..n
        invariant
            n == params@.len(),
            vals@.len() >= params@.len(),
            forall|j: int| 0 <= j < i ==> rt_ty(vals@[j]) == params@[j],
    {
        if rt_ty_exec(vals[i]) != params[i] {
            proof {
                assert(!args_match(params@, vals@));
            }
            return false;
        }
    }
    true
}

/// Executes one instruction.
#[verifier::rlimit(60)]
fn step(m: &Module, f: usize, env: &Vec<Option<RtVal>>, mem: Vec<Option<u64>>, ins: &Instr) -> (r:
    Result<(Option<RtVal>, Vec<Option<u64>>), InterpError>)
    ensures
        ({
            let s = spec_step(*m, f as int, env@, mem@, *ins);
            match r {
                Ok((res, mem2)) => s == Ok::<(Option<RtVal>, Seq<Option<u64>>), InterpError>(
                    (res, mem2@),
                ),
                Err(e) => s == Err::<(Option<RtVal>, Seq<Option<u64>>), InterpError>(e),
            }
        }),
{
    match ins {
        Instr::Alloca { ty, .. } => Ok((Some(RtVal::SlotV { ty: *ty, idx: env.len() }), mem)),
        Instr::Store { src, dst } => match eval_value(m, f, env, *src) {
            Err(e) => Err(e),
            Ok(sv) => match eval_value(m, f, env, *dst) {
                Err(e) => Err(e),
                Ok(dv) => match (sv, dv) {
                    (RtVal::IntV { ty: st, val }, RtVal::SlotV { ty: dt, idx }) => {
                        if st != dt {
                            Err(InterpError::TypeMismatch)
                        } else if idx < mem.len() {
                            let mut mem2 = mem;
                            mem2[idx] = Some(val);
                            Ok((None, mem2))
                        } else {
                            Err(InterpError::UnboundValue)
                        }
                    },
                    _ => Err(InterpError::TypeMismatch),
                },
            },
        },
        Instr::Load { src, .. } => match eval_value(m, f, env, *src) {
            Err(e) => Err(e),
            Ok(sv) => match sv {
                RtVal::SlotV { ty, idx } => {
                    if idx < mem.len() {
                        match mem[idx] {
                            Some(v) => Ok((Some(RtVal::IntV { ty, val: v }), mem)),
                            None => Err(InterpError::UnboundValue),
                        }
                    } else {
                        Err(InterpError::UnboundValue)
                    }
                },
                _ => Err(InterpError::TypeMismatch),
            },
        },
        Instr::Mul { lhs, rhs, .. } => match eval_value(m, f, env, *lhs) {
            Err(e) => Err(e),
            Ok(lv) => match eval_value(m, f, env, *rhs) {
                Err(e) => Err(e),
                Ok(rv) => match (lv, rv) {
                    (RtVal::IntV { ty: t1, val: v1 }, RtVal::IntV { ty: t2, val: v2 }) => {
                        if t1 == t2 {
                            let card: u64 = match t1 {
                                ScalarTy::Int8 => 0x100,
                                ScalarTy::Int32 => 0x1_0000_0000,
                            };
                            proof {
                                vstd::arithmetic::mul::lemma_mul_upper_bound(
                                    v1 as int,
                                    u64::MAX as int,
                                    v2 as int,
                                    u64::MAX as int,
                                );
                            }
                            let prod: u128 = (v1 as u128) * (v2 as u128) % (card as u128);
                            Ok((Some(RtVal::IntV { ty: t1, val: prod as u64 }), mem))
                        } else {
                            Err(InterpError::TypeMismatch)
                        }
                    },
                    _ => Err(InterpError::TypeMismatch),
                },
            },
        },
        Instr::Call { callee, args, .. } => {
            let c = *callee;
            if c >= m.funcs.len() {
                return Err(InterpError::UnboundValue);
            }
            match eval_args(m, f, env, args, 0) {
                Err(e) => Err(e),
                Ok(vals) => {
                    let cf = &m.funcs[c];
                    if cf.blocks.len() > 0 {
                        Err(InterpError::UnsupportedCall)
                    } else if !(if cf.variadic {
                        vals.len() >= cf.params.len()
                    } else {
                        vals.len() == cf.params.len()
                    }) {
                        Err(InterpError::ArgCountMismatch)
                    } else if !check_args(&cf.params, &vals) {
                        Err(InterpError::TypeMismatch)
                    } else {
                        match cf.ret {
                            Ty::Scalar(t) => Ok((Some(RtVal::IntV { ty: t, val: 0 }), mem)),
                            Ty::Ptr(_) => Err(InterpError::UnsupportedCall),
                        }
                    }
                },
            }
        },
    }
}

/// Interprets the entry block of `f` from instruction `k` on.
fn interp_instrs(m: &Module, f: usize, k: usize, env: Vec<Option<RtVal>>, mem: Vec<Option<u64>>) -> (r:
    Result<(Vec<Option<RtVal>>, Vec<Option<u64>>), InterpError>)
    requires
        f < m.funcs@.len(),
        m.funcs@[f as int].blocks@.len() > 0,
        k <= m.funcs@[f as int].blocks@[0].instrs@.len(),
    ensures
        ({
            let s = spec_interp_instrs(
                *m,
                f as int,
                m.funcs@[f as int].blocks@[0].instrs@,
                k as int,
                env@,
                mem@,
            );
            match r {
                Ok((e2, m2)) => s == Ok::<(Seq<Option<RtVal>>, Seq<Option<u64>>), InterpError>(
                    (e2@, m2@),
                ),
                Err(e) => s == Err::<(Seq<Option<RtVal>>, Seq<Option<u64>>), InterpError>(e),
            }
        }),
    decreases m.funcs@[f as int].blocks@[0].instrs@.len() - k,
{
    let len = m.funcs[f].blocks[0].instrs.len();
    if k == len {
        Ok((env, mem))
    } else {
        let ins = &m.funcs[f].blocks[0].instrs[k];
        match step(m, f, &env, mem, ins) {
            Err(e) => Err(e),
            Ok((res, mem2)) => {
                let mut env2 = env;
                let mut mem3 = mem2;
                env2.push(res);
                mem3.push(None);
                interp_instrs(m, f, k + 1, env2, mem3)
            },
        }
    }
}

impl LlvmBuilder {
    /// Invokes a declared function by handle through the reference
    /// interpreter, returning the integer it returns, or the first error.
    /// The entry function takes no parameters, so no arguments are passed.
    pub fn run_via_interpreter(&self, func: Value) -> (r: Result<u64, InterpError>)
        ensures
            r == spec_run(self.module, func),
    {
        let fi = match func {
            Value::Func { func: fi } => fi,
            _ => {
                return Err(InterpError::NoSuchFunction);
            },
        };
        if fi >= self.module.funcs.len() {
            return Err(InterpError::NoSuchFunction);
        }
        if self.module.funcs[fi].blocks.len() == 0 {
            return Err(InterpError::NoEntryBlock);
        }
        match interp_instrs(&self.module, fi, 0, Vec::new(), Vec::new()) {
            Err(e) => Err(e),
            Ok((env, _mem)) => {
                match &self.module.funcs[fi].blocks[0].term {
                    None => Err(InterpError::MissingTerminator),
                    Some(Term::Ret { val }) => match eval_value(&self.module, fi, &env, *val) {
                        Err(e) => Err(e),
                        Ok(rv) => match rv {
                            RtVal::IntV { ty, val: x } => {
                                if self.module.funcs[fi].ret == Ty::Scalar(ty) {
                                    proof {
                                        assert(Ty::Scalar(ty) == self.module.funcs@[fi as int].ret);
                                    }
                                    Ok(x)
                                } else {
                                    Err(InterpError::TypeMismatch)
                                }
                            },
                            _ => Err(InterpError::TypeMismatch),
                        },
                    },
                }
            },
        }
    }
}

/// The wrapped product: both operands reduced into scalar type `t`, then
/// multiplied with wrap-around in `t`.
pub open spec fn wrap_mul(t: ScalarTy, a: u64, b: u64) -> u64 {
    ((truncate_to(t, a) as int * truncate_to(t, b) as int) % scalar_card(t) as int) as u64
}

/// The shape of a function whose entry block declares two 32-bit scalar
/// variables with literals `a` and `b` (each a full alloca/store/load round
/// trip), multiplies the two loaded values, and returns the product.
pub open spec fn product_program(m: Module, f: usize, a: u64, b: u64) -> bool {
    &&& (f as int) < m.funcs@.len()
    &&& m.funcs@[f as int].ret == Ty::Scalar(ScalarTy::Int32)
    &&& m.funcs@[f as int].blocks@.len() >= 1
    &&& ({
        let ins = m.funcs@[f as int].blocks@[0].instrs@;
        let s0 = Value::Inst { func: f, block: 0, inst: 0 };
        let s3 = Value::Inst { func: f, block: 0, inst: 3 };
        let l2 = Value::Inst { func: f, block: 0, inst: 2 };
        let l5 = Value::Inst { func: f, block: 0, inst: 5 };
        &&& ins.len() == 7
        &&& (ins[0] matches Instr::Alloca { ty: ScalarTy::Int32, .. })
        &&& ins[1] == (Instr::Store {
            src: Value::ConstInt { ty: ScalarTy::Int32, val: a },
            dst: s0,
        })
        &&& (ins[2] matches Instr::Load { src, .. } && src == s0)
        &&& (ins[3] matches Instr::Alloca { ty: ScalarTy::Int32, .. })
        &&& ins[4] == (Instr::Store {
            src: Value::ConstInt { ty: ScalarTy::Int32, val: b },
            dst: s3,
        })
        &&& (ins[5] matches Instr::Load { src, .. } && src == s3)
        &&& (ins[6] matches Instr::Mul { lhs, rhs, .. } && lhs == l2 && rhs == l5)
    })
    &&& m.funcs@[f as int].blocks@[0].term == Some(
        Term::Ret { val: Value::Inst { func: f, block: 0, inst: 6 } },
    )
}

/// Law: a product-shaped function interprets to exactly the wrapped product
/// of its two literals, whatever they are.
#[verifier::rlimit(80)]
pub proof fn lemma_scalar_product(m: Module, f: usize, a: u64, b: u64)
    requires
        product_program(m, f, a, b),
    ensures
        spec_interp_entry(m, f as int) == Ok::<u64, InterpError>(wrap_mul(ScalarTy::Int32, a, b)),
{
    let ins = m.funcs@[f as int].blocks@[0].instrs@;
    let t = ScalarTy::Int32;
    let ta = truncate_to(t, a);
    let tb = truncate_to(t, b);
    let s0v = RtVal::SlotV { ty: t, idx: 0 };
    let s3v = RtVal::SlotV { ty: t, idx: 3 };
    let la = RtVal::IntV { ty: t, val: ta };
    let lb = RtVal::IntV { ty: t, val: tb };
    let pr = RtVal::IntV { ty: t, val: wrap_mul(t, a, b) };

    let e0 = Seq::<Option<RtVal>>::empty();
    let m0 = Seq::<Option<u64>>::empty();
    let e1 = e0.push(Some(s0v));
    let m1 = m0.push(None);
    let e2 = e1.push(None);
    let m2 = m1.update(0, Some(ta)).push(None);
    let e3 = e2.push(Some(la));
    let m3 = m2.push(None);
    let e4 = e3.push(Some(s3v));
    let m4 = m3.push(None);
    let e5 = e4.push(None);
    let m5 = m4.update(3, Some(tb)).push(None);
    let e6 = e5.push(Some(lb));
    let m6 = m5.push(None);
    let e7 = e6.push(Some(pr));
    let m7 = m6.push(None);

    assert(spec_step(m, f as int, e0, m0, ins[0]) == Ok::<
        (Option<RtVal>, Seq<Option<u64>>),
        InterpError,
    >((Some(s0v), m0)));
    assert(spec_step(m, f as int, e1, m1, ins[1]) == Ok::<
        (Option<RtVal>, Seq<Option<u64>>),
        InterpError,
    >((None, m1.update(0, Some(ta)))));
    assert(spec_step(m, f as int, e2, m2, ins[2]) == Ok::<
        (Option<RtVal>, Seq<Option<u64>>),
        InterpError,
    >((Some(la), m2)));
    assert(spec_step(m, f as int, e3, m3, ins[3]) == Ok::<
        (Option<RtVal>, Seq<Option<u64>>),
        InterpError,
    >((Some(s3v), m3)));
    assert(spec_step(m, f as int, e4, m4, ins[4]) == Ok::<
        (Option<RtVal>, Seq<Option<u64>>),
        InterpError,
    >((None, m4.update(3, Some(tb)))));
    assert(spec_step(m, f as int, e5, m5, ins[5]) == Ok::<
        (Option<RtVal>, Seq<Option<u64>>),
        InterpError,
    >((Some(lb), m5)));
    assert(spec_step(m, f as int, e6, m6, ins[6]) == Ok::<
        (Option<RtVal>, Seq<Option<u64>>),
        InterpError,
    >((Some(pr), m6)));

    assert(spec_interp_instrs(m, f as int, ins, 7, e7, m7) == Ok::<
        (Seq<Option<RtVal>>, Seq<Option<u64>>),
        InterpError,
    >((e7, m7)));
    assert(spec_interp_instrs(m, f as int, ins, 6, e6, m6) == Ok::<
        (Seq<Option<RtVal>>, Seq<Option<u64>>),
        InterpError,
    >((e7, m7)));
    assert(spec_interp_instrs(m, f as int, ins, 5, e5, m5) == Ok::<
        (Seq<Option<RtVal>>, Seq<Option<u64>>),
        InterpError,
    >((e7, m7)));
    assert(spec_interp_instrs(m, f as int, ins, 4, e4, m4) == Ok::<
        (Seq<Option<RtVal>>, Seq<Option<u64>>),
        InterpError,
    >((e7, m7)));
    assert(spec_interp_instrs(m, f as int, ins, 3, e3, m3) == Ok::<
        (Seq<Option<RtVal>>, Seq<Option<u64>>),
        InterpError,
    >((e7, m7)));
    assert(spec_interp_instrs(m, f as int, ins, 2, e2, m2) == Ok::<
        (Seq<Option<RtVal>>, Seq<Option<u64>>),
        InterpError,
    >((e7, m7)));
    assert(spec_interp_instrs(m, f as int, ins, 1, e1, m1) == Ok::<
        (Seq<Option<RtVal>>, Seq<Option<u64>>),
        InterpError,
    >((e7, m7)));
    assert(spec_interp_instrs(m, f as int, ins, 0, e0, m0) == Ok::<
        (Seq<Option<RtVal>>, Seq<Option<u64>>),
        InterpError,
    >((e7, m7)));

    assert(spec_eval_value(m, f as int, e7, Value::Inst { func: f, block: 0, inst: 6 }) == Ok::<
        RtVal,
        InterpError,
    >(pr));
}

/// Law: when `a`, `b`, and their product all fit in 32 bits, a
/// product-shaped function interprets to exactly `a * b`.
pub proof fn lemma_scalar_product_exact(m: Module, f: usize, a: u64, b: u64)
    requires
        product_program(m, f, a, b),
        a < 0x1_0000_0000,
        b < 0x1_0000_0000,
        a * b < 0x1_0000_0000,
    ensures
        spec_interp_entry(m, f as int) == Ok::<u64, InterpError>((a * b) as u64),
{
    lemma_scalar_product(m, f, a, b);
    let t = ScalarTy::Int32;
    lemma_small_mod(a as nat, scalar_card(t) as nat);
    lemma_small_mod(b as nat, scalar_card(t) as nat);
    assert(truncate_to(t, a) == a);
    assert(truncate_to(t, b) == b);
    lemma_small_mod((a * b) as nat, scalar_card(t) as nat);
    assert(wrap_mul(t, a, b) == a * b);
}

/// Law: a call to an external variadic declaration taking one fixed byte
/// pointer and returning a 32-bit integer, passed an existing
/// constant-string global and an integer literal, is accepted by the
/// interpreter: no type or argument-count error, whatever the environment.
pub proof fn lemma_variadic_call_accepted(
    m: Module,
    f: int,
    env: Seq<Option<RtVal>>,
    mem: Seq<Option<u64>>,
    ins: Instr,
    c: usize,
    g: usize,
    v: u64,
)
    requires
        (ins matches Instr::Call { callee, args, .. } && callee == c && args@ == seq![
            Value::GlobalStrPtr { global: g },
            Value::ConstInt { ty: ScalarTy::Int32, val: v },
        ]),
        (c as int) < m.funcs@.len(),
        ({
            let cf = m.funcs@[c as int];
            &&& cf.blocks@.len() == 0
            &&& cf.variadic
            &&& cf.params@ == seq![Ty::Ptr(ScalarTy::Int8)]
            &&& cf.ret == Ty::Scalar(ScalarTy::Int32)
        }),
        (g as int) < m.globals@.len(),
    ensures
        spec_step(m, f, env, mem, ins) == Ok::<(Option<RtVal>, Seq<Option<u64>>), InterpError>(
            (Some(RtVal::IntV { ty: ScalarTy::Int32, val: 0 }), mem),
        ),
{
    let args = seq![
        Value::GlobalStrPtr { global: g },
        Value::ConstInt { ty: ScalarTy::Int32, val: v },
    ];
    let pv = RtVal::PtrV { global: g };
    let iv = RtVal::IntV { ty: ScalarTy::Int32, val: truncate_to(ScalarTy::Int32, v) };
    assert(spec_eval_value(m, f, env, args[0]) == Ok::<RtVal, InterpError>(pv));
    assert(spec_eval_value(m, f, env, args[1]) == Ok::<RtVal, InterpError>(iv));
    assert(spec_eval_args(m, f, env, args, 2) == Ok::<Seq<RtVal>, InterpError>(Seq::empty()));
    assert(spec_eval_args(m, f, env, args, 1) == Ok::<Seq<RtVal>, InterpError>(
        seq![iv] + Seq::empty(),
    ));
    assert(spec_eval_args(m, f, env, args, 0) == Ok::<Seq<RtVal>, InterpError>(
        seq![pv] + (seq![iv] + Seq::empty()),
    ));
    let vals = seq![pv] + (seq![iv] + Seq::empty());
    assert(vals.len() == 2);
    assert(vals[0] == pv);
    let cf = m.funcs@[c as int];
    assert(count_ok(cf.variadic, cf.params@.len(), vals.len()));
    assert(args_match(cf.params@, vals)) by {
        assert(rt_ty(vals[0]) == Ty::Ptr(ScalarTy::Int8));
    }
}

/// The shape of a product function that, between the multiply and the
/// return, also calls an external variadic host function (one fixed byte
/// pointer, 32-bit integer return) with constant-string global `g` and the
/// integer literal `v` as arguments: the original example program.
pub open spec fn product_print_program(
    m: Module,
    f: usize,
    a: u64,
    b: u64,
    c: usize,
    g: usize,
    v: u64,
) -> bool {
    &&& (f as int) < m.funcs@.len()
    &&& m.funcs@[f as int].ret == Ty::Scalar(ScalarTy::Int32)
    &&& m.funcs@[f as int].blocks@.len() >= 1
    &&& ({
        let ins = m.funcs@[f as int].blocks@[0].instrs@;
        let s0 = Value::Inst { func: f, block: 0, inst: 0 };
        let s3 = Value::Inst { func: f, block: 0, inst: 3 };
        let l2 = Value::Inst { func: f, block: 0, inst: 2 };
        let l5 = Value::Inst { func: f, block: 0, inst: 5 };
        &&& ins.len() == 8
        &&& (ins[0] matches Instr::Alloca { ty: ScalarTy::Int32, .. })
        &&& ins[1] == (Instr::Store {
            src: Value::ConstInt { ty: ScalarTy::Int32, val: a },
            dst: s0,
        })
        &&& (ins[2] matches Instr::Load { src, .. } && src == s0)
        &&& (ins[3] matches Instr::Alloca { ty: ScalarTy::Int32, .. })
        &&& ins[4] == (Instr::Store {
            src: Value::ConstInt { ty: ScalarTy::Int32, val: b },
            dst: s3,
        })
        &&& (ins[5] matches Instr::Load { src, .. } && src == s3)
        &&& (ins[6] matches Instr::Mul { lhs, rhs, .. } && lhs == l2 && rhs == l5)
        &&& (ins[7] matches Instr::Call { callee, args, .. } && callee == c && args@ == seq![
            Value::GlobalStrPtr { global: g },
            Value::ConstInt { ty: ScalarTy::Int32, val: v },
        ])
    })
    &&& (c as int) < m.funcs@.len()
    &&& m.funcs@[c as int].blocks@.len() == 0
    &&& m.funcs@[c as int].variadic
    &&& m.funcs@[c as int].params@ == seq![Ty::Ptr(ScalarTy::Int8)]
    &&& m.funcs@[c as int].ret == Ty::Scalar(ScalarTy::Int32)
    &&& (g as int) < m.globals@.len()
    &&& m.funcs@[f as int].blocks@[0].term == Some(
        Term::Ret { val: Value::Inst { func: f, block: 0, inst: 6 } },
    )
}

/// Law: the example program — two scalar variables, a multiply, a formatted
/// print of a literal through the variadic host function, a return — is
/// accepted whole by the interpreter (no type or argument-count error) and
/// interprets to exactly the wrapped product of its two literals.
#[verifier::rlimit(100)]
pub proof fn lemma_product_print_program(
    m: Module,
    f: usize,
    a: u64,
    b: u64,
    c: usize,
    g: usize,
    v: u64,
)
    requires
        product_print_program(m, f, a, b, c, g, v),
    ensures
        spec_interp_entry(m, f as int) == Ok::<u64, InterpError>(wrap_mul(ScalarTy::Int32, a, b)),
{
    let ins = m.funcs@[f as int].blocks@[0].instrs@;
    let t = ScalarTy::Int32;
    let ta = truncate_to(t, a);
    let tb = truncate_to(t, b);
    let s0v = RtVal::SlotV { ty: t, idx: 0 };
    let s3v = RtVal::SlotV { ty: t, idx: 3 };
    let la = RtVal::IntV { ty: t, val: ta };
    let lb = RtVal::IntV { ty: t, val: tb };
    let pr = RtVal::IntV { ty: t, val: wrap_mul(t, a, b) };
    let cz = RtVal::IntV { ty: t, val: 0 };

    let e0 = Seq::<Option<RtVal>>::empty();
    let m0 = Seq::<Option<u64>>::empty();
    let e1 = e0.push(Some(s0v));
    let m1 = m0.push(None);
    let e2 = e1.push(None);
    let m2 = m1.update(0, Some(ta)).push(None);
    let e3 = e2.push(Some(la));
    let m3 = m2.push(None);
    let e4 = e3.push(Some(s3v));
    let m4 = m3.push(None);
    let e5 = e4.push(None);
    let m5 = m4.update(3, Some(tb)).push(None);
    let e6 = e5.push(Some(lb));
    let m6 = m5.push(None);
    let e7 = e6.push(Some(pr));
    let m7 = m6.push(None);
    let e8 = e7.push(Some(cz));
    let m8 = m7.push(None);

    assert(spec_step(m, f as int, e0, m0, ins[0]) == Ok::<
        (Option<RtVal>, Seq<Option<u64>>),
        InterpError,
    >((Some(s0v), m0)));
    assert(spec_step(m, f as int, e1, m1, ins[1]) == Ok::<
        (Option<RtVal>, Seq<Option<u64>>),
        InterpError,
    >((None, m1.update(0, Some(ta)))));
    assert(spec_step(m, f as int, e2, m2, ins[2]) == Ok::<
        (Option<RtVal>, Seq<Option<u64>>),
        InterpError,
    >((Some(la), m2)));
    assert(spec_step(m, f as int, e3, m3, ins[3]) == Ok::<
        (Option<RtVal>, Seq<Option<u64>>),
        InterpError,
    >((Some(s3v), m3)));
    assert(spec_step(m, f as int, e4, m4, ins[4]) == Ok::<
        (Option<RtVal>, Seq<Option<u64>>),
        InterpError,
    >((None, m4.update(3, Some(tb)))));
    assert(spec_step(m, f as int, e5, m5, ins[5]) == Ok::<
        (Option<RtVal>, Seq<Option<u64>>),
        InterpError,
    >((Some(lb), m5)));
    assert(spec_step(m, f as int, e6, m6, ins[6]) == Ok::<
        (Option<RtVal>, Seq<Option<u64>>),
        InterpError,
    >((Some(pr), m6)));
    lemma_variadic_call_accepted(m, f as int, e7, m7, ins[7], c, g, v);
    assert(spec_step(m, f as int, e7, m7, ins[7]) == Ok::<
        (Option<RtVal>, Seq<Option<u64>>),
        InterpError,
    >((Some(cz), m7)));

    assert(spec_interp_instrs(m, f as int, ins, 8, e8, m8) == Ok::<
        (Seq<Option<RtVal>>, Seq<Option<u64>>),
        InterpError,
    >((e8, m8)));
    assert(spec_interp_instrs(m, f as int, ins, 7, e7, m7) == Ok::<
        (Seq<Option<RtVal>>, Seq<Option<u64>>),
        InterpError,
    >((e8, m8)));
    assert(spec_interp_instrs(m, f as int, ins, 6, e6, m6) == Ok::<
        (Seq<Option<RtVal>>, Seq<Option<u64>>),
        InterpError,
    >((e8, m8)));
    assert(spec_interp_instrs(m, f as int, ins, 5, e5, m5) == Ok::<
        (Seq<Option<RtVal>>, Seq<Option<u64>>),
        InterpError,
    >((e8, m8)));
    assert(spec_interp_instrs(m, f as int, ins, 4, e4, m4) == Ok::<
        (Seq<Option<RtVal>>, Seq<Option<u64>>),
        InterpError,
    >((e8, m8)));
    assert(spec_interp_instrs(m, f as int, ins, 3, e3, m3) == Ok::<
        (Seq<Option<RtVal>>, Seq<Option<u64>>),
        InterpError,
    >((e8, m8)));
    assert(spec_interp_instrs(m, f as int, ins, 2, e2, m2) == Ok::<
        (Seq<Option<RtVal>>, Seq<Option<u64>>),
        InterpError,
    >((e8, m8)));
    assert(spec_interp_instrs(m, f as int, ins, 1, e1, m1) == Ok::<
        (Seq<Option<RtVal>>, Seq<Option<u64>>),
        InterpError,
    >((e8, m8)));
    assert(spec_interp_instrs(m, f as int, ins, 0, e0, m0) == Ok::<
        (Seq<Option<RtVal>>, Seq<Option<u64>>),
        InterpError,
    >((e8, m8)));

    assert(spec_eval_value(m, f as int, e8, Value::Inst { func: f, block: 0, inst: 6 }) == Ok::<
        RtVal,
        InterpError,
    >(pr));
}

impl LlvmBuilder {
    /// Law, executably: for any literals `a` and `b`, setting up the entry
    /// point, declaring two scalar variables with `a` and `b`, multiplying
    /// the two loaded values, and returning the product yields a function
    /// handle that interprets to exactly the wrapped product of `a` and `b`.
    pub fn build_product_program(&mut self, a: u64, b: u64) -> (r: Result<Value, BuildError>)
        requires
            old(self).wf(),
        ensures
            final(self).wf(),
            r is Ok <==> !fn_named(old(self).module, "main"@),
            r matches Err(e) ==> *final(self) == *old(self) && e == BuildError::EntryAlreadySetUp,
            r matches Ok(h) ==> spec_run(final(self).module, h) == Ok::<u64, InterpError>(
                wrap_mul(ScalarTy::Int32, a, b),
            ),
    {
        match self.setup_main() {
            Err(e) => Err(e),
            Ok(()) => {
                let f = self.module.funcs.len() - 1;
                let va = self.create_variable("a", a, int32_type());
                let vb = self.create_variable("b", b, int32_type());
                let vp = self.multiple_variable(va, vb, "ab_val");
                self.return_variable(vp);
                proof {
                    assert(product_program(self.module, f, a, b));
                    lemma_scalar_product(self.module, f, a, b);
                }
                Ok(Value::Func { func: f })
            },
        }
    }

    /// Law, executably: the whole example program built from a fresh
    /// module — two scalar variables with literals `a` and `b`, their
    /// product, a formatted print of a literal through the variadic host
    /// function, and a return — interprets to exactly the wrapped product
    /// of `a` and `b`: in particular the print call passes the
    /// interpreter's type and argument-count checks.
    pub fn build_example_program(&mut self, a: u64, b: u64) -> (r: Value)
        requires
            old(self).wf(),
            old(self).module.funcs@.len() == 0,
        ensures
            final(self).wf(),
            spec_run(final(self).module, r) == Ok::<u64, InterpError>(
                wrap_mul(ScalarTy::Int32, a, b),
            ),
    {
        proof {
            assert(!fn_named(self.module, "main"@));
        }
        match self.setup_main() {
            Err(_) => unreached(),
            Ok(()) => {
                let va = self.create_variable("a", a, int32_type());
                let vb = self.create_variable("b", b, int32_type());
                let vp = self.multiple_variable(va, vb, "ab_val");
                let ghost pre_print = *self;
                proof {
                    reveal_strlit("main");
                    reveal_strlit("printf");
                    assert("main"@.len() == 4);
                    assert("printf"@.len() == 6);
                    assert(!fn_named(self.module, "printf"@)) by {
                        assert forall|i: int|
                            0 <= i < self.module.funcs@.len() implies self.module.funcs@[i].name@
                            != "printf"@ by {
                            assert(self.module.funcs@[0].name@ == "main"@);
                        }
                    }
                }
                let mut bf = BuilderFunctions {};
                bf.set_up(self);
                self.return_variable(vp);
                proof {
                    let m = self.module;
                    let g = pre_print.module.globals@.len() as usize;
                    match m.funcs@[0].blocks@[0].instrs@[7] {
                        Instr::Call { callee, .. } => {
                            assert(product_print_program(m, 0, a, b, callee, g, 15));
                            lemma_product_print_program(m, 0, a, b, callee, g, 15);
                        },
                        _ => {
                            assert(false);
                        },
                    }
                }
                Value::Func { func: 0 }
            },
        }
    }
}

} // verus!

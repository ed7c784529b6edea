//! The in-memory intermediate representation: types, values, instructions,
//! basic blocks, functions, constant-string globals, and whole modules.

use vstd::prelude::*;

verus! {

/// A scalar kind the type registry hands out.
#[derive(Clone, Copy, PartialEq, Eq, Structural, Debug)]
pub enum ScalarTy {
    Int8,
    Int32,
}

/// A value type: a scalar, or a pointer to a scalar.
#[derive(Clone, Copy, PartialEq, Eq, Structural, Debug)]
pub enum Ty {
    Scalar(ScalarTy),
    Ptr(ScalarTy),
}

/// Number of distinct values of a scalar type: 2^8 for `Int8`, 2^32 for `Int32`.
pub open spec fn scalar_card(t: ScalarTy) -> u64 {
    match t {
        ScalarTy::Int8 => 0x100,
        ScalarTy::Int32 => 0x1_0000_0000,
    }
}

/// The canonical representative of `v` in scalar type `t` (wrap-around semantics).
pub open spec fn truncate_to(t: ScalarTy, v: u64) -> u64 {
    (v as int % scalar_card(t) as int) as u64
}

/// The 32-bit integer type, as the type registry hands it out.
pub fn int32_type() -> (r: Ty)
    ensures
        r == Ty::Scalar(ScalarTy::Int32),
{
    Ty::Scalar(ScalarTy::Int32)
}

/// A value handle: the result of a constant, a global, an instruction,
/// or a declared function.
#[derive(Clone, Copy, PartialEq, Eq, Structural, Debug)]
pub enum Value {
    /// An integer constant of a scalar type (stored unreduced; consumers wrap).
    ConstInt { ty: ScalarTy, val: u64 },
    /// A byte pointer to the start of the constant-string global `global`.
    GlobalStrPtr { global: usize },
    /// The result of instruction `inst` of block `block` of function `func`.
    Inst { func: usize, block: usize, inst: usize },
    /// A handle to the declared function `func`.
    Func { func: usize },
}

/// One instruction of a basic block.
#[derive(Debug)]
pub enum Instr {
    /// Allocate one stack slot for a scalar; produces a pointer to the slot.
    Alloca { ty: ScalarTy, name: String },
    /// Store the scalar `src` into the slot that `dst` points to.
    Store { src: Value, dst: Value },
    /// Load the scalar out of the slot that `src` points to.
    Load { src: Value, name: String },
    /// Multiply two scalars of the same type (wrap-around on overflow).
    Mul { lhs: Value, rhs: Value, name: String },
    /// Call the declared function `callee` with the given arguments.
    Call { callee: usize, args: Vec<Value>, name: String },
}

/// The mandatory final instruction of a finished basic block.
#[derive(Debug)]
pub enum Term {
    /// Return `val` from the enclosing function.
    Ret { val: Value },
}

/// A basic block: a label, a straight-line instruction sequence, and,
/// once finished, exactly one terminator.
pub struct Block {
    pub label: String,
    pub instrs: Vec<Instr>,
    pub term: Option<Term>,
}

/// A function declared in a module. A function with no blocks is an
/// external declaration (defined outside the module, e.g. by the host).
pub struct Function {
    pub name: String,
    pub ret: Ty,
    pub params: Vec<Ty>,
    pub variadic: bool,
    pub blocks: Vec<Block>,
}

/// A constant-string global with private linkage. The bytes include the
/// terminating zero the backend's string-constant primitive appends.
pub struct GlobalStr {
    pub bytes: Vec<u8>,
}

/// A named container of functions and constant-string globals.
pub struct Module {
    pub name: String,
    pub funcs: Vec<Function>,
    pub globals: Vec<GlobalStr>,
}

/// Whether some function of `m` is registered under `name`.
pub open spec fn fn_named(m: Module, name: Seq<char>) -> bool {
    exists|i: int| 0 <= i < m.funcs@.len() && m.funcs@[i].name@ == name
}

/// Function names form a single namespace per module: no two functions
/// share a name.
pub open spec fn module_wf(m: Module) -> bool {
    forall|i: int, j: int|
        0 <= i < j < m.funcs@.len() ==> m.funcs@[i].name@ != m.funcs@[j].name@
}

} // verus!

//! The construction layer: a module controller that owns one module and
//! the single insertion cursor, and the operations that declare functions,
//! append blocks, and build instructions.

use vstd::prelude::*;
use vstd::pervasive::unreached;
use vstd::slice::slice_to_vec;
use vstd::string::StringSliceAdditionalSpecFns;
use crate::ir::{
    fn_named, int32_type, module_wf, Block, Function, GlobalStr, Instr, Module, ScalarTy, Term,
    Ty, Value,
};

verus! {

/// A handle to block `block` of function `func` of the module under construction.
#[derive(Clone, Copy, PartialEq, Eq, Structural, Debug)]
pub struct BlockRef {
    pub func: usize,
    pub block: usize,
}

/// A construction error surfaced to the caller.
#[derive(Clone, Copy, PartialEq, Eq, Structural, Debug)]
pub enum BuildError {
    /// A block was requested for a function name that was never declared.
    FunctionNotDeclared,
    /// The entry point was set up twice.
    EntryAlreadySetUp,
}

/// The module controller: it exclusively owns the module under construction
/// and the single mutable insertion cursor.
pub struct LlvmBuilder {
    pub module: Module,
    pub cursor: Option<BlockRef>,
}

impl LlvmBuilder {
    /// Well-formedness: function names are unique, and the cursor, when
    /// positioned, points at an existing block.
    pub open spec fn wf(self) -> bool {
        &&& module_wf(self.module)
        &&& (self.cursor is Some ==> {
            let br = self.cursor->Some_0;
            &&& br.func < self.module.funcs@.len()
            &&& br.block < self.module.funcs@[br.func as int].blocks@.len()
        })
    }

    /// Whether the cursor is positioned at a block.
    pub open spec fn positioned(self) -> bool {
        self.cursor is Some
    }

    /// The block the cursor is positioned at.
    pub open spec fn cur(self) -> BlockRef {
        self.cursor->Some_0
    }

    /// The current insertion block.
    pub open spec fn cur_block(self) -> Block {
        self.module.funcs@[self.cur().func as int].blocks@[self.cur().block as int]
    }

    /// Whether an instruction may be built at the cursor: positioned at a
    /// block that is not yet finished by a terminator.
    pub open spec fn can_insert(self) -> bool {
        &&& self.wf()
        &&& self.positioned()
        &&& self.cur_block().term is None
    }

    /// Whether `v` may stand as an operand at the cursor: it was produced
    /// before the point of use, in the block under construction or as a
    /// constant or an existing global of this module. Function handles are
    /// not data operands.
    pub open spec fn operand_ok(self, v: Value) -> bool {
        match v {
            Value::ConstInt { .. } => true,
            Value::GlobalStrPtr { global } => global < self.module.globals@.len(),
            Value::Inst { func, block, inst } => {
                &&& self.cursor == Some(BlockRef { func, block })
                &&& inst < self.cur_block().instrs@.len()
            },
            Value::Func { .. } => false,
        }
    }

    /// Creates a fresh, empty module of the given name, with the cursor
    /// not yet positioned anywhere.
    pub fn new(module_name: &str) -> (r: LlvmBuilder)
        ensures
            r.wf(),
            r.module.name@ == module_name@,
            r.module.funcs@.len() == 0,
            r.module.globals@.len() == 0,
            r.cursor is None,
    {
        LlvmBuilder {
            module: Module {
                name: module_name.to_owned(),
                funcs: Vec::new(),
                globals: Vec::new(),
            },
            cursor: None,
        }
    }

    /// The index of the function registered under `name`, if any.
    fn find_fn(&self, name: &str) -> (r: Option<usize>)
        ensures
            match r {
                Some(i) => {
                    &&& i < self.module.funcs@.len()
                    &&& self.module.funcs@[i as int].name@ == name@
                },
                None => !fn_named(self.module, name@),
            },
    {
        let owned: String = name.to_owned();
        let n = self.module.funcs.len();
        for i in 0..n
            invariant
                n == self.module.funcs@.len(),
                forall|k: int| 0 <= k < i ==> self.module.funcs@[k].name@ != name@,
                owned@ == name@,
        {
            if self.module.funcs[i].name == owned {
                return Some(i);
            }
        }
        None
    }

    /// Looks a function up by name; `None` when no function of that name
    /// was ever declared.
    pub fn get_named_function(&mut self, name: &str) -> (r: Option<Value>)
        ensures
            *final(self) == *old(self),
            match r {
                Some(v) => {
                    &&& v matches Value::Func { func }
                    &&& func < old(self).module.funcs@.len()
                    &&& old(self).module.funcs@[func as int].name@ == name@
                },
                None => !fn_named(old(self).module, name@),
            },
    {
        match self.find_fn(name) {
            Some(i) => Some(Value::Func { func: i }),
            None => None,
        }
    }
}

/// What declaring a function under `name` does: when the name is already
/// registered, the module is unchanged and the existing handle `f` is
/// retrieved; otherwise one new, blockless function with the given
/// signature is appended at index `f`.
pub open spec fn declare_post(
    pre: LlvmBuilder,
    post: LlvmBuilder,
    ret: Ty,
    params: Seq<Ty>,
    name: Seq<char>,
    variadic: bool,
    f: int,
) -> bool {
    if fn_named(pre.module, name) {
        &&& post == pre
        &&& 0 <= f < post.module.funcs@.len()
        &&& post.module.funcs@[f].name@ == name
    } else {
        &&& post.module.funcs@.len() == pre.module.funcs@.len() + 1
        &&& f == pre.module.funcs@.len()
        &&& post.module.funcs@ =~= pre.module.funcs@.push(post.module.funcs@[f])
        &&& post.module.funcs@[f].name@ == name
        &&& post.module.funcs@[f].ret == ret
        &&& post.module.funcs@[f].params@ == params
        &&& post.module.funcs@[f].variadic == variadic
        &&& post.module.funcs@[f].blocks@.len() == 0
        &&& post.module.name == pre.module.name
        &&& post.module.globals == pre.module.globals
        &&& post.cursor == pre.cursor
    }
}

impl LlvmBuilder {
    /// Declares or retrieves a function: a name-keyed lookup-or-create.
    fn declare_or_get(
        &mut self,
        ret_type: Ty,
        args: Vec<Ty>,
        fn_name: &str,
        variadic: bool,
    ) -> (r: usize)
        requires
            old(self).wf(),
        ensures
            final(self).wf(),
            declare_post(*old(self), *final(self), ret_type, args@, fn_name@, variadic, r as int),
    {
        match self.find_fn(fn_name) {
            Some(i) => i,
            None => {
                let f = self.module.funcs.len();
                let func = Function {
                    name: fn_name.to_owned(),
                    ret: ret_type,
                    params: args,
                    variadic,
                    blocks: Vec::new(),
                };
                self.module.funcs.push(func);
                proof {
                    assert forall|i: int, j: int|
                        0 <= i < j < self.module.funcs@.len() implies self.module.funcs@[i].name@
                        != self.module.funcs@[j].name@ by {
                        if j == f as int {
                            assert(!fn_named(old(self).module, fn_name@));
                            assert(old(self).module.funcs@[i].name@ != fn_name@);
                        }
                    }
                }
                f
            },
        }
    }

    /// Builds a (non-variadic) function type from a return type and an
    /// ordered parameter-type list and registers it under `fn_name` in the
    /// module, retrieving the existing handle when the name is already
    /// registered.
    pub fn add_function(&mut self, ret_type: Ty, args: Vec<Ty>, fn_name: &str) -> (r: Value)
        requires
            old(self).wf(),
        ensures
            final(self).wf(),
            r matches Value::Func { func } && declare_post(
                *old(self),
                *final(self),
                ret_type,
                args@,
                fn_name@,
                false,
                func as int,
            ),
    {
        let f = self.declare_or_get(ret_type, args, fn_name, false);
        Value::Func { func: f }
    }

    /// Declares a variadic host function: one or more fixed leading
    /// parameters, then any number of further arguments. Name-keyed
    /// lookup-or-create, as `add_function`.
    pub fn add_variadic_function(
        &mut self,
        ret_type: Ty,
        args: Vec<Ty>,
        fn_name: &str,
    ) -> (r: Value)
        requires
            old(self).wf(),
        ensures
            final(self).wf(),
            r matches Value::Func { func } && declare_post(
                *old(self),
                *final(self),
                ret_type,
                args@,
                fn_name@,
                true,
                func as int,
            ),
    {
        let f = self.declare_or_get(ret_type, args, fn_name, true);
        Value::Func { func: f }
    }
}

/// The two functions agree on name and signature.
pub open spec fn fn_sig_same(f1: Function, f2: Function) -> bool {
    &&& f2.name == f1.name
    &&& f2.ret == f1.ret
    &&& f2.params == f1.params
    &&& f2.variadic == f1.variadic
}

/// `post` is `pre` with exactly `k` instructions appended to the block the
/// cursor is positioned at, and nothing else changed.
pub open spec fn appended_instrs(pre: LlvmBuilder, post: LlvmBuilder, k: nat) -> bool {
    let br = pre.cur();
    let fpre = pre.module.funcs@[br.func as int];
    let fpost = post.module.funcs@[br.func as int];
    let bpre = pre.cur_block();
    let bpost = post.cur_block();
    &&& post.cursor == pre.cursor
    &&& post.module.name == pre.module.name
    &&& post.module.globals == pre.module.globals
    &&& post.module.funcs@.len() == pre.module.funcs@.len()
    &&& forall|i: int|
        0 <= i < pre.module.funcs@.len() && i != br.func as int ==> post.module.funcs@[i]
            == pre.module.funcs@[i]
    &&& fn_sig_same(fpre, fpost)
    &&& fpost.blocks@.len() == fpre.blocks@.len()
    &&& forall|j: int|
        0 <= j < fpre.blocks@.len() && j != br.block as int ==> fpost.blocks@[j] == fpre.blocks@[j]
    &&& bpost.label == bpre.label
    &&& bpost.term == bpre.term
    &&& bpost.instrs@.len() == bpre.instrs@.len() + k
    &&& forall|i: int| 0 <= i < bpre.instrs@.len() ==> bpost.instrs@[i] == bpre.instrs@[i]
}

/// `post` is `pre` with the block at the cursor finished by terminator `t`,
/// and nothing else changed.
pub open spec fn finished_block(pre: LlvmBuilder, post: LlvmBuilder, t: Term) -> bool {
    let br = pre.cur();
    let fpre = pre.module.funcs@[br.func as int];
    let fpost = post.module.funcs@[br.func as int];
    let bpre = pre.cur_block();
    let bpost = post.cur_block();
    &&& post.cursor == pre.cursor
    &&& post.module.name == pre.module.name
    &&& post.module.globals == pre.module.globals
    &&& post.module.funcs@.len() == pre.module.funcs@.len()
    &&& forall|i: int|
        0 <= i < pre.module.funcs@.len() && i != br.func as int ==> post.module.funcs@[i]
            == pre.module.funcs@[i]
    &&& fn_sig_same(fpre, fpost)
    &&& fpost.blocks@.len() == fpre.blocks@.len()
    &&& forall|j: int|
        0 <= j < fpre.blocks@.len() && j != br.block as int ==> fpost.blocks@[j] == fpre.blocks@[j]
    &&& bpost.label == bpre.label
    &&& bpost.instrs == bpre.instrs
    &&& bpost.term == Some(t)
}

impl LlvmBuilder {
    /// Looks the function up by name and appends a new block with the given
    /// label to it. Fails, leaving the builder untouched, when no function
    /// of that name exists: appending never silently creates a function.
    pub fn append_basic_block(&mut self, function_name: &str, name: &str) -> (r: Result<
        BlockRef,
        BuildError,
    >)
        requires
            old(self).wf(),
        ensures
            final(self).wf(),
            r is Ok <==> fn_named(old(self).module, function_name@),
            r matches Err(e) ==> *final(self) == *old(self) && e == BuildError::FunctionNotDeclared,
            r matches Ok(br) ==> ({
                let fpre = old(self).module.funcs@[br.func as int];
                let fpost = final(self).module.funcs@[br.func as int];
                &&& br.func < old(self).module.funcs@.len()
                &&& fpre.name@ == function_name@
                &&& br.block == fpre.blocks@.len()
                &&& final(self).module.name == old(self).module.name
                &&& final(self).module.globals == old(self).module.globals
                &&& final(self).module.funcs@.len() == old(self).module.funcs@.len()
                &&& forall|i: int|
                    0 <= i < old(self).module.funcs@.len() && i != br.func as int ==> final(self).module.funcs@[i] == old(self).module.funcs@[i]
                &&& fn_sig_same(fpre, fpost)
                &&& fpost.blocks@.len() == fpre.blocks@.len() + 1
                &&& forall|j: int| 0 <= j < fpre.blocks@.len() ==> fpost.blocks@[j] == fpre.blocks@[j]
                &&& fpost.blocks@[br.block as int].label@ == name@
                &&& fpost.blocks@[br.block as int].instrs@.len() == 0
                &&& fpost.blocks@[br.block as int].term is None
                &&& final(self).cursor == old(self).cursor
            }),
    {
        match self.find_fn(function_name) {
            None => Err(BuildError::FunctionNotDeclared),
            Some(f) => {
                let b = self.module.funcs[f].blocks.len();
                let blk = Block { label: name.to_owned(), instrs: Vec::new(), term: None };
                self.module.funcs[f].blocks.push(blk);
                proof {
                    assert(fn_named(old(self).module, function_name@));
                }
                Ok(BlockRef { func: f, block: b })
            },
        }
    }

    /// Moves the single insertion cursor to the end of the given block; all
    /// later instruction-building calls target this block until the cursor
    /// is repositioned.
    pub fn end_basic_block(&mut self, block: BlockRef)
        requires
            old(self).wf(),
            block.func < old(self).module.funcs@.len(),
            block.block < old(self).module.funcs@[block.func as int].blocks@.len(),
        ensures
            final(self).wf(),
            final(self).module == old(self).module,
            final(self).cursor == Some(block),
    {
        self.cursor = Some(block);
    }

    /// Allocates one stack slot for `llvm_type`, stores a constant of
    /// `value` into it, and immediately loads it back, returning the loaded
    /// value: a full store+load round trip modeling a true mutable local.
    pub fn create_variable(&mut self, name: &str, value: u64, llvm_type: Ty) -> (r: Value)
        requires
            old(self).can_insert(),
            llvm_type matches Ty::Scalar(_),
        ensures
            final(self).can_insert(),
            appended_instrs(*old(self), *final(self), 3),
            ({
                let br = old(self).cur();
                let n = old(self).cur_block().instrs@.len() as int;
                let t = llvm_type->Scalar_0;
                let slot = Value::Inst { func: br.func, block: br.block, inst: n as usize };
                let ins = final(self).cur_block().instrs@;
                &&& (ins[n] matches Instr::Alloca { ty, name: nm } && ty == t && nm@ == name@)
                &&& ins[n + 1] == (Instr::Store {
                    src: Value::ConstInt { ty: t, val: value },
                    dst: slot,
                })
                &&& (ins[n + 2] matches Instr::Load { src, name: nm } && src == slot && nm@
                    == name@)
                &&& r == (Value::Inst { func: br.func, block: br.block, inst: (n + 2) as usize })
            }),
            final(self).operand_ok(r),
    {
        let br = match self.cursor {
            Some(b) => b,
            None => unreached(),
        };
        let t = match llvm_type {
            Ty::Scalar(s) => s,
            Ty::Ptr(_) => unreached(),
        };
        let f = br.func;
        let b = br.block;
        let n = self.module.funcs[f].blocks[b].instrs.len();
        let slot = Value::Inst { func: f, block: b, inst: n };
        self.module.funcs[f].blocks[b].instrs.push(
            Instr::Alloca { ty: t, name: name.to_owned() },
        );
        self.module.funcs[f].blocks[b].instrs.push(
            Instr::Store { src: Value::ConstInt { ty: t, val: value }, dst: slot },
        );
        self.module.funcs[f].blocks[b].instrs.push(
            Instr::Load { src: slot, name: name.to_owned() },
        );
        let len = self.module.funcs[f].blocks[b].instrs.len();
        Value::Inst { func: f, block: b, inst: len - 1 }
    }

    /// Builds a multiply instruction combining two previously produced
    /// values, naming the result for readability in dumps.
    pub fn multiple_variable(&mut self, var_a: Value, var_b: Value, name: &str) -> (r: Value)
        requires
            old(self).can_insert(),
            old(self).operand_ok(var_a),
            old(self).operand_ok(var_b),
        ensures
            final(self).can_insert(),
            appended_instrs(*old(self), *final(self), 1),
            ({
                let br = old(self).cur();
                let n = old(self).cur_block().instrs@.len() as int;
                let ins = final(self).cur_block().instrs@;
                &&& (ins[n] matches Instr::Mul { lhs, rhs, name: nm } && lhs == var_a && rhs
                    == var_b && nm@ == name@)
                &&& r == (Value::Inst { func: br.func, block: br.block, inst: n as usize })
            }),
            final(self).operand_ok(r),
    {
        let br = match self.cursor {
            Some(b) => b,
            None => unreached(),
        };
        let f = br.func;
        let b = br.block;
        let n = self.module.funcs[f].blocks[b].instrs.len();
        self.module.funcs[f].blocks[b].instrs.push(
            Instr::Mul { lhs: var_a, rhs: var_b, name: name.to_owned() },
        );
        Value::Inst { func: f, block: b, inst: n }
    }

    /// Builds the block's terminator returning `res`; after this call the
    /// active block is finished and no further instruction may be built
    /// into it.
    pub fn return_variable(&mut self, res: Value)
        requires
            old(self).can_insert(),
            old(self).operand_ok(res),
        ensures
            final(self).wf(),
            finished_block(*old(self), *final(self), Term::Ret { val: res }),
    {
        let br = match self.cursor {
            Some(b) => b,
            None => unreached(),
        };
        self.module.funcs[br.func].blocks[br.block].term = Some(Term::Ret { val: res });
    }

    /// Builds a call instruction passing the given ordered argument values.
    /// Argument count and types beyond the callee's fixed parameters are the
    /// caller's responsibility; no variadic type-checking happens here.
    pub fn build_call(&mut self, callee: Value, args: Vec<Value>, name: &str) -> (r: Value)
        requires
            old(self).can_insert(),
            callee matches Value::Func { func } && func < old(self).module.funcs@.len(),
            forall|i: int| 0 <= i < args@.len() ==> old(self).operand_ok(#[trigger] args@[i]),
        ensures
            final(self).can_insert(),
            appended_instrs(*old(self), *final(self), 1),
            ({
                let br = old(self).cur();
                let n = old(self).cur_block().instrs@.len() as int;
                let ins = final(self).cur_block().instrs@;
                &&& (ins[n] matches Instr::Call { callee: c, args: a, name: nm } && callee
                    == (Value::Func { func: c }) && a@ == args@ && nm@ == name@)
                &&& r == (Value::Inst { func: br.func, block: br.block, inst: n as usize })
            }),
            final(self).operand_ok(r),
    {
        let br = match self.cursor {
            Some(b) => b,
            None => unreached(),
        };
        let c = match callee {
            Value::Func { func } => func,
            _ => unreached(),
        };
        let f = br.func;
        let b = br.block;
        let n = self.module.funcs[f].blocks[b].instrs.len();
        self.module.funcs[f].blocks[b].instrs.push(
            Instr::Call { callee: c, args, name: name.to_owned() },
        );
        Value::Inst { func: f, block: b, inst: n }
    }

    /// Declares the program's entry function `main` (no parameters, 32-bit
    /// integer return), appends its `entry` block, and positions the cursor
    /// there. Setting the entry point up twice is rejected, leaving the
    /// builder untouched.
    pub fn setup_main(&mut self) -> (r: Result<(), BuildError>)
        requires
            old(self).wf(),
        ensures
            final(self).wf(),
            r is Ok <==> !fn_named(old(self).module, "main"@),
            r matches Err(e) ==> *final(self) == *old(self) && e == BuildError::EntryAlreadySetUp,
            r is Ok ==> ({
                let f = old(self).module.funcs@.len() as int;
                let mf = final(self).module.funcs@[f];
                &&& final(self).module.funcs@.len() == f + 1
                &&& forall|i: int|
                    0 <= i < f ==> final(self).module.funcs@[i] == old(self).module.funcs@[i]
                &&& mf.name@ == "main"@
                &&& mf.ret == Ty::Scalar(ScalarTy::Int32)
                &&& mf.params@.len() == 0
                &&& !mf.variadic
                &&& mf.blocks@.len() == 1
                &&& mf.blocks@[0].label@ == "entry"@
                &&& mf.blocks@[0].instrs@.len() == 0
                &&& mf.blocks@[0].term is None
                &&& final(self).module.name == old(self).module.name
                &&& final(self).module.globals == old(self).module.globals
                &&& final(self).cursor == Some(BlockRef { func: f as usize, block: 0 })
                &&& final(self).can_insert()
            }),
    {
        match self.find_fn("main") {
            Some(i) => {
                proof {
                    assert(self.module.funcs@[i as int].name@ == "main"@);
                    assert(fn_named(self.module, "main"@));
                }
                Err(BuildError::EntryAlreadySetUp)
            },
            None => {
                let ghost pre = *self;
                let fv = self.add_function(int32_type(), Vec::new(), "main");
                let ghost mid = *self;
                match self.append_basic_block("main", "entry") {
                    Ok(br) => {
                        proof {
                            assert(mid.module.funcs@[pre.module.funcs@.len() as int].name@
                                == "main"@);
                            assert(br.func < mid.module.funcs@.len());
                            lemma_declare_function_idempotent(
                                mid.module,
                                br.func as int,
                                pre.module.funcs@.len() as int,
                                "main"@,
                            );
                        }
                        self.end_basic_block(br);
                        Ok(())
                    },
                    Err(_) => unreached(),
                }
            },
        }
    }
}

/// Declaring a name that a well-formed module already holds can only
/// retrieve one handle: name-keyed lookup is deterministic, so declaring
/// the same name twice returns the same handle.
pub proof fn lemma_declare_function_idempotent(m: Module, r1: int, r2: int, name: Seq<char>)
    requires
        module_wf(m),
        0 <= r1 < m.funcs@.len(),
        m.funcs@[r1].name@ == name,
        0 <= r2 < m.funcs@.len(),
        m.funcs@[r2].name@ == name,
    ensures
        r1 == r2,
{
    if r1 < r2 {
        assert(m.funcs@[r1].name@ != m.funcs@[r2].name@);
    }
    if r2 < r1 {
        assert(m.funcs@[r2].name@ != m.funcs@[r1].name@);
    }
}

/// Materializes `input_str` as constant byte data (with the terminating
/// zero the backend's string-constant primitive appends), wraps it in a new
/// anonymous private-linkage global, and returns a byte pointer to its
/// start, directly usable as a call argument.
pub fn codegen_string(lb: &mut LlvmBuilder, input_str: &str) -> (r: Value)
    requires
        old(lb).wf(),
    ensures
        final(lb).wf(),
        final(lb).cursor == old(lb).cursor,
        final(lb).module.name == old(lb).module.name,
        final(lb).module.funcs == old(lb).module.funcs,
        final(lb).module.globals@.len() == old(lb).module.globals@.len() + 1,
        forall|i: int|
            0 <= i < old(lb).module.globals@.len() ==> final(lb).module.globals@[i] == old(lb).module.globals@[i],
        final(lb).module.globals@[old(lb).module.globals@.len() as int].bytes@
            == input_str.spec_bytes() + seq![0u8],
        r == (Value::GlobalStrPtr { global: old(lb).module.globals@.len() as usize }),
        final(lb).operand_ok(r),
{
    let g = lb.module.globals.len();
    let mut bytes = slice_to_vec(input_str.as_bytes());
    bytes.push(0u8);
    lb.module.globals.push(GlobalStr { bytes });
    Value::GlobalStrPtr { global: g }
}

/// The external-call facility: declares the host's formatted-output routine
/// and builds an example call to it.
pub struct BuilderFunctions {}

impl BuilderFunctions {
    /// Declares the variadic host function `printf` (one fixed byte-pointer
    /// parameter for the format string, 32-bit integer return), retrieving
    /// the existing handle when the name is already registered.
    pub fn create_printf(&mut self, lb: &mut LlvmBuilder) -> (r: Value)
        requires
            old(lb).wf(),
        ensures
            final(lb).wf(),
            r matches Value::Func { func } && declare_post(
                *old(lb),
                *final(lb),
                Ty::Scalar(ScalarTy::Int32),
                seq![Ty::Ptr(ScalarTy::Int8)],
                "printf"@,
                true,
                func as int,
            ),
    {
        let mut params: Vec<Ty> = Vec::new();
        params.push(Ty::Ptr(ScalarTy::Int8));
        lb.add_variadic_function(Ty::Scalar(ScalarTy::Int32), params, "printf")
    }

    /// Declares `printf`, materializes the constant format string `"%d\n"`,
    /// and builds a call passing that format string and the literal 32-bit
    /// integer 15 into the block at the cursor.
    pub fn set_up(&mut self, lb: &mut LlvmBuilder)
        requires
            old(lb).can_insert(),
        ensures
            final(lb).can_insert(),
            final(lb).cursor == old(lb).cursor,
            final(lb).module.name == old(lb).module.name,
            final(lb).module.globals@.len() == old(lb).module.globals@.len() + 1,
            forall|i: int|
                0 <= i < old(lb).module.globals@.len() ==> final(lb).module.globals@[i] == old(lb).module.globals@[i],
            final(lb).module.globals@[old(lb).module.globals@.len() as int].bytes@
                == "%d\n".spec_bytes() + seq![0u8],
            ({
                let br = old(lb).cur();
                let fpre = old(lb).module.funcs@[br.func as int];
                let fpost = final(lb).module.funcs@[br.func as int];
                &&& old(lb).module.funcs@.len() <= final(lb).module.funcs@.len() <= old(lb).module.funcs@.len() + 1
                &&& forall|i: int|
                    0 <= i < old(lb).module.funcs@.len() && i != br.func as int ==> final(lb).module.funcs@[i] == old(lb).module.funcs@[i]
                &&& fn_sig_same(fpre, fpost)
                &&& fpost.blocks@.len() == fpre.blocks@.len()
                &&& forall|j: int|
                    0 <= j < fpre.blocks@.len() && j != br.block as int ==> fpost.blocks@[j]
                        == fpre.blocks@[j]
            }),
            ({
                let br = old(lb).cur();
                let n = old(lb).cur_block().instrs@.len() as int;
                let g = old(lb).module.globals@.len() as int;
                let bpre = old(lb).cur_block();
                let bpost = final(lb).cur_block();
                &&& bpost.label == bpre.label
                &&& bpost.term == bpre.term
                &&& bpost.instrs@.len() == n + 1
                &&& forall|i: int| 0 <= i < n ==> bpost.instrs@[i] == bpre.instrs@[i]
                &&& (bpost.instrs@[n] matches Instr::Call { callee, args, name } && {
                    let cf = final(lb).module.funcs@[callee as int];
                    &&& callee < final(lb).module.funcs@.len()
                    &&& cf.name@ == "printf"@
                    &&& args@ == seq![
                        Value::GlobalStrPtr { global: g as usize },
                        Value::ConstInt { ty: ScalarTy::Int32, val: 15 },
                    ]
                    &&& name@ == Seq::<char>::empty()
                    &&& !fn_named(old(lb).module, "printf"@) ==> {
                        &&& cf.variadic
                        &&& cf.params@ == seq![Ty::Ptr(ScalarTy::Int8)]
                        &&& cf.ret == Ty::Scalar(ScalarTy::Int32)
                        &&& cf.blocks@.len() == 0
                    }
                })
            }),
    {
        let print = self.create_printf(lb);
        let fmt = codegen_string(lb, "%d\n");
        let mut printf_args: Vec<Value> = Vec::new();
        printf_args.push(fmt);
        printf_args.push(Value::ConstInt { ty: ScalarTy::Int32, val: 15 });
        proof {
            reveal_strlit("");
            assert(""@ =~= Seq::<char>::empty());
            assert(printf_args@ =~= seq![
                Value::GlobalStrPtr { global: old(lb).module.globals@.len() as usize },
                Value::ConstInt { ty: ScalarTy::Int32, val: 15 },
            ]);
        }
        lb.build_call(print, printf_args, "");
    }
}

} // verus!

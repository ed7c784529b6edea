//! The textual rendering of a module: a human-readable dump of its
//! constant-string globals, function declarations and definitions, and the
//! instructions of every block, in a fixed, deterministic format.

use vstd::prelude::*;
use vstd::string::StringExecFns;
use crate::ir::{Block, Instr, Module, ScalarTy, Term, Ty, Value};
use crate::builder::LlvmBuilder;

verus! {

/// The character for hex digit `d` (also used for decimal digits).
pub open spec fn hex_char(d: int) -> char {
    if d == 0 {
        '0'
    } else if d == 1 {
        '1'
    } else if d == 2 {
        '2'
    } else if d == 3 {
        '3'
    } else if d == 4 {
        '4'
    } else if d == 5 {
        '5'
    } else if d == 6 {
        '6'
    } else if d == 7 {
        '7'
    } else if d == 8 {
        '8'
    } else if d == 9 {
        '9'
    } else if d == 10 {
        'A'
    } else if d == 11 {
        'B'
    } else if d == 12 {
        'C'
    } else if d == 13 {
        'D'
    } else if d == 14 {
        'E'
    } else if d == 15 {
        'F'
    } else {
        '?'
    }
}

/// The decimal rendering of `n`, most significant digit first.
pub open spec fn spec_dec(n: int) -> Seq<char>
    decreases n,
{
    if n < 0 {
        Seq::empty()
    } else if n < 10 {
        seq![hex_char(n)]
    } else {
        spec_dec(n / 10) + seq![hex_char(n % 10)]
    }
}

/// The bytes `bs[k..]`, each rendered as a three-character `\XX` hex escape.
pub open spec fn spec_bytes_hex(bs: Seq<u8>, k: int) -> Seq<char>
    decreases bs.len() - k,
{
    if k < 0 || k >= bs.len() {
        Seq::empty()
    } else {
        seq!['\\', hex_char(bs[k] as int / 16), hex_char(bs[k] as int % 16)] + spec_bytes_hex(
            bs,
            k + 1,
        )
    }
}

/// The rendering of a value type.
pub open spec fn spec_ty(t: Ty) -> Seq<char> {
    match t {
        Ty::Scalar(ScalarTy::Int8) => "i8"@,
        Ty::Scalar(ScalarTy::Int32) => "i32"@,
        Ty::Ptr(ScalarTy::Int8) => "i8*"@,
        Ty::Ptr(ScalarTy::Int32) => "i32*"@,
    }
}

/// A trailing comment carrying a nonempty result name.
pub open spec fn spec_name_cmt(n: Seq<char>) -> Seq<char> {
    if n.len() == 0 {
        Seq::empty()
    } else {
        " ; "@ + n
    }
}

/// The rendering of an operand.
pub open spec fn spec_value(v: Value) -> Seq<char> {
    match v {
        Value::ConstInt { ty, val } => spec_ty(Ty::Scalar(ty)) + " "@ + spec_dec(val as int),
        Value::GlobalStrPtr { global } => "i8* @g"@ + spec_dec(global as int),
        Value::Inst { inst, .. } => "%"@ + spec_dec(inst as int),
        Value::Func { func } => "@f"@ + spec_dec(func as int),
    }
}

/// The comma-separated rendering of the arguments `args[k..]`.
pub open spec fn spec_args(args: Seq<Value>, k: int) -> Seq<char>
    decreases args.len() - k,
{
    if k < 0 || k >= args.len() {
        Seq::empty()
    } else if k == args.len() - 1 {
        spec_value(args[k])
    } else {
        spec_value(args[k]) + ", "@ + spec_args(args, k + 1)
    }
}

/// The comma-separated rendering of the parameter types `ps[k..]`.
pub open spec fn spec_params(ps: Seq<Ty>, k: int) -> Seq<char>
    decreases ps.len() - k,
{
    if k < 0 || k >= ps.len() {
        Seq::empty()
    } else if k == ps.len() - 1 {
        spec_ty(ps[k])
    } else {
        spec_ty(ps[k]) + ", "@ + spec_params(ps, k + 1)
    }
}

/// The rendering of a signature's parameter list, with the variadic marker.
pub open spec fn spec_sig(ps: Seq<Ty>, variadic: bool) -> Seq<char> {
    spec_params(ps, 0) + (if variadic {
        if ps.len() == 0 {
            "..."@
        } else {
            ", ..."@
        }
    } else {
        Seq::empty()
    })
}

/// The rendering of one instruction, standing at index `i` of its block.
pub open spec fn spec_instr(m: Module, i: int, ins: Instr) -> Seq<char> {
    match ins {
        Instr::Alloca { ty, name } => "  %"@ + spec_dec(i) + " = alloca "@ + spec_ty(
            Ty::Scalar(ty),
        ) + spec_name_cmt(name@) + "\n"@,
        Instr::Store { src, dst } => "  store "@ + spec_value(src) + ", "@ + spec_value(dst)
            + "\n"@,
        Instr::Load { src, name } => "  %"@ + spec_dec(i) + " = load "@ + spec_value(src)
            + spec_name_cmt(name@) + "\n"@,
        Instr::Mul { lhs, rhs, name } => "  %"@ + spec_dec(i) + " = mul "@ + spec_value(lhs)
            + ", "@ + spec_value(rhs) + spec_name_cmt(name@) + "\n"@,
        Instr::Call { callee, args, name } => "  %"@ + spec_dec(i) + " = call @"@ + (if (
        callee as int) < m.funcs@.len() {
            m.funcs@[callee as int].name@
        } else {
            "?"@
        }) + "("@ + spec_args(args@, 0) + ")"@ + spec_name_cmt(name@) + "\n"@,
    }
}

/// The rendering of the instructions `instrs[k..]`, one line each.
pub open spec fn spec_instrs(m: Module, instrs: Seq<Instr>, k: int) -> Seq<char>
    decreases instrs.len() - k,
{
    if k < 0 || k >= instrs.len() {
        Seq::empty()
    } else {
        spec_instr(m, k, instrs[k]) + spec_instrs(m, instrs, k + 1)
    }
}

/// The rendering of a block's terminator; an unfinished block renders none.
pub open spec fn spec_term(t: Option<Term>) -> Seq<char> {
    match t {
        None => Seq::empty(),
        Some(Term::Ret { val }) => "  ret "@ + spec_value(val) + "\n"@,
    }
}

/// The rendering of one basic block: its label, instructions, terminator.
pub open spec fn spec_block(m: Module, b: Block) -> Seq<char> {
    b.label@ + ":\n"@ + spec_instrs(m, b.instrs@, 0) + spec_term(b.term)
}

/// The rendering of the blocks `blocks[k..]`.
pub open spec fn spec_blocks(m: Module, blocks: Seq<Block>, k: int) -> Seq<char>
    decreases blocks.len() - k,
{
    if k < 0 || k >= blocks.len() {
        Seq::empty()
    } else {
        spec_block(m, blocks[k]) + spec_blocks(m, blocks, k + 1)
    }
}

/// The rendering of the function at index `k` of the module: a `declare`
/// line for an external declaration (no blocks), a `define` body otherwise.
pub open spec fn spec_function(m: Module, k: int) -> Seq<char> {
    let f = m.funcs@[k];
    if f.blocks@.len() == 0 {
        "declare "@ + spec_ty(f.ret) + " @"@ + f.name@ + "("@ + spec_sig(f.params@, f.variadic)
            + ")\n"@
    } else {
        "define "@ + spec_ty(f.ret) + " @"@ + f.name@ + "("@ + spec_sig(f.params@, f.variadic)
            + ") {\n"@ + spec_blocks(m, f.blocks@, 0) + "}\n"@
    }
}

/// The rendering of the functions from index `k` on.
pub open spec fn spec_functions(m: Module, k: int) -> Seq<char>
    decreases m.funcs@.len() - k,
{
    if k < 0 || k >= m.funcs@.len() {
        Seq::empty()
    } else {
        spec_function(m, k) + spec_functions(m, k + 1)
    }
}

/// The rendering of the constant-string globals from index `k` on.
pub open spec fn spec_globals(m: Module, k: int) -> Seq<char>
    decreases m.globals@.len() - k,
{
    if k < 0 || k >= m.globals@.len() {
        Seq::empty()
    } else {
        "@g"@ + spec_dec(k) + " = private constant c\""@ + spec_bytes_hex(m.globals@[k].bytes@, 0)
            + "\"\n"@ + spec_globals(m, k + 1)
    }
}

/// The rendering of the whole module.
pub open spec fn spec_render_module(m: Module) -> Seq<char> {
    "; ModuleID = '"@ + m.name@ + "'\n"@ + spec_globals(m, 0) + spec_functions(m, 0)
}

/// The one-character string for hex digit `d`.
fn hex_str(d: u8) -> (s: &'static str)
    requires
        d < 16,
    ensures
        s@ == seq![hex_char(d as int)],
{
    proof {
        reveal_strlit("0");
        reveal_strlit("1");
        reveal_strlit("2");
        reveal_strlit("3");
        reveal_strlit("4");
        reveal_strlit("5");
        reveal_strlit("6");
        reveal_strlit("7");
        reveal_strlit("8");
        reveal_strlit("9");
        reveal_strlit("A");
        reveal_strlit("B");
        reveal_strlit("C");
        reveal_strlit("D");
        reveal_strlit("E");
        reveal_strlit("F");
    }
    match d {
        0 => "0",
        1 => "1",
        2 => "2",
        3 => "3",
        4 => "4",
        5 => "5",
        6 => "6",
        7 => "7",
        8 => "8",
        9 => "9",
        10 => "A",
        11 => "B",
        12 => "C",
        13 => "D",
        14 => "E",
        _ => "F",
    }
}

/// The decimal rendering of `n`.
fn dec_str(n: u64) -> (s: String)
    ensures
        s@ == spec_dec(n as int),
    decreases n,
{
    if n < 10 {
        hex_str(n as u8).to_owned()
    } else {
        let mut s = dec_str(n / 10);
        s.append(hex_str((n % 10) as u8));
        s
    }
}

/// The `\XX` hex escapes of the bytes `bs[k..]`.
fn bytes_hex(bs: &Vec<u8>, k: usize) -> (s: String)
    requires
        k <= bs@.len(),
    ensures
        s@ == spec_bytes_hex(bs@, k as int),
    decreases bs@.len() - k,
{
    if k == bs.len() {
        String::new()
    } else {
        proof {
            reveal_strlit("\\");
        }
        let b = bs[k];
        let mut s = "\\".to_owned();
        s.append(hex_str(b / 16));
        s.append(hex_str(b % 16));
        let rest = bytes_hex(bs, k + 1);
        s.append(rest.as_str());
        proof {
            assert(s@ =~= seq!['\\', hex_char(bs@[k as int] as int / 16), hex_char(
                bs@[k as int] as int % 16,
            )] + spec_bytes_hex(bs@, k as int + 1));
        }
        s
    }
}

/// The rendering of a value type.
fn ty_str(t: Ty) -> (s: &'static str)
    ensures
        s@ == spec_ty(t),
{
    match t {
        Ty::Scalar(ScalarTy::Int8) => "i8",
        Ty::Scalar(ScalarTy::Int32) => "i32",
        Ty::Ptr(ScalarTy::Int8) => "i8*",
        Ty::Ptr(ScalarTy::Int32) => "i32*",
    }
}

/// Appends the trailing name comment for a nonempty result name.
fn append_name_cmt(s: &mut String, name: &String)
    ensures
        final(s)@ == old(s)@ + spec_name_cmt(name@),
{
    if name.as_str().unicode_len() > 0 {
        s.append(" ; ");
        s.append(name.as_str());
    } else {
        proof {
            assert(old(s)@ + spec_name_cmt(name@) =~= old(s)@);
        }
    }
}

/// The rendering of an operand.
fn value_str(v: Value) -> (s: String)
    ensures
        s@ == spec_value(v),
{
    match v {
        Value::ConstInt { ty, val } => {
            let mut s = ty_str(Ty::Scalar(ty)).to_owned();
            s.append(" ");
            let d = dec_str(val);
            s.append(d.as_str());
            s
        },
        Value::GlobalStrPtr { global } => {
            let mut s = "i8* @g".to_owned();
            let d = dec_str(global as u64);
            s.append(d.as_str());
            s
        },
        Value::Inst { inst, .. } => {
            let mut s = "%".to_owned();
            let d = dec_str(inst as u64);
            s.append(d.as_str());
            s
        },
        Value::Func { func } => {
            let mut s = "@f".to_owned();
            let d = dec_str(func as u64);
            s.append(d.as_str());
            s
        },
    }
}

/// The comma-separated rendering of `args[k..]`.
fn args_str(args: &Vec<Value>, k: usize) -> (s: String)
    requires
        k <= args@.len(),
    ensures
        s@ == spec_args(args@, k as int),
    decreases args@.len() - k,
{
    if k == args.len() {
        String::new()
    } else if k == args.len() - 1 {
        value_str(args[k])
    } else {
        let mut s = value_str(args[k]);
        s.append(", ");
        let rest = args_str(args, k + 1);
        s.append(rest.as_str());
        s
    }
}

/// The comma-separated rendering of `ps[k..]`.
fn params_str(ps: &Vec<Ty>, k: usize) -> (s: String)
    requires
        k <= ps@.len(),
    ensures
        s@ == spec_params(ps@, k as int),
    decreases ps@.len() - k,
{
    if k == ps.len() {
        String::new()
    } else if k == ps.len() - 1 {
        ty_str(ps[k]).to_owned()
    } else {
        let mut s = ty_str(ps[k]).to_owned();
        s.append(", ");
        let rest = params_str(ps, k + 1);
        s.append(rest.as_str());
        s
    }
}

/// The rendering of a signature's parameter list with the variadic marker.
fn sig_str(ps: &Vec<Ty>, variadic: bool) -> (s: String)
    ensures
        s@ == spec_sig(ps@, variadic),
{
    let mut s = params_str(ps, 0);
    if variadic {
        if ps.len() == 0 {
            s.append("...");
        } else {
            s.append(", ...");
        }
    } else {
        proof {
            assert(s@ + Seq::<char>::empty() =~= s@);
        }
    }
    s
}

/// The rendering of one instruction at index `i` of its block.
fn instr_str(m: &Module, i: usize, ins: &Instr) -> (s: String)
    ensures
        s@ == spec_instr(*m, i as int, *ins),
{
    match ins {
        Instr::Alloca { ty, name } => {
            let mut s = "  %".to_owned();
            let d = dec_str(i as u64);
            s.append(d.as_str());
            s.append(" = alloca ");
            s.append(ty_str(Ty::Scalar(*ty)));
            append_name_cmt(&mut s, name);
            s.append("\n");
            s
        },
        Instr::Store { src, dst } => {
            let mut s = "  store ".to_owned();
            let v1 = value_str(*src);
            s.append(v1.as_str());
            s.append(", ");
            let v2 = value_str(*dst);
            s.append(v2.as_str());
            s.append("\n");
            s
        },
        Instr::Load { src, name } => {
            let mut s = "  %".to_owned();
            let d = dec_str(i as u64);
            s.append(d.as_str());
            s.append(" = load ");
            let v1 = value_str(*src);
            s.append(v1.as_str());
            append_name_cmt(&mut s, name);
            s.append("\n");
            s
        },
        Instr::Mul { lhs, rhs, name } => {
            let mut s = "  %".to_owned();
            let d = dec_str(i as u64);
            s.append(d.as_str());
            s.append(" = mul ");
            let v1 = value_str(*lhs);
            s.append(v1.as_str());
            s.append(", ");
            let v2 = value_str(*rhs);
            s.append(v2.as_str());
            append_name_cmt(&mut s, name);
            s.append("\n");
            s
        },
        Instr::Call { callee, args, name } => {
            let mut s = "  %".to_owned();
            let d = dec_str(i as u64);
            s.append(d.as_str());
            s.append(" = call @");
            if *callee < m.funcs.len() {
                s.append(m.funcs[*callee].name.as_str());
            } else {
                s.append("?");
            }
            s.append("(");
            let a = args_str(args, 0);
            s.append(a.as_str());
            s.append(")");
            append_name_cmt(&mut s, name);
            s.append("\n");
            s
        },
    }
}

/// The rendering of the instructions `instrs[k..]`.
fn instrs_str(m: &Module, instrs: &Vec<Instr>, k: usize) -> (s: String)
    requires
        k <= instrs@.len(),
    ensures
        s@ == spec_instrs(*m, instrs@, k as int),
    decreases instrs@.len() - k,
{
    if k == instrs.len() {
        String::new()
    } else {
        let mut s = instr_str(m, k, &instrs[k]);
        let rest = instrs_str(m, instrs, k + 1);
        s.append(rest.as_str());
        s
    }
}

/// The rendering of one basic block.
fn block_str(m: &Module, b: &Block) -> (s: String)
    ensures
        s@ == spec_block(*m, *b),
{
    let mut s = b.label.clone();
    s.append(":\n");
    let body = instrs_str(m, &b.instrs, 0);
    s.append(body.as_str());
    match &b.term {
        None => {
            proof {
                assert(s@ + Seq::<char>::empty() =~= s@);
            }
        },
        Some(Term::Ret { val }) => {
            s.append("  ret ");
            let v = value_str(*val);
            s.append(v.as_str());
            s.append("\n");
        },
    }
    s
}

/// The rendering of the blocks `blocks[k..]`.
fn blocks_str(m: &Module, blocks: &Vec<Block>, k: usize) -> (s: String)
    requires
        k <= blocks@.len(),
    ensures
        s@ == spec_blocks(*m, blocks@, k as int),
    decreases blocks@.len() - k,
{
    if k == blocks.len() {
        String::new()
    } else {
        let mut s = block_str(m, &blocks[k]);
        let rest = blocks_str(m, blocks, k + 1);
        s.append(rest.as_str());
        s
    }
}

/// The rendering of the functions from index `k` on.
fn functions_str(m: &Module, k: usize) -> (s: String)
    requires
        k <= m.funcs@.len(),
    ensures
        s@ == spec_functions(*m, k as int),
    decreases m.funcs@.len() - k,
{
    if k == m.funcs.len() {
        String::new()
    } else {
        let f = &m.funcs[k];
        let mut s: String;
        if f.blocks.len() == 0 {
            s = "declare ".to_owned();
            s.append(ty_str(f.ret));
            s.append(" @");
            s.append(f.name.as_str());
            s.append("(");
            let sig = sig_str(&f.params, f.variadic);
            s.append(sig.as_str());
            s.append(")\n");
        } else {
            s = "define ".to_owned();
            s.append(ty_str(f.ret));
            s.append(" @");
            s.append(f.name.as_str());
            s.append("(");
            let sig = sig_str(&f.params, f.variadic);
            s.append(sig.as_str());
            s.append(") {\n");
            let body = blocks_str(m, &f.blocks, 0);
            s.append(body.as_str());
            s.append("}\n");
        }
        let rest = functions_str(m, k + 1);
        s.append(rest.as_str());
        s
    }
}

/// The rendering of the constant-string globals from index `k` on.
fn globals_str(m: &Module, k: usize) -> (s: String)
    requires
        k <= m.globals@.len(),
    ensures
        s@ == spec_globals(*m, k as int),
    decreases m.globals@.len() - k,
{
    if k == m.globals.len() {
        String::new()
    } else {
        let mut s = "@g".to_owned();
        let d = dec_str(k as u64);
        s.append(d.as_str());
        s.append(" = private constant c\"");
        let h = bytes_hex(&m.globals[k].bytes, 0);
        s.append(h.as_str());
        s.append("\"\n");
        let rest = globals_str(m, k + 1);
        s.append(rest.as_str());
        s
    }
}

impl LlvmBuilder {
    /// Produces the human-readable textual rendering of the whole module.
    /// Never fails.
    pub fn dump(&self) -> (r: String)
        ensures
            r@ == spec_render_module(self.module),
    {
        let mut s = "; ModuleID = '".to_owned();
        s.append(self.module.name.as_str());
        s.append("'\n");
        let g = globals_str(&self.module, 0);
        s.append(g.as_str());
        let f = functions_str(&self.module, 0);
        s.append(f.as_str());
        s
    }
}

} // verus!

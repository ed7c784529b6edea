use llvm_builder::builder::{codegen_string, BuildError, BuilderFunctions, LlvmBuilder};
use llvm_builder::ir::{int32_type, ScalarTy, Ty, Value};

#[test]
fn new_module_is_empty() {
    let lb = LlvmBuilder::new("my_module");
    assert_eq!(lb.module.funcs.len(), 0);
    assert_eq!(lb.module.globals.len(), 0);
    assert!(lb.cursor.is_none());
}

#[test]
fn declare_function_twice_returns_same_handle() {
    let mut lb = LlvmBuilder::new("my_module");
    let h1 = lb.add_function(int32_type(), Vec::new(), "main");
    let h2 = lb.add_function(int32_type(), Vec::new(), "main");
    assert_eq!(h1, h2);
    assert_eq!(lb.module.funcs.len(), 1);
}

#[test]
fn declare_different_names_gives_distinct_handles() {
    let mut lb = LlvmBuilder::new("my_module");
    let h1 = lb.add_function(int32_type(), Vec::new(), "first");
    let h2 = lb.add_function(int32_type(), Vec::new(), "second");
    assert_ne!(h1, h2);
    assert_eq!(lb.module.funcs.len(), 2);
}

#[test]
fn get_named_function_finds_declared() {
    let mut lb = LlvmBuilder::new("my_module");
    let h = lb.add_function(int32_type(), Vec::new(), "main");
    assert_eq!(lb.get_named_function("main"), Some(h));
    assert_eq!(lb.get_named_function("missing"), None);
}

#[test]
fn append_block_on_undeclared_function_fails() {
    let mut lb = LlvmBuilder::new("my_module");
    let r = lb.append_basic_block("main", "entry");
    assert_eq!(r, Err(BuildError::FunctionNotDeclared));
    // it never silently creates a function
    assert_eq!(lb.module.funcs.len(), 0);
    assert_eq!(lb.get_named_function("main"), None);
}

#[test]
fn append_block_on_declared_function_succeeds() {
    let mut lb = LlvmBuilder::new("my_module");
    lb.add_function(int32_type(), Vec::new(), "main");
    let r = lb.append_basic_block("main", "entry");
    let br = r.expect("appending to a declared function must succeed");
    assert_eq!(br.func, 0);
    assert_eq!(br.block, 0);
    assert_eq!(lb.module.funcs[0].blocks.len(), 1);
    assert_eq!(lb.module.funcs[0].blocks[0].label, "entry");
}

#[test]
fn setup_main_declares_entry_and_positions_cursor() {
    let mut lb = LlvmBuilder::new("my_module");
    assert_eq!(lb.setup_main(), Ok(()));
    assert_eq!(lb.module.funcs.len(), 1);
    assert_eq!(lb.module.funcs[0].name, "main");
    assert_eq!(lb.module.funcs[0].ret, Ty::Scalar(ScalarTy::Int32));
    assert_eq!(lb.module.funcs[0].blocks.len(), 1);
    assert!(lb.cursor.is_some());
}

#[test]
fn setup_main_twice_is_rejected() {
    let mut lb = LlvmBuilder::new("my_module");
    assert_eq!(lb.setup_main(), Ok(()));
    assert_eq!(lb.setup_main(), Err(BuildError::EntryAlreadySetUp));
    // still exactly one function with exactly one block
    assert_eq!(lb.module.funcs.len(), 1);
    assert_eq!(lb.module.funcs[0].blocks.len(), 1);
}

#[test]
fn end_basic_block_repositions_the_cursor() {
    let mut lb = LlvmBuilder::new("my_module");
    lb.add_function(int32_type(), Vec::new(), "main");
    let first = lb.append_basic_block("main", "entry").unwrap();
    let second = lb.append_basic_block("main", "later").unwrap();
    lb.end_basic_block(first);
    assert_eq!(lb.cursor, Some(first));
    lb.end_basic_block(second);
    assert_eq!(lb.cursor, Some(second));
    // instructions now land in the block the cursor points at
    lb.create_variable("a", 1, int32_type());
    assert_eq!(lb.module.funcs[0].blocks[0].instrs.len(), 0);
    assert_eq!(lb.module.funcs[0].blocks[1].instrs.len(), 3);
}

#[test]
fn create_variable_builds_store_load_round_trip() {
    let mut lb = LlvmBuilder::new("my_module");
    lb.setup_main().unwrap();
    let v = lb.create_variable("a", 35, int32_type());
    // alloca, store, load: three instructions, the handle names the load
    assert_eq!(lb.module.funcs[0].blocks[0].instrs.len(), 3);
    assert_eq!(v, Value::Inst { func: 0, block: 0, inst: 2 });
}

#[test]
fn codegen_string_appends_terminated_global() {
    let mut lb = LlvmBuilder::new("my_module");
    let v = codegen_string(&mut lb, "%d\n");
    assert_eq!(v, Value::GlobalStrPtr { global: 0 });
    assert_eq!(lb.module.globals.len(), 1);
    assert_eq!(lb.module.globals[0].bytes, vec![b'%', b'd', b'\n', 0u8]);
}

#[test]
fn create_printf_declares_variadic_host_function() {
    let mut lb = LlvmBuilder::new("my_module");
    let mut bf = BuilderFunctions {};
    let h = bf.create_printf(&mut lb);
    let f = match h {
        Value::Func { func } => func,
        other => panic!("expected a function handle, got {:?}", other),
    };
    assert_eq!(lb.module.funcs[f].name, "printf");
    assert!(lb.module.funcs[f].variadic);
    assert_eq!(lb.module.funcs[f].params, vec![Ty::Ptr(ScalarTy::Int8)]);
    assert_eq!(lb.module.funcs[f].ret, Ty::Scalar(ScalarTy::Int32));
    assert_eq!(lb.module.funcs[f].blocks.len(), 0);
    // declaring it again retrieves the same handle
    assert_eq!(bf.create_printf(&mut lb), h);
}

#[test]
fn set_up_builds_printf_call_with_format_string() {
    let mut lb = LlvmBuilder::new("my_module");
    lb.setup_main().unwrap();
    let mut bf = BuilderFunctions {};
    bf.set_up(&mut lb);
    assert_eq!(lb.module.globals.len(), 1);
    assert_eq!(lb.module.globals[0].bytes, vec![b'%', b'd', b'\n', 0u8]);
    let ins = &lb.module.funcs[0].blocks[0].instrs;
    assert_eq!(ins.len(), 1);
    match &ins[0] {
        llvm_builder::ir::Instr::Call { callee, args, .. } => {
            assert_eq!(lb.module.funcs[*callee].name, "printf");
            assert_eq!(
                args,
                &vec![
                    Value::GlobalStrPtr { global: 0 },
                    Value::ConstInt { ty: ScalarTy::Int32, val: 15 },
                ]
            );
        }
        other => panic!("expected a call instruction, got {:?}", other),
    }
}

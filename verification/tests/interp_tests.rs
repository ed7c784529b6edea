use llvm_builder::builder::{BuildError, BuilderFunctions, LlvmBuilder};
use llvm_builder::interp::InterpError;
use llvm_builder::ir::{int32_type, ScalarTy, Value};

fn product_module(a: u64, b: u64) -> (LlvmBuilder, Value) {
    let mut lb = LlvmBuilder::new("my_module");
    lb.setup_main().unwrap();
    let va = lb.create_variable("a", a, int32_type());
    let vb = lb.create_variable("b", b, int32_type());
    let res = lb.multiple_variable(va, vb, "ab_val");
    lb.return_variable(res);
    let main = lb.get_named_function("main").unwrap();
    (lb, main)
}

#[test]
fn entry_function_returns_product_of_literals() {
    let (lb, main) = product_module(35, 16);
    assert_eq!(lb.run_via_interpreter(main), Ok(560));
}

#[test]
fn product_of_other_literals() {
    let (lb, main) = product_module(7, 6);
    assert_eq!(lb.run_via_interpreter(main), Ok(42));
}

#[test]
fn product_wraps_at_32_bits() {
    let (lb, main) = product_module(0x1_0000, 0x1_0000);
    assert_eq!(lb.run_via_interpreter(main), Ok(0));
}

#[test]
fn product_at_the_32_bit_maximum() {
    let (lb, main) = product_module(0xFFFF_FFFF, 1);
    assert_eq!(lb.run_via_interpreter(main), Ok(0xFFFF_FFFF));
}

#[test]
fn literal_constants_wrap_into_32_bits() {
    // the constant 2^32 + 5 denotes 5 as a 32-bit scalar
    let (lb, main) = product_module(0x1_0000_0005, 1);
    assert_eq!(lb.run_via_interpreter(main), Ok(5));
}

#[test]
fn build_product_program_interprets_to_product() {
    let mut lb = LlvmBuilder::new("my_module");
    let h = lb.build_product_program(35, 16).unwrap();
    assert_eq!(lb.run_via_interpreter(h), Ok(560));
}

#[test]
fn build_product_program_twice_is_rejected() {
    let mut lb = LlvmBuilder::new("my_module");
    lb.build_product_program(35, 16).unwrap();
    assert_eq!(lb.build_product_program(2, 3), Err(BuildError::EntryAlreadySetUp));
}

#[test]
fn example_program_returns_product() {
    let mut lb = LlvmBuilder::new("my_module");
    let h = lb.build_example_program(35, 16);
    assert_eq!(lb.run_via_interpreter(h), Ok(560));
}

#[test]
fn printf_call_is_accepted_by_the_interpreter() {
    // literals 35 and 16, a formatted print of a literal, then return:
    // the variadic call passes the type and argument-count checks and the
    // function still returns the product.
    let mut lb = LlvmBuilder::new("my_module");
    lb.setup_main().unwrap();
    let va = lb.create_variable("a", 35, int32_type());
    let vb = lb.create_variable("b", 16, int32_type());
    let res = lb.multiple_variable(va, vb, "ab_val");
    let mut bf = BuilderFunctions {};
    bf.set_up(&mut lb);
    lb.return_variable(res);
    let main = lb.get_named_function("main").unwrap();
    assert_eq!(lb.run_via_interpreter(main), Ok(560));
}

#[test]
fn call_with_missing_fixed_argument_is_an_arg_count_error() {
    let mut lb = LlvmBuilder::new("my_module");
    lb.setup_main().unwrap();
    let mut bf = BuilderFunctions {};
    let print = bf.create_printf(&mut lb);
    let c = lb.build_call(print, Vec::new(), "");
    lb.return_variable(c);
    let main = lb.get_named_function("main").unwrap();
    assert_eq!(lb.run_via_interpreter(main), Err(InterpError::ArgCountMismatch));
}

#[test]
fn call_with_wrongly_typed_fixed_argument_is_a_type_error() {
    let mut lb = LlvmBuilder::new("my_module");
    lb.setup_main().unwrap();
    let mut bf = BuilderFunctions {};
    let print = bf.create_printf(&mut lb);
    // an integer where the format-string byte pointer belongs
    let mut args = Vec::new();
    args.push(Value::ConstInt { ty: ScalarTy::Int32, val: 1 });
    let c = lb.build_call(print, args, "");
    lb.return_variable(c);
    let main = lb.get_named_function("main").unwrap();
    assert_eq!(lb.run_via_interpreter(main), Err(InterpError::TypeMismatch));
}

#[test]
fn running_an_unknown_handle_fails() {
    let lb = LlvmBuilder::new("my_module");
    assert_eq!(
        lb.run_via_interpreter(Value::Func { func: 5 }),
        Err(InterpError::NoSuchFunction)
    );
}

#[test]
fn running_an_external_declaration_fails() {
    let mut lb = LlvmBuilder::new("my_module");
    let mut bf = BuilderFunctions {};
    let print = bf.create_printf(&mut lb);
    assert_eq!(lb.run_via_interpreter(print), Err(InterpError::NoEntryBlock));
}

#[test]
fn running_an_unfinished_block_fails() {
    let mut lb = LlvmBuilder::new("my_module");
    lb.setup_main().unwrap();
    let main = lb.get_named_function("main").unwrap();
    assert_eq!(lb.run_via_interpreter(main), Err(InterpError::MissingTerminator));
}

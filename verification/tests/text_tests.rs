use llvm_builder::builder::{BuilderFunctions, LlvmBuilder};
use llvm_builder::ir::int32_type;

#[test]
fn dump_of_empty_module_is_just_the_header() {
    let lb = LlvmBuilder::new("m");
    assert_eq!(lb.dump(), "; ModuleID = 'm'\n");
}

#[test]
fn dump_of_product_program() {
    let mut lb = LlvmBuilder::new("my_module");
    lb.setup_main().unwrap();
    let va = lb.create_variable("a", 35, int32_type());
    let vb = lb.create_variable("b", 16, int32_type());
    let res = lb.multiple_variable(va, vb, "ab_val");
    lb.return_variable(res);
    let expected = "; ModuleID = 'my_module'\n\
        define i32 @main() {\n\
        entry:\n\
        \x20 %0 = alloca i32 ; a\n\
        \x20 store i32 35, %0\n\
        \x20 %2 = load %0 ; a\n\
        \x20 %3 = alloca i32 ; b\n\
        \x20 store i32 16, %3\n\
        \x20 %5 = load %3 ; b\n\
        \x20 %6 = mul %2, %5 ; ab_val\n\
        \x20 ret %6\n\
        }\n";
    assert_eq!(lb.dump(), expected);
}

#[test]
fn dump_renders_declaration_and_escaped_global() {
    let mut lb = LlvmBuilder::new("m");
    lb.setup_main().unwrap();
    let mut bf = BuilderFunctions {};
    bf.set_up(&mut lb);
    let text = lb.dump();
    // "%d\n" plus the terminating zero, each byte as a \XX escape
    assert!(text.contains("@g0 = private constant c\"\\25\\64\\0A\\00\"\n"));
    assert!(text.contains("declare i32 @printf(i8*, ...)\n"));
    assert!(text.contains("%0 = call @printf(i8* @g0, i32 15)\n"));
}

use llvm_value::{Arg, BasicBlock, Call, Context, Function, FunctionType, Handle, Type, Value};

#[test]
fn null_is_no_handle() {
    assert!(Handle::new(0).is_none());
    assert!(Value::from_raw(0).is_none());
    assert!(Function::from_raw(0).is_none());
    assert!(Context::from_raw(0).is_none());
    assert!(Type::from_raw(0).is_none());
    assert!(FunctionType::from_raw(0).is_none());
    assert!(BasicBlock::from_raw(0).is_none());
}

#[test]
fn handle_keeps_the_address() {
    assert_eq!(Handle::new(0xdead0).unwrap().get(), 0xdead0);
    assert_eq!(Value::from_raw(0x10).unwrap().handle(), 0x10);
    assert_eq!(Context::from_raw(0x20).unwrap().handle(), 0x20);
    assert_eq!(Type::from_raw(0x30).unwrap().handle(), 0x30);
    assert_eq!(FunctionType::from_raw(0x40).unwrap().handle(), 0x40);
    assert_eq!(BasicBlock::from_raw(0x50).unwrap().handle(), 0x50);
    assert_eq!(Value::from_raw(usize::MAX).unwrap().handle(), usize::MAX);
}

#[test]
fn equality_is_identity() {
    assert_eq!(Value::from_raw(0x10), Value::from_raw(0x10));
    assert_ne!(Value::from_raw(0x10), Value::from_raw(0x18));
    assert_eq!(BasicBlock::from_raw(0x50), BasicBlock::from_raw(0x50));
}

#[test]
fn new_struct_lists_the_operands_in_order() {
    let context = Context::from_raw(0x100).unwrap();
    let vals = [
        Value::from_raw(0x30).unwrap(),
        Value::from_raw(0x10).unwrap(),
        Value::from_raw(0x20).unwrap(),
    ];
    assert_eq!(
        Value::new_struct(&context, &vals, false),
        Call::ConstStruct { context: 0x100, operands: vec![0x30, 0x10, 0x20], count: 3, packed: 0 }
    );
}

#[test]
fn new_struct_packed_sets_the_flag() {
    let context = Context::from_raw(0x100).unwrap();
    let vals = [Value::from_raw(0x30).unwrap()];
    assert_eq!(
        Value::new_struct(&context, &vals, true),
        Call::ConstStruct { context: 0x100, operands: vec![0x30], count: 1, packed: 1 }
    );
}

#[test]
fn new_struct_of_nothing_is_an_empty_struct() {
    let context = Context::from_raw(0x100).unwrap();
    assert_eq!(
        Value::new_struct(&context, &[], false),
        Call::ConstStruct { context: 0x100, operands: vec![], count: 0, packed: 0 }
    );
}

#[test]
fn get_type_wraps_the_answer() {
    let value = Value::from_raw(0x10).unwrap();
    assert_eq!(value.get_type(0x700), Type::from_raw(0x700).unwrap());
    assert_eq!(value.get_type(0x700).handle(), 0x700);
}

#[test]
fn parameter_and_function_are_values() {
    let function = Function::from_raw(0x1000).unwrap();
    let arg: Arg = function.index(0, 1).resolve(0x2000);
    assert_eq!(function.handle(), 0x1000);
    assert_eq!(arg.handle(), 0x2000);
    assert_eq!(function.as_value(), Value::from_raw(0x1000).unwrap());
    assert_eq!(arg.as_value(), Value::from_raw(0x2000).unwrap());
    assert_eq!(*arg, Value::from_raw(0x2000).unwrap());
    assert_eq!(arg.get_type(0x700).handle(), 0x700);
    assert_eq!(
        arg.set_name("x"),
        Call::SetValueName { value: 0x2000, name: b"x\0".to_vec() }
    );
}

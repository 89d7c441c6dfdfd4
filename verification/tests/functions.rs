use llvm_value::{BasicBlock, Call, Context, Function};

#[test]
fn index_below_the_count_asks_for_that_parameter() {
    let function = Function::from_raw(0x1000).unwrap();
    for i in 0..3usize {
        assert_eq!(
            function.index(i, 3).call(),
            Call::GetParam { function: 0x1000, index: i as u32 }
        );
    }
}

#[test]
fn lookup_resolves_to_the_parameter_the_engine_gave() {
    let function = Function::from_raw(0x1000).unwrap();
    let arg = function.index(1, 2).resolve(0x2008);
    assert_eq!(arg.handle(), 0x2008);
}

#[test]
fn two_lookups_of_one_index_are_the_same() {
    let function = Function::from_raw(0x1000).unwrap();
    let first = function.index(2, 3);
    let second = function.index(2, 5);
    assert_eq!(first, second);
    assert_eq!(first.call(), second.call());
    assert_eq!(first.resolve(0x2010), second.resolve(0x2010));
}

#[test]
fn lookups_of_different_indices_differ() {
    let function = Function::from_raw(0x1000).unwrap();
    assert_ne!(function.index(0, 2), function.index(1, 2));
    assert_ne!(function.index(0, 2).call(), function.index(1, 2).call());
}

#[test]
fn get_is_some_exactly_below_the_count() {
    let function = Function::from_raw(0x1000).unwrap();
    assert_eq!(function.get(0, 3), Some(function.index(0, 3)));
    assert_eq!(function.get(2, 3), Some(function.index(2, 3)));
    assert_eq!(function.get(3, 3), None);
    assert_eq!(function.get(4, 3), None);
    assert_eq!(function.get(usize::MAX, 3), None);
    assert_eq!(function.get(0, 0), None);
    assert_eq!(
        function.get(u32::MAX as usize - 1, u32::MAX).unwrap().call(),
        Call::GetParam { function: 0x1000, index: u32::MAX - 1 }
    );
}

#[test]
fn append_names_context_function_and_block() {
    let function = Function::from_raw(0x1000).unwrap();
    let context = Context::from_raw(0x100).unwrap();
    assert_eq!(
        function.append(&context, "entry"),
        Call::AppendBasicBlock { context: 0x100, function: 0x1000, name: b"entry\0".to_vec() }
    );
}

#[test]
fn fresh_function_has_no_entry() {
    let function = Function::from_raw(0x1000).unwrap();
    assert_eq!(function.get_entry(0), None);
}

#[test]
fn entry_after_one_append_is_the_appended_block() {
    let function = Function::from_raw(0x1000).unwrap();
    let context = Context::from_raw(0x100).unwrap();
    let _call = function.append(&context, "entry");
    let made = BasicBlock::from_raw(0x5000).unwrap();
    assert_eq!(function.get_entry(0x5000), Some(made));
    assert_eq!(function.get_entry(0x5000).unwrap().handle(), made.handle());
}

#[test]
fn signature_is_the_type_of_the_function() {
    let function = Function::from_raw(0x1000).unwrap();
    let signature = function.get_signature(0x700);
    assert_eq!(signature.handle(), 0x700);
    assert_eq!(signature.as_type(), function.get_type(0x700));
}

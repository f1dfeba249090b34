use neon::block::Block;
use neon::opcode::OpCode;
use neon::value::Value;
use neon::vm::InterpretResult;
use neon::vm::VirtualMachine;
use neon::vm::VmError;

fn num(x: f64) -> Value {
    Value::Number(x.to_bits())
}

fn as_f64(v: &Value) -> f64 {
    match v {
        Value::Number(b) => f64::from_bits(*b),
        _ => panic!("expected a number"),
    }
}

#[test]
fn can_create_vm() {
    let vm = VirtualMachine::new();
    assert_eq!(0, vm.ip);
    assert_eq!(0, vm.stack.len());
}

#[test]
fn can_execute_simple_arithmetics() {
    let mut block = Block::new("ZeBlock");

    block.write_constant(num(1.0), 0);
    block.write_constant(num(2.0), 0);
    block.write_op_code(OpCode::Add, 0);
    block.write_constant(num(3.0), 0);
    block.write_op_code(OpCode::Multiply, 0);
    block.write_constant(num(2.0), 0);
    block.write_op_code(OpCode::Subtract, 0);
    block.write_constant(num(2.0), 0);
    block.write_op_code(OpCode::Divide, 0);

    // Pushing throw away value to the stack.
    // This is needed because the Return OpCode will pop a value from the stack and print it.
    block.write_constant(num(0.0), 0);
    block.write_op_code(OpCode::Return, 0);

    let mut vm = VirtualMachine::new();
    let result = vm.run(block);
    assert_eq!(InterpretResult::Success, result);
    assert_eq!(3.5, as_f64(&vm.pop()));
}

#[test]
fn return_surfaces_the_popped_value() {
    let mut block = Block::new("ret");
    block.write_constant(num(7.25), 3);
    block.write_op_code(OpCode::Return, 3);

    let mut vm = VirtualMachine::new();
    assert_eq!(InterpretResult::Success, vm.run(block));
    assert_eq!(1, vm.output.len());
    assert_eq!(7.25, as_f64(&vm.output[0]));
    assert_eq!(0, vm.stack.len());
}

#[test]
fn negate_faults_on_boolean_and_leaves_stack_alone() {
    let mut block = Block::new("neg");
    block.write_op_code(OpCode::True, 0);
    block.write_op_code(OpCode::Negate, 0);

    let mut vm = VirtualMachine::new();
    let result = vm.run(block);
    assert_eq!(InterpretResult::RuntimeError, result);
    assert_eq!(1, vm.stack.len());
    assert!(matches!(vm.stack[0], Value::Boolean(true)));
    assert_eq!(Some(VmError::OperandMustBeNumber), vm.error);
    assert_eq!(Some(0), vm.error_line);
}

#[test]
fn negate_negates_a_number() {
    let mut block = Block::new("neg");
    block.write_constant(num(5.0), 0);
    block.write_op_code(OpCode::Negate, 0);
    block.write_op_code(OpCode::Return, 0);

    let mut vm = VirtualMachine::new();
    assert_eq!(InterpretResult::Success, vm.run(block));
    assert_eq!(-5.0, as_f64(&vm.output[0]));
}

#[test]
fn not_of_nil_and_false_is_true() {
    for build in [OpCode::Nil, OpCode::False] {
        let mut block = Block::new("not");
        block.write_op_code(build, 0);
        block.write_op_code(OpCode::Not, 0);
        block.write_op_code(OpCode::Return, 0);

        let mut vm = VirtualMachine::new();
        assert_eq!(InterpretResult::Success, vm.run(block));
        assert!(matches!(vm.output[0], Value::Boolean(true)));
    }
}

#[test]
fn not_of_zero_is_false() {
    let mut block = Block::new("not");
    block.write_constant(num(0.0), 0);
    block.write_op_code(OpCode::Not, 0);
    block.write_op_code(OpCode::Return, 0);

    let mut vm = VirtualMachine::new();
    assert_eq!(InterpretResult::Success, vm.run(block));
    assert!(matches!(vm.output[0], Value::Boolean(false)));
}

#[test]
fn division_by_zero_yields_infinity() {
    let mut block = Block::new("div");
    block.write_constant(num(1.0), 0);
    block.write_constant(num(0.0), 0);
    block.write_op_code(OpCode::Divide, 0);
    block.write_op_code(OpCode::Return, 0);

    let mut vm = VirtualMachine::new();
    assert_eq!(InterpretResult::Success, vm.run(block));
    assert_eq!(f64::INFINITY, as_f64(&vm.output[0]));
}

#[test]
fn comparisons_order_numbers() {
    for (op, expected) in [(OpCode::Greater, false), (OpCode::Less, true)] {
        let mut block = Block::new("cmp");
        block.write_constant(num(1.0), 0);
        block.write_constant(num(2.0), 0);
        block.write_op_code(op, 0);
        block.write_op_code(OpCode::Return, 0);

        let mut vm = VirtualMachine::new();
        assert_eq!(InterpretResult::Success, vm.run(block));
        assert!(matches!(vm.output[0], Value::Boolean(b) if b == expected));
    }
}

#[test]
fn equal_compares_numbers_by_value() {
    let mut block = Block::new("eq");
    block.write_constant(num(2.0), 0);
    block.write_constant(num(2.0), 0);
    block.write_op_code(OpCode::Equal, 0);
    block.write_op_code(OpCode::Return, 0);

    let mut vm = VirtualMachine::new();
    assert_eq!(InterpretResult::Success, vm.run(block));
    assert!(matches!(vm.output[0], Value::Boolean(true)));
}

#[test]
fn equal_across_variants_is_false() {
    let mut block = Block::new("eq");
    block.write_op_code(OpCode::Nil, 0);
    block.write_op_code(OpCode::False, 0);
    block.write_op_code(OpCode::Equal, 0);
    block.write_op_code(OpCode::Return, 0);

    let mut vm = VirtualMachine::new();
    assert_eq!(InterpretResult::Success, vm.run(block));
    assert!(matches!(vm.output[0], Value::Boolean(false)));
}

#[test]
fn nan_is_not_equal_to_itself() {
    let mut block = Block::new("nan");
    block.write_constant(num(f64::NAN), 0);
    block.write_constant(num(f64::NAN), 0);
    block.write_op_code(OpCode::Equal, 0);
    block.write_op_code(OpCode::Return, 0);

    let mut vm = VirtualMachine::new();
    assert_eq!(InterpretResult::Success, vm.run(block));
    assert!(matches!(vm.output[0], Value::Boolean(false)));
}

#[test]
fn add_concatenates_strings() {
    let mut block = Block::new("cat");
    block.write_string(String::from("foo"), 0);
    block.write_string(String::from("bar"), 0);
    block.write_op_code(OpCode::Add, 0);
    block.write_op_code(OpCode::Return, 0);

    let mut vm = VirtualMachine::new();
    assert_eq!(InterpretResult::Success, vm.run(block));
    assert!(matches!(&vm.output[0], Value::Str(s) if s == "foobar"));
}

#[test]
fn add_faults_on_mixed_operands() {
    let mut block = Block::new("mixed");
    block.write_constant(num(1.0), 0);
    block.write_op_code(OpCode::True, 0);
    block.write_op_code(OpCode::Add, 0);

    let mut vm = VirtualMachine::new();
    assert_eq!(InterpretResult::RuntimeError, vm.run(block));
    assert_eq!(Some(VmError::OperandsMustBeNumbers), vm.error);
}

#[test]
fn print_pops_and_surfaces() {
    let mut block = Block::new("print");
    block.write_string(String::from("hi"), 0);
    block.write_op_code(OpCode::Print, 0);
    block.write_op_code(OpCode::Nil, 0);
    block.write_op_code(OpCode::Return, 0);

    let mut vm = VirtualMachine::new();
    assert_eq!(InterpretResult::Success, vm.run(block));
    assert_eq!(2, vm.output.len());
    assert!(matches!(&vm.output[0], Value::Str(s) if s == "hi"));
    assert!(matches!(vm.output[1], Value::Nil));
}

#[test]
fn global_variables_round_trip() {
    let mut block = Block::new("globals");
    block.write_constant(num(42.0), 0);
    block.write_variable_op(true, String::from("answer"), 0);
    block.write_op_code(OpCode::Pop, 0);
    block.write_variable_op(false, String::from("answer"), 1);
    block.write_op_code(OpCode::Return, 1);

    let mut vm = VirtualMachine::new();
    assert_eq!(InterpretResult::Success, vm.run(block));
    assert_eq!(42.0, as_f64(&vm.output[0]));
}

#[test]
fn later_global_binding_shadows_earlier() {
    let mut block = Block::new("shadow");
    block.write_constant(num(1.0), 0);
    block.write_variable_op(true, String::from("x"), 0);
    block.write_op_code(OpCode::Pop, 0);
    block.write_constant(num(2.0), 1);
    block.write_variable_op(true, String::from("x"), 1);
    block.write_op_code(OpCode::Pop, 1);
    block.write_variable_op(false, String::from("x"), 2);
    block.write_op_code(OpCode::Return, 2);

    let mut vm = VirtualMachine::new();
    assert_eq!(InterpretResult::Success, vm.run(block));
    assert_eq!(2.0, as_f64(&vm.output[0]));
}

#[test]
fn undefined_global_is_a_runtime_error() {
    let mut block = Block::new("undef");
    block.write_variable_op(false, String::from("missing"), 7);

    let mut vm = VirtualMachine::new();
    assert_eq!(InterpretResult::RuntimeError, vm.run(block));
    assert_eq!(Some(VmError::UndefinedVariable), vm.error);
    assert_eq!(Some(7), vm.error_line);
}

#[test]
fn local_slots_store_and_load() {
    let mut block = Block::new("slots");
    block.write_constant(num(1.0), 0);
    block.write_constant(num(9.0), 0);
    block.write_value_op(true, 0, 0);
    block.write_op_code(OpCode::Pop, 0);
    block.write_op_code(OpCode::Return, 0);

    let mut vm = VirtualMachine::new();
    assert_eq!(InterpretResult::Success, vm.run(block));
    assert_eq!(9.0, as_f64(&vm.output[0]));
}

#[test]
fn get_value_pushes_a_copy_of_the_slot() {
    let mut block = Block::new("slots");
    block.write_constant(num(7.0), 0);
    block.write_value_op(false, 0, 0);
    block.write_op_code(OpCode::Return, 0);

    let mut vm = VirtualMachine::new();
    assert_eq!(InterpretResult::Success, vm.run(block));
    assert_eq!(7.0, as_f64(&vm.output[0]));
    assert_eq!(1, vm.stack.len());
    assert_eq!(7.0, as_f64(&vm.stack[0]));
}

#[test]
fn slot_out_of_range_faults() {
    let mut block = Block::new("slots");
    block.write_op_code(OpCode::Nil, 0);
    block.write_value_op(false, 5, 0);

    let mut vm = VirtualMachine::new();
    assert_eq!(InterpretResult::RuntimeError, vm.run(block));
    assert_eq!(Some(VmError::SlotOutOfRange), vm.error);
}

#[test]
fn stack_underflow_faults() {
    let mut block = Block::new("under");
    block.write_op_code(OpCode::Add, 0);

    let mut vm = VirtualMachine::new();
    assert_eq!(InterpretResult::RuntimeError, vm.run(block));
    assert_eq!(Some(VmError::StackUnderflow), vm.error);
}

#[test]
fn running_off_the_end_is_a_decode_fault() {
    let block = Block::new("empty");
    let mut vm = VirtualMachine::new();
    assert_eq!(InterpretResult::RuntimeError, vm.run(block));
    assert_eq!(Some(VmError::DecodeFault), vm.error);
}

#[test]
fn constant_index_out_of_range_faults() {
    let block = Block {
        name: String::from("crafted"),
        instructions: vec![1, 0],
        constants: vec![],
        strings: vec![],
        lines: vec![],
    };
    let mut vm = VirtualMachine::new();
    assert_eq!(InterpretResult::RuntimeError, vm.run(block));
    assert_eq!(Some(VmError::IndexOutOfRange), vm.error);
}

#[test]
fn variable_name_must_be_a_string() {
    let block = Block {
        name: String::from("crafted"),
        instructions: vec![30, 0],
        constants: vec![Value::Number(0)],
        strings: vec![],
        lines: vec![],
    };
    let mut vm = VirtualMachine::new();
    assert_eq!(InterpretResult::RuntimeError, vm.run(block));
    assert_eq!(Some(VmError::BadVariableName), vm.error);
}

#[test]
fn interpret_without_a_block_is_a_compile_error() {
    let mut vm = VirtualMachine::new();
    assert_eq!(InterpretResult::CompileError, vm.interpret(None));
    assert_eq!(0, vm.stack.len());
}

#[test]
fn interpret_resets_state_between_runs() {
    let mut bad = Block::new("bad");
    bad.write_op_code(OpCode::True, 0);
    bad.write_op_code(OpCode::Negate, 0);

    let mut good = Block::new("good");
    good.write_constant(num(1.5), 0);
    good.write_op_code(OpCode::Return, 0);

    let mut vm = VirtualMachine::new();
    assert_eq!(InterpretResult::RuntimeError, vm.interpret(Some(bad)));
    assert_eq!(InterpretResult::Success, vm.interpret(Some(good)));
    assert_eq!(0, vm.stack.len());
    assert_eq!(1, vm.output.len());
    assert_eq!(1.5, as_f64(&vm.output[0]));
    assert_eq!(None, vm.error);
}

#[test]
fn push_pop_and_peek() {
    let mut vm = VirtualMachine::new();
    vm.push(num(1.0));
    vm.push(Value::Boolean(true));
    assert!(matches!(vm.peek(0), Value::Boolean(true)));
    assert_eq!(1.0, as_f64(&vm.peek(1)));
    assert!(matches!(vm.pop(), Value::Boolean(true)));
    assert_eq!(1.0, as_f64(&vm.pop()));
    assert_eq!(0, vm.stack.len());
}

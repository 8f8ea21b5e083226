use compiler_backend::ir::{BinaryOperation, Function, Instruction, Module, Type, Value};

fn empty(name: &str) -> Function {
    Function::new(name.to_string(), Type::Unsigned(4))
}

#[test]
fn add_of_two_literals_on_empty_function() {
    let mut f = empty("f");
    let v = f.binary_op(BinaryOperation::Add, Value::Unsigned(3), Value::Unsigned(4));
    assert_eq!(v, Value::Allocated(0));
    assert_eq!(
        f.assembly,
        vec![Instruction::BinaryOp(0, BinaryOperation::Add, Value::Unsigned(3), Value::Unsigned(4))]
    );
    assert_eq!(f.assembly[0].to_string(), "%0 = add 3, 4");
}

#[test]
fn left_deep_chain_stays_in_one_slot() {
    let mut f = empty("chain");
    let mut acc = f.binary_op(BinaryOperation::Add, Value::Unsigned(1), Value::Unsigned(2));
    for i in 0..100u128 {
        acc = f.binary_op(BinaryOperation::Multiply, acc, Value::Unsigned(i));
        assert_eq!(acc, Value::Allocated(0));
    }
    // slot 0 is live, so the next independent value gets slot 1, not 101
    let other = f.binary_op(BinaryOperation::Add, Value::Unsigned(5), Value::Unsigned(6));
    assert_eq!(other, Value::Allocated(1));
}

#[test]
fn left_deep_chain_over_computed_operands() {
    let mut f = empty("chain");
    let mut acc = f.binary_op(BinaryOperation::Add, Value::Unsigned(1), Value::Unsigned(2));
    for i in 0..50u128 {
        let fresh = f.binary_op(BinaryOperation::Subtract, Value::Unsigned(i), Value::Integer(-1));
        assert_eq!(fresh, Value::Allocated(1));
        acc = f.binary_op(BinaryOperation::BitwiseXor, acc, fresh);
        assert_eq!(acc, Value::Allocated(0));
    }
}

#[test]
fn output_reuses_a_consumed_operand_slot() {
    let mut f = empty("g");
    let a = f.binary_op(BinaryOperation::Add, Value::Unsigned(1), Value::Unsigned(2));
    let b = f.binary_op(BinaryOperation::Add, Value::Unsigned(3), Value::Unsigned(4));
    let c = f.binary_op(BinaryOperation::Add, Value::Unsigned(5), Value::Unsigned(6));
    assert_eq!((&a, &b, &c), (&Value::Allocated(0), &Value::Allocated(1), &Value::Allocated(2)));
    let d = f.binary_op(BinaryOperation::Divide, c, b);
    assert_eq!(d, Value::Allocated(1));
    let e = f.binary_op(BinaryOperation::Add, Value::Unsigned(7), Value::Unsigned(8));
    assert_eq!(e, Value::Allocated(2));
}

#[test]
fn no_two_live_values_share_a_slot() {
    let mut f = empty("h");
    let mut held: Vec<Value> = Vec::new();
    for i in 0..40u128 {
        let v = if held.len() >= 2 && i % 3 == 0 {
            let rhs = held.pop().unwrap();
            let lhs = held.remove(0);
            f.binary_op(BinaryOperation::ShiftLeft, lhs, rhs)
        } else {
            f.binary_op(BinaryOperation::Add, Value::Unsigned(i), Value::Unsigned(1))
        };
        assert!(!held.contains(&v));
        held.push(v);
    }
}

#[test]
fn allocate_and_drop_directly() {
    let mut f = empty("k");
    assert_eq!(f.allocate(), 0);
    assert_eq!(f.allocate(), 1);
    f.drop(0);
    assert_eq!(f.allocate(), 0);
    assert_eq!(f.allocate(), 2);
    assert!(f.assembly.is_empty());
}

#[test]
fn value_text() {
    assert_eq!(Value::Allocated(12).to_string(), "%12");
    assert_eq!(Value::Unsigned(0).to_string(), "0");
    assert_eq!(Value::Unsigned(u128::MAX).to_string(), "340282366920938463463374607431768211455");
    assert_eq!(Value::Integer(-42).to_string(), "-42");
    assert_eq!(Value::Integer(i128::MIN).to_string(), "-170141183460469231731687303715884105728");
    assert_eq!(Value::Integer(i128::MAX).to_string(), "170141183460469231731687303715884105727");
}

#[test]
fn type_text() {
    assert_eq!(Type::Void.to_string(), "void");
    assert_eq!(Type::Unsigned(1).to_string(), "u8");
    assert_eq!(Type::Integer(16).to_string(), "i128");
    assert_eq!(Type::Unsigned(u16::MAX).to_string(), "u524280");
}

#[test]
fn operation_mnemonics() {
    let all = [
        (BinaryOperation::Add, "add"),
        (BinaryOperation::Subtract, "sub"),
        (BinaryOperation::Multiply, "mul"),
        (BinaryOperation::Divide, "div"),
        (BinaryOperation::DivisionRemainder, "rem"),
        (BinaryOperation::BitwiseAnd, "and"),
        (BinaryOperation::BitwiseOr, "or"),
        (BinaryOperation::BitwiseXor, "xor"),
        (BinaryOperation::LogicalAnd, "land"),
        (BinaryOperation::LogicalOr, "lor"),
        (BinaryOperation::ShiftLeft, "shl"),
        (BinaryOperation::ShiftRight, "shr"),
    ];
    for (op, text) in all {
        assert_eq!(op.to_string(), text);
    }
}

#[test]
fn instruction_text() {
    let i = Instruction::BinaryOp(3, BinaryOperation::LogicalOr, Value::Allocated(1), Value::Integer(-7));
    assert_eq!(i.to_string(), "%3 = lor %1, -7");
    assert_eq!(Instruction::Return(Value::Allocated(0)).to_string(), "return %0");
}

fn sample_module() -> Module {
    let mut m = Module::default();
    let mut f = Function::new("main".to_string(), Type::Integer(8));
    let a = f.binary_op(BinaryOperation::Add, Value::Unsigned(3), Value::Unsigned(4));
    let b = f.binary_op(BinaryOperation::ShiftRight, a, Value::Integer(1));
    f.assembly.push(Instruction::Return(b));
    m.functions.push(f);
    m.functions.push(Function::new("nothing".to_string(), Type::Void));
    m
}

#[test]
fn function_and_module_text() {
    let m = sample_module();
    let main_text = "function main() -> i64:\n    %0 = add 3, 4\n    %0 = shr %0, 1\n    return %0\n";
    assert_eq!(m.functions[0].to_string(), main_text);
    assert_eq!(m.functions[1].to_string(), "function nothing() -> void:\n");
    assert_eq!(m.to_string(), format!("{main_text}function nothing() -> void:\n"));
}

#[test]
fn rendering_twice_gives_the_same_text() {
    let m = sample_module();
    let first = m.to_string();
    let second = m.to_string();
    assert_eq!(first, second);
    assert_eq!(Module::default().to_string(), "");
}

use neon::block::Block;
use neon::block::LineSpan;
use neon::disasm::disassemble_block;
use neon::disasm::disassemble_instruction;
use neon::opcode::OpCode;
use neon::token::Token;
use neon::token::TokenType;
use neon::value::Value;
use neon::value::concat_strings;
use neon::value::values_equal;
use neon::vm::InterpretResult;
use neon::vm::VirtualMachine;

fn num(x: f64) -> Value {
    Value::Number(x.to_bits())
}

#[test]
fn width_selection_round_trip() {
    let mut block = Block::new("widths");
    for i in 0..65537u64 {
        block.write_constant(num(i as f64), 0);
    }
    let views = disassemble_block(&block);
    assert_eq!(65537, views.len());

    // pool of 1 entry: 1-byte operand
    assert_eq!(OpCode::Constant, views[0].op);
    assert_eq!(Some(0), views[0].operand);
    assert_eq!(2, views[0].size);

    // index 255 still fits one byte; 256 needs two
    assert_eq!(OpCode::Constant, views[255].op);
    assert_eq!(Some(255), views[255].operand);
    assert_eq!(2, views[255].size);
    assert_eq!(OpCode::Constant2, views[256].op);
    assert_eq!(Some(256), views[256].operand);
    assert_eq!(3, views[256].size);

    // index 65535 still fits two bytes; 65536 needs four
    assert_eq!(OpCode::Constant2, views[65535].op);
    assert_eq!(Some(65535), views[65535].operand);
    assert_eq!(3, views[65535].size);
    assert_eq!(OpCode::Constant4, views[65536].op);
    assert_eq!(Some(65536), views[65536].operand);
    assert_eq!(5, views[65536].size);
}

#[test]
fn line_map_covers_every_offset() {
    let mut block = Block::new("lines");
    block.write_op_code(OpCode::Nil, 0);
    block.write_op_code(OpCode::Pop, 0);
    block.write_constant(num(1.0), 2);
    block.write_op_code(OpCode::Pop, 2);
    block.write_op_code(OpCode::Nil, 2);
    block.write_op_code(OpCode::Return, 4);

    // offsets: 0 Nil, 1 Pop, 2..=3 Constant (operand byte at 3), 4 Pop, 5 Nil, 6 Return
    assert_eq!(Some(0), block.get_line(0));
    assert_eq!(Some(0), block.get_line(1));
    assert_eq!(Some(2), block.get_line(2));
    assert_eq!(Some(2), block.get_line(3));
    assert_eq!(Some(2), block.get_line(4));
    assert_eq!(Some(2), block.get_line(5));
    assert_eq!(Some(4), block.get_line(6));
    // the line map is run-length encoded: three runs, not six entries
    assert_eq!(3, block.lines.len());
    assert_eq!(LineSpan { line: 0, start: 0 }, block.lines[0]);
    assert_eq!(LineSpan { line: 2, start: 2 }, block.lines[1]);
    assert_eq!(LineSpan { line: 4, start: 6 }, block.lines[2]);
}

#[test]
fn get_line_on_an_empty_map_is_none() {
    let block = Block::new("empty");
    assert_eq!(None, block.get_line(0));
}

#[test]
fn decoder_agreement_with_executed_advance() {
    // every instruction's consumed byte count, as the disassembler
    // walks it, equals the machine's instruction-pointer advance
    let mut block = Block::new("advance");
    block.write_op_code(OpCode::Nil, 0);
    block.write_constant(num(1.0), 0);
    block.write_string(String::from("s"), 0);
    block.write_op_code(OpCode::Pop, 0);
    block.write_op_code(OpCode::Pop, 0);
    block.write_op_code(OpCode::Return, 1);

    let views = disassemble_block(&block);
    let return_offset = views.last().unwrap().offset;

    let mut vm = VirtualMachine::new();
    assert_eq!(InterpretResult::Success, vm.run(block));
    // the machine halted on Return without advancing past it, after
    // advancing by exactly the disassembled size of everything before
    assert_eq!(return_offset, vm.ip);
}

#[test]
fn disassembly_chains_offsets_and_sizes() {
    let mut block = Block::new("chain");
    block.write_op_code(OpCode::True, 0);
    block.write_variable_op(true, String::from("x"), 0);
    block.write_value_op(false, 3, 1);
    block.write_op_code(OpCode::Return, 2);

    let views = disassemble_block(&block);
    assert_eq!(4, views.len());
    let mut expected_offset = 0;
    for v in &views {
        assert_eq!(expected_offset, v.offset);
        expected_offset += v.size;
    }
    assert_eq!(OpCode::SetVariable, views[1].op);
    assert!(matches!(&views[1].constant, Some(Value::Str(s)) if s == "x"));
    assert_eq!(OpCode::GetValue, views[2].op);
    assert_eq!(Some(3), views[2].operand);
    assert!(views[2].constant.is_none());
}

#[test]
fn disassembly_marks_repeated_lines() {
    let mut block = Block::new("lines");
    block.write_op_code(OpCode::Nil, 5);
    block.write_op_code(OpCode::Pop, 5);
    block.write_op_code(OpCode::Nil, 6);

    let views = disassemble_block(&block);
    assert_eq!(Some(5), views[0].line);
    assert!(!views[0].line_repeated);
    assert!(views[1].line_repeated);
    assert_eq!(Some(6), views[2].line);
    assert!(!views[2].line_repeated);
}

#[test]
fn disassembly_stops_at_an_unknown_opcode() {
    let block = Block {
        name: String::from("crafted"),
        instructions: vec![9, 200],
        constants: vec![],
        strings: vec![],
        lines: vec![],
    };
    let views = disassemble_block(&block);
    assert_eq!(1, views.len());
    assert_eq!(OpCode::Nil, views[0].op);
    assert!(disassemble_instruction(&block, 1).is_none());
}

#[test]
fn truncated_operand_is_rejected() {
    // a Constant2 opcode that claims two operand bytes with only one left
    let block = Block {
        name: String::from("crafted"),
        instructions: vec![2, 0],
        constants: vec![],
        strings: vec![],
        lines: vec![],
    };
    assert!(disassemble_instruction(&block, 0).is_none());
}

#[test]
fn operand_readers_check_bounds() {
    let mut block = Block::new("reads");
    block.write_op_code(OpCode::Nil, 0);
    block.write_op_code(OpCode::True, 0);
    assert_eq!(Some(9), block.read_u8(0));
    assert_eq!(Some(10), block.read_u8(1));
    assert_eq!(None, block.read_u8(2));
    assert_eq!(Some(9 + 256 * 10), block.read_u16(0));
    assert_eq!(None, block.read_u16(1));
    assert_eq!(None, block.read_u32(0));
}

#[test]
fn little_endian_operands() {
    let block = Block {
        name: String::from("crafted"),
        instructions: vec![0x01, 0x02, 0x03, 0x04],
        constants: vec![],
        strings: vec![],
        lines: vec![],
    };
    assert_eq!(Some(0x0201), block.read_u16(0));
    assert_eq!(Some(0x04030201), block.read_u32(0));
}

#[test]
fn pool_lookups_check_bounds() {
    let mut block = Block::new("pools");
    block.write_constant(num(1.0), 0);
    block.write_string(String::from("s"), 0);
    assert!(block.read_constant(0).is_some());
    assert!(block.read_constant(1).is_none());
    assert!(matches!(block.read_string(0), Some(s) if s == "s"));
    assert!(block.read_string(1).is_none());
}

#[test]
fn value_equality_rules() {
    assert!(values_equal(&num(2.0), &num(2.0)));
    assert!(values_equal(&num(0.0), &num(-0.0)));
    assert!(!values_equal(&num(f64::NAN), &num(f64::NAN)));
    assert!(values_equal(&Value::Nil, &Value::Nil));
    assert!(!values_equal(&Value::Nil, &Value::Boolean(false)));
    assert!(values_equal(
        &Value::Str(String::from("a")),
        &Value::Str(String::from("a")),
    ));
    assert!(!values_equal(
        &Value::Str(String::from("a")),
        &Value::Str(String::from("b")),
    ));
}

#[test]
fn concat_strings_joins_text() {
    let joined = concat_strings(&String::from("ab"), &String::from("cd"));
    assert_eq!("abcd", joined.as_str());
}

#[test]
fn value_dup_copies() {
    let v = Value::Str(String::from("text"));
    let w = v.dup();
    assert!(values_equal(&v, &w));
    assert!(v.truthy());
    assert!(!Value::Nil.truthy());
    assert!(!Value::Boolean(false).truthy());
    assert!(num(0.0).truthy());
}

#[test]
fn opcode_bytes_round_trip() {
    for b in 0..=32u8 {
        let op = OpCode::from_byte(b).unwrap();
        assert_eq!(b, op.to_byte());
    }
    assert!(OpCode::from_byte(33).is_none());
    assert!(OpCode::from_byte(255).is_none());
}

#[test]
fn token_construction() {
    let t = Token::new(TokenType::Number, String::from("42"), 3, 1);
    assert_eq!(TokenType::Number, t.token_type);
    assert_eq!("42", t.token.as_str());
    assert_eq!(3, t.start);
    assert_eq!(1, t.line);
}

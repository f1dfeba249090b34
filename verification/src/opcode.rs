//! The closed instruction vocabulary and its byte encoding.
//!
//! Opcode byte values form a contiguous, stable enumeration. Instructions
//! that reference a pool entry come in three variants whose operand is an
//! index 1, 2 or 4 bytes wide; the opcode byte alone determines how many
//! operand bytes follow it.

use vstd::prelude::*;

verus! {

#[derive(Clone, Copy, Debug, PartialEq, Eq, Structural)]
pub enum OpCode {
    Return,
    Constant,
    Constant2,
    Constant4,
    Negate,
    Add,
    Subtract,
    Multiply,
    Divide,
    Nil,
    True,
    False,
    Equal,
    Greater,
    Less,
    Not,
    Str,
    Str2,
    Str4,
    Print,
    Pop,
    SetValue,
    SetValue2,
    SetValue4,
    SetVariable,
    SetVariable2,
    SetVariable4,
    GetValue,
    GetValue2,
    GetValue4,
    GetVariable,
    GetVariable2,
    GetVariable4,
}

/// The byte that encodes each opcode.
pub open spec fn spec_opcode_byte(op: OpCode) -> u8 {
    match op {
        OpCode::Return => 0,
        OpCode::Constant => 1,
        OpCode::Constant2 => 2,
        OpCode::Constant4 => 3,
        OpCode::Negate => 4,
        OpCode::Add => 5,
        OpCode::Subtract => 6,
        OpCode::Multiply => 7,
        OpCode::Divide => 8,
        OpCode::Nil => 9,
        OpCode::True => 10,
        OpCode::False => 11,
        OpCode::Equal => 12,
        OpCode::Greater => 13,
        OpCode::Less => 14,
        OpCode::Not => 15,
        OpCode::Str => 16,
        OpCode::Str2 => 17,
        OpCode::Str4 => 18,
        OpCode::Print => 19,
        OpCode::Pop => 20,
        OpCode::SetValue => 21,
        OpCode::SetValue2 => 22,
        OpCode::SetValue4 => 23,
        OpCode::SetVariable => 24,
        OpCode::SetVariable2 => 25,
        OpCode::SetVariable4 => 26,
        OpCode::GetValue => 27,
        OpCode::GetValue2 => 28,
        OpCode::GetValue4 => 29,
        OpCode::GetVariable => 30,
        OpCode::GetVariable2 => 31,
        OpCode::GetVariable4 => 32,
    }
}

/// The opcode a byte decodes to, if any.
pub open spec fn spec_opcode_of_byte(b: u8) -> Option<OpCode> {
    if b == 0 {
        Some(OpCode::Return)
    } else if b == 1 {
        Some(OpCode::Constant)
    } else if b == 2 {
        Some(OpCode::Constant2)
    } else if b == 3 {
        Some(OpCode::Constant4)
    } else if b == 4 {
        Some(OpCode::Negate)
    } else if b == 5 {
        Some(OpCode::Add)
    } else if b == 6 {
        Some(OpCode::Subtract)
    } else if b == 7 {
        Some(OpCode::Multiply)
    } else if b == 8 {
        Some(OpCode::Divide)
    } else if b == 9 {
        Some(OpCode::Nil)
    } else if b == 10 {
        Some(OpCode::True)
    } else if b == 11 {
        Some(OpCode::False)
    } else if b == 12 {
        Some(OpCode::Equal)
    } else if b == 13 {
        Some(OpCode::Greater)
    } else if b == 14 {
        Some(OpCode::Less)
    } else if b == 15 {
        Some(OpCode::Not)
    } else if b == 16 {
        Some(OpCode::Str)
    } else if b == 17 {
        Some(OpCode::Str2)
    } else if b == 18 {
        Some(OpCode::Str4)
    } else if b == 19 {
        Some(OpCode::Print)
    } else if b == 20 {
        Some(OpCode::Pop)
    } else if b == 21 {
        Some(OpCode::SetValue)
    } else if b == 22 {
        Some(OpCode::SetValue2)
    } else if b == 23 {
        Some(OpCode::SetValue4)
    } else if b == 24 {
        Some(OpCode::SetVariable)
    } else if b == 25 {
        Some(OpCode::SetVariable2)
    } else if b == 26 {
        Some(OpCode::SetVariable4)
    } else if b == 27 {
        Some(OpCode::GetValue)
    } else if b == 28 {
        Some(OpCode::GetValue2)
    } else if b == 29 {
        Some(OpCode::GetValue4)
    } else if b == 30 {
        Some(OpCode::GetVariable)
    } else if b == 31 {
        Some(OpCode::GetVariable2)
    } else if b == 32 {
        Some(OpCode::GetVariable4)
    } else {
        None
    }
}

/// How many operand bytes follow the opcode byte: 0 for the simple
/// instructions, 1, 2 or 4 for the pool-indexed width variants.
pub open spec fn spec_operand_width(op: OpCode) -> int {
    match op {
        OpCode::Constant => 1,
        OpCode::Constant2 => 2,
        OpCode::Constant4 => 4,
        OpCode::Str => 1,
        OpCode::Str2 => 2,
        OpCode::Str4 => 4,
        OpCode::SetValue => 1,
        OpCode::SetValue2 => 2,
        OpCode::SetValue4 => 4,
        OpCode::SetVariable => 1,
        OpCode::SetVariable2 => 2,
        OpCode::SetVariable4 => 4,
        OpCode::GetValue => 1,
        OpCode::GetValue2 => 2,
        OpCode::GetValue4 => 4,
        OpCode::GetVariable => 1,
        OpCode::GetVariable2 => 2,
        OpCode::GetVariable4 => 4,
        _ => 0,
    }
}

/// The total encoded length of an instruction: opcode byte plus operand.
pub open spec fn spec_instr_size(op: OpCode) -> int {
    1 + spec_operand_width(op)
}

impl OpCode {
    pub fn to_byte(self) -> (b: u8)
        ensures
            b == spec_opcode_byte(self),
    {
        match self {
            OpCode::Return => 0,
            OpCode::Constant => 1,
            OpCode::Constant2 => 2,
            OpCode::Constant4 => 3,
            OpCode::Negate => 4,
            OpCode::Add => 5,
            OpCode::Subtract => 6,
            OpCode::Multiply => 7,
            OpCode::Divide => 8,
            OpCode::Nil => 9,
            OpCode::True => 10,
            OpCode::False => 11,
            OpCode::Equal => 12,
            OpCode::Greater => 13,
            OpCode::Less => 14,
            OpCode::Not => 15,
            OpCode::Str => 16,
            OpCode::Str2 => 17,
            OpCode::Str4 => 18,
            OpCode::Print => 19,
            OpCode::Pop => 20,
            OpCode::SetValue => 21,
            OpCode::SetValue2 => 22,
            OpCode::SetValue4 => 23,
            OpCode::SetVariable => 24,
            OpCode::SetVariable2 => 25,
            OpCode::SetVariable4 => 26,
            OpCode::GetValue => 27,
            OpCode::GetValue2 => 28,
            OpCode::GetValue4 => 29,
            OpCode::GetVariable => 30,
            OpCode::GetVariable2 => 31,
            OpCode::GetVariable4 => 32,
        }
    }

    pub fn from_byte(b: u8) -> (r: Option<OpCode>)
        ensures
            r == spec_opcode_of_byte(b),
    {
        if b == 0 {
            Some(OpCode::Return)
        } else if b == 1 {
            Some(OpCode::Constant)
        } else if b == 2 {
            Some(OpCode::Constant2)
        } else if b == 3 {
            Some(OpCode::Constant4)
        } else if b == 4 {
            Some(OpCode::Negate)
        } else if b == 5 {
            Some(OpCode::Add)
        } else if b == 6 {
            Some(OpCode::Subtract)
        } else if b == 7 {
            Some(OpCode::Multiply)
        } else if b == 8 {
            Some(OpCode::Divide)
        } else if b == 9 {
            Some(OpCode::Nil)
        } else if b == 10 {
            Some(OpCode::True)
        } else if b == 11 {
            Some(OpCode::False)
        } else if b == 12 {
            Some(OpCode::Equal)
        } else if b == 13 {
            Some(OpCode::Greater)
        } else if b == 14 {
            Some(OpCode::Less)
        } else if b == 15 {
            Some(OpCode::Not)
        } else if b == 16 {
            Some(OpCode::Str)
        } else if b == 17 {
            Some(OpCode::Str2)
        } else if b == 18 {
            Some(OpCode::Str4)
        } else if b == 19 {
            Some(OpCode::Print)
        } else if b == 20 {
            Some(OpCode::Pop)
        } else if b == 21 {
            Some(OpCode::SetValue)
        } else if b == 22 {
            Some(OpCode::SetValue2)
        } else if b == 23 {
            Some(OpCode::SetValue4)
        } else if b == 24 {
            Some(OpCode::SetVariable)
        } else if b == 25 {
            Some(OpCode::SetVariable2)
        } else if b == 26 {
            Some(OpCode::SetVariable4)
        } else if b == 27 {
            Some(OpCode::GetValue)
        } else if b == 28 {
            Some(OpCode::GetValue2)
        } else if b == 29 {
            Some(OpCode::GetValue4)
        } else if b == 30 {
            Some(OpCode::GetVariable)
        } else if b == 31 {
            Some(OpCode::GetVariable2)
        } else if b == 32 {
            Some(OpCode::GetVariable4)
        } else {
            None
        }
    }

    /// How many operand bytes follow this opcode's byte.
    pub fn operand_width(self) -> (w: usize)
        ensures
            w == spec_operand_width(self),
    {
        match self {
            OpCode::Constant => 1,
            OpCode::Constant2 => 2,
            OpCode::Constant4 => 4,
            OpCode::Str => 1,
            OpCode::Str2 => 2,
            OpCode::Str4 => 4,
            OpCode::SetValue => 1,
            OpCode::SetValue2 => 2,
            OpCode::SetValue4 => 4,
            OpCode::SetVariable => 1,
            OpCode::SetVariable2 => 2,
            OpCode::SetVariable4 => 4,
            OpCode::GetValue => 1,
            OpCode::GetValue2 => 2,
            OpCode::GetValue4 => 4,
            OpCode::GetVariable => 1,
            OpCode::GetVariable2 => 2,
            OpCode::GetVariable4 => 4,
            _ => 0,
        }
    }
}

/// Encoding then decoding an opcode byte is the identity: the opcode
/// values form a total, stable enumeration.
pub proof fn lemma_opcode_byte_round_trip(op: OpCode)
    ensures
        spec_opcode_of_byte(spec_opcode_byte(op)) == Some(op),
{
}

} // verus!

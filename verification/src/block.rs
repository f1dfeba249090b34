//! The bytecode container: an instruction byte stream, a constant pool,
//! a string pool, and a run-length-encoded source-line map.
//!
//! A block is built once by appending, and is immediately valid for
//! decoding from offset 0 after any sequence of writes. Multi-byte
//! operands are little-endian; the encoder always picks the narrowest
//! of the 1-, 2- and 4-byte widths that holds the index it emits.

use vstd::prelude::*;

use crate::opcode::OpCode;
use crate::opcode::spec_opcode_byte;
use crate::opcode::spec_opcode_of_byte;
use crate::opcode::spec_operand_width;
use crate::value::Value;

verus! {

/// One run of the source-line map: every instruction from byte offset
/// `start` up to the next entry's start lies on source line `line`.
#[derive(Clone, Copy, Debug, PartialEq, Eq, Structural)]
pub struct LineSpan {
    pub line: u32,
    pub start: usize,
}

pub struct Block {
    pub name: String,
    pub instructions: Vec<u8>,
    pub constants: Vec<Value>,
    pub strings: Vec<String>,
    pub lines: Vec<LineSpan>,
}

/// The little-endian value of a 1-, 2- or 4-byte operand.
pub open spec fn spec_le_value(bytes: Seq<u8>) -> int {
    if bytes.len() == 1 {
        bytes[0] as int
    } else if bytes.len() == 2 {
        bytes[0] + 256 * bytes[1]
    } else if bytes.len() == 4 {
        bytes[0] + 256 * bytes[1] + 65536 * bytes[2] + 16777216 * bytes[3]
    } else {
        0
    }
}

/// The little-endian encoding of `i` at width `w` (1, 2 or 4 bytes).
pub open spec fn spec_le_bytes(i: int, w: int) -> Seq<u8> {
    if w == 1 {
        seq![(i % 256) as u8]
    } else if w == 2 {
        seq![(i % 256) as u8, ((i / 256) % 256) as u8]
    } else {
        seq![
            (i % 256) as u8,
            ((i / 256) % 256) as u8,
            ((i / 65536) % 256) as u8,
            ((i / 16777216) % 256) as u8,
        ]
    }
}

/// The narrowest operand width that can represent index `i`.
pub open spec fn spec_width_for(i: int) -> int {
    if i < 256 {
        1
    } else if i < 65536 {
        2
    } else {
        4
    }
}

/// Which of an instruction's three width variants the encoder picks
/// for index `i`: the one whose operand width is `spec_width_for(i)`.
pub open spec fn spec_pick_op(op1: OpCode, op2: OpCode, op4: OpCode, i: int) -> OpCode {
    if i < 256 {
        op1
    } else if i < 65536 {
        op2
    } else {
        op4
    }
}

/// The byte sequence the encoder appends for a pool-indexed instruction:
/// the chosen variant's opcode byte followed by the index at the
/// narrowest width that holds it.
pub open spec fn spec_encode_indexed(op1: OpCode, op2: OpCode, op4: OpCode, i: int) -> Seq<u8> {
    seq![spec_opcode_byte(spec_pick_op(op1, op2, op4, i))] + spec_le_bytes(i, spec_width_for(i))
}

/// One decoded instruction: the opcode, its operand (0 for the simple
/// instructions), and the number of bytes it occupies.
pub open spec fn spec_decode(code: Seq<u8>, off: int) -> Option<(OpCode, int, int)> {
    if 0 <= off < code.len() {
        match spec_opcode_of_byte(code[off]) {
            Some(op) => {
                let w = spec_operand_width(op);
                if off + 1 + w <= code.len() {
                    Some((op, spec_le_value(code.subrange(off + 1, off + 1 + w)), 1 + w))
                } else {
                    None
                }
            },
            None => None,
        }
    } else {
        None
    }
}

/// How the line map grows when an instruction starting at `off` on line
/// `line` is recorded: a new run only where the line changed.
pub open spec fn spec_record_line(lines: Seq<LineSpan>, off: int, line: u32) -> Seq<LineSpan> {
    if lines.len() > 0 && lines.last().line == line {
        lines
    } else {
        lines.push(LineSpan { line, start: off as usize })
    }
}

/// The source line covering byte offset `off`: the line of the last run
/// that starts at or before `off`.
pub open spec fn spec_line_for(lines: Seq<LineSpan>, off: int) -> Option<u32>
    decreases lines.len(),
{
    if lines.len() == 0 {
        None
    } else if lines.last().start <= off {
        Some(lines.last().line)
    } else {
        spec_line_for(lines.drop_last(), off)
    }
}

impl Block {
    pub fn new(name: &str) -> (b: Block)
        ensures
            b.name@ == name@,
            b.instructions@ == Seq::<u8>::empty(),
            b.constants@ == Seq::<Value>::empty(),
            b.strings@ == Seq::<String>::empty(),
            b.lines@ == Seq::<LineSpan>::empty(),
    {
        Block {
            name: name.to_owned(),
            instructions: Vec::new(),
            constants: Vec::new(),
            strings: Vec::new(),
            lines: Vec::new(),
        }
    }

    /// Record that the instruction starting at `off` lies on `line`,
    /// coalescing with the previous run when the line is unchanged.
    fn record_line(&mut self, off: usize, line: u32)
        ensures
            final(self).lines@ == spec_record_line(old(self).lines@, off as int, line),
            final(self).name == old(self).name,
            final(self).instructions == old(self).instructions,
            final(self).constants == old(self).constants,
            final(self).strings == old(self).strings,
    {
        let n = self.lines.len();
        if n > 0 && self.lines[n - 1].line == line {
            return ;
        }
        self.lines.push(LineSpan { line, start: off });
    }

    /// Append one opcode byte and record its source line.
    pub fn write_op_code(&mut self, op: OpCode, line: u32)
        ensures
            final(self).instructions@ == old(self).instructions@.push(spec_opcode_byte(op)),
            final(self).lines@ == spec_record_line(
                old(self).lines@,
                old(self).instructions@.len() as int,
                line,
            ),
            final(self).name == old(self).name,
            final(self).constants == old(self).constants,
            final(self).strings == old(self).strings,
    {
        let off = self.instructions.len();
        self.instructions.push(op.to_byte());
        self.record_line(off, line);
    }

    /// Append one pool-indexed instruction: the width variant of
    /// `op1`/`op2`/`op4` chosen for `idx`, then `idx` at that width.
    fn write_indexed(&mut self, op1: OpCode, op2: OpCode, op4: OpCode, idx: usize, line: u32)
        requires
            idx < 4294967296,
        ensures
            final(self).instructions@ == old(self).instructions@ + spec_encode_indexed(
                op1,
                op2,
                op4,
                idx as int,
            ),
            final(self).lines@ == spec_record_line(
                old(self).lines@,
                old(self).instructions@.len() as int,
                line,
            ),
            final(self).name == old(self).name,
            final(self).constants == old(self).constants,
            final(self).strings == old(self).strings,
    {
        let off = self.instructions.len();
        if idx < 256 {
            self.instructions.push(op1.to_byte());
            self.instructions.push((idx % 256) as u8);
        } else if idx < 65536 {
            self.instructions.push(op2.to_byte());
            self.instructions.push((idx % 256) as u8);
            self.instructions.push(((idx / 256) % 256) as u8);
        } else {
            self.instructions.push(op4.to_byte());
            self.instructions.push((idx % 256) as u8);
            self.instructions.push(((idx / 256) % 256) as u8);
            self.instructions.push(((idx / 65536) % 256) as u8);
            self.instructions.push(((idx / 16777216) % 256) as u8);
        }
        self.record_line(off, line);
        proof {
            assert(self.instructions@ =~= old(self).instructions@ + spec_encode_indexed(
                op1,
                op2,
                op4,
                idx as int,
            ));
        }
    }

    /// Append `value` to the constant pool and emit the narrowest
    /// `Constant` variant that holds the new index.
    pub fn write_constant(&mut self, value: Value, line: u32)
        requires
            old(self).constants@.len() < 4294967296,
        ensures
            final(self).constants@ == old(self).constants@.push(value),
            final(self).instructions@ == old(self).instructions@ + spec_encode_indexed(
                OpCode::Constant,
                OpCode::Constant2,
                OpCode::Constant4,
                old(self).constants@.len() as int,
            ),
            final(self).lines@ == spec_record_line(
                old(self).lines@,
                old(self).instructions@.len() as int,
                line,
            ),
            final(self).name == old(self).name,
            final(self).strings == old(self).strings,
    {
        let idx = self.constants.len();
        self.constants.push(value);
        self.write_indexed(OpCode::Constant, OpCode::Constant2, OpCode::Constant4, idx, line);
    }

    /// Append `text` to the string pool and emit the narrowest `Str`
    /// variant that holds the new index.
    pub fn write_string(&mut self, text: String, line: u32)
        requires
            old(self).strings@.len() < 4294967296,
        ensures
            final(self).strings@ == old(self).strings@.push(text),
            final(self).instructions@ == old(self).instructions@ + spec_encode_indexed(
                OpCode::Str,
                OpCode::Str2,
                OpCode::Str4,
                old(self).strings@.len() as int,
            ),
            final(self).lines@ == spec_record_line(
                old(self).lines@,
                old(self).instructions@.len() as int,
                line,
            ),
            final(self).name == old(self).name,
            final(self).constants == old(self).constants,
    {
        let idx = self.strings.len();
        self.strings.push(text);
        self.write_indexed(OpCode::Str, OpCode::Str2, OpCode::Str4, idx, line);
    }

    /// Emit a local-slot instruction (`SetValue` or `GetValue` family,
    /// by `set`) whose operand is the slot itself, at the narrowest
    /// width that holds it.
    pub fn write_value_op(&mut self, set: bool, slot: usize, line: u32)
        requires
            slot < 4294967296,
        ensures
            final(self).instructions@ == old(self).instructions@ + (if set {
                spec_encode_indexed(
                    OpCode::SetValue,
                    OpCode::SetValue2,
                    OpCode::SetValue4,
                    slot as int,
                )
            } else {
                spec_encode_indexed(
                    OpCode::GetValue,
                    OpCode::GetValue2,
                    OpCode::GetValue4,
                    slot as int,
                )
            }),
            final(self).lines@ == spec_record_line(
                old(self).lines@,
                old(self).instructions@.len() as int,
                line,
            ),
            final(self).name == old(self).name,
            final(self).constants == old(self).constants,
            final(self).strings == old(self).strings,
    {
        if set {
            self.write_indexed(OpCode::SetValue, OpCode::SetValue2, OpCode::SetValue4, slot, line);
        } else {
            self.write_indexed(OpCode::GetValue, OpCode::GetValue2, OpCode::GetValue4, slot, line);
        }
    }

    /// Append the binding's name to the constant pool and emit a named
    /// global instruction (`SetVariable` or `GetVariable` family, by
    /// `set`) whose operand is the name's constant index.
    pub fn write_variable_op(&mut self, set: bool, name: String, line: u32)
        requires
            old(self).constants@.len() < 4294967296,
        ensures
            final(self).constants@ == old(self).constants@.push(Value::Str(name)),
            final(self).instructions@ == old(self).instructions@ + (if set {
                spec_encode_indexed(
                    OpCode::SetVariable,
                    OpCode::SetVariable2,
                    OpCode::SetVariable4,
                    old(self).constants@.len() as int,
                )
            } else {
                spec_encode_indexed(
                    OpCode::GetVariable,
                    OpCode::GetVariable2,
                    OpCode::GetVariable4,
                    old(self).constants@.len() as int,
                )
            }),
            final(self).lines@ == spec_record_line(
                old(self).lines@,
                old(self).instructions@.len() as int,
                line,
            ),
            final(self).name == old(self).name,
            final(self).strings == old(self).strings,
    {
        let idx = self.constants.len();
        self.constants.push(Value::Str(name));
        if set {
            self.write_indexed(
                OpCode::SetVariable,
                OpCode::SetVariable2,
                OpCode::SetVariable4,
                idx,
                line,
            );
        } else {
            self.write_indexed(
                OpCode::GetVariable,
                OpCode::GetVariable2,
                OpCode::GetVariable4,
                idx,
                line,
            );
        }
    }

    /// Read the byte at `offset`, or nothing when the read would pass
    /// the end of the stream.
    pub fn read_u8(&self, offset: usize) -> (r: Option<u8>)
        ensures
            r == (if offset < self.instructions@.len() {
                Some(self.instructions@[offset as int])
            } else {
                None::<u8>
            }),
    {
        if offset < self.instructions.len() {
            Some(self.instructions[offset])
        } else {
            None
        }
    }

    /// Read a 2-byte little-endian operand starting at `offset`.
    pub fn read_u16(&self, offset: usize) -> (r: Option<u16>)
        ensures
            r == (if offset + 2 <= self.instructions@.len() {
                Some(spec_le_value(self.instructions@.subrange(offset as int, offset + 2)) as u16)
            } else {
                None::<u16>
            }),
    {
        if self.instructions.len() >= 2 && offset <= self.instructions.len() - 2 {
            let b0 = self.instructions[offset];
            let b1 = self.instructions[offset + 1];
            Some((b0 as u16) + 256 * (b1 as u16))
        } else {
            None
        }
    }

    /// Read a 4-byte little-endian operand starting at `offset`.
    pub fn read_u32(&self, offset: usize) -> (r: Option<u32>)
        ensures
            r == (if offset + 4 <= self.instructions@.len() {
                Some(spec_le_value(self.instructions@.subrange(offset as int, offset + 4)) as u32)
            } else {
                None::<u32>
            }),
    {
        if self.instructions.len() >= 4 && offset <= self.instructions.len() - 4 {
            let b0 = self.instructions[offset];
            let b1 = self.instructions[offset + 1];
            let b2 = self.instructions[offset + 2];
            let b3 = self.instructions[offset + 3];
            Some((b0 as u32) + 256 * (b1 as u32) + 65536 * (b2 as u32) + 16777216 * (b3 as u32))
        } else {
            None
        }
    }

    /// Positional lookup in the constant pool; checked, since an index
    /// can in principle come from untrusted bytecode.
    pub fn read_constant(&self, index: usize) -> (r: Option<Value>)
        ensures
            r == (if index < self.constants@.len() {
                Some(self.constants@[index as int])
            } else {
                None::<Value>
            }),
    {
        if index < self.constants.len() {
            Some(self.constants[index].dup())
        } else {
            None
        }
    }

    /// Positional lookup in the string pool; checked like `read_constant`.
    pub fn read_string(&self, index: usize) -> (r: Option<String>)
        ensures
            r == (if index < self.strings@.len() {
                Some(self.strings@[index as int])
            } else {
                None::<String>
            }),
    {
        if index < self.strings.len() {
            Some(self.strings[index].clone())
        } else {
            None
        }
    }

    /// The source line covering byte offset `offset`.
    pub fn get_line(&self, offset: usize) -> (r: Option<u32>)
        ensures
            r == spec_line_for(self.lines@, offset as int),
    {
        let mut i = self.lines.len();
        proof {
            assert(self.lines@.subrange(0, i as int) =~= self.lines@);
        }
        while i > 0
            invariant
                i <= self.lines@.len(),
                spec_line_for(self.lines@.subrange(0, i as int), offset as int) == spec_line_for(
                    self.lines@,
                    offset as int,
                ),
            decreases i,
        {
            i = i - 1;
            if self.lines[i].start <= offset {
                proof {
                    assert(self.lines@.subrange(0, i + 1).last() == self.lines@[i as int]);
                }
                return Some(self.lines[i].line);
            }
            proof {
                assert(self.lines@.subrange(0, i + 1).drop_last() =~= self.lines@.subrange(
                    0,
                    i as int,
                ));
            }
        }
        proof {
            assert(self.lines@.subrange(0, 0) =~= Seq::<LineSpan>::empty());
        }
        None
    }

    /// Decode the instruction starting at `offset`: its opcode, operand
    /// (0 for the simple instructions) and encoded size. Returns nothing
    /// on a bounds or opcode violation, exactly when `spec_decode` does.
    pub fn decode_instruction(&self, offset: usize) -> (r: Option<(OpCode, u32, usize)>)
        ensures
            ({
                let d = spec_decode(self.instructions@, offset as int);
                match r {
                    Some(t) => d == Some((t.0, t.1 as int, t.2 as int)),
                    None => d is None,
                }
            }),
    {
        if offset >= self.instructions.len() {
            return None;
        }
        let op = match OpCode::from_byte(self.instructions[offset]) {
            Some(op) => op,
            None => {
                return None;
            },
        };
        let w = op.operand_width();
        if self.instructions.len() - offset - 1 < w {
            return None;
        }
        let operand: u32 = if w == 0 {
            proof {
                assert(self.instructions@.subrange(offset + 1, offset + 1) =~= Seq::<
                    u8,
                >::empty());
            }
            0
        } else if w == 1 {
            self.instructions[offset + 1] as u32
        } else if w == 2 {
            let b0 = self.instructions[offset + 1];
            let b1 = self.instructions[offset + 2];
            (b0 as u32) + 256 * (b1 as u32)
        } else {
            let b0 = self.instructions[offset + 1];
            let b1 = self.instructions[offset + 2];
            let b2 = self.instructions[offset + 3];
            let b3 = self.instructions[offset + 4];
            (b0 as u32) + 256 * (b1 as u32) + 65536 * (b2 as u32) + 16777216 * (b3 as u32)
        };
        Some((op, operand, 1 + w))
    }
}

/// Encoding an index and decoding it back is the identity, at every
/// width: the core of the width-selection round trip.
pub proof fn lemma_le_round_trip(i: int)
    requires
        0 <= i < 4294967296,
    ensures
        spec_le_bytes(i, spec_width_for(i)).len() == spec_width_for(i),
        spec_le_value(spec_le_bytes(i, spec_width_for(i))) == i,
{
    let x = i as u32;
    assert(x % 256 + 256 * ((x / 256) % 256) + 65536 * ((x / 65536) % 256) + 16777216 * ((x
        / 16777216) % 256) == x) by (bit_vector);
    if i < 256 {
        assert(i % 256 == i);
    } else if i < 65536 {
        assert(i % 256 + 256 * ((i / 256) % 256) == i) by (nonlinear_arith)
            requires
                256 <= i < 65536,
        ;
    } else {
        assert(i % 256 == x % 256);
        assert((i / 256) % 256 == (x / 256) % 256);
        assert((i / 65536) % 256 == (x / 65536) % 256);
        assert((i / 16777216) % 256 == (x / 16777216) % 256);
    }
}

/// Line map correctness: recording an instruction that starts at `off`
/// on source line `line` — where, as in a block written front to back,
/// no existing run starts past `off` — makes the lookup answer `line`
/// for `off` itself and for every later offset, operand bytes included,
/// until a further run is recorded.
pub proof fn lemma_recorded_line_covers(lines: Seq<LineSpan>, off: int, line: u32, o: int)
    requires
        forall|i: int| 0 <= i < lines.len() ==> (#[trigger] lines[i]).start <= off,
        0 <= off <= o,
    ensures
        spec_line_for(spec_record_line(lines, off, line), o) == Some(line),
{
    if lines.len() > 0 && lines.last().line == line {
        assert(lines.last().start <= off);
    }
}

/// Width selection round trip: whatever index a pool has grown to, the
/// encoder picks the narrowest width variant that holds it (1 byte up
/// to 255, 2 up to 65535, 4 beyond), and decoding the bytes it appended
/// recovers the exact index and the instruction's true size.
pub proof fn lemma_width_selection_round_trip(
    code: Seq<u8>,
    op1: OpCode,
    op2: OpCode,
    op4: OpCode,
    i: int,
)
    requires
        0 <= i < 4294967296,
        spec_operand_width(op1) == 1,
        spec_operand_width(op2) == 2,
        spec_operand_width(op4) == 4,
    ensures
        spec_decode(code + spec_encode_indexed(op1, op2, op4, i), code.len() as int) == Some(
            (spec_pick_op(op1, op2, op4, i), i, 1 + spec_width_for(i)),
        ),
{
    let w = spec_width_for(i);
    let op = spec_pick_op(op1, op2, op4, i);
    let enc = spec_encode_indexed(op1, op2, op4, i);
    let all = code + enc;
    lemma_le_round_trip(i);
    crate::opcode::lemma_opcode_byte_round_trip(op);
    assert(all[code.len() as int] == spec_opcode_byte(op));
    assert(spec_operand_width(op) == w);
    assert(all.subrange(code.len() as int + 1, code.len() as int + 1 + w) =~= spec_le_bytes(i, w));
}

} // verus!

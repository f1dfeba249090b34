//! The diagnostic disassembler: walks a block with exactly the decode
//! and width rules the virtual machine executes by, and renders each
//! instruction as structured data. It never executes or mutates the
//! block; its one point of coupling with the machine is the shared
//! decode contract, stated here as `lemma_decoder_agreement`.

use vstd::prelude::*;

use crate::block::Block;
use crate::block::spec_decode;
use crate::block::spec_line_for;
use crate::opcode::OpCode;
use crate::opcode::spec_operand_width;
use crate::value::Value;
use crate::value::ValueModel;
use crate::vm::MachineState;
use crate::vm::StepOutcome;
use crate::vm::is_constant_op;
use crate::vm::is_get_variable_op;
use crate::vm::is_set_variable_op;
use crate::vm::is_string_op;
use crate::vm::lemma_step_continue_advances;
use crate::vm::spec_step;

verus! {

/// One disassembled instruction: where it starts, its source line (and
/// whether that line merely continues the previous instruction's), the
/// opcode, the operand for indexed forms, the pool entry the operand
/// resolves to where there is one, and the encoded size in bytes.
pub struct InstrView {
    pub offset: usize,
    pub line: Option<u32>,
    pub line_repeated: bool,
    pub op: OpCode,
    pub operand: Option<u32>,
    pub constant: Option<Value>,
    pub size: usize,
}

/// The pool entry an indexed instruction's operand resolves to, for
/// display: the constant pool for `Constant` and the named-binding
/// forms, the string pool for `Str`; nothing for the rest.
pub open spec fn spec_resolved_entry(b: Block, op: OpCode, idx: int) -> Option<ValueModel> {
    if is_constant_op(op) || is_get_variable_op(op) || is_set_variable_op(op) {
        if 0 <= idx < b.constants.deep_view().len() {
            Some(b.constants.deep_view()[idx])
        } else {
            None
        }
    } else if is_string_op(op) {
        if 0 <= idx < b.strings.deep_view().len() {
            Some(ValueModel::Str(b.strings.deep_view()[idx]))
        } else {
            None
        }
    } else {
        None
    }
}

/// What a correct rendering of the instruction at `v.offset` holds.
pub open spec fn instr_view_matches(b: Block, v: InstrView) -> bool {
    match spec_decode(b.instructions@, v.offset as int) {
        Some(d) => {
            &&& v.op == d.0
            &&& v.size == d.2
            &&& v.operand == (if spec_operand_width(d.0) == 0 {
                None::<u32>
            } else {
                Some(d.1 as u32)
            })
            &&& v.line == spec_line_for(b.lines@, v.offset as int)
            &&& v.line_repeated == (v.offset > 0 && spec_line_for(b.lines@, v.offset as int)
                == spec_line_for(b.lines@, v.offset - 1))
            &&& v.constant.deep_view() == spec_resolved_entry(b, d.0, d.1)
        },
        None => false,
    }
}

/// The offset just past the instruction the disassembler reads at
/// `off`: how many bytes it consumes, added to `off`.
pub open spec fn spec_disasm_next(b: Block, off: int) -> Option<int> {
    match spec_decode(b.instructions@, off) {
        Some(d) => Some(off + d.2),
        None => None,
    }
}

/// Render the instruction starting at `offset`, and return it with the
/// offset of the next instruction. Returns nothing exactly where the
/// decode rules reject the stream.
pub fn disassemble_instruction(block: &Block, offset: usize) -> (r: Option<(InstrView, usize)>)
    ensures
        match spec_decode(block.instructions@, offset as int) {
            Some(d) => r matches Some(t) && t.0.offset == offset && t.1 == offset + d.2
                && instr_view_matches(*block, t.0),
            None => r is None,
        },
{
    let (op, operand, size) = match block.decode_instruction(offset) {
        Some(d) => d,
        None => {
            return None;
        },
    };
    let w = op.operand_width();
    let idx = operand as usize;
    let constant = if matches!(
        op,
        OpCode::Constant | OpCode::Constant2 | OpCode::Constant4 | OpCode::GetVariable
            | OpCode::GetVariable2 | OpCode::GetVariable4 | OpCode::SetVariable
            | OpCode::SetVariable2 | OpCode::SetVariable4,
    ) {
        block.read_constant(idx)
    } else if matches!(op, OpCode::Str | OpCode::Str2 | OpCode::Str4) {
        match block.read_string(idx) {
            Some(s) => Some(Value::Str(s)),
            None => None,
        }
    } else {
        None
    };
    let line = block.get_line(offset);
    let line_repeated = if offset > 0 {
        let prev = block.get_line(offset - 1);
        match (&line, &prev) {
            (Some(a), Some(b)) => *a == *b,
            (None, None) => true,
            _ => false,
        }
    } else {
        false
    };
    let view = InstrView {
        offset,
        line,
        line_repeated,
        op,
        operand: if w == 0 {
            None
        } else {
            Some(operand)
        },
        constant,
        size,
    };
    let code_len = block.instructions.len();
    proof {
        assert(offset + size <= code_len);
    }
    Some((view, offset + size))
}

/// Walk the block from offset 0, rendering instruction after
/// instruction with the same width rules the machine executes by, and
/// stopping at the end of the stream or at the first decode violation.
pub fn disassemble_block(block: &Block) -> (r: Vec<InstrView>)
    ensures
        forall|i: int| 0 <= i < r@.len() ==> #[trigger] instr_view_matches(*block, r@[i]),
        forall|i: int|
            0 < i < r@.len() ==> (#[trigger] r@[i]).offset == r@[i - 1].offset + r@[i - 1].size,
        r@.len() > 0 ==> r@[0].offset == 0,
        ({
            let code = block.instructions@;
            if r@.len() == 0 {
                code.len() == 0 || spec_decode(code, 0) is None
            } else {
                let end = r@.last().offset + r@.last().size;
                end == code.len() || spec_decode(code, end as int) is None
            }
        }),
{
    let mut out: Vec<InstrView> = Vec::new();
    let mut offset: usize = 0;
    loop
        invariant
            offset <= block.instructions@.len(),
            out@.len() == 0 ==> offset == 0,
            out@.len() > 0 ==> out@[0].offset == 0 && out@.last().offset + out@.last().size
                == offset,
            forall|i: int| 0 <= i < out@.len() ==> #[trigger] instr_view_matches(*block, out@[i]),
            forall|i: int|
                0 < i < out@.len() ==> (#[trigger] out@[i]).offset == out@[i - 1].offset + out@[i
                    - 1].size,
        decreases block.instructions@.len() - offset,
    {
        if offset >= block.instructions.len() {
            return out;
        }
        match disassemble_instruction(block, offset) {
            Some((view, next)) => {
                out.push(view);
                offset = next;
            },
            None => {
                return out;
            },
        }
    }
}

/// Decoder agreement: whenever the machine executes the instruction at
/// a state's instruction pointer and continues, the disassembler's
/// consumed byte count at that offset is exactly the machine's
/// instruction-pointer advance; and the terminal `Return`, which halts
/// without advancing, occupies exactly the one byte the disassembler
/// consumes for it.
pub proof fn lemma_decoder_agreement(b: Block, st: MachineState)
    ensures
        match spec_step(b, st) {
            StepOutcome::Continue(s) => spec_disasm_next(b, st.ip) == Some(s.ip),
            StepOutcome::Halt(s) => spec_disasm_next(b, st.ip) == Some(st.ip + 1) && s.ip == st.ip,
            StepOutcome::Fault(s, e) => s.ip == st.ip,
        },
{
    lemma_step_continue_advances(b, st);
}

} // verus!

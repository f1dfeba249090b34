//! The virtual machine: an instruction pointer and an evaluation stack,
//! driving the decode-dispatch-execute loop over a block.
//!
//! The loop's behaviour is pinned by a specification-level interpreter:
//! `spec_step` gives the effect of one instruction on a machine state,
//! `spec_run` iterates it to a halt or a fault, and the executable loop
//! is proved to return exactly what `spec_run` says.

use vstd::prelude::*;

use crate::block::Block;
use crate::block::spec_decode;
use crate::block::spec_line_for;
use crate::numeric::add_bits;
use crate::numeric::div_bits;
use crate::numeric::gt_bits;
use crate::numeric::lt_bits;
use crate::numeric::mul_bits;
use crate::numeric::neg_bits;
use crate::numeric::sub_bits;
use crate::numeric::num_add;
use crate::numeric::num_div;
use crate::numeric::num_gt;
use crate::numeric::num_lt;
use crate::numeric::num_mul;
use crate::numeric::num_neg;
use crate::numeric::num_sub;
use crate::opcode::OpCode;
use crate::value::Value;
use crate::value::ValueModel;
use crate::value::concat_strings;
use crate::value::spec_truthy;
use crate::value::spec_values_equal;
use crate::value::values_equal;

verus! {

/// The outcome of one interpretation: a normal halt, a front-end
/// failure before execution began, or a fault during execution.
#[derive(Clone, Copy, Debug, PartialEq, Eq, Structural)]
pub enum InterpretResult {
    Success,
    CompileError,
    RuntimeError,
}

/// The specific fault that halted execution.
#[derive(Clone, Copy, Debug, PartialEq, Eq, Structural)]
pub enum VmError {
    /// The instruction stream could not be decoded at the instruction
    /// pointer: offset past the end, an unknown opcode byte, or operand
    /// bytes claimed past the end of the stream.
    DecodeFault,
    /// An instruction needed more operands than the stack holds.
    StackUnderflow,
    /// `Negate` on a value that is not a number.
    OperandMustBeNumber,
    /// Arithmetic or ordering on operands that are not numbers.
    OperandsMustBeNumbers,
    /// A pool index decoded from an operand is out of range.
    IndexOutOfRange,
    /// A local-slot index does not name a live stack slot.
    SlotOutOfRange,
    /// A named-binding operand whose constant is not a string.
    BadVariableName,
    /// A name that is not bound in the global table.
    UndefinedVariable,
}

/// The machine state a block is executed against: instruction pointer,
/// evaluation stack, global bindings (later entries shadow earlier
/// ones), and the values surfaced so far by `Print` and `Return`.
#[verifier::ext_equal]
pub struct MachineState {
    pub ip: int,
    pub stack: Seq<ValueModel>,
    pub globals: Seq<(Seq<char>, ValueModel)>,
    pub output: Seq<ValueModel>,
}

/// The effect of one instruction.
#[verifier::ext_equal]
pub enum StepOutcome {
    Continue(MachineState),
    Halt(MachineState),
    Fault(MachineState, VmError),
}

/// The value bound to `name`, given by the latest binding.
pub open spec fn spec_lookup(g: Seq<(Seq<char>, ValueModel)>, name: Seq<char>) -> Option<
    ValueModel,
>
    decreases g.len(),
{
    if g.len() == 0 {
        None
    } else if g.last().0 == name {
        Some(g.last().1)
    } else {
        spec_lookup(g.drop_last(), name)
    }
}

pub open spec fn is_constant_op(op: OpCode) -> bool {
    op == OpCode::Constant || op == OpCode::Constant2 || op == OpCode::Constant4
}

pub open spec fn is_string_op(op: OpCode) -> bool {
    op == OpCode::Str || op == OpCode::Str2 || op == OpCode::Str4
}

pub open spec fn is_arith_op(op: OpCode) -> bool {
    op == OpCode::Add || op == OpCode::Subtract || op == OpCode::Multiply || op == OpCode::Divide
}

pub open spec fn is_get_value_op(op: OpCode) -> bool {
    op == OpCode::GetValue || op == OpCode::GetValue2 || op == OpCode::GetValue4
}

pub open spec fn is_set_value_op(op: OpCode) -> bool {
    op == OpCode::SetValue || op == OpCode::SetValue2 || op == OpCode::SetValue4
}

pub open spec fn is_get_variable_op(op: OpCode) -> bool {
    op == OpCode::GetVariable || op == OpCode::GetVariable2 || op == OpCode::GetVariable4
}

pub open spec fn is_set_variable_op(op: OpCode) -> bool {
    op == OpCode::SetVariable || op == OpCode::SetVariable2 || op == OpCode::SetVariable4
}

/// The IEEE 754 result bits of one arithmetic instruction on two numbers.
pub open spec fn spec_arith_bits(op: OpCode, x: u64, y: u64) -> u64 {
    if op == OpCode::Add {
        add_bits(x, y)
    } else if op == OpCode::Subtract {
        sub_bits(x, y)
    } else if op == OpCode::Multiply {
        mul_bits(x, y)
    } else {
        div_bits(x, y)
    }
}

/// The effect of the already-decoded instruction `op` with operand
/// `idx`, where `next_ip` is the offset just past the instruction.
pub open spec fn spec_dispatch(
    b: Block,
    st: MachineState,
    op: OpCode,
    idx: int,
    next_ip: int,
) -> StepOutcome {
    let consts = b.constants.deep_view();
    let strs = b.strings.deep_view();
    let n = st.stack.len() as int;
    if op == OpCode::Return {
        if n == 0 {
            StepOutcome::Fault(st, VmError::StackUnderflow)
        } else {
            StepOutcome::Halt(
                MachineState {
                    stack: st.stack.drop_last(),
                    output: st.output.push(st.stack.last()),
                    ..st
                },
            )
        }
    } else if is_constant_op(op) {
        if 0 <= idx < consts.len() {
            StepOutcome::Continue(
                MachineState { ip: next_ip, stack: st.stack.push(consts[idx]), ..st },
            )
        } else {
            StepOutcome::Fault(st, VmError::IndexOutOfRange)
        }
    } else if is_string_op(op) {
        if 0 <= idx < strs.len() {
            StepOutcome::Continue(
                MachineState { ip: next_ip, stack: st.stack.push(ValueModel::Str(strs[idx])), ..st },
            )
        } else {
            StepOutcome::Fault(st, VmError::IndexOutOfRange)
        }
    } else if op == OpCode::Nil {
        StepOutcome::Continue(MachineState { ip: next_ip, stack: st.stack.push(ValueModel::Nil), ..st })
    } else if op == OpCode::True {
        StepOutcome::Continue(
            MachineState { ip: next_ip, stack: st.stack.push(ValueModel::Boolean(true)), ..st },
        )
    } else if op == OpCode::False {
        StepOutcome::Continue(
            MachineState { ip: next_ip, stack: st.stack.push(ValueModel::Boolean(false)), ..st },
        )
    } else if op == OpCode::Negate {
        if n == 0 {
            StepOutcome::Fault(st, VmError::StackUnderflow)
        } else {
            match st.stack.last() {
                ValueModel::Number(x) => StepOutcome::Continue(
                    MachineState {
                        ip: next_ip,
                        stack: st.stack.drop_last().push(ValueModel::Number(neg_bits(x))),
                        ..st
                    },
                ),
                _ => StepOutcome::Fault(st, VmError::OperandMustBeNumber),
            }
        }
    } else if is_arith_op(op) {
        if n < 2 {
            StepOutcome::Fault(st, VmError::StackUnderflow)
        } else {
            match (st.stack[n - 2], st.stack[n - 1]) {
                (ValueModel::Number(x), ValueModel::Number(y)) => StepOutcome::Continue(
                    MachineState {
                        ip: next_ip,
                        stack: st.stack.drop_last().drop_last().push(
                            ValueModel::Number(spec_arith_bits(op, x, y)),
                        ),
                        ..st
                    },
                ),
                (ValueModel::Str(x), ValueModel::Str(y)) => {
                    if op == OpCode::Add {
                        StepOutcome::Continue(
                            MachineState {
                                ip: next_ip,
                                stack: st.stack.drop_last().drop_last().push(
                                    ValueModel::Str(x + y),
                                ),
                                ..st
                            },
                        )
                    } else {
                        StepOutcome::Fault(st, VmError::OperandsMustBeNumbers)
                    }
                },
                _ => StepOutcome::Fault(st, VmError::OperandsMustBeNumbers),
            }
        }
    } else if op == OpCode::Equal {
        if n < 2 {
            StepOutcome::Fault(st, VmError::StackUnderflow)
        } else {
            StepOutcome::Continue(
                MachineState {
                    ip: next_ip,
                    stack: st.stack.drop_last().drop_last().push(
                        ValueModel::Boolean(spec_values_equal(st.stack[n - 2], st.stack[n - 1])),
                    ),
                    ..st
                },
            )
        }
    } else if op == OpCode::Greater || op == OpCode::Less {
        if n < 2 {
            StepOutcome::Fault(st, VmError::StackUnderflow)
        } else {
            match (st.stack[n - 2], st.stack[n - 1]) {
                (ValueModel::Number(x), ValueModel::Number(y)) => StepOutcome::Continue(
                    MachineState {
                        ip: next_ip,
                        stack: st.stack.drop_last().drop_last().push(
                            ValueModel::Boolean(
                                if op == OpCode::Greater {
                                    gt_bits(x, y)
                                } else {
                                    lt_bits(x, y)
                                },
                            ),
                        ),
                        ..st
                    },
                ),
                _ => StepOutcome::Fault(st, VmError::OperandsMustBeNumbers),
            }
        }
    } else if op == OpCode::Not {
        if n == 0 {
            StepOutcome::Fault(st, VmError::StackUnderflow)
        } else {
            StepOutcome::Continue(
                MachineState {
                    ip: next_ip,
                    stack: st.stack.drop_last().push(
                        ValueModel::Boolean(!spec_truthy(st.stack.last())),
                    ),
                    ..st
                },
            )
        }
    } else if op == OpCode::Print {
        if n == 0 {
            StepOutcome::Fault(st, VmError::StackUnderflow)
        } else {
            StepOutcome::Continue(
                MachineState {
                    ip: next_ip,
                    stack: st.stack.drop_last(),
                    output: st.output.push(st.stack.last()),
                    ..st
                },
            )
        }
    } else if op == OpCode::Pop {
        if n == 0 {
            StepOutcome::Fault(st, VmError::StackUnderflow)
        } else {
            StepOutcome::Continue(MachineState { ip: next_ip, stack: st.stack.drop_last(), ..st })
        }
    } else if is_get_value_op(op) {
        if 0 <= idx < n {
            StepOutcome::Continue(
                MachineState { ip: next_ip, stack: st.stack.push(st.stack[idx]), ..st },
            )
        } else {
            StepOutcome::Fault(st, VmError::SlotOutOfRange)
        }
    } else if is_set_value_op(op) {
        if n == 0 {
            StepOutcome::Fault(st, VmError::StackUnderflow)
        } else if 0 <= idx < n {
            StepOutcome::Continue(
                MachineState { ip: next_ip, stack: st.stack.update(idx, st.stack.last()), ..st },
            )
        } else {
            StepOutcome::Fault(st, VmError::SlotOutOfRange)
        }
    } else if is_get_variable_op(op) {
        if !(0 <= idx < consts.len()) {
            StepOutcome::Fault(st, VmError::IndexOutOfRange)
        } else {
            match consts[idx] {
                ValueModel::Str(name) => match spec_lookup(st.globals, name) {
                    Some(v) => StepOutcome::Continue(
                        MachineState { ip: next_ip, stack: st.stack.push(v), ..st },
                    ),
                    None => StepOutcome::Fault(st, VmError::UndefinedVariable),
                },
                _ => StepOutcome::Fault(st, VmError::BadVariableName),
            }
        }
    } else {
        if !(0 <= idx < consts.len()) {
            StepOutcome::Fault(st, VmError::IndexOutOfRange)
        } else {
            match consts[idx] {
                ValueModel::Str(name) => {
                    if n == 0 {
                        StepOutcome::Fault(st, VmError::StackUnderflow)
                    } else {
                        StepOutcome::Continue(
                            MachineState {
                                ip: next_ip,
                                globals: st.globals.push((name, st.stack.last())),
                                ..st
                            },
                        )
                    }
                },
                _ => StepOutcome::Fault(st, VmError::BadVariableName),
            }
        }
    }
}

/// The effect of the instruction at the state's instruction pointer.
pub open spec fn spec_step(b: Block, st: MachineState) -> StepOutcome {
    match spec_decode(b.instructions@, st.ip) {
        None => StepOutcome::Fault(st, VmError::DecodeFault),
        Some(d) => spec_dispatch(b, st, d.0, d.1, st.ip + d.2),
    }
}

/// What a whole run from `st` produces: the result, the final state,
/// and the fault, if one occurred.
#[verifier::ext_equal]
pub struct RunOutcome {
    pub result: InterpretResult,
    pub state: MachineState,
    pub error: Option<VmError>,
}

/// The specification-level interpreter: step until a halt or a fault.
/// Execution always terminates, because every instruction other than
/// the terminal `Return` advances the instruction pointer past its own
/// encoded length.
pub open spec fn spec_run(b: Block, st: MachineState) -> RunOutcome
    decreases b.instructions@.len() - st.ip,
{
    match spec_step(b, st) {
        StepOutcome::Halt(s) => RunOutcome {
            result: InterpretResult::Success,
            state: s,
            error: None,
        },
        StepOutcome::Fault(s, e) => RunOutcome {
            result: InterpretResult::RuntimeError,
            state: s,
            error: Some(e),
        },
        StepOutcome::Continue(s) => {
            if st.ip < s.ip && s.ip <= b.instructions@.len() {
                spec_run(b, s)
            } else {
                RunOutcome {
                    result: InterpretResult::RuntimeError,
                    state: s,
                    error: Some(VmError::DecodeFault),
                }
            }
        },
    }
}

/// A step that continues always lands just past its own instruction and
/// within the stream, so `spec_run`'s bounds guard never fires.
pub proof fn lemma_step_continue_advances(b: Block, st: MachineState)
    ensures
        match spec_step(b, st) {
            StepOutcome::Continue(s) => {
                &&& st.ip < s.ip
                &&& s.ip <= b.instructions@.len()
                &&& spec_decode(b.instructions@, st.ip) is Some
                &&& s.ip == st.ip + spec_decode(b.instructions@, st.ip)->Some_0.2
            },
            _ => true,
        },
{
}

/// The state every `interpret` call starts from.
pub open spec fn spec_reset_state() -> MachineState {
    MachineState { ip: 0, stack: Seq::empty(), globals: Seq::empty(), output: Seq::empty() }
}

/// How one executed instruction resolved, as `step` reports it.
enum StepEvent {
    Continued,
    Halted,
    Faulted(VmError),
}

pub struct VirtualMachine {
    pub ip: usize,
    pub stack: Vec<Value>,
    pub globals: Vec<(String, Value)>,
    pub output: Vec<Value>,
    pub error: Option<VmError>,
    pub error_line: Option<u32>,
}

/// The latest binding of `name` in the global table.
fn lookup_global(globals: &Vec<(String, Value)>, name: &String) -> (r: Option<Value>)
    ensures
        r.deep_view() == spec_lookup(globals.deep_view(), name@),
{
    let mut i = globals.len();
    proof {
        assert(globals.deep_view().subrange(0, i as int) =~= globals.deep_view());
    }
    while i > 0
        invariant
            i <= globals@.len(),
            globals.deep_view().len() == globals@.len(),
            spec_lookup(globals.deep_view().subrange(0, i as int), name@) == spec_lookup(
                globals.deep_view(),
                name@,
            ),
        decreases i,
    {
        i = i - 1;
        proof {
            assert(globals.deep_view().subrange(0, i + 1).last() == globals.deep_view()[i as int]);
            assert(globals.deep_view().subrange(0, i + 1).drop_last() =~= globals.deep_view()
                .subrange(0, i as int));
        }
        if globals[i].0 == *name {
            return Some(globals[i].1.dup());
        }
    }
    proof {
        assert(globals.deep_view().subrange(0, 0) =~= Seq::<(Seq<char>, ValueModel)>::empty());
    }
    None
}

impl VirtualMachine {
    /// The mathematical model of this machine's mutable state.
    pub open spec fn state(&self) -> MachineState {
        MachineState {
            ip: self.ip as int,
            stack: self.stack.deep_view(),
            globals: self.globals.deep_view(),
            output: self.output.deep_view(),
        }
    }

    /// What a step-executing helper for opcode `op` may assume on entry.
    spec fn step_pre(
        &self,
        block: Block,
        pre: MachineState,
        op: OpCode,
        idx: usize,
        next_ip: usize,
    ) -> bool {
        &&& pre == self.state()
        &&& match spec_decode(block.instructions@, pre.ip) {
            Some(d) => d.0 == op && d.1 == idx as int && pre.ip + d.2 == next_ip,
            None => false,
        }
    }

    /// What a step-executing helper guarantees: the event it reports is
    /// the one `spec_step` assigns to the pre-state, and a fault mutated
    /// nothing.
    spec fn step_post(
        &self,
        prev: Self,
        block: Block,
        pre: MachineState,
        r: StepEvent,
    ) -> bool {
        &&& match r {
            StepEvent::Continued => spec_step(block, pre) == StepOutcome::Continue(self.state()),
            StepEvent::Halted => spec_step(block, pre) == StepOutcome::Halt(self.state()),
            StepEvent::Faulted(e) => spec_step(block, pre) == StepOutcome::Fault(self.state(), e)
                && self.state() == pre,
        }
        &&& self.error == prev.error
        &&& self.error_line == prev.error_line
    }

    /// An idle machine: instruction pointer at 0, everything empty.
    pub fn new() -> (vm: VirtualMachine)
        ensures
            vm.state() == spec_reset_state(),
            vm.ip == 0,
            vm.stack@.len() == 0,
            vm.error is None,
            vm.error_line is None,
    {
        let vm = VirtualMachine {
            ip: 0,
            stack: Vec::new(),
            globals: Vec::new(),
            output: Vec::new(),
            error: None,
            error_line: None,
        };
        proof {
            assert(vm.state() =~= spec_reset_state());
        }
        vm
    }

    /// Return to the idle state: empty stack, empty global table, empty
    /// output, no recorded fault.
    pub fn reset(&mut self)
        ensures
            final(self).state() == spec_reset_state(),
            final(self).error is None,
            final(self).error_line is None,
    {
        self.ip = 0;
        self.stack = Vec::new();
        self.globals = Vec::new();
        self.output = Vec::new();
        self.error = None;
        self.error_line = None;
        proof {
            assert(self.state() =~= spec_reset_state());
        }
    }

    pub fn push(&mut self, value: Value)
        ensures
            final(self).stack@ == old(self).stack@.push(value),
            final(self).ip == old(self).ip,
            final(self).globals == old(self).globals,
            final(self).output == old(self).output,
            final(self).error == old(self).error,
            final(self).error_line == old(self).error_line,
    {
        self.stack.push(value);
    }

    pub fn pop(&mut self) -> (r: Value)
        requires
            old(self).stack@.len() > 0,
        ensures
            r == old(self).stack@.last(),
            final(self).stack@ == old(self).stack@.drop_last(),
            final(self).ip == old(self).ip,
            final(self).globals == old(self).globals,
            final(self).output == old(self).output,
            final(self).error == old(self).error,
            final(self).error_line == old(self).error_line,
    {
        self.stack.pop().unwrap()
    }

    /// The value `distance` slots below the top of the stack.
    pub fn peek(&self, distance: usize) -> (r: Value)
        requires
            distance < self.stack@.len(),
        ensures
            r == self.stack@[self.stack@.len() - 1 - distance],
    {
        self.stack[self.stack.len() - 1 - distance].dup()
    }

    /// `Return`: pop the result, surface it, halt.
    fn op_return(
        &mut self,
        block: &Block,
        Ghost(pre): Ghost<MachineState>,
        idx: usize,
        next_ip: usize,
    ) -> (r: StepEvent)
        requires
            old(self).step_pre(*block, pre, OpCode::Return, idx, next_ip),
        ensures
            final(self).step_post(*old(self), *block, pre, r),
    {
        if self.stack.len() == 0 {
            return StepEvent::Faulted(VmError::StackUnderflow);
        }
        let v = self.stack.pop().unwrap();
        self.output.push(v);
        proof {
            assert(self.stack.deep_view() =~= pre.stack.drop_last());
            assert(self.output.deep_view() =~= pre.output.push(pre.stack.last()));
        }
        StepEvent::Halted
    }

    /// `Constant` family: push the constant the operand indexes.
    fn op_constant(
        &mut self,
        block: &Block,
        Ghost(pre): Ghost<MachineState>,
        op: OpCode,
        idx: usize,
        next_ip: usize,
    ) -> (r: StepEvent)
        requires
            old(self).step_pre(*block, pre, op, idx, next_ip),
            is_constant_op(op),
        ensures
            final(self).step_post(*old(self), *block, pre, r),
    {
        match block.read_constant(idx) {
            Some(v) => {
                proof {
                    assert(v.deep_view() == block.constants.deep_view()[idx as int]);
                }
                self.stack.push(v);
                self.ip = next_ip;
                proof {
                    assert(self.stack.deep_view() =~= pre.stack.push(
                        block.constants.deep_view()[idx as int],
                    ));
                }
                StepEvent::Continued
            },
            None => StepEvent::Faulted(VmError::IndexOutOfRange),
        }
    }

    /// `Str` family: push the string-pool entry the operand indexes.
    fn op_string(
        &mut self,
        block: &Block,
        Ghost(pre): Ghost<MachineState>,
        op: OpCode,
        idx: usize,
        next_ip: usize,
    ) -> (r: StepEvent)
        requires
            old(self).step_pre(*block, pre, op, idx, next_ip),
            is_string_op(op),
        ensures
            final(self).step_post(*old(self), *block, pre, r),
    {
        match block.read_string(idx) {
            Some(s) => {
                self.stack.push(Value::Str(s));
                self.ip = next_ip;
                proof {
                    assert(self.stack.deep_view() =~= pre.stack.push(
                        ValueModel::Str(block.strings.deep_view()[idx as int]),
                    ));
                }
                StepEvent::Continued
            },
            None => StepEvent::Faulted(VmError::IndexOutOfRange),
        }
    }

    /// `Nil`, `True`, `False`: push the corresponding literal.
    fn op_literal(
        &mut self,
        block: &Block,
        Ghost(pre): Ghost<MachineState>,
        op: OpCode,
        idx: usize,
        next_ip: usize,
    ) -> (r: StepEvent)
        requires
            old(self).step_pre(*block, pre, op, idx, next_ip),
            op == OpCode::Nil || op == OpCode::True || op == OpCode::False,
        ensures
            final(self).step_post(*old(self), *block, pre, r),
    {
        let v = match op {
            OpCode::Nil => Value::Nil,
            OpCode::True => Value::Boolean(true),
            _ => Value::Boolean(false),
        };
        let ghost m = v.deep_view();
        self.stack.push(v);
        self.ip = next_ip;
        proof {
            assert(self.stack.deep_view() =~= pre.stack.push(m));
        }
        StepEvent::Continued
    }

    /// `Negate`: the top of stack must be a number; replace it with its
    /// arithmetic negation. On a fault the stack is not touched.
    fn op_negate(
        &mut self,
        block: &Block,
        Ghost(pre): Ghost<MachineState>,
        idx: usize,
        next_ip: usize,
    ) -> (r: StepEvent)
        requires
            old(self).step_pre(*block, pre, OpCode::Negate, idx, next_ip),
        ensures
            final(self).step_post(*old(self), *block, pre, r),
    {
        let n = self.stack.len();
        if n == 0 {
            return StepEvent::Faulted(VmError::StackUnderflow);
        }
        let x = match &self.stack[n - 1] {
            Value::Number(x) => *x,
            _ => {
                return StepEvent::Faulted(VmError::OperandMustBeNumber);
            },
        };
        self.stack.pop();
        self.stack.push(Value::Number(num_neg(x)));
        self.ip = next_ip;
        proof {
            assert(self.stack.deep_view() =~= pre.stack.drop_last().push(
                ValueModel::Number(neg_bits(x)),
            ));
        }
        StepEvent::Continued
    }

    /// The four arithmetic instructions: both operands must be numbers,
    /// except that `Add` on two strings concatenates.
    fn op_arith(
        &mut self,
        block: &Block,
        Ghost(pre): Ghost<MachineState>,
        op: OpCode,
        idx: usize,
        next_ip: usize,
    ) -> (r: StepEvent)
        requires
            old(self).step_pre(*block, pre, op, idx, next_ip),
            is_arith_op(op),
        ensures
            final(self).step_post(*old(self), *block, pre, r),
    {
        let n = self.stack.len();
        if n < 2 {
            return StepEvent::Faulted(VmError::StackUnderflow);
        }
        let both_strings = matches!(&self.stack[n - 1], Value::Str(_)) && matches!(
            &self.stack[n - 2],
            Value::Str(_),
        );
        if both_strings {
            if !matches!(op, OpCode::Add) {
                return StepEvent::Faulted(VmError::OperandsMustBeNumbers);
            }
            let joined = match (&self.stack[n - 2], &self.stack[n - 1]) {
                (Value::Str(x), Value::Str(y)) => concat_strings(x, y),
                _ => {
                    return StepEvent::Faulted(VmError::OperandsMustBeNumbers);
                },
            };
            let ghost m = joined@;
            self.stack.pop();
            self.stack.pop();
            self.stack.push(Value::Str(joined));
            self.ip = next_ip;
            proof {
                assert(pre.stack[pre.stack.len() - 2] matches ValueModel::Str(x) && pre.stack[pre
                    .stack.len() - 1] matches ValueModel::Str(y) && m == x + y && self
                    .stack
                    .deep_view() =~= pre.stack.drop_last().drop_last().push(ValueModel::Str(x + y)));
            }
            return StepEvent::Continued;
        }
        let y = match &self.stack[n - 1] {
            Value::Number(y) => *y,
            _ => {
                return StepEvent::Faulted(VmError::OperandsMustBeNumbers);
            },
        };
        let x = match &self.stack[n - 2] {
            Value::Number(x) => *x,
            _ => {
                return StepEvent::Faulted(VmError::OperandsMustBeNumbers);
            },
        };
        let z = match op {
            OpCode::Add => num_add(x, y),
            OpCode::Subtract => num_sub(x, y),
            OpCode::Multiply => num_mul(x, y),
            _ => num_div(x, y),
        };
        self.stack.pop();
        self.stack.pop();
        self.stack.push(Value::Number(z));
        self.ip = next_ip;
        proof {
            assert(z == spec_arith_bits(op, x, y));
            assert(self.stack.deep_view() =~= pre.stack.drop_last().drop_last().push(
                ValueModel::Number(spec_arith_bits(op, x, y)),
            ));
        }
        StepEvent::Continued
    }

    /// `Equal`: pop two, push whether they are equal under the value
    /// equality rules.
    fn op_equal(
        &mut self,
        block: &Block,
        Ghost(pre): Ghost<MachineState>,
        idx: usize,
        next_ip: usize,
    ) -> (r: StepEvent)
        requires
            old(self).step_pre(*block, pre, OpCode::Equal, idx, next_ip),
        ensures
            final(self).step_post(*old(self), *block, pre, r),
    {
        let n = self.stack.len();
        if n < 2 {
            return StepEvent::Faulted(VmError::StackUnderflow);
        }
        let eq = values_equal(&self.stack[n - 2], &self.stack[n - 1]);
        self.stack.pop();
        self.stack.pop();
        self.stack.push(Value::Boolean(eq));
        self.ip = next_ip;
        proof {
            assert(self.stack.deep_view() =~= pre.stack.drop_last().drop_last().push(
                ValueModel::Boolean(
                    spec_values_equal(pre.stack[pre.stack.len() - 2], pre.stack[pre.stack.len() - 1]),
                ),
            ));
        }
        StepEvent::Continued
    }

    /// `Greater` and `Less`: both operands must be numbers; push the
    /// IEEE 754 ordering verdict.
    fn op_compare(
        &mut self,
        block: &Block,
        Ghost(pre): Ghost<MachineState>,
        op: OpCode,
        idx: usize,
        next_ip: usize,
    ) -> (r: StepEvent)
        requires
            old(self).step_pre(*block, pre, op, idx, next_ip),
            op == OpCode::Greater || op == OpCode::Less,
        ensures
            final(self).step_post(*old(self), *block, pre, r),
    {
        let n = self.stack.len();
        if n < 2 {
            return StepEvent::Faulted(VmError::StackUnderflow);
        }
        let y = match &self.stack[n - 1] {
            Value::Number(y) => *y,
            _ => {
                return StepEvent::Faulted(VmError::OperandsMustBeNumbers);
            },
        };
        let x = match &self.stack[n - 2] {
            Value::Number(x) => *x,
            _ => {
                return StepEvent::Faulted(VmError::OperandsMustBeNumbers);
            },
        };
        let cmp = if matches!(op, OpCode::Greater) {
            num_gt(x, y)
        } else {
            num_lt(x, y)
        };
        self.stack.pop();
        self.stack.pop();
        self.stack.push(Value::Boolean(cmp));
        self.ip = next_ip;
        proof {
            assert(self.stack.deep_view() =~= pre.stack.drop_last().drop_last().push(
                ValueModel::Boolean(
                    if op == OpCode::Greater {
                        gt_bits(x, y)
                    } else {
                        lt_bits(x, y)
                    },
                ),
            ));
        }
        StepEvent::Continued
    }

    /// `Not`: replace the top of stack with its logical negation under
    /// the truthiness rule.
    fn op_not(
        &mut self,
        block: &Block,
        Ghost(pre): Ghost<MachineState>,
        idx: usize,
        next_ip: usize,
    ) -> (r: StepEvent)
        requires
            old(self).step_pre(*block, pre, OpCode::Not, idx, next_ip),
        ensures
            final(self).step_post(*old(self), *block, pre, r),
    {
        let n = self.stack.len();
        if n == 0 {
            return StepEvent::Faulted(VmError::StackUnderflow);
        }
        let t = self.stack[n - 1].truthy();
        self.stack.pop();
        self.stack.push(Value::Boolean(!t));
        self.ip = next_ip;
        proof {
            assert(self.stack.deep_view() =~= pre.stack.drop_last().push(
                ValueModel::Boolean(!spec_truthy(pre.stack.last())),
            ));
        }
        StepEvent::Continued
    }

    /// `Print`: pop the top of stack and surface it.
    fn op_print(
        &mut self,
        block: &Block,
        Ghost(pre): Ghost<MachineState>,
        idx: usize,
        next_ip: usize,
    ) -> (r: StepEvent)
        requires
            old(self).step_pre(*block, pre, OpCode::Print, idx, next_ip),
        ensures
            final(self).step_post(*old(self), *block, pre, r),
    {
        if self.stack.len() == 0 {
            return StepEvent::Faulted(VmError::StackUnderflow);
        }
        let v = self.stack.pop().unwrap();
        self.output.push(v);
        self.ip = next_ip;
        proof {
            assert(self.stack.deep_view() =~= pre.stack.drop_last());
            assert(self.output.deep_view() =~= pre.output.push(pre.stack.last()));
        }
        StepEvent::Continued
    }

    /// `Pop`: discard the top of stack.
    fn op_pop(
        &mut self,
        block: &Block,
        Ghost(pre): Ghost<MachineState>,
        idx: usize,
        next_ip: usize,
    ) -> (r: StepEvent)
        requires
            old(self).step_pre(*block, pre, OpCode::Pop, idx, next_ip),
        ensures
            final(self).step_post(*old(self), *block, pre, r),
    {
        if self.stack.len() == 0 {
            return StepEvent::Faulted(VmError::StackUnderflow);
        }
        self.stack.pop();
        self.ip = next_ip;
        proof {
            assert(self.stack.deep_view() =~= pre.stack.drop_last());
        }
        StepEvent::Continued
    }

    /// `GetValue` family: push a copy of the stack slot the operand
    /// names.
    fn op_get_value(
        &mut self,
        block: &Block,
        Ghost(pre): Ghost<MachineState>,
        op: OpCode,
        idx: usize,
        next_ip: usize,
    ) -> (r: StepEvent)
        requires
            old(self).step_pre(*block, pre, op, idx, next_ip),
            is_get_value_op(op),
        ensures
            final(self).step_post(*old(self), *block, pre, r),
    {
        if idx >= self.stack.len() {
            return StepEvent::Faulted(VmError::SlotOutOfRange);
        }
        let v = self.stack[idx].dup();
        self.stack.push(v);
        self.ip = next_ip;
        proof {
            assert(self.stack.deep_view() =~= pre.stack.push(pre.stack[idx as int]));
        }
        StepEvent::Continued
    }

    /// `SetValue` family: store the top of stack into the named slot
    /// without popping (assignment is itself an expression).
    fn op_set_value(
        &mut self,
        block: &Block,
        Ghost(pre): Ghost<MachineState>,
        op: OpCode,
        idx: usize,
        next_ip: usize,
    ) -> (r: StepEvent)
        requires
            old(self).step_pre(*block, pre, op, idx, next_ip),
            is_set_value_op(op),
        ensures
            final(self).step_post(*old(self), *block, pre, r),
    {
        let n = self.stack.len();
        if n == 0 {
            return StepEvent::Faulted(VmError::StackUnderflow);
        }
        if idx >= n {
            return StepEvent::Faulted(VmError::SlotOutOfRange);
        }
        let v = self.stack[n - 1].dup();
        self.stack[idx] = v;
        self.ip = next_ip;
        proof {
            assert(self.stack.deep_view() =~= pre.stack.update(idx as int, pre.stack.last()));
        }
        StepEvent::Continued
    }

    /// `GetVariable` family: the operand indexes a constant that must
    /// hold a name; push that name's current global binding.
    fn op_get_variable(
        &mut self,
        block: &Block,
        Ghost(pre): Ghost<MachineState>,
        op: OpCode,
        idx: usize,
        next_ip: usize,
    ) -> (r: StepEvent)
        requires
            old(self).step_pre(*block, pre, op, idx, next_ip),
            is_get_variable_op(op),
        ensures
            final(self).step_post(*old(self), *block, pre, r),
    {
        let name = match block.read_constant(idx) {
            None => {
                return StepEvent::Faulted(VmError::IndexOutOfRange);
            },
            Some(Value::Str(name)) => name,
            Some(_) => {
                return StepEvent::Faulted(VmError::BadVariableName);
            },
        };
        proof {
            assert(block.constants.deep_view()[idx as int] == ValueModel::Str(name@));
        }
        match lookup_global(&self.globals, &name) {
            Some(v) => {
                let ghost m = v.deep_view();
                self.stack.push(v);
                self.ip = next_ip;
                proof {
                    assert(spec_lookup(pre.globals, name@) == Some(m));
                    assert(self.stack.deep_view() =~= pre.stack.push(m));
                }
                StepEvent::Continued
            },
            None => StepEvent::Faulted(VmError::UndefinedVariable),
        }
    }

    /// `SetVariable` family: bind the name the operand's constant holds
    /// to the top of stack, without popping; a later binding shadows an
    /// earlier one.
    fn op_set_variable(
        &mut self,
        block: &Block,
        Ghost(pre): Ghost<MachineState>,
        op: OpCode,
        idx: usize,
        next_ip: usize,
    ) -> (r: StepEvent)
        requires
            old(self).step_pre(*block, pre, op, idx, next_ip),
            is_set_variable_op(op),
        ensures
            final(self).step_post(*old(self), *block, pre, r),
    {
        let name = match block.read_constant(idx) {
            None => {
                return StepEvent::Faulted(VmError::IndexOutOfRange);
            },
            Some(Value::Str(name)) => name,
            Some(_) => {
                return StepEvent::Faulted(VmError::BadVariableName);
            },
        };
        proof {
            assert(block.constants.deep_view()[idx as int] == ValueModel::Str(name@));
        }
        let n = self.stack.len();
        if n == 0 {
            return StepEvent::Faulted(VmError::StackUnderflow);
        }
        let v = self.stack[n - 1].dup();
        self.globals.push((name, v));
        self.ip = next_ip;
        proof {
            assert(self.globals.deep_view() =~= pre.globals.push((name@, pre.stack.last())));
        }
        StepEvent::Continued
    }

    /// Execute one instruction at the instruction pointer, mirroring
    /// `spec_step` exactly; a fault mutates nothing.
    fn step(&mut self, block: &Block) -> (r: StepEvent)
        ensures
            final(self).step_post(*old(self), *block, old(self).state(), r),
    {
        let d = match block.decode_instruction(self.ip) {
            Some(d) => d,
            None => {
                return StepEvent::Faulted(VmError::DecodeFault);
            },
        };
        let (op, operand, size) = d;
        let idx = operand as usize;
        let code_len = block.instructions.len();
        proof {
            assert(spec_decode(block.instructions@, self.ip as int) is Some);
            assert(self.ip + size <= code_len);
        }
        let next_ip = self.ip + size;
        let ghost pre = self.state();
        match op {
            OpCode::Return => self.op_return(block, Ghost(pre), idx, next_ip),
            OpCode::Constant => self.op_constant(block, Ghost(pre), op, idx, next_ip),
            OpCode::Constant2 => self.op_constant(block, Ghost(pre), op, idx, next_ip),
            OpCode::Constant4 => self.op_constant(block, Ghost(pre), op, idx, next_ip),
            OpCode::Str => self.op_string(block, Ghost(pre), op, idx, next_ip),
            OpCode::Str2 => self.op_string(block, Ghost(pre), op, idx, next_ip),
            OpCode::Str4 => self.op_string(block, Ghost(pre), op, idx, next_ip),
            OpCode::Nil => self.op_literal(block, Ghost(pre), op, idx, next_ip),
            OpCode::True => self.op_literal(block, Ghost(pre), op, idx, next_ip),
            OpCode::False => self.op_literal(block, Ghost(pre), op, idx, next_ip),
            OpCode::Negate => self.op_negate(block, Ghost(pre), idx, next_ip),
            OpCode::Add => self.op_arith(block, Ghost(pre), op, idx, next_ip),
            OpCode::Subtract => self.op_arith(block, Ghost(pre), op, idx, next_ip),
            OpCode::Multiply => self.op_arith(block, Ghost(pre), op, idx, next_ip),
            OpCode::Divide => self.op_arith(block, Ghost(pre), op, idx, next_ip),
            OpCode::Equal => self.op_equal(block, Ghost(pre), idx, next_ip),
            OpCode::Greater => self.op_compare(block, Ghost(pre), op, idx, next_ip),
            OpCode::Less => self.op_compare(block, Ghost(pre), op, idx, next_ip),
            OpCode::Not => self.op_not(block, Ghost(pre), idx, next_ip),
            OpCode::Print => self.op_print(block, Ghost(pre), idx, next_ip),
            OpCode::Pop => self.op_pop(block, Ghost(pre), idx, next_ip),
            OpCode::GetValue => self.op_get_value(block, Ghost(pre), op, idx, next_ip),
            OpCode::GetValue2 => self.op_get_value(block, Ghost(pre), op, idx, next_ip),
            OpCode::GetValue4 => self.op_get_value(block, Ghost(pre), op, idx, next_ip),
            OpCode::SetValue => self.op_set_value(block, Ghost(pre), op, idx, next_ip),
            OpCode::SetValue2 => self.op_set_value(block, Ghost(pre), op, idx, next_ip),
            OpCode::SetValue4 => self.op_set_value(block, Ghost(pre), op, idx, next_ip),
            OpCode::GetVariable => self.op_get_variable(block, Ghost(pre), op, idx, next_ip),
            OpCode::GetVariable2 => self.op_get_variable(block, Ghost(pre), op, idx, next_ip),
            OpCode::GetVariable4 => self.op_get_variable(block, Ghost(pre), op, idx, next_ip),
            OpCode::SetVariable => self.op_set_variable(block, Ghost(pre), op, idx, next_ip),
            OpCode::SetVariable2 => self.op_set_variable(block, Ghost(pre), op, idx, next_ip),
            OpCode::SetVariable4 => self.op_set_variable(block, Ghost(pre), op, idx, next_ip),
        }
    }

    /// The decode-dispatch-execute loop: exactly what `spec_run` says
    /// of the starting state, with the fault and its source line
    /// recorded when the run faults.
    pub fn run(&mut self, block: Block) -> (res: InterpretResult)
        ensures
            ({
                let o = spec_run(block, old(self).state());
                &&& res == o.result
                &&& final(self).state() == o.state
                &&& final(self).error == o.error
                &&& final(self).error_line == (if o.error is Some {
                    spec_line_for(block.lines@, o.state.ip)
                } else {
                    None
                })
            }),
    {
        self.error = None;
        self.error_line = None;
        loop
            invariant
                spec_run(block, self.state()) == spec_run(block, old(self).state()),
                self.error is None,
                self.error_line is None,
            decreases block.instructions@.len() - self.state().ip,
        {
            let ghost pre = self.state();
            proof {
                lemma_step_continue_advances(block, pre);
            }
            let ev = self.step(&block);
            match ev {
                StepEvent::Continued => {
                },
                StepEvent::Halted => {
                    return InterpretResult::Success;
                },
                StepEvent::Faulted(e) => {
                    self.error = Some(e);
                    self.error_line = block.get_line(self.ip);
                    return InterpretResult::RuntimeError;
                },
            }
        }
    }

    /// Reset, then run the compiled block if the front end produced
    /// one; its absence is a compile error and nothing is executed.
    pub fn interpret(&mut self, compiled: Option<Block>) -> (res: InterpretResult)
        ensures
            ({
                match compiled {
                    None => {
                        &&& res == InterpretResult::CompileError
                        &&& final(self).state() == spec_reset_state()
                        &&& final(self).error is None
                        &&& final(self).error_line is None
                    },
                    Some(b) => {
                        let o = spec_run(b, spec_reset_state());
                        &&& res == o.result
                        &&& final(self).state() == o.state
                        &&& final(self).error == o.error
                        &&& final(self).error_line == (if o.error is Some {
                            spec_line_for(b.lines@, o.state.ip)
                        } else {
                            None
                        })
                    },
                }
            }),
    {
        self.reset();
        match compiled {
            Some(block) => self.run(block),
            None => InterpretResult::CompileError,
        }
    }
}

} // verus!

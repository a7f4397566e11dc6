//! The machine state: a snapshot of registers, memory and I/O buffers, the
//! construction of an initial snapshot from a program image, and the
//! fetch-execute loop that drives transitions until halt.

use vstd::prelude::*;

use crate::operator::decode_spec;
use crate::operator::exec_op;
use crate::operator::execute;
use crate::operator::get_operator;
use crate::operator::takes_arg;

verus! {

/// Number of 8-bit memory cells. Program and data share this space, and a
/// single address byte reaches every cell.
pub const MEM_SIZE: usize = 256;

/// Number of memory-mapped input ports, one per possible port byte.
pub const NUM_INPUTS: usize = 256;

/// Number of slots in the bounded most-recent-first output log.
pub const OUTPUT_SLOTS: usize = 40;

/// Mathematical model of a machine snapshot: what the contracts speak of.
#[verifier::ext_equal]
pub ghost struct StateView {
    pub pc: int,
    pub ac: u8,
    pub memory: Seq<u8>,
    pub inputs: Seq<u8>,
    pub output: Seq<u8>,
    pub halt: bool,
}

/// A machine snapshot: program counter, accumulator, memory, input ports,
/// output log and halt flag.
pub struct State {
    /// Index of the next instruction byte to fetch.
    pub pc: usize,
    /// The accumulator, the sole general-purpose register.
    pub ac: u8,
    /// The 256 memory cells holding both program and data.
    pub memory: Vec<u8>,
    /// External readable state, written only at construction.
    pub inputs: Vec<u8>,
    /// Bounded log of emitted values, most recent first.
    pub output: Vec<u8>,
    /// Once true, no further instruction executes.
    pub halt: bool,
}

impl View for State {
    type V = StateView;

    open spec fn view(&self) -> StateView {
        StateView {
            pc: self.pc as int,
            ac: self.ac,
            memory: self.memory@,
            inputs: self.inputs@,
            output: self.output@,
            halt: self.halt,
        }
    }
}

/// Errors a run can surface: a rejected program image at construction, a
/// fetch outside memory, or the optional step ceiling being exhausted.
#[derive(Copy, Clone, Debug, PartialEq, Eq, Structural)]
pub enum VmError {
    /// The program image is longer than the memory capacity.
    ProgramTooLong,
    /// The program counter, or the argument byte after it, fell outside
    /// memory before a fetch.
    OutOfBounds,
    /// The step ceiling was reached before the machine halted.
    StepLimitExceeded,
}

impl State {
    /// The buffers have their fixed sizes. Constructors establish this and
    /// every transition preserves it.
    pub open spec fn wf(self) -> bool {
        &&& self.memory@.len() == MEM_SIZE
        &&& self.inputs@.len() == NUM_INPUTS
        &&& self.output@.len() == OUTPUT_SLOTS
    }

    /// Build an initial snapshot: the program at the low end of memory, the
    /// rest of memory zero-filled, all input ports zero, registers zero,
    /// not halted. A program longer than memory is rejected.
    pub fn new(program: &[u8]) -> (r: Result<State, VmError>)
        ensures
            match r {
                Ok(s) => {
                    &&& program@.len() <= MEM_SIZE
                    &&& s.wf()
                    &&& s@.pc == 0
                    &&& s@.ac == 0
                    &&& !s@.halt
                    &&& forall|i: int|
                        0 <= i < program@.len() ==> s@.memory[i] == program@[i]
                    &&& forall|i: int|
                        program@.len() <= i < MEM_SIZE ==> s@.memory[i] == 0
                    &&& forall|i: int| 0 <= i < NUM_INPUTS ==> s@.inputs[i] == 0
                    &&& forall|i: int| 0 <= i < OUTPUT_SLOTS ==> s@.output[i] == 0
                },
                Err(e) => e == VmError::ProgramTooLong && program@.len() > MEM_SIZE,
            },
    {
        let inputs = zero_filled(NUM_INPUTS);
        State::with_inputs(program, inputs)
    }

    /// Build an initial snapshot as `new` does, but with the given values
    /// in the low input ports; the remaining ports are zero. The port array
    /// is fixed at `NUM_INPUTS` cells, so no more than that may be given.
    pub fn new_with_inputs(program: &[u8], input_values: &[u8]) -> (r: Result<
        State,
        VmError,
    >)
        requires
            input_values@.len() <= NUM_INPUTS,
        ensures
            match r {
                Ok(s) => {
                    &&& program@.len() <= MEM_SIZE
                    &&& s.wf()
                    &&& s@.pc == 0
                    &&& s@.ac == 0
                    &&& !s@.halt
                    &&& forall|i: int|
                        0 <= i < program@.len() ==> s@.memory[i] == program@[i]
                    &&& forall|i: int|
                        program@.len() <= i < MEM_SIZE ==> s@.memory[i] == 0
                    &&& forall|i: int|
                        0 <= i < input_values@.len() ==> s@.inputs[i] == input_values@[i]
                    &&& forall|i: int|
                        input_values@.len() <= i < NUM_INPUTS ==> s@.inputs[i] == 0
                    &&& forall|i: int| 0 <= i < OUTPUT_SLOTS ==> s@.output[i] == 0
                },
                Err(e) => e == VmError::ProgramTooLong && program@.len() > MEM_SIZE,
            },
    {
        let inputs = copy_padded(input_values, NUM_INPUTS);
        State::with_inputs(program, inputs)
    }

    /// Shared constructor body: place the program, zero-fill the rest, and
    /// take the already-built input port array as given.
    fn with_inputs(program: &[u8], inputs: Vec<u8>) -> (r: Result<State, VmError>)
        requires
            inputs@.len() == NUM_INPUTS,
        ensures
            match r {
                Ok(s) => {
                    &&& program@.len() <= MEM_SIZE
                    &&& s.wf()
                    &&& s@.pc == 0
                    &&& s@.ac == 0
                    &&& !s@.halt
                    &&& s@.inputs == inputs@
                    &&& forall|i: int|
                        0 <= i < program@.len() ==> s@.memory[i] == program@[i]
                    &&& forall|i: int|
                        program@.len() <= i < MEM_SIZE ==> s@.memory[i] == 0
                    &&& forall|i: int| 0 <= i < OUTPUT_SLOTS ==> s@.output[i] == 0
                },
                Err(e) => e == VmError::ProgramTooLong && program@.len() > MEM_SIZE,
            },
    {
        if program.len() > MEM_SIZE {
            return Err(VmError::ProgramTooLong);
        }
        let memory = copy_padded(program, MEM_SIZE);
        let output = zero_filled(OUTPUT_SLOTS);
        Ok(State { pc: 0, ac: 0, memory, inputs, output, halt: false })
    }
}

/// What one fetch-execute step yields from a snapshot: the successor
/// snapshot, or the out-of-bounds fault when the program counter, or the
/// argument byte after it, lies outside memory.
pub open spec fn step_spec(pre: StateView) -> Result<StateView, VmError> {
    if !(0 <= pre.pc < MEM_SIZE) {
        Err(VmError::OutOfBounds)
    } else {
        let op = decode_spec(pre.memory[pre.pc]);
        if takes_arg(op) {
            if pre.pc + 1 < MEM_SIZE {
                Ok(exec_op(pre, op, pre.memory[pre.pc + 1]))
            } else {
                Err(VmError::OutOfBounds)
            }
        } else {
            Ok(exec_op(pre, op, 0))
        }
    }
}

/// What running a snapshot with a given step budget yields: the snapshot
/// the run stops at, together with how it stopped. A halted snapshot stops
/// at once; a faulting step stops with the fault and the last valid
/// snapshot; an exhausted budget stops with `StepLimitExceeded`.
pub open spec fn run_spec(pre: StateView, fuel: nat) -> (StateView, Result<(), VmError>)
    decreases fuel,
{
    if pre.halt {
        (pre, Ok(()))
    } else if fuel == 0 {
        (pre, Err(VmError::StepLimitExceeded))
    } else {
        match step_spec(pre) {
            Ok(next) => run_spec(next, (fuel - 1) as nat),
            Err(e) => (pre, Err(e)),
        }
    }
}

/// A run reports a normal stop only at a halted snapshot: whenever
/// `run_spec` yields `Ok`, the snapshot it stops at has the halt flag set.
pub proof fn lemma_run_ok_means_halted(pre: StateView, fuel: nat)
    ensures
        run_spec(pre, fuel).1 == Ok::<(), VmError>(()) ==> run_spec(pre, fuel).0.halt,
    decreases fuel,
{
    if !pre.halt && fuel > 0 {
        match step_spec(pre) {
            Ok(next) => lemma_run_ok_means_halted(next, (fuel - 1) as nat),
            Err(_) => {},
        }
    }
}

/// Running an already-halted snapshot is a no-op, whatever the step
/// budget: the run stops at once, leaves the snapshot as it is, and
/// reports a normal halt.
pub proof fn lemma_halted_run_is_no_op(pre: StateView, fuel: nat)
    requires
        pre.halt,
    ensures
        run_spec(pre, fuel) == (pre, Ok::<(), VmError>(())),
{
}

impl State {
    /// One fetch-execute step: decode the opcode at the program counter,
    /// read the argument byte where the kind takes one, and apply the
    /// transition. On an out-of-bounds fetch the snapshot is unchanged and
    /// the fault is returned.
    pub fn step(&mut self) -> (r: Result<(), VmError>)
        requires
            old(self).wf(),
            !old(self).halt,
        ensures
            final(self).wf(),
            match step_spec(old(self)@) {
                Ok(v) => r == Ok::<(), VmError>(()) && final(self)@ == v,
                Err(e) => r == Err::<(), VmError>(e) && final(self)@ == old(self)@,
            },
    {
        if self.pc >= MEM_SIZE {
            return Err(VmError::OutOfBounds);
        }
        let opcode = self.memory[self.pc];
        let operator = get_operator(&opcode);
        if operator.requires_arg {
            if self.pc + 1 >= MEM_SIZE {
                return Err(VmError::OutOfBounds);
            }
            let arg = self.memory[self.pc + 1];
            execute(self, operator.mnemonic, arg);
        } else {
            execute(self, operator.mnemonic, 0);
        }
        Ok(())
    }

    /// Drive fetch-execute steps until the machine halts, a step faults, or
    /// `max_steps` steps have run. The snapshot is left where the run
    /// stopped: on a fault that is the last valid snapshot.
    pub fn run(&mut self, max_steps: usize) -> (r: Result<(), VmError>)
        requires
            old(self).wf(),
        ensures
            final(self).wf(),
            final(self)@ == run_spec(old(self)@, max_steps as nat).0,
            r == run_spec(old(self)@, max_steps as nat).1,
            r == Ok::<(), VmError>(()) ==> final(self).halt,
    {
        let mut steps: usize = 0;
        loop
            invariant
                self.wf(),
                steps <= max_steps,
                run_spec(old(self)@, max_steps as nat) == run_spec(
                    self@,
                    (max_steps - steps) as nat,
                ),
            decreases max_steps - steps,
        {
            if self.halt {
                return Ok(());
            }
            if steps == max_steps {
                return Err(VmError::StepLimitExceeded);
            }
            match self.step() {
                Ok(()) => {},
                Err(e) => {
                    return Err(e);
                },
            }
            steps = steps + 1;
        }
    }
}

/// A vector of `len` zero bytes.
fn zero_filled(len: usize) -> (r: Vec<u8>)
    ensures
        r@.len() == len,
        forall|i: int| 0 <= i < len ==> r@[i] == 0,
{
    let mut v: Vec<u8> = Vec::new();
    let mut k: usize = 0;
    while k < len
        invariant
            k <= len,
            v@.len() == k,
            forall|i: int| 0 <= i < k ==> v@[i] == 0,
        decreases len - k,
    {
        v.push(0);
        k = k + 1;
    }
    v
}

/// The bytes of `src` followed by zeros, `len` bytes in all.
fn copy_padded(src: &[u8], len: usize) -> (r: Vec<u8>)
    requires
        src@.len() <= len,
    ensures
        r@.len() == len,
        forall|i: int| 0 <= i < src@.len() ==> r@[i] == src@[i],
        forall|i: int| src@.len() <= i < len ==> r@[i] == 0,
{
    let mut v: Vec<u8> = Vec::new();
    let mut k: usize = 0;
    while k < src.len()
        invariant
            k <= src@.len() <= len,
            v@.len() == k,
            forall|i: int| 0 <= i < k ==> v@[i] == src@[i],
        decreases src@.len() - k,
    {
        v.push(src[k]);
        k = k + 1;
    }
    while k < len
        invariant
            src@.len() <= k <= len,
            v@.len() == k,
            forall|i: int| 0 <= i < src@.len() ==> v@[i] == src@[i],
            forall|i: int| src@.len() <= i < k ==> v@[i] == 0,
        decreases len - k,
    {
        v.push(0);
        k = k + 1;
    }
    v
}

} // verus!

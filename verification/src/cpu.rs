//! The processor: a register file, a memory, and the fetch, decode, execute
//! and advance cycle over them.
//!
//! Policies, fixed here once:
//! - subtraction wraps modulo 65536, and so does the instruction pointer's
//!   increment;
//! - a step executes first and then increments the instruction pointer,
//!   unless the instruction itself wrote to it;
//! - an unimplemented opcode is reported and skipped;
//! - an instruction that fails leaves the whole state as it was, with the
//!   instruction pointer still at the failing word.

use crate::fault::Fault;
use crate::instruction::{
    decode, register_pair, spec_decode, spec_register_pair, ArgumentForm, Operation,
};
use crate::memory::{read_model, zeroed, Memory};
use crate::register::{
    lemma_lookup_by_index, lemma_lookup_by_name, lemma_names_printable, register_names, Register,
    REGISTER_COUNT,
};
use crate::table::{render_table, table_text};
use vstd::prelude::*;

verus! {

/// The size of the memory that a processor makes for itself when it is given
/// none.
pub const DEFAULT_MEMORY_SIZE: usize = 1024;

/// The mathematical state of a processor: the values of its registers, in
/// file order, and the cells of its memory.
pub struct CpuState {
    pub registers: Seq<u16>,
    pub memory: Seq<u16>,
}

impl CpuState {
    /// There are exactly eight registers.
    pub open spec fn wf(self) -> bool {
        self.registers.len() == 8
    }

    /// The value of a register.
    pub open spec fn get(self, register: Register) -> u16 {
        self.registers[register.spec_index()]
    }

    /// The state with one register overwritten.
    pub open spec fn set(self, register: Register, value: u16) -> CpuState {
        CpuState {
            registers: self.registers.update(register.spec_index(), value),
            memory: self.memory,
        }
    }

    /// The instruction pointer addresses no cell of the memory.
    pub open spec fn halted(self) -> bool {
        self.get(Register::IR) >= self.memory.len()
    }

    /// The word that the instruction pointer addresses.
    pub open spec fn current_word(self) -> u16
        recommends
            !self.halted(),
    {
        self.memory[self.get(Register::IR) as int]
    }
}

/// What executing one word reports when it does not fail.
#[derive(Clone, Copy, Debug, PartialEq, Eq, Structural)]
pub enum Event {
    /// An implemented operation was carried out.
    Executed { operation: Operation, argument: u8 },
    /// The opcode selects no operation; nothing was changed.
    Unimplemented { opcode: u8 },
}

/// What one step of the processor did.
#[derive(Clone, Copy, Debug, PartialEq, Eq, Structural)]
pub enum StepOutcome {
    /// One word was fetched and executed.
    Continued(Event),
    /// The instruction pointer, `ir`, is out of the memory's bounds.
    Halted { ir: u16 },
    /// The word at `address` failed with `cause`; nothing was changed.
    Error { address: u16, cause: Fault },
}

/// How a run ended, and after how many executed instructions.
#[derive(Clone, Copy, Debug, PartialEq, Eq, Structural)]
pub enum RunOutcome {
    /// The instruction pointer left the memory.
    Halted { steps: u64, ir: u16 },
    /// The word at `address` failed with `cause`.
    Error { steps: u64, address: u16, cause: Fault },
    /// The step budget ran out before the processor halted.
    StepLimit { steps: u64 },
}

/// Subtraction modulo 65536: below zero the result is
/// `65536 - (right - left)`.
pub open spec fn wrapping_difference(left: u16, right: u16) -> u16 {
    if left >= right {
        (left - right) as u16
    } else {
        (65536 - (right - left)) as u16
    }
}

/// The successor modulo 65536.
pub open spec fn wrapping_successor(value: u16) -> u16 {
    if value == 0xFFFF {
        0
    } else {
        (value + 1) as u16
    }
}

/// What a lookup of `name` reads from the state.
pub open spec fn get_register_model(state: CpuState, name: Seq<char>) -> Result<u16, Fault> {
    match Register::spec_from_name(name) {
        Some(register) => Ok(state.get(register)),
        None => Err(Fault::UnknownRegister),
    }
}

/// The state after an attempt to set the register called `name`.
pub open spec fn set_register_model(state: CpuState, name: Seq<char>, value: u16) -> CpuState {
    match Register::spec_from_name(name) {
        Some(register) => state.set(register, value),
        None => state,
    }
}

/// What an attempt to set the register called `name` reports.
pub open spec fn set_register_outcome(name: Seq<char>) -> Result<(), Fault> {
    match Register::spec_from_name(name) {
        Some(_) => Ok(()),
        None => Err(Fault::UnknownRegister),
    }
}

/// The effect of an operation on the state, or the fault that stops it.
pub open spec fn apply(state: CpuState, operation: Operation, argument: u8) -> Result<
    CpuState,
    Fault,
> {
    match operation {
        Operation::MovAImm => Ok(state.set(Register::A, argument as u16)),
        Operation::MovBImm => Ok(state.set(Register::B, argument as u16)),
        Operation::MovCImm => Ok(state.set(Register::C, argument as u16)),
        Operation::MovDImm => Ok(state.set(Register::D, argument as u16)),
        Operation::MovRegReg => match spec_register_pair(argument) {
            Some((destination, source)) => Ok(state.set(destination, state.get(source))),
            None => Err(Fault::UnknownRegister),
        },
        Operation::SubAImm => Ok(
            state.set(Register::A, wrapping_difference(state.get(Register::A), argument as u16)),
        ),
        Operation::SubRegReg => match spec_register_pair(argument) {
            Some((destination, source)) => Ok(
                state.set(
                    destination,
                    wrapping_difference(state.get(destination), state.get(source)),
                ),
            ),
            None => Err(Fault::UnknownRegister),
        },
    }
}

/// The effect of executing a word: that of the operation its opcode
/// selects, and none where the opcode selects no operation.
pub open spec fn execute_model(state: CpuState, word: u16) -> Result<CpuState, Fault> {
    match Operation::spec_from_code(spec_decode(word).0) {
        Some(operation) => apply(state, operation, spec_decode(word).1),
        None => Ok(state),
    }
}

/// What executing a word reports when it does not fail.
pub open spec fn event_of(word: u16) -> Event {
    match Operation::spec_from_code(spec_decode(word).0) {
        Some(operation) => Event::Executed { operation, argument: spec_decode(word).1 },
        None => Event::Unimplemented { opcode: spec_decode(word).0 },
    }
}

/// The word is a two-register instruction whose destination is the
/// instruction pointer: a branch.
pub open spec fn writes_instruction_pointer(word: u16) -> bool {
    match Operation::spec_from_code(spec_decode(word).0) {
        Some(operation) => operation.spec_form() == ArgumentForm::RegisterPair && (match spec_register_pair(
            spec_decode(word).1,
        ) {
            Some((destination, _)) => destination == Register::IR,
            None => false,
        }),
        None => false,
    }
}

/// The state with the instruction pointer moved to the next word.
pub open spec fn advance(state: CpuState) -> CpuState {
    state.set(Register::IR, wrapping_successor(state.get(Register::IR)))
}

/// The state after one step.
pub open spec fn step_state(state: CpuState) -> CpuState {
    if state.halted() {
        state
    } else {
        match execute_model(state, state.current_word()) {
            Ok(next) => if writes_instruction_pointer(state.current_word()) {
                next
            } else {
                advance(next)
            },
            Err(_) => state,
        }
    }
}

/// What one step reports.
pub open spec fn step_outcome(state: CpuState) -> StepOutcome {
    if state.halted() {
        StepOutcome::Halted { ir: state.get(Register::IR) }
    } else {
        match execute_model(state, state.current_word()) {
            Ok(_) => StepOutcome::Continued(event_of(state.current_word())),
            Err(cause) => StepOutcome::Error { address: state.get(Register::IR), cause },
        }
    }
}

/// The state after a run with a budget of `fuel` steps: stepping stops at
/// the first state that is halted or whose word fails, or when the budget
/// is used up.
pub open spec fn run_state(state: CpuState, fuel: nat) -> CpuState
    decreases fuel,
{
    if state.halted() || fuel == 0 || step_outcome(state) is Error {
        state
    } else {
        run_state(step_state(state), (fuel - 1) as nat)
    }
}

/// What a run with a budget of `fuel` steps reports, `done` instructions
/// having been executed before it.
pub open spec fn run_outcome(state: CpuState, done: u64, fuel: nat) -> RunOutcome
    decreases fuel,
{
    if state.halted() {
        RunOutcome::Halted { steps: done, ir: state.get(Register::IR) }
    } else if fuel == 0 {
        RunOutcome::StepLimit { steps: done }
    } else {
        match step_outcome(state) {
            StepOutcome::Error { address, cause } => RunOutcome::Error {
                steps: done,
                address,
                cause,
            },
            _ => run_outcome(step_state(state), (done + 1) as u64, (fuel - 1) as nat),
        }
    }
}

/// A processor: one memory and eight registers.
#[derive(Debug)]
pub struct Cpu {
    memory: Memory,
    registers: [u16; 8],
}

impl View for Cpu {
    type V = CpuState;

    closed spec fn view(&self) -> CpuState {
        CpuState { registers: self.registers@, memory: self.memory@ }
    }
}

impl Cpu {
    /// A processor over `mem`, or over a zeroed memory of the default size
    /// where none is given. Every register starts at zero.
    pub fn new(mem: Option<Memory>) -> (result: Cpu)
        ensures
            result@.registers == Seq::new(8, |i: int| 0u16),
            result@.memory == (match mem {
                Some(memory) => memory@,
                None => zeroed(DEFAULT_MEMORY_SIZE as nat),
            }),
            result@.wf(),
    {
        let memory = match mem {
            Some(memory) => memory,
            None => Memory::new(DEFAULT_MEMORY_SIZE),
        };
        let registers: [u16; 8] = [0u16; 8];
        assert(registers@ =~= Seq::new(8, |i: int| 0u16));
        Cpu { memory, registers }
    }

    /// Every processor has exactly eight registers.
    pub proof fn lemma_well_formed(&self)
        ensures
            self@.wf(),
    {
    }

    /// The value of a register.
    pub fn get(&self, register: Register) -> (result: u16)
        ensures
            result == self@.get(register),
    {
        self.registers[register.index()]
    }

    /// Overwrites a register.
    pub fn set(&mut self, register: Register, value: u16)
        ensures
            final(self)@ == old(self)@.set(register, value),
    {
        let position: usize = register.index();
        self.registers[position] = value;
    }

    /// Overwrites the register called `name`. A name outside the fixed set
    /// is `UnknownRegister` and changes nothing.
    pub fn set_register(&mut self, name: &str, value: u16) -> (result: Result<(), Fault>)
        ensures
            final(self)@ == set_register_model(old(self)@, name@, value),
            result == set_register_outcome(name@),
    {
        match Register::from_name(name) {
            Some(register) => {
                self.set(register, value);
                Ok(())
            },
            None => Err(Fault::UnknownRegister),
        }
    }

    /// The value of the register called `name`. A name outside the fixed
    /// set is `UnknownRegister`.
    pub fn get_register(&self, name: &str) -> (result: Result<u16, Fault>)
        ensures
            result == get_register_model(self@, name@),
    {
        match Register::from_name(name) {
            Some(register) => Ok(self.get(register)),
            None => Err(Fault::UnknownRegister),
        }
    }

    /// The memory, for reading.
    pub fn memory(&self) -> (result: &Memory)
        ensures
            result@ == self@.memory,
    {
        &self.memory
    }

    /// The word at `position`, or `OutOfBounds`.
    pub fn fetch_memory(&self, position: u16) -> (result: Result<u16, Fault>)
        ensures
            result == read_model(self@.memory, position as int),
    {
        self.memory.get_data(position as usize)
    }

    /// Whether the instruction pointer is out of the memory's bounds.
    pub fn is_halted(&self) -> (result: bool)
        ensures
            result == self@.halted(),
    {
        self.get(Register::IR) as usize >= self.memory.len()
    }

    /// The register file as a table in text: a row of the eight names over
    /// a row of their values, for a caller to print.
    pub fn debug(&self) -> (result: String)
        ensures
            result@ == table_text(register_names(), self@.registers),
    {
        let mut headers: Vec<String> = Vec::new();
        let mut values: Vec<u16> = Vec::new();
        let mut position: usize = 0;
        while position < REGISTER_COUNT
            invariant
                position <= REGISTER_COUNT,
                headers@.len() == position,
                values@.len() == position,
                forall|i: int| 0 <= i < position ==> (#[trigger] headers@[i])@ == register_names()[i],
                forall|i: int| 0 <= i < position ==> #[trigger] values@[i] == self@.registers[i],
            decreases REGISTER_COUNT - position,
        {
            let register = match Register::from_index(position) {
                Some(register) => register,
                None => Register::A,
            };
            headers.push(register.name().to_owned());
            values.push(self.get(register));
            position = position + 1;
        }
        proof {
            lemma_names_printable();
            assert forall|i: int, j: int|
                0 <= i < headers@.len() && 0 <= j < headers@[i]@.len() implies 0x20 <= (
            #[trigger] headers@[i]@[j]) as u32 <= 0x7E by {
                assert(headers@[i]@ == register_names()[i]);
            }
            assert(headers.deep_view() =~= register_names());
            assert(values@ =~= self@.registers);
        }
        render_table(&headers, &values)
    }

    /// Executes one instruction word on the registers and says what was
    /// done. The instruction pointer is not advanced here. A two-register
    /// instruction with a nibble that names no register is
    /// `UnknownRegister` and changes nothing.
    pub fn execute(&mut self, instruction: u16) -> (result: Result<Event, Fault>)
        ensures
            match execute_model(old(self)@, instruction) {
                Ok(next) => final(self)@ == next && result == Ok::<Event, Fault>(
                    event_of(instruction),
                ),
                Err(cause) => final(self)@ == old(self)@ && result == Err::<Event, Fault>(cause),
            },
    {
        let (opcode, argument) = decode(instruction);
        let operation = match Operation::from_code(opcode) {
            Some(operation) => operation,
            None => {
                return Ok(Event::Unimplemented { opcode });
            },
        };
        match operation {
            Operation::MovAImm => {
                self.set(Register::A, argument as u16);
            },
            Operation::MovBImm => {
                self.set(Register::B, argument as u16);
            },
            Operation::MovCImm => {
                self.set(Register::C, argument as u16);
            },
            Operation::MovDImm => {
                self.set(Register::D, argument as u16);
            },
            Operation::MovRegReg => {
                let (destination, source) = match register_pair(argument) {
                    Ok(pair) => pair,
                    Err(cause) => {
                        return Err(cause);
                    },
                };
                let value: u16 = self.get(source);
                self.set(destination, value);
            },
            Operation::SubAImm => {
                let value: u16 = self.get(Register::A);
                self.set(Register::A, value.wrapping_sub(argument as u16));
            },
            Operation::SubRegReg => {
                let (destination, source) = match register_pair(argument) {
                    Ok(pair) => pair,
                    Err(cause) => {
                        return Err(cause);
                    },
                };
                let left: u16 = self.get(destination);
                let right: u16 = self.get(source);
                self.set(destination, left.wrapping_sub(right));
            },
        }
        Ok(Event::Executed { operation, argument })
    }

    /// One cycle: fetch the word that the instruction pointer addresses,
    /// execute it, and move the instruction pointer to the next word unless
    /// the instruction wrote to it. With the instruction pointer out of
    /// bounds nothing happens and the step reports `Halted`.
    pub fn step(&mut self) -> (result: StepOutcome)
        ensures
            final(self)@ == step_state(old(self)@),
            result == step_outcome(old(self)@),
            old(self)@.halted() ==> final(self)@ == old(self)@ && result == (StepOutcome::Halted {
                ir: old(self)@.get(Register::IR),
            }),
    {
        let ir: u16 = self.get(Register::IR);
        let word: u16 = match self.fetch_memory(ir) {
            Ok(word) => word,
            Err(_) => {
                return StepOutcome::Halted { ir };
            },
        };
        match self.execute(word) {
            Ok(event) => {
                if !sets_instruction_pointer(word) {
                    let next: u16 = self.get(Register::IR).wrapping_add(1);
                    self.set(Register::IR, next);
                }
                StepOutcome::Continued(event)
            },
            Err(cause) => StepOutcome::Error { address: ir, cause },
        }
    }

    /// Steps until the processor halts or an instruction fails, but executes
    /// at most `max_steps` instructions: a program that branches may never
    /// halt.
    pub fn run(&mut self, max_steps: u64) -> (result: RunOutcome)
        ensures
            final(self)@ == run_state(old(self)@, max_steps as nat),
            result == run_outcome(old(self)@, 0, max_steps as nat),
    {
        let ghost start = self@;
        let mut steps: u64 = 0;
        loop
            invariant
                start == old(self)@,
                steps <= max_steps,
                run_state(start, max_steps as nat) == run_state(self@, (max_steps - steps) as nat),
                run_outcome(start, 0, max_steps as nat) == run_outcome(
                    self@,
                    steps,
                    (max_steps - steps) as nat,
                ),
            decreases max_steps - steps,
        {
            if self.is_halted() {
                return RunOutcome::Halted { steps, ir: self.get(Register::IR) };
            }
            if steps == max_steps {
                return RunOutcome::StepLimit { steps };
            }
            match self.step() {
                StepOutcome::Continued(_) => {
                    steps = steps + 1;
                },
                StepOutcome::Halted { ir } => {
                    return RunOutcome::Halted { steps, ir };
                },
                StepOutcome::Error { address, cause } => {
                    return RunOutcome::Error { steps, address, cause };
                },
            }
        }
    }
}

/// Whether executing `word` writes to the instruction pointer, so that a
/// step must not advance it afterwards.
pub fn sets_instruction_pointer(word: u16) -> (result: bool)
    ensures
        result == writes_instruction_pointer(word),
{
    let (opcode, argument) = decode(word);
    match Operation::from_code(opcode) {
        Some(operation) => match operation.form() {
            ArgumentForm::RegisterPair => match register_pair(argument) {
                Ok((destination, _)) => destination.index() == Register::IR.index(),
                Err(_) => false,
            },
            ArgumentForm::Immediate => false,
        },
        None => false,
    }
}

/// Setting then getting: for each of the eight register names, the value
/// set under the name is the value got under it; under any other name both
/// accesses fail with `UnknownRegister` and the state stays as it was.
pub proof fn lemma_set_then_get_register(state: CpuState, name: Seq<char>, value: u16)
    requires
        state.wf(),
    ensures
        (exists|i: int| 0 <= i < 8 && name == #[trigger] register_names()[i]) ==> {
            &&& set_register_outcome(name) == Ok::<(), Fault>(())
            &&& get_register_model(set_register_model(state, name, value), name) == Ok::<
                u16,
                Fault,
            >(value)
        },
        !(exists|i: int| 0 <= i < 8 && name == #[trigger] register_names()[i]) ==> {
            &&& set_register_outcome(name) == Err::<(), Fault>(Fault::UnknownRegister)
            &&& get_register_model(state, name) == Err::<u16, Fault>(Fault::UnknownRegister)
            &&& set_register_model(state, name, value) == state
        },
{
    lemma_lookup_by_name(name);
    if Register::spec_from_name(name) is Some {
        lemma_lookup_by_index(Register::spec_from_name(name)->Some_0.spec_index());
    }
}

/// Setting a register changes no other register, nor the memory, and keeps
/// the state well formed.
pub proof fn lemma_set_keeps_the_rest(
    state: CpuState,
    register: Register,
    value: u16,
    other: Register,
)
    requires
        state.wf(),
    ensures
        state.set(register, value).wf(),
        state.set(register, value).memory == state.memory,
        state.set(register, value).get(register) == value,
        other != register ==> state.set(register, value).get(other) == state.get(other),
{
}

/// Executing a word and stepping keep the state well formed and leave the
/// memory as it was.
pub proof fn lemma_step_keeps_memory(state: CpuState, word: u16)
    requires
        state.wf(),
    ensures
        execute_model(state, word) is Ok ==> execute_model(state, word)->Ok_0.wf()
            && execute_model(state, word)->Ok_0.memory == state.memory,
        step_state(state).wf(),
        step_state(state).memory == state.memory,
{
}

/// A step on a halted processor is a no-op that reports `Halted`, however
/// often it is repeated.
pub proof fn lemma_halted_step_is_noop(state: CpuState)
    requires
        state.halted(),
    ensures
        step_state(state) == state,
        step_outcome(state) == (StepOutcome::Halted { ir: state.get(Register::IR) }),
        step_state(step_state(state)) == state,
        step_outcome(step_state(state)) == step_outcome(state),
{
}

/// A step reports `Halted` only on a halted processor, and an error only
/// for a two-register instruction with a nibble that names no register;
/// an error leaves the state as it was.
pub proof fn lemma_step_outcomes(state: CpuState)
    ensures
        step_outcome(state) is Halted <==> state.halted(),
        step_outcome(state) is Error ==> {
            &&& step_state(state) == state
            &&& step_outcome(state)->Error_address == state.get(Register::IR)
            &&& step_outcome(state)->Error_cause == Fault::UnknownRegister
            &&& event_of(state.current_word()) is Executed
            &&& spec_register_pair(spec_decode(state.current_word()).1) is None
        },
{
}

/// An unimplemented opcode changes nothing when executed, and a step over
/// it reports the opcode and moves the instruction pointer to the next
/// word: one further, and from 65535 back to 0.
pub proof fn lemma_unimplemented_is_skipped(state: CpuState)
    requires
        state.wf(),
        !state.halted(),
        Operation::spec_from_code(spec_decode(state.current_word()).0) is None,
    ensures
        execute_model(state, state.current_word()) == Ok::<CpuState, Fault>(state),
        step_outcome(state) == StepOutcome::Continued(
            Event::Unimplemented { opcode: spec_decode(state.current_word()).0 },
        ),
        step_state(state) == advance(state),
{
}

/// Sequential execution: a step over a word that executes and does not
/// write to the instruction pointer moves it to the next address, modulo
/// 65536; a word that writes to it decides the next address alone.
pub proof fn lemma_step_moves_instruction_pointer(state: CpuState)
    requires
        state.wf(),
        !state.halted(),
        execute_model(state, state.current_word()) is Ok,
    ensures
        !writes_instruction_pointer(state.current_word()) ==> step_state(state).get(Register::IR)
            == wrapping_successor(state.get(Register::IR)),
        writes_instruction_pointer(state.current_word()) ==> step_state(state) == execute_model(
            state,
            state.current_word(),
        )->Ok_0,
{
    let word = state.current_word();
    let argument = spec_decode(word).1;
    if !writes_instruction_pointer(word) {
        match Operation::spec_from_code(spec_decode(word).0) {
            Some(operation) => {
                if operation.spec_form() == ArgumentForm::RegisterPair {
                    let pair = spec_register_pair(argument)->Some_0;
                    assert(pair.0 != Register::IR);
                    assert(pair.0.spec_index() != Register::IR.spec_index());
                }
            },
            None => {},
        }
    }
}

/// Subtraction wraps: the difference is taken modulo 65536.
pub proof fn lemma_wrapping_difference(left: u16, right: u16)
    ensures
        wrapping_difference(left, right) == (left - right) % 65536,
        left < right ==> wrapping_difference(left, right) == 65536 - (right - left),
        wrapping_difference(left, right) == vstd::wrapping::u16_specs::wrapping_sub(left, right),
{
}

/// A run on a halted processor does nothing and reports `Halted` with no
/// step taken; with no budget a run does nothing either.
pub proof fn lemma_run_without_progress(state: CpuState, fuel: nat)
    ensures
        state.halted() ==> run_state(state, fuel) == state && run_outcome(state, 0, fuel) == (
        RunOutcome::Halted { steps: 0, ir: state.get(Register::IR) }),
        run_state(state, 0) == state,
        !state.halted() ==> run_outcome(state, 0, 0) == (RunOutcome::StepLimit { steps: 0 }),
{
}

/// Where a run ends: reported as `Halted`, the final state is halted;
/// reported as an error, the final state's own step fails with that error;
/// reported as `StepLimit`, the whole budget was spent. The memory is the
/// one the run started with.
pub proof fn lemma_run_end(state: CpuState, done: u64, fuel: nat)
    requires
        state.wf(),
        done + fuel <= u64::MAX,
    ensures
        run_state(state, fuel).wf(),
        run_state(state, fuel).memory == state.memory,
        match run_outcome(state, done, fuel) {
            RunOutcome::Halted { steps, ir } => {
                &&& run_state(state, fuel).halted()
                &&& ir == run_state(state, fuel).get(Register::IR)
                &&& done <= steps <= done + fuel
            },
            RunOutcome::Error { steps, address, cause } => {
                &&& step_outcome(run_state(state, fuel)) == (StepOutcome::Error { address, cause })
                &&& done <= steps <= done + fuel
            },
            RunOutcome::StepLimit { steps } => {
                &&& !run_state(state, fuel).halted()
                &&& steps == done + fuel
            },
        },
    decreases fuel,
{
    if state.halted() || fuel == 0 || step_outcome(state) is Error {
    } else {
        lemma_step_keeps_memory(state, state.current_word());
        lemma_run_end(step_state(state), (done + 1) as u64, (fuel - 1) as nat);
    }
}

} // verus!

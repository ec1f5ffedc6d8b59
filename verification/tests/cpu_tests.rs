use vm_core::cpu::{sets_instruction_pointer, Cpu, Event, RunOutcome, StepOutcome, DEFAULT_MEMORY_SIZE};
use vm_core::fault::Fault;
use vm_core::instruction::Operation;
use vm_core::memory::Memory;
use vm_core::register::Register;

const NAMES: [&str; 8] = ["A", "B", "C", "D", "CA", "IR", "Z", "LR"];

fn cpu_with(words: &[u16]) -> Cpu {
    let mut memory = Memory::new(words.len());
    for (index, word) in words.iter().enumerate() {
        assert_eq!(memory.set_data(index, *word), Ok(()));
    }
    Cpu::new(Some(memory))
}

fn registers_of(cpu: &Cpu) -> Vec<u16> {
    NAMES.iter().map(|name| cpu.get_register(name).unwrap()).collect()
}

#[test]
fn new_cpu_has_zeroed_registers() {
    let cpu = cpu_with(&[1, 2, 3]);
    assert_eq!(registers_of(&cpu), vec![0; 8]);
    assert_eq!(cpu.memory().len(), 3);
    assert_eq!(cpu.memory().get_data(2), Ok(3));
}

#[test]
fn new_cpu_without_memory_gets_the_default() {
    let cpu = Cpu::new(None);
    assert_eq!(DEFAULT_MEMORY_SIZE, 1024);
    assert_eq!(cpu.memory().len(), 1024);
    assert_eq!(cpu.fetch_memory(0), Ok(0));
    assert_eq!(cpu.fetch_memory(1023), Ok(0));
    assert_eq!(cpu.fetch_memory(1024), Err(Fault::OutOfBounds));
    assert_eq!(registers_of(&cpu), vec![0; 8]);
}

#[test]
fn set_then_get_for_each_register_name() {
    let mut cpu = Cpu::new(None);
    for (position, name) in NAMES.iter().enumerate() {
        let value = 0x1100 + position as u16;
        assert_eq!(cpu.set_register(name, value), Ok(()));
        assert_eq!(cpu.get_register(name), Ok(value));
    }
    for (position, name) in NAMES.iter().enumerate() {
        assert_eq!(cpu.get_register(name), Ok(0x1100 + position as u16));
    }
}

#[test]
fn unknown_register_name_fails() {
    let mut cpu = Cpu::new(None);
    for name in ["", "E", "a", "AA", "IRQ", "PC"] {
        assert_eq!(cpu.set_register(name, 5), Err(Fault::UnknownRegister));
        assert_eq!(cpu.get_register(name), Err(Fault::UnknownRegister));
    }
    assert_eq!(registers_of(&cpu), vec![0; 8]);
}

#[test]
fn typed_access_agrees_with_named_access() {
    let mut cpu = Cpu::new(None);
    cpu.set(Register::CA, 77);
    assert_eq!(cpu.get_register("CA"), Ok(77));
    assert_eq!(cpu.set_register("LR", 78), Ok(()));
    assert_eq!(cpu.get(Register::LR), 78);
    assert_eq!(cpu.get(Register::A), 0);
}

#[test]
fn move_then_subtract_runs_to_zero() {
    let mut cpu = cpu_with(&[0x0204, 0x1A04]);
    assert_eq!(cpu.set_register("IR", 0), Ok(()));
    assert_eq!(cpu.run(1000), RunOutcome::Halted { steps: 2, ir: 2 });
    assert_eq!(cpu.get_register("A"), Ok(0));
    assert_eq!(cpu.get_register("IR"), Ok(2));
    assert!(cpu.is_halted());
}

#[test]
fn move_then_subtract_step_by_step() {
    let mut cpu = cpu_with(&[0x0204, 0x1A04]);
    assert_eq!(
        cpu.step(),
        StepOutcome::Continued(Event::Executed { operation: Operation::MovAImm, argument: 4 })
    );
    assert_eq!(cpu.get_register("A"), Ok(4));
    assert_eq!(cpu.get_register("IR"), Ok(1));
    assert_eq!(
        cpu.step(),
        StepOutcome::Continued(Event::Executed { operation: Operation::SubAImm, argument: 4 })
    );
    assert_eq!(cpu.get_register("A"), Ok(0));
    assert_eq!(cpu.get_register("IR"), Ok(2));
    assert_eq!(cpu.step(), StepOutcome::Halted { ir: 2 });
}

#[test]
fn register_to_register_move_copies_the_source() {
    let mut cpu = cpu_with(&[0x0208, 0x0610, 0x0208, 0x1A04]);
    assert_eq!(cpu.run(1000), RunOutcome::Halted { steps: 4, ir: 4 });
    assert_eq!(cpu.get_register("A"), Ok(4));
    assert_eq!(cpu.get_register("B"), Ok(8));
    assert_eq!(registers_of(&cpu), vec![4, 8, 0, 0, 0, 4, 0, 0]);
}

#[test]
fn unimplemented_opcode_is_reported_and_skipped() {
    let mut cpu = cpu_with(&[0xFF12, 0x0203]);
    assert_eq!(cpu.set_register("B", 9), Ok(()));
    let before = registers_of(&cpu);
    assert_eq!(cpu.execute(0xFF12), Ok(Event::Unimplemented { opcode: 0xFF }));
    assert_eq!(registers_of(&cpu), before);
    assert_eq!(cpu.step(), StepOutcome::Continued(Event::Unimplemented { opcode: 0xFF }));
    assert_eq!(registers_of(&cpu), vec![0, 9, 0, 0, 0, 1, 0, 0]);
    assert_eq!(cpu.run(10), RunOutcome::Halted { steps: 1, ir: 2 });
    assert_eq!(registers_of(&cpu), vec![3, 9, 0, 0, 0, 2, 0, 0]);
}

#[test]
fn subtract_immediate_wraps_below_zero() {
    let mut cpu = cpu_with(&[0x0203, 0x1A05]);
    assert_eq!(cpu.run(10), RunOutcome::Halted { steps: 2, ir: 2 });
    assert_eq!(cpu.get_register("A"), Ok(65534));
    let mut cpu = Cpu::new(None);
    assert_eq!(
        cpu.execute(0x1AFF),
        Ok(Event::Executed { operation: Operation::SubAImm, argument: 0xFF })
    );
    assert_eq!(cpu.get_register("A"), Ok(65281));
    assert_eq!(cpu.set_register("A", 0x1234), Ok(()));
    assert_eq!(cpu.execute(0x1A34).is_ok(), true);
    assert_eq!(cpu.get_register("A"), Ok(0x1200));
}

#[test]
fn subtract_register_from_register() {
    let mut cpu = Cpu::new(None);
    cpu.set(Register::C, 100);
    cpu.set(Register::D, 30);
    assert_eq!(
        cpu.execute(0x1B23),
        Ok(Event::Executed { operation: Operation::SubRegReg, argument: 0x23 })
    );
    assert_eq!(cpu.get(Register::C), 70);
    assert_eq!(cpu.get(Register::D), 30);
    assert_eq!(cpu.execute(0x1B32).is_ok(), true);
    assert_eq!(cpu.get(Register::D), 65496);
    assert_eq!(cpu.get(Register::C), 70);
    assert_eq!(cpu.execute(0x1B22).is_ok(), true);
    assert_eq!(cpu.get(Register::C), 0);
}

#[test]
fn move_immediate_to_each_register() {
    let mut cpu = Cpu::new(None);
    assert_eq!(
        cpu.execute(0x02FF),
        Ok(Event::Executed { operation: Operation::MovAImm, argument: 0xFF })
    );
    assert_eq!(
        cpu.execute(0x0301),
        Ok(Event::Executed { operation: Operation::MovBImm, argument: 1 })
    );
    assert_eq!(
        cpu.execute(0x0402),
        Ok(Event::Executed { operation: Operation::MovCImm, argument: 2 })
    );
    assert_eq!(
        cpu.execute(0x0503),
        Ok(Event::Executed { operation: Operation::MovDImm, argument: 3 })
    );
    assert_eq!(registers_of(&cpu), vec![255, 1, 2, 3, 0, 0, 0, 0]);
}

#[test]
fn execute_does_not_advance_the_instruction_pointer() {
    let mut cpu = Cpu::new(None);
    assert_eq!(cpu.set_register("IR", 40), Ok(()));
    assert_eq!(cpu.execute(0x0207).is_ok(), true);
    assert_eq!(cpu.get_register("IR"), Ok(40));
    assert_eq!(cpu.get_register("A"), Ok(7));
}

#[test]
fn unknown_register_in_an_instruction_is_an_error_and_changes_nothing() {
    for word in [0x0680u16, 0x0608, 0x06FF, 0x1B90, 0x1B09] {
        let mut cpu = cpu_with(&[0x0205, word, 0x0206]);
        assert_eq!(cpu.set_register("D", 4), Ok(()));
        let mut scratch = Cpu::new(None);
        assert_eq!(scratch.execute(word), Err(Fault::UnknownRegister));
        assert_eq!(registers_of(&scratch), vec![0; 8]);
        assert_eq!(
            cpu.run(10),
            RunOutcome::Error { steps: 1, address: 1, cause: Fault::UnknownRegister }
        );
        assert_eq!(registers_of(&cpu), vec![5, 0, 0, 4, 0, 1, 0, 0]);
        assert_eq!(
            cpu.step(),
            StepOutcome::Error { address: 1, cause: Fault::UnknownRegister }
        );
        assert_eq!(registers_of(&cpu), vec![5, 0, 0, 4, 0, 1, 0, 0]);
    }
}

#[test]
fn step_on_a_halted_cpu_is_a_no_op() {
    let mut cpu = cpu_with(&[0x0204, 0x1A04]);
    assert_eq!(cpu.run(100), RunOutcome::Halted { steps: 2, ir: 2 });
    let before = registers_of(&cpu);
    for _ in 0..5 {
        assert_eq!(cpu.step(), StepOutcome::Halted { ir: 2 });
        assert_eq!(registers_of(&cpu), before);
        assert_eq!(cpu.memory().snapshot(0, 2), Ok(vec![0x0204, 0x1A04]));
    }
    assert_eq!(cpu.run(100), RunOutcome::Halted { steps: 0, ir: 2 });
    assert_eq!(registers_of(&cpu), before);
}

#[test]
fn cpu_over_an_empty_memory_is_halted_at_once() {
    let mut cpu = cpu_with(&[]);
    assert!(cpu.is_halted());
    assert_eq!(cpu.step(), StepOutcome::Halted { ir: 0 });
    assert_eq!(cpu.run(3), RunOutcome::Halted { steps: 0, ir: 0 });
    assert_eq!(cpu.run(0), RunOutcome::Halted { steps: 0, ir: 0 });
}

#[test]
fn instruction_pointer_far_out_of_bounds_halts() {
    let mut cpu = cpu_with(&[0x0204]);
    assert_eq!(cpu.set_register("IR", 0xFFFF), Ok(()));
    assert_eq!(cpu.step(), StepOutcome::Halted { ir: 0xFFFF });
    assert_eq!(cpu.get_register("A"), Ok(0));
    assert_eq!(cpu.get_register("IR"), Ok(0xFFFF));
}

#[test]
fn an_instruction_that_writes_the_instruction_pointer_branches() {
    let mut cpu = cpu_with(&[0x0203, 0x0650, 0x0301, 0x0402]);
    assert_eq!(cpu.run(10), RunOutcome::Halted { steps: 3, ir: 4 });
    assert_eq!(registers_of(&cpu), vec![3, 0, 2, 0, 0, 4, 0, 0]);
    assert!(sets_instruction_pointer(0x0650));
    assert!(sets_instruction_pointer(0x1B50));
    assert!(sets_instruction_pointer(0x0655));
    assert!(!sets_instruction_pointer(0x0605));
    assert!(!sets_instruction_pointer(0x0250));
    assert!(!sets_instruction_pointer(0x0658));
    assert!(!sets_instruction_pointer(0xFF50));
}

#[test]
fn a_program_that_loops_runs_out_of_steps() {
    let mut cpu = cpu_with(&[0x0650]);
    assert_eq!(cpu.run(10), RunOutcome::StepLimit { steps: 10 });
    assert_eq!(cpu.get_register("IR"), Ok(0));
    assert_eq!(cpu.run(0), RunOutcome::StepLimit { steps: 0 });
    let mut cpu = cpu_with(&[0x0204, 0x1A04, 0x0301]);
    assert_eq!(cpu.run(2), RunOutcome::StepLimit { steps: 2 });
    assert_eq!(registers_of(&cpu), vec![0, 0, 0, 0, 0, 2, 0, 0]);
    assert_eq!(cpu.run(1), RunOutcome::Halted { steps: 1, ir: 3 });
    assert_eq!(registers_of(&cpu), vec![0, 1, 0, 0, 0, 3, 0, 0]);
}

#[test]
fn instruction_pointer_wraps_at_the_top_of_the_address_space() {
    let mut cpu = Cpu::new(Some(Memory::new(65536)));
    assert_eq!(cpu.set_register("IR", 0xFFFF), Ok(()));
    assert_eq!(cpu.step(), StepOutcome::Continued(Event::Unimplemented { opcode: 0 }));
    assert_eq!(cpu.get_register("IR"), Ok(0));
    assert!(!cpu.is_halted());
}

#[test]
fn fetch_memory_reads_by_address() {
    let cpu = cpu_with(&[0x0204, 0x1A04]);
    assert_eq!(cpu.fetch_memory(0), Ok(0x0204));
    assert_eq!(cpu.fetch_memory(1), Ok(0x1A04));
    assert_eq!(cpu.fetch_memory(2), Err(Fault::OutOfBounds));
    assert_eq!(cpu.fetch_memory(0xFFFF), Err(Fault::OutOfBounds));
}

#[test]
fn debug_renders_the_register_table() {
    let mut cpu = cpu_with(&[0x0208, 0x0610, 0x0208, 0x1A04]);
    let fresh = "\
+---+---+---+---+----+----+---+----+
| A | B | C | D | CA | IR | Z | LR |
+---+---+---+---+----+----+---+----+
| 0 | 0 | 0 | 0 | 0  | 0  | 0 | 0  |
+---+---+---+---+----+----+---+----+
";
    assert_eq!(cpu.debug(), fresh);
    assert_eq!(cpu.run(10), RunOutcome::Halted { steps: 4, ir: 4 });
    assert_eq!(cpu.set_register("LR", 65535), Ok(()));
    let after = "\
+---+---+---+---+----+----+---+-------+
| A | B | C | D | CA | IR | Z | LR    |
+---+---+---+---+----+----+---+-------+
| 4 | 8 | 0 | 0 | 0  | 4  | 0 | 65535 |
+---+---+---+---+----+----+---+-------+
";
    assert_eq!(cpu.debug(), after);
}

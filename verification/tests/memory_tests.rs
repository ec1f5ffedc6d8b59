use vm_core::fault::Fault;
use vm_core::memory::Memory;

#[test]
fn new_memory_is_zeroed() {
    let memory = Memory::new(4);
    assert_eq!(memory.len(), 4);
    for index in 0..4 {
        assert_eq!(memory.get_data(index), Ok(0));
    }
}

#[test]
fn zero_sized_memory_refuses_every_access() {
    let mut memory = Memory::new(0);
    assert_eq!(memory.len(), 0);
    assert_eq!(memory.get_data(0), Err(Fault::OutOfBounds));
    assert_eq!(memory.set_data(0, 7), Err(Fault::OutOfBounds));
    assert_eq!(memory.len(), 0);
}

#[test]
fn read_after_write_returns_the_value() {
    let mut memory = Memory::new(8);
    for index in 0..8usize {
        let value = 0xA000 + index as u16;
        assert_eq!(memory.set_data(index, value), Ok(()));
        assert_eq!(memory.get_data(index), Ok(value));
    }
    for index in 0..8usize {
        assert_eq!(memory.get_data(index), Ok(0xA000 + index as u16));
    }
}

#[test]
fn write_changes_only_its_cell() {
    let mut memory = Memory::new(3);
    assert_eq!(memory.set_data(1, 0xFFFF), Ok(()));
    assert_eq!(memory.get_data(0), Ok(0));
    assert_eq!(memory.get_data(1), Ok(0xFFFF));
    assert_eq!(memory.get_data(2), Ok(0));
    assert_eq!(memory.len(), 3);
}

#[test]
fn out_of_bounds_access_fails_and_changes_nothing() {
    let mut memory = Memory::new(2);
    assert_eq!(memory.set_data(0, 11), Ok(()));
    assert_eq!(memory.set_data(1, 22), Ok(()));
    for index in [2usize, 3, 1000, usize::MAX] {
        assert_eq!(memory.get_data(index), Err(Fault::OutOfBounds));
        assert_eq!(memory.set_data(index, 99), Err(Fault::OutOfBounds));
    }
    assert_eq!(memory.len(), 2);
    assert_eq!(memory.get_data(0), Ok(11));
    assert_eq!(memory.get_data(1), Ok(22));
}

#[test]
fn snapshot_copies_a_range() {
    let mut memory = Memory::new(4);
    for index in 0..4usize {
        assert_eq!(memory.set_data(index, 10 * (index as u16 + 1)), Ok(()));
    }
    assert_eq!(memory.snapshot(0, 4), Ok(vec![10, 20, 30, 40]));
    assert_eq!(memory.snapshot(1, 3), Ok(vec![20, 30]));
    assert_eq!(memory.snapshot(2, 2), Ok(vec![]));
    assert_eq!(memory.snapshot(4, 4), Ok(vec![]));
    assert_eq!(memory.snapshot(3, 2), Err(Fault::OutOfBounds));
    assert_eq!(memory.snapshot(0, 5), Err(Fault::OutOfBounds));
}

#[test]
fn fault_descriptions() {
    assert_eq!(Fault::OutOfBounds.describe(), "no such memory location exists");
    assert_eq!(Fault::UnknownRegister.describe(), "no such register exists");
}

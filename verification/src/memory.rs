//! A flat, fixed-size array of 16-bit words with bounds-checked access.

use crate::fault::Fault;
use vstd::prelude::*;

verus! {

/// A memory of `size` cells that all hold zero.
pub open spec fn zeroed(size: nat) -> Seq<u16> {
    Seq::new(size, |i: int| 0u16)
}

/// What reading cell `index` of `cells` gives.
pub open spec fn read_model(cells: Seq<u16>, index: int) -> Result<u16, Fault> {
    if 0 <= index < cells.len() {
        Ok(cells[index])
    } else {
        Err(Fault::OutOfBounds)
    }
}

/// The cells after an attempt to store `value` at `index`: only an index in
/// bounds changes anything.
pub open spec fn write_model(cells: Seq<u16>, index: int, value: u16) -> Seq<u16> {
    if 0 <= index < cells.len() {
        cells.update(index, value)
    } else {
        cells
    }
}

/// What an attempt to store at `index` reports.
pub open spec fn write_outcome(cells: Seq<u16>, index: int) -> Result<(), Fault> {
    if 0 <= index < cells.len() {
        Ok(())
    } else {
        Err(Fault::OutOfBounds)
    }
}

/// A fixed-length sequence of 16-bit words. Its view is the sequence of its
/// cells; the capacity is the length of that sequence and never changes.
#[derive(Debug)]
pub struct Memory {
    data: Vec<u16>,
}

impl View for Memory {
    type V = Seq<u16>;

    closed spec fn view(&self) -> Seq<u16> {
        self.data@
    }
}

impl Memory {
    /// A memory of `size` zeroed cells. A size of zero is allowed: every
    /// access to such a memory is out of bounds.
    pub fn new(size: usize) -> (result: Memory)
        ensures
            result@ == zeroed(size as nat),
    {
        let mut data: Vec<u16> = Vec::new();
        let mut filled: usize = 0;
        while filled < size
            invariant
                filled <= size,
                data@ =~= zeroed(filled as nat),
            decreases size - filled,
        {
            data.push(0u16);
            filled = filled + 1;
        }
        Memory { data }
    }

    /// The capacity: the number of cells.
    pub fn len(&self) -> (result: usize)
        ensures
            result == self@.len(),
    {
        self.data.len()
    }

    /// Reads the cell at `index`.
    pub fn get_data(&self, index: usize) -> (result: Result<u16, Fault>)
        ensures
            result == read_model(self@, index as int),
    {
        if index < self.data.len() {
            Ok(self.data[index])
        } else {
            Err(Fault::OutOfBounds)
        }
    }

    /// Stores `data` in the cell at `index`. An index out of bounds is
    /// reported and leaves every cell as it was.
    pub fn set_data(&mut self, index: usize, data: u16) -> (result: Result<(), Fault>)
        ensures
            final(self)@ == write_model(old(self)@, index as int, data),
            result == write_outcome(old(self)@, index as int),
    {
        if index < self.data.len() {
            self.data.set(index, data);
            Ok(())
        } else {
            Err(Fault::OutOfBounds)
        }
    }

    /// A copy of the cells from `start` up to, not including, `end`.
    pub fn snapshot(&self, start: usize, end: usize) -> (result: Result<Vec<u16>, Fault>)
        ensures
            start <= end <= self@.len() ==> result is Ok && result->Ok_0@ == self@.subrange(
                start as int,
                end as int,
            ),
            !(start <= end <= self@.len()) ==> result == Err::<Vec<u16>, Fault>(
                Fault::OutOfBounds,
            ),
    {
        if start > end || end > self.data.len() {
            return Err(Fault::OutOfBounds);
        }
        let mut cells: Vec<u16> = Vec::new();
        let mut at: usize = start;
        while at < end
            invariant
                start <= at <= end <= self.data@.len(),
                cells@ =~= self.data@.subrange(start as int, at as int),
            decreases end - at,
        {
            cells.push(self.data[at]);
            at = at + 1;
        }
        Ok(cells)
    }
}

/// Read after write: a value stored at a valid index is the value read back
/// from that index, and the store reports success.
pub proof fn lemma_read_after_write(cells: Seq<u16>, index: int, value: u16)
    requires
        0 <= index < cells.len(),
    ensures
        write_outcome(cells, index) == Ok::<(), Fault>(()),
        read_model(write_model(cells, index, value), index) == Ok::<u16, Fault>(value),
{
}

/// A store changes no cell but the one it names, and never the capacity.
pub proof fn lemma_write_keeps_other_cells(cells: Seq<u16>, index: int, value: u16, other: int)
    requires
        other != index,
    ensures
        write_model(cells, index, value).len() == cells.len(),
        read_model(write_model(cells, index, value), other) == read_model(cells, other),
{
}

/// At or beyond the capacity both accesses fail with `OutOfBounds`, and the
/// store leaves the memory as it was.
pub proof fn lemma_out_of_bounds_access(cells: Seq<u16>, index: int, value: u16)
    requires
        index >= cells.len(),
    ensures
        read_model(cells, index) == Err::<u16, Fault>(Fault::OutOfBounds),
        write_outcome(cells, index) == Err::<(), Fault>(Fault::OutOfBounds),
        write_model(cells, index, value) == cells,
{
}

/// A fresh memory reads zero at every valid index.
pub proof fn lemma_fresh_memory_reads_zero(size: nat, index: int)
    requires
        0 <= index < size,
    ensures
        zeroed(size).len() == size,
        read_model(zeroed(size), index) == Ok::<u16, Fault>(0u16),
{
}

} // verus!

//! The closed set of eight named registers.

use vstd::prelude::*;

verus! {

/// The number of registers in the file.
pub const REGISTER_COUNT: usize = 8;

/// One of the eight registers. Their order here is their position in the
/// register file, which is how an instruction word addresses them.
#[derive(Clone, Copy, Debug, PartialEq, Eq, Structural)]
pub enum Register {
    /// General purpose.
    A,
    /// General purpose.
    B,
    /// General purpose.
    C,
    /// General purpose.
    D,
    /// Reserved for a carry flag.
    CA,
    /// The instruction pointer: the address of the next word to fetch.
    IR,
    /// Reserved for a zero flag.
    Z,
    /// Reserved for a link register.
    LR,
}

/// The eight register names, in file order.
pub open spec fn register_names() -> Seq<Seq<char>> {
    seq![
        seq!['A'],
        seq!['B'],
        seq!['C'],
        seq!['D'],
        seq!['C', 'A'],
        seq!['I', 'R'],
        seq!['Z'],
        seq!['L', 'R'],
    ]
}

impl Register {
    /// The register's position in the file.
    pub open spec fn spec_index(self) -> int {
        match self {
            Register::A => 0,
            Register::B => 1,
            Register::C => 2,
            Register::D => 3,
            Register::CA => 4,
            Register::IR => 5,
            Register::Z => 6,
            Register::LR => 7,
        }
    }

    /// The register's name.
    pub open spec fn spec_name(self) -> Seq<char> {
        register_names()[self.spec_index()]
    }

    /// The register at a position, if the position is below eight.
    pub open spec fn spec_from_index(index: int) -> Option<Register> {
        if index == 0 {
            Some(Register::A)
        } else if index == 1 {
            Some(Register::B)
        } else if index == 2 {
            Some(Register::C)
        } else if index == 3 {
            Some(Register::D)
        } else if index == 4 {
            Some(Register::CA)
        } else if index == 5 {
            Some(Register::IR)
        } else if index == 6 {
            Some(Register::Z)
        } else if index == 7 {
            Some(Register::LR)
        } else {
            None
        }
    }

    /// The register that carries exactly this name, if there is one.
    pub open spec fn spec_from_name(name: Seq<char>) -> Option<Register> {
        if name == Register::A.spec_name() {
            Some(Register::A)
        } else if name == Register::B.spec_name() {
            Some(Register::B)
        } else if name == Register::C.spec_name() {
            Some(Register::C)
        } else if name == Register::D.spec_name() {
            Some(Register::D)
        } else if name == Register::CA.spec_name() {
            Some(Register::CA)
        } else if name == Register::IR.spec_name() {
            Some(Register::IR)
        } else if name == Register::Z.spec_name() {
            Some(Register::Z)
        } else if name == Register::LR.spec_name() {
            Some(Register::LR)
        } else {
            None
        }
    }

    /// The register's position in the file.
    pub fn index(self) -> (result: usize)
        ensures
            result == self.spec_index(),
            result < REGISTER_COUNT,
    {
        match self {
            Register::A => 0,
            Register::B => 1,
            Register::C => 2,
            Register::D => 3,
            Register::CA => 4,
            Register::IR => 5,
            Register::Z => 6,
            Register::LR => 7,
        }
    }

    /// The register's name.
    pub fn name(self) -> (result: &'static str)
        ensures
            result@ == self.spec_name(),
    {
        proof {
            reveal_strlit("A");
            reveal_strlit("B");
            reveal_strlit("C");
            reveal_strlit("D");
            reveal_strlit("CA");
            reveal_strlit("IR");
            reveal_strlit("Z");
            reveal_strlit("LR");
        }
        let result = match self {
            Register::A => "A",
            Register::B => "B",
            Register::C => "C",
            Register::D => "D",
            Register::CA => "CA",
            Register::IR => "IR",
            Register::Z => "Z",
            Register::LR => "LR",
        };
        assert(result@ =~= self.spec_name());
        result
    }

    /// The register at a position: `None` from eight on.
    pub fn from_index(index: usize) -> (result: Option<Register>)
        ensures
            result == Register::spec_from_index(index as int),
    {
        if index == 0 {
            Some(Register::A)
        } else if index == 1 {
            Some(Register::B)
        } else if index == 2 {
            Some(Register::C)
        } else if index == 3 {
            Some(Register::D)
        } else if index == 4 {
            Some(Register::CA)
        } else if index == 5 {
            Some(Register::IR)
        } else if index == 6 {
            Some(Register::Z)
        } else if index == 7 {
            Some(Register::LR)
        } else {
            None
        }
    }

    /// Looks a register up by exact name: `None` for any text that is not
    /// one of the eight names.
    pub fn from_name(name: &str) -> (result: Option<Register>)
        ensures
            result == Register::spec_from_name(name@),
    {
        let length: usize = name.unicode_len();
        if length == 1 {
            let only: char = name.get_char(0);
            assert(name@ =~= seq![only]);
            if only == 'A' {
                Some(Register::A)
            } else if only == 'B' {
                Some(Register::B)
            } else if only == 'C' {
                Some(Register::C)
            } else if only == 'D' {
                Some(Register::D)
            } else if only == 'Z' {
                Some(Register::Z)
            } else {
                proof {
                    lemma_names_distinct();
                }
                None
            }
        } else if length == 2 {
            let first: char = name.get_char(0);
            let second: char = name.get_char(1);
            assert(name@ =~= seq![first, second]);
            if first == 'C' && second == 'A' {
                Some(Register::CA)
            } else if first == 'I' && second == 'R' {
                Some(Register::IR)
            } else if first == 'L' && second == 'R' {
                Some(Register::LR)
            } else {
                proof {
                    lemma_names_distinct();
                }
                None
            }
        } else {
            None
        }
    }
}

/// The eight names are pairwise different, each is one or two characters
/// long, and each is the name of the register at its position.
pub proof fn lemma_names_distinct()
    ensures
        register_names().len() == 8,
        forall|i: int, j: int|
            0 <= i < 8 && 0 <= j < 8 && i != j ==> register_names()[i] != register_names()[j],
        forall|i: int| 0 <= i < 8 ==> 1 <= (#[trigger] register_names()[i]).len() <= 2,
{
    let names = register_names();
    assert(names[0][0] == 'A');
    assert(names[1][0] == 'B');
    assert(names[2][0] == 'C');
    assert(names[3][0] == 'D');
    assert(names[4][0] == 'C' && names[4][1] == 'A');
    assert(names[5][0] == 'I' && names[5][1] == 'R');
    assert(names[6][0] == 'Z');
    assert(names[7][0] == 'L' && names[7][1] == 'R');
    assert(names[0].len() == 1 && names[1].len() == 1 && names[2].len() == 1);
    assert(names[3].len() == 1 && names[6].len() == 1);
    assert(names[4].len() == 2 && names[5].len() == 2 && names[7].len() == 2);
}

/// Every character of every register name is printable ASCII.
pub proof fn lemma_names_printable()
    ensures
        forall|i: int, j: int|
            0 <= i < 8 && 0 <= j < register_names()[i].len() ==> 0x20 <= (
            #[trigger] register_names()[i][j]) as u32 <= 0x7E,
{
    let names = register_names();
    assert(names[0] =~= seq!['A']);
    assert(names[1] =~= seq!['B']);
    assert(names[2] =~= seq!['C']);
    assert(names[3] =~= seq!['D']);
    assert(names[4] =~= seq!['C', 'A']);
    assert(names[5] =~= seq!['I', 'R']);
    assert(names[6] =~= seq!['Z']);
    assert(names[7] =~= seq!['L', 'R']);
}

/// Name and position identify the same register: looking up a register's own
/// name or position gives it back, and a successful lookup by name was given
/// that register's name.
pub proof fn lemma_lookup_round_trip(register: Register)
    ensures
        Register::spec_from_name(register.spec_name()) == Some(register),
        Register::spec_from_index(register.spec_index()) == Some(register),
        0 <= register.spec_index() < 8,
{
    lemma_names_distinct();
}

/// A lookup by name succeeds on the eight names and on nothing else.
pub proof fn lemma_lookup_by_name(name: Seq<char>)
    ensures
        Register::spec_from_name(name) is Some <==> exists|i: int|
            0 <= i < 8 && name == #[trigger] register_names()[i],
        Register::spec_from_name(name) is Some ==> Register::spec_from_name(
            name,
        )->Some_0.spec_name() == name,
{
    lemma_names_distinct();
    if Register::spec_from_name(name) is Some {
        let found = Register::spec_from_name(name)->Some_0;
        assert(name == register_names()[found.spec_index()]);
    }
}

/// A lookup by position succeeds below eight and nowhere else.
pub proof fn lemma_lookup_by_index(index: int)
    ensures
        Register::spec_from_index(index) is Some <==> 0 <= index < 8,
        Register::spec_from_index(index) is Some ==> Register::spec_from_index(
            index,
        )->Some_0.spec_index() == index,
{
}

} // verus!

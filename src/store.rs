use vstd::prelude::*;

verus! {

/// Number of variables: one per letter `A` to `Z`.
pub const LETTERS: usize = 26;

/// Maps a variable letter to its cell; only `A` to `Z` name a cell.
pub open spec fn letter_cell(c: char) -> Option<int> {
    if 'A' <= c && c <= 'Z' {
        Some(c as int - 'A' as int)
    } else {
        None
    }
}

pub fn letter_index(c: char) -> (r: Option<usize>)
    ensures
        r matches Some(i) ==> i < LETTERS,
        match letter_cell(c) {
            Some(i) => r == Some(i as usize),
            None => r is None,
        },
{
    if 'A' <= c && c <= 'Z' {
        Some((c as u32 - 'A' as u32) as usize)
    } else {
        None
    }
}

/// The variable store: 26 numeric cells, each the bit pattern of a binary64 value.
pub struct Environment {
    pub cells: Vec<u64>,
}

impl Environment {
    pub open spec fn wf(&self) -> bool {
        self.cells@.len() == LETTERS
    }

    pub open spec fn value(&self, i: int) -> u64 {
        self.cells@[i]
    }

    /// A store whose cells all hold `0.0` (whose bit pattern is zero).
    pub fn new() -> (r: Environment)
        ensures
            r.wf(),
            forall|i: int| 0 <= i < LETTERS ==> r.value(i) == 0,
    {
        let mut cells: Vec<u64> = Vec::new();
        let mut k: usize = 0;
        while k < LETTERS
            invariant
                k <= LETTERS,
                cells@.len() == k,
                forall|i: int| 0 <= i < k ==> cells@[i] == 0,
            decreases LETTERS - k,
        {
            cells.push(0);
            k = k + 1;
        }
        Environment { cells }
    }

    /// Reads the variable named by `letter`.
    pub fn get_var(&self, letter: char) -> (r: u64)
        requires
            self.wf(),
            letter_cell(letter) is Some,
        ensures
            r == self.value(letter_cell(letter)->0),
    {
        let i = (letter as u32 - 'A' as u32) as usize;
        self.cells[i]
    }

    /// Overwrites the variable named by `letter`; every other cell keeps its value.
    pub fn set_var(&mut self, letter: char, v: u64)
        requires
            old(self).wf(),
            letter_cell(letter) is Some,
        ensures
            final(self).wf(),
            final(self).cells@ == old(self).cells@.update(letter_cell(letter)->0, v),
    {
        let i = (letter as u32 - 'A' as u32) as usize;
        self.cells.set(i, v);
    }
}

/// A write to a letter is what a later read of that letter returns, and leaves
/// every other letter as it was.
pub proof fn write_then_read(before: Environment, after: Environment, letter: char, v: u64)
    requires
        before.wf(),
        letter_cell(letter) is Some,
        after.cells@ == before.cells@.update(letter_cell(letter)->0, v),
    ensures
        after.wf(),
        after.value(letter_cell(letter)->0) == v,
        forall|i: int| 0 <= i < LETTERS && i != letter_cell(letter)->0 ==> after.value(i) == before.value(i),
{
}

} // verus!

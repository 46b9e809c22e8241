//! A program image: raw bytes, loaded as they are.

use crate::cpu::MAX_PROGRAM_SIZE;
use vstd::prelude::*;

verus! {

/// A program and the name of the file it came from.
#[derive(Clone, PartialEq, Eq)]
pub struct Program {
    pub filename: String,
    pub data: Vec<u8>,
}

impl Program {
    /// A program with a copy of `data`. Any sequence of bytes is a program;
    /// what it means shows when it runs.
    pub fn new(filename: String, data: &[u8]) -> (program: Program)
        ensures
            program.filename == filename,
            program.data@ == data@,
    {
        let mut copy: Vec<u8> = Vec::new();
        let mut i: usize = 0;
        while i < data.len()
            invariant
                i <= data@.len(),
                copy@ == data@.take(i as int),
            decreases data@.len() - i,
        {
            copy.push(data[i]);
            i += 1;
            assert(copy@ =~= data@.take(i as int));
        }
        assert(data@.take(i as int) =~= data@);
        Program { filename, data: copy }
    }

    /// Tells whether the program fits into memory behind the address where
    /// programs are loaded.
    pub fn fits(&self) -> (ok: bool)
        ensures
            ok == (self.data@.len() <= MAX_PROGRAM_SIZE),
    {
        self.data.len() <= MAX_PROGRAM_SIZE
    }
}

} // verus!

//! What the command line of the front end says.

use crate::channel::texts;
use vstd::prelude::*;

verus! {

/// The options of the front end.
#[derive(Debug, Clone)]
pub struct Cli {
    /// Replay a recording instead of running the program.
    pub rr_replay: bool,
    /// Path to the executable to debug.
    pub executable: Option<String>,
    /// Arguments that are handed on to the debugger as they stand.
    pub gdb_args: Vec<String>,
}

impl Cli {
    /// The arguments with which the debugger is started for `file_path`: the
    /// arguments handed on from the command line, in their order, and then
    /// the file.
    pub fn debugger_arguments(&self, file_path: &str) -> (args: Vec<String>)
        ensures
            texts(args@) == texts(self.gdb_args@).push(file_path@),
    {
        let mut args: Vec<String> = Vec::new();
        let mut i: usize = 0;
        while i < self.gdb_args.len()
            invariant
                i <= self.gdb_args@.len(),
                texts(args@) == texts(self.gdb_args@).take(i as int),
            decreases self.gdb_args@.len() - i,
        {
            let ghost copied = args@;
            let arg = self.gdb_args[i].clone();
            assert(arg@ == self.gdb_args@[i as int]@);
            args.push(arg);
            assert(texts(copied).len() == i);
            assert(texts(args@) =~= texts(copied).push(arg@));
            assert(texts(args@) =~= texts(self.gdb_args@).take(i + 1));
            i += 1;
        }
        assert(texts(self.gdb_args@).take(i as int) =~= texts(self.gdb_args@));
        args.push(file_path.to_owned());
        assert(texts(args@) =~= texts(self.gdb_args@).push(file_path@));
        args
    }
}

} // verus!

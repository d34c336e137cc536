//! What a command has printed so far, line by line.

use crate::text::texts;
use vstd::prelude::*;

verus! {

broadcast use crate::text::group_texts;

/// The two output streams of a command, as the lines written to them.
#[derive(Debug, PartialEq, Eq)]
pub struct Console {
    pub out: Vec<String>,
    pub err: Vec<String>,
}

impl Console {
    /// The lines on standard output.
    pub open spec fn out_lines(self) -> Seq<Seq<char>> {
        texts(self.out@)
    }

    /// The lines on standard error.
    pub open spec fn err_lines(self) -> Seq<Seq<char>> {
        texts(self.err@)
    }

    /// A console nothing has been printed to.
    pub fn new() -> (r: Self)
        ensures
            r.out_lines() == Seq::<Seq<char>>::empty(),
            r.err_lines() == Seq::<Seq<char>>::empty(),
    {
        let r = Console { out: Vec::new(), err: Vec::new() };
        assert(texts(r.out@) =~= Seq::<Seq<char>>::empty());
        assert(texts(r.err@) =~= Seq::<Seq<char>>::empty());
        r
    }

    /// Prints one line on standard output.
    pub fn print(&mut self, line: &str)
        ensures
            final(self).out_lines() == old(self).out_lines().push(line@),
            final(self).err_lines() == old(self).err_lines(),
    {
        self.out.push(line.to_owned());
    }

    /// Prints one line on standard error.
    pub fn eprint(&mut self, line: &str)
        ensures
            final(self).out_lines() == old(self).out_lines(),
            final(self).err_lines() == old(self).err_lines().push(line@),
    {
        self.err.push(line.to_owned());
    }
}

/// The lines an optional line contributes.
pub open spec fn opt_line(line: Option<Seq<char>>) -> Seq<Seq<char>> {
    match line {
        Some(l) => seq![l],
        None => Seq::empty(),
    }
}

} // verus!

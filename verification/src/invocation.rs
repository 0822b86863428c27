//! A program and the arguments it is run with.

use vstd::prelude::*;

verus! {

/// The texts of a list of strings.
pub open spec fn texts(strings: Seq<String>) -> Seq<Seq<char>> {
    Seq::new(strings.len(), |i: int| strings[i]@)
}

/// The mathematical value of an [`Invocation`].
pub ghost struct InvocationView {
    pub program: Seq<char>,
    pub args: Seq<Seq<char>>,
}

/// A program to run and the arguments to run it with.
#[derive(Debug, PartialEq, Eq)]
pub struct Invocation {
    pub program: String,
    pub args: Vec<String>,
}

impl View for Invocation {
    type V = InvocationView;

    open spec fn view(&self) -> InvocationView {
        InvocationView { program: self.program@, args: texts(self.args@) }
    }
}

impl Invocation {
    /// An invocation of `program` without arguments.
    pub fn new(program: &str) -> (inv: Invocation)
        ensures
            inv@ == (InvocationView { program: program@, args: Seq::empty() }),
    {
        let inv = Invocation { program: program.to_owned(), args: Vec::new() };
        assert(inv@.args =~= Seq::empty());
        inv
    }

    /// Appends one argument.
    pub fn arg(&mut self, arg: &str)
        ensures
            final(self)@ == (InvocationView {
                program: old(self)@.program,
                args: old(self)@.args.push(arg@),
            }),
    {
        self.args.push(arg.to_owned());
        assert(self@.args =~= old(self)@.args.push(arg@));
    }
}

} // verus!

//! An external invocation: a program and its argument vector, read off a
//! command line.

use vstd::prelude::*;
use vstd::string::*;
use crate::words::{lemma_split_nonempty, split_line, split_spaces, texts};

verus! {

/// A program to start as a direct child process, with its arguments.
#[derive(Debug, Clone, PartialEq, Eq)]
pub struct Invocation {
    pub program: String,
    pub args: Vec<String>,
}

/// What an [`Invocation`] stands for: the program's name and the argument
/// texts in order.
pub struct InvocationModel {
    pub program: Seq<char>,
    pub args: Seq<Seq<char>>,
}

impl View for Invocation {
    type V = InvocationModel;

    open spec fn view(&self) -> InvocationModel {
        InvocationModel { program: self.program@, args: texts(self.args@) }
    }
}

/// The invocation that a command line denotes: its first piece is the
/// program, every further piece one argument. No shell reads the line, so a
/// value that holds a space falls apart into several arguments.
pub open spec fn invocation_of(line: Seq<char>) -> InvocationModel {
    InvocationModel { program: split_spaces(line)[0], args: split_spaces(line).skip(1) }
}

impl Invocation {
    /// Reads the program and its arguments off a command line.
    pub fn from_line(line: &str) -> (inv: Invocation)
        ensures
            inv@ == invocation_of(line@),
    {
        let mut pieces: Vec<String> = split_line(line);
        proof {
            lemma_split_nonempty(line@);
        }
        let ghost all = pieces@;
        let program: String = pieces.remove(0);
        proof {
            assert(texts(all)[0] == program@);
            assert(texts(pieces@) =~= texts(all).skip(1));
        }
        Invocation { program, args: pieces }
    }
}

/// How an invocation ended.
#[derive(Debug, Clone, Copy, PartialEq, Eq, Structural)]
pub enum Ending {
    /// The program could not be started.
    NotStarted,
    /// The program was started, but waiting for it failed.
    WaitFailed,
    /// The program ran to its end; `success` says whether it exited with
    /// status zero.
    Exited { success: bool },
}

impl Ending {
    /// Whether the invocation counts as succeeded: the program started and
    /// exited with status zero, nothing else.
    pub fn outcome(&self) -> (r: Result<(), ()>)
        ensures
            r is Ok <==> *self == (Ending::Exited { success: true }),
    {
        match self {
            Ending::Exited { success } => if *success {
                Ok(())
            } else {
                Err(())
            },
            _ => Err(()),
        }
    }
}

} // verus!

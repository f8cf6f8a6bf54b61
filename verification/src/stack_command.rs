use vstd::prelude::*;

verus! {

/// A command typed on the interactive console of the stack.
#[derive(Debug, Clone, Copy, PartialEq, Eq)]
pub enum StackCommand {
    /// `quit`, `exit` or `q`: stop the stack.
    Quit,
    /// `show`: show the registered subscribers.
    Show,
    /// An empty line: nothing to do.
    Empty,
    /// Anything else.
    Unknown,
}

/// Whether two texts are equal.
fn text_eq(a: &str, b: &str) -> (res: bool)
    ensures
        res == (a@ == b@),
{
    let n = a.unicode_len();
    if n != b.unicode_len() {
        return false;
    }
    let mut i: usize = 0;
    while i < n
        invariant
            i <= n,
            n == a@.len(),
            n == b@.len(),
            forall|j: int| 0 <= j < i ==> a@[j] == b@[j],
        decreases n - i,
    {
        if a.get_char(i) != b.get_char(i) {
            return false;
        }
        i = i + 1;
    }
    assert(a@ =~= b@);
    true
}

impl StackCommand {
    /// The command that a console line, with surrounding white space
    /// removed, names.
    pub open spec fn spec_parse(line: Seq<char>) -> StackCommand {
        if line == "quit"@ || line == "exit"@ || line == "q"@ {
            StackCommand::Quit
        } else if line == "show"@ {
            StackCommand::Show
        } else if line.len() == 0 {
            StackCommand::Empty
        } else {
            StackCommand::Unknown
        }
    }

    /// The command that a console line, with surrounding white space
    /// removed, names.
    pub fn parse(line: &str) -> (res: StackCommand)
        ensures
            res == StackCommand::spec_parse(line@),
    {
        if text_eq(line, "quit") || text_eq(line, "exit") || text_eq(line, "q") {
            StackCommand::Quit
        } else if text_eq(line, "show") {
            StackCommand::Show
        } else if line.unicode_len() == 0 {
            StackCommand::Empty
        } else {
            StackCommand::Unknown
        }
    }
}

} // verus!

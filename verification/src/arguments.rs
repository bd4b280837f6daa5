//! The flags that may follow a command.

use crate::text::same_text;
use vstd::prelude::*;
use vstd::string::*;

verus! {

/// A flag attached to a command. A command looks only at the flags it knows.
#[derive(Debug, Clone, Copy, PartialEq, Eq, Structural)]
pub enum ReisbaseActionsArguments {
    Force,
    Help,
    Clipboard,
    Description,
}

/// The flag that a token of the command line stands for, if any.
pub open spec fn argument_of(token: Seq<char>) -> Option<ReisbaseActionsArguments> {
    if token == "-f"@ {
        Some(ReisbaseActionsArguments::Force)
    } else if token == "-h"@ {
        Some(ReisbaseActionsArguments::Help)
    } else if token == "-c"@ {
        Some(ReisbaseActionsArguments::Clipboard)
    } else if token == "-d"@ {
        Some(ReisbaseActionsArguments::Description)
    } else {
        None
    }
}

/// The flags among the tokens, in their order; other tokens are dropped.
pub open spec fn arguments_of(tokens: Seq<Seq<char>>) -> Seq<ReisbaseActionsArguments>
    decreases tokens.len(),
{
    if tokens.len() == 0 {
        Seq::empty()
    } else {
        let before = arguments_of(tokens.drop_last());
        match argument_of(tokens.last()) {
            Some(argument) => before.push(argument),
            None => before,
        }
    }
}

impl ReisbaseActionsArguments {
    /// How the flag is shown to the user.
    pub open spec fn text(self) -> Seq<char> {
        match self {
            ReisbaseActionsArguments::Force => "-f (Force)"@,
            ReisbaseActionsArguments::Help => "-h (Help)"@,
            ReisbaseActionsArguments::Clipboard => "-c (Copy to Clipboard)"@,
            ReisbaseActionsArguments::Description => "-d (Description)"@,
        }
    }

    /// Reads one token of the command line.
    pub fn new(action: &str) -> (argument: Option<ReisbaseActionsArguments>)
        ensures
            argument == argument_of(action@),
    {
        if same_text(action, "-f") {
            Some(ReisbaseActionsArguments::Force)
        } else if same_text(action, "-h") {
            Some(ReisbaseActionsArguments::Help)
        } else if same_text(action, "-c") {
            Some(ReisbaseActionsArguments::Clipboard)
        } else if same_text(action, "-d") {
            Some(ReisbaseActionsArguments::Description)
        } else {
            None
        }
    }

    /// The flag as shown to the user.
    pub fn to_string(&self) -> (shown: String)
        ensures
            shown@ == self.text(),
    {
        match self {
            ReisbaseActionsArguments::Force => String::from_str("-f (Force)"),
            ReisbaseActionsArguments::Help => String::from_str("-h (Help)"),
            ReisbaseActionsArguments::Clipboard => String::from_str("-c (Copy to Clipboard)"),
            ReisbaseActionsArguments::Description => String::from_str("-d (Description)"),
        }
    }
}

/// Whether `flag` is among `arguments`.
pub fn has_argument(arguments: &Vec<ReisbaseActionsArguments>, flag: ReisbaseActionsArguments) -> (found: bool)
    ensures
        found == arguments@.contains(flag),
{
    let mut at: usize = 0;
    while at < arguments.len()
        invariant
            at <= arguments.len(),
            forall|i: int| 0 <= i < at ==> arguments@[i] != flag,
        decreases arguments.len() - at,
    {
        if arguments[at] == flag {
            return true;
        }
        at += 1;
    }
    false
}

/// Reads the flags out of the tokens that follow a command.
pub fn parse_arguments(tokens: &Vec<String>) -> (arguments: Vec<ReisbaseActionsArguments>)
    ensures
        arguments@ == arguments_of(tokens.deep_view()),
{
    let mut arguments: Vec<ReisbaseActionsArguments> = Vec::new();
    let mut at: usize = 0;
    while at < tokens.len()
        invariant
            at <= tokens.len(),
            arguments@ == arguments_of(tokens.deep_view().take(at as int)),
        decreases tokens.len() - at,
    {
        proof {
            let next = tokens.deep_view().take(at + 1);
            assert(next.drop_last() == tokens.deep_view().take(at as int));
            assert(next.last() == tokens@[at as int]@);
        }
        match ReisbaseActionsArguments::new(tokens[at].as_str()) {
            Some(argument) => arguments.push(argument),
            None => {},
        }
        at += 1;
    }
    proof {
        assert(tokens.deep_view().take(at as int) == tokens.deep_view());
    }
    arguments
}

} // verus!

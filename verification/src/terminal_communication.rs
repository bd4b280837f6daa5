//! What the terminal is told to do: which request the command line asks
//! for, what to print for an answer, and when to ask the user to confirm.
//!
//! Nothing here reads or prints. Every function decides, and the caller
//! carries the decision out and comes back with what the user typed.

use crate::actions::{blank_actions, first_named, ActionView, ReisbaseAction};
use crate::arguments::{arguments_of, ReisbaseActionsArguments};
use crate::constants::{
    the_entry_does_not_exists, the_entry_does_not_exists_text, the_key_already_exists,
    the_key_already_exists_text, CANCELED_OPERATION, EMPTY_DATABASE, INPUT_READ_ERROR,
    THIS_ACTION_IS_PERMANENT,
};
use crate::failures::{
    CustomFailureOperation, CustomReisActionWarning, CustomReisIOFailure, FailureOperationView,
    FailureView, IoError, IoErrorView, WarningView,
};
use crate::interface::{
    read_view, request_view, result_view, runs, Execution, Interface,
};
use crate::operation::{clear_operation, put_operation, Operation, OperationView};
use crate::success::{CustomSuccessOperation, SuccessView};
use vstd::prelude::*;
use vstd::string::*;

verus! {

/// The terminal's side of the library.
#[derive(Debug)]
pub struct TerminalCommunication;

/// What the terminal does with an answer.
#[derive(Debug)]
pub enum Reaction {
    /// Print the line.
    Print(String),
    /// Print the line, and the diagnostic on the error stream.
    PrintFailure { line: String, diagnostic: String },
    /// Print the question, read the user's answer and, if it is a yes, run
    /// the request.
    Confirm { prompt: String, retry: Operation },
    /// Stay silent.
    Nothing,
}

/// The model of a `Reaction`.
pub enum ReactionView {
    Print(Seq<char>),
    PrintFailure { line: Seq<char>, diagnostic: Seq<char> },
    Confirm { prompt: Seq<char>, retry: OperationView },
    Nothing,
}

impl View for Reaction {
    type V = ReactionView;

    open spec fn view(&self) -> ReactionView {
        match self {
            Reaction::Print(line) => ReactionView::Print(line@),
            Reaction::PrintFailure { line, diagnostic } => ReactionView::PrintFailure {
                line: line@,
                diagnostic: diagnostic@,
            },
            Reaction::Confirm { prompt, retry } => ReactionView::Confirm {
                prompt: prompt@,
                retry: retry@,
            },
            Reaction::Nothing => ReactionView::Nothing,
        }
    }
}

/// What follows the user's answer to a question.
#[derive(Debug)]
pub enum Retry {
    /// The user agreed: run the request.
    Execute(Operation),
    /// The user declined, or the answer could not be read: report it.
    Report(Reaction),
}

/// The model of a `Retry`.
pub enum RetryView {
    Execute(OperationView),
    Report(ReactionView),
}

impl View for Retry {
    type V = RetryView;

    open spec fn view(&self) -> RetryView {
        match self {
            Retry::Execute(operation) => RetryView::Execute(operation@),
            Retry::Report(reaction) => RetryView::Report(reaction@),
        }
    }
}

/// The request that a command line asks for: its first token names the
/// command, which takes the next token as its key if it carries one and the
/// one after as its value if it carries one; what is left are the tokens
/// for the flags. No token, or a name that no command goes by, is no
/// request.
pub open spec fn requested_operation(args: Seq<Seq<char>>) -> Option<OperationView> {
    if args.len() == 0 {
        None
    } else {
        match first_named(blank_actions(), args[0]) {
            Some(blank) => Some(parsed_operation(blank, args[0], args.skip(1))),
            None => None,
        }
    }
}

/// The request made of a command's name and the tokens after it.
pub open spec fn parsed_operation(
    blank: ActionView,
    action: Seq<char>,
    tokens: Seq<Seq<char>>,
) -> OperationView {
    let takes_key = blank.has_key() && tokens.len() > 0;
    let after_key = if takes_key {
        tokens.skip(1)
    } else {
        tokens
    };
    let takes_value = blank.has_value() && after_key.len() > 0;
    OperationView {
        action,
        key: if takes_key {
            Some(tokens[0])
        } else {
            None
        },
        value: if takes_value {
            Some(after_key[0])
        } else {
            None
        },
        arguments: if takes_value {
            after_key.skip(1)
        } else {
            after_key
        },
    }
}

/// Whether the user's answer is a yes: it is one if and only if it starts
/// with `y` or `Y`.
pub open spec fn affirmative(input: Seq<char>) -> bool {
    input.len() > 0 && (input[0] == 'y' || input[0] == 'Y')
}

/// What the terminal does with a failure.
pub open spec fn reaction_to_error(failure: FailureView) -> ReactionView {
    ReactionView::PrintFailure {
        line: failure.error_message().text(),
        diagnostic: failure.error_message().error.description,
    }
}

/// What the terminal does with a warning. An existing key and a clear that
/// was not forced are put to the user; the other warnings are only
/// reported.
pub open spec fn reaction_to_warning(warning: WarningView) -> ReactionView {
    match warning {
        WarningView::EmptyDatabase => ReactionView::Print(EMPTY_DATABASE@),
        WarningView::EntryAlreadyExists { key, old_value, new_value } => ReactionView::Confirm {
            prompt: the_key_already_exists_text(key, old_value),
            retry: put_operation(key, new_value),
        },
        WarningView::EntryDoesntExists { key, value } => ReactionView::Print(
            the_entry_does_not_exists_text(
                key,
                match value {
                    Some(value) => value,
                    None => "value"@,
                },
            ),
        ),
        WarningView::RequiredArgumentsNotSpecified { operation } => if operation is Clear {
            ReactionView::Confirm { prompt: THIS_ACTION_IS_PERMANENT@, retry: clear_operation() }
        } else {
            ReactionView::Nothing
        },
    }
}

/// What the terminal does with the answer to a request.
pub open spec fn reaction_to(outcome: Result<SuccessView, FailureOperationView>) -> ReactionView {
    match outcome {
        Ok(success) => ReactionView::Print(success.message()),
        Err(FailureOperationView::Error(failure)) => reaction_to_error(failure),
        Err(FailureOperationView::Warning(warning)) => reaction_to_warning(warning),
    }
}

/// What follows the user's answer to a question about `operation`.
pub open spec fn retried(input: Result<Seq<char>, IoErrorView>, operation: OperationView) -> RetryView {
    match input {
        Ok(answer) => if affirmative(answer) {
            RetryView::Execute(operation)
        } else {
            RetryView::Report(ReactionView::Print(CANCELED_OPERATION@))
        },
        Err(error) => RetryView::Report(
            ReactionView::PrintFailure { line: INPUT_READ_ERROR@, diagnostic: error.description },
        ),
    }
}

/// A request that follows a yes is not put to the user again: whatever the
/// store holds by then, the answer to it is printed. So one question is the
/// most that a command line leads to.
pub proof fn lemma_retry_ends(
    warning: WarningView,
    loaded: Result<Seq<char>, IoErrorView>,
    run: Execution,
)
    requires
        reaction_to_warning(warning) matches ReactionView::Confirm { retry, .. } && runs(
            Some(retry),
            loaded,
            run,
        ),
    ensures
        !(reaction_to(result_view(run.outcome)) is Confirm),
{
    reveal_with_fuel(first_named, 7);
    reveal_with_fuel(arguments_of, 2);
    reveal_strlit("s");
    reveal_strlit("set");
    reveal_strlit("g");
    reveal_strlit("get");
    reveal_strlit("p");
    reveal_strlit("put");
    reveal_strlit("d");
    reveal_strlit("del");
    reveal_strlit("ga");
    reveal_strlit("getall");
    reveal_strlit("c");
    reveal_strlit("clr");
    reveal_strlit("-f");
    let blanks = blank_actions();
    match warning {
        WarningView::EntryAlreadyExists { .. } => {
            let name = "put"@;
            assert(name[0] == 'p');
            assert(!blanks[0].names().contains(name)) by {
                assert("set"@[0] == 's');
            }
            assert(!blanks[1].names().contains(name)) by {
                assert("get"@[0] == 'g');
            }
            assert(blanks[2].names()[1] == name);
            assert(blanks.drop_first().first() == blanks[1]);
            assert(blanks.drop_first().drop_first().first() == blanks[2]);
            assert(first_named(blanks, name) == Some(blanks[2]));
            assert(arguments_of(Seq::<Seq<char>>::empty()) == Seq::<ReisbaseActionsArguments>::empty());
        },
        WarningView::RequiredArgumentsNotSpecified { .. } => {
            let name = "c"@;
            assert(name[0] == 'c');
            assert(!blanks[0].names().contains(name)) by {
                assert("s"@[0] == 's');
            }
            assert(!blanks[1].names().contains(name)) by {
                assert("g"@[0] == 'g');
            }
            assert(!blanks[2].names().contains(name)) by {
                assert("p"@[0] == 'p');
            }
            assert(!blanks[3].names().contains(name)) by {
                assert("d"@[0] == 'd');
            }
            assert(!blanks[4].names().contains(name));
            assert(blanks[5].names()[0] == name);
            let rest1 = blanks.drop_first();
            let rest2 = rest1.drop_first();
            let rest3 = rest2.drop_first();
            let rest4 = rest3.drop_first();
            let rest5 = rest4.drop_first();
            assert(rest1.first() == blanks[1]);
            assert(rest2.first() == blanks[2]);
            assert(rest3.first() == blanks[3]);
            assert(rest4.first() == blanks[4]);
            assert(rest5.first() == blanks[5]);
            assert(first_named(blanks, name) == Some(blanks[5]));
            let tokens = seq!["-f"@];
            assert(tokens.drop_last() == Seq::<Seq<char>>::empty());
            assert(tokens.last() == "-f"@);
            assert(arguments_of(tokens) == seq![ReisbaseActionsArguments::Force]);
            assert(seq![ReisbaseActionsArguments::Force][0] == ReisbaseActionsArguments::Force);
        },
        _ => {},
    }
}

impl TerminalCommunication {
    /// Runs the request of a command line on what was read of the backing
    /// file, and says what the terminal does with the answer.
    pub fn execute(args: Vec<String>, loaded: Result<String, IoError>) -> (round: (
        Execution,
        Reaction,
    ))
        ensures
            runs(requested_operation(args.deep_view()), read_view(loaded), round.0),
            round.1@ == reaction_to(result_view(round.0.outcome)),
    {
        let operation = get_requested_operation(args);
        handle_interface_execution(operation, loaded)
    }
}

/// Runs a request on what was read of the backing file, and says what the
/// terminal does with the answer.
pub fn handle_interface_execution(operation: Option<Operation>, loaded: Result<String, IoError>) -> (round:
    (Execution, Reaction))
    ensures
        runs(request_view(operation), read_view(loaded), round.0),
        round.1@ == reaction_to(result_view(round.0.outcome)),
{
    let run = Interface::execute(operation, loaded);
    let reaction = match &run.outcome {
        Ok(success) => handle_success_operation(success),
        Err(failure) => handle_failure_operation(failure),
    };
    (run, reaction)
}

/// A confirmation is printed.
pub fn handle_success_operation(success: &CustomSuccessOperation) -> (reaction: Reaction)
    ensures
        reaction@ == ReactionView::Print(success@.message()),
{
    Reaction::Print(String::from_str(success.message()))
}

/// What the terminal does with a command that did not succeed.
pub fn handle_failure_operation(failure: &CustomFailureOperation) -> (reaction: Reaction)
    ensures
        reaction@ == reaction_to(Err(failure@)),
{
    match failure {
        CustomFailureOperation::Error(error) => handle_error_operation(error),
        CustomFailureOperation::Warning(warning) => handle_warning_operation(warning),
    }
}

/// A failure is printed, and the fault behind it on the error stream.
pub fn handle_error_operation(error: &CustomReisIOFailure) -> (reaction: Reaction)
    ensures
        reaction@ == reaction_to_error(error@),
{
    let error_message = error.error_message();
    Reaction::PrintFailure {
        line: error_message.to_string(),
        diagnostic: error_message.error().description.clone(),
    }
}

/// A warning is reported or put to the user, by its kind.
pub fn handle_warning_operation(warning: &CustomReisActionWarning) -> (reaction: Reaction)
    ensures
        reaction@ == reaction_to_warning(warning@),
{
    match warning {
        CustomReisActionWarning::EmptyDatabase => Reaction::Print(String::from_str(EMPTY_DATABASE)),
        CustomReisActionWarning::EntryAlreadyExists { key, old_value, new_value } => {
            Reaction::Confirm {
                prompt: the_key_already_exists(key.as_str(), old_value.as_str()),
                retry: retry_put(key.as_str(), new_value.as_str()),
            }
        },
        CustomReisActionWarning::EntryDoesntExists { key, value } => {
            let value = match value {
                Some(value) => value.as_str(),
                None => "value",
            };
            Reaction::Print(the_entry_does_not_exists(key.as_str(), value))
        },
        CustomReisActionWarning::RequiredArgumentsNotSpecified { operation } => {
            if let ReisbaseAction::Clear { arguments: _ } = operation {
                Reaction::Confirm {
                    prompt: String::from_str(THIS_ACTION_IS_PERMANENT),
                    retry: retry_clear(),
                }
            } else {
                Reaction::Nothing
            }
        },
    }
}

/// Decides what follows the user's answer to a question: a yes runs the
/// request, anything else cancels it, and an answer that could not be read
/// is reported.
pub fn retry(input: Result<String, IoError>, operation: Operation) -> (next: Retry)
    ensures
        next@ == retried(read_view(input), operation@),
{
    match input {
        Ok(answer) => {
            if user_input_to_bool(answer.as_str()) {
                Retry::Execute(operation)
            } else {
                Retry::Report(Reaction::Print(String::from_str(CANCELED_OPERATION)))
            }
        },
        Err(error) => Retry::Report(handle_retry_error(&error)),
    }
}

/// The request that follows a yes to emptying the store.
pub fn retry_clear() -> (operation: Operation)
    ensures
        operation@ == clear_operation(),
{
    Operation::clear()
}

/// The request that follows a yes to overwriting a key.
pub fn retry_put(key: &str, value: &str) -> (operation: Operation)
    ensures
        operation@ == put_operation(key@, value@),
{
    Operation::put(key, value)
}

/// An answer that could not be read is reported with its fault.
pub fn handle_retry_error(error: &IoError) -> (reaction: Reaction)
    ensures
        reaction@ == (ReactionView::PrintFailure {
            line: INPUT_READ_ERROR@,
            diagnostic: error@.description,
        }),
{
    Reaction::PrintFailure {
        line: String::from_str(INPUT_READ_ERROR),
        diagnostic: error.description.clone(),
    }
}

/// Whether the user's answer is a yes.
pub fn user_input_to_bool(input: &str) -> (yes: bool)
    ensures
        yes == affirmative(input@),
{
    if input.is_empty() {
        false
    } else {
        let first = input.get_char(0);
        first == 'y' || first == 'Y'
    }
}

/// The tokens from `from` on.
fn tokens_from(tokens: &Vec<String>, from: usize) -> (rest: Vec<String>)
    requires
        from <= tokens.len(),
    ensures
        rest.deep_view() == tokens.deep_view().skip(from as int),
{
    let mut rest: Vec<String> = Vec::new();
    let mut at: usize = from;
    while at < tokens.len()
        invariant
            from <= at <= tokens.len(),
            rest.deep_view() == tokens.deep_view().subrange(from as int, at as int),
        decreases tokens.len() - at,
    {
        let ghost before = rest.deep_view();
        rest.push(tokens[at].clone());
        proof {
            assert(rest.deep_view() == before.push(tokens@[at as int]@));
            assert(tokens.deep_view().subrange(from as int, at + 1) == before.push(
                tokens.deep_view()[at as int],
            ));
        }
        at += 1;
    }
    rest
}

/// The request that the tokens of a command line ask for.
pub fn get_requested_operation(args: Vec<String>) -> (operation: Option<Operation>)
    ensures
        request_view(operation) == requested_operation(args.deep_view()),
{
    if args.len() == 0 {
        return None;
    }
    let action = args[0].clone();
    match ReisbaseAction::first(action.as_str()) {
        Some(reisbase_action) => {
            let tokens = tokens_from(&args, 1);
            parse_action(&reisbase_action, Some(action.as_str()), tokens)
        },
        None => None,
    }
}

/// The request made of a command's name and the tokens after it.
pub fn parse_action(reisbase_action: &ReisbaseAction, action: Option<&str>, args: Vec<String>) -> (operation:
    Option<Operation>)
    ensures
        match action {
            Some(name) => operation matches Some(made) && made@ == parsed_operation(
                reisbase_action@,
                name@,
                args.deep_view(),
            ),
            None => operation is None,
        },
{
    let mut next: usize = 0;
    let mut key: Option<String> = None;
    if reisbase_action.has_key() && next < args.len() {
        key = Some(args[next].clone());
        next += 1;
    }
    let mut value: Option<String> = None;
    if reisbase_action.has_value() && next < args.len() {
        value = Some(args[next].clone());
        next += 1;
    }
    let rest = tokens_from(&args, next);
    proof {
        let tokens = args.deep_view();
        assert(tokens.skip(0) == tokens);
        if tokens.len() > 0 {
            assert(tokens.skip(1).skip(0) == tokens.skip(1));
            if tokens.len() > 1 {
                assert(tokens.skip(1).skip(1) == tokens.skip(2));
                assert(tokens.skip(1)[0] == tokens[1]);
            }
        }
    }
    let action = match action {
        Some(name) => Some(String::from_str(name)),
        None => None,
    };
    Operation::new(action, key, value, rest)
}

} // verus!

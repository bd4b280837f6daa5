//! One request from start to end: checked, run on the store, answered.

use crate::actions::{copied, executed, new_action, ActionView, ReisbaseAction};
use crate::arguments::arguments_of;
use crate::codec::{decoded, map_of};
use crate::controller::Controller;
use crate::error_handler::{io_failure, ErrorHandler};
use crate::failures::{
    CustomFailureOperation, CustomReisIOFailure, FailureOperationView, FailureView, IoError,
    IoErrorKind, IoErrorView, WarningView,
};
use crate::operation::{Operation, OperationView};
use crate::reisbase::{lists, Reisbase};
use crate::success::{CustomSuccessOperation, SuccessView};
use vstd::prelude::*;
use vstd::string::*;

verus! {

/// The way into the library for one request.
#[derive(Debug)]
pub struct Interface {
    controller: Controller,
}

/// What running a request leaves behind.
#[derive(Debug)]
pub struct Execution {
    /// The answer to the request.
    pub outcome: Result<CustomSuccessOperation, CustomFailureOperation>,
    /// The store as the request left it, to be written back; `None` where
    /// no store was opened.
    pub database: Option<Reisbase>,
    /// The text to hand to the clipboard, if the request asked for that.
    pub clipboard: Option<String>,
}

/// The model of the answer to a request.
pub open spec fn result_view(
    outcome: Result<CustomSuccessOperation, CustomFailureOperation>,
) -> Result<SuccessView, FailureOperationView> {
    match outcome {
        Ok(success) => Ok(success@),
        Err(failure) => Err(failure@),
    }
}

/// The answer of a command as the answer to the request.
pub open spec fn answered(answer: Result<SuccessView, WarningView>) -> Result<
    SuccessView,
    FailureOperationView,
> {
    match answer {
        Ok(success) => Ok(success),
        Err(warning) => Err(FailureOperationView::Warning(warning)),
    }
}

/// The command that a request asks for.
pub open spec fn requested_action(operation: OperationView) -> Result<ActionView, FailureView> {
    new_action(
        operation.action,
        operation.key,
        operation.value,
        arguments_of(operation.arguments),
    )
}

/// The failure of a request that names no command.
pub open spec fn empty_action_failure() -> FailureView {
    io_failure(
        IoErrorView {
            kind: IoErrorKind::InvalidInput,
            description: "Operation should contain an action!"@,
        },
    )
}

/// The model of a request that may lack its command.
pub open spec fn request_view(operation: Option<Operation>) -> Option<OperationView> {
    match operation {
        Some(operation) => Some(operation@),
        None => None,
    }
}

/// The model of what a read gave: the text that was read, or the fault.
pub open spec fn read_view(read: Result<String, IoError>) -> Result<Seq<char>, IoErrorView> {
    match read {
        Ok(contents) => Ok(contents@),
        Err(error) => Err(error@),
    }
}

/// The request failed with this failure, and no store was opened for it.
pub open spec fn failed(run: Execution, failure: FailureView) -> bool {
    &&& result_view(run.outcome) == Err::<SuccessView, FailureOperationView>(
        FailureOperationView::Error(failure),
    )
    &&& run.database is None
    &&& run.clipboard is None
}

/// `run` is what the request leaves behind, given what was read of the
/// backing file. A request without a command and a request whose command
/// cannot be made fail without a look at the file; a fault in reading the
/// file fails every other request. Else the command runs on the store that
/// the text stands for, and that store is handed back as the command left
/// it.
pub open spec fn runs(
    operation: Option<OperationView>,
    loaded: Result<Seq<char>, IoErrorView>,
    run: Execution,
) -> bool {
    match operation {
        None => failed(run, empty_action_failure()),
        Some(operation) => match requested_action(operation) {
            Err(failure) => failed(run, failure),
            Ok(action) => match loaded {
                Err(error) => failed(run, io_failure(error)),
                Ok(contents) => {
                    &&& run.database matches Some(database)
                    &&& lists(database.listing(), database@)
                    &&& ({
                        let (after, answer) = executed(
                            action,
                            map_of(decoded(contents)),
                            database.listing(),
                        );
                        &&& database@ == after
                        &&& result_view(run.outcome) == answered(answer)
                        &&& run.clipboard.deep_view() == copied(action, answer)
                    })
                },
            },
        },
    }
}

impl Interface {
    /// The interface for a command on what was read of the backing file.
    fn new(
        action: &str,
        key: Option<String>,
        value: Option<String>,
        arguments: Vec<String>,
        loaded: Result<String, IoError>,
    ) -> (made: Result<Interface, CustomReisIOFailure>)
        ensures
            match new_action(
                action@,
                key.deep_view(),
                value.deep_view(),
                arguments_of(arguments.deep_view()),
            ) {
                Err(failure) => made matches Err(found) && found@ == failure,
                Ok(expected) => match loaded {
                    Err(error) => made matches Err(found) && found@ == io_failure(error@),
                    Ok(contents) => made matches Ok(interface) && interface.controller.action@
                        == expected && interface.controller.database@ == map_of(
                        decoded(contents@),
                    ),
                },
            },
    {
        match Controller::new(action, key, value, arguments, loaded) {
            Ok(controller) => Ok(Interface { controller }),
            Err(failure) => Err(failure),
        }
    }

    /// Whether the request names a command that can be made. The backing
    /// file is read for such a request only.
    pub fn accepts(operation: &Option<Operation>) -> (accepted: bool)
        ensures
            accepted == (operation matches Some(asked) && requested_action(asked@) is Ok),
    {
        match operation {
            None => false,
            Some(asked) => match ReisbaseAction::first(asked.action.as_str()) {
                None => false,
                Some(blank) => (!blank.has_key() || asked.key.is_some()) && (!blank.has_value()
                    || asked.value.is_some()),
            },
        }
    }

    /// Runs one request on what was read of the backing file.
    pub fn execute(operation: Option<Operation>, loaded: Result<String, IoError>) -> (run:
        Execution)
        ensures
            runs(request_view(operation), read_view(loaded), run),
    {
        let operation = match operation {
            Some(operation) => operation,
            None => {
                return Execution {
                    outcome: Err(build_empty_action_error()),
                    database: None,
                    clipboard: None,
                };
            },
        };
        match create_interface_and_map_error(operation, loaded) {
            Ok(interface) => execute_action(interface),
            Err(failure) => Execution { outcome: Err(failure), database: None, clipboard: None },
        }
    }
}

/// The interface for a request, or why there is none.
fn create_interface_and_map_error(operation: Operation, loaded: Result<String, IoError>) -> (made:
    Result<Interface, CustomFailureOperation>)
    ensures
        match requested_action(operation@) {
            Err(failure) => made matches Err(found) && found@ == FailureOperationView::Error(
                failure,
            ),
            Ok(expected) => match loaded {
                Err(error) => made matches Err(found) && found@ == FailureOperationView::Error(
                    io_failure(error@),
                ),
                Ok(contents) => made matches Ok(interface) && interface.controller.action@
                    == expected && interface.controller.database@ == map_of(decoded(contents@)),
            },
        },
{
    match Interface::new(
        operation.action.as_str(),
        operation.key,
        operation.value,
        operation.arguments,
        loaded,
    ) {
        Ok(interface) => Ok(interface),
        Err(failure) => Err(CustomFailureOperation::Error(failure)),
    }
}

/// The failure of a request that names no command.
fn build_empty_action_error() -> (failure: CustomFailureOperation)
    ensures
        failure@ == FailureOperationView::Error(empty_action_failure()),
{
    CustomFailureOperation::Error(
        ErrorHandler::handle_io_error(
            IoError::new(IoErrorKind::InvalidInput, "Operation should contain an action!"),
        ),
    )
}

/// Runs the command of the interface and hands back its store.
fn execute_action(interface: Interface) -> (run: Execution)
    ensures
        run.database matches Some(database) && lists(database.listing(), database@) && ({
            let (after, answer) = executed(
                interface.controller.action@,
                interface.controller.database@,
                database.listing(),
            );
            &&& database@ == after
            &&& result_view(run.outcome) == answered(answer)
            &&& run.clipboard.deep_view() == copied(interface.controller.action@, answer)
        }),
{
    let mut interface = interface;
    let answer = interface.controller.execute();
    let clipboard = interface.controller.action.clipboard_text(&answer);
    let outcome = match answer {
        Ok(success) => Ok(success),
        Err(warning) => Err(CustomFailureOperation::Warning(warning)),
    };
    Execution { outcome, database: Some(interface.controller.database), clipboard }
}

} // verus!

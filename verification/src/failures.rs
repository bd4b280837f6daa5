//! What can go wrong: failures, which end a command, and warnings, which
//! tell the user why the store was left as it was.

use crate::actions::{ActionView, ReisbaseAction};
use crate::arguments::ReisbaseActionsArguments;
use vstd::prelude::*;
use vstd::string::*;

verus! {

/// The kinds of fault of the system that the store tells apart.
#[derive(Debug, Clone, Copy, PartialEq, Eq, Structural)]
pub enum IoErrorKind {
    NotFound,
    PermissionDenied,
    InvalidData,
    InvalidInput,
    Unsupported,
    Other,
}

/// A fault of the system: its kind and what the system said of it.
#[derive(Debug)]
pub struct IoError {
    pub kind: IoErrorKind,
    pub description: String,
}

/// The model of an `IoError`.
pub struct IoErrorView {
    pub kind: IoErrorKind,
    pub description: Seq<char>,
}

impl View for IoError {
    type V = IoErrorView;

    open spec fn view(&self) -> IoErrorView {
        IoErrorView { kind: self.kind, description: self.description@ }
    }
}

impl IoError {
    /// A fault of the given kind with the given description.
    pub fn new(kind: IoErrorKind, description: &str) -> (error: IoError)
        ensures
            error@ == (IoErrorView { kind, description: description@ }),
    {
        IoError { kind, description: String::from_str(description) }
    }
}

/// A message for the user together with the fault behind it.
#[derive(Debug)]
pub struct CustomErrorMessage {
    message: String,
    error: IoError,
}

/// The model of a `CustomErrorMessage`.
pub struct ErrorMessageView {
    pub message: Seq<char>,
    pub error: IoErrorView,
}

impl View for CustomErrorMessage {
    type V = ErrorMessageView;

    closed spec fn view(&self) -> ErrorMessageView {
        ErrorMessageView { message: self.message@, error: self.error@ }
    }
}

impl ErrorMessageView {
    /// The line shown to the user.
    pub open spec fn text(self) -> Seq<char> {
        "Error: "@ + self.message
    }
}

impl CustomErrorMessage {
    /// A message with the fault behind it.
    pub fn new(message: String, error: IoError) -> (made: CustomErrorMessage)
        ensures
            made@ == (ErrorMessageView { message: message@, error: error@ }),
    {
        CustomErrorMessage { message, error }
    }

    /// The message for the user.
    pub fn message(&self) -> (message: &str)
        ensures
            message@ == self@.message,
    {
        self.message.as_str()
    }

    /// The fault behind the message.
    pub fn error(&self) -> (error: &IoError)
        ensures
            error@ == self@.error,
    {
        &self.error
    }

    /// The line shown to the user.
    pub fn to_string(&self) -> (shown: String)
        ensures
            shown@ == self@.text(),
    {
        let mut shown = String::from_str("Error: ");
        shown.append(self.message.as_str());
        shown
    }
}

/// A failure ends the command: the system failed, or the command itself
/// cannot be understood.
#[derive(Debug)]
pub enum CustomReisIOFailure {
    CorruptedDatabase(CustomErrorMessage),
    DatabaseNotFound(CustomErrorMessage),
    DatabaseTooLarge(CustomErrorMessage),
    Default(CustomErrorMessage),
    InvalidActionArguments(CustomErrorMessage),
    InvalidDatabaseName(CustomErrorMessage),
    InvalidInput(CustomErrorMessage),
    InvalidPlatformOperation(CustomErrorMessage),
    PermissionDeniedForDatabase(CustomErrorMessage),
    OutOfSpace(CustomErrorMessage),
    UnknownActionRequest(CustomErrorMessage),
}

/// The model of a `CustomReisIOFailure`.
pub enum FailureView {
    CorruptedDatabase(ErrorMessageView),
    DatabaseNotFound(ErrorMessageView),
    DatabaseTooLarge(ErrorMessageView),
    Default(ErrorMessageView),
    InvalidActionArguments(ErrorMessageView),
    InvalidDatabaseName(ErrorMessageView),
    InvalidInput(ErrorMessageView),
    InvalidPlatformOperation(ErrorMessageView),
    PermissionDeniedForDatabase(ErrorMessageView),
    OutOfSpace(ErrorMessageView),
    UnknownActionRequest(ErrorMessageView),
}

impl View for CustomReisIOFailure {
    type V = FailureView;

    open spec fn view(&self) -> FailureView {
        match self {
            CustomReisIOFailure::CorruptedDatabase(m) => FailureView::CorruptedDatabase(m@),
            CustomReisIOFailure::DatabaseNotFound(m) => FailureView::DatabaseNotFound(m@),
            CustomReisIOFailure::DatabaseTooLarge(m) => FailureView::DatabaseTooLarge(m@),
            CustomReisIOFailure::Default(m) => FailureView::Default(m@),
            CustomReisIOFailure::InvalidActionArguments(m) => FailureView::InvalidActionArguments(
                m@,
            ),
            CustomReisIOFailure::InvalidDatabaseName(m) => FailureView::InvalidDatabaseName(m@),
            CustomReisIOFailure::InvalidInput(m) => FailureView::InvalidInput(m@),
            CustomReisIOFailure::InvalidPlatformOperation(m) => {
                FailureView::InvalidPlatformOperation(m@)
            },
            CustomReisIOFailure::PermissionDeniedForDatabase(m) => {
                FailureView::PermissionDeniedForDatabase(m@)
            },
            CustomReisIOFailure::OutOfSpace(m) => FailureView::OutOfSpace(m@),
            CustomReisIOFailure::UnknownActionRequest(m) => FailureView::UnknownActionRequest(m@),
        }
    }
}

impl FailureView {
    /// The message that the failure carries, whatever its kind.
    pub open spec fn error_message(self) -> ErrorMessageView {
        match self {
            FailureView::CorruptedDatabase(m) => m,
            FailureView::DatabaseNotFound(m) => m,
            FailureView::DatabaseTooLarge(m) => m,
            FailureView::Default(m) => m,
            FailureView::InvalidActionArguments(m) => m,
            FailureView::InvalidDatabaseName(m) => m,
            FailureView::InvalidInput(m) => m,
            FailureView::InvalidPlatformOperation(m) => m,
            FailureView::PermissionDeniedForDatabase(m) => m,
            FailureView::OutOfSpace(m) => m,
            FailureView::UnknownActionRequest(m) => m,
        }
    }
}

/// The failure of a command that lacks the key or the value it needs.
pub open spec fn invalid_action_arguments_view(action_name: Seq<char>) -> FailureView {
    FailureView::InvalidActionArguments(
        ErrorMessageView {
            message: "Invalid arguments were passed for the "@ + action_name + " action!"@,
            error: IoErrorView { kind: IoErrorKind::InvalidInput, description: "See message"@ },
        },
    )
}

/// The failure of a command whose name is not in the table of names.
pub open spec fn unknown_action_requested_view(action: Seq<char>) -> FailureView {
    FailureView::UnknownActionRequest(
        ErrorMessageView {
            message: "The argument "@ + action + " is not recongnized as a real action."@,
            error: IoErrorView { kind: IoErrorKind::InvalidInput, description: action },
        },
    )
}

impl CustomReisIOFailure {
    /// The message that the failure carries, whatever its kind.
    pub fn error_message(&self) -> (message: &CustomErrorMessage)
        ensures
            message@ == self@.error_message(),
    {
        match self {
            CustomReisIOFailure::CorruptedDatabase(error_message)
            | CustomReisIOFailure::DatabaseNotFound(error_message)
            | CustomReisIOFailure::DatabaseTooLarge(error_message)
            | CustomReisIOFailure::Default(error_message)
            | CustomReisIOFailure::InvalidDatabaseName(error_message)
            | CustomReisIOFailure::InvalidInput(error_message)
            | CustomReisIOFailure::InvalidPlatformOperation(error_message)
            | CustomReisIOFailure::PermissionDeniedForDatabase(error_message)
            | CustomReisIOFailure::OutOfSpace(error_message)
            | CustomReisIOFailure::InvalidActionArguments(error_message)
            | CustomReisIOFailure::UnknownActionRequest(error_message) => error_message,
        }
    }

    /// The failure of a command that lacks the key or the value it needs.
    pub fn invalid_action_arguments(action_name: &str) -> (failure: CustomReisIOFailure)
        ensures
            failure@ == invalid_action_arguments_view(action_name@),
    {
        let mut message = String::from_str("Invalid arguments were passed for the ");
        message.append(action_name);
        message.append(" action!");
        CustomReisIOFailure::InvalidActionArguments(
            CustomErrorMessage::new(message, IoError::new(IoErrorKind::InvalidInput, "See message")),
        )
    }

    /// The failure of a command whose name is not in the table of names.
    pub fn unknown_action_requested(action: &str) -> (failure: CustomReisIOFailure)
        ensures
            failure@ == unknown_action_requested_view(action@),
    {
        let mut message = String::from_str("The argument ");
        message.append(action);
        message.append(" is not recongnized as a real action.");
        CustomReisIOFailure::UnknownActionRequest(
            CustomErrorMessage::new(message, IoError::new(IoErrorKind::InvalidInput, action)),
        )
    }
}

/// A warning leaves the store as it was and says which rule stood in the way.
#[derive(Debug)]
pub enum CustomReisActionWarning {
    EmptyDatabase,
    EntryAlreadyExists { key: String, old_value: String, new_value: String },
    EntryDoesntExists { key: String, value: Option<String> },
    RequiredArgumentsNotSpecified { operation: ReisbaseAction },
}

/// The model of a `CustomReisActionWarning`.
pub enum WarningView {
    EmptyDatabase,
    EntryAlreadyExists { key: Seq<char>, old_value: Seq<char>, new_value: Seq<char> },
    EntryDoesntExists { key: Seq<char>, value: Option<Seq<char>> },
    RequiredArgumentsNotSpecified { operation: ActionView },
}

impl View for CustomReisActionWarning {
    type V = WarningView;

    open spec fn view(&self) -> WarningView {
        match self {
            CustomReisActionWarning::EmptyDatabase => WarningView::EmptyDatabase,
            CustomReisActionWarning::EntryAlreadyExists { key, old_value, new_value } => {
                WarningView::EntryAlreadyExists {
                    key: key@,
                    old_value: old_value@,
                    new_value: new_value@,
                }
            },
            CustomReisActionWarning::EntryDoesntExists { key, value } => {
                WarningView::EntryDoesntExists { key: key@, value: value.deep_view() }
            },
            CustomReisActionWarning::RequiredArgumentsNotSpecified { operation } => {
                WarningView::RequiredArgumentsNotSpecified { operation: operation@ }
            },
        }
    }
}

/// The warning of a clear that was not forced: it names the clear that
/// would go through.
pub open spec fn clear_without_force_view() -> WarningView {
    WarningView::RequiredArgumentsNotSpecified {
        operation: ActionView::Clear { arguments: seq![ReisbaseActionsArguments::Force] },
    }
}

impl CustomReisActionWarning {
    /// The warning of a `SetEntry` on a key that the store holds.
    pub fn entry_already_exists(key: &str, old_value: &str, new_value: &str) -> (warning:
        CustomReisActionWarning)
        ensures
            warning@ == (WarningView::EntryAlreadyExists {
                key: key@,
                old_value: old_value@,
                new_value: new_value@,
            }),
    {
        CustomReisActionWarning::EntryAlreadyExists {
            key: String::from_str(key),
            old_value: String::from_str(old_value),
            new_value: String::from_str(new_value),
        }
    }

    /// The warning of a command on a key that the store lacks. A `Put`
    /// names the value that it was to write.
    pub fn entry_doesnt_exists(key: &str, value: Option<&str>) -> (warning:
        CustomReisActionWarning)
        ensures
            warning@ == (WarningView::EntryDoesntExists {
                key: key@,
                value: match value {
                    Some(text) => Some(text@),
                    None => None,
                },
            }),
    {
        let value = match value {
            Some(text) => Some(String::from_str(text)),
            None => None,
        };
        CustomReisActionWarning::EntryDoesntExists { key: String::from_str(key), value }
    }

    /// The warning of a clear that was not forced.
    pub fn clear_without_force() -> (warning: CustomReisActionWarning)
        ensures
            warning@ == clear_without_force_view(),
    {
        let mut arguments: Vec<ReisbaseActionsArguments> = Vec::new();
        arguments.push(ReisbaseActionsArguments::Force);
        CustomReisActionWarning::RequiredArgumentsNotSpecified {
            operation: ReisbaseAction::Clear { arguments },
        }
    }
}

/// Why a command did not succeed.
#[derive(Debug)]
pub enum CustomFailureOperation {
    Error(CustomReisIOFailure),
    Warning(CustomReisActionWarning),
}

/// The model of a `CustomFailureOperation`.
pub enum FailureOperationView {
    Error(FailureView),
    Warning(WarningView),
}

impl View for CustomFailureOperation {
    type V = FailureOperationView;

    open spec fn view(&self) -> FailureOperationView {
        match self {
            CustomFailureOperation::Error(failure) => FailureOperationView::Error(failure@),
            CustomFailureOperation::Warning(warning) => FailureOperationView::Warning(warning@),
        }
    }
}

} // verus!

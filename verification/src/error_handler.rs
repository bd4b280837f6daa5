//! From a fault of the system to the failure shown to the user.

use crate::failures::{
    CustomErrorMessage, CustomReisIOFailure, ErrorMessageView, FailureView, IoError, IoErrorKind,
    IoErrorView,
};
use vstd::prelude::*;
use vstd::string::*;

verus! {

/// Turns faults of the system into failures.
#[derive(Debug)]
pub struct ErrorHandler;

/// The failure that stands for a fault of the system: its kind decides the
/// kind of the failure and the message, and the fault itself is kept.
pub open spec fn io_failure(error: IoErrorView) -> FailureView {
    match error.kind {
        IoErrorKind::InvalidData => FailureView::CorruptedDatabase(
            ErrorMessageView {
                message: "Invalid data was read from your database! It seems it may be corrupt, or an invalid value was written to it externally!"@,
                error,
            },
        ),
        IoErrorKind::InvalidInput => FailureView::InvalidInput(
            ErrorMessageView {
                message: "Invalid parameters were passed to the operation!"@,
                error,
            },
        ),
        IoErrorKind::NotFound => FailureView::DatabaseNotFound(
            ErrorMessageView {
                message: "Database has not been created or database could not have been found!"@,
                error,
            },
        ),
        IoErrorKind::PermissionDenied => FailureView::PermissionDeniedForDatabase(
            ErrorMessageView {
                message: "Reisbase doesn't have permission to get the specified acess into the database!"@,
                error,
            },
        ),
        IoErrorKind::Unsupported => FailureView::InvalidPlatformOperation(
            ErrorMessageView {
                message: "An operation ocurred which is invalid in this platform!"@,
                error,
            },
        ),
        IoErrorKind::Other => FailureView::Default(
            ErrorMessageView {
                message: "An unexpected error ocurred! Please report this error to Rafinha!"@,
                error,
            },
        ),
    }
}

impl ErrorHandler {
    /// The failure that stands for the fault.
    pub fn handle_io_error(error: IoError) -> (failure: CustomReisIOFailure)
        ensures
            failure@ == io_failure(error@),
    {
        match error.kind {
            IoErrorKind::InvalidData => {
                CustomReisIOFailure::CorruptedDatabase(
                    CustomErrorMessage::new(
                        String::from_str(
                            "Invalid data was read from your database! It seems it may be corrupt, or an invalid value was written to it externally!",
                        ),
                        error,
                    ),
                )
            },
            IoErrorKind::InvalidInput => {
                CustomReisIOFailure::InvalidInput(
                    CustomErrorMessage::new(
                        String::from_str("Invalid parameters were passed to the operation!"),
                        error,
                    ),
                )
            },
            IoErrorKind::NotFound => {
                CustomReisIOFailure::DatabaseNotFound(
                    CustomErrorMessage::new(
                        String::from_str(
                            "Database has not been created or database could not have been found!",
                        ),
                        error,
                    ),
                )
            },
            IoErrorKind::PermissionDenied => {
                CustomReisIOFailure::PermissionDeniedForDatabase(
                    CustomErrorMessage::new(
                        String::from_str(
                            "Reisbase doesn't have permission to get the specified acess into the database!",
                        ),
                        error,
                    ),
                )
            },
            IoErrorKind::Unsupported => {
                CustomReisIOFailure::InvalidPlatformOperation(
                    CustomErrorMessage::new(
                        String::from_str("An operation ocurred which is invalid in this platform!"),
                        error,
                    ),
                )
            },
            IoErrorKind::Other => {
                CustomReisIOFailure::Default(
                    CustomErrorMessage::new(
                        String::from_str(
                            "An unexpected error ocurred! Please report this error to Rafinha!",
                        ),
                        error,
                    ),
                )
            },
        }
    }
}

} // verus!

//! One command together with the store it runs on.

use crate::actions::{executed, new_action, outcome_view, ReisbaseAction};
use crate::arguments::{arguments_of, parse_arguments};
use crate::codec::{decoded, map_of};
use crate::error_handler::io_failure;
use crate::failures::{CustomReisActionWarning, CustomReisIOFailure, IoError};
use crate::reisbase::{lists, Reisbase};
use crate::success::CustomSuccessOperation;
use vstd::prelude::*;

verus! {

/// A command and the store it runs on.
#[derive(Debug)]
pub struct Controller {
    pub action: ReisbaseAction,
    pub database: Reisbase,
}

impl Controller {
    /// Makes the command out of its name, key, value and the tokens that
    /// follow, and opens the store on what was read of the backing file. A
    /// command that cannot be made fails before the store is looked at.
    pub fn new(
        action: &str,
        key: Option<String>,
        value: Option<String>,
        arguments: Vec<String>,
        loaded: Result<String, IoError>,
    ) -> (made: Result<Controller, CustomReisIOFailure>)
        ensures
            match new_action(
                action@,
                key.deep_view(),
                value.deep_view(),
                arguments_of(arguments.deep_view()),
            ) {
                Err(failure) => made matches Err(found) && found@ == failure,
                Ok(expected) => match loaded {
                    Err(error) => made matches Err(found) && found@ == io_failure(error@),
                    Ok(contents) => made matches Ok(controller) && controller.action@ == expected
                        && controller.database@ == map_of(decoded(contents@)),
                },
            },
    {
        let arguments = parse_arguments(&arguments);
        let action = ReisbaseAction::new(action, key, value, arguments)?;
        let database = Reisbase::build(loaded)?;
        Ok(Controller { action, database })
    }

    /// Runs the command on the store. The command stays as it is; the store
    /// changes only where the command goes through.
    pub fn execute(&mut self) -> (outcome: Result<CustomSuccessOperation, CustomReisActionWarning>)
        ensures
            final(self).action == old(self).action,
            (final(self).database@, outcome_view(outcome)) == executed(
                old(self).action@,
                old(self).database@,
                old(self).database.listing(),
            ),
            outcome is Err || old(self).action is Get || old(self).action is GetAll
                ==> final(self).database == old(self).database,
            lists(final(self).database.listing(), final(self).database@),
    {
        ReisbaseAction::execute(self)
    }
}

} // verus!

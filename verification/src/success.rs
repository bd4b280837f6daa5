//! What a command that went through tells the user.

use crate::constants::{
    sucessful_clear_text, sucessful_delete_text, sucessful_insert_text, SucessfulOperationStrings,
};
use vstd::prelude::*;
use vstd::string::*;

verus! {

/// The confirmation of a command, by the kind of the command. `Get` and
/// `GetAll` carry what was read, the others a message.
#[derive(Debug)]
pub enum CustomSuccessOperation {
    Insert(String),
    Get(String),
    Put(String),
    Delete(String),
    GetAll(String),
    Clear(String),
}

/// The model of a `CustomSuccessOperation`.
pub enum SuccessView {
    Insert(Seq<char>),
    Get(Seq<char>),
    Put(Seq<char>),
    Delete(Seq<char>),
    GetAll(Seq<char>),
    Clear(Seq<char>),
}

impl View for CustomSuccessOperation {
    type V = SuccessView;

    open spec fn view(&self) -> SuccessView {
        match self {
            CustomSuccessOperation::Insert(message) => SuccessView::Insert(message@),
            CustomSuccessOperation::Get(message) => SuccessView::Get(message@),
            CustomSuccessOperation::Put(message) => SuccessView::Put(message@),
            CustomSuccessOperation::Delete(message) => SuccessView::Delete(message@),
            CustomSuccessOperation::GetAll(message) => SuccessView::GetAll(message@),
            CustomSuccessOperation::Clear(message) => SuccessView::Clear(message@),
        }
    }
}

impl SuccessView {
    /// The text that the confirmation carries, whatever its kind.
    pub open spec fn message(self) -> Seq<char> {
        match self {
            SuccessView::Insert(message) => message,
            SuccessView::Get(message) => message,
            SuccessView::Put(message) => message,
            SuccessView::Delete(message) => message,
            SuccessView::GetAll(message) => message,
            SuccessView::Clear(message) => message,
        }
    }
}

impl CustomSuccessOperation {
    /// The confirmation of a `SetEntry`.
    pub fn insert(key: &str, new_value: &str) -> (success: CustomSuccessOperation)
        ensures
            success@ == SuccessView::Insert(sucessful_insert_text(key@, new_value@)),
    {
        CustomSuccessOperation::Insert(
            SucessfulOperationStrings::sucessful_insert_operation(key, new_value),
        )
    }

    /// The confirmation of a `Put`.
    pub fn put(key: &str, value: &str) -> (success: CustomSuccessOperation)
        ensures
            success@ == SuccessView::Put(sucessful_insert_text(key@, value@)),
    {
        CustomSuccessOperation::Put(
            SucessfulOperationStrings::sucessful_insert_operation(key, value),
        )
    }

    /// The confirmation of a `Del`.
    pub fn delete(key: &str) -> (success: CustomSuccessOperation)
        ensures
            success@ == SuccessView::Delete(sucessful_delete_text(key@)),
    {
        CustomSuccessOperation::Delete(SucessfulOperationStrings::sucessful_delete_operation(key))
    }

    /// The confirmation of a `Clear`.
    pub fn clear() -> (success: CustomSuccessOperation)
        ensures
            success@ == SuccessView::Clear(sucessful_clear_text()),
    {
        CustomSuccessOperation::Clear(SucessfulOperationStrings::sucessful_clear_operation())
    }

    /// The text that the confirmation carries, whatever its kind.
    pub fn message(&self) -> (message: &str)
        ensures
            message@ == self@.message(),
    {
        match self {
            CustomSuccessOperation::Insert(message) => message.as_str(),
            CustomSuccessOperation::Get(message) => message.as_str(),
            CustomSuccessOperation::Put(message) => message.as_str(),
            CustomSuccessOperation::Delete(message) => message.as_str(),
            CustomSuccessOperation::GetAll(message) => message.as_str(),
            CustomSuccessOperation::Clear(message) => message.as_str(),
        }
    }
}

} // verus!

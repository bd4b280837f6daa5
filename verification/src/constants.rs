//! The fixed texts of the store: the markers of the file format and the
//! messages shown to the user.

use vstd::prelude::*;
use vstd::string::*;

verus! {

/// The markers of the line-oriented file format and the default file name.
pub struct DatabaseStringConstants;

impl DatabaseStringConstants {
    /// Name of the backing file when the caller does not choose one.
    pub const DATABASE_NAME: &'static str = "reis.db";

    /// Written in front of every key; removed again when a line is read.
    pub const KEY_IDENTIFIER: &'static str = "#-#";

    /// Reserved for values. No line written today carries it.
    pub const VALUE_IDENTIFIER: &'static str = "#$#";

    /// Reserved for descriptions. No line written today carries it.
    pub const DESCRIPTION_IDENTIFIER: &'static str = "#&#";

    /// Stands between the key and the value of a line.
    pub const ENTRIES_SEPARATOR: &'static str = "\t";
}

/// Confirmation messages of the operations that change the store.
pub struct SucessfulOperationStrings;

/// Text of the confirmation after a key was given a value.
pub open spec fn sucessful_insert_text(key: Seq<char>, value: Seq<char>) -> Seq<char> {
    "Sucessfully set the key "@ + key + " with the value "@ + value + " in the database!"@
}

/// Text of the confirmation after an entry was deleted.
pub open spec fn sucessful_delete_text(key: Seq<char>) -> Seq<char> {
    "Sucessfully deleted the entry for "@ + key + "!"@
}

/// Text of the confirmation after the store was emptied.
pub open spec fn sucessful_clear_text() -> Seq<char> {
    "Sucessfully cleared all database values!"@
}

impl SucessfulOperationStrings {
    /// The confirmation after a key was given a value.
    pub fn sucessful_insert_operation(key: &str, value: &str) -> (message: String)
        ensures
            message@ == sucessful_insert_text(key@, value@),
    {
        let mut message = String::from_str("Sucessfully set the key ");
        message.append(key);
        message.append(" with the value ");
        message.append(value);
        message.append(" in the database!");
        message
    }

    /// The confirmation after an entry was deleted.
    pub fn sucessful_delete_operation(key: &str) -> (message: String)
        ensures
            message@ == sucessful_delete_text(key@),
    {
        let mut message = String::from_str("Sucessfully deleted the entry for ");
        message.append(key);
        message.append("!");
        message
    }

    /// The confirmation after the store was emptied.
    pub fn sucessful_clear_operation() -> (message: String)
        ensures
            message@ == sucessful_clear_text(),
    {
        String::from_str("Sucessfully cleared all database values!")
    }
}

/// Question asked before the whole store is emptied.
pub const THIS_ACTION_IS_PERMANENT: &'static str =
    "This action is permanent, and will clear all your data. Are you sure you want to continue? (Y/n)";

/// Shown when the user declines a confirmation.
pub const CANCELED_OPERATION: &'static str = "The operation was canceled!";

/// Shown when the answer to a confirmation could not be read.
pub const INPUT_READ_ERROR: &'static str =
    "Sorry, an error occured when attempting to read your input!";

/// Shown when an operation needs entries and the store has none.
pub const EMPTY_DATABASE: &'static str = "Database doesn't contain any value!";

/// Text of the question asked before an existing key is overwritten.
pub open spec fn the_key_already_exists_text(key: Seq<char>, old_value: Seq<char>) -> Seq<char> {
    "The key "@ + key + " already exists in this database, with the value of "@ + old_value
        + ". Do you want to replace it? (Y/n)"@
}

/// Text of the hint given when a key is not in the store.
pub open spec fn the_entry_does_not_exists_text(key: Seq<char>, value: Seq<char>) -> Seq<char> {
    "The entry "@ + key + " does not exists! You can create a new one with the command: set "@
        + key + " "@ + value
}

/// The question asked before an existing key is overwritten.
pub fn the_key_already_exists(key: &str, old_value: &str) -> (message: String)
    ensures
        message@ == the_key_already_exists_text(key@, old_value@),
{
    let mut message = String::from_str("The key ");
    message.append(key);
    message.append(" already exists in this database, with the value of ");
    message.append(old_value);
    message.append(". Do you want to replace it? (Y/n)");
    message
}

/// The hint given when a key is not in the store.
pub fn the_entry_does_not_exists(key: &str, value: &str) -> (message: String)
    ensures
        message@ == the_entry_does_not_exists_text(key@, value@),
{
    let mut message = String::from_str("The entry ");
    message.append(key);
    message.append(" does not exists! You can create a new one with the command: set ");
    message.append(key);
    message.append(" ");
    message.append(value);
    message
}

} // verus!

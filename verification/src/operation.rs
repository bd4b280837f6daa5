//! A request as it comes from the command line, before it is checked.

use vstd::prelude::*;
use vstd::string::*;

verus! {

/// The name of a command, the key and the value given with it, and the
/// tokens that follow them.
#[derive(Debug)]
pub struct Operation {
    pub action: String,
    pub key: Option<String>,
    pub value: Option<String>,
    pub arguments: Vec<String>,
}

/// The model of an `Operation`.
pub struct OperationView {
    pub action: Seq<char>,
    pub key: Option<Seq<char>>,
    pub value: Option<Seq<char>>,
    pub arguments: Seq<Seq<char>>,
}

impl View for Operation {
    type V = OperationView;

    open spec fn view(&self) -> OperationView {
        OperationView {
            action: self.action@,
            key: self.key.deep_view(),
            value: self.value.deep_view(),
            arguments: self.arguments.deep_view(),
        }
    }
}

/// The request that overwrites the value of a key.
pub open spec fn put_operation(key: Seq<char>, value: Seq<char>) -> OperationView {
    OperationView { action: "put"@, key: Some(key), value: Some(value), arguments: Seq::empty() }
}

/// The request that empties the store without asking.
pub open spec fn clear_operation() -> OperationView {
    OperationView { action: "c"@, key: None, value: None, arguments: seq!["-f"@] }
}

impl Operation {
    /// The request for the named command; no request without a name.
    pub fn new(
        action: Option<String>,
        key: Option<String>,
        value: Option<String>,
        arguments: Vec<String>,
    ) -> (made: Option<Operation>)
        ensures
            made == match action {
                Some(action) => Some(Operation { action, key, value, arguments }),
                None => None,
            },
    {
        match action {
            Some(action) => Some(Operation { action, key, value, arguments }),
            None => None,
        }
    }

    /// The request that overwrites the value of a key.
    pub fn put(key: &str, value: &str) -> (made: Operation)
        ensures
            made@ == put_operation(key@, value@),
    {
        let made = Operation {
            action: String::from_str("put"),
            key: Some(String::from_str(key)),
            value: Some(String::from_str(value)),
            arguments: Vec::new(),
        };
        assert(made.arguments.deep_view() == Seq::<Seq<char>>::empty());
        made
    }

    /// The request that empties the store without asking.
    pub fn clear() -> (made: Operation)
        ensures
            made@ == clear_operation(),
    {
        let mut arguments: Vec<String> = Vec::new();
        arguments.push(String::from_str("-f"));
        let made = Operation {
            action: String::from_str("c"),
            key: None,
            value: None,
            arguments,
        };
        assert(made.arguments.deep_view() == seq!["-f"@]);
        made
    }
}

} // verus!

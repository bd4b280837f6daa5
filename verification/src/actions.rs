//! The commands: what each one needs, and what it does to the store.

use crate::arguments::{has_argument, ReisbaseActionsArguments};
use crate::codec::encoded;
use crate::constants::{sucessful_clear_text, sucessful_delete_text, sucessful_insert_text};
use crate::controller::Controller;
use crate::failures::{
    clear_without_force_view, invalid_action_arguments_view, unknown_action_requested_view,
    CustomReisActionWarning, CustomReisIOFailure, FailureView, WarningView,
};
use crate::reisbase::{lemma_map_of_distinct, lemma_map_of_keys, lists};
use crate::success::{CustomSuccessOperation, SuccessView};
use crate::text::same_text;
use vstd::prelude::*;
use vstd::string::*;

verus! {

/// One command with what it needs to run: `SetEntry` and `Put` carry a key
/// and a value, `Get` and `Del` a key, `GetAll` and `Clear` neither.
#[derive(Debug)]
pub enum ReisbaseAction {
    SetEntry { key: String, value: String, arguments: Vec<ReisbaseActionsArguments> },
    Get { key: String, arguments: Vec<ReisbaseActionsArguments> },
    Put { key: String, value: String, arguments: Vec<ReisbaseActionsArguments> },
    Del { key: String, arguments: Vec<ReisbaseActionsArguments> },
    GetAll { arguments: Vec<ReisbaseActionsArguments> },
    Clear { arguments: Vec<ReisbaseActionsArguments> },
}

/// The model of a `ReisbaseAction`.
pub enum ActionView {
    SetEntry { key: Seq<char>, value: Seq<char>, arguments: Seq<ReisbaseActionsArguments> },
    Get { key: Seq<char>, arguments: Seq<ReisbaseActionsArguments> },
    Put { key: Seq<char>, value: Seq<char>, arguments: Seq<ReisbaseActionsArguments> },
    Del { key: Seq<char>, arguments: Seq<ReisbaseActionsArguments> },
    GetAll { arguments: Seq<ReisbaseActionsArguments> },
    Clear { arguments: Seq<ReisbaseActionsArguments> },
}

impl View for ReisbaseAction {
    type V = ActionView;

    open spec fn view(&self) -> ActionView {
        match self {
            ReisbaseAction::SetEntry { key, value, arguments } => ActionView::SetEntry {
                key: key@,
                value: value@,
                arguments: arguments@,
            },
            ReisbaseAction::Get { key, arguments } => ActionView::Get {
                key: key@,
                arguments: arguments@,
            },
            ReisbaseAction::Put { key, value, arguments } => ActionView::Put {
                key: key@,
                value: value@,
                arguments: arguments@,
            },
            ReisbaseAction::Del { key, arguments } => ActionView::Del {
                key: key@,
                arguments: arguments@,
            },
            ReisbaseAction::GetAll { arguments } => ActionView::GetAll { arguments: arguments@ },
            ReisbaseAction::Clear { arguments } => ActionView::Clear { arguments: arguments@ },
        }
    }
}

impl ActionView {
    /// The two spellings of the command: the short one and the long one.
    pub open spec fn names(self) -> Seq<Seq<char>> {
        match self {
            ActionView::SetEntry { .. } => seq!["s"@, "set"@],
            ActionView::Get { .. } => seq!["g"@, "get"@],
            ActionView::Put { .. } => seq!["p"@, "put"@],
            ActionView::Del { .. } => seq!["d"@, "del"@],
            ActionView::GetAll { .. } => seq!["ga"@, "getall"@],
            ActionView::Clear { .. } => seq!["c"@, "clr"@],
        }
    }

    /// The name under which the command is shown to the user.
    pub open spec fn action_name(self) -> Seq<char> {
        match self {
            ActionView::SetEntry { .. } => "Set"@,
            ActionView::Get { .. } => "Get"@,
            ActionView::Put { .. } => "Put"@,
            ActionView::Del { .. } => "Delete"@,
            ActionView::GetAll { .. } => "Get All"@,
            ActionView::Clear { .. } => "Clear"@,
        }
    }

    /// Whether the command carries a key.
    pub open spec fn has_key(self) -> bool {
        self is SetEntry || self is Get || self is Put || self is Del
    }

    /// Whether the command carries a value.
    pub open spec fn has_value(self) -> bool {
        self is SetEntry || self is Put
    }
}

/// Every command with nothing filled in, in the order in which a name is
/// looked up.
pub open spec fn blank_actions() -> Seq<ActionView> {
    seq![
        ActionView::SetEntry { key: Seq::empty(), value: Seq::empty(), arguments: Seq::empty() },
        ActionView::Get { key: Seq::empty(), arguments: Seq::empty() },
        ActionView::Put { key: Seq::empty(), value: Seq::empty(), arguments: Seq::empty() },
        ActionView::Del { key: Seq::empty(), arguments: Seq::empty() },
        ActionView::GetAll { arguments: Seq::empty() },
        ActionView::Clear { arguments: Seq::empty() },
    ]
}

/// The first of the candidates that goes by the name.
pub open spec fn first_named(candidates: Seq<ActionView>, name: Seq<char>) -> Option<ActionView>
    decreases candidates.len(),
{
    if candidates.len() == 0 {
        None
    } else if candidates.first().names().contains(name) {
        Some(candidates.first())
    } else {
        first_named(candidates.drop_first(), name)
    }
}

/// No name belongs to two commands, so the order in which a name is looked
/// up does not matter.
pub proof fn lemma_names_are_distinct(i: int, j: int, name: Seq<char>)
    requires
        0 <= i < j < blank_actions().len(),
    ensures
        !(blank_actions()[i].names().contains(name) && blank_actions()[j].names().contains(name)),
{
    reveal_strlit("s");
    reveal_strlit("set");
    reveal_strlit("g");
    reveal_strlit("get");
    reveal_strlit("p");
    reveal_strlit("put");
    reveal_strlit("d");
    reveal_strlit("del");
    reveal_strlit("ga");
    reveal_strlit("getall");
    reveal_strlit("c");
    reveal_strlit("clr");
    let first = blank_actions()[i].names();
    let second = blank_actions()[j].names();
    if first.contains(name) && second.contains(name) {
        let a = choose|a: int| 0 <= a < first.len() && first[a] == name;
        let b = choose|b: int| 0 <= b < second.len() && second[b] == name;
        assert(first[a].len() == second[b].len());
        assert(first[a][0] == second[b][0]);
    }
}

/// The command that a name, a key, a value and flags make: the name picks
/// the command, which then takes the key and the value that it needs. An
/// unknown name and a missing key or value are failures.
pub open spec fn new_action(
    name: Seq<char>,
    key: Option<Seq<char>>,
    value: Option<Seq<char>>,
    arguments: Seq<ReisbaseActionsArguments>,
) -> Result<ActionView, FailureView> {
    match first_named(blank_actions(), name) {
        None => Err(unknown_action_requested_view(name)),
        Some(blank) => {
            let incomplete = Err(invalid_action_arguments_view(blank.action_name()));
            match blank {
                ActionView::SetEntry { .. } => match (key, value) {
                    (Some(key), Some(value)) => Ok(ActionView::SetEntry { key, value, arguments }),
                    _ => incomplete,
                },
                ActionView::Get { .. } => match key {
                    Some(key) => Ok(ActionView::Get { key, arguments }),
                    None => incomplete,
                },
                ActionView::Put { .. } => match (key, value) {
                    (Some(key), Some(value)) => Ok(ActionView::Put { key, value, arguments }),
                    _ => incomplete,
                },
                ActionView::Del { .. } => match key {
                    Some(key) => Ok(ActionView::Del { key, arguments }),
                    None => incomplete,
                },
                ActionView::GetAll { .. } => Ok(ActionView::GetAll { arguments }),
                ActionView::Clear { .. } => Ok(ActionView::Clear { arguments }),
            }
        },
    }
}

/// The model of what a command answers.
pub open spec fn outcome_view(
    outcome: Result<CustomSuccessOperation, CustomReisActionWarning>,
) -> Result<SuccessView, WarningView> {
    match outcome {
        Ok(success) => Ok(success@),
        Err(warning) => Err(warning@),
    }
}

/// What a command does to a store and what it answers. `store` is the
/// mapping before the command and `listing` the order in which its entries
/// are written out; the result is the mapping after the command and the
/// answer.
///
/// - `SetEntry` creates: it warns if the key is there, and writes otherwise.
/// - `Get` reads the value of a key that is there.
/// - `Put` updates: it writes if the key is there, and warns otherwise.
/// - `Del` takes out a key that is there.
/// - `GetAll` writes out every entry of a store that has any.
/// - `Clear` warns on an empty store whatever its flags; on any other it
///   empties the store if it was forced, and warns if it was not.
pub open spec fn executed(
    action: ActionView,
    store: Map<Seq<char>, Seq<char>>,
    listing: Seq<(Seq<char>, Seq<char>)>,
) -> (Map<Seq<char>, Seq<char>>, Result<SuccessView, WarningView>) {
    match action {
        ActionView::SetEntry { key, value, .. } => if store.contains_key(key) {
            (
                store,
                Err(
                    WarningView::EntryAlreadyExists {
                        key,
                        old_value: store[key],
                        new_value: value,
                    },
                ),
            )
        } else {
            (store.insert(key, value), Ok(SuccessView::Insert(sucessful_insert_text(key, value))))
        },
        ActionView::Get { key, .. } => if store.contains_key(key) {
            (store, Ok(SuccessView::Get(store[key])))
        } else {
            (store, Err(WarningView::EntryDoesntExists { key, value: None }))
        },
        ActionView::Put { key, value, .. } => if store.contains_key(key) {
            (store.insert(key, value), Ok(SuccessView::Put(sucessful_insert_text(key, value))))
        } else {
            (store, Err(WarningView::EntryDoesntExists { key, value: Some(value) }))
        },
        ActionView::Del { key, .. } => if store.contains_key(key) {
            (store.remove(key), Ok(SuccessView::Delete(sucessful_delete_text(key))))
        } else {
            (store, Err(WarningView::EntryDoesntExists { key, value: None }))
        },
        ActionView::GetAll { .. } => if store == Map::<Seq<char>, Seq<char>>::empty() {
            (store, Err(WarningView::EmptyDatabase))
        } else {
            (store, Ok(SuccessView::GetAll(encoded(listing))))
        },
        ActionView::Clear { arguments } => if store == Map::<Seq<char>, Seq<char>>::empty() {
            (store, Err(WarningView::EmptyDatabase))
        } else if arguments.contains(ReisbaseActionsArguments::Force) {
            (Map::empty(), Ok(SuccessView::Clear(sucessful_clear_text())))
        } else {
            (store, Err(clear_without_force_view()))
        },
    }
}

/// The text that a command hands to the clipboard: the value that a `Get`
/// with the clipboard flag has read.
pub open spec fn copied(action: ActionView, outcome: Result<SuccessView, WarningView>) -> Option<
    Seq<char>,
> {
    match (action, outcome) {
        (ActionView::Get { arguments, .. }, Ok(SuccessView::Get(value))) => if arguments.contains(
            ReisbaseActionsArguments::Clipboard,
        ) {
            Some(value)
        } else {
            None
        },
        _ => None,
    }
}

/// The pair stands in the list at one place and its key at no other.
pub open spec fn stands_once(
    listing: Seq<(Seq<char>, Seq<char>)>,
    key: Seq<char>,
    value: Seq<char>,
) -> bool {
    exists|at: int|
        0 <= at < listing.len() && #[trigger] listing[at] == (key, value) && forall|other: int|
            0 <= other < listing.len() && (#[trigger] listing[other]).0 == key ==> other == at
}

/// `SetEntry` creates and `Put` updates. On a store that lacks the key,
/// setting it goes through and the value is read back; setting it again is
/// refused with both values named and changes nothing; putting it goes
/// through and the new value is read back.
pub proof fn lemma_set_then_put(
    store: Map<Seq<char>, Seq<char>>,
    listing: Seq<(Seq<char>, Seq<char>)>,
    key: Seq<char>,
    value: Seq<char>,
    later_value: Seq<char>,
    arguments: Seq<ReisbaseActionsArguments>,
)
    requires
        !store.contains_key(key),
    ensures
        ({
            let get = ActionView::Get { key, arguments };
            let (created, answer) = executed(
                ActionView::SetEntry { key, value, arguments },
                store,
                listing,
            );
            let (kept, refusal) = executed(
                ActionView::SetEntry { key, value: later_value, arguments },
                created,
                listing,
            );
            let (updated, confirmation) = executed(
                ActionView::Put { key, value: later_value, arguments },
                kept,
                listing,
            );
            &&& answer is Ok
            &&& executed(get, created, listing).1 == Ok::<SuccessView, WarningView>(
                SuccessView::Get(value),
            )
            &&& refusal == Err::<SuccessView, WarningView>(
                WarningView::EntryAlreadyExists { key, old_value: value, new_value: later_value },
            )
            &&& kept == created
            &&& confirmation is Ok
            &&& executed(get, updated, listing).1 == Ok::<SuccessView, WarningView>(
                SuccessView::Get(later_value),
            )
        }),
{
}

/// `Put` never creates: on a store that lacks the key it warns, names the
/// value that was to be written, and changes nothing.
pub proof fn lemma_put_needs_entry(
    store: Map<Seq<char>, Seq<char>>,
    listing: Seq<(Seq<char>, Seq<char>)>,
    key: Seq<char>,
    value: Seq<char>,
    arguments: Seq<ReisbaseActionsArguments>,
)
    requires
        !store.contains_key(key),
    ensures
        executed(ActionView::Put { key, value, arguments }, store, listing) == (
            store,
            Err::<SuccessView, WarningView>(
                WarningView::EntryDoesntExists { key, value: Some(value) },
            ),
        ),
{
}

/// After a `Del` that went through, a `Get` of the same key finds nothing.
pub proof fn lemma_del_then_get(
    store: Map<Seq<char>, Seq<char>>,
    listing: Seq<(Seq<char>, Seq<char>)>,
    key: Seq<char>,
    arguments: Seq<ReisbaseActionsArguments>,
)
    ensures
        ({
            let (after, answer) = executed(ActionView::Del { key, arguments }, store, listing);
            answer is Ok ==> executed(ActionView::Get { key, arguments }, after, listing) == (
                after,
                Err::<SuccessView, WarningView>(
                    WarningView::EntryDoesntExists { key, value: None },
                ),
            )
        }),
{
}

/// On a store that holds entries, `Clear` without the force flag warns,
/// names the forced clear and changes nothing; with the flag it leaves the
/// store empty.
pub proof fn lemma_clear_requires_force(
    store: Map<Seq<char>, Seq<char>>,
    listing: Seq<(Seq<char>, Seq<char>)>,
    arguments: Seq<ReisbaseActionsArguments>,
)
    requires
        store != Map::<Seq<char>, Seq<char>>::empty(),
    ensures
        !arguments.contains(ReisbaseActionsArguments::Force) ==> executed(
            ActionView::Clear { arguments },
            store,
            listing,
        ) == (
            store,
            Err::<SuccessView, WarningView>(
                WarningView::RequiredArgumentsNotSpecified {
                    operation: ActionView::Clear {
                        arguments: seq![ReisbaseActionsArguments::Force],
                    },
                },
            ),
        ),
        arguments.contains(ReisbaseActionsArguments::Force) ==> executed(
            ActionView::Clear { arguments },
            store,
            listing,
        ) == (
            Map::<Seq<char>, Seq<char>>::empty(),
            Ok::<SuccessView, WarningView>(SuccessView::Clear(sucessful_clear_text())),
        ),
{
}

/// On an empty store `Clear` warns that the store is empty, whatever its
/// flags.
pub proof fn lemma_clear_of_empty(
    listing: Seq<(Seq<char>, Seq<char>)>,
    arguments: Seq<ReisbaseActionsArguments>,
)
    ensures
        executed(ActionView::Clear { arguments }, Map::empty(), listing) == (
            Map::<Seq<char>, Seq<char>>::empty(),
            Err::<SuccessView, WarningView>(WarningView::EmptyDatabase),
        ),
{
}

/// `GetAll` warns on an empty store. On any other it answers with the text
/// written for the store's list of entries, in which every pair of the
/// store stands once and nothing else stands.
pub proof fn lemma_get_all(
    store: Map<Seq<char>, Seq<char>>,
    listing: Seq<(Seq<char>, Seq<char>)>,
    arguments: Seq<ReisbaseActionsArguments>,
)
    requires
        lists(listing, store),
    ensures
        store == Map::<Seq<char>, Seq<char>>::empty() ==> executed(
            ActionView::GetAll { arguments },
            store,
            listing,
        ) == (store, Err::<SuccessView, WarningView>(WarningView::EmptyDatabase)),
        store != Map::<Seq<char>, Seq<char>>::empty() ==> executed(
            ActionView::GetAll { arguments },
            store,
            listing,
        ) == (store, Ok::<SuccessView, WarningView>(SuccessView::GetAll(encoded(listing)))),
        forall|key: Seq<char>| #[trigger]
            store.contains_key(key) ==> stands_once(listing, key, store[key]),
        forall|at: int|
            0 <= at < listing.len() ==> store.contains_key((#[trigger] listing[at]).0)
                && store[listing[at].0] == listing[at].1,
{
    lemma_map_of_keys(listing);
    lemma_map_of_distinct(listing);
    assert forall|key: Seq<char>| #[trigger] store.contains_key(key) implies stands_once(
        listing,
        key,
        store[key],
    ) by {
        let at = choose|at: int| 0 <= at < listing.len() && (#[trigger] listing[at]).0 == key;
        assert(listing[at] == (key, store[key]));
        assert forall|other: int|
            0 <= other < listing.len() && (#[trigger] listing[other]).0 == key implies other
            == at by {
            if other < at {
                assert(listing[other].0 != listing[at].0);
            } else if at < other {
                assert(listing[at].0 != listing[other].0);
            }
        }
    }
}

impl ReisbaseAction {
    /// Runs the command of the controller on its store.
    pub fn execute(controller: &mut Controller) -> (outcome: Result<
        CustomSuccessOperation,
        CustomReisActionWarning,
    >)
        ensures
            final(controller).action == old(controller).action,
            (final(controller).database@, outcome_view(outcome)) == executed(
                old(controller).action@,
                old(controller).database@,
                old(controller).database.listing(),
            ),
            outcome is Err || old(controller).action is Get || old(controller).action is GetAll
                ==> final(controller).database == old(controller).database,
            lists(final(controller).database.listing(), final(controller).database@),
    {
        let outcome = match &controller.action {
            ReisbaseAction::SetEntry { key, value: new_value, arguments: _ } => {
                match controller.database.get(key.as_str()) {
                    Some(ref old_value) => Err(
                        CustomReisActionWarning::entry_already_exists(
                            key.as_str(),
                            old_value.as_str(),
                            new_value.as_str(),
                        ),
                    ),
                    None => {
                        controller.database.insert(key.as_str(), new_value.as_str());
                        Ok(CustomSuccessOperation::insert(key.as_str(), new_value.as_str()))
                    },
                }
            },
            ReisbaseAction::Get { key, arguments: _ } => {
                match controller.database.get(key.as_str()) {
                    Some(value) => Ok(CustomSuccessOperation::Get(value)),
                    None => Err(CustomReisActionWarning::entry_doesnt_exists(key.as_str(), None)),
                }
            },
            ReisbaseAction::Put { key, value, arguments: _ } => {
                if controller.database.contains_key(key.as_str()) {
                    controller.database.insert(key.as_str(), value.as_str());
                    Ok(CustomSuccessOperation::put(key.as_str(), value.as_str()))
                } else {
                    Err(
                        CustomReisActionWarning::entry_doesnt_exists(
                            key.as_str(),
                            Some(value.as_str()),
                        ),
                    )
                }
            },
            ReisbaseAction::Del { key, arguments: _ } => {
                if controller.database.contains_key(key.as_str()) {
                    controller.database.delete(key.as_str());
                    Ok(CustomSuccessOperation::delete(key.as_str()))
                } else {
                    Err(CustomReisActionWarning::entry_doesnt_exists(key.as_str(), None))
                }
            },
            ReisbaseAction::GetAll { arguments: _ } => {
                match controller.database.get_all() {
                    Some(text) => Ok(CustomSuccessOperation::GetAll(text)),
                    None => Err(CustomReisActionWarning::EmptyDatabase),
                }
            },
            ReisbaseAction::Clear { arguments } => {
                if controller.database.is_empty() {
                    Err(CustomReisActionWarning::EmptyDatabase)
                } else if has_argument(arguments, ReisbaseActionsArguments::Force) {
                    controller.database.clear();
                    Ok(CustomSuccessOperation::clear())
                } else {
                    Err(CustomReisActionWarning::clear_without_force())
                }
            },
        };
        proof {
            use_type_invariant(&controller.database);
            controller.database.lemma_listing();
        }
        outcome
    }

    /// The text that the command hands to the clipboard after it has run.
    pub fn clipboard_text(
        &self,
        outcome: &Result<CustomSuccessOperation, CustomReisActionWarning>,
    ) -> (text: Option<String>)
        ensures
            text.deep_view() == copied(self@, outcome_view(*outcome)),
    {
        match (self, outcome) {
            (ReisbaseAction::Get { key: _, arguments }, Ok(CustomSuccessOperation::Get(value))) => {
                if has_argument(arguments, ReisbaseActionsArguments::Clipboard) {
                    Some(value.clone())
                } else {
                    None
                }
            },
            _ => None,
        }
    }

    /// The command that a name, a key, a value and flags make.
    pub fn new(
        action: &str,
        key: Option<String>,
        value: Option<String>,
        arguments: Vec<ReisbaseActionsArguments>,
    ) -> (made: Result<ReisbaseAction, CustomReisIOFailure>)
        ensures
            match new_action(action@, key.deep_view(), value.deep_view(), arguments@) {
                Ok(expected) => made matches Ok(made_action) && made_action@ == expected,
                Err(expected) => made matches Err(failure) && failure@ == expected,
            },
    {
        let reisbase_action = match ReisbaseAction::first(action) {
            Some(found) => found,
            None => {
                return Err(CustomReisIOFailure::unknown_action_requested(action));
            },
        };
        let action_name = reisbase_action.action_name();
        let action = match reisbase_action {
            ReisbaseAction::SetEntry { .. } => {
                let (key, value) = parse_key_and_value(key, value, action_name)?;
                ReisbaseAction::SetEntry { key, value, arguments }
            },
            ReisbaseAction::Get { .. } => {
                let key = parse_key_or_value(key, action_name)?;
                ReisbaseAction::Get { key, arguments }
            },
            ReisbaseAction::Put { .. } => {
                let (key, value) = parse_key_and_value(key, value, action_name)?;
                ReisbaseAction::Put { key, value, arguments }
            },
            ReisbaseAction::Del { .. } => {
                let key = parse_key_or_value(key, action_name)?;
                ReisbaseAction::Del { key, arguments }
            },
            ReisbaseAction::GetAll { .. } => ReisbaseAction::GetAll { arguments },
            ReisbaseAction::Clear { .. } => ReisbaseAction::Clear { arguments },
        };
        Ok(action)
    }

    /// The name under which the command is shown to the user.
    pub fn action_name(&self) -> (name: &'static str)
        ensures
            name@ == self@.action_name(),
    {
        match self {
            ReisbaseAction::SetEntry { .. } => "Set",
            ReisbaseAction::Get { .. } => "Get",
            ReisbaseAction::Put { .. } => "Put",
            ReisbaseAction::Del { .. } => "Delete",
            ReisbaseAction::GetAll { .. } => "Get All",
            ReisbaseAction::Clear { .. } => "Clear",
        }
    }

    /// Every command with nothing filled in, in the order in which a name
    /// is looked up.
    fn blanks() -> (all: Vec<ReisbaseAction>)
        ensures
            all.len() == 6,
            forall|i: int| 0 <= i < 6 ==> (#[trigger] all@[i])@ == blank_actions()[i],
    {
        let mut all: Vec<ReisbaseAction> = Vec::new();
        all.push(
            ReisbaseAction::SetEntry {
                key: String::new(),
                value: String::new(),
                arguments: Vec::new(),
            },
        );
        all.push(ReisbaseAction::Get { key: String::new(), arguments: Vec::new() });
        all.push(
            ReisbaseAction::Put { key: String::new(), value: String::new(), arguments: Vec::new() },
        );
        all.push(ReisbaseAction::Del { key: String::new(), arguments: Vec::new() });
        all.push(ReisbaseAction::GetAll { arguments: Vec::new() });
        all.push(ReisbaseAction::Clear { arguments: Vec::new() });
        all
    }

    /// The command that goes by the name, with nothing filled in.
    pub fn first(action: &str) -> (found: Option<ReisbaseAction>)
        ensures
            match first_named(blank_actions(), action@) {
                Some(expected) => found matches Some(found_action) && found_action@ == expected,
                None => found is None,
            },
    {
        let mut candidates = ReisbaseAction::blanks();
        let mut at: usize = 0;
        assert(blank_actions().skip(0) == blank_actions());
        while at < candidates.len()
            invariant
                at <= candidates.len(),
                candidates.len() == 6,
                forall|i: int| 0 <= i < 6 ==> (#[trigger] candidates@[i])@ == blank_actions()[i],
                first_named(blank_actions(), action@) == first_named(
                    blank_actions().skip(at as int),
                    action@,
                ),
            decreases candidates.len() - at,
        {
            proof {
                let rest = blank_actions().skip(at as int);
                assert(rest.first() == blank_actions()[at as int]);
                assert(rest.drop_first() == blank_actions().skip(at + 1));
            }
            if candidates[at].has_same_name(action) {
                return Some(candidates.remove(at));
            }
            at += 1;
        }
        None
    }

    /// The two spellings of the command: the short one and the long one.
    pub fn names(&self) -> (names: &'static [&'static str])
        ensures
            names.deep_view() == self@.names(),
    {
        let names: &'static [&'static str] = match self {
            ReisbaseAction::SetEntry { key: _, value: _, arguments: _ } => &["s", "set"],
            ReisbaseAction::Get { key: _, arguments: _ } => &["g", "get"],
            ReisbaseAction::Put { key: _, value: _, arguments: _ } => &["p", "put"],
            ReisbaseAction::Del { key: _, arguments: _ } => &["d", "del"],
            ReisbaseAction::GetAll { arguments: _ } => &["ga", "getall"],
            ReisbaseAction::Clear { arguments: _ } => &["c", "clr"],
        };
        assert(names.deep_view() == self@.names());
        names
    }

    /// Whether the command goes by the name.
    pub fn has_same_name(&self, action: &str) -> (same: bool)
        ensures
            same == self@.names().contains(action@),
    {
        let names = self.names();
        let mut at: usize = 0;
        while at < names.len()
            invariant
                at <= names.len(),
                names.deep_view() == self@.names(),
                forall|i: int| 0 <= i < at ==> self@.names()[i] != action@,
            decreases names.len() - at,
        {
            assert(names.deep_view()[at as int] == names@[at as int]@);
            if same_text(names[at], action) {
                return true;
            }
            at += 1;
        }
        false
    }

    /// What `f` gives, for a command that carries a key; `None`, without a
    /// call of `f`, for any other.
    pub fn with_key<F>(&self, f: F) -> (key: Option<String>) where F: FnOnce() -> Option<String>
        requires
            self@.has_key() ==> f.requires(()),
        ensures
            self@.has_key() ==> f.ensures((), key),
            !self@.has_key() ==> key is None,
    {
        if self.has_key() {
            f()
        } else {
            None
        }
    }

    /// What `f` gives, for a command that carries a value; `None`, without
    /// a call of `f`, for any other.
    pub fn with_value<F>(&self, f: F) -> (value: Option<String>) where
        F: FnOnce() -> Option<String>,

        requires
            self@.has_value() ==> f.requires(()),
        ensures
            self@.has_value() ==> f.ensures((), value),
            !self@.has_value() ==> value is None,
    {
        if self.has_value() {
            f()
        } else {
            None
        }
    }

    /// Whether the command carries a key.
    pub fn has_key(&self) -> (has: bool)
        ensures
            has == self@.has_key(),
    {
        match self {
            ReisbaseAction::SetEntry { .. } => true,
            ReisbaseAction::Get { .. } => true,
            ReisbaseAction::Put { .. } => true,
            ReisbaseAction::Del { .. } => true,
            ReisbaseAction::GetAll { .. } => false,
            ReisbaseAction::Clear { .. } => false,
        }
    }

    /// Whether the command carries a value.
    pub fn has_value(&self) -> (has: bool)
        ensures
            has == self@.has_value(),
    {
        match self {
            ReisbaseAction::SetEntry { .. } => true,
            ReisbaseAction::Get { .. } => false,
            ReisbaseAction::Put { .. } => true,
            ReisbaseAction::Del { .. } => false,
            ReisbaseAction::GetAll { .. } => false,
            ReisbaseAction::Clear { .. } => false,
        }
    }
}

/// The key or the value that a command needs, or the failure that says it
/// is missing.
pub fn parse_key_or_value(s: Option<String>, action_name: &str) -> (parsed: Result<
    String,
    CustomReisIOFailure,
>)
    ensures
        match s {
            Some(text) => parsed == Ok::<String, CustomReisIOFailure>(text),
            None => parsed matches Err(failure) && failure@ == invalid_action_arguments_view(
                action_name@,
            ),
        },
{
    match s {
        Some(text) => Ok(text),
        None => Err(CustomReisIOFailure::invalid_action_arguments(action_name)),
    }
}

/// The key and the value that a command needs, or the failure that says
/// one of them is missing.
pub fn parse_key_and_value(key: Option<String>, value: Option<String>, action_name: &str) -> (parsed:
    Result<(String, String), CustomReisIOFailure>)
    ensures
        match (key, value) {
            (Some(key), Some(value)) => parsed == Ok::<(String, String), CustomReisIOFailure>(
                (key, value),
            ),
            _ => parsed matches Err(failure) && failure@ == invalid_action_arguments_view(
                action_name@,
            ),
        },
{
    let key = parse_key_or_value(key, action_name)?;
    let value = parse_key_or_value(value, action_name)?;
    Ok((key, value))
}

} // verus!

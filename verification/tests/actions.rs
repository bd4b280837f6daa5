use reisbase::actions::{parse_key_and_value, parse_key_or_value, ReisbaseAction};
use reisbase::arguments::{has_argument, parse_arguments, ReisbaseActionsArguments};
use reisbase::controller::Controller;
use reisbase::failures::{
    CustomReisActionWarning, CustomReisIOFailure, IoError, IoErrorKind,
};
use reisbase::reisbase::Reisbase;
use reisbase::success::CustomSuccessOperation;

fn store_of(text: &str) -> Reisbase {
    Reisbase::build(Ok(text.to_string())).unwrap()
}

fn controller(action: ReisbaseAction, text: &str) -> Controller {
    Controller { action, database: store_of(text) }
}

fn set(key: &str, value: &str) -> ReisbaseAction {
    ReisbaseAction::SetEntry { key: key.to_string(), value: value.to_string(), arguments: vec![] }
}

fn get(key: &str) -> ReisbaseAction {
    ReisbaseAction::Get { key: key.to_string(), arguments: vec![] }
}

fn put(key: &str, value: &str) -> ReisbaseAction {
    ReisbaseAction::Put { key: key.to_string(), value: value.to_string(), arguments: vec![] }
}

fn del(key: &str) -> ReisbaseAction {
    ReisbaseAction::Del { key: key.to_string(), arguments: vec![] }
}

fn run(controller: &mut Controller, action: ReisbaseAction) -> Result<CustomSuccessOperation, CustomReisActionWarning> {
    controller.action = action;
    ReisbaseAction::execute(controller)
}

#[test]
fn set_on_a_fresh_store_writes_the_value() {
    let mut c = controller(set("k", "v"), "");
    match ReisbaseAction::execute(&mut c) {
        Ok(CustomSuccessOperation::Insert(message)) => {
            assert_eq!(message, "Sucessfully set the key k with the value v in the database!")
        }
        other => panic!("unexpected: {:?}", other),
    }
    assert_eq!(c.database.get("k"), Some("v".to_string()));
    assert_eq!(c.database.count(), 1);
}

#[test]
fn set_then_get_then_set_again_then_put() {
    let mut c = controller(set("k", "v"), "");
    assert!(matches!(ReisbaseAction::execute(&mut c), Ok(CustomSuccessOperation::Insert(_))));
    match run(&mut c, get("k")) {
        Ok(CustomSuccessOperation::Get(value)) => assert_eq!(value, "v"),
        other => panic!("unexpected: {:?}", other),
    }
    match run(&mut c, set("k", "v2")) {
        Err(CustomReisActionWarning::EntryAlreadyExists { key, old_value, new_value }) => {
            assert_eq!(key, "k");
            assert_eq!(old_value, "v");
            assert_eq!(new_value, "v2");
        }
        other => panic!("unexpected: {:?}", other),
    }
    match run(&mut c, get("k")) {
        Ok(CustomSuccessOperation::Get(value)) => assert_eq!(value, "v"),
        other => panic!("unexpected: {:?}", other),
    }
    match run(&mut c, put("k", "v2")) {
        Ok(CustomSuccessOperation::Put(message)) => {
            assert_eq!(message, "Sucessfully set the key k with the value v2 in the database!")
        }
        other => panic!("unexpected: {:?}", other),
    }
    match run(&mut c, get("k")) {
        Ok(CustomSuccessOperation::Get(value)) => assert_eq!(value, "v2"),
        other => panic!("unexpected: {:?}", other),
    }
    assert_eq!(c.database.count(), 1);
}

#[test]
fn put_of_a_missing_key_warns_and_names_the_value() {
    let mut c = controller(put("k", "v"), "#-#other\t1\n");
    match ReisbaseAction::execute(&mut c) {
        Err(CustomReisActionWarning::EntryDoesntExists { key, value }) => {
            assert_eq!(key, "k");
            assert_eq!(value, Some("v".to_string()));
        }
        other => panic!("unexpected: {:?}", other),
    }
    assert!(!c.database.contains_key("k"));
    assert_eq!(c.database.count(), 1);
}

#[test]
fn get_of_a_missing_key_warns_without_a_value() {
    let mut c = controller(get("k"), "");
    match ReisbaseAction::execute(&mut c) {
        Err(CustomReisActionWarning::EntryDoesntExists { key, value }) => {
            assert_eq!(key, "k");
            assert_eq!(value, None);
        }
        other => panic!("unexpected: {:?}", other),
    }
}

#[test]
fn del_then_get_finds_nothing() {
    let mut c = controller(del("k"), "#-#k\tv\n#-#l\tw\n");
    match ReisbaseAction::execute(&mut c) {
        Ok(CustomSuccessOperation::Delete(message)) => {
            assert_eq!(message, "Sucessfully deleted the entry for k!")
        }
        other => panic!("unexpected: {:?}", other),
    }
    match run(&mut c, get("k")) {
        Err(CustomReisActionWarning::EntryDoesntExists { key, value }) => {
            assert_eq!(key, "k");
            assert_eq!(value, None);
        }
        other => panic!("unexpected: {:?}", other),
    }
    assert_eq!(c.database.get("l"), Some("w".to_string()));
}

#[test]
fn del_of_a_missing_key_warns_and_changes_nothing() {
    let mut c = controller(del("k"), "#-#l\tw\n");
    match ReisbaseAction::execute(&mut c) {
        Err(CustomReisActionWarning::EntryDoesntExists { key, value }) => {
            assert_eq!(key, "k");
            assert_eq!(value, None);
        }
        other => panic!("unexpected: {:?}", other),
    }
    assert_eq!(c.database.count(), 1);
}

#[test]
fn clear_without_force_on_a_store_with_entries_warns() {
    let mut c = controller(ReisbaseAction::Clear { arguments: vec![] }, "#-#k\tv\n");
    match ReisbaseAction::execute(&mut c) {
        Err(CustomReisActionWarning::RequiredArgumentsNotSpecified {
            operation: ReisbaseAction::Clear { arguments },
        }) => assert_eq!(arguments, vec![ReisbaseActionsArguments::Force]),
        other => panic!("unexpected: {:?}", other),
    }
    assert_eq!(c.database.count(), 1);
    assert!(!c.database.is_empty());
}

#[test]
fn clear_with_other_flags_is_not_forced() {
    let arguments = vec![
        ReisbaseActionsArguments::Help,
        ReisbaseActionsArguments::Clipboard,
        ReisbaseActionsArguments::Description,
    ];
    let mut c = controller(ReisbaseAction::Clear { arguments }, "#-#k\tv\n");
    assert!(matches!(
        ReisbaseAction::execute(&mut c),
        Err(CustomReisActionWarning::RequiredArgumentsNotSpecified { .. })
    ));
    assert_eq!(c.database.count(), 1);
}

#[test]
fn clear_with_force_empties_the_store() {
    let arguments = vec![ReisbaseActionsArguments::Help, ReisbaseActionsArguments::Force];
    let mut c = controller(ReisbaseAction::Clear { arguments }, "#-#k\tv\n#-#l\tw\n");
    match ReisbaseAction::execute(&mut c) {
        Ok(CustomSuccessOperation::Clear(message)) => {
            assert_eq!(message, "Sucessfully cleared all database values!")
        }
        other => panic!("unexpected: {:?}", other),
    }
    assert!(c.database.is_empty());
    assert_eq!(c.database.count(), 0);
}

#[test]
fn clear_of_an_empty_store_warns_that_it_is_empty_without_force() {
    let mut c = controller(ReisbaseAction::Clear { arguments: vec![] }, "");
    assert!(matches!(
        ReisbaseAction::execute(&mut c),
        Err(CustomReisActionWarning::EmptyDatabase)
    ));
}

#[test]
fn clear_of_an_empty_store_warns_that_it_is_empty_with_force() {
    let arguments = vec![ReisbaseActionsArguments::Force];
    let mut c = controller(ReisbaseAction::Clear { arguments }, "");
    assert!(matches!(
        ReisbaseAction::execute(&mut c),
        Err(CustomReisActionWarning::EmptyDatabase)
    ));
    assert!(c.database.is_empty());
}

#[test]
fn get_all_of_an_empty_store_warns() {
    let mut c = controller(ReisbaseAction::GetAll { arguments: vec![] }, "");
    assert!(matches!(
        ReisbaseAction::execute(&mut c),
        Err(CustomReisActionWarning::EmptyDatabase)
    ));
}

#[test]
fn get_all_holds_every_pair_once() {
    let mut c = controller(set("a", "1"), "");
    assert!(ReisbaseAction::execute(&mut c).is_ok());
    assert!(run(&mut c, set("b", "2")).is_ok());
    assert!(run(&mut c, set("c", "3")).is_ok());
    assert!(run(&mut c, put("b", "4")).is_ok());
    assert!(run(&mut c, del("a")).is_ok());
    match run(&mut c, ReisbaseAction::GetAll { arguments: vec![] }) {
        Ok(CustomSuccessOperation::GetAll(text)) => {
            let mut lines: Vec<&str> = text.lines().collect();
            lines.sort();
            assert_eq!(lines, vec!["#-#b\t4", "#-#c\t3"]);
        }
        other => panic!("unexpected: {:?}", other),
    }
    assert_eq!(c.database.count(), 2);
}

#[test]
fn controller_execute_runs_its_command() {
    let mut c = controller(set("k", "v"), "");
    assert!(matches!(c.execute(), Ok(CustomSuccessOperation::Insert(_))));
    assert!(matches!(c.execute(), Err(CustomReisActionWarning::EntryAlreadyExists { .. })));
    assert_eq!(c.database.get("k"), Some("v".to_string()));
}

#[test]
fn execute_keeps_the_command() {
    let mut c = controller(set("k", "v"), "");
    let _ = c.execute();
    match &c.action {
        ReisbaseAction::SetEntry { key, value, arguments } => {
            assert_eq!(key, "k");
            assert_eq!(value, "v");
            assert!(arguments.is_empty());
        }
        other => panic!("unexpected: {:?}", other),
    }
}

#[test]
fn clipboard_text_is_the_value_of_a_get_with_the_flag() {
    let action = ReisbaseAction::Get {
        key: "k".to_string(),
        arguments: vec![ReisbaseActionsArguments::Clipboard],
    };
    let found = Ok(CustomSuccessOperation::Get("v".to_string()));
    assert_eq!(action.clipboard_text(&found), Some("v".to_string()));
    let missing = Err(CustomReisActionWarning::EntryDoesntExists { key: "k".to_string(), value: None });
    assert_eq!(action.clipboard_text(&missing), None);
}

#[test]
fn clipboard_text_is_none_without_the_flag_or_for_another_command() {
    let found = Ok(CustomSuccessOperation::Get("v".to_string()));
    assert_eq!(get("k").clipboard_text(&found), None);
    let forced = ReisbaseAction::Get {
        key: "k".to_string(),
        arguments: vec![ReisbaseActionsArguments::Force],
    };
    assert_eq!(forced.clipboard_text(&found), None);
    let all = ReisbaseAction::GetAll { arguments: vec![ReisbaseActionsArguments::Clipboard] };
    let dump = Ok(CustomSuccessOperation::GetAll("#-#k\tv\n".to_string()));
    assert_eq!(all.clipboard_text(&dump), None);
}

#[test]
fn names_are_a_short_and_a_long_spelling() {
    assert_eq!(set("", "").names(), ["s", "set"]);
    assert_eq!(get("").names(), ["g", "get"]);
    assert_eq!(put("", "").names(), ["p", "put"]);
    assert_eq!(del("").names(), ["d", "del"]);
    assert_eq!(ReisbaseAction::GetAll { arguments: vec![] }.names(), ["ga", "getall"]);
    assert_eq!(ReisbaseAction::Clear { arguments: vec![] }.names(), ["c", "clr"]);
}

#[test]
fn action_name_is_the_name_shown_to_the_user() {
    assert_eq!(set("", "").action_name(), "Set");
    assert_eq!(get("").action_name(), "Get");
    assert_eq!(put("", "").action_name(), "Put");
    assert_eq!(del("").action_name(), "Delete");
    assert_eq!(ReisbaseAction::GetAll { arguments: vec![] }.action_name(), "Get All");
    assert_eq!(ReisbaseAction::Clear { arguments: vec![] }.action_name(), "Clear");
}

#[test]
fn has_same_name_accepts_both_spellings_and_nothing_else() {
    let action = set("", "");
    assert!(action.has_same_name("s"));
    assert!(action.has_same_name("set"));
    assert!(!action.has_same_name("Set"));
    assert!(!action.has_same_name("se"));
    assert!(!action.has_same_name("sets"));
    assert!(!action.has_same_name(""));
    assert!(!action.has_same_name("g"));
    let all = ReisbaseAction::GetAll { arguments: vec![] };
    assert!(all.has_same_name("ga"));
    assert!(all.has_same_name("getall"));
    assert!(!all.has_same_name("g"));
    assert!(!all.has_same_name("get"));
}

#[test]
fn first_finds_the_command_of_each_spelling() {
    assert!(matches!(ReisbaseAction::first("s"), Some(ReisbaseAction::SetEntry { .. })));
    assert!(matches!(ReisbaseAction::first("set"), Some(ReisbaseAction::SetEntry { .. })));
    assert!(matches!(ReisbaseAction::first("g"), Some(ReisbaseAction::Get { .. })));
    assert!(matches!(ReisbaseAction::first("get"), Some(ReisbaseAction::Get { .. })));
    assert!(matches!(ReisbaseAction::first("p"), Some(ReisbaseAction::Put { .. })));
    assert!(matches!(ReisbaseAction::first("put"), Some(ReisbaseAction::Put { .. })));
    assert!(matches!(ReisbaseAction::first("d"), Some(ReisbaseAction::Del { .. })));
    assert!(matches!(ReisbaseAction::first("del"), Some(ReisbaseAction::Del { .. })));
    assert!(matches!(ReisbaseAction::first("ga"), Some(ReisbaseAction::GetAll { .. })));
    assert!(matches!(ReisbaseAction::first("getall"), Some(ReisbaseAction::GetAll { .. })));
    assert!(matches!(ReisbaseAction::first("c"), Some(ReisbaseAction::Clear { .. })));
    assert!(matches!(ReisbaseAction::first("clr"), Some(ReisbaseAction::Clear { .. })));
}

#[test]
fn first_gives_the_command_with_nothing_filled_in() {
    match ReisbaseAction::first("set") {
        Some(ReisbaseAction::SetEntry { key, value, arguments }) => {
            assert_eq!(key, "");
            assert_eq!(value, "");
            assert!(arguments.is_empty());
        }
        other => panic!("unexpected: {:?}", other),
    }
}

#[test]
fn first_knows_no_other_name() {
    assert!(ReisbaseAction::first("").is_none());
    assert!(ReisbaseAction::first("clear").is_none());
    assert!(ReisbaseAction::first("delete").is_none());
    assert!(ReisbaseAction::first("SET").is_none());
    assert!(ReisbaseAction::first("get ").is_none());
}

#[test]
fn new_fills_in_the_key_the_value_and_the_flags() {
    let flags = vec![ReisbaseActionsArguments::Force, ReisbaseActionsArguments::Help];
    match ReisbaseAction::new("s", Some("k".to_string()), Some("v".to_string()), flags.clone()) {
        Ok(ReisbaseAction::SetEntry { key, value, arguments }) => {
            assert_eq!(key, "k");
            assert_eq!(value, "v");
            assert_eq!(arguments, flags);
        }
        other => panic!("unexpected: {:?}", other),
    }
    match ReisbaseAction::new("put", Some("k".to_string()), Some("v".to_string()), vec![]) {
        Ok(ReisbaseAction::Put { key, value, arguments }) => {
            assert_eq!(key, "k");
            assert_eq!(value, "v");
            assert!(arguments.is_empty());
        }
        other => panic!("unexpected: {:?}", other),
    }
    match ReisbaseAction::new("g", Some("k".to_string()), None, flags.clone()) {
        Ok(ReisbaseAction::Get { key, arguments }) => {
            assert_eq!(key, "k");
            assert_eq!(arguments, flags);
        }
        other => panic!("unexpected: {:?}", other),
    }
    match ReisbaseAction::new("del", Some("k".to_string()), None, vec![]) {
        Ok(ReisbaseAction::Del { key, arguments }) => {
            assert_eq!(key, "k");
            assert!(arguments.is_empty());
        }
        other => panic!("unexpected: {:?}", other),
    }
}

#[test]
fn new_drops_a_key_and_a_value_that_the_command_does_not_carry() {
    assert!(matches!(
        ReisbaseAction::new("ga", Some("k".to_string()), Some("v".to_string()), vec![]),
        Ok(ReisbaseAction::GetAll { .. })
    ));
    assert!(matches!(ReisbaseAction::new("clr", None, None, vec![]), Ok(ReisbaseAction::Clear { .. })));
    match ReisbaseAction::new("get", Some("k".to_string()), Some("ignored".to_string()), vec![]) {
        Ok(ReisbaseAction::Get { key, .. }) => assert_eq!(key, "k"),
        other => panic!("unexpected: {:?}", other),
    }
}

#[test]
fn new_of_an_unknown_name_fails() {
    match ReisbaseAction::new("frobnicate", Some("k".to_string()), None, vec![]) {
        Err(CustomReisIOFailure::UnknownActionRequest(message)) => {
            assert_eq!(
                message.message(),
                "The argument frobnicate is not recongnized as a real action."
            );
            assert_eq!(message.error().kind, IoErrorKind::InvalidInput);
            assert_eq!(message.error().description, "frobnicate");
        }
        other => panic!("unexpected: {:?}", other),
    }
}

#[test]
fn new_without_the_key_or_the_value_it_needs_fails() {
    let cases: Vec<(&str, Option<&str>, Option<&str>, &str)> = vec![
        ("set", None, None, "Set"),
        ("set", Some("k"), None, "Set"),
        ("s", None, Some("v"), "Set"),
        ("put", Some("k"), None, "Put"),
        ("p", None, Some("v"), "Put"),
        ("get", None, None, "Get"),
        ("g", None, Some("v"), "Get"),
        ("del", None, None, "Delete"),
    ];
    for (name, key, value, shown) in cases {
        match ReisbaseAction::new(name, key.map(String::from), value.map(String::from), vec![]) {
            Err(CustomReisIOFailure::InvalidActionArguments(message)) => {
                assert_eq!(
                    message.message(),
                    format!("Invalid arguments were passed for the {} action!", shown)
                );
                assert_eq!(message.error().kind, IoErrorKind::InvalidInput);
                assert_eq!(message.error().description, "See message");
            }
            other => panic!("unexpected for {}: {:?}", name, other),
        }
    }
}

#[test]
fn with_key_calls_the_function_for_a_command_with_a_key() {
    let give = || Some("k".to_string());
    assert_eq!(set("", "").with_key(give), Some("k".to_string()));
    assert_eq!(get("").with_key(give), Some("k".to_string()));
    assert_eq!(put("", "").with_key(give), Some("k".to_string()));
    assert_eq!(del("").with_key(give), Some("k".to_string()));
    assert_eq!(get("").with_key(|| None), None);
}

#[test]
fn with_key_does_not_call_the_function_for_a_command_without_a_key() {
    let mut called = false;
    let all = ReisbaseAction::GetAll { arguments: vec![] };
    assert_eq!(
        all.with_key(|| {
            called = true;
            Some("k".to_string())
        }),
        None
    );
    assert!(!called);
    let clear = ReisbaseAction::Clear { arguments: vec![] };
    assert_eq!(clear.with_key(|| Some("k".to_string())), None);
}

#[test]
fn with_value_calls_the_function_for_set_and_put_only() {
    let give = || Some("v".to_string());
    assert_eq!(set("", "").with_value(give), Some("v".to_string()));
    assert_eq!(put("", "").with_value(give), Some("v".to_string()));
    assert_eq!(get("").with_value(give), None);
    assert_eq!(del("").with_value(give), None);
    assert_eq!(ReisbaseAction::GetAll { arguments: vec![] }.with_value(give), None);
    assert_eq!(ReisbaseAction::Clear { arguments: vec![] }.with_value(give), None);
}

#[test]
fn has_key_and_has_value_by_command() {
    assert!(set("", "").has_key() && set("", "").has_value());
    assert!(put("", "").has_key() && put("", "").has_value());
    assert!(get("").has_key() && !get("").has_value());
    assert!(del("").has_key() && !del("").has_value());
    let all = ReisbaseAction::GetAll { arguments: vec![] };
    assert!(!all.has_key() && !all.has_value());
    let clear = ReisbaseAction::Clear { arguments: vec![] };
    assert!(!clear.has_key() && !clear.has_value());
}

#[test]
fn parse_key_or_value_hands_the_text_on_or_fails() {
    assert_eq!(parse_key_or_value(Some("k".to_string()), "Get").unwrap(), "k");
    match parse_key_or_value(None, "Get") {
        Err(CustomReisIOFailure::InvalidActionArguments(message)) => {
            assert_eq!(message.message(), "Invalid arguments were passed for the Get action!")
        }
        other => panic!("unexpected: {:?}", other),
    }
}

#[test]
fn parse_key_and_value_needs_both() {
    assert_eq!(
        parse_key_and_value(Some("k".to_string()), Some("v".to_string()), "Set").unwrap(),
        ("k".to_string(), "v".to_string())
    );
    assert!(parse_key_and_value(Some("k".to_string()), None, "Set").is_err());
    assert!(parse_key_and_value(None, Some("v".to_string()), "Set").is_err());
    assert!(parse_key_and_value(None, None, "Set").is_err());
}

#[test]
fn arguments_are_read_from_their_tokens() {
    assert_eq!(ReisbaseActionsArguments::new("-f"), Some(ReisbaseActionsArguments::Force));
    assert_eq!(ReisbaseActionsArguments::new("-h"), Some(ReisbaseActionsArguments::Help));
    assert_eq!(ReisbaseActionsArguments::new("-c"), Some(ReisbaseActionsArguments::Clipboard));
    assert_eq!(ReisbaseActionsArguments::new("-d"), Some(ReisbaseActionsArguments::Description));
}

#[test]
fn other_tokens_are_no_arguments() {
    for token in ["", "-", "f", "-F", "-f ", "--f", "-force", "-x"] {
        assert_eq!(ReisbaseActionsArguments::new(token), None);
    }
}

#[test]
fn arguments_are_shown_with_their_meaning() {
    assert_eq!(ReisbaseActionsArguments::Force.to_string(), "-f (Force)");
    assert_eq!(ReisbaseActionsArguments::Help.to_string(), "-h (Help)");
    assert_eq!(ReisbaseActionsArguments::Clipboard.to_string(), "-c (Copy to Clipboard)");
    assert_eq!(ReisbaseActionsArguments::Description.to_string(), "-d (Description)");
}

#[test]
fn parse_arguments_keeps_the_flags_in_order_and_drops_the_rest() {
    let tokens: Vec<String> =
        ["-c", "junk", "-f", "", "-f", "-d", "-h", "-z"].iter().map(|t| t.to_string()).collect();
    assert_eq!(
        parse_arguments(&tokens),
        vec![
            ReisbaseActionsArguments::Clipboard,
            ReisbaseActionsArguments::Force,
            ReisbaseActionsArguments::Force,
            ReisbaseActionsArguments::Description,
            ReisbaseActionsArguments::Help,
        ]
    );
    assert_eq!(parse_arguments(&Vec::new()), Vec::new());
}

#[test]
fn has_argument_looks_for_one_flag() {
    let flags = vec![ReisbaseActionsArguments::Help, ReisbaseActionsArguments::Force];
    assert!(has_argument(&flags, ReisbaseActionsArguments::Force));
    assert!(has_argument(&flags, ReisbaseActionsArguments::Help));
    assert!(!has_argument(&flags, ReisbaseActionsArguments::Clipboard));
    assert!(!has_argument(&Vec::new(), ReisbaseActionsArguments::Force));
}

#[test]
fn controller_new_makes_the_command_and_opens_the_store() {
    let tokens = vec!["-f".to_string(), "noise".to_string(), "-c".to_string()];
    let made = Controller::new(
        "set",
        Some("k".to_string()),
        Some("v".to_string()),
        tokens,
        Ok("#-#a\t1\n".to_string()),
    );
    let mut made = made.unwrap();
    match &made.action {
        ReisbaseAction::SetEntry { key, value, arguments } => {
            assert_eq!(key, "k");
            assert_eq!(value, "v");
            assert_eq!(
                arguments,
                &vec![ReisbaseActionsArguments::Force, ReisbaseActionsArguments::Clipboard]
            );
        }
        other => panic!("unexpected: {:?}", other),
    }
    assert_eq!(made.database.count(), 1);
    assert_eq!(made.database.get("a"), Some("1".to_string()));
}

#[test]
fn controller_new_fails_on_the_command_before_the_store() {
    let fault = IoError::new(IoErrorKind::PermissionDenied, "denied");
    assert!(matches!(
        Controller::new("nope", None, None, vec![], Err(fault)),
        Err(CustomReisIOFailure::UnknownActionRequest(_))
    ));
    let fault = IoError::new(IoErrorKind::PermissionDenied, "denied");
    assert!(matches!(
        Controller::new("get", None, None, vec![], Err(fault)),
        Err(CustomReisIOFailure::InvalidActionArguments(_))
    ));
}

#[test]
fn controller_new_fails_on_a_fault_of_the_store() {
    let fault = IoError::new(IoErrorKind::InvalidData, "not utf-8");
    match Controller::new("ga", None, None, vec![], Err(fault)) {
        Err(CustomReisIOFailure::CorruptedDatabase(message)) => {
            assert_eq!(message.error().description, "not utf-8")
        }
        other => panic!("unexpected: {:?}", other),
    }
}

use reisbase::codec::{decode, encode, format_entry, remove_key_identifier};
use reisbase::constants::DatabaseStringConstants;
use reisbase::reisbase::{db_file_to_entries, string_to_option, Reisbase};
use reisbase::text::{chars_of, find_from, matches_at, same_text, string_of};

fn pair(key: &str, value: &str) -> (String, String) {
    (key.to_string(), value.to_string())
}

#[test]
fn format_entry_writes_identifier_key_separator_value_and_line_feed() {
    assert_eq!(format_entry("name", "Ada"), "#-#name\tAda\n");
    assert_eq!(format_entry("", ""), "#-#\t\n");
    assert_eq!(format_entry("k", "a\tb"), "#-#k\ta\tb\n");
}

#[test]
fn format_entry_uses_the_constants_of_the_format() {
    let expected = format!(
        "{}{}{}{}\n",
        DatabaseStringConstants::KEY_IDENTIFIER,
        "k",
        DatabaseStringConstants::ENTRIES_SEPARATOR,
        "v"
    );
    assert_eq!(format_entry("k", "v"), expected);
}

#[test]
fn encode_of_no_entries_is_the_empty_text() {
    assert_eq!(encode(&Vec::new()), "");
}

#[test]
fn encode_writes_the_entries_in_their_order() {
    let entries = vec![pair("a", "1"), pair("b", "2"), pair("c", "")];
    assert_eq!(encode(&entries), "#-#a\t1\n#-#b\t2\n#-#c\t\n");
}

#[test]
fn decode_of_the_empty_text_is_no_entry() {
    assert_eq!(decode(""), Vec::new());
}

#[test]
fn decode_reads_one_entry_per_line() {
    assert_eq!(decode("#-#a\t1\n#-#b\t2\n"), vec![pair("a", "1"), pair("b", "2")]);
}

#[test]
fn decode_reads_a_last_line_without_line_feed() {
    assert_eq!(decode("#-#a\t1\n#-#b\t2"), vec![pair("a", "1"), pair("b", "2")]);
}

#[test]
fn decode_drops_lines_without_separator() {
    let text = "garbage\n#-#a\t1\n\n#-#no separator here\n#-#b\t2\nend";
    assert_eq!(decode(text), vec![pair("a", "1"), pair("b", "2")]);
}

#[test]
fn decode_splits_at_the_first_separator_only() {
    assert_eq!(decode("#-#a\t1\t2\t3\n"), vec![pair("a", "1\t2\t3")]);
}

#[test]
fn decode_takes_a_carriage_return_before_a_line_feed_as_part_of_the_line_end() {
    assert_eq!(decode("#-#a\t1\r\n#-#b\t2\r\n"), vec![pair("a", "1"), pair("b", "2")]);
}

#[test]
fn decode_keeps_a_carriage_return_that_ends_the_text() {
    assert_eq!(decode("#-#a\t1\r"), vec![pair("a", "1\r")]);
}

#[test]
fn decode_strips_one_carriage_return_only() {
    assert_eq!(decode("#-#a\t1\r\r\n"), vec![pair("a", "1\r")]);
}

#[test]
fn decode_keeps_entries_with_the_same_key_in_their_order() {
    assert_eq!(decode("#-#a\t1\n#-#a\t2\n"), vec![pair("a", "1"), pair("a", "2")]);
}

#[test]
fn decode_reads_a_key_without_identifier_as_it_stands() {
    assert_eq!(decode("plain\tvalue\n"), vec![pair("plain", "value")]);
}

#[test]
fn decode_removes_the_first_identifier_wherever_it_stands_in_the_key() {
    assert_eq!(decode("ab#-#cd\tv\n"), vec![pair("abcd", "v")]);
    assert_eq!(decode("#-##-#k\tv\n"), vec![pair("#-#k", "v")]);
}

#[test]
fn decode_leaves_an_identifier_in_the_value() {
    assert_eq!(decode("#-#k\t#-#v\n"), vec![pair("k", "#-#v")]);
}

#[test]
fn decode_reads_text_beyond_ascii() {
    assert_eq!(decode("#-#clé\tvaleur é ü 漢字\n"), vec![pair("clé", "valeur é ü 漢字")]);
}

#[test]
fn decode_of_only_line_feeds_is_no_entry() {
    assert_eq!(decode("\n\n\n"), Vec::new());
}

#[test]
fn decode_allows_the_empty_key_and_the_empty_value() {
    assert_eq!(decode("#-#\t\n"), vec![pair("", "")]);
    assert_eq!(decode("\t\n"), vec![pair("", "")]);
}

#[test]
fn round_trip_gives_back_the_entries() {
    let entries = vec![
        pair("name", "Ada Lovelace"),
        pair("", "empty key"),
        pair("empty value", ""),
        pair("tabs in value", "a\tb\tc"),
        pair("carriage\rreturn in key", "x\ry"),
        pair("#-#", "#-#"),
        pair("unicode ключ", "значение 値"),
    ];
    assert_eq!(decode(&encode(&entries)), entries);
}

#[test]
fn round_trip_gives_back_the_mapping_whatever_the_order() {
    let forward = vec![pair("a", "1"), pair("b", "2"), pair("c", "3")];
    let backward = vec![pair("c", "3"), pair("b", "2"), pair("a", "1")];
    let mut first = db_file_to_entries(encode(&forward)).unwrap();
    let mut second = db_file_to_entries(encode(&backward)).unwrap();
    assert_eq!(first.count(), 3);
    assert_eq!(second.count(), 3);
    for (key, value) in forward.iter() {
        assert_eq!(first.get(key), Some(value.clone()));
        assert_eq!(second.get(key), Some(value.clone()));
    }
}

#[test]
fn round_trip_fails_for_a_value_with_a_line_feed() {
    let entries = vec![pair("k", "a\nb")];
    assert_eq!(decode(&encode(&entries)), vec![pair("k", "a")]);
}

#[test]
fn round_trip_fails_for_a_value_that_ends_in_a_carriage_return() {
    let entries = vec![pair("k", "a\r")];
    assert_eq!(decode(&encode(&entries)), vec![pair("k", "a")]);
}

#[test]
fn round_trip_of_a_store_through_its_own_text() {
    let mut store = Reisbase::build(Ok(String::new())).unwrap();
    store.insert("x", "1");
    store.insert("y", "2");
    store.insert("x", "3");
    let mut again = Reisbase::build(Ok(store.serialize())).unwrap();
    assert_eq!(again.count(), 2);
    assert_eq!(again.get("x"), Some("3".to_string()));
    assert_eq!(again.get("y"), Some("2".to_string()));
}

#[test]
fn remove_key_identifier_takes_out_the_first_identifier() {
    assert_eq!(remove_key_identifier("#-#key"), "key");
    assert_eq!(remove_key_identifier("key"), "key");
    assert_eq!(remove_key_identifier("ke#-#y"), "key");
    assert_eq!(remove_key_identifier("#-##-#key"), "#-#key");
    assert_eq!(remove_key_identifier("#-#"), "");
    assert_eq!(remove_key_identifier(""), "");
    assert_eq!(remove_key_identifier("#-"), "#-");
    assert_eq!(remove_key_identifier("#-#é#-#"), "é#-#");
}

#[test]
fn string_to_option_is_none_for_the_empty_text_only() {
    assert_eq!(string_to_option(String::new()), None);
    assert_eq!(string_to_option("a".to_string()), Some("a".to_string()));
    assert_eq!(string_to_option(" ".to_string()), Some(" ".to_string()));
}

#[test]
fn chars_of_lists_the_characters() {
    assert_eq!(chars_of(""), Vec::<char>::new());
    assert_eq!(chars_of("aé漢"), vec!['a', 'é', '漢']);
}

#[test]
fn string_of_builds_the_text_of_a_range() {
    let chars = vec!['a', 'b', 'c', 'd'];
    assert_eq!(string_of(&chars, 0, 4), "abcd");
    assert_eq!(string_of(&chars, 1, 3), "bc");
    assert_eq!(string_of(&chars, 2, 2), "");
}

#[test]
fn same_text_compares_character_by_character() {
    assert!(same_text("", ""));
    assert!(same_text("abc", "abc"));
    assert!(!same_text("abc", "abd"));
    assert!(!same_text("abc", "ab"));
    assert!(!same_text("ab", "abc"));
    assert!(!same_text("", "a"));
    assert!(same_text("é漢", "é漢"));
}

#[test]
fn matches_at_looks_at_one_position() {
    let text = chars_of("abcabc");
    let pattern = chars_of("bc");
    assert!(matches_at(&text, 1, &pattern));
    assert!(matches_at(&text, 4, &pattern));
    assert!(!matches_at(&text, 0, &pattern));
    assert!(!matches_at(&text, 5, &pattern));
    assert!(!matches_at(&text, 7, &pattern));
    assert!(matches_at(&text, 6, &Vec::new()));
}

#[test]
fn find_from_gives_the_first_occurrence_at_or_after_the_start() {
    let text = chars_of("abcabc");
    let pattern = chars_of("bc");
    assert_eq!(find_from(&text, 0, &pattern), Some(1));
    assert_eq!(find_from(&text, 1, &pattern), Some(1));
    assert_eq!(find_from(&text, 2, &pattern), Some(4));
    assert_eq!(find_from(&text, 5, &pattern), None);
    assert_eq!(find_from(&text, 6, &pattern), None);
    assert_eq!(find_from(&text, 0, &chars_of("x")), None);
    assert_eq!(find_from(&text, 3, &Vec::new()), Some(3));
    assert_eq!(find_from(&text, 0, &chars_of("abcabcd")), None);
}

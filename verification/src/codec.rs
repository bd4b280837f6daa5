//! The text format of the backing file.
//!
//! Every entry is one line: the key identifier, the key, the separator, the
//! value and a line feed. Reading splits the text into lines, drops the lines
//! without a separator, splits the others at their first separator and takes
//! the first key identifier out of what stands before it.

use crate::constants::DatabaseStringConstants;
use crate::text::{
    chars_of, find_from, first_occurrence, is_first_occurrence, lemma_first_occurrence_exists,
    lemma_first_occurrence_is, occurs_at, string_of,
};
use vstd::prelude::*;
use vstd::string::*;

verus! {

/// The line written for one entry, line feed included.
pub open spec fn encoded_entry(key: Seq<char>, value: Seq<char>) -> Seq<char> {
    DatabaseStringConstants::KEY_IDENTIFIER@ + key + DatabaseStringConstants::ENTRIES_SEPARATOR@
        + value + seq!['\n']
}

/// The text written for a list of entries: their lines, one after the other.
pub open spec fn encoded(entries: Seq<(Seq<char>, Seq<char>)>) -> Seq<char>
    decreases entries.len(),
{
    if entries.len() == 0 {
        Seq::empty()
    } else {
        encoded(entries.drop_last()) + encoded_entry(entries.last().0, entries.last().1)
    }
}

/// A line without the carriage return that may end it.
pub open spec fn without_carriage_return(line: Seq<char>) -> Seq<char> {
    if line.len() > 0 && line.last() == '\r' {
        line.drop_last()
    } else {
        line
    }
}

/// The lines of a text. A line ends at a line feed, which is not part of it,
/// nor is a carriage return just before that line feed. What follows the last
/// line feed is a line too, unless nothing follows it.
pub open spec fn lines_of(text: Seq<char>) -> Seq<Seq<char>>
    decreases text.len(),
{
    if text.len() == 0 {
        Seq::empty()
    } else {
        match first_occurrence(text, seq!['\n']) {
            Some(end) => seq![without_carriage_return(text.take(end))] + lines_of(
                text.skip(end + 1),
            ),
            None => seq![text],
        }
    }
}

/// `text` without the first occurrence of `pattern`.
pub open spec fn without_first(text: Seq<char>, pattern: Seq<char>) -> Seq<char> {
    match first_occurrence(text, pattern) {
        Some(at) => text.take(at) + text.skip(at + pattern.len()),
        None => text,
    }
}

/// The entry that a line stands for, if the line holds a separator: the key
/// is what stands before the first separator, without its first key
/// identifier; the value is all that follows that separator.
pub open spec fn decoded_line(line: Seq<char>) -> Option<(Seq<char>, Seq<char>)> {
    match first_occurrence(line, DatabaseStringConstants::ENTRIES_SEPARATOR@) {
        Some(at) => Some(
            (
                without_first(line.take(at), DatabaseStringConstants::KEY_IDENTIFIER@),
                line.skip(at + DatabaseStringConstants::ENTRIES_SEPARATOR@.len()),
            ),
        ),
        None => None,
    }
}

/// The entries that the lines stand for, in the order of the lines.
pub open spec fn decoded_lines(lines: Seq<Seq<char>>) -> Seq<(Seq<char>, Seq<char>)>
    decreases lines.len(),
{
    if lines.len() == 0 {
        Seq::empty()
    } else {
        let before = decoded_lines(lines.drop_last());
        match decoded_line(lines.last()) {
            Some(entry) => before.push(entry),
            None => before,
        }
    }
}

/// The entries that a text stands for, in the order of its lines.
pub open spec fn decoded(text: Seq<char>) -> Seq<(Seq<char>, Seq<char>)> {
    decoded_lines(lines_of(text))
}

/// The mapping that a list of entries stands for. Where a key comes twice,
/// the later entry counts.
pub open spec fn map_of(entries: Seq<(Seq<char>, Seq<char>)>) -> Map<Seq<char>, Seq<char>>
    decreases entries.len(),
{
    if entries.len() == 0 {
        Map::empty()
    } else {
        map_of(entries.drop_last()).insert(entries.last().0, entries.last().1)
    }
}

/// A key that can be read back: it holds neither a separator nor a line feed.
pub open spec fn storable_key(key: Seq<char>) -> bool {
    !key.contains('\t') && !key.contains('\n')
}

/// A value that can be read back: it holds no line feed and does not end in
/// a carriage return.
pub open spec fn storable_value(value: Seq<char>) -> bool {
    !value.contains('\n') && (value.len() > 0 ==> value.last() != '\r')
}

/// Every entry of the list can be read back.
pub open spec fn storable(entries: Seq<(Seq<char>, Seq<char>)>) -> bool {
    forall|i: int|
        0 <= i < entries.len() ==> storable_key(#[trigger] entries[i].0) && storable_value(
            entries[i].1,
        )
}

/// The line written for one entry.
pub fn format_entry(key: &str, value: &str) -> (line: String)
    ensures
        line@ == encoded_entry(key@, value@),
{
    let mut line = String::from_str(DatabaseStringConstants::KEY_IDENTIFIER);
    line.append(key);
    line.append(DatabaseStringConstants::ENTRIES_SEPARATOR);
    line.append(value);
    line.append("\n");
    proof {
        reveal_strlit("\n");
        assert("\n"@ == seq!['\n']);
    }
    line
}

/// The text written for a list of entries.
pub fn encode(entries: &Vec<(String, String)>) -> (text: String)
    ensures
        text@ == encoded(entries.deep_view()),
{
    let mut text = String::new();
    let mut at: usize = 0;
    while at < entries.len()
        invariant
            at <= entries.len(),
            text@ == encoded(entries.deep_view().take(at as int)),
        decreases entries.len() - at,
    {
        proof {
            let next = entries.deep_view().take(at + 1);
            assert(next.drop_last() == entries.deep_view().take(at as int));
            assert(next.last() == (entries@[at as int].0@, entries@[at as int].1@));
        }
        let line = format_entry(entries[at].0.as_str(), entries[at].1.as_str());
        text.append(line.as_str());
        at += 1;
    }
    proof {
        assert(entries.deep_view().take(at as int) == entries.deep_view());
    }
    text
}

/// The characters from `from` up to `to`, on their own.
fn copy_of(chars: &Vec<char>, from: usize, to: usize) -> (copy: Vec<char>)
    requires
        from <= to <= chars.len(),
    ensures
        copy@ == chars@.subrange(from as int, to as int),
{
    let mut copy: Vec<char> = Vec::new();
    let mut at: usize = from;
    while at < to
        invariant
            from <= at <= to <= chars.len(),
            copy@ == chars@.subrange(from as int, at as int),
        decreases to - at,
    {
        copy.push(chars[at]);
        at += 1;
    }
    copy
}

/// The text without the first occurrence of the pattern.
fn remove_first(text: &Vec<char>, pattern: &Vec<char>) -> (rest: String)
    ensures
        rest@ == without_first(text@, pattern@),
{
    assert(text@.skip(0) == text@);
    match find_from(text, 0, pattern) {
        Some(at) => {
            let mut rest = string_of(text, 0, at);
            let tail = string_of(text, at + pattern.len(), text.len());
            rest.append(tail.as_str());
            rest
        },
        None => {
            assert(text@.subrange(0, text@.len() as int) == text@);
            string_of(text, 0, text.len())
        },
    }
}

/// A key as it stands in a line, without its first key identifier.
pub fn remove_key_identifier(key: &str) -> (bare: String)
    ensures
        bare@ == without_first(key@, DatabaseStringConstants::KEY_IDENTIFIER@),
{
    let chars = chars_of(key);
    let identifier = chars_of(DatabaseStringConstants::KEY_IDENTIFIER);
    remove_first(&chars, &identifier)
}

/// The entry that a line stands for, if it holds a separator.
fn decode_line(line: &Vec<char>, separator: &Vec<char>, identifier: &Vec<char>) -> (entry: Option<
    (String, String),
>)
    requires
        separator@ == DatabaseStringConstants::ENTRIES_SEPARATOR@,
        identifier@ == DatabaseStringConstants::KEY_IDENTIFIER@,
    ensures
        entry.deep_view() == decoded_line(line@),
{
    assert(line@.skip(0) == line@);
    match find_from(line, 0, separator) {
        Some(at) => {
            let raw_key = copy_of(line, 0, at);
            let key = remove_first(&raw_key, identifier);
            let value = string_of(line, at + separator.len(), line.len());
            Some((key, value))
        },
        None => None,
    }
}

/// The entries that a text stands for, in the order of its lines.
pub fn decode(contents: &str) -> (entries: Vec<(String, String)>)
    ensures
        entries.deep_view() == decoded(contents@),
{
    let text = chars_of(contents);
    let separator = chars_of(DatabaseStringConstants::ENTRIES_SEPARATOR);
    let identifier = chars_of(DatabaseStringConstants::KEY_IDENTIFIER);
    let line_feed: Vec<char> = vec!['\n'];
    let mut entries: Vec<(String, String)> = Vec::new();
    let ghost mut done: Seq<Seq<char>> = Seq::empty();
    let mut from: usize = 0;
    proof {
        assert(text@.skip(0) == text@);
        assert(done + lines_of(text@) == lines_of(text@));
    }
    while from < text.len()
        invariant
            from <= text.len(),
            text@ == contents@,
            separator@ == DatabaseStringConstants::ENTRIES_SEPARATOR@,
            identifier@ == DatabaseStringConstants::KEY_IDENTIFIER@,
            line_feed@ == seq!['\n'],
            lines_of(text@) == done + lines_of(text@.skip(from as int)),
            entries.deep_view() == decoded_lines(done),
        decreases text.len() - from,
    {
        let ghost rest = text@.skip(from as int);
        let mut line: Vec<char>;
        let next: usize;
        match find_from(&text, from, &line_feed) {
            Some(end) => {
                line = copy_of(&text, from, end);
                if line.len() > 0 && line[line.len() - 1] == '\r' {
                    line.pop();
                }
                next = end + 1;
                proof {
                    assert(rest.take(end - from) == text@.subrange(from as int, end as int));
                    assert(rest.skip(end - from + 1) == text@.skip(next as int));
                }
            },
            None => {
                line = copy_of(&text, from, text.len());
                next = text.len();
                proof {
                    assert(rest == text@.subrange(from as int, text@.len() as int));
                    assert(text@.skip(next as int).len() == 0);
                }
            },
        }
        proof {
            assert(lines_of(rest) == seq![line@] + lines_of(text@.skip(next as int)));
            assert(done + lines_of(rest) == done.push(line@) + lines_of(text@.skip(next as int)));
            assert(done.push(line@).drop_last() == done);
        }
        match decode_line(&line, &separator, &identifier) {
            Some(entry) => {
                entries.push(entry);
            },
            None => {},
        }
        proof {
            done = done.push(line@);
        }
        from = next;
    }
    proof {
        assert(text@.skip(from as int).len() == 0);
        assert(done + Seq::<Seq<char>>::empty() == done);
    }
    entries
}

/// The lines of two texts, one after the other, are the lines of the first
/// and then those of the second, where the first text ends its last line.
proof fn lemma_lines_of_concat(a: Seq<char>, b: Seq<char>)
    requires
        a.len() == 0 || a.last() == '\n',
    ensures
        lines_of(a + b) == lines_of(a) + lines_of(b),
    decreases a.len(),
{
    let line_feed = seq!['\n'];
    if a.len() == 0 {
        assert(a + b == b);
        assert(lines_of(a) + lines_of(b) == lines_of(b));
    } else {
        assert(occurs_at(a, line_feed, a.len() - 1)) by {
            assert(a.subrange(a.len() - 1, a.len() as int) == line_feed);
        }
        lemma_first_occurrence_exists(a, line_feed, a.len() - 1);
        let end = first_occurrence(a, line_feed)->0;
        assert(is_first_occurrence(a + b, line_feed, end)) by {
            assert((a + b).subrange(end, end + 1) == a.subrange(end, end + 1));
            assert forall|earlier: int| 0 <= earlier < end implies !occurs_at(
                a + b,
                line_feed,
                earlier,
            ) by {
                assert((a + b).subrange(earlier, earlier + 1) == a.subrange(earlier, earlier + 1));
                assert(!occurs_at(a, line_feed, earlier));
            }
        }
        lemma_first_occurrence_is(a + b, line_feed, end);
        let tail = a.skip(end + 1);
        assert((a + b).take(end) == a.take(end));
        assert((a + b).skip(end + 1) == tail + b);
        lemma_lines_of_concat(tail, b);
        let head = seq![without_carriage_return(a.take(end))];
        assert(lines_of(a + b) == head + lines_of(tail + b));
        assert(lines_of(a) == head + lines_of(tail));
        assert(head + (lines_of(tail) + lines_of(b)) == (head + lines_of(tail)) + lines_of(b));
    }
}

/// A text that holds no line feed, followed by one, is one line.
proof fn lemma_lines_of_one_line(line: Seq<char>)
    requires
        !line.contains('\n'),
    ensures
        lines_of(line + seq!['\n']) == seq![without_carriage_return(line)],
{
    let line_feed = seq!['\n'];
    let text = line + line_feed;
    let end = line.len() as int;
    assert(is_first_occurrence(text, line_feed, end)) by {
        assert(text.subrange(end, end + 1) == line_feed);
        assert forall|earlier: int| 0 <= earlier < end implies !occurs_at(
            text,
            line_feed,
            earlier,
        ) by {
            if occurs_at(text, line_feed, earlier) {
                assert(text.subrange(earlier, earlier + 1)[0] == '\n');
                assert(line[earlier] == '\n');
            }
        }
    }
    lemma_first_occurrence_is(text, line_feed, end);
    assert(text.take(end) == line);
    assert(text.skip(end + 1).len() == 0);
    assert(lines_of(text.skip(end + 1)) == Seq::<Seq<char>>::empty());
    let only = seq![without_carriage_return(line)];
    assert(lines_of(text) == only + Seq::<Seq<char>>::empty());
    assert(only + Seq::<Seq<char>>::empty() == only);
}

/// The line written for an entry that can be read back is read as one line.
proof fn lemma_lines_of_entry(key: Seq<char>, value: Seq<char>)
    requires
        storable_key(key),
        storable_value(value),
    ensures
        lines_of(encoded_entry(key, value)) == seq![
            DatabaseStringConstants::KEY_IDENTIFIER@ + key
                + DatabaseStringConstants::ENTRIES_SEPARATOR@ + value,
        ],
{
    reveal_strlit("#-#");
    reveal_strlit("\t");
    let line = DatabaseStringConstants::KEY_IDENTIFIER@ + key
        + DatabaseStringConstants::ENTRIES_SEPARATOR@ + value;
    assert(!line.contains('\n')) by {
        if line.contains('\n') {
            let at = choose|at: int| 0 <= at < line.len() && line[at] == '\n';
            if at < 3 {
            } else if at < 3 + key.len() {
                assert(key[at - 3] == '\n');
            } else if at < 4 + key.len() {
            } else {
                assert(value[at - 4 - key.len()] == '\n');
            }
        }
    }
    assert(without_carriage_return(line) == line) by {
        if value.len() > 0 {
            assert(line.last() == value.last());
        } else {
            assert(line.last() == '\t');
        }
    }
    assert(encoded_entry(key, value) == line + seq!['\n']);
    lemma_lines_of_one_line(line);
}

/// The line written for an entry stands for that entry, where the key holds
/// no separator.
proof fn lemma_decoded_line_of_entry(key: Seq<char>, value: Seq<char>)
    requires
        !key.contains('\t'),
    ensures
        decoded_line(
            DatabaseStringConstants::KEY_IDENTIFIER@ + key
                + DatabaseStringConstants::ENTRIES_SEPARATOR@ + value,
        ) == Some((key, value)),
{
    reveal_strlit("#-#");
    reveal_strlit("\t");
    let identifier = DatabaseStringConstants::KEY_IDENTIFIER@;
    let separator = DatabaseStringConstants::ENTRIES_SEPARATOR@;
    let line = identifier + key + separator + value;
    let at = 3 + key.len() as int;
    assert(is_first_occurrence(line, separator, at)) by {
        assert(line.subrange(at, at + 1) == separator);
        assert forall|earlier: int| 0 <= earlier < at implies !occurs_at(
            line,
            separator,
            earlier,
        ) by {
            if occurs_at(line, separator, earlier) {
                assert(line.subrange(earlier, earlier + 1)[0] == '\t');
                assert(line[earlier] == '\t');
                if earlier >= 3 {
                    assert(key[earlier - 3] == '\t');
                }
            }
        }
    }
    lemma_first_occurrence_is(line, separator, at);
    let raw_key = line.take(at);
    assert(raw_key == identifier + key);
    assert(line.skip(at + 1) == value);
    assert(is_first_occurrence(raw_key, identifier, 0)) by {
        assert(raw_key.subrange(0, 3) == identifier);
    }
    lemma_first_occurrence_is(raw_key, identifier, 0);
    assert(raw_key.take(0) + raw_key.skip(3) == key);
}

/// What is written ends its last line.
proof fn lemma_encoded_ends_line(entries: Seq<(Seq<char>, Seq<char>)>)
    ensures
        encoded(entries).len() == 0 || encoded(entries).last() == '\n',
{
    if entries.len() > 0 {
        let line = encoded_entry(entries.last().0, entries.last().1);
        assert(line.last() == '\n');
        assert(encoded(entries).last() == line.last());
    }
}

/// Reading back what was written gives the entries that were written, in
/// their order, and so the mapping that they stand for, in whatever order
/// the entries of that mapping were listed. This holds of entries whose keys
/// hold neither a separator nor a line feed and whose values hold no line
/// feed and do not end in a carriage return.
pub proof fn lemma_round_trip(entries: Seq<(Seq<char>, Seq<char>)>)
    requires
        storable(entries),
    ensures
        decoded(encoded(entries)) == entries,
        map_of(decoded(encoded(entries))) == map_of(entries),
    decreases entries.len(),
{
    if entries.len() == 0 {
        assert(decoded(encoded(entries)) == entries);
    } else {
        let front = entries.drop_last();
        let key = entries.last().0;
        let value = entries.last().1;
        let line = DatabaseStringConstants::KEY_IDENTIFIER@ + key
            + DatabaseStringConstants::ENTRIES_SEPARATOR@ + value;
        assert(storable(front));
        lemma_round_trip(front);
        lemma_encoded_ends_line(front);
        lemma_lines_of_concat(encoded(front), encoded_entry(key, value));
        lemma_lines_of_entry(key, value);
        lemma_decoded_line_of_entry(key, value);
        let lines = lines_of(encoded(entries));
        assert(lines == lines_of(encoded(front)).push(line));
        assert(lines.drop_last() == lines_of(encoded(front)));
        assert(decoded(encoded(entries)) == front.push((key, value)));
        assert(front.push((key, value)) == entries);
    }
}

/// The entries of two lists of lines, one after the other, are the entries
/// of the first and then those of the second.
proof fn lemma_decoded_lines_concat(first: Seq<Seq<char>>, second: Seq<Seq<char>>)
    ensures
        decoded_lines(first + second) == decoded_lines(first) + decoded_lines(second),
    decreases second.len(),
{
    if second.len() == 0 {
        assert(first + second == first);
        assert(decoded_lines(first) + decoded_lines(second) == decoded_lines(first));
    } else {
        lemma_decoded_lines_concat(first, second.drop_last());
        assert((first + second).drop_last() == first + second.drop_last());
        assert((first + second).last() == second.last());
        let before = decoded_lines(first) + decoded_lines(second.drop_last());
        match decoded_line(second.last()) {
            Some(entry) => {
                assert(before.push(entry) == decoded_lines(first) + decoded_lines(
                    second.drop_last(),
                ).push(entry));
            },
            None => {},
        }
    }
}

/// A line without a separator stands for no entry: the text reads as if the
/// line were not there. `before` is empty or ends its last line.
pub proof fn lemma_line_without_separator(
    before: Seq<char>,
    line: Seq<char>,
    after: Seq<char>,
)
    requires
        before.len() == 0 || before.last() == '\n',
        !line.contains('\t'),
        !line.contains('\n'),
    ensures
        decoded(before + line + seq!['\n'] + after) == decoded(before + after),
{
    reveal_strlit("\t");
    let separator = DatabaseStringConstants::ENTRIES_SEPARATOR@;
    let ended = line + seq!['\n'];
    let shown = without_carriage_return(line);
    assert(before + line + seq!['\n'] + after == before + (ended + after));
    lemma_lines_of_concat(before, ended + after);
    lemma_lines_of_concat(ended, after);
    lemma_lines_of_concat(before, after);
    lemma_lines_of_one_line(line);
    assert(decoded_line(shown) is None) by {
        assert forall|at: int| !occurs_at(shown, separator, at) by {
            if occurs_at(shown, separator, at) {
                assert(shown.subrange(at, at + 1)[0] == '\t');
                assert(line[at] == '\t');
            }
        }
    }
    assert(decoded_lines(seq![shown]) == Seq::<(Seq<char>, Seq<char>)>::empty()) by {
        assert(seq![shown].drop_last().len() == 0);
        assert(decoded_lines(seq![shown].drop_last()).len() == 0);
        assert(seq![shown].last() == shown);
    }
    lemma_decoded_lines_concat(lines_of(before), lines_of(ended + after));
    lemma_decoded_lines_concat(seq![shown], lines_of(after));
    lemma_decoded_lines_concat(lines_of(before), lines_of(after));
    assert(Seq::<(Seq<char>, Seq<char>)>::empty() + decoded_lines(lines_of(after))
        == decoded_lines(lines_of(after)));
}

} // verus!

//! The store: a mapping from keys to values, held in memory.
//!
//! The entries are kept as a list without repeated keys. The store's view is
//! the mapping that the list stands for; `listing` is the list itself, in
//! the order in which the entries are written out.

use crate::codec::{decode, decoded, encode, encoded, lemma_round_trip, map_of, storable};
use crate::error_handler::{io_failure, ErrorHandler};
use crate::failures::{CustomReisIOFailure, IoError, IoErrorKind, IoErrorView};
use crate::text::same_text;
use vstd::prelude::*;
use vstd::set_lib::lemma_subset_equality;
use vstd::std_specs::cmp::PartialEqSpecImpl;
use vstd::string::*;

verus! {

/// No key comes twice in the list.
pub open spec fn distinct_keys(entries: Seq<(Seq<char>, Seq<char>)>) -> bool {
    forall|i: int, j: int| 0 <= i < j < entries.len() ==> entries[i].0 != entries[j].0
}

/// The list holds every pair of the mapping once and nothing else.
pub open spec fn lists(
    entries: Seq<(Seq<char>, Seq<char>)>,
    store: Map<Seq<char>, Seq<char>>,
) -> bool {
    distinct_keys(entries) && map_of(entries) == store
}

/// The key stands in the list.
pub open spec fn lists_key(entries: Seq<(Seq<char>, Seq<char>)>, key: Seq<char>) -> bool {
    exists|i: int| 0 <= i < entries.len() && (#[trigger] entries[i]).0 == key
}

/// The mapping of a list holds the keys of the list and no others.
pub proof fn lemma_map_of_keys(entries: Seq<(Seq<char>, Seq<char>)>)
    ensures
        map_of(entries).dom().finite(),
        forall|key: Seq<char>| #[trigger] map_of(entries).contains_key(key) <==> lists_key(entries, key),
    decreases entries.len(),
{
    if entries.len() > 0 {
        let front = entries.drop_last();
        lemma_map_of_keys(front);
        assert forall|key: Seq<char>| #[trigger]
            map_of(entries).contains_key(key) <==> lists_key(entries, key) by {
            if lists_key(entries, key) {
                let i = choose|i: int| 0 <= i < entries.len() && (#[trigger] entries[i]).0 == key;
                if i < front.len() {
                    assert(front[i].0 == key);
                    assert(lists_key(front, key));
                }
            }
            if map_of(entries).contains_key(key) {
                if key == entries.last().0 {
                    assert(entries[entries.len() - 1].0 == key);
                } else {
                    assert(lists_key(front, key));
                    let i = choose|i: int| 0 <= i < front.len() && (#[trigger] front[i]).0 == key;
                    assert(entries[i].0 == key);
                }
            }
        }
    }
}

/// The mapping of a list without repeated keys gives every key the value
/// that the list gives it, and has as many keys as the list has entries.
pub proof fn lemma_map_of_distinct(entries: Seq<(Seq<char>, Seq<char>)>)
    requires
        distinct_keys(entries),
    ensures
        map_of(entries).len() == entries.len(),
        forall|i: int|
            0 <= i < entries.len() ==> map_of(entries).contains_key((#[trigger] entries[i]).0)
                && map_of(entries)[entries[i].0] == entries[i].1,
    decreases entries.len(),
{
    if entries.len() > 0 {
        let front = entries.drop_last();
        assert(distinct_keys(front)) by {
            assert forall|i: int, j: int| 0 <= i < j < front.len() implies front[i].0
                != front[j].0 by {
                assert(entries[i].0 != entries[j].0);
            }
        }
        lemma_map_of_distinct(front);
        lemma_map_of_keys(front);
        assert(!map_of(front).contains_key(entries.last().0)) by {
            if lists_key(front, entries.last().0) {
                let i = choose|i: int|
                    0 <= i < front.len() && (#[trigger] front[i]).0 == entries.last().0;
                assert(entries[i].0 != entries[entries.len() - 1].0);
            }
        }
        assert forall|i: int| 0 <= i < entries.len() implies map_of(entries).contains_key(
            (#[trigger] entries[i]).0,
        ) && map_of(entries)[entries[i].0] == entries[i].1 by {
            if i < front.len() {
                assert(front[i] == entries[i]);
                assert(entries[i].0 != entries[entries.len() - 1].0);
            }
        }
    }
}

/// The store. It owns its entries; no key comes twice among them.
#[derive(Debug)]
pub struct Reisbase {
    entries: Vec<(String, String)>,
}

impl View for Reisbase {
    type V = Map<Seq<char>, Seq<char>>;

    closed spec fn view(&self) -> Map<Seq<char>, Seq<char>> {
        map_of(self.entries.deep_view())
    }
}

impl Reisbase {
    /// The entries in the order in which they are written out.
    pub closed spec fn listing(&self) -> Seq<(Seq<char>, Seq<char>)> {
        self.entries.deep_view()
    }

    /// What holds of every store: no key comes twice in its list.
    #[verifier::type_invariant]
    pub closed spec fn well_formed(&self) -> bool {
        distinct_keys(self.entries.deep_view())
    }

    /// The list of a store holds every pair of the store once and nothing
    /// else, and the store is as large as its list is long.
    pub proof fn lemma_listing(&self)
        requires
            self.well_formed(),
        ensures
            lists(self.listing(), self@),
            self@.dom().finite(),
            self@.len() == self.listing().len(),
    {
        lemma_map_of_keys(self.listing());
        lemma_map_of_distinct(self.listing());
    }

    /// The store that a read of the backing file gives: the entries that
    /// the text stands for, or the failure that stands for the fault.
    pub fn build(loaded: Result<String, IoError>) -> (built: Result<Reisbase, CustomReisIOFailure>)
        ensures
            match loaded {
                Ok(contents) => built matches Ok(database) && database@ == map_of(
                    decoded(contents@),
                ),
                Err(error) => built matches Err(failure) && failure@ == io_failure(error@),
            },
    {
        match loaded {
            Ok(contents) => db_file_to_entries(contents),
            Err(error) => Err(ErrorHandler::handle_io_error(error)),
        }
    }

    /// Where the key stands in the list.
    fn position(&self, key: &str) -> (found: Option<usize>)
        ensures
            match found {
                Some(at) => at < self.listing().len() && self.listing()[at as int].0 == key@,
                None => !lists_key(self.listing(), key@),
            },
    {
        let mut at: usize = 0;
        while at < self.entries.len()
            invariant
                at <= self.entries.len(),
                forall|i: int| 0 <= i < at ==> (#[trigger] self.listing()[i]).0 != key@,
            decreases self.entries.len() - at,
        {
            if same_text(self.entries[at].0.as_str(), key) {
                return Some(at);
            }
            at += 1;
        }
        None
    }

    /// A store whose entries can be read back is read back from its own
    /// text: what `serialize` writes, `build` reads as the same mapping.
    pub proof fn lemma_persisted(&self)
        requires
            storable(self.listing()),
        ensures
            map_of(decoded(encoded(self.listing()))) == self@,
    {
        lemma_round_trip(self.listing());
    }

    /// How many entries the store holds.
    pub fn count(&self) -> (count: usize)
        ensures
            count == self@.len(),
    {
        proof {
            use_type_invariant(self);
            self.lemma_listing();
        }
        self.entries.len()
    }

    /// Whether the store holds no entry.
    pub fn is_empty(&self) -> (empty: bool)
        ensures
            empty == (self@ == Map::<Seq<char>, Seq<char>>::empty()),
    {
        proof {
            use_type_invariant(self);
            lemma_map_of_distinct(self.listing());
            lemma_map_of_keys(self.listing());
            if self.listing().len() > 0 {
                assert(self@.contains_key(self.listing()[0].0));
            }
        }
        self.entries.len() == 0
    }

    /// Whether the store holds the key.
    pub fn contains_key(&self, key: &str) -> (found: bool)
        ensures
            found == self@.contains_key(key@),
    {
        proof {
            lemma_map_of_keys(self.listing());
        }
        self.position(key).is_some()
    }

    /// The value of the key, if the store holds the key. The store stays as
    /// it is.
    pub fn get(&mut self, key: &str) -> (value: Option<String>)
        ensures
            *final(self) == *old(self),
            value.deep_view() == if old(self)@.contains_key(key@) {
                Some(old(self)@[key@])
            } else {
                None
            },
    {
        proof {
            use_type_invariant(&*self);
            lemma_map_of_keys(self.listing());
            lemma_map_of_distinct(self.listing());
        }
        match self.position(key) {
            Some(at) => Some(self.entries[at].1.clone()),
            None => None,
        }
    }

    /// Gives the key the value, whether the store held the key or not.
    pub fn insert(&mut self, key: &str, value: &str)
        ensures
            final(self)@ == old(self)@.insert(key@, value@),
    {
        proof {
            use_type_invariant(&*self);
        }
        let found = self.position(key);
        let ghost before = self.listing();
        let mut entries: Vec<(String, String)> = Vec::new();
        core::mem::swap(&mut self.entries, &mut entries);
        assert(entries.deep_view() == before);
        match found {
            Some(at) => {
                entries.set(at, (String::from_str(key), String::from_str(value)));
                proof {
                    assert(entries.deep_view() == before.update(at as int, (key@, value@)));
                    lemma_map_of_update(before, at as int, value@);
                }
            },
            None => {
                entries.push((String::from_str(key), String::from_str(value)));
                proof {
                    assert(entries.deep_view() == before.push((key@, value@)));
                    assert(before.push((key@, value@)).drop_last() == before);
                    assert(distinct_keys(before.push((key@, value@)))) by {
                        assert forall|i: int, j: int|
                            0 <= i < j < before.len() + 1 implies before.push((key@, value@))[i].0
                            != before.push((key@, value@))[j].0 by {
                            if j == before.len() {
                                assert(before[i].0 != key@);
                            }
                        }
                    }
                }
            },
        }
        self.entries = entries;
    }

    /// Takes the key out and returns the value it had, if the store held
    /// the key.
    pub fn delete(&mut self, key: &str) -> (value: Option<String>)
        ensures
            final(self)@ == old(self)@.remove(key@),
            value.deep_view() == if old(self)@.contains_key(key@) {
                Some(old(self)@[key@])
            } else {
                None
            },
    {
        proof {
            use_type_invariant(&*self);
            lemma_map_of_keys(self.listing());
            lemma_map_of_distinct(self.listing());
        }
        match self.position(key) {
            Some(at) => {
                let ghost before = self.listing();
                let mut entries: Vec<(String, String)> = Vec::new();
                core::mem::swap(&mut self.entries, &mut entries);
                assert(entries.deep_view() == before);
                let (_, value) = entries.remove(at);
                proof {
                    assert(entries.deep_view() == before.remove(at as int));
                    lemma_map_of_remove(before, at as int);
                }
                self.entries = entries;
                Some(value)
            },
            None => {
                assert(self@.remove(key@) == self@);
                None
            },
        }
    }

    /// Takes every entry out.
    pub fn clear(&mut self)
        ensures
            final(self)@ == Map::<Seq<char>, Seq<char>>::empty(),
    {
        let entries: Vec<(String, String)> = Vec::new();
        assert(entries.deep_view() == Seq::<(Seq<char>, Seq<char>)>::empty());
        self.entries = entries;
    }

    /// The text that stands for the store: every entry once, as one line.
    /// This is what is written to the backing file.
    pub fn serialize(&self) -> (text: String)
        ensures
            text@ == encoded(self.listing()),
            lists(self.listing(), self@),
    {
        proof {
            use_type_invariant(self);
            self.lemma_listing();
        }
        encode(&self.entries)
    }

    /// The text that stands for the store, or `None` for the empty store.
    pub fn get_all(&self) -> (dump: Option<String>)
        ensures
            dump.deep_view() == if self@ == Map::<Seq<char>, Seq<char>>::empty() {
                None
            } else {
                Some(encoded(self.listing()))
            },
            lists(self.listing(), self@),
    {
        proof {
            use_type_invariant(self);
            self.lemma_listing();
            lemma_map_of_distinct(self.listing());
            lemma_encoded_empty(self.listing());
            if self.listing().len() > 0 {
                assert(self@.contains_key(self.listing()[0].0));
            }
        }
        string_to_option(self.serialize())
    }
}

/// Writing a new value at a place of the list writes it at that key of the
/// mapping.
proof fn lemma_map_of_update(entries: Seq<(Seq<char>, Seq<char>)>, at: int, value: Seq<char>)
    requires
        distinct_keys(entries),
        0 <= at < entries.len(),
    ensures
        distinct_keys(entries.update(at, (entries[at].0, value))),
        map_of(entries.update(at, (entries[at].0, value))) == map_of(entries).insert(
            entries[at].0,
            value,
        ),
{
    let key = entries[at].0;
    let after = entries.update(at, (key, value));
    assert(distinct_keys(after)) by {
        assert forall|i: int, j: int| 0 <= i < j < after.len() implies after[i].0
            != after[j].0 by {
            assert(entries[i].0 != entries[j].0);
        }
    }
    lemma_map_of_keys(entries);
    lemma_map_of_keys(after);
    lemma_map_of_distinct(entries);
    lemma_map_of_distinct(after);
    let expected = map_of(entries).insert(key, value);
    assert forall|k: Seq<char>| map_of(after).contains_key(k) <==> expected.contains_key(k) by {
        if lists_key(after, k) {
            let i = choose|i: int| 0 <= i < after.len() && (#[trigger] after[i]).0 == k;
            assert(entries[i].0 == k);
        }
        if lists_key(entries, k) {
            let i = choose|i: int| 0 <= i < entries.len() && (#[trigger] entries[i]).0 == k;
            assert(after[i].0 == k);
        }
        if k == key {
            assert(after[at].0 == k);
        }
    }
    assert forall|k: Seq<char>| map_of(after).contains_key(k) implies map_of(after)[k]
        == expected[k] by {
        let i = choose|i: int| 0 <= i < after.len() && (#[trigger] after[i]).0 == k;
        assert(map_of(after)[after[i].0] == after[i].1);
        assert(map_of(entries)[entries[i].0] == entries[i].1);
        if i != at {
            if i < at {
                assert(entries[i].0 != entries[at].0);
            } else {
                assert(entries[at].0 != entries[i].0);
            }
        }
    }
    assert(map_of(after) =~= expected);
}

/// Taking an entry out of the list takes its key out of the mapping.
proof fn lemma_map_of_remove(entries: Seq<(Seq<char>, Seq<char>)>, at: int)
    requires
        distinct_keys(entries),
        0 <= at < entries.len(),
    ensures
        distinct_keys(entries.remove(at)),
        map_of(entries.remove(at)) == map_of(entries).remove(entries[at].0),
{
    let key = entries[at].0;
    let after = entries.remove(at);
    assert(distinct_keys(after)) by {
        assert forall|i: int, j: int| 0 <= i < j < after.len() implies after[i].0
            != after[j].0 by {
            let p = if i < at { i } else { i + 1 };
            let q = if j < at { j } else { j + 1 };
            assert(entries[p].0 != entries[q].0);
        }
    }
    lemma_map_of_keys(entries);
    lemma_map_of_keys(after);
    lemma_map_of_distinct(entries);
    lemma_map_of_distinct(after);
    let expected = map_of(entries).remove(key);
    assert forall|k: Seq<char>| map_of(after).contains_key(k) <==> expected.contains_key(k) by {
        if lists_key(after, k) {
            let i = choose|i: int| 0 <= i < after.len() && (#[trigger] after[i]).0 == k;
            let p = if i < at { i } else { i + 1 };
            assert(entries[p].0 == k);
            if p < at {
                assert(entries[p].0 != entries[at].0);
            } else {
                assert(entries[at].0 != entries[p].0);
            }
        }
        if lists_key(entries, k) && k != key {
            let i = choose|i: int| 0 <= i < entries.len() && (#[trigger] entries[i]).0 == k;
            let p = if i < at { i } else { i - 1 };
            assert(after[p].0 == k);
        }
    }
    assert forall|k: Seq<char>| map_of(after).contains_key(k) implies map_of(after)[k]
        == expected[k] by {
        let i = choose|i: int| 0 <= i < after.len() && (#[trigger] after[i]).0 == k;
        let p = if i < at { i } else { i + 1 };
        assert(map_of(after)[after[i].0] == after[i].1);
        assert(map_of(entries)[entries[p].0] == entries[p].1);
    }
    assert(map_of(after) =~= expected);
}

/// Only the empty list is written as the empty text.
proof fn lemma_encoded_empty(entries: Seq<(Seq<char>, Seq<char>)>)
    ensures
        encoded(entries).len() == 0 <==> entries.len() == 0,
{
    if entries.len() > 0 {
        assert(encoded(entries).len() >= 1);
    }
}

/// `None` for the empty text, the text itself otherwise.
pub fn string_to_option(value: String) -> (text: Option<String>)
    ensures
        text == if value@.len() == 0 {
            None
        } else {
            Some(value)
        },
{
    if value.as_str().is_empty() {
        None
    } else {
        Some(value)
    }
}

impl PartialEq for Reisbase {
    /// Two stores are equal if they hold the same entries, in whatever
    /// order.
    fn eq(&self, other: &Reisbase) -> (same: bool) {
        proof {
            use_type_invariant(self);
            use_type_invariant(other);
            lemma_map_of_keys(self.listing());
            lemma_map_of_keys(other.listing());
            lemma_map_of_distinct(self.listing());
            lemma_map_of_distinct(other.listing());
        }
        if self.entries.len() != other.entries.len() {
            return false;
        }
        let mut at: usize = 0;
        while at < self.entries.len()
            invariant
                at <= self.entries.len(),
                self.entries.len() == other.entries.len(),
                distinct_keys(self.listing()),
                distinct_keys(other.listing()),
                forall|i: int|
                    0 <= i < at ==> other@.contains_key((#[trigger] self.listing()[i]).0)
                        && other@[self.listing()[i].0] == self.listing()[i].1,
            decreases self.entries.len() - at,
        {
            proof {
                lemma_map_of_keys(self.listing());
                lemma_map_of_keys(other.listing());
                lemma_map_of_distinct(self.listing());
                lemma_map_of_distinct(other.listing());
            }
            let ghost key = self.listing()[at as int].0;
            assert(self@.contains_key(key) && self@[key] == self.listing()[at as int].1);
            match other.position(self.entries[at].0.as_str()) {
                Some(found) => {
                    assert(other@[other.listing()[found as int].0] == other.listing()[found as int].1);
                    if !same_text(other.entries[found].1.as_str(), self.entries[at].1.as_str()) {
                        assert(self@[key] != other@[key]);
                        return false;
                    }
                },
                None => {
                    assert(!other@.contains_key(key));
                    return false;
                },
            }
            at += 1;
        }
        proof {
            lemma_map_of_keys(self.listing());
            lemma_map_of_keys(other.listing());
            lemma_map_of_distinct(self.listing());
            lemma_map_of_distinct(other.listing());
            assert(self@.dom().subset_of(other@.dom())) by {
                assert forall|key: Seq<char>| self@.dom().contains(key) implies other@.dom().contains(
                    key,
                ) by {
                    let i = choose|i: int|
                        0 <= i < self.listing().len() && (#[trigger] self.listing()[i]).0 == key;
                    assert(other@.contains_key(self.listing()[i].0));
                }
            }
            lemma_subset_equality(self@.dom(), other@.dom());
            assert forall|key: Seq<char>| self@.contains_key(key) implies self@[key] == other@[key] by {
                let i = choose|i: int|
                    0 <= i < self.listing().len() && (#[trigger] self.listing()[i]).0 == key;
                assert(other@[self.listing()[i].0] == self.listing()[i].1);
                assert(self@[self.listing()[i].0] == self.listing()[i].1);
            }
            assert(self@ =~= other@);
        }
        true
    }
}

impl PartialEqSpecImpl for Reisbase {
    open spec fn obeys_eq_spec() -> bool {
        true
    }

    open spec fn eq_spec(&self, other: &Reisbase) -> bool {
        self@ == other@
    }
}

impl Eq for Reisbase {

}

/// What to do when the backing file could not be read.
#[derive(Debug)]
pub enum DatabaseRecovery {
    /// The file is not there: create it empty and go on with no entries.
    Create,
    /// Give up with this fault.
    Fail(IoError),
}

/// The model of a `DatabaseRecovery`.
pub enum DatabaseRecoveryView {
    Create,
    Fail(IoErrorView),
}

impl View for DatabaseRecovery {
    type V = DatabaseRecoveryView;

    open spec fn view(&self) -> DatabaseRecoveryView {
        match self {
            DatabaseRecovery::Create => DatabaseRecoveryView::Create,
            DatabaseRecovery::Fail(error) => DatabaseRecoveryView::Fail(error@),
        }
    }
}

/// Decides what follows a failed read: a file that was not found is
/// created, any other fault ends the opening.
pub fn handle_database_init_failure(error: IoError) -> (recovery: DatabaseRecovery)
    ensures
        recovery@ == if error.kind == IoErrorKind::NotFound {
            DatabaseRecoveryView::Create
        } else {
            DatabaseRecoveryView::Fail(error@)
        },
{
    match error.kind {
        IoErrorKind::NotFound => DatabaseRecovery::Create,
        _ => DatabaseRecovery::Fail(error),
    }
}

/// The store that the text of a backing file stands for. Lines without a
/// separator are passed over; of two lines with one key the later counts.
pub fn db_file_to_entries(contents: String) -> (built: Result<Reisbase, CustomReisIOFailure>)
    ensures
        built matches Ok(database) && database@ == map_of(decoded(contents@)),
{
    let entries = decode(contents.as_str());
    let mut database = Reisbase { entries: Vec::new() };
    let mut at: usize = 0;
    assert(entries.deep_view().take(0) == Seq::<(Seq<char>, Seq<char>)>::empty());
    while at < entries.len()
        invariant
            at <= entries.len(),
            database@ == map_of(entries.deep_view().take(at as int)),
        decreases entries.len() - at,
    {
        proof {
            let next = entries.deep_view().take(at + 1);
            assert(next.drop_last() == entries.deep_view().take(at as int));
            assert(next.last() == (entries@[at as int].0@, entries@[at as int].1@));
        }
        database.insert(entries[at].0.as_str(), entries[at].1.as_str());
        at += 1;
    }
    proof {
        assert(entries.deep_view().take(at as int) == entries.deep_view());
    }
    Ok(database)
}

} // verus!

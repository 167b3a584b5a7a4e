//! The feature vocabulary, the dictionary entry and its mathematical model.

use vstd::prelude::*;
use std::collections::HashMap;
use crate::code::code_of;
use crate::records::{header_cells, read_header, read_records, record_cells};
use crate::schema::{
    columns_under, decode_row, find_columns, fits, header_view, row_entry, table_entries,
};

verus! {

/// Grammatical number.
#[derive(Clone, Copy, Debug, PartialEq, Eq, Hash, Structural)]
pub enum Amount {
    Singular,
    Plural,
}

/// Grammatical gender.
#[derive(Clone, Copy, Debug, PartialEq, Eq, Hash, Structural)]
pub enum Gender {
    Masculine,
    Neutral,
    Feminine,
}

/// Grammatical tense.
#[derive(Clone, Copy, Debug, PartialEq, Eq, Hash, Structural)]
pub enum Tense {
    Present,
    Past,
    Future,
}

/// Grammatical mood.
#[derive(Clone, Copy, Debug, PartialEq, Eq, Hash, Structural)]
pub enum Mood {
    Indicative,
    Imperative,
}

/// Why a dictionary could not be loaded.
#[derive(Clone, Copy, Debug, PartialEq, Eq, Structural)]
pub enum DictionaryError {
    /// The backing file is missing or unreadable. The library reads no files:
    /// this is for the caller that does.
    FailedToOpen,
    /// A row does not decode into an entry.
    FailedToParse,
}

/// A word form with its grammatical features.
///
/// An absent optional feature means that the feature does not apply to the
/// form, not that it is unknown.
#[derive(Clone, Debug)]
pub struct Entry {
    pub word: String,
    pub base: String,
    pub person: Option<u8>,
    pub amount: Option<Amount>,
    pub imperfective: bool,
    pub concrete: bool,
    pub gender: Option<Gender>,
    pub mood: Option<Mood>,
    pub meaning: String,
    pub tense: Option<Tense>,
}

/// The identity of an entry: its lemma and its feature vector, without the
/// surface word and the gloss.
pub struct Features {
    pub base: Seq<char>,
    pub person: Option<u8>,
    pub amount: Option<Amount>,
    pub imperfective: bool,
    pub concrete: bool,
    pub gender: Option<Gender>,
    pub mood: Option<Mood>,
    pub tense: Option<Tense>,
}

/// The mathematical model of an [`Entry`]: its strings as sequences of
/// characters, its features as they are.
pub struct EntryView {
    pub word: Seq<char>,
    pub base: Seq<char>,
    pub person: Option<u8>,
    pub amount: Option<Amount>,
    pub imperfective: bool,
    pub concrete: bool,
    pub gender: Option<Gender>,
    pub mood: Option<Mood>,
    pub meaning: Seq<char>,
    pub tense: Option<Tense>,
}

impl EntryView {
    /// Whether the person, where the entry has one, is the first, second or
    /// third.
    pub open spec fn well_formed(self) -> bool {
        self.person matches Some(person) ==> 1 <= person <= 3
    }

    /// The part of the entry that identifies it within a dictionary.
    pub open spec fn features(self) -> Features {
        Features {
            base: self.base,
            person: self.person,
            amount: self.amount,
            imperfective: self.imperfective,
            concrete: self.concrete,
            gender: self.gender,
            mood: self.mood,
            tense: self.tense,
        }
    }
}

impl View for Entry {
    type V = EntryView;

    open spec fn view(&self) -> EntryView {
        EntryView {
            word: self.word@,
            base: self.base@,
            person: self.person,
            amount: self.amount,
            imperfective: self.imperfective,
            concrete: self.concrete,
            gender: self.gender,
            mood: self.mood,
            meaning: self.meaning@,
            tense: self.tense,
        }
    }
}

/// Two entries are equal if they have the same lemma and the same features.
/// The surface word and the gloss do not count.
impl PartialEq for Entry {
    fn eq(&self, other: &Self) -> (equal: bool) {
        self.base == other.base && self.person == other.person && self.amount == other.amount
            && self.imperfective == other.imperfective && self.concrete == other.concrete
            && self.gender == other.gender && self.mood == other.mood && self.tense == other.tense
    }
}

impl vstd::std_specs::cmp::PartialEqSpecImpl for Entry {
    open spec fn obeys_eq_spec() -> bool {
        true
    }

    open spec fn eq_spec(&self, other: &Self) -> bool {
        self@.features() == other@.features()
    }
}

impl Eq for Entry {

}

impl Entry {
    /// A copy of the entry, field by field.
    pub fn duplicate(&self) -> (copy: Entry)
        ensures
            copy@ == self@,
    {
        Entry {
            word: self.word.clone(),
            base: self.base.clone(),
            person: self.person,
            amount: self.amount,
            imperfective: self.imperfective,
            concrete: self.concrete,
            gender: self.gender,
            mood: self.mood,
            meaning: self.meaning.clone(),
            tense: self.tense,
        }
    }
}

/// The models of a list of entries, in their order.
pub open spec fn views(entries: Seq<Entry>) -> Seq<EntryView> {
    entries.map_values(|entry: Entry| entry@)
}

/// The first entry of `entries` with the features `wanted`, if there is one.
pub open spec fn lookup(entries: Seq<EntryView>, wanted: Features) -> Option<EntryView>
    decreases entries.len(),
{
    if entries.len() == 0 {
        None
    } else if entries[0].features() == wanted {
        Some(entries[0])
    } else {
        lookup(entries.drop_first(), wanted)
    }
}

/// Whether every entry of `entries` carries a mood and no two of them have
/// the same lemma and features.
pub open spec fn is_dictionary(entries: Seq<EntryView>) -> bool {
    &&& forall|i: int| 0 <= i < entries.len() ==> (#[trigger] entries[i]).mood is Some
    &&& forall|i: int, j: int|
        0 <= i < j < entries.len() ==> (#[trigger] entries[i]).features() != (
        #[trigger] entries[j]).features()
}

/// What is kept of `entries` for play: the entries that carry a mood, in
/// their order, and of those that share lemma and features only the first.
pub open spec fn admitted(entries: Seq<EntryView>) -> Seq<EntryView>
    decreases entries.len(),
{
    if entries.len() == 0 {
        Seq::empty()
    } else {
        let before = admitted(entries.drop_last());
        let entry = entries.last();
        if entry.mood is Some && lookup(before, entry.features()) is None {
            before.push(entry)
        } else {
            before
        }
    }
}

/// `lookup` finds nothing exactly if no entry has the wanted features, and
/// what it finds is an entry with these features before which there is no
/// other.
pub proof fn lookup_finds_the_first(entries: Seq<EntryView>, wanted: Features)
    ensures
        lookup(entries, wanted) is None <==> forall|i: int|
            0 <= i < entries.len() ==> (#[trigger] entries[i]).features() != wanted,
        lookup(entries, wanted) matches Some(found) ==> exists|i: int|
            0 <= i < entries.len() && #[trigger] entries[i] == found && found.features() == wanted
                && forall|j: int| 0 <= j < i ==> (#[trigger] entries[j]).features() != wanted,
    decreases entries.len(),
{
    if entries.len() > 0 {
        let rest = entries.drop_first();
        lookup_finds_the_first(rest, wanted);
        if entries[0].features() == wanted {
            assert(entries[0] == lookup(entries, wanted)->Some_0);
        } else {
            assert forall|i: int| 0 <= i < rest.len() implies rest[i] == entries[i + 1] by {}
            if lookup(rest, wanted) is None {
                assert forall|i: int| 0 <= i < entries.len() implies (
                #[trigger] entries[i]).features() != wanted by {
                    if i > 0 {
                        assert(rest[i - 1] == entries[i]);
                    }
                }
            } else {
                let found = lookup(rest, wanted)->Some_0;
                let i = choose|i: int|
                    0 <= i < rest.len() && #[trigger] rest[i] == found && found.features() == wanted
                        && forall|j: int| 0 <= j < i ==> (#[trigger] rest[j]).features() != wanted;
                assert(entries[i + 1] == found);
                assert forall|j: int| 0 <= j < i + 1 implies (#[trigger] entries[j]).features()
                    != wanted by {
                    if j > 0 {
                        assert(rest[j - 1] == entries[j]);
                    }
                }
            }
        }
    }
}

/// What `admitted` keeps is a dictionary, holds only entries of the input,
/// and has an entry for the features of every input entry that carries a
/// mood.
pub proof fn admitted_is_a_dictionary(entries: Seq<EntryView>)
    ensures
        is_dictionary(admitted(entries)),
        forall|i: int|
            0 <= i < admitted(entries).len() ==> entries.contains(#[trigger] admitted(entries)[i]),
        forall|i: int|
            0 <= i < entries.len() && (#[trigger] entries[i]).mood is Some ==> lookup(
                admitted(entries),
                entries[i].features(),
            ) is Some,
    decreases entries.len(),
{
    if entries.len() > 0 {
        let shorter = entries.drop_last();
        let before = admitted(shorter);
        let entry = entries.last();
        let kept = admitted(entries);
        admitted_is_a_dictionary(shorter);
        lookup_finds_the_first(before, entry.features());
        assert forall|i: int| 0 <= i < kept.len() implies entries.contains(#[trigger] kept[i]) by {
            if i < before.len() {
                assert(shorter.contains(before[i]));
                let k = choose|k: int| 0 <= k < shorter.len() && shorter[k] == before[i];
                assert(entries[k] == before[i]);
            } else {
                assert(entries[entries.len() - 1] == kept[i]);
            }
        }
        assert forall|i: int| 0 <= i < entries.len() && (#[trigger] entries[i]).mood is Some implies lookup(
            kept,
            entries[i].features(),
        ) is Some by {
            lookup_finds_the_first(kept, entries[i].features());
            if i < shorter.len() {
                assert(shorter[i] == entries[i]);
                lookup_finds_the_first(before, entries[i].features());
                let found = lookup(before, entries[i].features())->Some_0;
                let k = choose|k: int|
                    0 <= k < before.len() && #[trigger] before[k] == found && found.features()
                        == entries[i].features();
                assert(kept[k] == before[k]);
            } else if lookup(before, entry.features()) is None {
                assert(kept[kept.len() - 1] == entry);
            } else {
                let found = lookup(before, entry.features())->Some_0;
                let k = choose|k: int|
                    0 <= k < before.len() && #[trigger] before[k] == found && found.features()
                        == entry.features();
                assert(kept[k] == before[k]);
            }
        }
    }
}

/// In a dictionary the entry with given features is the one that `lookup`
/// finds: there is no other.
pub proof fn lookup_finds_the_only(entries: Seq<EntryView>, place: int)
    requires
        is_dictionary(entries),
        0 <= place < entries.len(),
    ensures
        lookup(entries, entries[place].features()) == Some(entries[place]),
{
    lookup_finds_the_first(entries, entries[place].features());
}

/// Whether `index` files the entries by their codes: the place of each entry
/// stands under the code of the entry, and nothing stands in the index that
/// is not the place of an entry.
spec fn files(index: Map<u64, Vec<usize>>, entries: Seq<EntryView>) -> bool {
    &&& forall|i: int|
        0 <= i < entries.len() ==> index.contains_key(code_of((#[trigger] entries[i]).features()))
            && index[code_of(entries[i].features())]@.contains(i as usize)
    &&& forall|code: u64, j: int|
        index.contains_key(code) && 0 <= j < index[code]@.len() ==> (#[trigger] index[code]@[j])
            < entries.len()
}

/// The entries that a session plays with: each carries a mood, and no two
/// have the same lemma and features.
pub struct Dictionary {
    entries: Vec<Entry>,
    /// The places of the entries, filed by their codes.
    index: HashMap<u64, Vec<usize>>,
}

impl View for Dictionary {
    type V = Seq<EntryView>;

    closed spec fn view(&self) -> Seq<EntryView> {
        views(self.entries@)
    }
}

impl Dictionary {
    #[verifier::type_invariant]
    spec fn well_formed(&self) -> bool {
        is_dictionary(self@) && files(self.index@, self@)
    }

    /// Builds the dictionary of a session from the entries that were loaded.
    ///
    /// Entries without a mood are left out. Where several entries have the
    /// same lemma and features, the first one stays.
    pub fn from_entries(entries: Vec<Entry>) -> (dictionary: Dictionary)
        ensures
            dictionary@ == admitted(views(entries@)),
            is_dictionary(dictionary@),
    {
        broadcast use vstd::std_specs::hash::group_hash_axioms;

        let ghost all = views(entries@);
        let mut kept: Vec<Entry> = Vec::new();
        let mut index: HashMap<u64, Vec<usize>> = HashMap::new();
        let mut next: usize = 0;
        proof {
            assert(all.take(0) =~= Seq::<EntryView>::empty());
        }
        while next < entries.len()
            invariant
                next <= entries.len(),
                all == views(entries@),
                views(kept@) == admitted(all.take(next as int)),
                kept.len() <= next,
                files(index@, views(kept@)),
            decreases entries.len() - next,
        {
            let entry = &entries[next];
            let ghost before = views(kept@);
            proof {
                assert(all.take(next as int + 1).drop_last() =~= all.take(next as int));
                assert(all.take(next as int + 1).last() == entry@);
                lookup_finds_the_first(before, entry@.features());
            }
            let known = place_of(&kept, &index, entry);
            proof {
                if known is Some {
                    assert(before[known->Some_0 as int] == kept[known->Some_0 as int]@);
                }
            }
            if entry.mood.is_some() && known.is_none() {
                let code = entry.code();
                let place = kept.len();
                let mut places = match index.remove(&code) {
                    Some(places) => places,
                    None => Vec::new(),
                };
                let ghost old_places = places@;
                let ghost old_index = index@;
                places.push(place);
                index.insert(code, places);
                kept.push(entry.duplicate());
                proof {
                    let after = views(kept@);
                    assert(after =~= before.push(entry@));
                    assert forall|i: int| 0 <= i < after.len() implies index@.contains_key(
                        code_of((#[trigger] after[i]).features()),
                    ) && index@[code_of(after[i].features())]@.contains(i as usize) by {
                        if i < before.len() {
                            assert(after[i] == before[i]);
                            if code_of(before[i].features()) == code {
                                let k = choose|k: int|
                                    0 <= k < old_places.len() && old_places[k] == i as usize;
                                assert(places@[k] == i as usize);
                            }
                        } else {
                            assert(places@[places@.len() - 1] == place);
                        }
                    }
                    assert forall|other: u64, j: int|
                        index@.contains_key(other) && 0 <= j < index@[other]@.len() implies (
                    #[trigger] index@[other]@[j]) < after.len() by {
                        if other == code {
                            if j < old_places.len() {
                                assert(places@[j] == old_places[j]);
                            }
                        }
                    }
                }
            }
            next += 1;
        }
        proof {
            assert(all.take(next as int) =~= all);
            admitted_is_a_dictionary(all);
        }
        Dictionary { entries: kept, index }
    }

    /// The number of entries.
    pub fn len(&self) -> (count: usize)
        ensures
            count == self@.len(),
    {
        self.entries.len()
    }

    /// The entries, in the order in which they were admitted.
    pub fn entries(&self) -> (entries: &[Entry])
        ensures
            views(entries@) == self@,
            is_dictionary(self@),
    {
        proof {
            use_type_invariant(self);
        }
        self.entries.as_slice()
    }

    /// The entry that has the lemma and the features of `wanted`, whatever its
    /// word and gloss.
    pub fn find(&self, wanted: &Entry) -> (found: Option<&Entry>)
        ensures
            found is Some <==> lookup(self@, wanted@.features()) is Some,
            found matches Some(entry) ==> lookup(self@, wanted@.features()) == Some(entry@),
    {
        proof {
            use_type_invariant(self);
            lookup_finds_the_first(self@, wanted@.features());
        }
        match place_of(&self.entries, &self.index, wanted) {
            Some(place) => {
                proof {
                    lookup_finds_the_only(self@, place as int);
                }
                Some(&self.entries[place])
            },
            None => None,
        }
    }
}

/// The place of an entry that equals `wanted`, looked up under its code.
fn place_of(entries: &Vec<Entry>, index: &HashMap<u64, Vec<usize>>, wanted: &Entry) -> (place:
    Option<usize>)
    requires
        files(index@, views(entries@)),
    ensures
        place matches Some(at) ==> at < entries.len() && entries[at as int]@.features()
            == wanted@.features(),
        place is None ==> forall|i: int|
            0 <= i < entries.len() ==> (#[trigger] views(entries@)[i]).features()
                != wanted@.features(),
{
    broadcast use vstd::std_specs::hash::group_hash_axioms;

    let ghost all = views(entries@);
    let code = wanted.code();
    match index.get(&code) {
        None => None,
        Some(places) => {
            let mut next: usize = 0;
            while next < places.len()
                invariant
                    next <= places.len(),
                    all == views(entries@),
                    files(index@, all),
                    index@.contains_key(code),
                    index@[code] == places,
                    forall|k: int|
                        0 <= k < next ==> all[(#[trigger] places@[k]) as int].features()
                            != wanted@.features(),
                decreases places.len() - next,
            {
                let at = places[next];
                assert(index@[code]@[next as int] < all.len());
                assert(all[at as int] == entries[at as int]@);
                if entries[at] == *wanted {
                    return Some(at);
                }
                next += 1;
            }
            proof {
                assert forall|i: int| 0 <= i < entries.len() implies (#[trigger] all[i]).features()
                    != wanted@.features() by {
                    if all[i].features() == wanted@.features() {
                        let k = choose|k: int| 0 <= k < places@.len() && places@[k] == i as usize;
                        assert(all[places@[k] as int].features() != wanted@.features());
                    }
                }
            }
            None
        },
    }
}

/// The entries that the table `data` stands for, where each of its records
/// can be read and stands for an entry.
///
/// The table is written as comma-separated values. Its first record is the
/// header, which names the columns; where the header is not UTF-8, the
/// columns are taken in the order of the fields.
pub open spec fn parsed(data: Seq<u8>) -> Option<Seq<EntryView>> {
    match record_cells(data) {
        None => None,
        Some(rows) => table_entries(header_cells(data), rows),
    }
}

/// Reads the rows of a table as entries, in their order.
///
/// `header` names the columns; without it the columns are taken in the order
/// of the fields. The first row that does not stand for an entry ends the
/// reading with `FailedToParse`.
pub fn read_dictionary(header: Option<&Vec<String>>, rows: &Vec<Vec<String>>) -> (result: Result<
    Vec<Entry>,
    DictionaryError,
>)
    ensures
        result is Ok <==> table_entries(header_view(header), rows.deep_view()) is Some,
        result matches Ok(entries) ==> entries.len() == rows.len() && table_entries(
            header_view(header),
            rows.deep_view(),
        ) == Some(views(entries@)),
        result matches Ok(entries) ==> forall|i: int|
            0 <= i < entries.len() ==> (#[trigger] entries[i])@.well_formed(),
        result matches Err(error) ==> error == DictionaryError::FailedToParse,
{
    let columns = find_columns(header);
    let ghost names = header_view(header);
    let ghost table = rows.deep_view();
    let mut entries: Vec<Entry> = Vec::new();
    let mut index: usize = 0;
    while index < rows.len()
        invariant
            index <= rows.len(),
            names == header_view(header),
            table == rows.deep_view(),
            columns == columns_under(names),
            entries@.len() == index,
            forall|k: int|
                0 <= k < index ==> row_entry(names, #[trigger] table[k]) == Some(entries@[k]@),
            forall|k: int| 0 <= k < index ==> (#[trigger] entries@[k])@.well_formed(),
        decreases rows.len() - index,
    {
        let row = &rows[index];
        assert(table[index as int] == row.deep_view());
        let fitting = match header {
            Some(given) => row.len() == given.len(),
            None => row.len() >= 10,
        };
        assert(fitting == fits(names, row.deep_view()));
        let decoded = match columns {
            Some(found) if fitting => decode_row(&found, row),
            _ => None,
        };
        match decoded {
            Some(entry) => {
                entries.push(entry);
            },
            None => {
                assert(row_entry(names, table[index as int]) is None);
                return Err(DictionaryError::FailedToParse);
            },
        }
        index += 1;
    }
    proof {
        assert(views(entries@) =~= Seq::new(
            table.len(),
            |i: int| row_entry(names, table[i])->Some_0,
        ));
    }
    Ok(entries)
}

/// Reads a dictionary from the bytes of its table.
///
/// The bytes are split into records and cells by the csv crate; each record
/// after the header is then read as an entry. Any record that cannot be
/// read, or that stands for no entry, fails the whole table with
/// `FailedToParse`: there is no partial dictionary.
pub fn parse(data: &[u8]) -> (result: Result<Vec<Entry>, DictionaryError>)
    ensures
        result is Ok <==> parsed(data@) is Some,
        result matches Ok(entries) ==> parsed(data@) == Some(views(entries@)),
        result matches Ok(entries) ==> forall|i: int|
            0 <= i < entries.len() ==> (#[trigger] entries[i])@.well_formed(),
        result matches Err(error) ==> error == DictionaryError::FailedToParse,
{
    let header = match read_header(data) {
        Ok(names) => Some(names),
        Err(_) => None,
    };
    match read_records(data) {
        Ok(rows) => read_dictionary(header.as_ref(), &rows),
        Err(_) => Err(DictionaryError::FailedToParse),
    }
}

} // verus!

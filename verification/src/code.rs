//! The code of an entry: a number that depends on the lemma and the features
//! of the entry and on nothing else, so that equal entries have equal codes.
//! A dictionary files its entries by their codes.

use vstd::prelude::*;
use crate::dictionary::{Amount, Entry, Features, Gender, Mood, Tense};

verus! {

/// The code of a text: its characters, each weighing 31 times the one after
/// it, as far as 64 bits hold them.
pub open spec fn text_code(text: Seq<char>) -> u64
    decreases text.len(),
{
    if text.len() == 0 {
        0
    } else {
        ((text_code(text.drop_last()) * 31 + text.last() as u32) % 0x1_0000_0000_0000_0000) as u64
    }
}

/// The number of a person among the 257 that a field can hold, none
/// included.
pub open spec fn person_number(person: Option<u8>) -> int {
    match person {
        None => 0,
        Some(number) => number + 1,
    }
}

/// The number of a number among the three that a field can hold.
pub open spec fn amount_number(amount: Option<Amount>) -> int {
    match amount {
        None => 0,
        Some(Amount::Singular) => 1,
        Some(Amount::Plural) => 2,
    }
}

/// The number of a gender among the four that a field can hold.
pub open spec fn gender_number(gender: Option<Gender>) -> int {
    match gender {
        None => 0,
        Some(Gender::Masculine) => 1,
        Some(Gender::Neutral) => 2,
        Some(Gender::Feminine) => 3,
    }
}

/// The number of a mood among the three that a field can hold.
pub open spec fn mood_number(mood: Option<Mood>) -> int {
    match mood {
        None => 0,
        Some(Mood::Indicative) => 1,
        Some(Mood::Imperative) => 2,
    }
}

/// The number of a tense among the four that a field can hold.
pub open spec fn tense_number(tense: Option<Tense>) -> int {
    match tense {
        None => 0,
        Some(Tense::Present) => 1,
        Some(Tense::Past) => 2,
        Some(Tense::Future) => 3,
    }
}

/// The number of a flag.
pub open spec fn flag_number(flag: bool) -> int {
    if flag {
        1
    } else {
        0
    }
}

/// The number of a feature vector among the 148032 that there are: each
/// vector has its own.
pub open spec fn features_number(features: Features) -> int {
    (((((person_number(features.person) * 3 + amount_number(features.amount)) * 2 + flag_number(
        features.imperfective,
    )) * 2 + flag_number(features.concrete)) * 4 + gender_number(features.gender)) * 3
        + mood_number(features.mood)) * 4 + tense_number(features.tense)
}

/// The code of a lemma with its features.
pub open spec fn code_of(features: Features) -> u64 {
    ((text_code(features.base) * 148032 + features_number(features)) % 0x1_0000_0000_0000_0000) as u64
}

/// The code of a text.
fn code_text(text: &str) -> (code: u64)
    ensures
        code == text_code(text@),
{
    let mut code: u64 = 0;
    let ghost mut read: Seq<char> = Seq::empty();
    for c in it: text.chars()
        invariant
            it.seq() == text@,
            read == it.seq().take(it.index() as int),
            code == text_code(read),
    {
        proof {
            assert(read.push(c).drop_last() =~= read);
            assert(read.push(c) =~= it.seq().take(it.index() + 1));
            read = read.push(c);
        }
        code = ((code as u128 * 31 + c as u32 as u128) % 0x1_0000_0000_0000_0000u128) as u64;
    }
    assert(read =~= text@);
    code
}

/// The number of a person.
fn number_person(person: Option<u8>) -> (number: u32)
    ensures
        number == person_number(person),
        number <= 256,
{
    match person {
        None => 0,
        Some(number) => number as u32 + 1,
    }
}

/// The number of a number.
fn number_amount(amount: Option<Amount>) -> (number: u32)
    ensures
        number == amount_number(amount),
        number <= 2,
{
    match amount {
        None => 0,
        Some(Amount::Singular) => 1,
        Some(Amount::Plural) => 2,
    }
}

/// The number of a flag.
fn number_flag(flag: bool) -> (number: u32)
    ensures
        number == flag_number(flag),
        number <= 1,
{
    if flag {
        1
    } else {
        0
    }
}

/// The number of a gender.
fn number_gender(gender: Option<Gender>) -> (number: u32)
    ensures
        number == gender_number(gender),
        number <= 3,
{
    match gender {
        None => 0,
        Some(Gender::Masculine) => 1,
        Some(Gender::Neutral) => 2,
        Some(Gender::Feminine) => 3,
    }
}

/// The number of a mood.
fn number_mood(mood: Option<Mood>) -> (number: u32)
    ensures
        number == mood_number(mood),
        number <= 2,
{
    match mood {
        None => 0,
        Some(Mood::Indicative) => 1,
        Some(Mood::Imperative) => 2,
    }
}

/// The number of a tense.
fn number_tense(tense: Option<Tense>) -> (number: u32)
    ensures
        number == tense_number(tense),
        number <= 3,
{
    match tense {
        None => 0,
        Some(Tense::Present) => 1,
        Some(Tense::Past) => 2,
        Some(Tense::Future) => 3,
    }
}

/// The number of the feature vector of an entry.
fn number_features(entry: &Entry) -> (number: u32)
    ensures
        number == features_number(entry@.features()),
        number < 148032,
{
    let person = number_person(entry.person);
    let amount = number_amount(entry.amount);
    let imperfective = number_flag(entry.imperfective);
    let concrete = number_flag(entry.concrete);
    let gender = number_gender(entry.gender);
    let mood = number_mood(entry.mood);
    let tense = number_tense(entry.tense);
    (((((person * 3 + amount) * 2 + imperfective) * 2 + concrete) * 4 + gender) * 3 + mood) * 4
        + tense
}

impl Entry {
    /// The code of the entry. Entries that are equal, which is to say that
    /// they have the same lemma and the same features, have the same code.
    pub fn code(&self) -> (code: u64)
        ensures
            code == code_of(self@.features()),
    {
        let number = number_features(self);
        let text = code_text(self.base.as_str());
        ((text as u128 * 148032 + number as u128) % 0x1_0000_0000_0000_0000u128) as u64
    }
}

/// Entries with the same lemma and features have the same code, whatever
/// their words and glosses.
pub proof fn equal_entries_have_equal_codes(left: Entry, right: Entry)
    requires
        left@.features() == right@.features(),
    ensures
        code_of(left@.features()) == code_of(right@.features()),
{
}

} // verus!

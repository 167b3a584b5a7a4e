//! How entries and mutations are put into words for the player.

use vstd::prelude::*;
use vstd::string::StringExecFns;
use crate::dictionary::{Amount, Entry, EntryView, Gender, Mood, Tense};
use crate::mutation::Mutation;
use crate::text::{lowercased, to_lowercase, trim, trimmed};

verus! {

/// The words for a person. Only the first, second and third person have any.
pub open spec fn person_text(person: Option<u8>) -> Seq<char> {
    match person {
        Some(1) => "1st person "@,
        Some(2) => "2nd person "@,
        Some(3) => "3rd person "@,
        _ => ""@,
    }
}

/// The word for a number.
pub open spec fn amount_text(amount: Option<Amount>) -> Seq<char> {
    match amount {
        Some(Amount::Singular) => "Singular "@,
        Some(Amount::Plural) => "Plural "@,
        None => ""@,
    }
}

/// The words for the two aspect flags.
pub open spec fn aspect_text(imperfective: bool, concrete: bool) -> Seq<char> {
    (if imperfective {
        "imperfective "@
    } else {
        "perfective "@
    }) + (if concrete {
        "concrete "@
    } else {
        "abstract "@
    })
}

/// The word for a gender.
pub open spec fn gender_text(gender: Option<Gender>) -> Seq<char> {
    match gender {
        Some(Gender::Masculine) => "Masculine "@,
        Some(Gender::Neutral) => "Neutral "@,
        Some(Gender::Feminine) => "Feminine "@,
        None => ""@,
    }
}

/// The word for a mood.
pub open spec fn mood_text(mood: Option<Mood>) -> Seq<char> {
    match mood {
        Some(Mood::Indicative) => "Indicative "@,
        Some(Mood::Imperative) => "Imperative "@,
        None => ""@,
    }
}

/// The word for a tense.
pub open spec fn tense_text(tense: Option<Tense>) -> Seq<char> {
    match tense {
        Some(Tense::Present) => "Present "@,
        Some(Tense::Past) => "Past "@,
        Some(Tense::Future) => "Future "@,
        None => ""@,
    }
}

/// The features of an entry in words, each followed by a blank, and after
/// them the gloss. A feature that the entry lacks has no word.
pub open spec fn features_text(e: EntryView) -> Seq<char> {
    person_text(e.person) + amount_text(e.amount) + aspect_text(e.imperfective, e.concrete)
        + gender_text(e.gender) + mood_text(e.mood) + tense_text(e.tense) + "-> "@ + e.meaning
        + " "@
}

/// The form of an entry in words: its lemma and its features, but not its
/// word.
pub open spec fn form_text(e: EntryView) -> Seq<char> {
    e.base + ": "@ + features_text(e)
}

/// An entry in words: its word, then its lemma and its features.
pub open spec fn word_text(e: EntryView) -> Seq<char> {
    e.word + " based off "@ + e.base + ": "@ + features_text(e)
}

/// What a mutation asks the player to do.
pub open spec fn mutation_text(mutation: Mutation) -> Seq<char> {
    match mutation {
        Mutation::ChangeGender => "change the gender"@,
        Mutation::ChangePerson => "change the person"@,
        Mutation::ChangeAmount => "change the number of people"@,
        Mutation::ChangeImperfective => "change the aspect (perfective/imperfective)"@,
        Mutation::ChangeConcrete => "change the aspect (concrete/abstract)"@,
        Mutation::ChangeTense => "change the tense"@,
        Mutation::ChangeMood => "change the mood"@,
    }
}

/// The words for a person.
fn person_words(person: Option<u8>) -> (words: &'static str)
    ensures
        words@ == person_text(person),
{
    match person {
        Some(1) => "1st person ",
        Some(2) => "2nd person ",
        Some(3) => "3rd person ",
        _ => "",
    }
}

/// The word for a number.
fn amount_words(amount: Option<Amount>) -> (words: &'static str)
    ensures
        words@ == amount_text(amount),
{
    match amount {
        Some(Amount::Singular) => "Singular ",
        Some(Amount::Plural) => "Plural ",
        None => "",
    }
}

/// The words for the two aspect flags.
fn aspect_words(imperfective: bool, concrete: bool) -> (words: String)
    ensures
        words@ == aspect_text(imperfective, concrete),
{
    let mut words = String::from_str(
        if imperfective {
            "imperfective "
        } else {
            "perfective "
        },
    );
    words.append(
        if concrete {
            "concrete "
        } else {
            "abstract "
        },
    );
    words
}

/// The word for a gender.
fn gender_words(gender: Option<Gender>) -> (words: &'static str)
    ensures
        words@ == gender_text(gender),
{
    match gender {
        Some(Gender::Masculine) => "Masculine ",
        Some(Gender::Neutral) => "Neutral ",
        Some(Gender::Feminine) => "Feminine ",
        None => "",
    }
}

/// The word for a mood.
fn mood_words(mood: Option<Mood>) -> (words: &'static str)
    ensures
        words@ == mood_text(mood),
{
    match mood {
        Some(Mood::Indicative) => "Indicative ",
        Some(Mood::Imperative) => "Imperative ",
        None => "",
    }
}

/// The word for a tense.
fn tense_words(tense: Option<Tense>) -> (words: &'static str)
    ensures
        words@ == tense_text(tense),
{
    match tense {
        Some(Tense::Present) => "Present ",
        Some(Tense::Past) => "Past ",
        Some(Tense::Future) => "Future ",
        None => "",
    }
}

/// The features of `entry` in words, and its gloss.
fn features_in_words(entry: &Entry) -> (text: String)
    ensures
        text@ == features_text(entry@),
{
    let mut text = String::from_str(person_words(entry.person));
    text.append(amount_words(entry.amount));
    text.append(aspect_words(entry.imperfective, entry.concrete).as_str());
    text.append(gender_words(entry.gender));
    text.append(mood_words(entry.mood));
    text.append(tense_words(entry.tense));
    text.append("-> ");
    text.append(entry.meaning.as_str());
    text.append(" ");
    text
}

impl Entry {
    /// The form of the entry in words, as it is put together: its lemma and
    /// its features, but not its word.
    pub fn form_in_words(&self) -> (text: String)
        ensures
            text@ == form_text(self@),
    {
        let mut text = self.base.clone();
        text.append(": ");
        text.append(features_in_words(self).as_str());
        text
    }

    /// The entry in words, as it is put together: its word, then its lemma
    /// and its features.
    pub fn word_in_words(&self) -> (text: String)
        ensures
            text@ == word_text(self@),
    {
        let mut text = self.word.clone();
        text.append(" based off ");
        text.append(self.base.as_str());
        text.append(": ");
        text.append(features_in_words(self).as_str());
        text
    }

    /// What the player is shown of the answer that is asked for: the form in
    /// words, without the white space around it, in lower case.
    pub fn to_string(&self) -> (text: String)
        ensures
            text@ == lowercased(trimmed(form_text(self@))),
    {
        let words = self.form_in_words();
        to_lowercase(trim(words.as_str()))
    }

    /// What the player is shown of the entry to start from: the entry in
    /// words, without the white space around it, in lower case.
    pub fn to_debug_string(&self) -> (text: String)
        ensures
            text@ == lowercased(trimmed(word_text(self@))),
    {
        let words = self.word_in_words();
        to_lowercase(trim(words.as_str()))
    }
}

impl Mutation {
    /// What the mutation asks the player to do.
    pub fn to_string(&self) -> (text: String)
        ensures
            text@ == mutation_text(*self),
    {
        String::from_str(
            match self {
                Mutation::ChangeGender => "change the gender",
                Mutation::ChangePerson => "change the person",
                Mutation::ChangeAmount => "change the number of people",
                Mutation::ChangeImperfective => "change the aspect (perfective/imperfective)",
                Mutation::ChangeConcrete => "change the aspect (concrete/abstract)",
                Mutation::ChangeTense => "change the tense",
                Mutation::ChangeMood => "change the mood",
            },
        )
    }
}

} // verus!

//! The grammatical mutation engine.
//!
//! A mutation changes one feature of an entry and, with it, the features that
//! the grammar forces to follow. Each rule is defined on the entries that
//! carry the feature it changes and fails on all others. The result keeps the
//! word, the lemma and the gloss of the entry it was made from: the word form
//! that belongs to the new features has to be looked up in a dictionary.

use vstd::prelude::*;
use crate::dictionary::{Amount, Entry, EntryView, Gender, Mood, Tense};

verus! {

/// The kinds of mutation.
#[derive(Clone, Copy, Debug, PartialEq, Eq, Hash, Structural)]
pub enum Mutation {
    ChangeGender,
    ChangePerson,
    ChangeAmount,
    ChangeImperfective,
    ChangeConcrete,
    ChangeTense,
    ChangeMood,
}

/// Why a mutation was not carried out.
#[derive(Clone, Copy, Debug, PartialEq, Eq, Structural)]
pub enum MutationError {
    /// The mutation is not defined for the features of the entry.
    InvalidMutation,
}

/// The gender that follows `gender` in the cycle
/// masculine, feminine, neutral.
pub open spec fn next_gender(gender: Gender) -> Gender {
    match gender {
        Gender::Masculine => Gender::Feminine,
        Gender::Neutral => Gender::Masculine,
        Gender::Feminine => Gender::Neutral,
    }
}

/// Whether `person` is the first, second or third person.
pub open spec fn is_person(person: u8) -> bool {
    1 <= person <= 3
}

/// The person that follows `person` in the cycle first, second, third.
pub open spec fn next_person(person: u8) -> u8 {
    if person == 3 {
        1
    } else {
        (person + 1) as u8
    }
}

/// The tense that follows `tense` in the cycle present, future, past.
pub open spec fn next_tense(tense: Tense) -> Tense {
    match tense {
        Tense::Present => Tense::Future,
        Tense::Future => Tense::Past,
        Tense::Past => Tense::Present,
    }
}

/// The gender rule: defined where the gender is set; moves the gender one step
/// along its cycle and leaves all else as it is.
pub open spec fn gender_changed(e: EntryView) -> Option<EntryView> {
    match e.gender {
        None => None,
        Some(gender) => Some(EntryView { gender: Some(next_gender(gender)), ..e }),
    }
}

/// The person rule: defined where the person is set and the mood is
/// indicative; moves the person one step along its cycle and leaves all else
/// as it is.
pub open spec fn person_changed(e: EntryView) -> Option<EntryView> {
    match e.person {
        Some(person) if is_person(person) && e.mood == Some(Mood::Indicative) => Some(
            EntryView { person: Some(next_person(person)), ..e },
        ),
        _ => None,
    }
}

/// The number rule: defined where the number is set. A plural becomes a
/// singular, which in the past tense is masculine; a singular becomes a
/// plural, which has no gender.
pub open spec fn amount_changed(e: EntryView) -> Option<EntryView> {
    match e.amount {
        None => None,
        Some(Amount::Plural) => Some(
            EntryView {
                amount: Some(Amount::Singular),
                gender: if e.tense == Some(Tense::Past) {
                    Some(Gender::Masculine)
                } else {
                    e.gender
                },
                ..e
            },
        ),
        Some(Amount::Singular) => Some(EntryView { amount: Some(Amount::Plural), gender: None, ..e }),
    }
}

/// The aspect rule for perfective and imperfective: defined everywhere. It
/// flips the flag and exchanges present and future; another tense, or none,
/// stays.
pub open spec fn imperfective_changed(e: EntryView) -> Option<EntryView> {
    Some(
        EntryView {
            imperfective: !e.imperfective,
            tense: match e.tense {
                Some(Tense::Present) => Some(Tense::Future),
                Some(Tense::Future) => Some(Tense::Present),
                other => other,
            },
            ..e
        },
    )
}

/// The aspect rule for concrete and abstract: defined everywhere; flips the
/// flag and leaves all else as it is.
pub open spec fn concrete_changed(e: EntryView) -> Option<EntryView> {
    Some(EntryView { concrete: !e.concrete, ..e })
}

/// The tense rule: defined where the tense is set; moves the tense one step
/// along its cycle. Present to future makes the form perfective. Future to
/// past takes the person away and makes a singular masculine. Past to present
/// makes the form imperfective and third person and takes the gender away.
pub open spec fn tense_changed(e: EntryView) -> Option<EntryView> {
    match e.tense {
        None => None,
        Some(Tense::Present) => Some(
            EntryView { tense: Some(Tense::Future), imperfective: false, ..e },
        ),
        Some(Tense::Future) => Some(
            EntryView {
                tense: Some(Tense::Past),
                gender: if e.amount == Some(Amount::Singular) {
                    Some(Gender::Masculine)
                } else {
                    e.gender
                },
                person: None,
                ..e
            },
        ),
        Some(Tense::Past) => Some(
            EntryView {
                tense: Some(Tense::Present),
                imperfective: true,
                gender: None,
                person: Some(3u8),
                ..e
            },
        ),
    }
}

/// The mood rule: defined where the mood is set. An indicative becomes an
/// imperative in the second person, without gender and tense. An imperative
/// becomes an indicative without person: feminine, singular, past.
pub open spec fn mood_changed(e: EntryView) -> Option<EntryView> {
    match e.mood {
        None => None,
        Some(Mood::Indicative) => Some(
            EntryView {
                mood: Some(Mood::Imperative),
                person: Some(2u8),
                gender: None,
                tense: None,
                ..e
            },
        ),
        Some(Mood::Imperative) => Some(
            EntryView {
                mood: Some(Mood::Indicative),
                person: None,
                gender: Some(Gender::Feminine),
                amount: Some(Amount::Singular),
                tense: Some(Tense::Past),
                ..e
            },
        ),
    }
}

/// What `mutation` makes of `e`: the new entry, or `None` where the mutation
/// is not defined for `e`.
pub open spec fn mutated(e: EntryView, mutation: Mutation) -> Option<EntryView> {
    match mutation {
        Mutation::ChangeGender => gender_changed(e),
        Mutation::ChangePerson => person_changed(e),
        Mutation::ChangeAmount => amount_changed(e),
        Mutation::ChangeImperfective => imperfective_changed(e),
        Mutation::ChangeConcrete => concrete_changed(e),
        Mutation::ChangeTense => tense_changed(e),
        Mutation::ChangeMood => mood_changed(e),
    }
}

/// Whether `e` lacks the optional feature that `mutation` changes. The two
/// aspect flags are always there.
pub open spec fn lacks_feature(e: EntryView, mutation: Mutation) -> bool {
    match mutation {
        Mutation::ChangeGender => e.gender is None,
        Mutation::ChangePerson => e.person is None,
        Mutation::ChangeAmount => e.amount is None,
        Mutation::ChangeImperfective => false,
        Mutation::ChangeConcrete => false,
        Mutation::ChangeTense => e.tense is None,
        Mutation::ChangeMood => e.mood is None,
    }
}

/// Applies `mutation` to `entry`.
///
/// Returns the entry with its new features, or `InvalidMutation` where the
/// mutation is not defined for the entry. A caller that picks mutations at
/// random treats the error as a reason to pick another one.
pub fn apply_mutation(entry: &Entry, mutation: &Mutation) -> (result: Result<Entry, MutationError>)
    ensures
        result is Ok <==> mutated(entry@, *mutation) is Some,
        result is Ok ==> mutated(entry@, *mutation) == Some(result->Ok_0@),
        result is Err ==> result->Err_0 == MutationError::InvalidMutation,
        result is Ok ==> result->Ok_0.word@ == entry.word@ && result->Ok_0.base@ == entry.base@
            && result->Ok_0.meaning@ == entry.meaning@,
        result is Ok && entry@.well_formed() ==> result->Ok_0@.well_formed(),
        lacks_feature(entry@, *mutation) ==> result is Err,
        *mutation == Mutation::ChangePerson && entry.mood != Some(Mood::Indicative) ==> result is Err,
{
    match mutation {
        Mutation::ChangeGender => change_gender(entry),
        Mutation::ChangePerson => change_person(entry),
        Mutation::ChangeAmount => change_amount(entry),
        Mutation::ChangeImperfective => change_imperfective(entry),
        Mutation::ChangeConcrete => change_concrete(entry),
        Mutation::ChangeTense => change_tense(entry),
        Mutation::ChangeMood => change_mood(entry),
    }
}

/// Changes the mood, and with it person, gender, number and tense.
pub fn change_mood(entry: &Entry) -> (result: Result<Entry, MutationError>)
    ensures
        result is Ok <==> entry.mood is Some,
        result is Ok ==> mood_changed(entry@) == Some(result->Ok_0@),
        result is Err ==> result->Err_0 == MutationError::InvalidMutation,
{
    let mut new_entry = entry.duplicate();
    match entry.mood {
        None => {
            return Err(MutationError::InvalidMutation);
        },
        Some(Mood::Indicative) => {
            new_entry.mood = Some(Mood::Imperative);
            new_entry.person = Some(2);
            new_entry.gender = None;
            new_entry.tense = None;
        },
        Some(Mood::Imperative) => {
            new_entry.mood = Some(Mood::Indicative);
            new_entry.person = None;
            new_entry.gender = Some(Gender::Feminine);
            new_entry.amount = Some(Amount::Singular);
            new_entry.tense = Some(Tense::Past);
        },
    }
    Ok(new_entry)
}

/// Moves the tense one step along its cycle, with what the step forces.
pub fn change_tense(entry: &Entry) -> (result: Result<Entry, MutationError>)
    ensures
        result is Ok <==> entry.tense is Some,
        result is Ok ==> tense_changed(entry@) == Some(result->Ok_0@),
        result is Err ==> result->Err_0 == MutationError::InvalidMutation,
{
    let mut new_entry = entry.duplicate();
    match entry.tense {
        None => {
            return Err(MutationError::InvalidMutation);
        },
        Some(Tense::Present) => {
            new_entry.tense = Some(Tense::Future);
            new_entry.imperfective = false;
        },
        Some(Tense::Future) => {
            new_entry.tense = Some(Tense::Past);
            match entry.amount {
                Some(Amount::Singular) => {
                    new_entry.gender = Some(Gender::Masculine);
                },
                _ => {},
            }
            new_entry.person = None;
        },
        Some(Tense::Past) => {
            new_entry.tense = Some(Tense::Present);
            new_entry.imperfective = true;
            new_entry.gender = None;
            new_entry.person = Some(3);
        },
    }
    Ok(new_entry)
}

/// Flips the aspect flag for concrete and abstract.
pub fn change_concrete(entry: &Entry) -> (result: Result<Entry, MutationError>)
    ensures
        result is Ok,
        concrete_changed(entry@) == Some(result->Ok_0@),
{
    let mut new_entry = entry.duplicate();
    new_entry.concrete = !new_entry.concrete;
    Ok(new_entry)
}

/// Flips the aspect flag for perfective and imperfective, and exchanges
/// present and future.
pub fn change_imperfective(entry: &Entry) -> (result: Result<Entry, MutationError>)
    ensures
        result is Ok,
        imperfective_changed(entry@) == Some(result->Ok_0@),
{
    let mut new_entry = entry.duplicate();
    new_entry.imperfective = !new_entry.imperfective;
    new_entry.tense = match entry.tense {
        None => None,
        Some(Tense::Present) => Some(Tense::Future),
        Some(Tense::Future) => Some(Tense::Present),
        Some(Tense::Past) => Some(Tense::Past),
    };
    Ok(new_entry)
}

/// Exchanges singular and plural, with the gender that the new number forces.
pub fn change_amount(entry: &Entry) -> (result: Result<Entry, MutationError>)
    ensures
        result is Ok <==> entry.amount is Some,
        result is Ok ==> amount_changed(entry@) == Some(result->Ok_0@),
        result is Err ==> result->Err_0 == MutationError::InvalidMutation,
{
    let mut new_entry = entry.duplicate();
    match entry.amount {
        None => {
            return Err(MutationError::InvalidMutation);
        },
        Some(Amount::Plural) => {
            new_entry.amount = Some(Amount::Singular);
            match entry.tense {
                Some(Tense::Past) => {
                    new_entry.gender = Some(Gender::Masculine);
                },
                _ => {},
            }
        },
        Some(Amount::Singular) => {
            new_entry.amount = Some(Amount::Plural);
            new_entry.gender = None;
        },
    }
    Ok(new_entry)
}

/// Moves the person one step along its cycle. Only an indicative has a
/// person to change.
pub fn change_person(entry: &Entry) -> (result: Result<Entry, MutationError>)
    ensures
        result is Ok <==> entry.person is Some && is_person(entry.person->Some_0) && entry.mood
            == Some(Mood::Indicative),
        result is Ok ==> person_changed(entry@) == Some(result->Ok_0@),
        result is Err ==> result->Err_0 == MutationError::InvalidMutation,
{
    let indicative = match entry.mood {
        Some(Mood::Indicative) => true,
        _ => false,
    };
    if !indicative {
        return Err(MutationError::InvalidMutation);
    }
    let mut new_entry = entry.duplicate();
    match entry.person {
        Some(1) => {
            new_entry.person = Some(2);
        },
        Some(2) => {
            new_entry.person = Some(3);
        },
        Some(3) => {
            new_entry.person = Some(1);
        },
        _ => {
            return Err(MutationError::InvalidMutation);
        },
    }
    Ok(new_entry)
}

/// Moves the gender one step along its cycle.
pub fn change_gender(entry: &Entry) -> (result: Result<Entry, MutationError>)
    ensures
        result is Ok <==> entry.gender is Some,
        result is Ok ==> gender_changed(entry@) == Some(result->Ok_0@),
        result is Err ==> result->Err_0 == MutationError::InvalidMutation,
{
    let mut new_entry = entry.duplicate();
    match entry.gender {
        None => {
            return Err(MutationError::InvalidMutation);
        },
        Some(Gender::Masculine) => {
            new_entry.gender = Some(Gender::Feminine);
        },
        Some(Gender::Neutral) => {
            new_entry.gender = Some(Gender::Masculine);
        },
        Some(Gender::Feminine) => {
            new_entry.gender = Some(Gender::Neutral);
        },
    }
    Ok(new_entry)
}

/// What `times` applications of `mutation` in a row make of `e`: `None` as
/// soon as one of them is not defined.
pub open spec fn repeated(e: EntryView, mutation: Mutation, times: nat) -> Option<EntryView>
    decreases times,
{
    if times == 0 {
        Some(e)
    } else {
        match repeated(e, mutation, (times - 1) as nat) {
            Some(previous) => mutated(previous, mutation),
            None => None,
        }
    }
}

/// A mutation of a well-formed entry is well formed.
pub proof fn mutation_keeps_well_formed(e: EntryView, mutation: Mutation)
    requires
        e.well_formed(),
        mutated(e, mutation) is Some,
    ensures
        mutated(e, mutation)->Some_0.well_formed(),
{
}

/// The gender cycle has length three: changing the gender of an entry that
/// has one three times gives the entry back.
pub proof fn gender_cycle_closes(e: EntryView)
    requires
        e.gender is Some,
    ensures
        repeated(e, Mutation::ChangeGender, 1) is Some,
        repeated(e, Mutation::ChangeGender, 2) is Some,
        repeated(e, Mutation::ChangeGender, 3) == Some(e),
{
    reveal_with_fuel(repeated, 4);
}

/// The person cycle has length three: changing the person of an indicative
/// entry that has one three times gives the entry back.
pub proof fn person_cycle_closes(e: EntryView)
    requires
        e.well_formed(),
        e.person is Some,
        e.mood == Some(Mood::Indicative),
    ensures
        repeated(e, Mutation::ChangePerson, 1) is Some,
        repeated(e, Mutation::ChangePerson, 2) is Some,
        repeated(e, Mutation::ChangePerson, 3) == Some(e),
{
    reveal_with_fuel(repeated, 4);
}

/// Outside the indicative the person cannot be changed, whatever it is.
pub proof fn person_needs_indicative(e: EntryView)
    requires
        e.mood != Some(Mood::Indicative),
    ensures
        mutated(e, Mutation::ChangePerson) is None,
{
}

/// Flipping perfective and imperfective is an involution: it is defined on
/// every entry, once it inverts the flag, and twice it gives the entry back,
/// tense included.
pub proof fn imperfective_is_an_involution(e: EntryView)
    ensures
        repeated(e, Mutation::ChangeImperfective, 1) is Some,
        repeated(e, Mutation::ChangeImperfective, 1)->Some_0.imperfective == !e.imperfective,
        repeated(e, Mutation::ChangeImperfective, 2) == Some(e),
{
    reveal_with_fuel(repeated, 3);
}

/// Flipping concrete and abstract is an involution too.
pub proof fn concrete_is_an_involution(e: EntryView)
    ensures
        repeated(e, Mutation::ChangeConcrete, 1) is Some,
        repeated(e, Mutation::ChangeConcrete, 1)->Some_0.concrete == !e.concrete,
        repeated(e, Mutation::ChangeConcrete, 2) == Some(e),
{
    reveal_with_fuel(repeated, 3);
}

/// The tense cycle has length three: changing the tense of an entry that has
/// one three times is defined at each step and comes back to the tense it
/// started from. Number, mood and the concrete flag are as they were; aspect,
/// gender and person are what the last steps forced.
pub proof fn tense_cycle_closes(e: EntryView)
    requires
        e.tense is Some,
    ensures
        repeated(e, Mutation::ChangeTense, 1) is Some,
        repeated(e, Mutation::ChangeTense, 2) is Some,
        repeated(e, Mutation::ChangeTense, 3) is Some,
        repeated(e, Mutation::ChangeTense, 1)->Some_0.tense == Some(next_tense(e.tense->Some_0)),
        repeated(e, Mutation::ChangeTense, 2)->Some_0.tense == Some(
            next_tense(next_tense(e.tense->Some_0)),
        ),
        repeated(e, Mutation::ChangeTense, 3)->Some_0.tense == e.tense,
        repeated(e, Mutation::ChangeTense, 3)->Some_0.amount == e.amount,
        repeated(e, Mutation::ChangeTense, 3)->Some_0.mood == e.mood,
        repeated(e, Mutation::ChangeTense, 3)->Some_0.concrete == e.concrete,
        repeated(e, Mutation::ChangeTense, 3)->Some_0.imperfective == (e.tense == Some(
            Tense::Present,
        )),
        e.tense == Some(Tense::Past) ==> repeated(e, Mutation::ChangeTense, 3)->Some_0.person
            is None,
        e.tense != Some(Tense::Past) ==> repeated(e, Mutation::ChangeTense, 3)->Some_0.person
            == Some(3u8),
        e.tense == Some(Tense::Past) && e.amount == Some(Amount::Singular) ==> repeated(
            e,
            Mutation::ChangeTense,
            3,
        )->Some_0.gender == Some(Gender::Masculine),
        e.tense != Some(Tense::Past) || e.amount != Some(Amount::Singular) ==> repeated(
            e,
            Mutation::ChangeTense,
            3,
        )->Some_0.gender is None,
{
    reveal_with_fuel(repeated, 4);
}

/// Changing the mood of an indicative twice does not give the entry back: the
/// way through the imperative overwrites person, gender, number and tense
/// with fixed values.
pub proof fn mood_round_trip_is_lossy(e: EntryView)
    requires
        e.mood == Some(Mood::Indicative),
    ensures
        repeated(e, Mutation::ChangeMood, 1) == Some(
            EntryView {
                mood: Some(Mood::Imperative),
                person: Some(2u8),
                gender: None,
                tense: None,
                ..e
            },
        ),
        repeated(e, Mutation::ChangeMood, 2) == Some(
            EntryView {
                mood: Some(Mood::Indicative),
                person: None,
                gender: Some(Gender::Feminine),
                amount: Some(Amount::Singular),
                tense: Some(Tense::Past),
                ..e
            },
        ),
        repeated(e, Mutation::ChangeMood, 2) == Some(e) <==> e.person is None && e.gender == Some(
            Gender::Feminine,
        ) && e.amount == Some(Amount::Singular) && e.tense == Some(Tense::Past),
{
    reveal_with_fuel(repeated, 3);
}

/// A mutation is not defined for an entry that lacks the feature it changes.
pub proof fn missing_feature_is_invalid(e: EntryView, mutation: Mutation)
    requires
        lacks_feature(e, mutation),
    ensures
        mutated(e, mutation) is None,
{
}

} // verus!

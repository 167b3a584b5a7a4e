//! The decisions of a practice session.
//!
//! A round takes a base entry from the dictionary, a mutation that is defined
//! for it, and the dictionary's entry for the mutated features: the answer
//! that the player is asked for. The session counts rounds and right answers
//! and ends when the player says so. Printing the question and reading the
//! answer is the caller's part.

use vstd::prelude::*;
use vstd::string::StringExecFns;
use rand::seq::SliceRandom;
use crate::dictionary::{lookup, Dictionary, Entry, EntryView};
use crate::mutation::{apply_mutation, mutated, Mutation};
use crate::text::{trim, trimmed};

verus! {

/// The standard generator of rand, `rand::rngs::StdRng`, from which a session
/// draws. Nothing is said of what is inside: a caller makes one, seeded as it
/// likes, and hands it in.
#[verifier::external_type_specification]
#[verifier::external_body]
pub struct ExStdRng(rand::rngs::StdRng);

/// Why a round could not be set up.
#[derive(Clone, Copy, Debug, PartialEq, Eq, Structural)]
pub enum RoundError {
    /// The dictionary has no entry to start from.
    EmptyDictionary,
    /// No mutation in question is defined for the base entry.
    InvalidMutation,
    /// The dictionary has no entry for the mutated features.
    MissingTarget,
}

/// One question of a session.
#[derive(Clone, Debug)]
pub struct Round {
    /// The entry that the player starts from.
    pub base_word: Entry,
    /// The change that the player is to apply.
    pub mutation: Mutation,
    /// The dictionary's entry for the changed features.
    pub answer: Entry,
}

/// How an answer was judged.
#[derive(Clone, Copy, Debug, PartialEq, Eq, Structural)]
pub struct Verdict {
    /// The answer is the expected word.
    pub correct: bool,
    /// The answer is the command that ends the session.
    pub exit: bool,
}

/// The mutations that a session draws from. The two changes of aspect are
/// defined but not drawn.
pub open spec fn enabled() -> Seq<Mutation> {
    seq![
        Mutation::ChangePerson,
        Mutation::ChangeAmount,
        Mutation::ChangeTense,
        Mutation::ChangeMood,
        Mutation::ChangeGender,
    ]
}

/// The entry that answers `mutation` on `base`: the one that `entries` holds
/// for the mutated features.
pub open spec fn answer_to(entries: Seq<EntryView>, base: EntryView, mutation: Mutation) -> Result<
    EntryView,
    RoundError,
> {
    match mutated(base, mutation) {
        None => Err(RoundError::InvalidMutation),
        Some(target) => match lookup(entries, target.features()) {
            None => Err(RoundError::MissingTarget),
            Some(answer) => Ok(answer),
        },
    }
}

/// Whether one of the enabled mutations is defined for `base`.
pub open spec fn can_be_asked(base: EntryView) -> bool {
    exists|mutation: Mutation| enabled().contains(mutation) && mutated(base, mutation) is Some
}

/// Whether `entries` has the answer to every enabled mutation that is defined
/// for `base`.
pub open spec fn answers_all(entries: Seq<EntryView>, base: EntryView) -> bool {
    forall|mutation: Mutation|
        enabled().contains(mutation) ==> answer_to(entries, base, mutation) != Err::<
            EntryView,
            RoundError,
        >(RoundError::MissingTarget)
}

/// Whether `entries` has the answer to every question that can be asked from
/// one of its entries.
pub open spec fn is_complete(entries: Seq<EntryView>) -> bool {
    forall|i: int| 0 <= i < entries.len() ==> answers_all(entries, #[trigger] entries[i])
}

/// Calls `SliceRandom::choose` of rand. Believed, not proved: an empty slice
/// gives nothing, any other slice gives one of its items. Which one depends
/// on the generator.
#[verifier::external_body]
fn pick<'a, T>(items: &'a [T], rng: &mut rand::rngs::StdRng) -> (chosen: Option<&'a T>)
    ensures
        chosen is None <==> items@.len() == 0,
        chosen matches Some(item) ==> exists|i: int| 0 <= i < items@.len() && items@[i] == *item,
{
    items.choose(rng)
}

/// The mutations that a session draws from, as a list.
pub fn enabled_mutations() -> (pool: Vec<Mutation>)
    ensures
        pool@ == enabled(),
{
    let pool = vec![
        Mutation::ChangePerson,
        Mutation::ChangeAmount,
        Mutation::ChangeTense,
        Mutation::ChangeMood,
        Mutation::ChangeGender,
    ];
    assert(pool@ =~= enabled());
    pool
}

/// An entry that carries a mood can be asked about: its mood can be changed,
/// and that change is enabled.
pub proof fn mood_can_be_changed(e: EntryView)
    requires
        e.mood is Some,
    ensures
        enabled().contains(Mutation::ChangeMood),
        mutated(e, Mutation::ChangeMood) is Some,
        can_be_asked(e),
{
    assert(enabled()[3] == Mutation::ChangeMood);
    assert(enabled().contains(Mutation::ChangeMood) && mutated(e, Mutation::ChangeMood) is Some);
}

/// A dictionary of a single entry is not complete: the entry's mood can be
/// changed, and the entry itself is not the answer. A session on such a
/// dictionary asks no question; it still ends when the player says so.
pub proof fn single_entry_is_not_complete(e: EntryView)
    requires
        e.mood is Some,
    ensures
        answer_to(seq![e], e, Mutation::ChangeMood) == Err::<EntryView, RoundError>(
            RoundError::MissingTarget,
        ),
        !is_complete(seq![e]),
{
    mood_can_be_changed(e);
    let target = mutated(e, Mutation::ChangeMood)->Some_0;
    assert(target.features() != e.features());
    assert(seq![e].drop_first() =~= Seq::<EntryView>::empty());
    assert(lookup(seq![e], target.features()) is None) by {
        reveal_with_fuel(lookup, 2);
    }
    assert(seq![e][0] == e);
    assert(!answers_all(seq![e], e));
}

/// The answer that the dictionary holds for `mutation` applied to
/// `base_word`.
pub fn expected_answer(dictionary: &Dictionary, base_word: &Entry, mutation: Mutation) -> (result:
    Result<Entry, RoundError>)
    ensures
        result is Ok <==> answer_to(dictionary@, base_word@, mutation) is Ok,
        result is Ok ==> answer_to(dictionary@, base_word@, mutation) == Ok::<EntryView, RoundError>(
            result->Ok_0@,
        ),
        result is Err ==> answer_to(dictionary@, base_word@, mutation) == Err::<
            EntryView,
            RoundError,
        >(result->Err_0),
{
    match apply_mutation(base_word, &mutation) {
        Err(_) => Err(RoundError::InvalidMutation),
        Ok(target) => match dictionary.find(&target) {
            None => Err(RoundError::MissingTarget),
            Some(answer) => Ok(answer.duplicate()),
        },
    }
}

/// How often `generate_mutation` draws before it stops drawing and takes the
/// first enabled mutation that is defined.
pub const MAX_DRAWS: usize = 64;

/// Draws a mutation for `base_word` and looks up the answer.
///
/// A draw that is not defined for the entry is repeated, the base entry
/// stays. After `MAX_DRAWS` such draws the first enabled mutation that is
/// defined is taken, so that the search ends whatever the generator does.
///
/// Which mutation comes back depends on the generator; whichever it is, the
/// answer is the dictionary's entry for it. `InvalidMutation` comes back
/// exactly if no enabled mutation is defined for the entry, `MissingTarget`
/// only if the dictionary lacks an entry that an enabled mutation leads to.
pub fn generate_mutation(
    dictionary: &Dictionary,
    base_word: &Entry,
    rng: &mut rand::rngs::StdRng,
) -> (result: Result<(Mutation, Entry), RoundError>)
    ensures
        result matches Ok(pair) ==> enabled().contains(pair.0) && answer_to(
            dictionary@,
            base_word@,
            pair.0,
        ) == Ok::<EntryView, RoundError>(pair.1@),
        result matches Err(error) ==> error != RoundError::EmptyDictionary,
        result matches Err(error) ==> (error == RoundError::InvalidMutation <==> !can_be_asked(
            base_word@,
        )),
        result matches Err(error) ==> (error == RoundError::MissingTarget ==> !answers_all(
            dictionary@,
            base_word@,
        )),
        can_be_asked(base_word@) && answers_all(dictionary@, base_word@) ==> result is Ok,
        !can_be_asked(base_word@) ==> result is Err,
        result matches Err(error) ==> (base_word.mood is Some ==> error
            == RoundError::MissingTarget),
{
    let pool = enabled_mutations();
    let mut draws: usize = 0;
    while draws < MAX_DRAWS
        invariant
            pool@ == enabled(),
        decreases MAX_DRAWS - draws,
    {
        match pick(pool.as_slice(), rng) {
            Some(mutation) => {
                assert(enabled().contains(*mutation));
                match expected_answer(dictionary, base_word, *mutation) {
                    Ok(answer) => {
                        return Ok((*mutation, answer));
                    },
                    Err(RoundError::InvalidMutation) => {},
                    Err(_) => {
                        return Err(RoundError::MissingTarget);
                    },
                }
            },
            None => {},
        }
        draws += 1;
    }
    let mut index: usize = 0;
    while index < pool.len()
        invariant
            pool@ == enabled(),
            index <= pool.len(),
            forall|k: int| 0 <= k < index ==> mutated(base_word@, #[trigger] pool@[k]) is None,
        decreases pool.len() - index,
    {
        let mutation = pool[index];
        assert(enabled().contains(mutation)) by {
            assert(enabled()[index as int] == mutation);
        }
        match expected_answer(dictionary, base_word, mutation) {
            Ok(answer) => {
                return Ok((mutation, answer));
            },
            Err(RoundError::InvalidMutation) => {},
            Err(_) => {
                return Err(RoundError::MissingTarget);
            },
        }
        index += 1;
    }
    proof {
        if base_word.mood is Some {
            mood_can_be_changed(base_word@);
        }
    }
    Err(RoundError::InvalidMutation)
}

/// Sets up the next round: draws a base entry from the dictionary, then a
/// mutation for it.
///
/// Which round comes back depends on the generator. An empty dictionary gives
/// `EmptyDictionary`, and no other does. Every entry of a dictionary can have
/// its mood changed, so `InvalidMutation` does not occur. `MissingTarget`
/// occurs only where the dictionary is not complete.
pub fn next_round(dictionary: &Dictionary, rng: &mut rand::rngs::StdRng) -> (result: Result<
    Round,
    RoundError,
>)
    ensures
        result matches Ok(round) ==> dictionary@.contains(round.base_word@) && enabled().contains(
            round.mutation,
        ) && answer_to(dictionary@, round.base_word@, round.mutation) == Ok::<
            EntryView,
            RoundError,
        >(round.answer@),
        result matches Err(error) ==> (error == RoundError::EmptyDictionary <==> dictionary@.len()
            == 0),
        result matches Err(error) ==> error != RoundError::InvalidMutation,
        result matches Err(error) ==> (error == RoundError::MissingTarget ==> !is_complete(
            dictionary@,
        )),
        dictionary@.len() > 0 && is_complete(dictionary@) ==> result is Ok,
        dictionary@.len() == 0 ==> result is Err,
{
    let entries = dictionary.entries();
    match pick(entries, rng) {
        None => Err(RoundError::EmptyDictionary),
        Some(base_word) => {
            let ghost i = choose|i: int| 0 <= i < entries@.len() && entries@[i] == *base_word;
            assert(dictionary@[i] == base_word@);
            match generate_mutation(dictionary, base_word, rng) {
                Ok((mutation, answer)) => Ok(
                    Round { base_word: base_word.duplicate(), mutation, answer },
                ),
                Err(error) => Err(error),
            }
        },
    }
}

/// The running tally of a session.
pub struct Session {
    score: u64,
    rounds: u64,
}

impl Session {
    #[verifier::type_invariant]
    spec fn well_formed(&self) -> bool {
        self.score <= self.rounds
    }

    /// The number of right answers so far.
    pub closed spec fn spec_score(&self) -> u64 {
        self.score
    }

    /// The number of answers so far.
    pub closed spec fn spec_rounds(&self) -> u64 {
        self.rounds
    }

    /// A session in which nothing was answered yet.
    pub fn new() -> (session: Session)
        ensures
            session.score() == 0,
            session.rounds() == 0,
    {
        Session { score: 0, rounds: 0 }
    }

    /// The number of right answers so far.
    #[verifier::when_used_as_spec(spec_score)]
    pub fn score(&self) -> (score: u64)
        ensures
            score == self.score(),
            score <= self.rounds(),
    {
        proof {
            use_type_invariant(self);
        }
        self.score
    }

    /// The number of answers so far.
    #[verifier::when_used_as_spec(spec_rounds)]
    pub fn rounds(&self) -> (rounds: u64)
        ensures
            rounds == self.rounds(),
    {
        self.rounds
    }

    /// Judges `answer`, the player's input without the white space around it,
    /// against the entry that was asked for, and counts the round.
    ///
    /// The answer is right if it is the entry's word, letter for letter. The
    /// command `exit` is an answer like any other: it is judged and counted,
    /// and the verdict says that the session is over.
    pub fn judge(&mut self, answer: &str, expected: &Entry) -> (verdict: Verdict)
        requires
            old(self).rounds() < u64::MAX,
        ensures
            verdict.correct == (answer@ == expected.word@),
            verdict.exit == (answer@ == "exit"@),
            final(self).rounds() == old(self).rounds() + 1,
            verdict.correct ==> final(self).score() == old(self).score() + 1,
            !verdict.correct ==> final(self).score() == old(self).score(),
    {
        proof {
            use_type_invariant(&*self);
        }
        let answer = String::from_str(answer);
        let correct = answer == expected.word;
        let exit = answer == String::from_str("exit");
        self.rounds = self.rounds + 1;
        if correct {
            self.score = self.score + 1;
        }
        Verdict { correct, exit }
    }

    /// Judges a line of input against the entry that was asked for, and
    /// counts the round: `judge` on the line without the white space around
    /// it.
    pub fn answer(&mut self, line: &str, expected: &Entry) -> (verdict: Verdict)
        requires
            old(self).rounds() < u64::MAX,
        ensures
            verdict.correct == (trimmed(line@) == expected.word@),
            verdict.exit == (trimmed(line@) == "exit"@),
            final(self).rounds() == old(self).rounds() + 1,
            verdict.correct ==> final(self).score() == old(self).score() + 1,
            !verdict.correct ==> final(self).score() == old(self).score(),
    {
        self.judge(trim(line), expected)
    }
}

/// Whether a line of input is the command that ends the session: `exit`,
/// with or without white space around it.
pub fn exit_requested(line: &str) -> (exit: bool)
    ensures
        exit == (trimmed(line@) == "exit"@),
{
    String::from_str(trim(line)) == String::from_str("exit")
}

} // verus!

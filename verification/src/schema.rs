//! The schema of the dictionary table: how the cells of a row are read as the
//! fields of an entry.
//!
//! A table has the columns `word`, `base`, `person`, `amount`,
//! `imperfective`, `concrete`, `gender`, `mood`, `meaning` and `tense`. The
//! three texts are taken as they are. The two flags are written `true` or
//! `false`. The optional features are left empty where they do not apply;
//! number, gender, mood and tense are otherwise written by their names, and
//! the person as the number 1, 2 or 3.

use vstd::prelude::*;
use vstd::string::StringExecFns;
use crate::dictionary::{Amount, Entry, EntryView, Gender, Mood, Tense};

verus! {

/// The flag that a cell stands for.
pub open spec fn flag_value(cell: Seq<char>) -> Option<bool> {
    if cell == "true"@ {
        Some(true)
    } else if cell == "false"@ {
        Some(false)
    } else {
        None
    }
}

/// The number that a cell names.
pub open spec fn amount_value(cell: Seq<char>) -> Option<Amount> {
    if cell == "Singular"@ {
        Some(Amount::Singular)
    } else if cell == "Plural"@ {
        Some(Amount::Plural)
    } else {
        None
    }
}

/// The gender that a cell names.
pub open spec fn gender_value(cell: Seq<char>) -> Option<Gender> {
    if cell == "Masculine"@ {
        Some(Gender::Masculine)
    } else if cell == "Neutral"@ {
        Some(Gender::Neutral)
    } else if cell == "Feminine"@ {
        Some(Gender::Feminine)
    } else {
        None
    }
}

/// The mood that a cell names.
pub open spec fn mood_value(cell: Seq<char>) -> Option<Mood> {
    if cell == "Indicative"@ {
        Some(Mood::Indicative)
    } else if cell == "Imperative"@ {
        Some(Mood::Imperative)
    } else {
        None
    }
}

/// The tense that a cell names.
pub open spec fn tense_value(cell: Seq<char>) -> Option<Tense> {
    if cell == "Present"@ {
        Some(Tense::Present)
    } else if cell == "Past"@ {
        Some(Tense::Past)
    } else if cell == "Future"@ {
        Some(Tense::Future)
    } else {
        None
    }
}

/// The value of a digit in the given radix, ten or sixteen.
pub open spec fn digit_value(digit: char, radix: int) -> Option<int> {
    if '0' <= digit <= '9' {
        Some(digit as int - '0' as int)
    } else if radix == 16 && 'a' <= digit <= 'f' {
        Some(digit as int - 'a' as int + 10)
    } else if radix == 16 && 'A' <= digit <= 'F' {
        Some(digit as int - 'A' as int + 10)
    } else {
        None
    }
}

/// The number that a run of digits stands for, the empty run for zero.
/// `None` where one of the characters is no digit.
pub open spec fn digits_value(digits: Seq<char>, radix: int) -> Option<int>
    decreases digits.len(),
{
    if digits.len() == 0 {
        Some(0)
    } else {
        match (digits_value(digits.drop_last(), radix), digit_value(digits.last(), radix)) {
            (Some(front), Some(last)) => Some(front * radix + last),
            _ => None,
        }
    }
}

/// The number that a text stands for: an optional plus sign, then one digit
/// or more.
pub open spec fn unsigned_value(text: Seq<char>, radix: int) -> Option<int> {
    let digits = if text.len() > 0 && text[0] == '+' {
        text.skip(1)
    } else {
        text
    };
    if digits.len() == 0 {
        None
    } else {
        digits_value(digits, radix)
    }
}

/// The person that a cell stands for: the number one, two or three, written
/// in decimal, or after `0x` in hexadecimal.
pub open spec fn person_value(cell: Seq<char>) -> Option<u8> {
    let number = if cell.len() >= 2 && cell[0] == '0' && cell[1] == 'x' {
        unsigned_value(cell.skip(2), 16)
    } else {
        unsigned_value(cell, 10)
    };
    match number {
        Some(value) if 1 <= value <= 3 => Some(value as u8),
        _ => None,
    }
}

/// Whether two texts are the same, character by character.
fn same_text(left: &str, right: &str) -> (same: bool)
    ensures
        same == (left@ == right@),
{
    String::from_str(left) == String::from_str(right)
}

/// Reads a flag.
pub fn decode_flag(cell: &str) -> (flag: Option<bool>)
    ensures
        flag == flag_value(cell@),
{
    if same_text(cell, "true") {
        Some(true)
    } else if same_text(cell, "false") {
        Some(false)
    } else {
        None
    }
}

/// Reads the name of a number.
pub fn decode_amount(cell: &str) -> (amount: Option<Amount>)
    ensures
        amount == amount_value(cell@),
{
    if same_text(cell, "Singular") {
        Some(Amount::Singular)
    } else if same_text(cell, "Plural") {
        Some(Amount::Plural)
    } else {
        None
    }
}

/// Reads the name of a gender.
pub fn decode_gender(cell: &str) -> (gender: Option<Gender>)
    ensures
        gender == gender_value(cell@),
{
    if same_text(cell, "Masculine") {
        Some(Gender::Masculine)
    } else if same_text(cell, "Neutral") {
        Some(Gender::Neutral)
    } else if same_text(cell, "Feminine") {
        Some(Gender::Feminine)
    } else {
        None
    }
}

/// Reads the name of a mood.
pub fn decode_mood(cell: &str) -> (mood: Option<Mood>)
    ensures
        mood == mood_value(cell@),
{
    if same_text(cell, "Indicative") {
        Some(Mood::Indicative)
    } else if same_text(cell, "Imperative") {
        Some(Mood::Imperative)
    } else {
        None
    }
}

/// Reads the name of a tense.
pub fn decode_tense(cell: &str) -> (tense: Option<Tense>)
    ensures
        tense == tense_value(cell@),
{
    if same_text(cell, "Present") {
        Some(Tense::Present)
    } else if same_text(cell, "Past") {
        Some(Tense::Past)
    } else if same_text(cell, "Future") {
        Some(Tense::Future)
    } else {
        None
    }
}

/// The characters of a text.
fn characters(text: &str) -> (chars: Vec<char>)
    ensures
        chars@ == text@,
{
    let mut chars: Vec<char> = Vec::new();
    for c in it: text.chars()
        invariant
            chars@ == it.seq().take(it.index() as int),
            it.seq() == text@,
    {
        chars.push(c);
    }
    chars
}

/// The value of a digit in radix ten or sixteen.
fn decode_digit(digit: char, radix: u32) -> (value: Option<u32>)
    requires
        radix == 10 || radix == 16,
    ensures
        value is Some <==> digit_value(digit, radix as int) is Some,
        value matches Some(v) ==> v < radix && digit_value(digit, radix as int) == Some(v as int),
{
    if '0' <= digit && digit <= '9' {
        Some(digit as u32 - '0' as u32)
    } else if radix == 16 && 'a' <= digit && digit <= 'f' {
        Some(digit as u32 - 'a' as u32 + 10)
    } else if radix == 16 && 'A' <= digit && digit <= 'F' {
        Some(digit as u32 - 'A' as u32 + 10)
    } else {
        None
    }
}

/// Reads a person.
pub fn decode_person(cell: &str) -> (person: Option<u8>)
    ensures
        person == person_value(cell@),
        person matches Some(number) ==> 1 <= number <= 3,
{
    let chars = characters(cell);
    let hexadecimal = chars.len() >= 2 && chars[0] == '0' && chars[1] == 'x';
    let radix: u32 = if hexadecimal {
        16
    } else {
        10
    };
    let after_prefix: usize = if hexadecimal {
        2
    } else {
        0
    };
    let start: usize = if after_prefix < chars.len() && chars[after_prefix] == '+' {
        after_prefix + 1
    } else {
        after_prefix
    };
    let ghost text = chars@.skip(after_prefix as int);
    let ghost digits = chars@.skip(start as int);
    proof {
        assert(chars@.skip(0) =~= chars@);
        if after_prefix < chars.len() {
            assert(text[0] == chars@[after_prefix as int]);
        }
        if start > after_prefix {
            assert(text.skip(1) =~= digits);
        }
        assert(unsigned_value(text, radix as int) == if digits.len() == 0 {
            None
        } else {
            digits_value(digits, radix as int)
        });
    }
    if start == chars.len() {
        return None;
    }
    // The number read so far, as long as it is a person; 4 for all above.
    let mut value: u32 = 0;
    let mut valid = true;
    let mut index: usize = start;
    proof {
        assert(digits.take(0) =~= Seq::<char>::empty());
    }
    while index < chars.len()
        invariant
            start <= index <= chars.len(),
            radix == 10 || radix == 16,
            digits == chars@.skip(start as int),
            value <= 4,
            valid <==> digits_value(digits.take(index - start), radix as int) is Some,
            valid ==> 0 <= digits_value(digits.take(index - start), radix as int)->Some_0,
            valid && value < 4 ==> digits_value(digits.take(index - start), radix as int)
                == Some(value as int),
            valid && value == 4 ==> digits_value(digits.take(index - start), radix as int)->Some_0
                >= 4,
        decreases chars.len() - index,
    {
        let ghost front = digits.take(index - start);
        proof {
            assert(digits.take(index - start + 1).drop_last() =~= front);
            assert(digits.take(index - start + 1).last() == chars@[index as int]);
        }
        match decode_digit(chars[index], radix) {
            None => {
                valid = false;
            },
            Some(digit) => {
                if valid {
                    let ghost before = digits_value(front, radix as int)->Some_0;
                    assert(value * radix + digit <= 4 * 16 + 16) by (nonlinear_arith)
                        requires
                            value <= 4,
                            radix <= 16,
                            digit < 16,
                    ;
                    assert(before * radix + digit >= before) by (nonlinear_arith)
                        requires
                            radix >= 10,
                            digit >= 0,
                            before >= 0,
                    ;
                    let next = value * radix + digit;
                    value = if next < 4 {
                        next
                    } else {
                        4
                    };
                }
            },
        }
        index += 1;
    }
    proof {
        assert(digits.take(index - start) =~= digits);
    }
    if valid && 1 <= value && value <= 3 {
        Some(value as u8)
    } else {
        None
    }
}

/// Whether `name` heads more than one column.
pub open spec fn heads_twice(names: Seq<Seq<char>>, name: Seq<char>) -> bool {
    exists|i: int, j: int| 0 <= i < j < names.len() && names[i] == name && names[j] == name
}

/// Whether none of the ten fields heads more than one column. Other names may
/// occur as often as they like: their columns are not read.
pub open spec fn well_headed(names: Seq<Seq<char>>) -> bool {
    &&& !heads_twice(names, "word"@)
    &&& !heads_twice(names, "base"@)
    &&& !heads_twice(names, "person"@)
    &&& !heads_twice(names, "amount"@)
    &&& !heads_twice(names, "imperfective"@)
    &&& !heads_twice(names, "concrete"@)
    &&& !heads_twice(names, "gender"@)
    &&& !heads_twice(names, "mood"@)
    &&& !heads_twice(names, "meaning"@)
    &&& !heads_twice(names, "tense"@)
}

/// Where in a row the cell of each field stands, if the table has a column
/// for the field.
#[derive(Clone, Copy, Debug, PartialEq, Eq, Structural)]
pub struct Columns {
    pub word: Option<usize>,
    pub base: Option<usize>,
    pub person: Option<usize>,
    pub amount: Option<usize>,
    pub imperfective: Option<usize>,
    pub concrete: Option<usize>,
    pub gender: Option<usize>,
    pub mood: Option<usize>,
    pub meaning: Option<usize>,
    pub tense: Option<usize>,
}

/// The first column that `name` heads.
pub open spec fn column_named(names: Seq<Seq<char>>, name: Seq<char>) -> Option<usize> {
    match names.index_of_first(name) {
        Some(column) => Some(column as usize),
        None => None,
    }
}

/// The columns of a table with a header: each field's column is the one
/// that the field's name heads.
pub open spec fn columns_by_name(names: Seq<Seq<char>>) -> Columns {
    Columns {
        word: column_named(names, "word"@),
        base: column_named(names, "base"@),
        person: column_named(names, "person"@),
        amount: column_named(names, "amount"@),
        imperfective: column_named(names, "imperfective"@),
        concrete: column_named(names, "concrete"@),
        gender: column_named(names, "gender"@),
        mood: column_named(names, "mood"@),
        meaning: column_named(names, "meaning"@),
        tense: column_named(names, "tense"@),
    }
}

/// The columns of a table without a header: the first ten, in the order of
/// the fields.
pub open spec fn columns_by_position() -> Columns {
    Columns {
        word: Some(0usize),
        base: Some(1usize),
        person: Some(2usize),
        amount: Some(3usize),
        imperfective: Some(4usize),
        concrete: Some(5usize),
        gender: Some(6usize),
        mood: Some(7usize),
        meaning: Some(8usize),
        tense: Some(9usize),
    }
}

/// The columns of a table under `header`. There are none where a field heads
/// more than one column.
pub open spec fn columns_under(header: Option<Seq<Seq<char>>>) -> Option<Columns> {
    match header {
        Some(names) => if well_headed(names) {
            Some(columns_by_name(names))
        } else {
            None
        },
        None => Some(columns_by_position()),
    }
}

/// Whether a row has the cells that a table under `header` wants of it: one
/// for each column that the header names, ten at least without a header.
pub open spec fn fits(header: Option<Seq<Seq<char>>>, row: Seq<Seq<char>>) -> bool {
    match header {
        Some(names) => row.len() == names.len(),
        None => row.len() >= 10,
    }
}

/// The cells of one row that stand for the ten fields, each where the row has
/// it.
pub struct Cells {
    pub word: Option<Seq<char>>,
    pub base: Option<Seq<char>>,
    pub person: Option<Seq<char>>,
    pub amount: Option<Seq<char>>,
    pub imperfective: Option<Seq<char>>,
    pub concrete: Option<Seq<char>>,
    pub gender: Option<Seq<char>>,
    pub mood: Option<Seq<char>>,
    pub meaning: Option<Seq<char>>,
    pub tense: Option<Seq<char>>,
}

/// The cell of `row` at `column`, if the row reaches that far.
pub open spec fn cell_at(row: Seq<Seq<char>>, column: Option<usize>) -> Option<Seq<char>> {
    match column {
        Some(index) if index < row.len() => Some(row[index as int]),
        _ => None,
    }
}

impl Columns {
    /// The cells of `row` at the columns.
    pub open spec fn cells(self, row: Seq<Seq<char>>) -> Cells {
        Cells {
            word: cell_at(row, self.word),
            base: cell_at(row, self.base),
            person: cell_at(row, self.person),
            amount: cell_at(row, self.amount),
            imperfective: cell_at(row, self.imperfective),
            concrete: cell_at(row, self.concrete),
            gender: cell_at(row, self.gender),
            mood: cell_at(row, self.mood),
            meaning: cell_at(row, self.meaning),
            tense: cell_at(row, self.tense),
        }
    }
}

/// What the cell of a flag stands for. A row must have it.
pub open spec fn required_flag(cell: Option<Seq<char>>) -> Option<bool> {
    match cell {
        None => None,
        Some(text) => flag_value(text),
    }
}

/// What the cell of an optional feature stands for, given what its text
/// names. A row that has no such cell, or an empty one, lacks the feature;
/// a cell that names the feature has it; any other cell stands for nothing.
pub open spec fn feature_value<T>(cell: Option<Seq<char>>, named: Option<T>) -> Option<Option<T>> {
    match (cell, named) {
        (None, _) => Some(None),
        (Some(text), _) if text.len() == 0 => Some(None),
        (Some(_), Some(value)) => Some(Some(value)),
        (Some(_), None) => None,
    }
}

/// The person that the cells of a row give, if they give one.
pub open spec fn person_of(cells: Cells) -> Option<Option<u8>> {
    feature_value(
        cells.person,
        match cells.person {
            Some(text) => person_value(text),
            None => None,
        },
    )
}

/// The number that the cells of a row give, if they give one.
pub open spec fn amount_of(cells: Cells) -> Option<Option<Amount>> {
    feature_value(
        cells.amount,
        match cells.amount {
            Some(text) => amount_value(text),
            None => None,
        },
    )
}

/// The gender that the cells of a row give, if they give one.
pub open spec fn gender_of(cells: Cells) -> Option<Option<Gender>> {
    feature_value(
        cells.gender,
        match cells.gender {
            Some(text) => gender_value(text),
            None => None,
        },
    )
}

/// The mood that the cells of a row give, if they give one.
pub open spec fn mood_of(cells: Cells) -> Option<Option<Mood>> {
    feature_value(
        cells.mood,
        match cells.mood {
            Some(text) => mood_value(text),
            None => None,
        },
    )
}

/// The tense that the cells of a row give, if they give one.
pub open spec fn tense_of(cells: Cells) -> Option<Option<Tense>> {
    feature_value(
        cells.tense,
        match cells.tense {
            Some(text) => tense_value(text),
            None => None,
        },
    )
}

/// The entry that the cells of a row stand for. There is none where a text
/// or a flag is missing, or where a cell does not read as its field.
pub open spec fn entry_of(cells: Cells) -> Option<EntryView> {
    if cells.word is Some && cells.base is Some && cells.meaning is Some && required_flag(
        cells.imperfective,
    ) is Some && required_flag(cells.concrete) is Some && person_of(cells) is Some && amount_of(
        cells,
    ) is Some && gender_of(cells) is Some && mood_of(cells) is Some && tense_of(cells) is Some {
        Some(
            EntryView {
                word: cells.word->Some_0,
                base: cells.base->Some_0,
                person: person_of(cells)->Some_0,
                amount: amount_of(cells)->Some_0,
                imperfective: required_flag(cells.imperfective)->Some_0,
                concrete: required_flag(cells.concrete)->Some_0,
                gender: gender_of(cells)->Some_0,
                mood: mood_of(cells)->Some_0,
                meaning: cells.meaning->Some_0,
                tense: tense_of(cells)->Some_0,
            },
        )
    } else {
        None
    }
}

/// The entry that a row of a table under `header` stands for. There is none
/// where the row does not fit the table, or the table has no columns.
pub open spec fn row_entry(header: Option<Seq<Seq<char>>>, row: Seq<Seq<char>>) -> Option<
    EntryView,
> {
    match columns_under(header) {
        Some(columns) if fits(header, row) => entry_of(columns.cells(row)),
        _ => None,
    }
}

/// The entries that the rows of a table stand for, in their order: there are
/// none if one of the rows stands for no entry.
pub open spec fn table_entries(header: Option<Seq<Seq<char>>>, rows: Seq<Seq<Seq<char>>>) -> Option<
    Seq<EntryView>,
> {
    if forall|i: int| 0 <= i < rows.len() ==> row_entry(header, #[trigger] rows[i]) is Some {
        Some(Seq::new(rows.len(), |i: int| row_entry(header, rows[i])->Some_0))
    } else {
        None
    }
}

/// The column that `name` heads: `None` inside where it heads none, `None`
/// outside where it heads more than one.
pub fn column_of(names: &Vec<String>, name: &str) -> (column: Option<Option<usize>>)
    ensures
        column is None <==> heads_twice(names.deep_view(), name@),
        column matches Some(place) ==> place == column_named(names.deep_view(), name@),
{
    let ghost all = names.deep_view();
    let mut found: Option<usize> = None;
    let mut index: usize = 0;
    while index < names.len()
        invariant
            index <= names.len(),
            all == names.deep_view(),
            match found {
                Some(place) => place < index && all[place as int] == name@ && forall|k: int|
                    0 <= k < index && k != place ==> all[k] != name@,
                None => forall|k: int| 0 <= k < index ==> all[k] != name@,
            },
        decreases names.len() - index,
    {
        assert(all[index as int] == names[index as int]@);
        if same_text(names[index].as_str(), name) {
            match found {
                Some(place) => {
                    assert(heads_twice(all, name@)) by {
                        assert(0 <= place < index < all.len() && all[place as int] == name@
                            && all[index as int] == name@);
                    }
                    return None;
                },
                None => {
                    found = Some(index);
                },
            }
        }
        index += 1;
    }
    proof {
        all.index_of_first_ensures(name@);
        if found is Some {
            assert(all.contains(name@));
        }
    }
    Some(found)
}

/// The columns of a table under `header`.
pub fn find_columns(header: Option<&Vec<String>>) -> (columns: Option<Columns>)
    ensures
        columns == columns_under(header_view(header)),
{
    let names = match header {
        Some(names) => names,
        None => {
            return Some(
                Columns {
                    word: Some(0),
                    base: Some(1),
                    person: Some(2),
                    amount: Some(3),
                    imperfective: Some(4),
                    concrete: Some(5),
                    gender: Some(6),
                    mood: Some(7),
                    meaning: Some(8),
                    tense: Some(9),
                },
            );
        },
    };
    let word = column_of(names, "word");
    let base = column_of(names, "base");
    let person = column_of(names, "person");
    let amount = column_of(names, "amount");
    let imperfective = column_of(names, "imperfective");
    let concrete = column_of(names, "concrete");
    let gender = column_of(names, "gender");
    let mood = column_of(names, "mood");
    let meaning = column_of(names, "meaning");
    let tense = column_of(names, "tense");
    match (word, base, person, amount, imperfective, concrete, gender, mood, meaning, tense) {
        (
            Some(word),
            Some(base),
            Some(person),
            Some(amount),
            Some(imperfective),
            Some(concrete),
            Some(gender),
            Some(mood),
            Some(meaning),
            Some(tense),
        ) => Some(
            Columns {
                word,
                base,
                person,
                amount,
                imperfective,
                concrete,
                gender,
                mood,
                meaning,
                tense,
            },
        ),
        _ => None,
    }
}

/// The header as a model: the names of the columns.
pub open spec fn header_view(header: Option<&Vec<String>>) -> Option<Seq<Seq<char>>> {
    match header {
        Some(names) => Some(names.deep_view()),
        None => None,
    }
}

/// The text of the cell at `column`, if the row reaches that far.
fn text_at(row: &Vec<String>, column: Option<usize>) -> (text: Option<&str>)
    ensures
        text is Some <==> cell_at(row.deep_view(), column) is Some,
        text matches Some(inner) ==> cell_at(row.deep_view(), column) == Some(inner@),
{
    match column {
        Some(index) => if index < row.len() {
            assert(row.deep_view()[index as int] == row[index as int]@);
            Some(row[index].as_str())
        } else {
            None
        },
        None => None,
    }
}

/// Reads the cells of `row` at `columns` as an entry.
pub fn decode_row(columns: &Columns, row: &Vec<String>) -> (entry: Option<Entry>)
    ensures
        entry is Some <==> entry_of(columns.cells(row.deep_view())) is Some,
        entry matches Some(decoded) ==> entry_of(columns.cells(row.deep_view())) == Some(decoded@)
            && decoded@.well_formed(),
{
    let word = match text_at(row, columns.word) {
        Some(text) => String::from_str(text),
        None => {
            return None;
        },
    };
    let base = match text_at(row, columns.base) {
        Some(text) => String::from_str(text),
        None => {
            return None;
        },
    };
    let meaning = match text_at(row, columns.meaning) {
        Some(text) => String::from_str(text),
        None => {
            return None;
        },
    };
    let imperfective = match text_at(row, columns.imperfective) {
        Some(text) => match decode_flag(text) {
            Some(flag) => flag,
            None => {
                return None;
            },
        },
        None => {
            return None;
        },
    };
    let concrete = match text_at(row, columns.concrete) {
        Some(text) => match decode_flag(text) {
            Some(flag) => flag,
            None => {
                return None;
            },
        },
        None => {
            return None;
        },
    };
    let person = match text_at(row, columns.person) {
        Some(text) => if text.is_empty() {
            None
        } else {
            match decode_person(text) {
                Some(person) => Some(person),
                None => {
                    return None;
                },
            }
        },
        None => None,
    };
    let amount = match text_at(row, columns.amount) {
        Some(text) => if text.is_empty() {
            None
        } else {
            match decode_amount(text) {
                Some(amount) => Some(amount),
                None => {
                    return None;
                },
            }
        },
        None => None,
    };
    let gender = match text_at(row, columns.gender) {
        Some(text) => if text.is_empty() {
            None
        } else {
            match decode_gender(text) {
                Some(gender) => Some(gender),
                None => {
                    return None;
                },
            }
        },
        None => None,
    };
    let mood = match text_at(row, columns.mood) {
        Some(text) => if text.is_empty() {
            None
        } else {
            match decode_mood(text) {
                Some(mood) => Some(mood),
                None => {
                    return None;
                },
            }
        },
        None => None,
    };
    let tense = match text_at(row, columns.tense) {
        Some(text) => if text.is_empty() {
            None
        } else {
            match decode_tense(text) {
                Some(tense) => Some(tense),
                None => {
                    return None;
                },
            }
        },
        None => None,
    };
    Some(
        Entry {
            word,
            base,
            person,
            amount,
            imperfective,
            concrete,
            gender,
            mood,
            meaning,
            tense,
        },
    )
}

} // verus!

use verb_drill::dictionary::{
    parse, read_dictionary, Amount, DictionaryError, Entry, Gender, Mood, Tense,
};
use verb_drill::schema::{
    column_of, decode_amount, decode_flag, decode_gender, decode_mood, decode_person,
    decode_row, decode_tense, find_columns, Columns,
};

const HEADER: &str = "word,base,person,amount,imperfective,concrete,gender,mood,meaning,tense\n";

fn table(rows: &str) -> Vec<u8> {
    let mut text = String::from(HEADER);
    text.push_str(rows);
    text.into_bytes()
}

fn cells(row: &[&str]) -> Vec<String> {
    row.iter().map(|cell| String::from(*cell)).collect()
}

fn same(left: &Entry, right: &Entry) -> bool {
    left.word == right.word
        && left.base == right.base
        && left.person == right.person
        && left.amount == right.amount
        && left.imperfective == right.imperfective
        && left.concrete == right.concrete
        && left.gender == right.gender
        && left.mood == right.mood
        && left.meaning == right.meaning
        && left.tense == right.tense
}

fn robie() -> Entry {
    Entry {
        word: String::from("robi\u{119}"),
        base: String::from("robi\u{107}"),
        person: Some(1),
        amount: Some(Amount::Singular),
        imperfective: true,
        concrete: false,
        gender: None,
        mood: Some(Mood::Indicative),
        meaning: String::from("to do, to make"),
        tense: Some(Tense::Present),
    }
}

#[test]
fn parse_reads_the_rows_in_order() {
    let data = table(
        "robi\u{119},robi\u{107},1,Singular,true,false,,Indicative,\"to do, to make\",Present\n\
         robi\u{142}a,robi\u{107},,Singular,true,false,Feminine,Indicative,\"to do, to make\",Past\n\
         r\u{f3}b,robi\u{107},2,Singular,true,false,,Imperative,\"to do, to make\",\n",
    );
    let entries = parse(&data).unwrap();
    assert_eq!(entries.len(), 3);
    assert!(same(&entries[0], &robie()));
    let second = Entry {
        word: String::from("robi\u{142}a"),
        base: String::from("robi\u{107}"),
        person: None,
        amount: Some(Amount::Singular),
        imperfective: true,
        concrete: false,
        gender: Some(Gender::Feminine),
        mood: Some(Mood::Indicative),
        meaning: String::from("to do, to make"),
        tense: Some(Tense::Past),
    };
    assert!(same(&entries[1], &second));
    let third = Entry {
        word: String::from("r\u{f3}b"),
        base: String::from("robi\u{107}"),
        person: Some(2),
        amount: Some(Amount::Singular),
        imperfective: true,
        concrete: false,
        gender: None,
        mood: Some(Mood::Imperative),
        meaning: String::from("to do, to make"),
        tense: None,
    };
    assert!(same(&entries[2], &third));
}

#[test]
fn parse_of_nothing_is_an_empty_dictionary() {
    assert_eq!(parse(b"").unwrap().len(), 0);
    assert_eq!(parse(HEADER.as_bytes()).unwrap().len(), 0);
}

#[test]
fn parse_reads_quoted_cells() {
    let data = table("\"a \"\"word\"\"\",b,,,false,true,,,\"line one\nline two\",\n");
    let entries = parse(&data).unwrap();
    assert_eq!(entries.len(), 1);
    assert_eq!(entries[0].word, "a \"word\"");
    assert_eq!(entries[0].meaning, "line one\nline two");
    assert_eq!(entries[0].concrete, true);
    assert_eq!(entries[0].mood, None);
}

#[test]
fn parse_keeps_the_white_space_of_a_cell() {
    let data = table(" w ,b,,,false,true,,,m,\n");
    assert_eq!(parse(&data).unwrap()[0].word, " w ");
    let data = table("w,b,,,false, true,,,m,\n");
    assert_eq!(parse(&data).unwrap_err(), DictionaryError::FailedToParse);
}

#[test]
fn parse_goes_by_the_names_of_the_columns() {
    let data = "tense,mood,meaning,word,note,base,concrete,imperfective,amount,gender,person\n\
                Present,Indicative,\"to do, to make\",robi\u{119},x,robi\u{107},false,true,Singular,,1\n";
    let entries = parse(data.as_bytes()).unwrap();
    assert_eq!(entries.len(), 1);
    assert!(same(&entries[0], &robie()));
}

#[test]
fn parse_takes_a_missing_optional_column_for_absent() {
    let data = "word,base,imperfective,concrete,meaning\nw,b,true,false,m\n";
    let entries = parse(data.as_bytes()).unwrap();
    assert_eq!(entries.len(), 1);
    assert_eq!(entries[0].person, None);
    assert_eq!(entries[0].amount, None);
    assert_eq!(entries[0].gender, None);
    assert_eq!(entries[0].mood, None);
    assert_eq!(entries[0].tense, None);
    assert_eq!(entries[0].imperfective, true);
}

#[test]
fn parse_fails_on_a_missing_required_column() {
    for header in [
        "base,imperfective,concrete,meaning",
        "word,imperfective,concrete,meaning",
        "word,base,concrete,meaning",
        "word,base,imperfective,meaning",
        "word,base,imperfective,concrete",
    ] {
        let data = format!("{}\na,b,true,false\n", header);
        let swapped = data.replace("a,b,true,false", "true,false,a,b");
        assert_eq!(parse(data.as_bytes()).unwrap_err(), DictionaryError::FailedToParse);
        assert_eq!(parse(swapped.as_bytes()).unwrap_err(), DictionaryError::FailedToParse);
        assert_eq!(parse(format!("{}\n", header).as_bytes()).unwrap().len(), 0);
    }
}

#[test]
fn parse_fails_on_a_column_that_is_named_twice() {
    let data = "word,base,imperfective,concrete,meaning,word\nw,b,true,false,m,w\n";
    assert_eq!(parse(data.as_bytes()).unwrap_err(), DictionaryError::FailedToParse);
    let data = "word,base,imperfective,concrete,meaning,tense,tense\nw,b,true,false,m,,\n";
    assert_eq!(parse(data.as_bytes()).unwrap_err(), DictionaryError::FailedToParse);
    let data = "word,base,imperfective,concrete,meaning,note,note\nw,b,true,false,m,,\n";
    assert_eq!(parse(data.as_bytes()).unwrap().len(), 1);
}

#[test]
fn parse_fails_on_a_bad_flag() {
    for flag in ["", "True", "TRUE", "1", "yes", "false "] {
        let data = table(&format!("w,b,,,{},false,,,m,\n", flag));
        assert_eq!(parse(&data).unwrap_err(), DictionaryError::FailedToParse);
        let data = table(&format!("w,b,,,true,{},,,m,\n", flag));
        assert_eq!(parse(&data).unwrap_err(), DictionaryError::FailedToParse);
    }
}

#[test]
fn parse_fails_on_a_name_that_is_not_spelled_exactly() {
    for row in [
        "w,b,,singular,true,false,,,m,\n",
        "w,b,,Dual,true,false,,,m,\n",
        "w,b,,,true,false,masculine,,m,\n",
        "w,b,,,true,false,Neuter,,m,\n",
        "w,b,,,true,false,,indicative,m,\n",
        "w,b,,,true,false,,Subjunctive,m,\n",
        "w,b,,,true,false,,,m,present\n",
        "w,b,,,true,false,,,m,Past \n",
    ] {
        assert_eq!(parse(&table(row)).unwrap_err(), DictionaryError::FailedToParse);
    }
}

#[test]
fn parse_fails_on_a_row_of_another_length() {
    let data = table("w,b,,,true,false,,,m\n");
    assert_eq!(parse(&data).unwrap_err(), DictionaryError::FailedToParse);
    let data = table("w,b,,,true,false,,,m,,\n");
    assert_eq!(parse(&data).unwrap_err(), DictionaryError::FailedToParse);
}

#[test]
fn parse_fails_as_a_whole_on_one_bad_row() {
    let data = table(
        "w,b,,,true,false,,,m,\n\
         w,b,,,true,maybe,,,m,\n\
         w,b,,,true,false,,,m,\n",
    );
    assert_eq!(parse(&data).unwrap_err(), DictionaryError::FailedToParse);
}

#[test]
fn parse_fails_on_a_row_that_is_not_utf8() {
    let mut data = table("");
    data.extend_from_slice(b"w\xff,b,,,true,false,,,m,\n");
    assert_eq!(parse(&data).unwrap_err(), DictionaryError::FailedToParse);
}

#[test]
fn parse_goes_by_position_under_a_header_that_is_not_utf8() {
    let mut data = Vec::new();
    data.extend_from_slice(b"tense\xff,b,c,d,e,f,g,h,i,j\n");
    data.extend_from_slice(
        "robi\u{119},robi\u{107},1,Singular,true,false,,Indicative,\"to do, to make\",Present\n"
            .as_bytes(),
    );
    let entries = parse(&data).unwrap();
    assert_eq!(entries.len(), 1);
    assert!(same(&entries[0], &robie()));

    let mut short = Vec::new();
    short.extend_from_slice(b"a\xff,b,c\n");
    short.extend_from_slice(b"w,b,1\n");
    assert_eq!(parse(&short).unwrap_err(), DictionaryError::FailedToParse);
}

#[test]
fn parse_reads_the_three_persons() {
    for (text, person) in [
        ("1", 1u8),
        ("2", 2),
        ("3", 3),
        ("+3", 3),
        ("003", 3),
        ("0x3", 3),
        ("0x+2", 2),
        ("0x0001", 1),
    ] {
        let data = table(&format!("w,b,{},,true,false,,,m,\n", text));
        assert_eq!(parse(&data).unwrap()[0].person, Some(person));
    }
}

#[test]
fn parse_fails_on_a_person_that_is_none_of_the_three() {
    for text in [
        "0", "4", "7", "10", "255", "256", "1000", "-1", "+", "++1", "1+", "one", " 1", "1 ",
        "1.0", "0x", "0x+", "0X1", "0x4", "0xa", "0x100", "0xg", "x1", "1_0", "\u{661}",
    ] {
        let data = table(&format!("w,b,{},,true,false,,,m,\n", text));
        assert_eq!(parse(&data).unwrap_err(), DictionaryError::FailedToParse);
    }
}

#[test]
fn read_dictionary_reads_rows_under_a_header() {
    let header = cells(&["word", "base", "person", "imperfective", "concrete", "meaning", "mood"]);
    let rows = vec![
        cells(&["w1", "b", "3", "true", "true", "m", "Imperative"]),
        cells(&["w2", "b", "", "false", "true", "m", ""]),
    ];
    let entries = read_dictionary(Some(&header), &rows).unwrap();
    assert_eq!(entries.len(), 2);
    assert_eq!(entries[0].word, "w1");
    assert_eq!(entries[0].person, Some(3));
    assert_eq!(entries[0].mood, Some(Mood::Imperative));
    assert_eq!(entries[1].word, "w2");
    assert_eq!(entries[1].person, None);
    assert_eq!(entries[1].mood, None);
    assert_eq!(entries[1].imperfective, false);
}

#[test]
fn read_dictionary_reads_rows_by_position() {
    let rows = vec![cells(&[
        "w", "b", "2", "Plural", "false", "true", "Neutral", "Indicative", "m", "Future", "more",
    ])];
    let entries = read_dictionary(None, &rows).unwrap();
    let expected = Entry {
        word: String::from("w"),
        base: String::from("b"),
        person: Some(2),
        amount: Some(Amount::Plural),
        imperfective: false,
        concrete: true,
        gender: Some(Gender::Neutral),
        mood: Some(Mood::Indicative),
        meaning: String::from("m"),
        tense: Some(Tense::Future),
    };
    assert!(same(&entries[0], &expected));
    let short = vec![cells(&["w", "b", "2", "Plural", "false", "true", "Neutral", "Indicative", "m"])];
    assert_eq!(read_dictionary(None, &short).unwrap_err(), DictionaryError::FailedToParse);
}

#[test]
fn read_dictionary_wants_one_cell_for_each_column() {
    let header = cells(&["word", "base", "imperfective", "concrete", "meaning"]);
    let short = vec![cells(&["w", "b", "true", "true"])];
    assert_eq!(read_dictionary(Some(&header), &short).unwrap_err(), DictionaryError::FailedToParse);
    let long = vec![cells(&["w", "b", "true", "true", "m", ""])];
    assert_eq!(read_dictionary(Some(&header), &long).unwrap_err(), DictionaryError::FailedToParse);
    let none: Vec<Vec<String>> = Vec::new();
    assert_eq!(read_dictionary(Some(&header), &none).unwrap().len(), 0);
}

#[test]
fn cells_decode_as_their_fields() {
    assert_eq!(decode_flag("true"), Some(true));
    assert_eq!(decode_flag("false"), Some(false));
    assert_eq!(decode_flag("t"), None);
    assert_eq!(decode_amount("Singular"), Some(Amount::Singular));
    assert_eq!(decode_amount("Plural"), Some(Amount::Plural));
    assert_eq!(decode_amount(""), None);
    assert_eq!(decode_gender("Masculine"), Some(Gender::Masculine));
    assert_eq!(decode_gender("Neutral"), Some(Gender::Neutral));
    assert_eq!(decode_gender("Feminine"), Some(Gender::Feminine));
    assert_eq!(decode_gender("feminine"), None);
    assert_eq!(decode_mood("Indicative"), Some(Mood::Indicative));
    assert_eq!(decode_mood("Imperative"), Some(Mood::Imperative));
    assert_eq!(decode_mood("Mood"), None);
    assert_eq!(decode_tense("Present"), Some(Tense::Present));
    assert_eq!(decode_tense("Past"), Some(Tense::Past));
    assert_eq!(decode_tense("Future"), Some(Tense::Future));
    assert_eq!(decode_tense("Pluperfect"), None);
}

/// The three persons among the numbers of a byte.
fn person(number: Option<u8>) -> Option<u8> {
    number.filter(|number| (1..=3).contains(number))
}

#[test]
fn decode_person_reads_numbers_as_the_standard_library_does() {
    let texts = [
        "", "0", "1", "2", "3", "4", "9", "10", "11", "99", "100", "255", "256", "257", "258",
        "259", "300", "999", "01", "0003", "00000000000000000002", "00000000000000000256",
        "00000000000000000258", "+0", "+1", "+3", "+4", "-0", "-1", "3a", "a3", "1 2",
        "4294967297", "18446744073709551617",
    ];
    for text in texts {
        assert_eq!(decode_person(text), person(text.parse::<u8>().ok()), "{}", text);
    }
    let digits = [
        "", "0", "1", "2", "3", "4", "9", "a", "f", "A", "F", "g", "G", "ff", "101", "102", "03",
        "+3", "+", "-1", "1g", "0000000000000003", "000000000000101", "10000000000000001",
    ];
    for text in digits {
        assert_eq!(
            decode_person(&format!("0x{}", text)),
            person(u8::from_str_radix(text, 16).ok()),
            "0x{}",
            text
        );
    }
}

fn positional() -> Columns {
    Columns {
        word: Some(0),
        base: Some(1),
        person: Some(2),
        amount: Some(3),
        imperfective: Some(4),
        concrete: Some(5),
        gender: Some(6),
        mood: Some(7),
        meaning: Some(8),
        tense: Some(9),
    }
}

#[test]
fn columns_are_found_by_name() {
    let header = cells(&["base", "word", "other", "word2", "other"]);
    assert_eq!(column_of(&header, "word"), Some(Some(1)));
    assert_eq!(column_of(&header, "base"), Some(Some(0)));
    assert_eq!(column_of(&header, "tense"), Some(None));
    assert_eq!(column_of(&header, "other"), None);
    let columns = find_columns(Some(&header)).unwrap();
    assert_eq!(
        columns,
        Columns {
            word: Some(1),
            base: Some(0),
            person: None,
            amount: None,
            imperfective: None,
            concrete: None,
            gender: None,
            mood: None,
            meaning: None,
            tense: None,
        }
    );
    let twice = cells(&["word", "base", "base"]);
    assert!(find_columns(Some(&twice)).is_none());
    assert_eq!(find_columns(None), Some(positional()));
}

#[test]
fn decode_row_reads_the_cells_at_the_columns() {
    let columns = positional();
    let row = cells(&["w", "b", "", "", "true", "false", "", "", "m", ""]);
    let entry = decode_row(&columns, &row).unwrap();
    assert_eq!(entry.word, "w");
    assert_eq!(entry.base, "b");
    assert_eq!(entry.meaning, "m");
    assert_eq!(entry.person, None);
    assert_eq!(entry.imperfective, true);
    assert_eq!(entry.concrete, false);
    let bad = cells(&["w", "b", "x", "", "true", "false", "", "", "m", ""]);
    assert!(decode_row(&columns, &bad).is_none());
}

#[test]
fn decode_row_takes_a_cell_that_the_row_lacks_for_missing() {
    let columns = positional();
    let short = cells(&["w", "b", "", "", "true", "false", "", "", "m"]);
    let entry = decode_row(&columns, &short).unwrap();
    assert_eq!(entry.tense, None);
    let shorter = cells(&["w", "b", "", "", "true", "false", "", ""]);
    assert!(decode_row(&columns, &shorter).is_none());
}

/// What the csv crate itself reads of a number of a byte and a flag in one
/// record.
fn csv_reads(person: &str, flag: &str) -> Option<(Option<u8>, bool)> {
    let data = format!("person,flag\n{},{}\n", person, flag);
    let mut reader = csv::Reader::from_reader(data.as_bytes());
    let mut records = reader.deserialize::<(Option<u8>, bool)>();
    match records.next() {
        Some(Ok(pair)) => Some(pair),
        _ => None,
    }
}

#[test]
fn numbers_and_flags_read_as_the_csv_crate_reads_them() {
    let persons = [
        "", "0", "1", "2", "3", "9", "10", "255", "256", "0255", "+1", "+", "-1", "++1", " 1",
        "1 ", "a", "0x", "0x1", "0xff", "0xFF", "0x100", "0x+f", "0X1", "0x-1", "0x0x1", "x",
        "1e1", "\u{662}",
    ];
    let flags = ["true", "false", "", "True", "FALSE", "0", "1", "t", " true", "truefalse"];
    for person in persons {
        for flag in flags {
            let data = format!(
                "person,imperfective,word,base,concrete,meaning\n{},{},w,b,true,m\n",
                person, flag
            );
            let ours = parse(data.as_bytes())
                .ok()
                .map(|entries| (entries[0].person, entries[0].imperfective));
            let theirs = csv_reads(person, flag)
                .filter(|(number, _)| number.map_or(true, |number| (1..=3).contains(&number)));
            assert_eq!(ours, theirs, "{:?} {:?}", person, flag);
        }
    }
}

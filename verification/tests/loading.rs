use address_generator::loader::{import_csv, record_from_fields, ParseError};
use address_generator::record::Record;

fn record(kanji: &str, kana: &str) -> Record {
    Record { name_kanji: kanji.to_string(), name_kana: kana.to_string() }
}

fn row(fields: &[&str]) -> Vec<String> {
    fields.iter().map(|f| f.to_string()).collect()
}

#[test]
fn three_rows_load_in_file_order() {
    let data = "東京都,とうきょうと\n大阪府,おおさかふ\n京都府,きょうとふ\n";
    let table = import_csv(data.as_bytes()).unwrap();
    assert_eq!(
        table,
        vec![
            record("東京都", "とうきょうと"),
            record("大阪府", "おおさかふ"),
            record("京都府", "きょうとふ"),
        ]
    );
}

#[test]
fn first_row_is_data_not_a_header() {
    let table = import_csv(b"name_kanji,name_kana\nA,a\n").unwrap();
    assert_eq!(table.len(), 2);
    assert_eq!(table[0], record("name_kanji", "name_kana"));
    assert_eq!(table[1], record("A", "a"));
}

#[test]
fn last_row_needs_no_line_end() {
    let table = import_csv(b"A,a\nB,b").unwrap();
    assert_eq!(table, vec![record("A", "a"), record("B", "b")]);
}

#[test]
fn empty_text_is_an_empty_table() {
    assert_eq!(import_csv(b""), Ok(vec![]));
}

#[test]
fn empty_fields_are_accepted() {
    let table = import_csv(b",\nA,\n,a\n").unwrap();
    assert_eq!(table, vec![record("", ""), record("A", ""), record("", "a")]);
}

#[test]
fn quoted_fields_may_hold_commas_and_quotes() {
    let table = import_csv(b"\"A,B\",\"say \"\"a\"\"\"\n").unwrap();
    assert_eq!(table, vec![record("A,B", "say \"a\"")]);
}

#[test]
fn duplicate_rows_are_kept() {
    let table = import_csv(b"A,a\nA,a\n").unwrap();
    assert_eq!(table, vec![record("A", "a"), record("A", "a")]);
}

#[test]
fn row_with_one_field_is_a_parse_error() {
    assert_eq!(import_csv("東京都\n".as_bytes()), Err(ParseError::FieldCount { row: 0 }));
}

#[test]
fn rows_with_three_fields_are_a_parse_error() {
    assert_eq!(import_csv(b"A,a,x\nB,b,y\n"), Err(ParseError::FieldCount { row: 0 }));
}

#[test]
fn short_row_after_a_full_row_is_a_parse_error() {
    assert_eq!(import_csv(b"A,a\nB\n"), Err(ParseError::Syntax { row: 1 }));
}

#[test]
fn long_row_after_a_full_row_is_a_parse_error() {
    assert_eq!(import_csv(b"A,a\nB,b\nC,c,x\nD,d\n"), Err(ParseError::Syntax { row: 2 }));
}

#[test]
fn invalid_utf8_is_a_parse_error() {
    assert_eq!(import_csv(&[0x41, 0x2c, 0xff, 0xfe, 0x0a]), Err(ParseError::Syntax { row: 0 }));
    assert_eq!(import_csv(b"A,a\nB,\xff\n"), Err(ParseError::Syntax { row: 1 }));
}

#[test]
fn loading_stops_at_the_first_error() {
    assert_eq!(import_csv(b"A\nB,\xff\n"), Err(ParseError::FieldCount { row: 0 }));
    assert_eq!(import_csv(b"A,a\n\xff,b\nC\n"), Err(ParseError::Syntax { row: 1 }));
}

#[test]
fn blank_lines_are_not_rows() {
    let table = import_csv(b"A,a\n\nB,b\n\n").unwrap();
    assert_eq!(table, vec![record("A", "a"), record("B", "b")]);
}

#[test]
fn two_fields_become_a_record() {
    assert_eq!(record_from_fields(&row(&["A", "a"])), Some(record("A", "a")));
    assert_eq!(record_from_fields(&row(&["東京都", "とうきょうと"])), Some(record("東京都", "とうきょうと")));
    assert_eq!(record_from_fields(&row(&["", ""])), Some(record("", "")));
}

#[test]
fn other_field_counts_are_not_records() {
    assert_eq!(record_from_fields(&row(&[])), None);
    assert_eq!(record_from_fields(&row(&["A"])), None);
    assert_eq!(record_from_fields(&row(&["A", "a", "x"])), None);
}

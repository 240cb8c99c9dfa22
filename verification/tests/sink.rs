use bear_rs::json::{frame_object, render_record};
use bear_rs::record::CompileRecord;
use bear_rs::sink::{Sink, SinkError, SinkState};
use serde_json::Value;

fn record(directory: &str, command: &str, file: &str) -> CompileRecord {
    CompileRecord {
        directory: directory.to_string(),
        command: command.to_string(),
        file: file.to_string(),
    }
}

fn written(records: &[CompileRecord]) -> String {
    let (mut sink, mut text) = Sink::open();
    for r in records {
        text.push_str(&sink.push(r).unwrap());
    }
    text.push_str(&sink.close().unwrap());
    text
}

fn member(object: &Value, name: &str) -> String {
    object.get(name).and_then(Value::as_str).unwrap().to_string()
}

fn read_back(text: &str) -> Vec<CompileRecord> {
    let parsed: Value = serde_json::from_str(text).unwrap();
    let mut records = Vec::new();
    for object in parsed.as_array().unwrap() {
        assert_eq!(object.as_object().unwrap().len(), 3);
        records.push(CompileRecord {
            directory: member(object, "directory"),
            command: member(object, "command"),
            file: member(object, "file"),
        });
    }
    records
}

#[test]
fn array_without_records_is_two_brackets() {
    let (mut sink, opening) = Sink::open();
    assert_eq!(opening, "[\n");
    assert_eq!(sink.state(), SinkState::BeforeFirst);
    assert_eq!(sink.close(), Ok("\n]\n".to_string()));
    assert_eq!(sink.state(), SinkState::Closed);
    assert_eq!(written(&[]), "[\n\n]\n");
    assert_eq!(read_back(&written(&[])), Vec::new());
}

#[test]
fn single_record_has_no_comma_beside_it() {
    let one = record("/src", "/usr/bin/gcc -c -o foo.o foo.c", "foo.c");
    let text = written(&[one.clone()]);
    assert_eq!(
        text,
        "[\n{\n  \"directory\": \"/src\",\n  \"command\": \"/usr/bin/gcc -c -o foo.o foo.c\",\n  \"file\": \"foo.c\"\n}\n]\n"
    );
    assert!(!text.contains("[\n,"));
    assert!(!text.contains(",\n]"));
    assert!(!text.contains("},"));
    assert_eq!(read_back(&text), vec![one]);
}

#[test]
fn three_records_come_back_in_the_order_pushed() {
    let r1 = record("/a", "/usr/bin/cc -c -o 1.o 1.c", "1.c");
    let r2 = record("/b", "/usr/bin/g++ -c -o 2.o 2.cpp", "2.cpp");
    let r3 = record("/c", "/usr/bin/clang -c -o 3.o 3.cc", "");
    let text = written(&[r1.clone(), r2.clone(), r3.clone()]);
    assert_eq!(read_back(&text), vec![r1.clone(), r2.clone(), r3.clone()]);
    let expected = format!(
        "[\n{},\n{},\n{}\n]\n",
        render_record(&r1),
        render_record(&r2),
        render_record(&r3)
    );
    assert_eq!(text, expected);
}

#[test]
fn comma_stands_before_every_entry_but_the_first() {
    let r = record("/d", "c", "f");
    let (mut sink, _) = Sink::open();
    let first = sink.push(&r).unwrap();
    assert_eq!(sink.state(), SinkState::AfterFirst);
    let second = sink.push(&r).unwrap();
    assert_eq!(sink.state(), SinkState::AfterFirst);
    assert_eq!(first, render_record(&r));
    assert_eq!(second, format!(",\n{}", render_record(&r)));
}

#[test]
fn closed_sink_refuses_a_push() {
    let r = record("/d", "c", "f");
    let (mut sink, _) = Sink::open();
    sink.push(&r).unwrap();
    sink.close().unwrap();
    assert_eq!(sink.push(&r), Err(SinkError::SinkClosed));
    assert_eq!(sink.state(), SinkState::Closed);
}

#[test]
fn closed_sink_refuses_a_second_close() {
    let (mut sink, _) = Sink::open();
    assert!(sink.close().is_ok());
    assert_eq!(sink.close(), Err(SinkError::SinkClosed));
    assert_eq!(sink.state(), SinkState::Closed);
}

#[test]
fn array_that_is_not_closed_is_not_json() {
    let (mut sink, mut text) = Sink::open();
    text.push_str(&sink.push(&record("/d", "c", "f")).unwrap());
    assert!(serde_json::from_str::<Value>(&text).is_err());
    text.push_str(&sink.close().unwrap());
    assert!(serde_json::from_str::<Value>(&text).is_ok());
}

#[test]
fn quote_backslash_and_newline_survive() {
    let r = record(
        "C:\\build dir",
        "/usr/bin/gcc -DNAME=\"a\\b\" -c -o x.o x.c\nnext",
        "x \"y\".c",
    );
    let text = written(&[r.clone()]);
    assert_eq!(read_back(&text), vec![r]);
}

#[test]
fn control_and_other_characters_survive() {
    let r = record(
        "/t\tab\r\n",
        "\u{0}\u{1}\u{8}\u{c}\u{1f}\u{7f} / \u{e9}\u{4e2d}\u{1f600}",
        "",
    );
    let text = written(&[r.clone(), r.clone()]);
    assert_eq!(read_back(&text), vec![r.clone(), r]);
}

#[test]
fn object_holds_escaped_strings() {
    let r = record("/src", "say \"hi\"\\\n", "a.c");
    assert_eq!(
        render_record(&r),
        "{\n  \"directory\": \"/src\",\n  \"command\": \"say \\\"hi\\\"\\\\\\n\",\n  \"file\": \"a.c\"\n}"
    );
}

#[test]
fn object_of_empty_fields() {
    assert_eq!(
        render_record(&record("", "", "")),
        "{\n  \"directory\": \"\",\n  \"command\": \"\",\n  \"file\": \"\"\n}"
    );
}

#[test]
fn frame_puts_three_members_on_three_lines() {
    assert_eq!(
        frame_object("1", "[2]", "\"3\""),
        "{\n  \"directory\": 1,\n  \"command\": [2],\n  \"file\": \"3\"\n}"
    );
}

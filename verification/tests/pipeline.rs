use bear_rs::classify::{classify, ClassificationOutcome};
use bear_rs::pipeline::process_line;
use bear_rs::reason::ReasonCode;
use bear_rs::record::CompileRecord;
use bear_rs::sink::{Sink, SinkError, SinkState};
use serde_json::Value;

fn run(lines: &[&str], directory: &str) -> String {
    let (mut sink, mut text) = Sink::open();
    for line in lines {
        text.push_str(&process_line(line, directory, &mut sink).unwrap().output);
    }
    text.push_str(&sink.close().unwrap());
    text
}

#[test]
fn accepted_line_is_pushed() {
    let line = "/usr/bin/gcc -c -o foo.o foo.c";
    let (mut sink, _) = Sink::open();
    let report = process_line(line, "/src", &mut sink).unwrap();
    assert_eq!(report.outcome, classify(line, "/src"));
    assert_eq!(
        report.output,
        "{\n  \"directory\": \"/src\",\n  \"command\": \"/usr/bin/gcc -c -o foo.o foo.c\",\n  \"file\": \"foo.c\"\n}"
    );
    assert_eq!(sink.state(), SinkState::AfterFirst);
    let again = process_line(line, "/src", &mut sink).unwrap();
    assert_eq!(again.output, format!(",\n{}", report.output));
}

#[test]
fn rejected_line_writes_nothing() {
    let (mut sink, _) = Sink::open();
    let report = process_line("make[1]: Entering directory '/src'", "/src", &mut sink).unwrap();
    assert_eq!(report.output, "");
    assert_eq!(sink.state(), SinkState::BeforeFirst);
    match report.outcome {
        ClassificationOutcome::Rejected { reasons } => {
            assert!(reasons.contains(ReasonCode::MissingCompileFlag));
            assert!(reasons.contains(ReasonCode::MissingOutputFlag));
            assert!(reasons.contains(ReasonCode::MissingSourceExtension));
            assert!(reasons.contains(ReasonCode::NotACompilerInvocation));
            assert!(!reasons.contains(ReasonCode::LooksLikeBuildSystemNoise));
        }
        ClassificationOutcome::Accepted { record } => panic!("accepted: {:?}", record),
    }
}

#[test]
fn closed_sink_fails_an_accepted_line_only() {
    let (mut sink, _) = Sink::open();
    sink.close().unwrap();
    assert_eq!(
        process_line("/usr/bin/gcc -c -o foo.o foo.c", "/src", &mut sink),
        Err(SinkError::SinkClosed)
    );
    let report = process_line("ar rcs libfoo.a foo.o", "/src", &mut sink).unwrap();
    assert_eq!(report.output, "");
    assert_eq!(sink.state(), SinkState::Closed);
}

#[test]
fn run_without_accepted_lines_gives_an_empty_array() {
    assert_eq!(run(&[], "/src"), "[\n\n]\n");
    let text = run(&["make: Nothing to be done for 'all'.", "", "ld -o app main.o"], "/src");
    assert_eq!(text, "[\n\n]\n");
    let parsed: Value = serde_json::from_str(&text).unwrap();
    assert_eq!(parsed.as_array().map(Vec::len), Some(0));
}

#[test]
fn run_keeps_accepted_lines_in_order_between_other_lines() {
    let lines = [
        "make[1]: Entering directory '/src'",
        "/usr/bin/gcc -c -o foo.o foo.c",
        "echo \"done\"",
        "/usr/bin/g++ -c -o bar.o bar.cpp -I/usr/include",
        "/usr/bin/g++ -o app foo.o bar.o",
        "/usr/bin/clang -DMSG=\"a \\\"b\\\"\" -c -o baz.o baz.cc",
    ];
    let text = run(&lines, "/src");
    let parsed: Value = serde_json::from_str(&text).unwrap();
    let entries = parsed.as_array().unwrap();
    let mut records = Vec::new();
    for entry in entries {
        records.push(CompileRecord {
            directory: entry.get("directory").and_then(Value::as_str).unwrap().to_string(),
            command: entry.get("command").and_then(Value::as_str).unwrap().to_string(),
            file: entry.get("file").and_then(Value::as_str).unwrap().to_string(),
        });
    }
    let expected: Vec<CompileRecord> = [(1, "foo.c"), (3, "bar.cpp"), (5, "baz.cc")]
        .iter()
        .map(|(i, file)| CompileRecord {
            directory: "/src".to_string(),
            command: lines[*i].to_string(),
            file: file.to_string(),
        })
        .collect();
    assert_eq!(records, expected);
}

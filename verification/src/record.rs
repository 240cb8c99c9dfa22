//! The entry that is written for one compiler invocation.

use vstd::prelude::*;

verus! {

/// One compilation: where it ran, the command line as it was seen, and the
/// source file that it compiles.
#[derive(Clone, Debug, PartialEq, Eq)]
pub struct CompileRecord {
    /// The working directory of the build.
    pub directory: String,
    /// The line that was seen, unchanged.
    pub command: String,
    /// The source file named on the line; empty where none was found.
    pub file: String,
}

/// A [`CompileRecord`] as three sequences of characters.
pub ghost struct RecordView {
    pub directory: Seq<char>,
    pub command: Seq<char>,
    pub file: Seq<char>,
}

impl View for CompileRecord {
    type V = RecordView;

    open spec fn view(&self) -> RecordView {
        RecordView { directory: self.directory@, command: self.command@, file: self.file@ }
    }
}

/// The file that a record carries for a line on which the search for a source
/// file gave `source`: the text found, or nothing.
pub open spec fn file_field(source: Option<Seq<char>>) -> Seq<char> {
    match source {
        Some(name) => name,
        None => Seq::empty(),
    }
}

/// The record of `line`, seen in `directory`, with the source file that the
/// search gave.
pub open spec fn record_of(directory: Seq<char>, line: Seq<char>, source: Option<Seq<char>>)
    -> RecordView {
    RecordView { directory, command: line, file: file_field(source) }
}

/// The characters of a source file's name, where one was found.
pub open spec fn source_view(source: Option<String>) -> Option<Seq<char>> {
    match source {
        Some(name) => Some(name@),
        None => None,
    }
}

/// Builds the record of an accepted line. `source` is what the search for a
/// source file gave; without one the record's `file` is empty.
pub fn build_record(directory: &str, line: &str, source: Option<String>) -> (record: CompileRecord)
    ensures
        record@ == record_of(directory@, line@, source_view(source)),
{
    let file = match source {
        Some(name) => name,
        None => String::new(),
    };
    CompileRecord { directory: directory.to_owned(), command: line.to_owned(), file }
}

} // verus!

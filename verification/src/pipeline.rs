//! One line of build output, from the classifier into the sink.

use vstd::prelude::*;
use crate::classify::{classification, classify, ClassificationOutcome, OutcomeView};
use crate::json::object_text;
use crate::record::RecordView;
use crate::sink::{
    document, law_close_completes, law_empty_array, law_push_appends, separator, Sink, SinkError,
    SinkState, SinkView,
};

verus! {

/// What one line led to.
#[derive(Clone, Debug, PartialEq, Eq)]
pub struct LineReport {
    /// What the classifier made of the line.
    pub outcome: ClassificationOutcome,
    /// The text to write to the destination next; empty for a rejected line.
    pub output: String,
}

/// A line of build output and the directory in which it was seen.
pub ghost struct SeenLine {
    pub line: Seq<char>,
    pub directory: Seq<char>,
}

/// The sink after a line: an accepted line adds its record, a rejected line
/// adds nothing.
pub open spec fn after_line(sink: SinkView, line: Seq<char>, directory: Seq<char>) -> SinkView {
    match classification(line, directory) {
        OutcomeView::Accepted { record } => sink.pushed(record),
        OutcomeView::Rejected { reasons } => sink,
    }
}

/// The text that a line adds to the destination of a sink in `state`: the
/// entry of an accepted line, nothing for a rejected line.
pub open spec fn output_of_line(state: SinkState, line: Seq<char>, directory: Seq<char>) -> Seq<
    char,
> {
    match classification(line, directory) {
        OutcomeView::Accepted { record } => separator(state) + object_text(record),
        OutcomeView::Rejected { reasons } => Seq::empty(),
    }
}

/// The sink after the lines `seen`, oldest first.
pub open spec fn after_lines(sink: SinkView, seen: Seq<SeenLine>) -> SinkView
    decreases seen.len(),
{
    if seen.len() == 0 {
        sink
    } else {
        after_line(after_lines(sink, seen.drop_last()), seen.last().line, seen.last().directory)
    }
}

/// The records of the accepted lines among `seen`, in the order of the lines.
pub open spec fn records_of(seen: Seq<SeenLine>) -> Seq<RecordView>
    decreases seen.len(),
{
    if seen.len() == 0 {
        Seq::empty()
    } else {
        match classification(seen.last().line, seen.last().directory) {
            OutcomeView::Accepted { record } => records_of(seen.drop_last()).push(record),
            OutcomeView::Rejected { reasons } => records_of(seen.drop_last()),
        }
    }
}

/// Classifies `line`, seen in `directory`, and pushes its record into `sink`
/// where it is accepted. A rejected line leaves the sink as it is and gives no
/// output. Only an accepted line that meets a closed sink fails, with
/// [`SinkError::SinkClosed`], and the sink stays as it is.
pub fn process_line(line: &str, directory: &str, sink: &mut Sink) -> (step: Result<
    LineReport,
    SinkError,
>)
    ensures
        step is Err <==> old(sink)@.state == SinkState::Closed && classification(
            line@,
            directory@,
        ) is Accepted,
        match step {
            Ok(report) => {
                &&& report.outcome@ == classification(line@, directory@)
                &&& report.output@ == output_of_line(old(sink)@.state, line@, directory@)
                &&& final(sink)@ == after_line(old(sink)@, line@, directory@)
                &&& final(sink)@.written() == old(sink)@.written() + report.output@
            },
            Err(error) => {
                &&& error == SinkError::SinkClosed
                &&& final(sink)@ == old(sink)@
            },
        },
{
    let outcome = classify(line, directory);
    let output = match &outcome {
        ClassificationOutcome::Accepted { record } => match sink.push(record) {
            Ok(chunk) => chunk,
            Err(error) => {
                return Err(error);
            },
        },
        ClassificationOutcome::Rejected { reasons: _ } => String::new(),
    };
    assert(sink@.written() + Seq::<char>::empty() =~= sink@.written());
    Ok(LineReport { outcome, output })
}

/// Every accepted line gives one record and no other line gives any: after any
/// lines a new sink holds the records of the accepted ones, in the order of the
/// lines, and once it is closed the text written is the array of those records.
pub proof fn law_one_record_for_each_accepted_line(seen: Seq<SeenLine>)
    ensures
        after_lines(SinkView::opened(), seen).records == records_of(seen),
        after_lines(SinkView::opened(), seen).consistent(),
        after_lines(SinkView::opened(), seen).state != SinkState::Closed,
        after_lines(SinkView::opened(), seen).closed().written() == document(records_of(seen)),
    decreases seen.len(),
{
    if seen.len() > 0 {
        let before = after_lines(SinkView::opened(), seen.drop_last());
        law_one_record_for_each_accepted_line(seen.drop_last());
        match classification(seen.last().line, seen.last().directory) {
            OutcomeView::Accepted { record } => {
                law_push_appends(before, record);
            },
            OutcomeView::Rejected { reasons } => {},
        }
    }
    law_close_completes(after_lines(SinkView::opened(), seen));
}

/// A run without an accepted line leaves a new sink without records, and once
/// it is closed the text written is the empty array.
pub proof fn law_rejected_lines_add_nothing(seen: Seq<SeenLine>)
    requires
        forall|i: int|
            0 <= i < seen.len() ==> #[trigger] classification(
                seen[i].line,
                seen[i].directory,
            ) is Rejected,
    ensures
        records_of(seen) == Seq::<RecordView>::empty(),
        after_lines(SinkView::opened(), seen) == SinkView::opened(),
        after_lines(SinkView::opened(), seen).closed().written() == "[\n\n]\n"@,
    decreases seen.len(),
{
    law_empty_array();
    if seen.len() > 0 {
        let rest = seen.drop_last();
        assert forall|i: int| 0 <= i < rest.len() implies #[trigger] classification(
            rest[i].line,
            rest[i].directory,
        ) is Rejected by {
            assert(rest[i] == seen[i]);
        }
        law_rejected_lines_add_nothing(rest);
        assert(classification(seen[seen.len() - 1].line, seen[seen.len() - 1].directory) is Rejected);
    }
}

} // verus!

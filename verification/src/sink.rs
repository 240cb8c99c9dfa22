//! Writing the records as a JSON array, one entry at a time.
//!
//! A [`Sink`] writes nothing itself. Each of its operations returns the text
//! that belongs at the end of the destination, and the caller writes it there:
//! the array's opening, each entry with the comma that it needs before it, and
//! the array's closing. What has been handed out so far is always the start of
//! a JSON array of the records pushed, and after [`Sink::close`] it is the
//! whole array. A destination that never gets the closing text holds an array
//! without its end.

use vstd::prelude::*;
use vstd::string::StringExecFns;
use crate::json::{object_text, render_record};
use crate::record::{CompileRecord, RecordView};

verus! {

/// How far the array has been written.
#[derive(Clone, Copy, Debug, PartialEq, Eq, Structural)]
pub enum SinkState {
    /// The array is open and has no entry yet.
    BeforeFirst,
    /// The array is open and has at least one entry.
    AfterFirst,
    /// The array is closed.
    Closed,
}

/// Why a sink refuses an operation.
#[derive(Clone, Copy, Debug, PartialEq, Eq, Structural)]
pub enum SinkError {
    /// The array is closed already.
    SinkClosed,
}

/// A sink as its state and the records pushed so far, oldest first.
pub ghost struct SinkView {
    pub state: SinkState,
    pub records: Seq<RecordView>,
}

/// The text before an entry that is written in `state`: nothing before the
/// first entry, a comma and a line break before every other.
pub open spec fn separator(state: SinkState) -> Seq<char> {
    if state == SinkState::BeforeFirst {
        Seq::empty()
    } else {
        ",\n"@
    }
}

/// The entries of the array: the records' objects in order, a comma and a
/// line break between each two of them.
pub open spec fn entries(records: Seq<RecordView>) -> Seq<char>
    decreases records.len(),
{
    if records.len() == 0 {
        Seq::empty()
    } else if records.len() == 1 {
        object_text(records[0])
    } else {
        entries(records.drop_last()) + ",\n"@ + object_text(records.last())
    }
}

/// An array of the records that is not closed yet.
pub open spec fn open_document(records: Seq<RecordView>) -> Seq<char> {
    "[\n"@ + entries(records)
}

/// The whole array of the records.
pub open spec fn document(records: Seq<RecordView>) -> Seq<char> {
    open_document(records) + "\n]\n"@
}

impl SinkView {
    /// A sink that was just opened.
    pub open spec fn opened() -> SinkView {
        SinkView { state: SinkState::BeforeFirst, records: Seq::empty() }
    }

    /// The sink after one more record.
    pub open spec fn pushed(self, record: RecordView) -> SinkView {
        SinkView { state: SinkState::AfterFirst, records: self.records.push(record) }
    }

    /// The sink after the array's end.
    pub open spec fn closed(self) -> SinkView {
        SinkView { state: SinkState::Closed, records: self.records }
    }

    /// The state says whether there are records: none before the first entry,
    /// some after it.
    pub open spec fn consistent(self) -> bool {
        &&& self.state == SinkState::BeforeFirst ==> self.records.len() == 0
        &&& self.state == SinkState::AfterFirst ==> self.records.len() > 0
    }

    /// All the text that the sink has handed out, from the opening on.
    pub open spec fn written(self) -> Seq<char> {
        if self.state == SinkState::Closed {
            document(self.records)
        } else {
            open_document(self.records)
        }
    }
}

/// The sink after `records` were pushed into a new one, in order.
pub open spec fn after_pushes(records: Seq<RecordView>) -> SinkView
    decreases records.len(),
{
    if records.len() == 0 {
        SinkView::opened()
    } else {
        after_pushes(records.drop_last()).pushed(records.last())
    }
}

/// The writer of one array.
pub struct Sink {
    state: SinkState,
    records: Ghost<Seq<RecordView>>,
}

impl View for Sink {
    type V = SinkView;

    closed spec fn view(&self) -> SinkView {
        SinkView { state: self.state, records: self.records@ }
    }
}

impl Sink {
    #[verifier::type_invariant]
    spec fn well_formed(self) -> bool {
        self@.consistent()
    }

    /// Begins an array. Returns the sink and the array's opening, which goes
    /// to the destination before anything else.
    pub fn open() -> (started: (Sink, String))
        ensures
            started.0@ == SinkView::opened(),
            started.1@ == "[\n"@,
            started.1@ == started.0@.written(),
    {
        let sink = Sink { state: SinkState::BeforeFirst, records: Ghost(Seq::empty()) };
        let opening = String::from_str("[\n");
        assert("[\n"@ + Seq::<char>::empty() =~= "[\n"@);
        (sink, opening)
    }

    /// How far the array has been written.
    pub fn state(&self) -> (state: SinkState)
        ensures
            state == self@.state,
            self@.consistent(),
    {
        proof {
            use_type_invariant(self);
        }
        self.state
    }

    /// Adds `record` to the array. Returns the text of the new entry, with a
    /// comma before it unless it is the first; a closed sink refuses.
    pub fn push(&mut self, record: &CompileRecord) -> (pushed: Result<String, SinkError>)
        ensures
            match pushed {
                Ok(chunk) => {
                    &&& old(self)@.state != SinkState::Closed
                    &&& final(self)@ == old(self)@.pushed(record@)
                    &&& chunk@ == separator(old(self)@.state) + object_text(record@)
                    &&& final(self)@.written() == old(self)@.written() + chunk@
                },
                Err(error) => {
                    &&& error == SinkError::SinkClosed
                    &&& old(self)@.state == SinkState::Closed
                    &&& final(self)@ == old(self)@
                },
            },
    {
        proof {
            use_type_invariant(&*self);
        }
        let mut chunk = match self.state {
            SinkState::Closed => {
                return Err(SinkError::SinkClosed);
            },
            SinkState::BeforeFirst => String::new(),
            SinkState::AfterFirst => String::from_str(",\n"),
        };
        let object = render_record(record);
        chunk.append(object.as_str());
        proof {
            law_push_appends(self@, record@);
        }
        *self = Sink { state: SinkState::AfterFirst, records: Ghost(self.records@.push(record@)) };
        Ok(chunk)
    }

    /// Ends the array. Returns its closing text; a closed sink refuses.
    pub fn close(&mut self) -> (closing: Result<String, SinkError>)
        ensures
            match closing {
                Ok(chunk) => {
                    &&& old(self)@.state != SinkState::Closed
                    &&& final(self)@ == old(self)@.closed()
                    &&& chunk@ == "\n]\n"@
                    &&& final(self)@.written() == old(self)@.written() + chunk@
                    &&& final(self)@.written() == document(old(self)@.records)
                },
                Err(error) => {
                    &&& error == SinkError::SinkClosed
                    &&& old(self)@.state == SinkState::Closed
                    &&& final(self)@ == old(self)@
                },
            },
    {
        proof {
            use_type_invariant(&*self);
        }
        match self.state {
            SinkState::Closed => Err(SinkError::SinkClosed),
            _ => {
                *self = Sink { state: SinkState::Closed, records: Ghost(self.records@) };
                Ok(String::from_str("\n]\n"))
            },
        }
    }
}

/// A push into an open sink adds to what was written the separator that the
/// state asks for and the record's object, and leaves the sink consistent.
pub proof fn law_push_appends(sink: SinkView, record: RecordView)
    requires
        sink.consistent(),
        sink.state != SinkState::Closed,
    ensures
        sink.pushed(record).consistent(),
        sink.pushed(record).written() == sink.written() + (separator(sink.state) + object_text(
            record,
        )),
{
    let after = sink.records.push(record);
    assert(after.drop_last() =~= sink.records);
    assert(sink.pushed(record).written() =~= sink.written() + (separator(sink.state)
        + object_text(record)));
}

/// Closing an open sink adds the array's end to what was written, and what
/// is written then is the whole array of the records pushed.
pub proof fn law_close_completes(sink: SinkView)
    requires
        sink.state != SinkState::Closed,
    ensures
        sink.closed().consistent(),
        sink.closed().written() == sink.written() + "\n]\n"@,
        sink.closed().written() == document(sink.records),
{
}

/// Records come out in the order in which they went in: after any pushes into
/// a new sink it holds those records in that order, and once it is closed the
/// text written is the array of them.
pub proof fn law_pushes_keep_order(records: Seq<RecordView>)
    ensures
        after_pushes(records).consistent(),
        after_pushes(records).state != SinkState::Closed,
        after_pushes(records).records == records,
        after_pushes(records).closed().written() == document(records),
    decreases records.len(),
{
    if records.len() > 0 {
        law_pushes_keep_order(records.drop_last());
        assert(records.drop_last().push(records.last()) =~= records);
    }
}

/// The entries of two runs of records, one after the other, are the entries of
/// the first, a comma and a line break, and the entries of the second.
pub proof fn law_entries_join(first: Seq<RecordView>, second: Seq<RecordView>)
    requires
        first.len() > 0,
        second.len() > 0,
    ensures
        entries(first + second) == entries(first) + ",\n"@ + entries(second),
    decreases second.len(),
{
    let all = first + second;
    assert(all.last() == second.last());
    if second.len() == 1 {
        assert(all.drop_last() =~= first);
    } else {
        assert(all.drop_last() =~= first + second.drop_last());
        law_entries_join(first, second.drop_last());
        assert(entries(first) + ",\n"@ + entries(second.drop_last()) + ",\n"@ + object_text(
            second.last(),
        ) =~= entries(first) + ",\n"@ + (entries(second.drop_last()) + ",\n"@ + object_text(
            second.last(),
        )));
    }
}

/// Without records the array is a bracket, two line breaks and a bracket,
/// with a line break after it.
pub proof fn law_empty_array()
    ensures
        document(Seq::<RecordView>::empty()) == "[\n\n]\n"@,
{
    reveal_strlit("[\n");
    reveal_strlit("\n]\n");
    reveal_strlit("[\n\n]\n");
    assert(entries(Seq::<RecordView>::empty()) =~= Seq::<char>::empty());
    assert(document(Seq::<RecordView>::empty()) =~= "[\n\n]\n"@);
}

/// With one record the array holds its object and no comma beside it.
pub proof fn law_single_entry(record: RecordView)
    ensures
        document(seq![record]) == "[\n"@ + object_text(record) + "\n]\n"@,
{
}

/// With three records the array holds their objects in the order given, a
/// comma and a line break between each two, none before the first and none
/// after the last.
pub proof fn law_three_entries(first: RecordView, second: RecordView, third: RecordView)
    ensures
        document(seq![first, second, third]) == "[\n"@ + object_text(first) + ",\n"@
            + object_text(second) + ",\n"@ + object_text(third) + "\n]\n"@,
{
    let all = seq![first, second, third];
    let two = seq![first, second];
    assert(all.drop_last() =~= two);
    assert(two.drop_last() =~= seq![first]);
    assert(entries(seq![first]) == object_text(first));
    assert(entries(two) == object_text(first) + ",\n"@ + object_text(second));
    assert(document(all) =~= "[\n"@ + object_text(first) + ",\n"@ + object_text(second) + ",\n"@
        + object_text(third) + "\n]\n"@);
}

} // verus!

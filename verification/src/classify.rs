//! Deciding whether a line of build output is a compiler invocation.
//!
//! The decision is a heuristic on the text of the line: it looks for two
//! flags, a source extension and a compiler's name, and never parses the line
//! as a shell command. A line that meets all four conditions is accepted even
//! where it compiles nothing, and a real invocation that lacks one is rejected.

use vstd::prelude::*;
use crate::pattern::{capture, regex_capture, regex_search, search};
use crate::reason::{ReasonCode, ReasonSet};
use crate::record::{build_record, record_of, source_view, CompileRecord, RecordView};
use crate::text::{chars_of, contains, is_substring, lemma_prefix_occurs, occurs_at};

verus! {

/// The pattern of a compiler's name at the end of a path: a slash, one of
/// `cc`, `c++`, `gcc`, `g++`, `clang`, `clang++`, and white space after it.
/// Path segments may stand before the slash.
pub const COMPILER_PATTERN: &'static str = "(/[\\w/]+)?/(cc|c\\+\\+|gcc|g\\+\\+|clang|clang\\+\\+)\\s";

/// The pattern of a source file's name: characters other than white space that
/// end in `.c`, `.cpp`, `.cc` or `.cxx`, with white space or the end of the
/// line after them. Its first group is the name.
pub const SOURCE_PATTERN: &'static str = "(\\S+\\.(c|cpp|cc|cxx))(\\s|$)";

/// The line holds ` -c `, the flag that asks for compiling without linking.
pub open spec fn has_compile_flag(line: Seq<char>) -> bool {
    is_substring(" -c "@, line)
}

/// The line holds ` -o `, the flag that names the output.
pub open spec fn has_output_flag(line: Seq<char>) -> bool {
    is_substring(" -o "@, line)
}

/// The line holds one of the source extensions, anywhere.
pub open spec fn has_source_extension(line: Seq<char>) -> bool {
    ||| is_substring(".c"@, line)
    ||| is_substring(".cpp"@, line)
    ||| is_substring(".cc"@, line)
    ||| is_substring(".cxx"@, line)
}

/// The line holds a word that build tools write for their own rules.
pub open spec fn looks_like_noise(line: Seq<char>) -> bool {
    ||| is_substring("CMakeFiles"@, line)
    ||| is_substring(".make"@, line)
    ||| is_substring("target"@, line)
}

/// [`COMPILER_PATTERN`] matches somewhere in the line. A pattern that the
/// engine refuses matches nowhere.
pub open spec fn names_compiler(line: Seq<char>) -> bool {
    regex_search(COMPILER_PATTERN@, line) == Some(true)
}

/// What the first group of [`SOURCE_PATTERN`] matched in the line, where the
/// pattern matched at all.
pub open spec fn source_file_in(line: Seq<char>) -> Option<Seq<char>> {
    match regex_capture(SOURCE_PATTERN@, line, 1) {
        Some(Some(name)) => Some(name),
        _ => None,
    }
}

/// The line meets the three conditions on its text, and a compiler was found
/// in it.
pub open spec fn accepted_given(line: Seq<char>, compiler_found: bool) -> bool {
    &&& has_compile_flag(line)
    &&& has_output_flag(line)
    &&& has_source_extension(line)
    &&& compiler_found
}

/// Whether `code` is a reason to reject the line. The first three and the last
/// each stand for one condition that is not met. Noise is a reason only beside
/// one of them: it never rejects a line by itself.
pub open spec fn reason_applies(code: ReasonCode, line: Seq<char>, compiler_found: bool) -> bool {
    match code {
        ReasonCode::MissingCompileFlag => !has_compile_flag(line),
        ReasonCode::MissingOutputFlag => !has_output_flag(line),
        ReasonCode::MissingSourceExtension => !has_source_extension(line),
        ReasonCode::LooksLikeBuildSystemNoise => !accepted_given(line, compiler_found)
            && looks_like_noise(line),
        ReasonCode::NotACompilerInvocation => !compiler_found,
    }
}

/// All the reasons to reject the line; none where it is accepted.
pub open spec fn reasons_given(line: Seq<char>, compiler_found: bool) -> Set<ReasonCode> {
    Set::new(|code: ReasonCode| reason_applies(code, line, compiler_found))
}

/// The line is a compiler invocation: all four conditions hold.
pub open spec fn is_compile_line(line: Seq<char>) -> bool {
    accepted_given(line, names_compiler(line))
}

/// What becomes of a line.
#[derive(Clone, Debug, PartialEq, Eq)]
pub enum ClassificationOutcome {
    /// The line is a compiler invocation, and this is its record.
    Accepted { record: CompileRecord },
    /// The line is something else, for these reasons.
    Rejected { reasons: ReasonSet },
}

/// A [`ClassificationOutcome`] over characters and sets.
pub ghost enum OutcomeView {
    Accepted { record: RecordView },
    Rejected { reasons: Set<ReasonCode> },
}

impl View for ClassificationOutcome {
    type V = OutcomeView;

    open spec fn view(&self) -> OutcomeView {
        match self {
            ClassificationOutcome::Accepted { record } => OutcomeView::Accepted { record: record@ },
            ClassificationOutcome::Rejected { reasons } => OutcomeView::Rejected {
                reasons: reasons@,
            },
        }
    }
}

/// The outcome for a line seen in `directory`, where the search for a compiler
/// gave `compiler_found` and the search for a source file gave `source`.
pub open spec fn classification_given(
    line: Seq<char>,
    directory: Seq<char>,
    compiler_found: bool,
    source: Option<Seq<char>>,
) -> OutcomeView {
    if accepted_given(line, compiler_found) {
        OutcomeView::Accepted { record: record_of(directory, line, source) }
    } else {
        OutcomeView::Rejected { reasons: reasons_given(line, compiler_found) }
    }
}

/// The outcome for a line seen in `directory`.
pub open spec fn classification(line: Seq<char>, directory: Seq<char>) -> OutcomeView {
    classification_given(line, directory, names_compiler(line), source_file_in(line))
}

/// Whether the characters `line` hold `word`.
fn holds(line: &Vec<char>, word: &str) -> (found: bool)
    ensures
        found == is_substring(word@, line@),
{
    let needle = chars_of(word);
    contains(line, &needle)
}

/// The reasons to reject `line`, where the search for a compiler in it gave
/// `compiler_found`. The set is empty exactly where the line is accepted.
pub fn rejection_reasons(line: &str, compiler_found: bool) -> (reasons: ReasonSet)
    ensures
        reasons@ == reasons_given(line@, compiler_found),
        reasons@ == Set::<ReasonCode>::empty() <==> accepted_given(line@, compiler_found),
{
    let chars = chars_of(line);
    let compile_flag = holds(&chars, " -c ");
    let output_flag = holds(&chars, " -o ");
    let extension = holds(&chars, ".c") || holds(&chars, ".cpp") || holds(&chars, ".cc") || holds(
        &chars,
        ".cxx",
    );
    let rejected = !(compile_flag && output_flag && extension && compiler_found);
    let noise = rejected && (holds(&chars, "CMakeFiles") || holds(&chars, ".make") || holds(
        &chars,
        "target",
    ));
    let reasons = ReasonSet {
        missing_compile_flag: !compile_flag,
        missing_output_flag: !output_flag,
        missing_source_extension: !extension,
        looks_like_build_system_noise: noise,
        not_a_compiler_invocation: !compiler_found,
    };
    proof {
        assert(reasons@ =~= reasons_given(line@, compiler_found));
        lemma_no_reason_iff_accepted(line@, compiler_found);
    }
    reasons
}

/// A line has no reason against it exactly where it meets all four conditions.
pub proof fn lemma_no_reason_iff_accepted(line: Seq<char>, compiler_found: bool)
    ensures
        reasons_given(line, compiler_found) == Set::<ReasonCode>::empty() <==> accepted_given(
            line,
            compiler_found,
        ),
{
    let reasons = reasons_given(line, compiler_found);
    if accepted_given(line, compiler_found) {
        assert(reasons =~= Set::<ReasonCode>::empty());
    } else if !has_compile_flag(line) {
        assert(reasons.contains(ReasonCode::MissingCompileFlag));
    } else if !has_output_flag(line) {
        assert(reasons.contains(ReasonCode::MissingOutputFlag));
    } else if !has_source_extension(line) {
        assert(reasons.contains(ReasonCode::MissingSourceExtension));
    } else {
        assert(reasons.contains(ReasonCode::NotACompilerInvocation));
    }
}

/// Whether a compiler is named in `line` at the end of a path.
fn finds_compiler(line: &str) -> (found: bool)
    ensures
        found == names_compiler(line@),
{
    match search(COMPILER_PATTERN, line) {
        Some(found) => found,
        None => false,
    }
}

/// The first source file named in `line`.
fn finds_source_file(line: &str) -> (source: Option<String>)
    ensures
        source_view(source) == source_file_in(line@),
{
    match capture(SOURCE_PATTERN, line, 1) {
        Some(Some(name)) => Some(name),
        _ => None,
    }
}

/// Whether `line` is a compiler invocation: it holds ` -c `, ` -o ` and a
/// source extension, and names a compiler at the end of a path.
pub fn is_compile_command(line: &str) -> (accepted: bool)
    ensures
        accepted == is_compile_line(line@),
{
    let found = finds_compiler(line);
    rejection_reasons(line, found).is_empty()
}

/// Classifies one line of build output that was seen in `directory`. An
/// accepted line gives a record that holds the directory, the line unchanged
/// and the first source file named on it; a rejected line gives every reason
/// against it.
pub fn classify(line: &str, directory: &str) -> (outcome: ClassificationOutcome)
    ensures
        outcome@ == classification(line@, directory@),
{
    let found = finds_compiler(line);
    let reasons = rejection_reasons(line, found);
    if reasons.is_empty() {
        let source = finds_source_file(line);
        ClassificationOutcome::Accepted { record: build_record(directory, line, source) }
    } else {
        ClassificationOutcome::Rejected { reasons }
    }
}

/// The longer extensions add nothing to the shortest: a line holds a source
/// extension exactly where it holds `.c`, be it in `.cpp`, in `.conf` or in
/// the middle of a word.
pub proof fn law_source_extension_is_dot_c(line: Seq<char>)
    ensures
        has_source_extension(line) <==> is_substring(".c"@, line),
{
    reveal_strlit(".c");
    reveal_strlit(".cpp");
    reveal_strlit(".cc");
    reveal_strlit(".cxx");
    if is_substring(".cpp"@, line) {
        let at = choose|at: int| occurs_at(".cpp"@, line, at);
        assert(".cpp"@.subrange(0, 2) =~= ".c"@);
        lemma_prefix_occurs(".c"@, ".cpp"@, line, at);
    }
    if is_substring(".cc"@, line) {
        let at = choose|at: int| occurs_at(".cc"@, line, at);
        assert(".cc"@.subrange(0, 2) =~= ".c"@);
        lemma_prefix_occurs(".c"@, ".cc"@, line, at);
    }
    if is_substring(".cxx"@, line) {
        let at = choose|at: int| occurs_at(".cxx"@, line, at);
        assert(".cxx"@.subrange(0, 2) =~= ".c"@);
        lemma_prefix_occurs(".c"@, ".cxx"@, line, at);
    }
}

/// A line without ` -c ` is rejected for `MissingCompileFlag`, and a line
/// without ` -o ` is rejected for `MissingOutputFlag`, whatever else it holds.
pub proof fn law_missing_flag_is_rejected(line: Seq<char>, directory: Seq<char>)
    ensures
        !has_compile_flag(line) ==> (classification(line, directory) matches OutcomeView::Rejected {
            reasons,
        } && reasons.contains(ReasonCode::MissingCompileFlag)),
        !has_output_flag(line) ==> (classification(line, directory) matches OutcomeView::Rejected {
            reasons,
        } && reasons.contains(ReasonCode::MissingOutputFlag)),
{
}

/// A line that meets the four conditions is accepted, and its record holds the
/// line itself as the command, character for character, beside the directory.
pub proof fn law_four_conditions_accept(line: Seq<char>, directory: Seq<char>)
    requires
        has_compile_flag(line),
        has_output_flag(line),
        has_source_extension(line),
        names_compiler(line),
    ensures
        classification(line, directory) matches OutcomeView::Accepted { record }
            && record.command == line && record.directory == directory,
{
}

/// A line in which [`COMPILER_PATTERN`] matches nowhere is rejected for
/// `NotACompilerInvocation`, whatever else it holds: a compiler's name in a
/// place where the pattern does not match counts for nothing.
pub proof fn law_no_compiler_is_rejected(line: Seq<char>, directory: Seq<char>)
    requires
        !names_compiler(line),
    ensures
        classification(line, directory) matches OutcomeView::Rejected { reasons }
            && reasons.contains(ReasonCode::NotACompilerInvocation),
{
}

/// The reasons of a rejected line are those and only those whose condition
/// the line fails, and a rejected line has at least one.
pub proof fn law_reasons_are_exact(line: Seq<char>, directory: Seq<char>, code: ReasonCode)
    requires
        !is_compile_line(line),
    ensures
        classification(line, directory) matches OutcomeView::Rejected { reasons } && (
        reasons.contains(code) <==> reason_applies(code, line, names_compiler(line))) && reasons
            != Set::<ReasonCode>::empty(),
{
    lemma_no_reason_iff_accepted(line, names_compiler(line));
}

/// The outcome depends on the line and the directory alone: two outcomes for
/// the same line in the same directory are the same.
pub proof fn law_classification_is_repeatable(
    line: Seq<char>,
    directory: Seq<char>,
    first: OutcomeView,
    second: OutcomeView,
)
    requires
        first == classification(line, directory),
        second == classification(line, directory),
    ensures
        first == second,
{
}

} // verus!

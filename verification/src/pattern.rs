//! Compiled search patterns: the regex engine and the line searcher.

use vstd::prelude::*;
use grep::matcher::Matcher;
use grep::regex::RegexMatcher;
use grep::regex::RegexMatcherBuilder;
use grep::searcher::sinks::Lossy;
use grep::searcher::SearcherBuilder;
use crate::error::SearchError;

verus! {

/// What a matcher is compiled from: the search text and the three switches
/// that decide how it is read.
pub struct PatternSpec {
    pub text: Seq<char>,
    pub case_sensitive: bool,
    pub whole_word: bool,
    pub is_regex: bool,
}

/// A line that the searcher found a match on: its number, counted from 1,
/// and its text, with the line terminator if it has one.
#[derive(Debug)]
pub struct FoundLine {
    pub line_number: u64,
    pub line: String,
}

/// The mathematical value of a [`FoundLine`].
pub struct FoundLineView {
    pub line_number: u64,
    pub line: Seq<char>,
}

impl View for FoundLine {
    type V = FoundLineView;

    open spec fn view(&self) -> FoundLineView {
        FoundLineView { line_number: self.line_number, line: self.line@ }
    }
}

/// The values of a sequence of found lines.
pub open spec fn found_lines_view(lines: Seq<FoundLine>) -> Seq<FoundLineView> {
    lines.map_values(|line: FoundLine| line@)
}

/// The compiled matcher of the regex crate, carried as an opaque value.
#[verifier::external_type_specification]
#[verifier::external_body]
pub struct ExRegexMatcher(RegexMatcher);

/// The I/O error of the standard library, carried as an opaque value.
#[verifier::external_type_specification]
#[verifier::external_body]
pub struct ExIoError(std::io::Error);

/// The error of the regex crate, carried as an opaque value.
#[verifier::external_type_specification]
#[verifier::external_body]
pub struct ExRegexError(grep::regex::Error);

/// What the regex engine is built from: the text and the switches of its
/// builder.
pub struct EngineSpec {
    pub text: Seq<char>,
    /// Letter case is ignored.
    pub fold_case: bool,
    /// Each match stands between word boundaries.
    pub whole_word: bool,
    /// The text is matched as it is, not read as an expression.
    pub literal: bool,
}

/// Whether the regex engine can be built from the text under the switches.
pub uninterp spec fn engine_accepts(text: Seq<char>, fold_case: bool, whole_word: bool, literal: bool) -> bool;

/// What a compiled engine was built from.
pub uninterp spec fn engine_source(engine: RegexMatcher) -> EngineSpec;

/// Every match in `haystack` of the engine built from `source`, as the
/// engine reports them.
pub uninterp spec fn engine_occurrences(source: EngineSpec, haystack: Seq<u8>) -> Seq<(usize, usize)>;

/// The lines of `bytes` on which the searcher finds a match of the engine
/// built from `source`, in file order; `None` where the searcher reports a
/// failure instead.
pub uninterp spec fn engine_lines(source: EngineSpec, bytes: Seq<u8>) -> Option<Seq<FoundLineView>>;

/// What the engine for a pattern is built from: case is folded unless the
/// pattern is case sensitive, and the text is taken literally unless it is a
/// regular expression.
pub open spec fn engine_spec(pattern: PatternSpec) -> EngineSpec {
    EngineSpec {
        text: pattern.text,
        fold_case: !pattern.case_sensitive,
        whole_word: pattern.whole_word,
        literal: !pattern.is_regex,
    }
}

/// Whether the pattern compiles.
pub open spec fn pattern_accepted(text: Seq<char>, case_sensitive: bool, whole_word: bool, is_regex: bool) -> bool {
    engine_accepts(text, !case_sensitive, whole_word, !is_regex)
}

/// Every match of the pattern in `haystack`, as the engine reports them.
pub open spec fn occurrences(pattern: PatternSpec, haystack: Seq<u8>) -> Seq<(usize, usize)> {
    engine_occurrences(engine_spec(pattern), haystack)
}

/// The lines of `bytes` on which the searcher finds the pattern, in file
/// order; `None` where the searcher reports a failure instead.
pub open spec fn searched_lines(pattern: PatternSpec, bytes: Seq<u8>) -> Option<Seq<FoundLineView>> {
    engine_lines(engine_spec(pattern), bytes)
}

/// Lines are numbered in file order when the numbers start at 1 or later
/// and each line has a greater number than the lines before it.
pub open spec fn numbered_in_order(lines: Seq<FoundLineView>) -> bool {
    &&& forall|i: int| 0 <= i < lines.len() ==> (#[trigger] lines[i]).line_number >= 1
    &&& forall|i: int, j: int|
        0 <= i < j < lines.len() ==> (#[trigger] lines[i]).line_number < (#[trigger] lines[j]).line_number
}

/// Ranges are well formed for a haystack of `len` bytes when each is a
/// half-open interval inside it and each begins where the previous one ended
/// or later.
pub open spec fn ranges_in_order(ranges: Seq<(usize, usize)>, len: nat) -> bool {
    &&& forall|i: int| 0 <= i < ranges.len() ==> (#[trigger] ranges[i]).0 <= ranges[i].1 <= len
    &&& forall|i: int, j: int| 0 <= i < j < ranges.len() ==> (#[trigger] ranges[i]).1 <= (#[trigger] ranges[j]).0
}

/// Calls `RegexMatcherBuilder::build` with the switches `case_insensitive`,
/// `word` and `fixed_strings` set from the arguments. Believed: success is a
/// function of the four arguments, and the engine built is the one for them.
#[verifier::external_body]
fn build_engine(text: &str, fold_case: bool, whole_word: bool, literal: bool) -> (built: Result<RegexMatcher, grep::regex::Error>)
    ensures
        built.is_ok() == engine_accepts(text@, fold_case, whole_word, literal),
        built.is_ok() ==> engine_source(built.unwrap()) == (EngineSpec { text: text@, fold_case, whole_word, literal }),
{
    RegexMatcherBuilder::new().case_insensitive(fold_case).word(whole_word).fixed_strings(literal).build(text)
}

/// Adds one range to the list and asks for the next.
fn keep_range(ranges: &mut Vec<(usize, usize)>, start: usize, end: usize) -> (more: bool)
    ensures
        more,
        final(ranges)@ == old(ranges)@.push((start, end)),
{
    ranges.push((start, end));
    true
}

/// Calls `Matcher::find_iter` of the engine on the haystack and collects the
/// ranges it reports. Believed: the ranges are a function of what the engine
/// was built from and the haystack; they lie inside the haystack, do not
/// overlap and come in order of appearance.
#[verifier::external_body]
fn engine_find_all(engine: &RegexMatcher, haystack: &[u8]) -> (ranges: Vec<(usize, usize)>)
    ensures
        ranges@ == engine_occurrences(engine_source(*engine), haystack@),
        ranges_in_order(ranges@, haystack@.len()),
{
    let mut ranges: Vec<(usize, usize)> = Vec::new();
    let _ = engine.find_iter(haystack, |found| keep_range(&mut ranges, found.start(), found.end()));
    ranges
}

/// Adds one line to the list and asks for the next.
fn keep_line(lines: &mut Vec<FoundLine>, line_number: u64, line: &str) -> (more: bool)
    ensures
        more,
        found_lines_view(final(lines)@) == found_lines_view(old(lines)@).push(FoundLineView { line_number, line: line@ }),
{
    lines.push(FoundLine { line_number, line: line.to_owned() });
    assert(found_lines_view(lines@) =~= found_lines_view(old(lines)@).push(FoundLineView { line_number, line: line@ }));
    true
}

/// Calls `Searcher::search_slice` of a searcher with default settings, with
/// the `Lossy` sink, and collects the lines it reports. Believed: the outcome
/// is a function of what the engine was built from and the bytes; lines are
/// counted from 1, and each line is reported at most once, in file order.
#[verifier::external_body]
fn engine_search(engine: &RegexMatcher, bytes: &[u8]) -> (found: Result<Vec<FoundLine>, std::io::Error>)
    ensures
        found matches Ok(lines) ==> engine_lines(engine_source(*engine), bytes@) == Some(found_lines_view(lines@)),
        found matches Ok(lines) ==> numbered_in_order(found_lines_view(lines@)),
        found is Err ==> engine_lines(engine_source(*engine), bytes@) is None,
{
    let mut lines: Vec<FoundLine> = Vec::new();
    let sink = Lossy(|line_number, line| Ok(keep_line(&mut lines, line_number, line)));
    match SearcherBuilder::new().build().search_slice(engine, bytes, sink) {
        Ok(()) => Ok(lines),
        Err(fault) => Err(fault),
    }
}

/// A compiled search pattern.
pub struct LineMatcher {
    engine: RegexMatcher,
}

impl LineMatcher {
    /// The pattern this matcher was compiled from.
    pub closed spec fn source(&self) -> PatternSpec {
        PatternSpec {
            text: engine_source(self.engine).text,
            case_sensitive: !engine_source(self.engine).fold_case,
            whole_word: engine_source(self.engine).whole_word,
            is_regex: !engine_source(self.engine).literal,
        }
    }

    /// Compiles a pattern. With `is_regex` false the text is matched
    /// literally; with `case_sensitive` false letter case is ignored; with
    /// `whole_word` each match must stand between word boundaries.
    pub fn compile(text: &str, case_sensitive: bool, whole_word: bool, is_regex: bool) -> (compiled: Result<LineMatcher, SearchError>)
        ensures
            compiled.is_ok() == pattern_accepted(text@, case_sensitive, whole_word, is_regex),
            compiled matches Ok(matcher) ==> matcher.source() == (PatternSpec { text: text@, case_sensitive, whole_word, is_regex }),
            compiled matches Err(e) ==> e is Pattern,
    {
        match build_engine(text, !case_sensitive, whole_word, !is_regex) {
            Ok(engine) => Ok(LineMatcher { engine }),
            Err(fault) => Err(SearchError::Pattern(fault.to_string())),
        }
    }

    /// All non-overlapping matches in `haystack`, in order of appearance.
    pub fn find_all(&self, haystack: &[u8]) -> (ranges: Vec<(usize, usize)>)
        ensures
            ranges@ == occurrences(self.source(), haystack@),
            ranges_in_order(ranges@, haystack@.len()),
    {
        assert(engine_spec(self.source()) == engine_source(self.engine));
        engine_find_all(&self.engine, haystack)
    }

    /// The lines of a file's bytes on which the pattern is found, in file
    /// order, each with its number and its text (bytes that are not UTF-8
    /// are replaced). Fails when the searcher does.
    pub fn find_lines(&self, bytes: &[u8]) -> (found: Result<Vec<FoundLine>, SearchError>)
        ensures
            found matches Ok(lines) ==> searched_lines(self.source(), bytes@) == Some(found_lines_view(lines@)),
            found matches Ok(lines) ==> numbered_in_order(found_lines_view(lines@)),
            found matches Err(e) ==> e is Io && searched_lines(self.source(), bytes@) is None,
    {
        assert(engine_spec(self.source()) == engine_source(self.engine));
        match engine_search(&self.engine, bytes) {
            Ok(lines) => Ok(lines),
            Err(fault) => Err(SearchError::Io(fault.to_string())),
        }
    }
}

} // verus!

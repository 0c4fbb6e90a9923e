//! Scanning the bytes of one file for the lines that match and the ranges
//! of the matches on them.

use vstd::prelude::*;
use crate::error::SearchError;
use crate::pattern::found_lines_view;
use crate::pattern::numbered_in_order;
use crate::pattern::searched_lines;
use crate::pattern::FoundLine;
use crate::pattern::FoundLineView;
use crate::pattern::occurrences;
use crate::pattern::ranges_in_order;
use crate::pattern::LineMatcher;
use crate::pattern::PatternSpec;

verus! {

/// A line together with the byte ranges of the matches on it.
#[derive(Debug)]
pub struct LineMatch {
    pub line_number: u64,
    pub line: String,
    pub ranges: Vec<(usize, usize)>,
}

/// The mathematical value of a [`LineMatch`].
pub struct LineMatchView {
    pub line_number: u64,
    pub line: Seq<char>,
    pub ranges: Seq<(usize, usize)>,
}

impl View for LineMatch {
    type V = LineMatchView;

    open spec fn view(&self) -> LineMatchView {
        LineMatchView { line_number: self.line_number, line: self.line@, ranges: self.ranges@ }
    }
}

/// The values of a sequence of line matches.
pub open spec fn line_matches_view(hits: Seq<LineMatch>) -> Seq<LineMatchView> {
    hits.map_values(|hit: LineMatch| hit@)
}

/// The match record of one found line: the line with every match on the
/// bytes of its text.
pub open spec fn line_match_of(pattern: PatternSpec, line: FoundLineView) -> LineMatchView {
    LineMatchView {
        line_number: line.line_number,
        line: line.line,
        ranges: occurrences(pattern, vstd::utf8::encode_utf8(line.line)),
    }
}

/// Whether a line match has at least one range.
pub open spec fn has_ranges() -> spec_fn(LineMatchView) -> bool {
    |hit: LineMatchView| hit.ranges.len() > 0
}

/// The match records of the found lines, in order, without the lines on
/// which no range was found.
pub open spec fn line_matches(pattern: PatternSpec, lines: Seq<FoundLineView>) -> Seq<LineMatchView> {
    lines.map_values(|line: FoundLineView| line_match_of(pattern, line)).filter(has_ranges())
}

/// A line match is well formed when its ranges lie inside the bytes of its
/// text, do not overlap and come in order of appearance.
pub open spec fn line_match_wf(hit: LineMatchView) -> bool {
    ranges_in_order(hit.ranges, vstd::utf8::encode_utf8(hit.line).len())
}

/// Line matches are in file order when their line numbers start at 1 or
/// later and each has a greater line number than those before it.
pub open spec fn matches_in_order(hits: Seq<LineMatchView>) -> bool {
    &&& forall|i: int| 0 <= i < hits.len() ==> (#[trigger] hits[i]).line_number >= 1
    &&& forall|i: int, j: int|
        0 <= i < j < hits.len() ==> (#[trigger] hits[i]).line_number < (#[trigger] hits[j]).line_number
}

/// Finds the matches on each found line and keeps the lines that have any.
/// Lines that are numbered in file order give line matches in file order.
pub fn match_lines(matcher: &LineMatcher, lines: &Vec<FoundLine>) -> (hits: Vec<LineMatch>)
    ensures
        line_matches_view(hits@) == line_matches(matcher.source(), found_lines_view(lines@)),
        forall|k: int| 0 <= k < hits.len() ==> line_match_wf(#[trigger] hits[k]@),
        numbered_in_order(found_lines_view(lines@)) ==> matches_in_order(line_matches_view(hits@)),
{
    let ghost pattern = matcher.source();
    let ghost all = found_lines_view(lines@);
    let ghost to_match = |line: FoundLineView| line_match_of(pattern, line);
    let mut hits: Vec<LineMatch> = Vec::new();
    let mut i: usize = 0;
    proof {
        reveal(Seq::filter);
        assert(all.take(0).map_values(to_match) =~= Seq::<LineMatchView>::empty());
        assert(line_matches_view(hits@) =~= Seq::<LineMatchView>::empty());
    }
    while i < lines.len()
        invariant
            i <= lines.len(),
            all == found_lines_view(lines@),
            pattern == matcher.source(),
            to_match == (|line: FoundLineView| line_match_of(pattern, line)),
            line_matches_view(hits@) == all.take(i as int).map_values(to_match).filter(has_ranges()),
            forall|k: int| 0 <= k < hits.len() ==> line_match_wf(#[trigger] hits[k]@),
            numbered_in_order(all) ==> matches_in_order(line_matches_view(hits@)),
            numbered_in_order(all) ==> forall|k: int, j: int|
                0 <= k < hits.len() && i <= j < all.len() ==> (#[trigger] line_matches_view(hits@)[k]).line_number
                    < (#[trigger] all[j]).line_number,
        decreases lines.len() - i,
    {
        let found = &lines[i];
        let ranges = matcher.find_all(found.line.as_str().as_bytes());
        proof {
            let seen = all.take(i as int).map_values(to_match);
            let next = line_match_of(pattern, all[i as int]);
            assert(all[i as int] == found@);
            assert(all.take(i + 1).map_values(to_match) =~= seen.push(next));
            seen.lemma_filter_push(next, has_ranges());
            assert(ranges@ == next.ranges);
        }
        if ranges.len() > 0 {
            let ghost earlier = line_matches_view(hits@);
            hits.push(LineMatch { line_number: found.line_number, line: found.line.clone(), ranges });
            assert(line_matches_view(hits@) =~= all.take(i + 1).map_values(to_match).filter(has_ranges()));
            assert(line_matches_view(hits@) =~= earlier.push(line_match_of(pattern, all[i as int])));
        }
        i += 1;
    }
    assert(all.take(lines.len() as int) =~= all);
    hits
}

/// Scans the bytes of one file. Each line on which the pattern is found is
/// reported once, in file order, with its number counted from 1, its text
/// (bytes that are not UTF-8 are replaced), and the byte range of every
/// non-overlapping match on the text, in order of appearance. Lines without a
/// match are not reported. Fails when the searcher does.
pub fn scan(matcher: &LineMatcher, bytes: &[u8]) -> (found: Result<Vec<LineMatch>, SearchError>)
    ensures
        found.is_ok() == searched_lines(matcher.source(), bytes@).is_some(),
        found matches Ok(hits) ==> {
            &&& line_matches_view(hits@) == line_matches(matcher.source(), searched_lines(matcher.source(), bytes@).unwrap())
            &&& forall|k: int| 0 <= k < hits.len() ==> line_match_wf(#[trigger] hits[k]@)
            &&& matches_in_order(line_matches_view(hits@))
        },
        found matches Err(e) ==> e is Io,
{
    match matcher.find_lines(bytes) {
        Ok(lines) => Ok(match_lines(matcher, &lines)),
        Err(fault) => Err(fault),
    }
}

} // verus!

//! Result records and the aggregator that keeps one record for each line of
//! each file.

use vstd::prelude::*;
use vstd::std_specs::hash::group_hash_axioms;
use std::collections::HashMap;
use crate::scanner::line_matches_view;
use crate::scanner::LineMatch;
use crate::scanner::LineMatchView;
use crate::text::same_text;

verus! {

/// One line of one file on which the pattern was found, with the byte range
/// of every match on it.
#[derive(Debug, Clone)]
pub struct GrepResult {
    full_path: String,
    line_number: u64,
    line: String,
    ranges: Vec<(usize, usize)>,
}

/// The mathematical value of a [`GrepResult`].
pub struct ResultRecord {
    pub full_path: Seq<char>,
    pub line_number: u64,
    pub line: Seq<char>,
    pub ranges: Seq<(usize, usize)>,
}

impl View for GrepResult {
    type V = ResultRecord;

    closed spec fn view(&self) -> ResultRecord {
        ResultRecord {
            full_path: self.full_path@,
            line_number: self.line_number,
            line: self.line@,
            ranges: self.ranges@,
        }
    }
}

/// The values of a sequence of results.
pub open spec fn records_of(results: Seq<GrepResult>) -> Seq<ResultRecord> {
    results.map_values(|result: GrepResult| result@)
}

/// Whether a record is the one for the given file and line.
pub open spec fn has_key(record: ResultRecord, full_path: Seq<char>, line_number: u64) -> bool {
    record.full_path == full_path && record.line_number == line_number
}

/// No two records are for the same line of the same file.
pub open spec fn keys_unique(records: Seq<ResultRecord>) -> bool {
    forall|i: int, j: int|
        0 <= i < j < records.len() ==> !has_key(
            #[trigger] records[i],
            (#[trigger] records[j]).full_path,
            records[j].line_number,
        )
}

/// The position of the first record with the given key, or the number of
/// records when there is none.
pub open spec fn key_position(records: Seq<ResultRecord>, full_path: Seq<char>, line_number: u64) -> int
    decreases records.len(),
{
    if records.len() == 0 {
        0
    } else if has_key(records[0], full_path, line_number) {
        0
    } else {
        1 + key_position(records.skip(1), full_path, line_number)
    }
}

/// A record with more ranges added behind those it has.
pub open spec fn with_more_ranges(record: ResultRecord, ranges: Seq<(usize, usize)>) -> ResultRecord {
    ResultRecord { ranges: record.ranges + ranges, ..record }
}

/// The records after one more contribution: where a record with the key
/// exists, the ranges are added behind its own and its text stays; where none
/// does, a new record comes last.
pub open spec fn aggregated(
    records: Seq<ResultRecord>,
    full_path: Seq<char>,
    line_number: u64,
    line: Seq<char>,
    ranges: Seq<(usize, usize)>,
) -> Seq<ResultRecord> {
    let at = key_position(records, full_path, line_number);
    if at < records.len() {
        records.update(at, with_more_ranges(records[at], ranges))
    } else {
        records.push(ResultRecord { full_path, line_number, line, ranges })
    }
}

/// The records after the line matches of one file were taken in, one after
/// the other.
pub open spec fn absorbed(records: Seq<ResultRecord>, full_path: Seq<char>, hits: Seq<LineMatchView>) -> Seq<ResultRecord>
    decreases hits.len(),
{
    if hits.len() == 0 {
        records
    } else {
        let last = hits.last();
        aggregated(absorbed(records, full_path, hits.drop_last()), full_path, last.line_number, last.line, last.ranges)
    }
}

/// `key_position` is a valid position or the length; the record at a valid
/// one has the key, and no record before it has.
pub proof fn lemma_key_position(records: Seq<ResultRecord>, full_path: Seq<char>, line_number: u64)
    ensures
        0 <= key_position(records, full_path, line_number) <= records.len(),
        key_position(records, full_path, line_number) < records.len() ==> has_key(
            records[key_position(records, full_path, line_number)],
            full_path,
            line_number,
        ),
        forall|i: int|
            0 <= i < key_position(records, full_path, line_number) ==> !has_key(
                #[trigger] records[i],
                full_path,
                line_number,
            ),
    decreases records.len(),
{
    if records.len() > 0 && !has_key(records[0], full_path, line_number) {
        let rest = records.skip(1);
        lemma_key_position(rest, full_path, line_number);
        let at = key_position(rest, full_path, line_number);
        assert forall|i: int| 0 <= i < 1 + at implies !has_key(
            #[trigger] records[i],
            full_path,
            line_number,
        ) by {
            if i > 0 {
                assert(records[i] == rest[i - 1]);
            }
        }
        if at < rest.len() {
            assert(records[1 + at] == rest[at]);
        }
    }
}

/// A position whose record has the key, with no such record before it, is
/// the key's position; and where no record has the key, the position is the
/// length.
pub proof fn lemma_key_position_is(records: Seq<ResultRecord>, full_path: Seq<char>, line_number: u64, at: int)
    requires
        0 <= at <= records.len(),
        at < records.len() ==> has_key(records[at], full_path, line_number),
        forall|i: int| 0 <= i < at ==> !has_key(#[trigger] records[i], full_path, line_number),
    ensures
        key_position(records, full_path, line_number) == at,
{
    lemma_key_position(records, full_path, line_number);
}

/// Aggregation keeps the keys unique.
pub proof fn lemma_aggregated_keeps_keys_unique(
    records: Seq<ResultRecord>,
    full_path: Seq<char>,
    line_number: u64,
    line: Seq<char>,
    ranges: Seq<(usize, usize)>,
)
    requires
        keys_unique(records),
    ensures
        keys_unique(aggregated(records, full_path, line_number, line, ranges)),
{
    lemma_key_position(records, full_path, line_number);
    let after = aggregated(records, full_path, line_number, line, ranges);
    let at = key_position(records, full_path, line_number);
    assert forall|i: int, j: int| 0 <= i < j < after.len() implies !has_key(
        #[trigger] after[i],
        (#[trigger] after[j]).full_path,
        after[j].line_number,
    ) by {
        if at < records.len() {
            assert(!has_key(records[i], records[j].full_path, records[j].line_number));
        } else if j < records.len() {
            assert(!has_key(records[i], records[j].full_path, records[j].line_number));
        }
    }
}

/// Taking in the line matches of a file keeps the keys unique.
pub proof fn lemma_absorbed_keeps_keys_unique(records: Seq<ResultRecord>, full_path: Seq<char>, hits: Seq<LineMatchView>)
    requires
        keys_unique(records),
    ensures
        keys_unique(absorbed(records, full_path, hits)),
    decreases hits.len(),
{
    if hits.len() > 0 {
        let last = hits.last();
        lemma_absorbed_keeps_keys_unique(records, full_path, hits.drop_last());
        lemma_aggregated_keeps_keys_unique(
            absorbed(records, full_path, hits.drop_last()),
            full_path,
            last.line_number,
            last.line,
            last.ranges,
        );
    }
}

/// Whether one of the line matches is on the given line.
pub open spec fn hit_on_line(hits: Seq<LineMatchView>, line_number: u64) -> bool {
    exists|h: int| 0 <= h < hits.len() && (#[trigger] hits[h]).line_number == line_number
}

/// What taking in the line matches of a file does to the records: none is
/// lost or moved, and each keeps its file, line number and text; one that is
/// not for a matched line of this file stays as it is; and the records that
/// come new are for matched lines of this file.
pub proof fn lemma_absorbed_shape(records: Seq<ResultRecord>, full_path: Seq<char>, hits: Seq<LineMatchView>)
    ensures
        absorbed(records, full_path, hits).len() >= records.len(),
        forall|p: int|
            0 <= p < records.len() ==> {
                &&& (#[trigger] absorbed(records, full_path, hits)[p]).full_path == records[p].full_path
                &&& absorbed(records, full_path, hits)[p].line_number == records[p].line_number
                &&& absorbed(records, full_path, hits)[p].line == records[p].line
            },
        forall|p: int|
            0 <= p < records.len() && !(records[p].full_path == full_path && hit_on_line(
                hits,
                records[p].line_number,
            )) ==> #[trigger] absorbed(records, full_path, hits)[p] == records[p],
        forall|p: int|
            records.len() <= p < absorbed(records, full_path, hits).len() ==> {
                &&& (#[trigger] absorbed(records, full_path, hits)[p]).full_path == full_path
                &&& hit_on_line(hits, absorbed(records, full_path, hits)[p].line_number)
            },
    decreases hits.len(),
{
    if hits.len() > 0 {
        let earlier = hits.drop_last();
        let last = hits.last();
        let before = absorbed(records, full_path, earlier);
        let after = absorbed(records, full_path, hits);
        lemma_absorbed_shape(records, full_path, earlier);
        lemma_key_position(before, full_path, last.line_number);
        let at = key_position(before, full_path, last.line_number);
        assert(hits[hits.len() - 1] == last);
        assert forall|line_number: u64| hit_on_line(earlier, line_number) implies hit_on_line(
            hits,
            line_number,
        ) by {
            let h = choose|h: int| 0 <= h < earlier.len() && (#[trigger] earlier[h]).line_number == line_number;
            assert(hits[h] == earlier[h]);
        }
        assert forall|p: int|
            0 <= p < records.len() && !(records[p].full_path == full_path && hit_on_line(
                hits,
                records[p].line_number,
            )) implies #[trigger] after[p] == records[p] by {
            assert(before[p] == records[p]);
            if p == at {
                assert(hit_on_line(hits, last.line_number));
            }
        }
        assert forall|p: int| records.len() <= p < after.len() implies {
            &&& (#[trigger] after[p]).full_path == full_path
            &&& hit_on_line(hits, after[p].line_number)
        } by {
            if p < before.len() {
                assert(hit_on_line(earlier, before[p].line_number));
            } else {
                assert(hit_on_line(hits, last.line_number));
            }
        }
    }
}

/// The record that a line match of a file makes.
pub open spec fn record_of_hit(full_path: Seq<char>, hit: LineMatchView) -> ResultRecord {
    ResultRecord { full_path, line_number: hit.line_number, line: hit.line, ranges: hit.ranges }
}

/// `record_of_hit` for one file, as a function of the line match.
pub open spec fn to_record(full_path: Seq<char>) -> spec_fn(LineMatchView) -> ResultRecord {
    |hit: LineMatchView| record_of_hit(full_path, hit)
}

/// The line matches of a file that has no record yet, each on a line of its
/// own, make one record each: the records that come new are the line
/// matches in order, each with all its ranges, behind the records that were
/// there.
pub proof fn lemma_absorbed_new_file(records: Seq<ResultRecord>, full_path: Seq<char>, hits: Seq<LineMatchView>)
    requires
        forall|p: int| 0 <= p < records.len() ==> (#[trigger] records[p]).full_path != full_path,
        forall|i: int, j: int|
            0 <= i < j < hits.len() ==> (#[trigger] hits[i]).line_number != (#[trigger] hits[j]).line_number,
    ensures
        absorbed(records, full_path, hits) == records + hits.map_values(to_record(full_path)),
    decreases hits.len(),
{
    let made = hits.map_values(to_record(full_path));
    if hits.len() == 0 {
        assert(records + made =~= records);
    } else {
        let earlier = hits.drop_last();
        let last = hits.last();
        let before = absorbed(records, full_path, earlier);
        lemma_absorbed_new_file(records, full_path, earlier);
        assert(before == records + earlier.map_values(to_record(full_path)));
        assert forall|p: int| 0 <= p < before.len() implies !has_key(
            #[trigger] before[p],
            full_path,
            last.line_number,
        ) by {
            if p >= records.len() {
                let h = p - records.len();
                assert(before[p] == record_of_hit(full_path, earlier[h]));
                assert(earlier[h] == hits[h]);
                assert(hits[hits.len() - 1] == last);
            }
        }
        lemma_key_position_is(before, full_path, last.line_number, before.len() as int);
        assert(absorbed(records, full_path, hits) =~= records + made);
    }
}

/// A copy of a list of ranges.
pub fn copy_ranges(ranges: &Vec<(usize, usize)>) -> (copy: Vec<(usize, usize)>)
    ensures
        copy@ == ranges@,
{
    let mut copy: Vec<(usize, usize)> = Vec::new();
    let mut i: usize = 0;
    while i < ranges.len()
        invariant
            i <= ranges.len(),
            copy@ == ranges@.take(i as int),
        decreases ranges.len() - i,
    {
        copy.push(ranges[i]);
        assert(copy@ =~= ranges@.take(i + 1));
        i += 1;
    }
    assert(ranges@.take(ranges.len() as int) =~= ranges@);
    copy
}

impl GrepResult {
    /// A result for one line of one file.
    pub fn new(full_path: String, line_number: u64, line: String, ranges: Vec<(usize, usize)>) -> (result: GrepResult)
        ensures
            result@ == (ResultRecord { full_path: full_path@, line_number, line: line@, ranges: ranges@ }),
    {
        GrepResult { full_path, line_number, line, ranges }
    }

    /// The path of the file.
    pub fn full_path(&self) -> (path: &str)
        ensures
            path@ == self@.full_path,
    {
        self.full_path.as_str()
    }

    /// The number of the line, counted from 1.
    pub fn line_number(&self) -> (number: u64)
        ensures
            number == self@.line_number,
    {
        self.line_number
    }

    /// The text of the line.
    pub fn line(&self) -> (text: &str)
        ensures
            text@ == self@.line,
    {
        self.line.as_str()
    }

    /// The byte ranges of the matches on the line.
    pub fn ranges(&self) -> (ranges: &Vec<(usize, usize)>)
        ensures
            ranges@ == self@.ranges,
    {
        &self.ranges
    }
}

impl Default for GrepResult {
    /// A result with an empty path, line number 0, an empty line and no
    /// range.
    fn default() -> (result: GrepResult)
        ensures
            result@ == (ResultRecord {
                full_path: Seq::empty(),
                line_number: 0,
                line: Seq::empty(),
                ranges: Seq::empty(),
            }),
    {
        GrepResult { full_path: String::new(), line_number: 0, line: String::new(), ranges: Vec::new() }
    }
}

/// Every position that the index holds under a line number is the position
/// of a record with that line number.
pub open spec fn index_sound(records: Seq<ResultRecord>, index: Map<u64, Vec<usize>>) -> bool {
    forall|line_number: u64, j: int|
        index.contains_key(line_number) && 0 <= j < index[line_number]@.len() ==> {
            &&& (#[trigger] index[line_number]@[j]) < records.len()
            &&& records[index[line_number]@[j] as int].line_number == line_number
        }
}

/// The index holds the position of every record under the record's line
/// number.
pub open spec fn index_complete(records: Seq<ResultRecord>, index: Map<u64, Vec<usize>>) -> bool {
    forall|r: int|
        0 <= r < records.len() ==> {
            &&& index.contains_key((#[trigger] records[r]).line_number)
            &&& index[records[r].line_number]@.contains(r as usize)
        }
}

/// Collects results, one record for each line of each file. The records are
/// kept in the order in which their lines were first contributed; an index
/// by line number finds the record of a line without going through all of
/// them.
pub struct Aggregator {
    records: Vec<GrepResult>,
    by_line: HashMap<u64, Vec<usize>>,
}

impl View for Aggregator {
    type V = Seq<ResultRecord>;

    closed spec fn view(&self) -> Seq<ResultRecord> {
        records_of(self.records@)
    }
}

impl Aggregator {
    /// The invariant of an aggregator: no two of its records are for the
    /// same line of the same file, and its index agrees with its records.
    pub closed spec fn wf(&self) -> bool {
        &&& keys_unique(self@)
        &&& index_sound(self@, self.by_line@)
        &&& index_complete(self@, self.by_line@)
    }

    /// In a well-formed aggregator no two records are for the same line of
    /// the same file.
    pub proof fn lemma_keys_unique(&self)
        requires
            self.wf(),
        ensures
            keys_unique(self@),
    {
    }

    /// An aggregator without records.
    pub fn new() -> (empty: Aggregator)
        ensures
            empty.wf(),
            empty@ == Seq::<ResultRecord>::empty(),
    {
        let empty = Aggregator { records: Vec::new(), by_line: HashMap::new() };
        assert(empty@ =~= Seq::<ResultRecord>::empty());
        empty
    }

    /// The number of records.
    pub fn len(&self) -> (count: usize)
        ensures
            count == self@.len(),
    {
        self.records.len()
    }

    /// The position of the record for the given file and line, or the number
    /// of records when there is none.
    pub fn position(&self, full_path: &str, line_number: u64) -> (at: usize)
        requires
            self.wf(),
        ensures
            at == key_position(self@, full_path@, line_number),
    {
        broadcast use group_hash_axioms;

        let count = self.records.len();
        let bucket = match self.by_line.get(&line_number) {
            Some(bucket) => bucket,
            None => {
                proof {
                    assert forall|i: int| 0 <= i < count implies !has_key(
                        #[trigger] self@[i],
                        full_path@,
                        line_number,
                    ) by {
                        assert(self.by_line@.contains_key(self@[i].line_number));
                    }
                    lemma_key_position_is(self@, full_path@, line_number, count as int);
                }
                return count;
            },
        };
        assert(self.by_line@.contains_key(line_number) && self.by_line@[line_number] == *bucket);
        let mut j: usize = 0;
        while j < bucket.len()
            invariant
                j <= bucket.len(),
                self.wf(),
                count == self.records.len(),
                self.by_line@.contains_key(line_number),
                self.by_line@[line_number] == *bucket,
                forall|k: int| 0 <= k < j ==> !has_key(self@[(#[trigger] bucket@[k]) as int], full_path@, line_number),
            decreases bucket.len() - j,
        {
            let at = bucket[j];
            assert(at == self.by_line@[line_number]@[j as int]);
            assert(at < count);
            if same_text(self.records[at].full_path.as_str(), full_path) {
                proof {
                    assert(has_key(self@[at as int], full_path@, line_number));
                    assert forall|i: int| 0 <= i < at implies !has_key(
                        #[trigger] self@[i],
                        full_path@,
                        line_number,
                    ) by {
                        if has_key(self@[i], full_path@, line_number) {
                            assert(has_key(self@[i], self@[at as int].full_path, self@[at as int].line_number));
                        }
                    }
                    lemma_key_position_is(self@, full_path@, line_number, at as int);
                }
                return at;
            }
            j += 1;
        }
        proof {
            assert forall|i: int| 0 <= i < count implies !has_key(#[trigger] self@[i], full_path@, line_number) by {
                if has_key(self@[i], full_path@, line_number) {
                    assert(bucket@.contains(i as usize));
                    let k = choose|k: int| 0 <= k < bucket@.len() && bucket@[k] == i as usize;
                    assert(!has_key(self@[bucket@[k] as int], full_path@, line_number));
                }
            }
            lemma_key_position_is(self@, full_path@, line_number, count as int);
        }
        count
    }

    /// Takes in the ranges found on one line of one file. The first
    /// contribution for a line makes its record, which comes last; a later
    /// one for the same line adds its ranges behind those of the record and
    /// changes nothing else.
    pub fn aggregate(&mut self, full_path: &str, line_number: u64, line: &str, ranges: Vec<(usize, usize)>)
        requires
            old(self).wf(),
        ensures
            final(self).wf(),
            final(self)@ == aggregated(old(self)@, full_path@, line_number, line@, ranges@),
    {
        broadcast use group_hash_axioms;

        proof {
            lemma_aggregated_keeps_keys_unique(self@, full_path@, line_number, line@, ranges@);
            lemma_key_position(self@, full_path@, line_number);
        }
        let ghost before = self@;
        let ghost after = aggregated(before, full_path@, line_number, line@, ranges@);
        let ghost index = self.by_line@;
        let at = self.position(full_path, line_number);
        if at < self.records.len() {
            let mut more = ranges;
            self.records[at].ranges.append(&mut more);
            proof {
                assert(self@ =~= after);
                assert forall|r: int| 0 <= r < after.len() implies (#[trigger] after[r]).line_number
                    == before[r].line_number by {}
                assert(index_sound(before, index));
                assert(index_complete(before, index));
                assert(index_sound(after, index)) by {
                    assert forall|number: u64, j: int|
                        index.contains_key(number) && 0 <= j < index[number]@.len() implies {
                        &&& (#[trigger] index[number]@[j]) < after.len()
                        &&& after[index[number]@[j] as int].line_number == number
                    } by {
                        let r = index[number]@[j] as int;
                        assert(after[r].line_number == before[r].line_number);
                    }
                }
                assert(index_complete(after, index)) by {
                    assert forall|r: int| 0 <= r < after.len() implies {
                        &&& index.contains_key((#[trigger] after[r]).line_number)
                        &&& index[after[r].line_number]@.contains(r as usize)
                    } by {
                        assert(after[r].line_number == before[r].line_number);
                        assert(index.contains_key(before[r].line_number));
                    }
                }
            }
        } else {
            let count = self.records.len();
            self.records.push(GrepResult { full_path: full_path.to_owned(), line_number, line: line.to_owned(), ranges });
            let mut bucket = match self.by_line.remove(&line_number) {
                Some(bucket) => bucket,
                None => Vec::new(),
            };
            let ghost old_bucket = bucket@;
            bucket.push(count);
            let ghost new_bucket = bucket@;
            self.by_line.insert(line_number, bucket);
            proof {
                let grown = self.by_line@;
                assert(self@ =~= after);
                assert(index.contains_key(line_number) ==> index[line_number]@ == old_bucket);
                assert(!index.contains_key(line_number) ==> old_bucket.len() == 0);
                assert(grown.contains_key(line_number) && grown[line_number]@ == new_bucket);
                assert forall|number: u64| number != line_number implies (grown.contains_key(number)
                    == index.contains_key(number) && (index.contains_key(number) ==> #[trigger] grown[number]
                    == index[number])) by {}
                assert(index_sound(after, grown)) by {
                    assert forall|number: u64, j: int|
                        grown.contains_key(number) && 0 <= j < grown[number]@.len() implies {
                        &&& (#[trigger] grown[number]@[j]) < after.len()
                        &&& after[grown[number]@[j] as int].line_number == number
                    } by {
                        if number == line_number {
                            if j < old_bucket.len() {
                                assert(new_bucket[j] == old_bucket[j]);
                                assert(index[line_number]@[j] < before.len());
                                assert(after[old_bucket[j] as int] == before[old_bucket[j] as int]);
                            }
                        } else {
                            assert(index[number]@[j] < before.len());
                            assert(after[index[number]@[j] as int] == before[index[number]@[j] as int]);
                        }
                    }
                }
                assert(index_complete(after, grown)) by {
                    assert forall|r: int| 0 <= r < after.len() implies {
                        &&& grown.contains_key((#[trigger] after[r]).line_number)
                        &&& grown[after[r].line_number]@.contains(r as usize)
                    } by {
                        if r < before.len() {
                            assert(after[r] == before[r]);
                            assert(index.contains_key(before[r].line_number));
                            if before[r].line_number == line_number {
                                let k = choose|k: int| 0 <= k < old_bucket.len() && old_bucket[k] == r as usize;
                                assert(new_bucket[k] == r as usize);
                            }
                        } else {
                            assert(new_bucket[new_bucket.len() - 1] == r as usize);
                        }
                    }
                }
            }
        }
    }

    /// Takes in the line matches of one file, in order.
    pub fn absorb(&mut self, full_path: &str, hits: &Vec<LineMatch>)
        requires
            old(self).wf(),
        ensures
            final(self).wf(),
            final(self)@ == absorbed(old(self)@, full_path@, line_matches_view(hits@)),
    {
        let ghost all = line_matches_view(hits@);
        let mut i: usize = 0;
        assert(all.take(0) =~= Seq::<LineMatchView>::empty());
        while i < hits.len()
            invariant
                i <= hits.len(),
                all == line_matches_view(hits@),
                self.wf(),
                self@ == absorbed(old(self)@, full_path@, all.take(i as int)),
            decreases hits.len() - i,
        {
            let hit = &hits[i];
            proof {
                assert(all.take(i + 1).drop_last() =~= all.take(i as int));
                assert(all.take(i + 1).last() == hit@);
            }
            self.aggregate(full_path, hit.line_number, hit.line.as_str(), copy_ranges(&hit.ranges));
            i += 1;
        }
        assert(all.take(hits.len() as int) =~= all);
    }

    /// Hands out the records, in the order in which their lines were first
    /// contributed. No two of them are for the same line of the same file.
    pub fn into_results(self) -> (results: Vec<GrepResult>)
        requires
            self.wf(),
        ensures
            records_of(results@) == self@,
            keys_unique(records_of(results@)),
    {
        let Aggregator { records, by_line: _ } = self;
        records
    }
}

} // verus!

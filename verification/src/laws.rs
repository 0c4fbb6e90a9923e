//! What holds of every search: an early stop gives a prefix of the full
//! result, progress counts every file once, a search can be repeated, and
//! the readings of the cancellation flag fix where a run stops.

use vstd::prelude::*;
use crate::aggregate::absorbed;
use crate::aggregate::hit_on_line;
use crate::aggregate::lemma_absorbed_shape;
use crate::aggregate::ResultRecord;
use crate::error::SearchError;
use crate::scanner::LineMatchView;
use crate::search::advanced;
use crate::search::after_files;
use crate::search::ends_after;
use crate::search::file_hits;
use crate::search::initial_state;
use crate::search::notices;
use crate::search::reading_at;
use crate::search::stop_boundary;
use crate::search::stop_from;
use crate::search::Phase;
use crate::search::ProgressView;
use crate::search::SearchState;
use crate::search::StepView;
use crate::store::read_file;
use crate::store::StoredFile;

verus! {

/// The line matches of the file at position `i` of a search, read from the
/// store.
pub open spec fn hits_of_file(start: SearchState, store: Seq<StoredFile>, i: int) -> Seq<LineMatchView> {
    file_hits(start.pattern, read_file(store, start.candidates[i].full_path@).unwrap()).unwrap()
}

/// Two files of a search collide when they have the same path and a match
/// on the same line number: their matches then go to one record.
pub open spec fn files_collide(start: SearchState, store: Seq<StoredFile>, a: int, b: int) -> bool {
    &&& start.candidates[a].full_path@ == start.candidates[b].full_path@
    &&& exists|line_number: u64|
        hit_on_line(hits_of_file(start, store, a), line_number) && #[trigger] hit_on_line(
            hits_of_file(start, store, b),
            line_number,
        )
}

/// A run that is still running after `k` file boundaries has scanned one
/// file at each of them: every one of these files was in the store, its scan
/// succeeded, and its line matches were taken into the records.
pub proof fn lemma_running_trace(start: SearchState, store: Seq<StoredFile>, k: nat)
    requires
        start == initial_state(start.pattern, start.candidates),
        k <= start.candidates.len(),
        after_files(start, store, k).phase == Phase::Running,
    ensures
        forall|i: nat|
            i <= k ==> {
                &&& (#[trigger] after_files(start, store, i)).phase == Phase::Running
                &&& after_files(start, store, i).scanned == i
                &&& after_files(start, store, i).pattern == start.pattern
                &&& after_files(start, store, i).candidates == start.candidates
            },
        forall|i: nat|
            i < k ==> {
                &&& read_file(store, start.candidates[i as int].full_path@) is Some
                &&& file_hits(start.pattern, read_file(store, start.candidates[i as int].full_path@).unwrap()) is Some
                &&& (#[trigger] after_files(start, store, i + 1)).records == absorbed(
                    after_files(start, store, i).records,
                    start.candidates[i as int].full_path@,
                    hits_of_file(start, store, i as int),
                )
            },
    decreases k,
{
    if k > 0 {
        let before = after_files(start, store, (k - 1) as nat);
        lemma_trace_frame(start, store, (k - 1) as nat);
        lemma_running_trace(start, store, (k - 1) as nat);
        assert forall|i: nat| i < k implies {
            &&& read_file(store, start.candidates[i as int].full_path@) is Some
            &&& file_hits(start.pattern, read_file(store, start.candidates[i as int].full_path@).unwrap()) is Some
            &&& (#[trigger] after_files(start, store, i + 1)).records == absorbed(
                after_files(start, store, i).records,
                start.candidates[i as int].full_path@,
                hits_of_file(start, store, i as int),
            )
        } by {
            if i + 1 == k {
                assert(after_files(start, store, i) == before);
            }
        }
    }
}

/// Along a run the pattern and the files to scan stay, and the search is
/// running or has failed.
pub proof fn lemma_trace_frame(start: SearchState, store: Seq<StoredFile>, k: nat)
    requires
        start == initial_state(start.pattern, start.candidates),
    ensures
        after_files(start, store, k).pattern == start.pattern,
        after_files(start, store, k).candidates == start.candidates,
        after_files(start, store, k).phase == Phase::Running || after_files(start, store, k).phase
            == Phase::Failed,
        after_files(start, store, k).phase == Phase::Running ==> k > 0 ==> after_files(
            start,
            store,
            (k - 1) as nat,
        ).phase == Phase::Running,
    decreases k,
{
    if k > 0 {
        lemma_trace_frame(start, store, (k - 1) as nat);
    }
}

/// Whether a record is for a matched line of the file at position `i`.
pub open spec fn record_from_file(start: SearchState, store: Seq<StoredFile>, record: ResultRecord, i: int) -> bool {
    &&& start.candidates[i].full_path@ == record.full_path
    &&& hit_on_line(hits_of_file(start, store, i), record.line_number)
}

/// Whether a record is for a matched line of one of the first `k` files.
pub open spec fn record_from_first(start: SearchState, store: Seq<StoredFile>, record: ResultRecord, k: nat) -> bool {
    exists|i: int| 0 <= i < k && #[trigger] record_from_file(start, store, record, i)
}

/// Every record of a running search is for a matched line of one of the
/// files scanned so far.
pub proof fn lemma_record_provenance(start: SearchState, store: Seq<StoredFile>, k: nat)
    requires
        start == initial_state(start.pattern, start.candidates),
        k <= start.candidates.len(),
        after_files(start, store, k).phase == Phase::Running,
    ensures
        forall|p: int|
            0 <= p < after_files(start, store, k).records.len() ==> record_from_first(
                start,
                store,
                #[trigger] after_files(start, store, k).records[p],
                k,
            ),
    decreases k,
{
    if k > 0 {
        let j = (k - 1) as nat;
        lemma_running_trace(start, store, k);
        lemma_record_provenance(start, store, j);
        let before = after_files(start, store, j).records;
        let after = after_files(start, store, k).records;
        let path = start.candidates[j as int].full_path@;
        let hits = hits_of_file(start, store, j as int);
        assert(after_files(start, store, j + 1) == after_files(start, store, k));
        assert(after == absorbed(before, path, hits));
        lemma_absorbed_shape(before, path, hits);
        assert forall|p: int| 0 <= p < after.len() implies record_from_first(
            start,
            store,
            #[trigger] after[p],
            k,
        ) by {
            if p < before.len() {
                assert(record_from_first(start, store, before[p], j));
                let i = choose|i: int| 0 <= i < j && #[trigger] record_from_file(start, store, before[p], i);
                assert(record_from_file(start, store, after[p], i));
            } else {
                assert(record_from_file(start, store, after[p], j as int));
            }
        }
    }
}

/// A search that is stopped early gives a prefix of what it would have
/// given later: the records after `j` files are the first records after
/// `k >= j` files, unchanged and in the same order, and before the first
/// file there is none. This holds where no file among the first `j` collides
/// with a file scanned after them; where two such files collide, the later
/// one adds ranges to a record of the earlier one.
pub proof fn lemma_early_stop_gives_prefix(start: SearchState, store: Seq<StoredFile>, j: nat, k: nat)
    requires
        start == initial_state(start.pattern, start.candidates),
        j <= k <= start.candidates.len(),
        after_files(start, store, k).phase == Phase::Running,
        forall|a: int, b: int| 0 <= a < j <= b < k ==> !#[trigger] files_collide(start, store, a, b),
    ensures
        after_files(start, store, 0).records.len() == 0,
        after_files(start, store, j).records.is_prefix_of(after_files(start, store, k).records),
    decreases k - j,
{
    let early = after_files(start, store, j).records;
    if j < k {
        let m = (k - 1) as nat;
        lemma_running_trace(start, store, k);
        lemma_early_stop_gives_prefix(start, store, j, m);
        lemma_record_provenance(start, store, j);
        let before = after_files(start, store, m).records;
        let after = after_files(start, store, k).records;
        let path = start.candidates[m as int].full_path@;
        let hits = hits_of_file(start, store, m as int);
        assert(after_files(start, store, m + 1) == after_files(start, store, k));
        assert(after == absorbed(before, path, hits));
        lemma_absorbed_shape(before, path, hits);
        assert forall|p: int| 0 <= p < early.len() implies early[p] == after[p] by {
            assert(before[p] == early[p]);
            assert(record_from_first(start, store, early[p], j));
            let i = choose|i: int| 0 <= i < j && #[trigger] record_from_file(start, store, early[p], i);
            assert(!files_collide(start, store, i, m as int));
            assert(!(before[p].full_path == path && hit_on_line(hits, before[p].line_number)));
        }
        assert(early =~= after.take(early.len() as int));
    } else {
        assert(early =~= early.take(early.len() as int));
    }
}

/// Without a cancellation a search over N files announces each file once,
/// in scanning order: at the boundary before file `i` (counted from 0) the
/// step is the notice with `current == i + 1` and `total == N`, and at the
/// boundary after the last file the search completes. So `current` takes
/// every value from 1 to N once, in increasing order.
pub proof fn lemma_progress_counts_up(start: SearchState, store: Seq<StoredFile>)
    requires
        start == initial_state(start.pattern, start.candidates),
        after_files(start, store, start.candidates.len()).phase == Phase::Running,
    ensures
        forall|i: nat|
            i < start.candidates.len() ==> {
                &&& advanced(#[trigger] after_files(start, store, i), false).0 == after_files(start, store, i)
                &&& advanced(after_files(start, store, i), false).1 == StepView::Scan(
                    notices(start.candidates, start.candidates.len())[i as int],
                )
            },
        advanced(after_files(start, store, start.candidates.len()), false).1 == StepView::Done,
        advanced(after_files(start, store, start.candidates.len()), false).0.phase == Phase::Completed,
        notices(start.candidates, start.candidates.len()).len() == start.candidates.len(),
        forall|i: int|
            0 <= i < start.candidates.len() ==> {
                &&& (#[trigger] notices(start.candidates, start.candidates.len())[i]).current == i + 1
                &&& notices(start.candidates, start.candidates.len())[i].total == start.candidates.len()
                &&& notices(start.candidates, start.candidates.len())[i].processing
                    == start.candidates[i].full_path@
            },
{
    lemma_running_trace(start, store, start.candidates.len());
}

/// A search gives the same outcome whenever it is run again on the same
/// files and stops at the same boundary: the records and the notices are
/// determined by the request, the listing, the store and the number of
/// files gone through. Two runs that are not cancelled go through all
/// files, so they give the same records.
pub proof fn lemma_search_is_repeatable(
    start: SearchState,
    store: Seq<StoredFile>,
    k: nat,
    first: Result<Seq<ResultRecord>, SearchError>,
    first_sent: Seq<ProgressView>,
    second: Result<Seq<ResultRecord>, SearchError>,
    second_sent: Seq<ProgressView>,
)
    requires
        ends_after(start, store, k, first, first_sent),
        ends_after(start, store, k, second, second_sent),
    ensures
        first_sent == second_sent,
        first is Ok <==> second is Ok,
        first is Ok ==> first == second,
{
}

/// A run stops at a file boundary: it goes back over no boundary, and
/// through no more boundaries than there are files.
pub proof fn lemma_stop_from_bounds(start: SearchState, store: Seq<StoredFile>, readings: Seq<bool>, i: nat)
    requires
        i <= start.candidates.len(),
    ensures
        i <= stop_from(start, store, readings, i) <= start.candidates.len(),
    decreases start.candidates.len() - i,
{
    if i < start.candidates.len() && !reading_at(readings, i as int) && after_files(start, store, i + 1).phase
        == Phase::Running {
        lemma_stop_from_bounds(start, store, readings, i + 1);
    }
}

/// A run in which the flag is never read raised and no file fails goes
/// through every file: counted from any boundary, it stops when no file is
/// left.
pub proof fn lemma_uncancelled_run_scans_every_file(
    start: SearchState,
    store: Seq<StoredFile>,
    readings: Seq<bool>,
    i: nat,
)
    requires
        start == initial_state(start.pattern, start.candidates),
        i <= start.candidates.len(),
        after_files(start, store, start.candidates.len()).phase == Phase::Running,
        forall|j: int| i <= j < start.candidates.len() ==> !reading_at(readings, j),
    ensures
        stop_from(start, store, readings, i) == start.candidates.len(),
    decreases start.candidates.len() - i,
{
    if i < start.candidates.len() {
        lemma_running_trace(start, store, start.candidates.len());
        assert(after_files(start, store, i + 1).phase == Phase::Running);
        lemma_uncancelled_run_scans_every_file(start, store, readings, i + 1);
    }
}

/// A run stops at the first boundary at which the flag is read raised,
/// where the files before it were scanned without failure: it goes through
/// exactly the boundaries before that one.
pub proof fn lemma_run_stops_at_first_raised_reading(
    start: SearchState,
    store: Seq<StoredFile>,
    readings: Seq<bool>,
    i: nat,
    j: nat,
)
    requires
        start == initial_state(start.pattern, start.candidates),
        i <= j < start.candidates.len(),
        after_files(start, store, j).phase == Phase::Running,
        reading_at(readings, j as int),
        forall|b: int| i <= b < j ==> !reading_at(readings, b),
    ensures
        stop_from(start, store, readings, i) == j,
        i == 0 ==> stop_boundary(start, store, readings) == j,
    decreases j - i,
{
    if i < j {
        lemma_running_trace(start, store, j);
        assert(after_files(start, store, i + 1).phase == Phase::Running);
        lemma_run_stops_at_first_raised_reading(start, store, readings, i + 1, j);
    }
}

} // verus!

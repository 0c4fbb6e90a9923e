//! The search itself: a state machine that the host drives from file to
//! file, and a driver that runs it over files held in memory.

use vstd::prelude::*;
use crate::aggregate::absorbed;
use crate::aggregate::keys_unique;
use crate::aggregate::records_of;
use crate::aggregate::Aggregator;
use crate::aggregate::GrepResult;
use crate::aggregate::ResultRecord;
use crate::cancel::CancelToken;
use crate::enumerate::candidates_of;
use crate::enumerate::filter_accepted;
use crate::enumerate::Candidate;
use crate::enumerate::DirEntry;
use crate::enumerate::NameFilter;
use crate::error::SearchError;
use crate::pattern::pattern_accepted;
use crate::pattern::searched_lines;
use crate::pattern::LineMatcher;
use crate::pattern::PatternSpec;
use crate::scanner::line_matches;
use crate::scanner::scan;
use crate::scanner::LineMatchView;
use crate::store::find_stored;
use crate::store::read_file;
use crate::store::StoredFile;

verus! {

/// What to search for, and where.
#[derive(Debug, Clone)]
pub struct GrepRequest {
    /// The text or regular expression to find.
    pub condition: String,
    /// The directory the host lists.
    pub start_directory: String,
    /// The name filter: a glob, or `*.*` for every file.
    pub file_type: String,
    pub match_by_word: bool,
    pub case_sensitive: bool,
    /// Whether `condition` is a regular expression rather than literal text.
    pub regexp: bool,
    /// Whether the host descends into subdirectories.
    pub recursive: bool,
}

/// The mathematical value of a [`GrepRequest`].
pub struct GrepRequestView {
    pub condition: Seq<char>,
    pub start_directory: Seq<char>,
    pub file_type: Seq<char>,
    pub match_by_word: bool,
    pub case_sensitive: bool,
    pub regexp: bool,
    pub recursive: bool,
}

impl View for GrepRequest {
    type V = GrepRequestView;

    open spec fn view(&self) -> GrepRequestView {
        GrepRequestView {
            condition: self.condition@,
            start_directory: self.start_directory@,
            file_type: self.file_type@,
            match_by_word: self.match_by_word,
            case_sensitive: self.case_sensitive,
            regexp: self.regexp,
            recursive: self.recursive,
        }
    }
}

/// The pattern that a request asks for.
pub open spec fn pattern_of(request: GrepRequest) -> PatternSpec {
    PatternSpec {
        text: request.condition@,
        case_sensitive: request.case_sensitive,
        whole_word: request.match_by_word,
        is_regex: request.regexp,
    }
}

/// Whether the pattern of a request compiles.
pub open spec fn request_pattern_accepted(request: GrepRequest) -> bool {
    pattern_accepted(request.condition@, request.case_sensitive, request.match_by_word, request.regexp)
}

/// A notice that a file is about to be scanned.
#[derive(Debug, Clone)]
pub struct GrepProgress {
    /// The path of the file.
    pub processing: String,
    /// The position of the file among the files to scan, counted from 1.
    pub current: usize,
    /// The number of files to scan.
    pub total: usize,
}

/// The mathematical value of a [`GrepProgress`].
pub struct ProgressView {
    pub processing: Seq<char>,
    pub current: nat,
    pub total: nat,
}

impl View for GrepProgress {
    type V = ProgressView;

    open spec fn view(&self) -> ProgressView {
        ProgressView { processing: self.processing@, current: self.current as nat, total: self.total as nat }
    }
}

/// The values of a sequence of progress notices.
pub open spec fn events_of(events: Seq<GrepProgress>) -> Seq<ProgressView> {
    events.map_values(|event: GrepProgress| event@)
}

/// Where a search stands.
#[derive(Clone, Copy, Debug, PartialEq, Eq, Structural)]
pub enum Phase {
    /// Files are still to be scanned.
    Running,
    /// Every file was scanned.
    Completed,
    /// The search was told to stop before every file was scanned.
    Cancelled,
    /// A file could not be read or scanned.
    Failed,
}

/// What the host is to do next.
#[derive(Debug)]
pub enum Step {
    /// Deliver the notice, read the file it names and feed its bytes.
    Scan(GrepProgress),
    /// Nothing is left to do: take the results.
    Done,
}

/// The mathematical value of a [`Step`].
pub enum StepView {
    Scan(ProgressView),
    Done,
}

impl View for Step {
    type V = StepView;

    open spec fn view(&self) -> StepView {
        match self {
            Step::Scan(progress) => StepView::Scan(progress@),
            Step::Done => StepView::Done,
        }
    }
}

/// The mathematical value of a [`Search`].
pub struct SearchState {
    pub pattern: PatternSpec,
    /// The files to scan, in scanning order.
    pub candidates: Seq<Candidate>,
    /// How many of them were scanned.
    pub scanned: nat,
    pub phase: Phase,
    pub records: Seq<ResultRecord>,
}

/// The state in which a search starts.
pub open spec fn initial_state(pattern: PatternSpec, candidates: Seq<Candidate>) -> SearchState {
    SearchState { pattern, candidates, scanned: 0, phase: Phase::Running, records: Seq::empty() }
}

/// Whether the search waits for the bytes of its next file.
pub open spec fn awaits_file(state: SearchState) -> bool {
    state.phase == Phase::Running && state.scanned < state.candidates.len()
}

/// The notice for the file at position `i`, counted from 0.
pub open spec fn progress_event(candidates: Seq<Candidate>, i: int) -> ProgressView {
    ProgressView {
        processing: candidates[i].full_path@,
        current: (i + 1) as nat,
        total: candidates.len(),
    }
}

/// The state and the step after the cancellation flag was read at a file
/// boundary. A search that is over stays as it is. One with no file left
/// completes, whatever the flag says. Otherwise a raised flag cancels, and a
/// lowered one announces the next file.
pub open spec fn advanced(state: SearchState, cancelled: bool) -> (SearchState, StepView) {
    if state.phase != Phase::Running {
        (state, StepView::Done)
    } else if state.scanned >= state.candidates.len() {
        (SearchState { phase: Phase::Completed, ..state }, StepView::Done)
    } else if cancelled {
        (SearchState { phase: Phase::Cancelled, ..state }, StepView::Done)
    } else {
        (state, StepView::Scan(progress_event(state.candidates, state.scanned as int)))
    }
}

/// The line matches in the bytes of a file; `None` where the searcher fails.
pub open spec fn file_hits(pattern: PatternSpec, bytes: Seq<u8>) -> Option<Seq<LineMatchView>> {
    match searched_lines(pattern, bytes) {
        Some(lines) => Some(line_matches(pattern, lines)),
        None => None,
    }
}

/// The state after the bytes of the awaited file were fed. The line matches
/// go to the records under the file's path and the file counts as scanned;
/// where the scan fails, the search fails and keeps no record. A search that
/// awaits no file stays as it is.
pub open spec fn fed(state: SearchState, bytes: Seq<u8>) -> SearchState {
    if !awaits_file(state) {
        state
    } else {
        match file_hits(state.pattern, bytes) {
            Some(hits) => SearchState {
                scanned: state.scanned + 1,
                records: absorbed(state.records, state.candidates[state.scanned as int].full_path@, hits),
                ..state
            },
            None => SearchState { phase: Phase::Failed, records: Seq::empty(), ..state },
        }
    }
}

/// The state after the awaited file could not be read: the search fails and
/// keeps no record. A search that awaits no file stays as it is.
pub open spec fn aborted(state: SearchState) -> SearchState {
    if !awaits_file(state) {
        state
    } else {
        SearchState { phase: Phase::Failed, records: Seq::empty(), ..state }
    }
}

/// The state after the awaited file was looked up in a store: a file that
/// is there is fed, one that is missing aborts the search. A search that
/// awaits no file stays as it is.
pub open spec fn after_next_file(state: SearchState, store: Seq<StoredFile>) -> SearchState {
    if !awaits_file(state) {
        state
    } else {
        match read_file(store, state.candidates[state.scanned as int].full_path@) {
            Some(bytes) => fed(state, bytes),
            None => aborted(state),
        }
    }
}

/// A request whose name filter and pattern are compiled: a search that has
/// not yet seen the directory listing.
pub struct SearchPlan {
    filter: NameFilter,
    matcher: LineMatcher,
}

/// A search in progress. The host drives it: `next` says what to do, and
/// the host feeds back the bytes of the file it was told to read.
pub struct Search {
    matcher: LineMatcher,
    candidates: Vec<Candidate>,
    scanned: usize,
    phase: Phase,
    results: Aggregator,
}

impl View for Search {
    type V = SearchState;

    closed spec fn view(&self) -> SearchState {
        SearchState {
            pattern: self.matcher.source(),
            candidates: self.candidates@,
            scanned: self.scanned as nat,
            phase: self.phase,
            records: self.results@,
        }
    }
}

impl SearchPlan {
    /// The name filter of the plan.
    pub closed spec fn filter(&self) -> Seq<char> {
        self.filter.pattern()
    }

    /// The pattern of the plan.
    pub closed spec fn pattern(&self) -> PatternSpec {
        self.matcher.source()
    }

    /// Lowers the cancellation flag and compiles the request. Fails on a
    /// name filter that is too long or no valid glob with a `Glob` error;
    /// else on an invalid pattern with a `Pattern` error.
    pub fn prepare(request: &GrepRequest, token: &CancelToken) -> (prepared: Result<SearchPlan, SearchError>)
        ensures
            prepared.is_ok() == (filter_accepted(request.file_type@) && request_pattern_accepted(*request)),
            prepared matches Ok(plan) ==> plan.filter() == request.file_type@ && plan.pattern() == pattern_of(*request),
            prepared matches Err(e) ==> {
                &&& e is Glob <==> !filter_accepted(request.file_type@)
                &&& e is Pattern <==> filter_accepted(request.file_type@)
                &&& !(e is Io)
            },
    {
        token.reset();
        SearchPlan::compile(request)
    }

    /// Compiles the request, without a cancellation flag: for a search that
    /// is told at each file boundary whether to go on. Fails as `prepare`
    /// does.
    pub fn compile(request: &GrepRequest) -> (prepared: Result<SearchPlan, SearchError>)
        ensures
            prepared.is_ok() == (filter_accepted(request.file_type@) && request_pattern_accepted(*request)),
            prepared matches Ok(plan) ==> plan.filter() == request.file_type@ && plan.pattern() == pattern_of(*request),
            prepared matches Err(e) ==> {
                &&& e is Glob <==> !filter_accepted(request.file_type@)
                &&& e is Pattern <==> filter_accepted(request.file_type@)
                &&& !(e is Io)
            },
    {
        let filter = match NameFilter::compile(request.file_type.as_str()) {
            Ok(filter) => filter,
            Err(fault) => {
                return Err(fault);
            },
        };
        let matcher = match LineMatcher::compile(
            request.condition.as_str(),
            request.case_sensitive,
            request.match_by_word,
            request.regexp,
        ) {
            Ok(matcher) => matcher,
            Err(fault) => {
                return Err(fault);
            },
        };
        Ok(SearchPlan { filter, matcher })
    }

    /// Starts the search on a directory listing: the files to scan are
    /// selected, none is scanned yet, and there is no record.
    pub fn start(self, entries: &Vec<DirEntry>) -> (search: Search)
        ensures
            search.wf(),
            search@ == initial_state(self.pattern(), candidates_of(entries@, self.filter())),
    {
        let candidates = self.filter.select(entries);
        Search { matcher: self.matcher, candidates, scanned: 0, phase: Phase::Running, results: Aggregator::new() }
    }
}

impl Search {
    /// The invariant of a search: no more files are scanned than there are,
    /// and no two records are for the same line of the same file.
    pub closed spec fn wf(&self) -> bool {
        self.scanned <= self.candidates.len() && self.results.wf()
    }

    /// A well-formed search has scanned no more files than there are, and no
    /// two of its records are for the same line of the same file.
    pub proof fn lemma_wf(&self)
        requires
            self.wf(),
        ensures
            self@.scanned <= self@.candidates.len(),
            keys_unique(self@.records),
    {
        self.results.lemma_keys_unique();
    }

    /// Where the search stands.
    pub fn phase(&self) -> (phase: Phase)
        ensures
            phase == self@.phase,
    {
        self.phase
    }

    /// The number of files to scan.
    pub fn total(&self) -> (total: usize)
        ensures
            total == self@.candidates.len(),
    {
        self.candidates.len()
    }

    /// The number of files scanned so far.
    pub fn scanned(&self) -> (scanned: usize)
        ensures
            scanned == self@.scanned,
    {
        self.scanned
    }

    /// Decides the next step at a file boundary, given what was read from
    /// the cancellation flag.
    pub fn advance(&mut self, cancelled: bool) -> (step: Step)
        requires
            old(self).wf(),
        ensures
            final(self).wf(),
            (final(self)@, step@) == advanced(old(self)@, cancelled),
    {
        match self.phase {
            Phase::Running => {
                if self.scanned >= self.candidates.len() {
                    self.phase = Phase::Completed;
                    Step::Done
                } else if cancelled {
                    self.phase = Phase::Cancelled;
                    Step::Done
                } else {
                    Step::Scan(
                        GrepProgress {
                            processing: self.candidates[self.scanned].full_path.clone(),
                            current: self.scanned + 1,
                            total: self.candidates.len(),
                        },
                    )
                }
            },
            _ => Step::Done,
        }
    }

    /// Reads the cancellation flag and decides the next step. The flag is
    /// shared, so either reading can come back: the step is the one for a
    /// raised flag or the one for a lowered flag.
    pub fn next(&mut self, token: &CancelToken) -> (step: Step)
        requires
            old(self).wf(),
        ensures
            final(self).wf(),
            (final(self)@, step@) == advanced(old(self)@, true) || (final(self)@, step@) == advanced(
                old(self)@,
                false,
            ),
    {
        let cancelled = token.is_cancelled();
        self.advance(cancelled)
    }

    /// Takes the bytes of the awaited file, scans them and adds what is
    /// found to the records. Fails, and fails the search, when the scan
    /// does.
    pub fn feed(&mut self, bytes: &[u8]) -> (outcome: Result<(), SearchError>)
        requires
            old(self).wf(),
        ensures
            final(self).wf(),
            final(self)@ == fed(old(self)@, bytes@),
            outcome.is_err() == (awaits_file(old(self)@) && file_hits(old(self)@.pattern, bytes@) is None),
            outcome matches Err(e) ==> e is Io,
    {
        let awaited = match self.phase {
            Phase::Running => self.scanned < self.candidates.len(),
            _ => false,
        };
        if !awaited {
            return Ok(());
        }
        match scan(&self.matcher, bytes) {
            Ok(hits) => {
                self.results.absorb(self.candidates[self.scanned].full_path.as_str(), &hits);
                self.scanned = self.scanned + 1;
                Ok(())
            },
            Err(fault) => {
                self.phase = Phase::Failed;
                self.results = Aggregator::new();
                Err(fault)
            },
        }
    }

    /// Tells the search that the awaited file could not be read. The search
    /// fails: one unreadable file ends the whole search. Returns the error
    /// to report, which carries the reason given.
    pub fn abort(&mut self, reason: &str) -> (fault: SearchError)
        requires
            old(self).wf(),
        ensures
            final(self).wf(),
            final(self)@ == aborted(old(self)@),
            fault is Io,
            fault.reason() == reason@,
    {
        let awaited = match self.phase {
            Phase::Running => self.scanned < self.candidates.len(),
            _ => false,
        };
        if awaited {
            self.phase = Phase::Failed;
            self.results = Aggregator::new();
        }
        SearchError::Io(reason.to_owned())
    }

    /// Reads the awaited file from a store and feeds it. A file that the
    /// store lacks cannot be read: it aborts the search.
    pub fn feed_from(&mut self, store: &Vec<StoredFile>) -> (outcome: Result<(), SearchError>)
        requires
            old(self).wf(),
        ensures
            final(self).wf(),
            final(self)@ == after_next_file(old(self)@, store@),
            outcome.is_err() == (awaits_file(old(self)@) && final(self)@.phase == Phase::Failed),
            outcome matches Err(e) ==> e is Io,
    {
        let awaited = match self.phase {
            Phase::Running => self.scanned < self.candidates.len(),
            _ => false,
        };
        if !awaited {
            return Ok(());
        }
        match find_stored(store, self.candidates[self.scanned].full_path.as_str()) {
            Some(at) => self.feed(store[at].content.as_slice()),
            None => Err(self.abort("no such file")),
        }
    }

    /// Ends the search and hands out its records, in the order in which
    /// their lines were found. After a cancellation they are the records of
    /// the files scanned until then.
    pub fn finish(self) -> (results: Vec<GrepResult>)
        requires
            self.wf(),
        ensures
            records_of(results@) == self@.records,
            keys_unique(records_of(results@)),
    {
        self.results.into_results()
    }
}

/// The state after the host went through `k` file boundaries without a
/// cancellation, reading each awaited file from the store: a file that is
/// there is fed, one that is missing aborts the search.
pub open spec fn after_files(start: SearchState, store: Seq<StoredFile>, k: nat) -> SearchState
    decreases k,
{
    if k == 0 {
        start
    } else {
        after_next_file(after_files(start, store, (k - 1) as nat), store)
    }
}

/// The notices for the first `k` files to scan.
pub open spec fn notices(candidates: Seq<Candidate>, k: nat) -> Seq<ProgressView> {
    Seq::new(k, |i: int| progress_event(candidates, i))
}

/// What a run that went through `k` file boundaries leaves behind. Where
/// none of the `k` files failed, the run ended before file `k` (by
/// cancellation, or because `k` files is all there are): it gives the
/// records of the files before, and sent their notices. Where file `k - 1`
/// failed, the run gives an `Io` error and sent the notices up to that file.
pub open spec fn ends_after(
    start: SearchState,
    store: Seq<StoredFile>,
    k: nat,
    outcome: Result<Seq<ResultRecord>, SearchError>,
    sent: Seq<ProgressView>,
) -> bool {
    let last = after_files(start, store, k);
    &&& k <= start.candidates.len()
    &&& sent == notices(start.candidates, k)
    &&& match outcome {
        Ok(records) => last.phase == Phase::Running && last.scanned == k && records == last.records,
        Err(e) => {
            &&& e is Io
            &&& k >= 1
            &&& last.phase == Phase::Failed
            &&& after_files(start, store, (k - 1) as nat).phase == Phase::Running
        },
    }
}

/// The records of an outcome.
pub open spec fn outcome_records(outcome: Result<Vec<GrepResult>, SearchError>) -> Result<Seq<ResultRecord>, SearchError> {
    match outcome {
        Ok(results) => Ok(records_of(results@)),
        Err(e) => Err(e),
    }
}

/// Searches files held in memory. The listing says which files there are;
/// the store holds their bytes. The cancellation flag is lowered, then read
/// before each file: once it is found raised the search stops and gives the
/// records so far. Before a file is scanned its notice is added to
/// `progress`. A file of the listing that the store lacks fails the search,
/// as a failing scan does.
pub fn run_grep(
    request: &GrepRequest,
    entries: &Vec<DirEntry>,
    store: &Vec<StoredFile>,
    token: &CancelToken,
    progress: &mut Vec<GrepProgress>,
) -> (outcome: Result<Vec<GrepResult>, SearchError>)
    ensures
        !filter_accepted(request.file_type@) ==> outcome is Err && outcome->Err_0 is Glob && final(progress)@ == old(
            progress,
        )@,
        filter_accepted(request.file_type@) && !request_pattern_accepted(*request) ==> outcome is Err
            && outcome->Err_0 is Pattern && final(progress)@ == old(progress)@,
        filter_accepted(request.file_type@) && request_pattern_accepted(*request) ==> exists|k: nat, sent: Seq<ProgressView>|
            {
                &&& events_of(final(progress)@) == events_of(old(progress)@) + sent
                &&& #[trigger] ends_after(
                    initial_state(pattern_of(*request), candidates_of(entries@, request.file_type@)),
                    store@,
                    k,
                    outcome_records(outcome),
                    sent,
                )
            },
        outcome matches Ok(results) ==> keys_unique(records_of(results@)),
{
    let plan = match SearchPlan::prepare(request, token) {
        Ok(plan) => plan,
        Err(fault) => {
            return Err(fault);
        },
    };
    let mut search = plan.start(entries);
    let ghost start = search@;
    let ghost before = events_of(progress@);
    assert(notices(start.candidates, 0) =~= Seq::<ProgressView>::empty());
    assert(events_of(progress@) =~= before + notices(start.candidates, 0));
    loop
        invariant
            search.wf(),
            start == initial_state(pattern_of(*request), candidates_of(entries@, request.file_type@)),
            search@ == after_files(start, store@, search@.scanned),
            search@.phase == Phase::Running,
            search@.candidates == start.candidates,
            events_of(progress@) == before + notices(start.candidates, search@.scanned),
            before == events_of(old(progress)@),
            filter_accepted(request.file_type@) && request_pattern_accepted(*request),
        decreases search@.candidates.len() - search@.scanned,
    {
        let ghost k = search@.scanned;
        match search.next(token) {
            Step::Done => {
                let results = search.finish();
                proof {
                    assert(ends_after(start, store@, k, outcome_records(Ok(results)), notices(start.candidates, k)));
                }
                return Ok(results);
            },
            Step::Scan(notice) => {
                let ghost sent_before = events_of(progress@);
                progress.push(notice);
                proof {
                    assert(events_of(progress@) =~= sent_before.push(notice@));
                    assert(notices(start.candidates, k + 1) =~= notices(start.candidates, k).push(
                        progress_event(start.candidates, k as int),
                    ));
                    assert(events_of(progress@) =~= before + notices(start.candidates, k + 1));
                }
                if let Err(fault) = search.feed_from(store) {
                    proof {
                        assert(ends_after(
                            start,
                            store@,
                            k + 1,
                            outcome_records(Err(fault)),
                            notices(start.candidates, k + 1),
                        ));
                    }
                    return Err(fault);
                }
            },
        }
    }
}

/// What was read from the cancellation flag at file boundary `i`, counted
/// from 0: raised where the list says so, lowered where the list says so or
/// has no entry for the boundary.
pub open spec fn reading_at(readings: Seq<bool>, i: int) -> bool {
    0 <= i < readings.len() && readings[i]
}

/// The number of file boundaries that a run goes through, counted from
/// boundary `i` on, where the search is still running: it stops before the
/// first file at whose boundary the flag is read raised, after the first
/// file that fails, and else when no file is left.
pub open spec fn stop_from(start: SearchState, store: Seq<StoredFile>, readings: Seq<bool>, i: nat) -> nat
    decreases start.candidates.len() - i,
{
    if i >= start.candidates.len() {
        i
    } else if reading_at(readings, i as int) {
        i
    } else if after_files(start, store, i + 1).phase != Phase::Running {
        i + 1
    } else {
        stop_from(start, store, readings, i + 1)
    }
}

/// The number of file boundaries that a run with the given readings goes
/// through.
pub open spec fn stop_boundary(start: SearchState, store: Seq<StoredFile>, readings: Seq<bool>) -> nat {
    stop_from(start, store, readings, 0)
}

/// Searches files held in memory, told beforehand what will be read from
/// the cancellation flag: `readings[i]` at the boundary before file `i`,
/// counted from 0, and a lowered flag where the list ends. The search stops
/// before the first file whose reading is raised and gives the records of
/// the files before it; with no raised reading it scans every file. Before a
/// file is scanned its notice is added to `progress`. A file of the listing
/// that the store lacks fails the search, as a failing scan does.
pub fn run_grep_with_readings(
    request: &GrepRequest,
    entries: &Vec<DirEntry>,
    store: &Vec<StoredFile>,
    readings: &Vec<bool>,
    progress: &mut Vec<GrepProgress>,
) -> (outcome: Result<Vec<GrepResult>, SearchError>)
    ensures
        !filter_accepted(request.file_type@) ==> outcome is Err && outcome->Err_0 is Glob && final(progress)@ == old(
            progress,
        )@,
        filter_accepted(request.file_type@) && !request_pattern_accepted(*request) ==> outcome is Err
            && outcome->Err_0 is Pattern && final(progress)@ == old(progress)@,
        filter_accepted(request.file_type@) && request_pattern_accepted(*request) ==> {
            let start = initial_state(pattern_of(*request), candidates_of(entries@, request.file_type@));
            let k = stop_boundary(start, store@, readings@);
            &&& events_of(final(progress)@) == events_of(old(progress)@) + notices(start.candidates, k)
            &&& ends_after(start, store@, k, outcome_records(outcome), notices(start.candidates, k))
        },
        outcome matches Ok(results) ==> keys_unique(records_of(results@)),
{
    let plan = match SearchPlan::compile(request) {
        Ok(plan) => plan,
        Err(fault) => {
            return Err(fault);
        },
    };
    let mut search = plan.start(entries);
    let ghost start = search@;
    let ghost before = events_of(progress@);
    assert(notices(start.candidates, 0) =~= Seq::<ProgressView>::empty());
    assert(events_of(progress@) =~= before + notices(start.candidates, 0));
    loop
        invariant
            search.wf(),
            start == initial_state(pattern_of(*request), candidates_of(entries@, request.file_type@)),
            search@ == after_files(start, store@, search@.scanned),
            search@.phase == Phase::Running,
            search@.candidates == start.candidates,
            search@.scanned <= start.candidates.len(),
            stop_boundary(start, store@, readings@) == stop_from(start, store@, readings@, search@.scanned),
            events_of(progress@) == before + notices(start.candidates, search@.scanned),
            before == events_of(old(progress)@),
            filter_accepted(request.file_type@) && request_pattern_accepted(*request),
        decreases search@.candidates.len() - search@.scanned,
    {
        let ghost k = search@.scanned;
        let at = search.scanned();
        let raised = at < readings.len() && readings[at];
        assert(raised == reading_at(readings@, k as int));
        match search.advance(raised) {
            Step::Done => {
                let results = search.finish();
                proof {
                    assert(stop_from(start, store@, readings@, k) == k);
                    assert(ends_after(start, store@, k, outcome_records(Ok(results)), notices(start.candidates, k)));
                }
                return Ok(results);
            },
            Step::Scan(notice) => {
                let ghost sent_before = events_of(progress@);
                progress.push(notice);
                proof {
                    assert(events_of(progress@) =~= sent_before.push(notice@));
                    assert(notices(start.candidates, k + 1) =~= notices(start.candidates, k).push(
                        progress_event(start.candidates, k as int),
                    ));
                    assert(events_of(progress@) =~= before + notices(start.candidates, k + 1));
                }
                if let Err(fault) = search.feed_from(store) {
                    proof {
                        assert(after_files(start, store@, k + 1).phase == Phase::Failed);
                        assert(stop_from(start, store@, readings@, k) == k + 1);
                        assert(ends_after(
                            start,
                            store@,
                            k + 1,
                            outcome_records(Err(fault)),
                            notices(start.candidates, k + 1),
                        ));
                    }
                    return Err(fault);
                }
                proof {
                    assert(after_files(start, store@, k + 1) == search@);
                    assert(stop_from(start, store@, readings@, k) == stop_from(start, store@, readings@, k + 1));
                }
            },
        }
    }
}

} // verus!

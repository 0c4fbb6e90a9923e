//! Selecting the files to scan from a directory listing.

use vstd::prelude::*;
use globset::Glob;
use globset::GlobSet;
use globset::GlobSetBuilder;
use crate::error::SearchError;
use crate::text::same_text;

verus! {

/// The flags of a directory entry that decide whether it can be searched.
#[derive(Clone, Copy, Debug)]
pub struct FileAttributes {
    pub is_symbolic_link: bool,
    pub is_directory: bool,
    pub is_device: bool,
    pub is_system: bool,
}

/// One entry of a directory listing, as the host's file system reports it.
#[derive(Debug)]
pub struct DirEntry {
    pub full_path: String,
    pub name: String,
    pub attributes: FileAttributes,
}

/// A file selected for scanning.
#[derive(Debug)]
pub struct Candidate {
    pub full_path: String,
    pub name: String,
}

/// The compiled glob set of the glob crate, carried as an opaque value.
#[verifier::external_type_specification]
#[verifier::external_body]
pub struct ExGlobSet(GlobSet);

/// The error of the glob crate, carried as an opaque value.
#[verifier::external_type_specification]
#[verifier::external_body]
pub struct ExGlobError(globset::Error);

/// Whether the text parses as a glob and compiles.
pub uninterp spec fn glob_accepted(pattern: Seq<char>) -> bool;

/// The glob text that a compiled glob set was built from.
pub uninterp spec fn glob_source(compiled: GlobSet) -> Seq<char>;

/// Whether a file name matches a glob, on the platform the library is built
/// for (where `\` separates path components it is read as `/`).
pub uninterp spec fn glob_matches(pattern: Seq<char>, name: Seq<char>) -> bool;

/// The longest name filter, in bytes, that is handed to the glob crate. The
/// crate goes through nested braces by recursion, and builds automata whose
/// size it does not check: a filter of this length keeps both small.
pub const MAX_FILTER_LEN: usize = 4096;

/// Calls `Glob::new` and, on success, `GlobSetBuilder::add` and
/// `GlobSetBuilder::build` for a set of that one glob. Believed: success is
/// a function of the text, and the set is the one built from that text.
#[verifier::external_body]
fn compile_glob(pattern: &str) -> (compiled: Result<GlobSet, globset::Error>)
    requires
        vstd::utf8::encode_utf8(pattern@).len() <= MAX_FILTER_LEN,
    ensures
        compiled.is_ok() == glob_accepted(pattern@),
        compiled.is_ok() ==> glob_source(compiled.unwrap()) == pattern@,
{
    match Glob::new(pattern) {
        Ok(glob) => GlobSetBuilder::new().add(glob).build(),
        Err(fault) => Err(fault),
    }
}

/// Calls `GlobSet::is_match`. Believed: the answer is a function of the text
/// that the set was built from and the name.
#[verifier::external_body]
fn glob_is_match(compiled: &GlobSet, name: &str) -> (matched: bool)
    ensures
        matched == glob_matches(glob_source(*compiled), name@),
{
    compiled.is_match(name)
}

/// Whether a text is taken as a name filter: it is no longer than
/// `MAX_FILTER_LEN` bytes, and it is a glob that compiles.
pub open spec fn filter_accepted(filter: Seq<char>) -> bool {
    vstd::utf8::encode_utf8(filter).len() <= MAX_FILTER_LEN && glob_accepted(filter)
}

/// The name filter that selects every file.
pub open spec fn match_all() -> Seq<char> {
    seq!['*', '.', '*']
}

/// An entry is regular when it is none of: symbolic link, directory, device,
/// system file.
pub open spec fn is_regular(attributes: FileAttributes) -> bool {
    !attributes.is_symbolic_link && !attributes.is_directory && !attributes.is_device
        && !attributes.is_system
}

/// Whether a name passes the filter: always under the filter that selects
/// every file, otherwise when the glob matches it.
pub open spec fn name_passes(filter: Seq<char>, name: Seq<char>) -> bool {
    filter == match_all() || glob_matches(filter, name)
}

/// Whether an entry is selected under a name filter.
pub open spec fn is_selected(entry: DirEntry, filter: Seq<char>) -> bool {
    is_regular(entry.attributes) && name_passes(filter, entry.name@)
}

/// The selection test as a function of the entry.
pub open spec fn selects(filter: Seq<char>) -> spec_fn(DirEntry) -> bool {
    |entry: DirEntry| is_selected(entry, filter)
}

/// The candidate that stands for an entry.
pub open spec fn candidate_of(entry: DirEntry) -> Candidate {
    Candidate { full_path: entry.full_path, name: entry.name }
}

/// `candidate_of` as a function value.
pub open spec fn to_candidate() -> spec_fn(DirEntry) -> Candidate {
    |entry: DirEntry| candidate_of(entry)
}

/// The entries selected under a name filter, in listing order.
pub open spec fn selected_entries(entries: Seq<DirEntry>, filter: Seq<char>) -> Seq<DirEntry> {
    entries.filter(selects(filter))
}

/// The files to scan: one candidate for each selected entry, in listing
/// order.
pub open spec fn candidates_of(entries: Seq<DirEntry>, filter: Seq<char>) -> Seq<Candidate> {
    selected_entries(entries, filter).map_values(to_candidate())
}

/// Whether the text is the filter that selects every file.
pub fn is_match_all(filter: &str) -> (all: bool)
    ensures
        all == (filter@ == match_all()),
{
    let sentinel = "*.*";
    proof {
        reveal_strlit("*.*");
        assert(sentinel@ =~= match_all());
    }
    same_text(filter, sentinel)
}

/// Whether the attributes are those of a regular file.
pub fn regular(attributes: &FileAttributes) -> (yes: bool)
    ensures
        yes == is_regular(*attributes),
{
    !attributes.is_symbolic_link && !attributes.is_directory && !attributes.is_device
        && !attributes.is_system
}

/// A compiled name filter.
pub struct NameFilter {
    compiled: GlobSet,
    everything: bool,
}

impl NameFilter {
    #[verifier::type_invariant]
    spec fn inv(&self) -> bool {
        self.everything == (glob_source(self.compiled) == match_all())
    }

    /// The glob text this filter was compiled from.
    pub closed spec fn pattern(&self) -> Seq<char> {
        glob_source(self.compiled)
    }

    /// Compiles a name filter. Fails when the text is longer than
    /// `MAX_FILTER_LEN` bytes, or is not a glob that compiles.
    pub fn compile(name_filter: &str) -> (compiled: Result<NameFilter, SearchError>)
        ensures
            compiled.is_ok() == filter_accepted(name_filter@),
            compiled matches Ok(filter) ==> filter.pattern() == name_filter@,
            compiled matches Err(e) ==> e is Glob,
    {
        if name_filter.as_bytes().len() > MAX_FILTER_LEN {
            return Err(SearchError::Glob("the name filter is too long".to_owned()));
        }
        match compile_glob(name_filter) {
            Ok(compiled) => Ok(NameFilter { compiled, everything: is_match_all(name_filter) }),
            Err(fault) => Err(SearchError::Glob(fault.to_string())),
        }
    }

    /// Whether a file name passes the filter.
    pub fn passes(&self, name: &str) -> (yes: bool)
        ensures
            yes == name_passes(self.pattern(), name@),
    {
        proof {
            use_type_invariant(self);
        }
        self.everything || glob_is_match(&self.compiled, name)
    }

    /// Whether an entry is selected: a regular file whose name passes.
    pub fn selects(&self, entry: &DirEntry) -> (yes: bool)
        ensures
            yes == is_selected(*entry, self.pattern()),
    {
        regular(&entry.attributes) && self.passes(entry.name.as_str())
    }

    /// Selects the files to scan from a directory listing. Symbolic links,
    /// directories, devices and system files are left out; of the rest,
    /// those whose name passes the filter are kept, in listing order.
    pub fn select(&self, entries: &Vec<DirEntry>) -> (files: Vec<Candidate>)
        ensures
            files@ == candidates_of(entries@, self.pattern()),
    {
        let ghost filter = self.pattern();
        let mut files: Vec<Candidate> = Vec::new();
        let mut i: usize = 0;
        proof {
            reveal(Seq::filter);
            assert(entries@.take(0) =~= Seq::<DirEntry>::empty());
            assert(files@ =~= candidates_of(entries@.take(0), filter));
        }
        while i < entries.len()
            invariant
                i <= entries.len(),
                filter == self.pattern(),
                files@ == candidates_of(entries@.take(i as int), filter),
            decreases entries.len() - i,
        {
            let entry = &entries[i];
            let keep = self.selects(entry);
            proof {
                let seen = entries@.take(i as int);
                assert(entries@.take(i + 1) =~= seen.push(entries@[i as int]));
                seen.lemma_filter_push(entries@[i as int], selects(filter));
            }
            if keep {
                files.push(Candidate { full_path: entry.full_path.clone(), name: entry.name.clone() });
                assert(files@ =~= candidates_of(entries@.take(i + 1), filter));
            }
            i += 1;
        }
        assert(entries@.take(entries.len() as int) =~= entries@);
        files
    }
}

/// Selects the files to scan from a directory listing under a name filter
/// given as text. An empty result is no error. Fails, before looking at any
/// entry, when the filter is too long or not a valid glob.
pub fn enumerate(entries: &Vec<DirEntry>, name_filter: &str) -> (selected: Result<Vec<Candidate>, SearchError>)
    ensures
        selected.is_ok() == filter_accepted(name_filter@),
        selected matches Ok(files) ==> files@ == candidates_of(entries@, name_filter@),
        selected matches Err(e) ==> e is Glob,
{
    match NameFilter::compile(name_filter) {
        Ok(filter) => Ok(filter.select(entries)),
        Err(fault) => Err(fault),
    }
}

/// Under the filter that selects every file, the entries selected are
/// exactly the regular entries of the listing, in listing order: every
/// regular entry is among them, and no symbolic link, directory, device or
/// system file is.
pub proof fn lemma_match_all_selects_regular_files(entries: Seq<DirEntry>)
    ensures
        selected_entries(entries, match_all()) == entries.filter(|entry: DirEntry| is_regular(entry.attributes)),
        forall|i: int| 0 <= i < entries.len() && is_regular(entries[i].attributes)
            ==> selected_entries(entries, match_all()).contains(#[trigger] entries[i]),
        forall|k: int| 0 <= k < selected_entries(entries, match_all()).len()
            ==> is_regular((#[trigger] selected_entries(entries, match_all())[k]).attributes),
{
    let regular_only = |entry: DirEntry| is_regular(entry.attributes);
    assert(selects(match_all()) =~= regular_only);
    let kept = entries.filter(regular_only);
    assert forall|i: int| 0 <= i < entries.len() && is_regular(entries[i].attributes)
        implies kept.contains(#[trigger] entries[i]) by {
        entries.lemma_filter_contains(regular_only, i);
    }
    assert forall|k: int| 0 <= k < kept.len()
        implies is_regular((#[trigger] kept[k]).attributes) by {
        entries.lemma_filter_pred(regular_only, k);
    }
}

} // verus!

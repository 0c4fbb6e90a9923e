//! Rules of the file watcher: which changes count, and what to do on a
//! command.

use vstd::prelude::*;
use crate::encoding::read_to_string;
use crate::encoding::text_of_file;
use crate::encoding::MAX_CODEC_INPUT;

verus! {

/// What the window tells the watcher.
#[derive(Debug)]
pub enum WatcherCommand {
    Watch(String),
    Unwatch(String),
}

/// A file that changed on disk, with its new text.
#[derive(Debug, Clone)]
pub struct WatchEvent {
    pub file_path: String,
    pub content: String,
    pub encoding: String,
}

/// The kinds of modification that the file system reports.
#[derive(Clone, Copy, Debug, PartialEq, Eq, Structural)]
pub enum ModifyKind {
    Any,
    Data,
    Metadata,
    Name,
    Other,
}

/// The kinds of change that the file system reports.
#[derive(Clone, Copy, Debug, PartialEq, Eq, Structural)]
pub enum ChangeKind {
    Any,
    Access,
    Create,
    Modify(ModifyKind),
    Remove,
    Other,
}

/// One change reported by the file system, with the paths it is about.
#[derive(Debug)]
pub struct FileChange {
    pub kind: ChangeKind,
    pub paths: Vec<String>,
}

/// What the watcher is to do.
#[derive(Debug)]
pub enum WatcherAction {
    /// Watch the file at the path, without descending.
    Watch(String),
    /// Stop watching the file at the path.
    Unwatch(String),
    /// The command channel is closed: stop.
    Stop,
}

/// A change counts as a modification when the file's data or metadata
/// changed, or the file system does not say what did; a change of name
/// does not count, nor does anything that is no modification.
pub open spec fn counts_as_modified(kind: ChangeKind) -> bool {
    kind matches ChangeKind::Modify(how) && how != ModifyKind::Name
}

/// Whether a change counts as a modification.
pub fn is_modified(kind: ChangeKind) -> (yes: bool)
    ensures
        yes == counts_as_modified(kind),
{
    match kind {
        ChangeKind::Modify(ModifyKind::Any) => true,
        ChangeKind::Modify(ModifyKind::Data) => true,
        ChangeKind::Modify(ModifyKind::Metadata) => true,
        ChangeKind::Modify(ModifyKind::Other) => true,
        _ => false,
    }
}

/// What to do on a command; `None` stands for a closed command channel.
pub fn on_command(command: Option<WatcherCommand>) -> (action: WatcherAction)
    ensures
        match command {
            Some(WatcherCommand::Watch(path)) => action == WatcherAction::Watch(path),
            Some(WatcherCommand::Unwatch(path)) => action == WatcherAction::Unwatch(path),
            None => action is Stop,
        },
{
    match command {
        Some(WatcherCommand::Watch(path)) => WatcherAction::Watch(path),
        Some(WatcherCommand::Unwatch(path)) => WatcherAction::Unwatch(path),
        None => WatcherAction::Stop,
    }
}

/// Whether every change that counts as a modification names a path.
pub open spec fn modified_have_paths(changes: Seq<FileChange>) -> bool {
    forall|i: int|
        0 <= i < changes.len() && counts_as_modified((#[trigger] changes[i]).kind) ==> changes[i].paths.len() > 0
}

/// The test for a modification as a function of the change.
pub open spec fn modified() -> spec_fn(FileChange) -> bool {
    |change: FileChange| counts_as_modified(change.kind)
}

/// The first path of a change as a function of the change.
pub open spec fn first_path() -> spec_fn(FileChange) -> Seq<char> {
    |change: FileChange| change.paths[0]@
}

/// The files to read again after a batch of changes: the first path of each
/// change that counts as a modification, in the order of the batch.
pub open spec fn paths_to_reload(changes: Seq<FileChange>) -> Seq<Seq<char>> {
    changes.filter(modified()).map_values(first_path())
}

/// Whether every change that counts as a modification names a path.
pub fn check_changes(changes: &Vec<FileChange>) -> (ok: bool)
    ensures
        ok == modified_have_paths(changes@),
{
    let mut i: usize = 0;
    while i < changes.len()
        invariant
            i <= changes.len(),
            forall|k: int|
                0 <= k < i && counts_as_modified((#[trigger] changes[k]).kind) ==> changes[k].paths.len() > 0,
        decreases changes.len() - i,
    {
        if is_modified(changes[i].kind) && changes[i].paths.len() == 0 {
            return false;
        }
        i += 1;
    }
    true
}

/// The files to read again after a batch of changes.
pub fn changed_paths(changes: &Vec<FileChange>) -> (paths: Vec<String>)
    requires
        modified_have_paths(changes@),
    ensures
        paths@.map_values(|path: String| path@) == paths_to_reload(changes@),
{
    let ghost texts = |path: String| path@;
    let mut paths: Vec<String> = Vec::new();
    let mut i: usize = 0;
    proof {
        reveal(Seq::filter);
        assert(changes@.take(0) =~= Seq::<FileChange>::empty());
        assert(paths@.map_values(texts) =~= paths_to_reload(changes@.take(0)));
    }
    while i < changes.len()
        invariant
            i <= changes.len(),
            modified_have_paths(changes@),
            texts == (|path: String| path@),
            paths@.map_values(texts) == paths_to_reload(changes@.take(i as int)),
        decreases changes.len() - i,
    {
        proof {
            let seen = changes@.take(i as int);
            assert(changes@.take(i + 1) =~= seen.push(changes@[i as int]));
            seen.lemma_filter_push(changes@[i as int], modified());
        }
        if is_modified(changes[i].kind) {
            let ghost before = paths@;
            let ghost kept = changes@.take(i as int).filter(modified());
            let path = changes[i].paths[0].clone();
            paths.push(path);
            proof {
                assert(path@ == first_path()(changes@[i as int]));
                assert(paths@.map_values(texts) =~= before.map_values(texts).push(path@));
                assert(kept.push(changes@[i as int]).map_values(first_path()) =~= kept.map_values(
                    first_path(),
                ).push(path@));
            }
        }
        i += 1;
    }
    assert(changes@.take(changes.len() as int) =~= changes@);
    paths
}

/// What to tell the window about a changed file, from the bytes read at its
/// path.
pub fn handle_event(file_path: String, bytes: &[u8]) -> (event: WatchEvent)
    requires
        bytes@.len() <= MAX_CODEC_INPUT,
    ensures
        event.file_path == file_path,
        (event.content@, event.encoding@) == text_of_file(bytes@),
{
    let read = read_to_string(bytes);
    WatchEvent { file_path, content: read.content, encoding: read.encoding }
}

} // verus!

//! Files held in memory, looked up by path.

use vstd::prelude::*;
use crate::text::same_text;

verus! {

/// A file held in memory: its path and its bytes.
#[derive(Debug)]
pub struct StoredFile {
    pub full_path: String,
    pub content: Vec<u8>,
}

/// The position of the first file with the given path, or the number of
/// files when there is none.
pub open spec fn stored_position(files: Seq<StoredFile>, full_path: Seq<char>) -> int
    decreases files.len(),
{
    if files.len() == 0 {
        0
    } else if files[0].full_path@ == full_path {
        0
    } else {
        1 + stored_position(files.skip(1), full_path)
    }
}

/// The bytes read at a path: those of the first file with that path;
/// `None` where there is no such file.
pub open spec fn read_file(files: Seq<StoredFile>, full_path: Seq<char>) -> Option<Seq<u8>> {
    let at = stored_position(files, full_path);
    if at < files.len() {
        Some(files[at].content@)
    } else {
        None
    }
}

/// `stored_position` is a valid position or the length; the file at a valid
/// one has the path, and no file before it has.
pub proof fn lemma_stored_position(files: Seq<StoredFile>, full_path: Seq<char>)
    ensures
        0 <= stored_position(files, full_path) <= files.len(),
        stored_position(files, full_path) < files.len() ==> files[stored_position(files, full_path)].full_path@
            == full_path,
        forall|i: int| 0 <= i < stored_position(files, full_path) ==> (#[trigger] files[i]).full_path@ != full_path,
    decreases files.len(),
{
    if files.len() > 0 && files[0].full_path@ != full_path {
        let rest = files.skip(1);
        lemma_stored_position(rest, full_path);
        let at = stored_position(rest, full_path);
        assert forall|i: int| 0 <= i < 1 + at implies (#[trigger] files[i]).full_path@ != full_path by {
            if i > 0 {
                assert(files[i] == rest[i - 1]);
            }
        }
        if at < rest.len() {
            assert(files[1 + at] == rest[at]);
        }
    }
}

/// Looks a path up among the files.
pub fn find_stored(files: &Vec<StoredFile>, full_path: &str) -> (found: Option<usize>)
    ensures
        match found {
            Some(at) => at < files.len() && at == stored_position(files@, full_path@),
            None => stored_position(files@, full_path@) == files.len(),
        },
        found.is_some() == read_file(files@, full_path@).is_some(),
        found matches Some(at) ==> read_file(files@, full_path@) == Some(files[at as int].content@),
{
    let mut at: usize = 0;
    while at < files.len()
        invariant
            at <= files.len(),
            forall|i: int| 0 <= i < at ==> (#[trigger] files[i]).full_path@ != full_path@,
        decreases files.len() - at,
    {
        if same_text(files[at].full_path.as_str(), full_path) {
            proof {
                lemma_stored_position(files@, full_path@);
            }
            return Some(at);
        }
        at += 1;
    }
    proof {
        lemma_stored_position(files@, full_path@);
    }
    None
}

} // verus!

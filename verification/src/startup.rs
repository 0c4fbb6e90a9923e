//! What the program starts with: the command line and the first message to
//! the window.

use vstd::prelude::*;
use crate::encoding::decoded;
use crate::encoding::guessed_encoding;
use crate::encoding::has_non_ascii;
use crate::encoding::ascii_text;
use crate::encoding::detect_text;
use crate::encoding::MAX_CODEC_INPUT;
use crate::number::parse_unsigned;
use crate::number::unsigned_of;
use crate::search::GrepRequest;
use crate::search::GrepRequestView;
use crate::text::same_text;

verus! {

/// A position in a text.
#[derive(Debug, Clone, Copy)]
pub struct Selection {
    pub column: u64,
    pub row: u64,
}

impl Default for Selection {
    /// The first column of the first row.
    fn default() -> (selection: Selection)
        ensures
            selection.column == 0,
            selection.row == 0,
    {
        Selection { column: 0, row: 0 }
    }
}

/// The file that the program was started on.
#[derive(Debug, Clone)]
pub struct FileArg {
    pub file_path: Option<String>,
    pub content: Option<String>,
    pub encoding: Option<String>,
    pub start_line: Option<Selection>,
}

/// The mathematical value of a [`FileArg`].
pub struct FileArgView {
    pub file_path: Option<Seq<char>>,
    pub content: Option<Seq<char>>,
    pub encoding: Option<Seq<char>>,
    pub start_line: Option<Selection>,
}

/// The value of an optional string.
pub open spec fn text_of(text: Option<String>) -> Option<Seq<char>> {
    match text {
        Some(text) => Some(text@),
        None => None,
    }
}

impl View for FileArg {
    type V = FileArgView;

    open spec fn view(&self) -> FileArgView {
        FileArgView {
            file_path: text_of(self.file_path),
            content: text_of(self.content),
            encoding: text_of(self.encoding),
            start_line: self.start_line,
        }
    }
}

impl Default for FileArg {
    /// No file.
    fn default() -> (file: FileArg)
        ensures
            file@ == no_file(),
    {
        FileArg { file_path: None, content: None, encoding: None, start_line: None }
    }
}

/// What the command line asks the program to start with.
#[derive(Debug)]
pub enum StartupArg {
    /// Open a file, or nothing.
    File(FileArg),
    /// Run a search.
    Grep(GrepRequest),
}

/// The mathematical value of a [`StartupArg`].
pub enum StartupView {
    File(FileArgView),
    Grep(GrepRequestView),
}

impl View for StartupArg {
    type V = StartupView;

    open spec fn view(&self) -> StartupView {
        match self {
            StartupArg::File(file) => StartupView::File(file@),
            StartupArg::Grep(request) => StartupView::Grep(request@),
        }
    }
}

/// The values of the arguments.
pub open spec fn args_view(args: Seq<String>) -> Seq<Seq<char>> {
    args.map_values(|arg: String| arg@)
}

/// Whether one of the arguments is the given flag.
pub open spec fn has_flag(args: Seq<Seq<char>>, flag: Seq<char>) -> bool {
    exists|i: int| 0 <= i < args.len() && #[trigger] args[i] == flag
}

/// The number that an argument writes.
pub open spec fn number_of(arg: Seq<char>) -> Option<u64> {
    unsigned_of(vstd::utf8::encode_utf8(arg))
}

/// The file to open with no argument but the program's name: none.
pub open spec fn no_file() -> FileArgView {
    FileArgView { file_path: None, content: None, encoding: None, start_line: None }
}

/// What a command line asks for. The first argument is the program's name.
/// With nothing after it, no file is opened. With `-g` after it, the next
/// three arguments are the search text, the directory and the name filter,
/// and the flags `-m`, `-c`, `-r`, `-s`, wherever they stand, switch on
/// whole words, case sensitivity, regular expressions and recursion.
/// Otherwise the second argument is a file to open, and a third and fourth,
/// where there is a third, are the column and the row to go to. A command
/// line that is empty, or lacks one of these arguments, or gives a column or
/// a row that is no number, asks for nothing.
pub open spec fn startup_of(args: Seq<Seq<char>>) -> Option<StartupView> {
    if args.len() == 0 {
        None
    } else if args.len() == 1 {
        Some(StartupView::File(no_file()))
    } else if args[1] == seq!['-', 'g'] {
        if args.len() < 5 {
            None
        } else {
            Some(
                StartupView::Grep(
                    GrepRequestView {
                        condition: args[2],
                        start_directory: args[3],
                        file_type: args[4],
                        match_by_word: has_flag(args, seq!['-', 'm']),
                        case_sensitive: has_flag(args, seq!['-', 'c']),
                        regexp: has_flag(args, seq!['-', 'r']),
                        recursive: has_flag(args, seq!['-', 's']),
                    },
                ),
            )
        }
    } else if args.len() == 2 {
        Some(StartupView::File(FileArgView { file_path: Some(args[1]), ..no_file() }))
    } else if args.len() >= 4 && number_of(args[2]) is Some && number_of(args[3]) is Some {
        Some(
            StartupView::File(
                FileArgView {
                    file_path: Some(args[1]),
                    start_line: Some(
                        Selection { column: number_of(args[2]).unwrap(), row: number_of(args[3]).unwrap() },
                    ),
                    ..no_file()
                },
            ),
        )
    } else {
        None
    }
}

/// Whether one of the arguments is the given flag.
pub fn contains_flag(args: &Vec<String>, flag: &str) -> (found: bool)
    ensures
        found == has_flag(args_view(args@), flag@),
{
    let mut i: usize = 0;
    while i < args.len()
        invariant
            i <= args.len(),
            forall|k: int| 0 <= k < i ==> #[trigger] args_view(args@)[k] != flag@,
        decreases args.len() - i,
    {
        if same_text(args[i].as_str(), flag) {
            assert(args_view(args@)[i as int] == flag@);
            return true;
        }
        i += 1;
    }
    false
}

/// Reads the command line.
pub fn setup(args: &Vec<String>) -> (startup: Option<StartupArg>)
    ensures
        startup.is_some() == startup_of(args_view(args@)).is_some(),
        startup matches Some(arg) ==> startup_of(args_view(args@)) == Some(arg@),
{
    let ghost all = args_view(args@);
    proof {
        reveal_strlit("-g");
        reveal_strlit("-m");
        reveal_strlit("-c");
        reveal_strlit("-r");
        reveal_strlit("-s");
        assert("-g"@ =~= seq!['-', 'g']);
        assert("-m"@ =~= seq!['-', 'm']);
        assert("-c"@ =~= seq!['-', 'c']);
        assert("-r"@ =~= seq!['-', 'r']);
        assert("-s"@ =~= seq!['-', 's']);
    }
    if args.len() == 0 {
        return None;
    }
    if args.len() == 1 {
        return Some(StartupArg::File(FileArg::default()));
    }
    assert(all[1] == args@[1]@);
    if same_text(args[1].as_str(), "-g") {
        if args.len() < 5 {
            return None;
        }
        assert(all[2] == args@[2]@ && all[3] == args@[3]@ && all[4] == args@[4]@);
        let request = GrepRequest {
            condition: args[2].clone(),
            start_directory: args[3].clone(),
            file_type: args[4].clone(),
            match_by_word: contains_flag(args, "-m"),
            case_sensitive: contains_flag(args, "-c"),
            regexp: contains_flag(args, "-r"),
            recursive: contains_flag(args, "-s"),
        };
        return Some(StartupArg::Grep(request));
    }
    let start_line = if args.len() > 2 {
        if args.len() < 4 {
            return None;
        }
        assert(all[2] == args@[2]@ && all[3] == args@[3]@);
        let column = match parse_unsigned(args[2].as_str()) {
            Some(column) => column,
            None => {
                return None;
            },
        };
        let row = match parse_unsigned(args[3].as_str()) {
            Some(row) => row,
            None => {
                return None;
            },
        };
        Some(Selection { column, row })
    } else {
        None
    };
    Some(StartupArg::File(FileArg { file_path: Some(args[1].clone()), content: None, encoding: None, start_line }))
}

/// What the program tells its window when it starts.
#[derive(Debug, Clone)]
pub struct InitArgs {
    pub file: Option<FileArg>,
    pub grep: Option<GrepRequest>,
    pub locales: Vec<String>,
    pub app_data_dir: String,
    pub restore_position: bool,
}

impl Default for InitArgs {
    /// Nothing to open, no locale, no data directory, no position to
    /// restore.
    fn default() -> (args: InitArgs)
        ensures
            args.file is None,
            args.grep is None,
            args.locales@.len() == 0,
            args.app_data_dir@.len() == 0,
            !args.restore_position,
    {
        InitArgs { file: None, grep: None, locales: Vec::new(), app_data_dir: String::new(), restore_position: false }
    }
}

/// The text and the encoding to show for the bytes of the file the program
/// was started on. An empty file has neither. Bytes that are all ASCII are
/// shown as they are, with no encoding named. Otherwise the encoding is
/// guessed, and the bytes are decoded under the guess.
pub open spec fn shown_content(bytes: Seq<u8>) -> (Option<Seq<char>>, Option<Seq<char>>) {
    if bytes.len() == 0 {
        (None, None)
    } else if has_non_ascii(bytes) {
        (Some(decoded(guessed_encoding(bytes), bytes).0), Some(decoded(guessed_encoding(bytes), bytes).1))
    } else {
        (Some(ascii_text(bytes)), None)
    }
}

/// The file to show: the file of the command line with the content read
/// for it. A file without a path has no content, whatever was read.
pub open spec fn shown_file(file: FileArgView, bytes: Seq<u8>) -> FileArgView {
    if file.file_path is Some {
        FileArgView { content: shown_content(bytes).0, encoding: shown_content(bytes).1, ..file }
    } else {
        FileArgView { content: None, encoding: None, ..file }
    }
}

/// Fills in the content of the file the program was started on, from the
/// bytes read at its path.
pub fn with_content(file: FileArg, bytes: &[u8]) -> (shown: FileArg)
    requires
        bytes@.len() <= MAX_CODEC_INPUT,
    ensures
        shown@ == shown_file(file@, bytes@),
{
    let FileArg { file_path, content: _, encoding: _, start_line } = file;
    if file_path.is_none() || bytes.len() == 0 {
        FileArg { file_path, content: None, encoding: None, start_line }
    } else {
        let (content, encoding) = detect_text(bytes);
        FileArg { file_path, content: Some(content), encoding, start_line }
    }
}

/// Puts together what the window is told at start: the locale, the data
/// directory, whether the window position is restored, and the file or the
/// search that the command line asked for.
pub fn get_init_args(startup: Option<StartupArg>, locale: String, app_data_dir: String, restore_position: bool) -> (args: InitArgs)
    ensures
        args.locales@ == seq![locale],
        args.app_data_dir == app_data_dir,
        args.restore_position == restore_position,
        match startup {
            Some(StartupArg::File(file)) => args.file == Some(file) && args.grep is None,
            Some(StartupArg::Grep(request)) => args.file is None && args.grep == Some(request),
            None => args.file is None && args.grep is None,
        },
{
    let mut locales: Vec<String> = Vec::new();
    locales.push(locale);
    assert(locales@ =~= seq![locale]);
    match startup {
        Some(StartupArg::File(file)) => InitArgs { file: Some(file), grep: None, locales, app_data_dir, restore_position },
        Some(StartupArg::Grep(request)) => InitArgs {
            file: None,
            grep: Some(request),
            locales,
            app_data_dir,
            restore_position,
        },
        None => InitArgs { file: None, grep: None, locales, app_data_dir, restore_position },
    }
}

} // verus!

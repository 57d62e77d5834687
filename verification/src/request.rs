use vstd::prelude::*;
use vstd::string::StringExecFns;

use crate::error::DownloadError;
use crate::url::{path_segment, url_path_segment};

verus! {

/// Name of the output file where the URL yields none.
pub const DEFAULT_FILE_NAME: &'static str = "download.bin";

/// The name `.`, which stands for the directory itself.
pub open spec fn dot() -> Seq<char> {
    seq!['.']
}

/// The name `..`, which stands for the parent directory.
pub open spec fn dot_dot() -> Seq<char> {
    seq!['.', '.']
}

/// The `len` characters of `whole` from position `at` on.
pub open spec fn piece_at(whole: Seq<char>, at: int, len: nat) -> Seq<char> {
    whole.subrange(at, at + len)
}

/// Whether `piece` occurs in `whole` as one unbroken run.
pub open spec fn is_piece_of(piece: Seq<char>, whole: Seq<char>) -> bool {
    exists|at: int|
        0 <= at && at + piece.len() <= whole.len() && #[trigger] piece_at(whole, at, piece.len())
            == piece
}

/// Whether `name` can stand as one component of a path: it is not empty,
/// holds no `/`, and is neither `.` nor `..`.
pub open spec fn is_component(name: Seq<char>) -> bool {
    &&& name.len() > 0
    &&& name != dot()
    &&& name != dot_dot()
    &&& forall|i: int| 0 <= i < name.len() ==> name[i] != '/'
}

/// Whether `text` is a plain name on every system: a component that holds
/// neither of the separators `/` and `\`, nor `:`, which ends a drive or a
/// scheme.
pub open spec fn is_plain_name(text: Seq<char>) -> bool {
    &&& is_component(text)
    &&& forall|i: int| 0 <= i < text.len() ==> text[i] != '\\' && text[i] != ':'
}

/// The file name to use where a path may have yielded one.
pub open spec fn chosen_name(found: Option<Seq<char>>) -> Seq<char> {
    match found {
        Some(name) => name,
        None => DEFAULT_FILE_NAME@,
    }
}

/// Whether `name` is a file name for `url`, derived from the last non-empty
/// segment of its path:
/// - a segment that is a plain name is the name;
/// - an empty segment, `.` and `..` give the default name;
/// - any other segment gives the default name or a piece of itself;
/// - whichever it is, the name is one component of a path.
pub open spec fn names_url(url: Seq<char>, name: Seq<char>) -> bool {
    let segment = path_segment(url);
    &&& is_plain_name(segment) ==> name == segment
    &&& segment.len() == 0 || segment == dot() || segment == dot_dot() ==> name
        == DEFAULT_FILE_NAME@
    &&& name == DEFAULT_FILE_NAME@ || is_piece_of(name, segment)
    &&& is_component(name)
}

/// `Path::file_name` on the text taken as a path, the result turned back into
/// a string: the final component of the path where it has one. A component
/// that it finds is a piece of the text, not empty, and neither `.` nor `..`.
/// A text that is a plain name is its own final component.
#[verifier::external_body]
fn path_file_name(text: &str) -> (name: Option<String>)
    ensures
        name matches Some(n) ==> is_piece_of(n@, text@) && n@.len() > 0 && n@ != dot() && n@
            != dot_dot(),
        is_plain_name(text@) ==> name is Some && name.unwrap()@ == text@,
{
    std::path::Path::new(text).file_name().and_then(|s| s.to_str()).map(|s| s.to_string())
}

/// The name that was found, or the default name where none was.
pub fn name_or_default(found: Option<String>) -> (name: String)
    ensures
        name@ == chosen_name(
            match found {
                Some(n) => Some(n@),
                None => None,
            },
        ),
{
    match found {
        Some(name) => name,
        None => String::from_str(DEFAULT_FILE_NAME),
    }
}

/// A piece of a text without `/` holds none either.
proof fn lemma_piece_has_no_slash(piece: Seq<char>, whole: Seq<char>)
    requires
        is_piece_of(piece, whole),
        forall|i: int| 0 <= i < whole.len() ==> whole[i] != '/',
    ensures
        forall|i: int| 0 <= i < piece.len() ==> piece[i] != '/',
{
    let at = choose|at: int|
        0 <= at && at + piece.len() <= whole.len() && #[trigger] piece_at(whole, at, piece.len())
            == piece;
    assert forall|i: int| 0 <= i < piece.len() implies piece[i] != '/' by {
        assert(piece[i] == piece_at(whole, at, piece.len())[i]);
        assert(whole[at + i] != '/');
    }
}

/// No piece of the empty text, of `.` or of `..` is a component.
proof fn lemma_dots_hold_no_component(piece: Seq<char>, whole: Seq<char>)
    requires
        is_piece_of(piece, whole),
        whole.len() == 0 || whole == dot() || whole == dot_dot(),
    ensures
        piece.len() == 0 || piece == dot() || piece == dot_dot(),
{
    let at = choose|at: int|
        0 <= at && at + piece.len() <= whole.len() && #[trigger] piece_at(whole, at, piece.len())
            == piece;
    let found = piece_at(whole, at, piece.len());
    if piece.len() == 1 {
        assert(found[0] == whole[at]);
        assert(piece =~= dot());
    } else if piece.len() == 2 {
        assert(found[0] == whole[at]);
        assert(found[1] == whole[at + 1]);
        assert(piece =~= dot_dot());
    }
}

/// The default name is one component of a path.
proof fn lemma_default_is_component()
    ensures
        is_component(DEFAULT_FILE_NAME@),
{
    reveal_strlit("download.bin");
    assert(DEFAULT_FILE_NAME@.len() == 12);
}

/// The name of the output file for a URL: the last non-empty segment of the
/// URL's path where that names a file, and the default name where it does not.
pub fn filename_from_url(url: &str) -> (name: String)
    ensures
        names_url(url@, name@),
{
    let segment = url_path_segment(url);
    let found = path_file_name(segment.as_str());
    proof {
        lemma_default_is_component();
        if found is Some {
            lemma_piece_has_no_slash(found.unwrap()@, segment@);
            if segment@.len() == 0 || segment@ == dot() || segment@ == dot_dot() {
                lemma_dots_hold_no_component(found.unwrap()@, segment@);
            }
        }
    }
    name_or_default(found)
}

/// What is to be downloaded, with how many parallel fetchers, and where to.
#[derive(Debug, PartialEq, Eq)]
pub struct DownloadRequest {
    pub url: String,
    /// Parallel fetchers asked for, at least one.
    pub jobs: usize,
    /// Path of the output file.
    pub destination: String,
}

impl DownloadRequest {
    /// A request asks for at least one job.
    pub open spec fn wf(&self) -> bool {
        self.jobs >= 1
    }

    /// A request for `url` with `jobs` fetchers. Where no output path is
    /// given, the file is named after the URL. Zero jobs is a configuration
    /// error.
    pub fn new(url: String, jobs: usize, output: Option<String>) -> (r: Result<
        DownloadRequest,
        DownloadError,
    >)
        ensures
            r is Err <==> jobs == 0,
            r matches Err(e) ==> e == DownloadError::Configuration,
            r matches Ok(request) ==> request.wf() && request.url@ == url@ && request.jobs == jobs,
            r matches Ok(request) ==> match output {
                Some(path) => request.destination@ == path@,
                None => names_url(url@, request.destination@),
            },
    {
        if jobs == 0 {
            return Err(DownloadError::Configuration);
        }
        let destination = match output {
            Some(path) => path,
            None => filename_from_url(url.as_str()),
        };
        Ok(DownloadRequest { url, jobs, destination })
    }
}

} // verus!

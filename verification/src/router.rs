//! Request routing.
//!
//! A request path is classified in order: the root path `/` is served as the
//! report; a path ending in `.txt` is served as an HTML-wrapped text page;
//! anything else is served as raw bytes. For the two file branches the
//! leading separator is stripped, so the rest of the path names a file
//! relative to the working directory.

use vstd::prelude::*;
use vstd::string::StrSliceExecFns;

verus! {

/// How a request is handled: the report path, a text file wrapped in an
/// HTML page, or a file served as raw bytes. The two file variants carry
/// the file's path relative to the working directory.
pub enum Route<'a> {
    Report,
    TextPage(&'a str),
    RawFile(&'a str),
}

/// The root path: exactly `/`.
pub open spec fn is_root_path(path: Seq<char>) -> bool {
    path.len() == 1 && path[0] == '/'
}

/// A path that ends in the text-file suffix `.txt`.
pub open spec fn has_text_suffix(path: Seq<char>) -> bool {
    &&& path.len() >= 4
    &&& path[path.len() - 4] == '.'
    &&& path[path.len() - 3] == 't'
    &&& path[path.len() - 2] == 'x'
    &&& path[path.len() - 1] == 't'
}

/// The path with its leading separator stripped, if it has one: the name of
/// the requested file relative to the working directory.
pub open spec fn strip_leading_separator(path: Seq<char>) -> Seq<char> {
    if path.len() >= 1 && path[0] == '/' {
        path.subrange(1, path.len() as int)
    } else {
        path
    }
}

/// Classifies a request path, in order: the root path is the report; a path
/// ending in `.txt` is a text page; anything else is a raw file. The file
/// variants carry the path with its leading separator stripped.
pub fn route<'a>(path: &'a str) -> (r: Route<'a>)
    ensures
        is_root_path(path@) ==> r is Report,
        !is_root_path(path@) && has_text_suffix(path@) ==> (r matches Route::TextPage(f)
            && f@ == strip_leading_separator(path@)),
        !is_root_path(path@) && !has_text_suffix(path@) ==> (r matches Route::RawFile(f)
            && f@ == strip_leading_separator(path@)),
{
    let n = path.unicode_len();
    if n == 1 && path.get_char(0) == '/' {
        Route::Report
    } else {
        let stripped = if n >= 1 && path.get_char(0) == '/' {
            path.substring_char(1, n)
        } else {
            path
        };
        let is_text = n >= 4 && path.get_char(n - 4) == '.' && path.get_char(n - 3) == 't'
            && path.get_char(n - 2) == 'x' && path.get_char(n - 1) == 't';
        if is_text {
            Route::TextPage(stripped)
        } else {
            Route::RawFile(stripped)
        }
    }
}

/// A request for `/P`, where `P` itself has no leading separator, names the
/// same file as `P` read directly relative to the working directory:
/// stripping the separator gives `P` back exactly.
pub proof fn lemma_slash_prefixed_path_resolves(p: Seq<char>)
    requires
        p.len() == 0 || p[0] != '/',
    ensures
        strip_leading_separator(seq!['/'] + p) == p,
{
    assert((seq!['/'] + p).subrange(1, (seq!['/'] + p).len() as int) =~= p);
}

} // verus!

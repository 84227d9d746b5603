//! The HTML page wrapped around a plain-text file.
//!
//! A request for a `.txt` file is answered with a small HTML document: the
//! file's name as title and heading, and the file's content in a `<pre>`
//! block. Name and content are both escaped, so content such as
//! `<script>` appears as text and cannot alter the page's structure.

use vstd::prelude::*;
use vstd::string::StrSliceExecFns;

use crate::escape::escape_html;
use crate::escape::escaped;

verus! {

/// The base name of a relative file path: what follows the last separator,
/// or the whole path when it has none. It is what the page shows as title
/// and heading.
pub open spec fn base_name_of(p: Seq<char>) -> Seq<char>
    decreases p.len(),
{
    if p.len() == 0 {
        Seq::empty()
    } else if p.last() == '/' {
        Seq::empty()
    } else {
        base_name_of(p.drop_last()) + seq![p.last()]
    }
}

/// Finds the base name of a relative file path: what follows the last
/// separator, or the whole path when it has none.
pub fn base_name<'a>(path: &'a str) -> (r: &'a str)
    ensures
        r@ == base_name_of(path@),
{
    let n = path.unicode_len();
    let mut k = n;
    proof {
        let p = path@;
        assert(p.take(p.len() as int) =~= p);
        assert(p.skip(p.len() as int) =~= Seq::<char>::empty());
        assert(base_name_of(p) + Seq::<char>::empty() =~= base_name_of(p));
    }
    while k > 0 && path.get_char(k - 1) != '/'
        invariant
            k <= n,
            n == path@.len(),
            base_name_of(path@) == base_name_of(path@.take(k as int)) + path@.skip(k as int),
        decreases k,
    {
        proof {
            let p = path@;
            assert(p.take(k as int).last() == p[k - 1]);
            assert(p.take(k as int).drop_last() =~= p.take(k - 1));
            assert(seq![p[k - 1]] + p.skip(k as int) =~= p.skip(k - 1));
        }
        k = k - 1;
    }
    proof {
        let p = path@;
        if k == 0 {
            assert(p.take(0) =~= Seq::<char>::empty());
        } else {
            assert(p.take(k as int).last() == '/');
        }
        assert(Seq::<char>::empty() + p.skip(k as int) =~= p.skip(k as int));
    }
    path.substring_char(k, n)
}

/// The page built for a text file: a fixed template around the escaped
/// file name (as title and heading) and the escaped content (in the
/// `<pre>` block).
pub open spec fn page_of(filename: Seq<char>, content: Seq<char>) -> Seq<char> {
    "<!DOCTYPE html>\n<html lang=\"en\">\n<head>\n<meta charset=\"UTF-8\">\n<meta name=\"viewport\" content=\"width=device-width, initial-scale=1.0\">\n<title>"@
        + escaped(filename)
        + "</title>\n<style>\nbody { font-family: Arial, sans-serif; line-height: 1.6; padding: 20px; }\npre { background-color: #f4f4f4; padding: 15px; border-radius: 5px; white-space: pre-wrap; word-wrap: break-word; }\n</style>\n</head>\n<body>\n<h1>"@
        + escaped(filename)
        + "</h1>\n<pre>"@
        + escaped(content)
        + "</pre>\n</body>\n</html>\n"@
}

/// Builds the HTML page for the text file `filename` with the given
/// `content`: the fixed template with the escaped name in title and
/// heading and the escaped content in the `<pre>` block.
pub fn build_text_page(filename: &str, content: &str) -> (page: String)
    ensures
        page@ == page_of(filename@, content@),
{
    let escaped_name = escape_html(filename);
    let escaped_content = escape_html(content);
    let mut page = String::from_str(
        "<!DOCTYPE html>\n<html lang=\"en\">\n<head>\n<meta charset=\"UTF-8\">\n<meta name=\"viewport\" content=\"width=device-width, initial-scale=1.0\">\n<title>",
    );
    page.append(escaped_name.as_str());
    page.append(
        "</title>\n<style>\nbody { font-family: Arial, sans-serif; line-height: 1.6; padding: 20px; }\npre { background-color: #f4f4f4; padding: 15px; border-radius: 5px; white-space: pre-wrap; word-wrap: break-word; }\n</style>\n</head>\n<body>\n<h1>",
    );
    page.append(escaped_name.as_str());
    page.append("</h1>\n<pre>");
    page.append(escaped_content.as_str());
    page.append("</pre>\n</body>\n</html>\n");
    page
}

} // verus!

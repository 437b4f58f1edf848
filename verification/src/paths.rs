//! Path computations of the site builder that do not touch the filesystem:
//! user-variable expansion of the configured paths, and the mapping from a
//! content file's relative path to its output path. Canonicalization and
//! the directory walk stay with the surrounding application.

use vstd::prelude::*;
use vstd::string::*;
use crate::links::dot_html;
use crate::links::dot_md;
use crate::strutil::opt_ref_view;
use crate::strutil::skip_chars;
use crate::strutil::str_concat;
use crate::strutil::str_starts_with;
use crate::strutil::take_chars;

verus! {

/// What tilde expansion yields: a path `~` or `~/...` has the tilde
/// replaced by the home directory, when one is known; any other path — a
/// `~user` form included — is unchanged.
pub open spec fn tilde_expand_spec(path: Seq<char>, home: Option<Seq<char>>) -> Seq<char> {
    if "~"@.is_prefix_of(path) && (path.len() == 1 || path[1] == '/') {
        match home {
            Some(h) => h + path.skip(1),
            None => path,
        }
    } else {
        path
    }
}

/// Expands a leading tilde in a path to the given home directory.
pub fn expand_path(path: &str, home: Option<&str>) -> (r: String)
    ensures
        r@ == tilde_expand_spec(path@, opt_ref_view(home)),
{
    proof {
        reveal_strlit("~");
    }
    if str_starts_with(path, "~") {
        let pl = path.unicode_len();
        if pl == 1 || path.get_char(1) == '/' {
            match home {
                Some(h) => {
                    let rest = skip_chars(path, 1);
                    return str_concat(h, rest.as_str());
                },
                None => {
                    return path.to_owned();
                },
            }
        }
        path.to_owned()
    } else {
        path.to_owned()
    }
}

/// The content directory's path with user variables expanded. The
/// canonical absolute path is then the surrounding application's to make,
/// since it depends on the filesystem.
pub fn get_content_path(content_path: &str, home: Option<&str>) -> (r: String)
    ensures
        r@ == tilde_expand_spec(content_path@, opt_ref_view(home)),
{
    expand_path(content_path, home)
}

/// The output path of one content file: its relative path with the
/// trailing `.md` replaced by `.html`.
pub fn html_output_path(rel_path: &str) -> (r: String)
    requires
        dot_md().is_suffix_of(rel_path@),
    ensures
        r@ == rel_path@.take(rel_path@.len() - dot_md().len()) + dot_html(),
{
    proof {
        reveal_strlit(".md");
    }
    let pl = rel_path.unicode_len();
    let stem = take_chars(rel_path, pl - 3);
    stem.concat(".html")
}

} // verus!

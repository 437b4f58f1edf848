//! The intra-site link rewriting rule.
//!
//! A destination that begins with `/<root>`, where `<root>` is the site root
//! marker (the leaf name of the content directory), loses that prefix; a
//! destination that then ends in `.md` is mapped to the address its page will
//! have once generated: `./index.md` becomes the site root `/`, another
//! `index.md` becomes its directory, and any other `.md` becomes `.html`.
//!
//! The prefix test is deliberately a plain string-prefix check, not a
//! path-segment check: with root marker `content`, a destination under
//! `/contentious/` loses its `/content` prefix too. Callers should pick
//! content directory names accordingly.

use vstd::prelude::*;
use vstd::string::*;
use crate::strutil::skip_chars;
use crate::strutil::str_concat;
use crate::strutil::str_ends_with;
use crate::strutil::str_starts_with;
use crate::strutil::take_chars;

verus! {

/// The `/<root>` prefix that marks a link into the content tree.
pub open spec fn root_prefix(root: Seq<char>) -> Seq<char> {
    "/"@ + root
}

pub open spec fn dot_md() -> Seq<char> {
    ".md"@
}

pub open spec fn index_md() -> Seq<char> {
    "index.md"@
}

pub open spec fn dot_slash_index_md() -> Seq<char> {
    "./index.md"@
}

pub open spec fn dot_html() -> Seq<char> {
    ".html"@
}

/// What rewriting does to one link destination `u` under root marker `root`.
pub open spec fn rewrite_dest_spec(u: Seq<char>, root: Seq<char>) -> Seq<char> {
    let stripped = if root_prefix(root).is_prefix_of(u) {
        u.skip(root_prefix(root).len() as int)
    } else {
        u
    };
    if dot_md().is_suffix_of(stripped) {
        if dot_slash_index_md().is_suffix_of(stripped) {
            "/"@
        } else if index_md().is_suffix_of(stripped) {
            stripped.take(stripped.len() - index_md().len())
        } else {
            stripped.take(stripped.len() - dot_md().len()) + dot_html()
        }
    } else {
        stripped
    }
}

/// Rewrites one link destination as `rewrite_dest_spec` says.
pub fn rewrite_link_dest(dest: &str, site_root_marker: &str) -> (r: String)
    ensures
        r@ == rewrite_dest_spec(dest@, site_root_marker@),
{
    let marker = str_concat("/", site_root_marker);
    let stripped: String = if str_starts_with(dest, marker.as_str()) {
        let ml = marker.as_str().unicode_len();
        skip_chars(dest, ml)
    } else {
        dest.to_owned()
    };
    let su = stripped.as_str();
    let sl = su.unicode_len();
    if str_ends_with(su, ".md") {
        if str_ends_with(su, "./index.md") {
            String::from_str("/")
        } else if str_ends_with(su, "index.md") {
            proof {
                reveal_strlit("index.md");
            }
            take_chars(su, sl - 8)
        } else {
            proof {
                reveal_strlit(".md");
            }
            let t = take_chars(su, sl - 3);
            t.concat(".html")
        }
    } else {
        stripped
    }
}

proof fn lemma_concat_parts(p: Seq<char>, rest: Seq<char>)
    ensures
        p.is_prefix_of(p + rest),
        (p + rest).skip(p.len() as int) == rest,
{
    assert(p =~= (p + rest).subrange(0, p.len() as int));
    assert((p + rest).skip(p.len() as int) =~= rest);
}

proof fn lemma_suffix_trans(a: Seq<char>, b: Seq<char>, s: Seq<char>)
    requires
        a.is_suffix_of(b),
        b.is_suffix_of(s),
    ensures
        a.is_suffix_of(s),
{
    assert(a =~= s.subrange((s.len() - a.len()) as int, s.len() as int));
}

proof fn lemma_index_md_in_dot_slash_index_md()
    ensures
        index_md().is_suffix_of(dot_slash_index_md()),
        dot_md().is_suffix_of(index_md()),
{
    reveal_strlit("index.md");
    reveal_strlit("./index.md");
    reveal_strlit(".md");
    assert(index_md() =~= dot_slash_index_md().subrange(2, 10));
    assert(dot_md() =~= index_md().subrange(5, 8));
}

/// A link into the content tree to an ordinary page, `/<root>` followed by a
/// path ending in `.md` (and not in `index.md`), is rewritten to that path
/// with `.md` replaced by `.html`.
pub proof fn lemma_rewrite_page_link(root: Seq<char>, rest: Seq<char>)
    requires
        dot_md().is_suffix_of(rest),
        !index_md().is_suffix_of(rest),
    ensures
        rewrite_dest_spec(root_prefix(root) + rest, root) == rest.take(
            rest.len() - dot_md().len(),
        ) + dot_html(),
{
    lemma_concat_parts(root_prefix(root), rest);
    if dot_slash_index_md().is_suffix_of(rest) {
        lemma_index_md_in_dot_slash_index_md();
        lemma_suffix_trans(index_md(), dot_slash_index_md(), rest);
    }
}

/// A link into the content tree to a directory index, `/<root>` followed by
/// a path ending in `index.md` (and not in `./index.md`), is rewritten to
/// the enclosing directory: the path with the trailing `index.md` removed.
pub proof fn lemma_rewrite_index_link(root: Seq<char>, rest: Seq<char>)
    requires
        index_md().is_suffix_of(rest),
        !dot_slash_index_md().is_suffix_of(rest),
    ensures
        rewrite_dest_spec(root_prefix(root) + rest, root) == rest.take(
            rest.len() - index_md().len(),
        ),
{
    lemma_concat_parts(root_prefix(root), rest);
    lemma_index_md_in_dot_slash_index_md();
    lemma_suffix_trans(dot_md(), index_md(), rest);
}

/// A link into the content tree ending in `./index.md` is rewritten to the
/// site root `/`.
pub proof fn lemma_rewrite_root_index_link(root: Seq<char>, rest: Seq<char>)
    requires
        dot_slash_index_md().is_suffix_of(rest),
    ensures
        rewrite_dest_spec(root_prefix(root) + rest, root) == "/"@,
{
    lemma_concat_parts(root_prefix(root), rest);
    lemma_index_md_in_dot_slash_index_md();
    lemma_suffix_trans(index_md(), dot_slash_index_md(), rest);
    lemma_suffix_trans(dot_md(), index_md(), rest);
}

/// A destination that neither lies under the `/<root>` prefix nor ends in
/// `.md` — an external link, an anchor, a non-markdown asset — passes
/// through rewriting unchanged.
pub proof fn lemma_rewrite_identity(u: Seq<char>, root: Seq<char>)
    requires
        !root_prefix(root).is_prefix_of(u),
        !dot_md().is_suffix_of(u),
    ensures
        rewrite_dest_spec(u, root) == u,
{
}

/// Rewriting is idempotent on its own output for page links: a destination
/// already ending in `.html` and not under the `/<root>` prefix is left
/// alone, because the rules only fire on a `.md` suffix or on the prefix.
pub proof fn lemma_rewrite_html_noop(u: Seq<char>, root: Seq<char>)
    requires
        dot_html().is_suffix_of(u),
        !root_prefix(root).is_prefix_of(u),
    ensures
        rewrite_dest_spec(u, root) == u,
{
    reveal_strlit(".html");
    reveal_strlit(".md");
    if dot_md().is_suffix_of(u) {
        assert(u.subrange(u.len() - dot_md().len(), u.len() as int)[dot_md().len() - 1] == u[u.len()
            - 1]);
        assert(u.subrange(u.len() - dot_html().len(), u.len() as int)[dot_html().len() - 1] == u[
            u.len() - 1]);
        assert(false);
    }
}

} // verus!

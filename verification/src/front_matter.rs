//! Front-matter extraction: an optional metadata block between `---`
//! delimiter lines at the start of a document, holding a `title` and a
//! `meta_description`, followed by the markdown body.

use vstd::prelude::*;
use vstd::string::*;
use crate::strutil::find_from;
use crate::strutil::find_substring;
use crate::strutil::is_match_at;
use crate::strutil::lemma_find_from_some;
use crate::strutil::str_starts_with;
use crate::strutil::trim_start;
use crate::strutil::trim_start_spec;

verus! {

/// Metadata taken from a document's leading block.
#[derive(Debug)]
pub struct FrontMatter {
    pub title: Option<String>,
    pub description: Option<String>,
}

/// A document split into its optional front matter and its markdown body.
#[derive(Debug)]
pub struct MarkdownContent {
    pub front_matter: Option<FrontMatter>,
    pub markdown: String,
}

/// The error of front-matter extraction: the delimiters are present in the
/// expected count, but the metadata between them is not a well-formed
/// document.
#[derive(Debug, PartialEq, Eq)]
pub enum ParseError {
    FrontMatterSyntax,
}

pub open spec fn fm_delim() -> Seq<char> {
    "---"@
}

pub open spec fn title_key() -> Seq<char> {
    "title"@
}

pub open spec fn description_key() -> Seq<char> {
    "meta_description"@
}

/// The view of an optional owned string.
pub open spec fn opt_str_view(o: Option<String>) -> Option<Seq<char>> {
    match o {
        Some(s) => Some(s@),
        None => None,
    }
}

/// The metadata text and the remaining text of a document, where the
/// document starts with the delimiter and a second delimiter follows: the
/// two inner pieces of the split into exactly three parts. Any other shape
/// carries no front matter.
pub open spec fn fm_parts(s: Seq<char>) -> Option<(Seq<char>, Seq<char>)> {
    if fm_delim().is_prefix_of(s) {
        match find_from(s, fm_delim(), fm_delim().len() as int) {
            Some(j) => Some(
                (
                    s.subrange(fm_delim().len() as int, j),
                    s.skip(j + fm_delim().len()),
                ),
            ),
            None => None,
        }
    } else {
        None
    }
}

/// Whether a text parses as a YAML document. The result of
/// `serde_yaml::from_str` depends on the text alone.
pub uninterp spec fn yaml_parse_ok(s: Seq<char>) -> bool;

/// The string value at a top-level key of a YAML document, if the text
/// parses and holds a string there; a function of the text and the key.
pub uninterp spec fn yaml_str_field(s: Seq<char>, key: Seq<char>) -> Option<Seq<char>>;

/// Relies on serde_yaml::from_str, deserializing to a serde_json::Value:
/// whether a text parses as a YAML document depends on the text alone.
#[verifier::external_body]
fn yaml_parses(s: &str) -> (r: bool)
    ensures
        r == yaml_parse_ok(s@),
{
    serde_yaml::from_str::<serde_json::Value>(s).is_ok()
}

/// Relies on serde_yaml::from_str (deserializing to a serde_json::Value),
/// serde_json::Value::get and serde_json::Value::as_str: the string value at
/// a top-level key of a YAML document depends on the text and the key alone;
/// a text that does not parse, a missing key and a non-string value all
/// yield nothing.
#[verifier::external_body]
fn yaml_string_field(s: &str, key: &str) -> (r: Option<String>)
    ensures
        r matches Some(v) ==> yaml_parse_ok(s@) && yaml_str_field(s@, key@) == Some(v@),
        r is None ==> yaml_str_field(s@, key@) is None,
{
    let doc: serde_json::Value = match serde_yaml::from_str(s) {
        Ok(d) => d,
        Err(_) => return None,
    };
    doc.get(key).and_then(serde_json::Value::as_str).map(str::to_owned)
}

/// Whether front-matter extraction fails on this document: the split yields
/// three parts, but the metadata between the delimiters does not parse.
pub open spec fn fm_syntax_error(s: Seq<char>) -> bool {
    match fm_parts(s) {
        Some(p) => !yaml_parse_ok(p.0),
        None => false,
    }
}

/// Whether this document carries well-formed front matter.
pub open spec fn doc_has_front_matter(s: Seq<char>) -> bool {
    match fm_parts(s) {
        Some(p) => yaml_parse_ok(p.0),
        None => false,
    }
}

/// The markdown body of a document: all of it when it has no front matter,
/// else the text after the closing delimiter with leading whitespace
/// removed.
pub open spec fn doc_body(s: Seq<char>) -> Seq<char> {
    match fm_parts(s) {
        Some(p) => if yaml_parse_ok(p.0) {
            trim_start_spec(p.1)
        } else {
            s
        },
        None => s,
    }
}

/// The title a document's front matter gives it, if any.
pub open spec fn doc_title(s: Seq<char>) -> Option<Seq<char>> {
    match fm_parts(s) {
        Some(p) => if yaml_parse_ok(p.0) {
            yaml_str_field(p.0, title_key())
        } else {
            None
        },
        None => None,
    }
}

/// The description a document's front matter gives it, if any.
pub open spec fn doc_description(s: Seq<char>) -> Option<Seq<char>> {
    match fm_parts(s) {
        Some(p) => if yaml_parse_ok(p.0) {
            yaml_str_field(p.0, description_key())
        } else {
            None
        },
        None => None,
    }
}

/// A document that does not start with the delimiter carries no front
/// matter: splitting leaves it whole, with its body identical to the text.
pub proof fn lemma_no_leading_delimiter(s: Seq<char>)
    requires
        !fm_delim().is_prefix_of(s),
    ensures
        fm_parts(s) is None,
        !fm_syntax_error(s),
        !doc_has_front_matter(s),
        doc_body(s) == s,
{
}

/// A document whose delimiters do not split it into exactly three parts —
/// the leading delimiter has no second occurrence after it — carries no
/// front matter either: splitting leaves it whole.
pub proof fn lemma_missing_closing_delimiter(s: Seq<char>)
    requires
        find_from(s, fm_delim(), fm_delim().len() as int) is None,
    ensures
        fm_parts(s) is None,
        !fm_syntax_error(s),
        !doc_has_front_matter(s),
        doc_body(s) == s,
{
}

/// Splits a document into its optional front matter and its body.
///
/// A document that does not start with `---`, or whose delimiters do not
/// split it into exactly three parts, carries no front matter and its body
/// is the whole text unchanged. Only metadata that is present but does not
/// parse is an error.
pub fn process_markdown(content: &str) -> (r: Result<MarkdownContent, ParseError>)
    ensures
        r is Err <==> fm_syntax_error(content@),
        r matches Err(e) ==> e == ParseError::FrontMatterSyntax,
        r matches Ok(mc) ==> {
            &&& mc.markdown@ == doc_body(content@)
            &&& (mc.front_matter is Some <==> doc_has_front_matter(content@))
            &&& (mc.front_matter matches Some(fm) ==> opt_str_view(fm.title) == doc_title(
                content@,
            ) && opt_str_view(fm.description) == doc_description(content@))
        },
{
    proof {
        reveal_strlit("---");
    }
    if str_starts_with(content, "---") {
        match find_substring(content, "---", 3) {
            Some(j) => {
                let cl = content.unicode_len();
                proof {
                    lemma_find_from_some(content@, "---"@, 3, j as int);
                    assert(is_match_at(content@, fm_delim(), j as int));
                }
                let meta = content.substring_char(3, j);
                proof {
                    assert(fm_parts(content@) matches Some(p) && p.0 == meta@);
                }
                if !yaml_parses(meta) {
                    return Err(ParseError::FrontMatterSyntax);
                }
                let title = yaml_string_field(meta, "title");
                let description = yaml_string_field(meta, "meta_description");
                let rest = content.substring_char(j + 3, cl);
                let markdown = trim_start(rest);
                proof {
                    assert(rest@ =~= content@.skip(j + 3));
                }
                Ok(
                    MarkdownContent {
                        front_matter: Some(FrontMatter { title, description }),
                        markdown,
                    },
                )
            },
            None => Ok(
                MarkdownContent { front_matter: None, markdown: content.to_owned() },
            ),
        }
    } else {
        Ok(MarkdownContent { front_matter: None, markdown: content.to_owned() })
    }
}

} // verus!

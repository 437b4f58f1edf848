//! Markdown rendering: the body is parsed into a stream of structural
//! events, every link-start event has its destination rewritten under the
//! site root marker, and the stream is serialized to an HTML fragment. All
//! other events pass through unchanged, in their order.

use vstd::prelude::*;
use crate::links::rewrite_dest_spec;
use crate::links::rewrite_link_dest;

verus! {

#[verifier::external_type_specification]
#[verifier::external_body]
pub struct ExEvent<'a>(pulldown_cmark::Event<'a>);

/// The event stream that parsing a markdown text yields, with every
/// standard extension enabled; a function of the text alone.
pub uninterp spec fn md_events_of(s: Seq<char>) -> Seq<pulldown_cmark::Event<'static>>;

/// Whether an event is the start of a link.
pub uninterp spec fn is_link_start(e: pulldown_cmark::Event<'static>) -> bool;

/// The destination URL a link-start event carries.
pub uninterp spec fn link_dest_of(e: pulldown_cmark::Event<'static>) -> Seq<char>;

/// A link-start event with its destination URL replaced and every other
/// field kept.
pub uninterp spec fn link_retarget(
    e: pulldown_cmark::Event<'static>,
    dest: Seq<char>,
) -> pulldown_cmark::Event<'static>;

/// The HTML serialization of an event stream; a function of the events
/// alone.
pub uninterp spec fn html_of(events: Seq<pulldown_cmark::Event<'static>>) -> Seq<char>;

/// Relies on pulldown_cmark::Parser::new_ext with Options::all and on
/// pulldown_cmark::Event::into_static: parses a markdown text into its
/// event stream, a function of the text alone.
#[verifier::external_body]
fn parse_markdown_events(s: &str) -> (r: Vec<pulldown_cmark::Event<'static>>)
    ensures
        r@ == md_events_of(s@),
{
    pulldown_cmark::Parser::new_ext(s, pulldown_cmark::Options::all())
        .map(pulldown_cmark::Event::into_static)
        .collect()
}

/// Relies on matching pulldown_cmark::Event::Start(Tag::Link): the
/// destination URL of a link-start event, and nothing for any other event.
#[verifier::external_body]
fn event_link_dest(e: &pulldown_cmark::Event<'static>) -> (r: Option<String>)
    ensures
        r is Some <==> is_link_start(*e),
        r matches Some(d) ==> d@ == link_dest_of(*e),
{
    match e {
        pulldown_cmark::Event::Start(pulldown_cmark::Tag::Link { dest_url, .. }) => {
            Some(dest_url.as_ref().to_owned())
        },
        _ => None,
    }
}

/// Relies on rebuilding pulldown_cmark::Event::Start(Tag::Link) with the
/// same link type, title and identifier: gives a link-start event the new
/// destination, and returns any other event unchanged.
#[verifier::external_body]
fn retarget_link(e: &pulldown_cmark::Event<'static>, dest: String) -> (r: pulldown_cmark::Event<
    'static,
>)
    ensures
        is_link_start(*e) ==> r == link_retarget(*e, dest@),
        is_link_start(*e) ==> is_link_start(r) && link_dest_of(r) == dest@,
        !is_link_start(*e) ==> r == *e,
{
    match e {
        pulldown_cmark::Event::Start(
            pulldown_cmark::Tag::Link { link_type, title, id, .. },
        ) => pulldown_cmark::Event::Start(
            pulldown_cmark::Tag::Link {
                link_type: *link_type,
                dest_url: pulldown_cmark::CowStr::Boxed(dest.into_boxed_str()),
                title: title.clone(),
                id: id.clone(),
            },
        ),
        _ => e.clone(),
    }
}

/// Relies on the derived Clone of pulldown_cmark::Event.
#[verifier::external_body]
fn clone_event(e: &pulldown_cmark::Event<'static>) -> (r: pulldown_cmark::Event<'static>)
    ensures
        r == *e,
{
    e.clone()
}

/// Relies on pulldown_cmark::html::push_html: serializes an event stream to
/// HTML, a function of the events alone.
#[verifier::external_body]
fn events_to_html(events: Vec<pulldown_cmark::Event<'static>>) -> (r: String)
    ensures
        r@ == html_of(events@),
{
    let mut html_output = String::new();
    pulldown_cmark::html::push_html(&mut html_output, events.into_iter());
    html_output
}

/// One pass over an event stream: every link-start event is retargeted by
/// the rewrite rule under `root`, every other event is kept as it is.
pub open spec fn rewrite_events_spec(
    events: Seq<pulldown_cmark::Event<'static>>,
    root: Seq<char>,
) -> Seq<pulldown_cmark::Event<'static>> {
    events.map_values(
        |e: pulldown_cmark::Event<'static>|
            if is_link_start(e) {
                link_retarget(e, rewrite_dest_spec(link_dest_of(e), root))
            } else {
                e
            },
    )
}

/// The HTML fragment a markdown body renders to under a site root marker:
/// its event stream, with every link destination rewritten, serialized.
pub open spec fn markdown_to_html_spec(md: Seq<char>, root: Seq<char>) -> Seq<char> {
    html_of(rewrite_events_spec(md_events_of(md), root))
}

/// Converts a markdown body to an HTML fragment, rewriting every link
/// destination under the site root marker and leaving all other events
/// unchanged.
pub fn markdown_to_html(markdown_input: &str, site_root_marker: &str) -> (r: String)
    ensures
        r@ == markdown_to_html_spec(markdown_input@, site_root_marker@),
{
    let events = parse_markdown_events(markdown_input);
    let n = events.len();
    let mut rewritten: Vec<pulldown_cmark::Event<'static>> = Vec::new();
    let ghost target = rewrite_events_spec(events@, site_root_marker@);
    let mut i: usize = 0;
    while i < n
        invariant
            n == events.len(),
            target == rewrite_events_spec(events@, site_root_marker@),
            i <= n,
            rewritten@ =~= target.take(i as int),
        decreases n - i,
    {
        match event_link_dest(&events[i]) {
            Some(dest) => {
                let new_dest = rewrite_link_dest(dest.as_str(), site_root_marker);
                rewritten.push(retarget_link(&events[i], new_dest));
            },
            None => {
                rewritten.push(clone_event(&events[i]));
            },
        }
        i += 1;
    }
    proof {
        assert(rewritten@ =~= target);
    }
    events_to_html(rewritten)
}

} // verus!

//! Page assembly: split a document's front matter, render its body to HTML,
//! and substitute the six named template fields — title, description,
//! style, header, footer, content — into the fixed page template. A missing
//! optional input always becomes the empty string, never an absent field.

use vstd::prelude::*;
use vstd::string::*;
use crate::front_matter::FrontMatter;
use crate::front_matter::ParseError;
use crate::front_matter::doc_body;
use crate::front_matter::doc_description;
use crate::front_matter::doc_has_front_matter;
use crate::front_matter::doc_title;
use crate::front_matter::fm_syntax_error;
use crate::front_matter::opt_str_view;
use crate::front_matter::process_markdown;
use crate::render::markdown_to_html;
use crate::strutil::opt_ref_view;
use crate::render::markdown_to_html_spec;

verus! {

/// A rendered document: its HTML fragment, with the front matter carried
/// through for the template's title and description fields.
#[derive(Debug)]
pub struct HTMLContent {
    pub front_matter: Option<FrontMatter>,
    pub html: String,
}

/// What can fail while a page is built: its metadata block does not parse,
/// or the template engine refuses the substitution (whose message is
/// carried).
#[derive(Debug, PartialEq, Eq)]
pub enum BuildError {
    FrontMatterSyntax,
    TemplateRender(String),
}

/// The fixed page layout the six fields are substituted into.
pub const PAGE_TEMPLATE: &'static str = "<!DOCTYPE html>\n<html>\n<head>\n<meta charset=\"utf-8\">\n<title>{{title}}</title>\n<meta name=\"description\" content=\"{{description}}\">\n<style>{{{style}}}</style>\n</head>\n<body>\n<header>{{{header}}}</header>\n<main>{{{content}}}</main>\n<footer>{{{footer}}}</footer>\n</body>\n</html>\n";

/// The text a renderer produces for a template and a list of named string
/// fields; a function of the two alone.
pub uninterp spec fn rendered_template(
    template: Seq<char>,
    fields: Seq<(Seq<char>, Seq<char>)>,
) -> Seq<char>;

/// Whether the renderer accepts a template with a list of named string
/// fields; a function of the two alone.
pub uninterp spec fn template_render_ok(
    template: Seq<char>,
    fields: Seq<(Seq<char>, Seq<char>)>,
) -> bool;

/// The view of a list of named string fields.
pub open spec fn fields_view(v: Seq<(String, String)>) -> Seq<(Seq<char>, Seq<char>)> {
    v.map_values(|p: (String, String)| (p.0@, p.1@))
}

/// Relies on handlebars::Handlebars::new, register_template_string and
/// render, handing the fields over as a serde_json object of strings: what
/// the engine renders depends on the template text and the named fields
/// alone; a refusal carries the engine's message.
#[verifier::external_body]
fn render_with_template(template: &str, fields: &Vec<(String, String)>) -> (r: Result<
    String,
    String,
>)
    ensures
        r matches Ok(s) ==> template_render_ok(template@, fields_view(fields@)) && s@
            == rendered_template(template@, fields_view(fields@)),
        r is Err ==> !template_render_ok(template@, fields_view(fields@)),
{
    let mut registry = handlebars::Handlebars::new();
    if let Err(e) = registry.register_template_string("page", template) {
        return Err(format!("{}", e));
    }
    let data: serde_json::Map<String, serde_json::Value> = fields
        .iter()
        .map(|p| (p.0.clone(), serde_json::Value::String(p.1.clone())))
        .collect();
    registry.render("page", &serde_json::Value::Object(data)).map_err(|e| format!("{}", e))
}

/// An optional text, defaulted to the empty string.
pub open spec fn opt_or_empty(o: Option<Seq<char>>) -> Seq<char> {
    match o {
        Some(s) => s,
        None => Seq::empty(),
    }
}

/// The title carried by an optional front matter.
pub open spec fn fm_title_view(fm: Option<FrontMatter>) -> Option<Seq<char>> {
    match fm {
        Some(f) => opt_str_view(f.title),
        None => None,
    }
}

/// The description carried by an optional front matter.
pub open spec fn fm_description_view(fm: Option<FrontMatter>) -> Option<Seq<char>> {
    match fm {
        Some(f) => opt_str_view(f.description),
        None => None,
    }
}

/// The six named fields a page is rendered with, every optional input
/// defaulted to the empty string.
pub open spec fn template_fields(
    title: Option<Seq<char>>,
    description: Option<Seq<char>>,
    style: Option<Seq<char>>,
    header: Option<Seq<char>>,
    footer: Option<Seq<char>>,
    content_html: Seq<char>,
) -> Seq<(Seq<char>, Seq<char>)> {
    seq![
        ("title"@, opt_or_empty(title)),
        ("description"@, opt_or_empty(description)),
        ("style"@, opt_or_empty(style)),
        ("header"@, opt_or_empty(header)),
        ("footer"@, opt_or_empty(footer)),
        ("content"@, content_html),
    ]
}

/// The fields `render_template` hands to the engine for these inputs.
pub open spec fn page_fields(
    style: Option<&str>,
    header: Option<&str>,
    footer: Option<&str>,
    content: HTMLContent,
) -> Seq<(Seq<char>, Seq<char>)> {
    template_fields(
        fm_title_view(content.front_matter),
        fm_description_view(content.front_matter),
        opt_ref_view(style),
        opt_ref_view(header),
        opt_ref_view(footer),
        content.html@,
    )
}

fn opt_str_or_empty(o: Option<&str>) -> (r: String)
    ensures
        r@ == opt_or_empty(opt_ref_view(o)),
{
    match o {
        Some(s) => s.to_owned(),
        None => String::new(),
    }
}

fn owned_opt_str_or_empty(o: &Option<String>) -> (r: String)
    ensures
        r@ == opt_or_empty(opt_str_view(*o)),
{
    match o {
        Some(s) => s.clone(),
        None => String::new(),
    }
}

/// Renders the final page: the six named fields — title and description
/// from the front matter, the given style, header and footer, and the HTML
/// fragment — each defaulted to the empty string when absent, substituted
/// into the fixed page template.
pub fn render_template(
    style: Option<&str>,
    header: Option<&str>,
    footer: Option<&str>,
    content: HTMLContent,
) -> (r: Result<String, BuildError>)
    ensures
        r matches Ok(s) ==> s@ == rendered_template(
            PAGE_TEMPLATE@,
            page_fields(style, header, footer, content),
        ),
        r is Ok <==> template_render_ok(PAGE_TEMPLATE@, page_fields(style, header, footer, content)),
        r matches Err(e) ==> e matches BuildError::TemplateRender(_),
{
    let mut fields: Vec<(String, String)> = Vec::new();
    let title: String = match &content.front_matter {
        Some(fm) => owned_opt_str_or_empty(&fm.title),
        None => String::new(),
    };
    let description: String = match &content.front_matter {
        Some(fm) => owned_opt_str_or_empty(&fm.description),
        None => String::new(),
    };
    fields.push((String::from_str("title"), title));
    fields.push((String::from_str("description"), description));
    fields.push((String::from_str("style"), opt_str_or_empty(style)));
    fields.push((String::from_str("header"), opt_str_or_empty(header)));
    fields.push((String::from_str("footer"), opt_str_or_empty(footer)));
    fields.push((String::from_str("content"), content.html.clone()));
    proof {
        assert(fields_view(fields@) =~= page_fields(style, header, footer, content));
    }
    match render_with_template(PAGE_TEMPLATE, &fields) {
        Ok(s) => Ok(s),
        Err(m) => Err(BuildError::TemplateRender(m)),
    }
}

/// What holds of a rendered document `h` produced from `text` under root
/// marker `root`: the HTML is the rewritten rendering of the body, and the
/// front matter is carried through unchanged.
pub open spec fn is_processed_document(text: Seq<char>, root: Seq<char>, h: HTMLContent) -> bool {
    &&& h.html@ == markdown_to_html_spec(doc_body(text), root)
    &&& (h.front_matter is Some <==> doc_has_front_matter(text))
    &&& (h.front_matter matches Some(fm) ==> opt_str_view(fm.title) == doc_title(text)
        && opt_str_view(fm.description) == doc_description(text))
}

/// Converts one document's text to its HTML fragment: front matter split
/// off, body rendered with link rewriting under the site root marker.
pub fn load_html_from_md(content: &str, site_root_marker: &str) -> (r: Result<
    HTMLContent,
    ParseError,
>)
    ensures
        r is Err <==> fm_syntax_error(content@),
        r matches Err(e) ==> e == ParseError::FrontMatterSyntax,
        r matches Ok(h) ==> is_processed_document(content@, site_root_marker@, h),
{
    let mc = match process_markdown(content) {
        Ok(mc) => mc,
        Err(e) => {
            return Err(e);
        },
    };
    let html = markdown_to_html(mc.markdown.as_str(), site_root_marker);
    Ok(HTMLContent { front_matter: mc.front_matter, html })
}

/// Processes the site header's text, when its file was readable; a header
/// whose metadata block does not parse is dropped, not an error.
pub fn load_header(header_text: Option<&str>, site_root_marker: &str) -> (r: Option<HTMLContent>)
    ensures
        header_text is None ==> r is None,
        header_text matches Some(t) ==> {
            &&& (r is Some <==> !fm_syntax_error(t@))
            &&& (r matches Some(h) ==> is_processed_document(t@, site_root_marker@, h))
        },
{
    match header_text {
        Some(t) => match load_html_from_md(t, site_root_marker) {
            Ok(h) => Some(h),
            Err(_) => None,
        },
        None => None,
    }
}

/// Processes the site footer's text, when its file was readable; a footer
/// whose metadata block does not parse is dropped, not an error.
pub fn load_footer(footer_text: Option<&str>, site_root_marker: &str) -> (r: Option<HTMLContent>)
    ensures
        footer_text is None ==> r is None,
        footer_text matches Some(t) ==> {
            &&& (r is Some <==> !fm_syntax_error(t@))
            &&& (r matches Some(h) ==> is_processed_document(t@, site_root_marker@, h))
        },
{
    match footer_text {
        Some(t) => match load_html_from_md(t, site_root_marker) {
            Ok(h) => Some(h),
            Err(_) => None,
        },
        None => None,
    }
}

/// The six fields the whole pipeline renders a raw document with.
pub open spec fn assembled_fields(
    raw: Seq<char>,
    root: Seq<char>,
    style: Option<&str>,
    header: Option<&str>,
    footer: Option<&str>,
) -> Seq<(Seq<char>, Seq<char>)> {
    template_fields(
        doc_title(raw),
        doc_description(raw),
        opt_ref_view(style),
        opt_ref_view(header),
        opt_ref_view(footer),
        markdown_to_html_spec(doc_body(raw), root),
    )
}

/// The whole pipeline for one document: split the front matter, render the
/// body with link rewriting, and substitute the fields into the page
/// template.
pub fn assemble(
    raw_markdown: &str,
    site_root_marker: &str,
    style: Option<&str>,
    header_html: Option<&str>,
    footer_html: Option<&str>,
) -> (r: Result<String, BuildError>)
    ensures
        fm_syntax_error(raw_markdown@) <==> r matches Err(BuildError::FrontMatterSyntax),
        !fm_syntax_error(raw_markdown@) ==> {
            let fields = assembled_fields(
                raw_markdown@,
                site_root_marker@,
                style,
                header_html,
                footer_html,
            );
            &&& (r matches Ok(s) ==> s@ == rendered_template(PAGE_TEMPLATE@, fields))
            &&& (r is Ok <==> template_render_ok(PAGE_TEMPLATE@, fields))
            &&& (r matches Err(e) ==> e matches BuildError::TemplateRender(_))
        },
{
    let content = match load_html_from_md(raw_markdown, site_root_marker) {
        Ok(h) => h,
        Err(_) => {
            return Err(BuildError::FrontMatterSyntax);
        },
    };
    proof {
        assert(fm_title_view(content.front_matter) == doc_title(raw_markdown@));
        assert(fm_description_view(content.front_matter) == doc_description(raw_markdown@));
    }
    render_template(style, header_html, footer_html, content)
}

} // verus!

use mdsite::assemble::assemble;
use mdsite::assemble::load_footer;
use mdsite::assemble::load_header;
use mdsite::assemble::load_html_from_md;
use mdsite::assemble::render_template;
use mdsite::assemble::HTMLContent;
use mdsite::front_matter::process_markdown;
use mdsite::front_matter::ParseError;
use mdsite::links::rewrite_link_dest;
use mdsite::paths::expand_path;
use mdsite::paths::get_content_path;
use mdsite::paths::html_output_path;
use mdsite::render::markdown_to_html;

#[test]
fn no_front_matter_is_kept_whole() {
    let mc = process_markdown("# Hello").unwrap();
    assert!(mc.front_matter.is_none());
    assert_eq!(mc.markdown, "# Hello");
}

#[test]
fn front_matter_title_and_description_are_extracted() {
    let mc = process_markdown("---\ntitle: My Page\nmeta_description: A page.\n---\n# Body")
        .unwrap();
    let fm = mc.front_matter.expect("front matter expected");
    assert_eq!(fm.title.as_deref(), Some("My Page"));
    assert_eq!(fm.description.as_deref(), Some("A page."));
    assert_eq!(mc.markdown, "# Body");
}

#[test]
fn front_matter_missing_keys_are_none() {
    let mc = process_markdown("---\ntitle: Only Title\n---\nbody").unwrap();
    let fm = mc.front_matter.expect("front matter expected");
    assert_eq!(fm.title.as_deref(), Some("Only Title"));
    assert!(fm.description.is_none());
    assert_eq!(mc.markdown, "body");
}

#[test]
fn too_few_delimiters_degrade_to_no_front_matter() {
    let text = "---\ntitle: No Closing Delimiter\nbody goes on";
    let mc = process_markdown(text).unwrap();
    assert!(mc.front_matter.is_none());
    assert_eq!(mc.markdown, text);
}

#[test]
fn four_dashes_are_not_two_delimiters() {
    let mc = process_markdown("----").unwrap();
    assert!(mc.front_matter.is_none());
    assert_eq!(mc.markdown, "----");
}

#[test]
fn malformed_metadata_is_a_syntax_error() {
    let err = process_markdown("---\n[\n---\nbody").unwrap_err();
    assert_eq!(err, ParseError::FrontMatterSyntax);
}

#[test]
fn empty_document_has_empty_body() {
    let mc = process_markdown("").unwrap();
    assert!(mc.front_matter.is_none());
    assert_eq!(mc.markdown, "");
}

#[test]
fn page_link_becomes_html() {
    assert_eq!(rewrite_link_dest("/content/sub/page.md", "content"), "/sub/page.html");
}

#[test]
fn index_link_becomes_directory() {
    assert_eq!(rewrite_link_dest("/content/sub/index.md", "content"), "/sub/");
}

#[test]
fn root_index_link_becomes_root() {
    assert_eq!(rewrite_link_dest("/content/./index.md", "content"), "/");
}

#[test]
fn non_markdown_links_pass_through() {
    assert_eq!(rewrite_link_dest("https://example.com", "content"), "https://example.com");
    assert_eq!(rewrite_link_dest("/static/img.png", "content"), "/static/img.png");
    assert_eq!(rewrite_link_dest("#anchor", "content"), "#anchor");
}

#[test]
fn rewriting_an_html_link_is_a_no_op() {
    assert_eq!(rewrite_link_dest("/sub/page.html", "content"), "/sub/page.html");
}

#[test]
fn prefix_match_is_a_plain_string_prefix() {
    // The marker strip is not path-segment-aware, by design.
    assert_eq!(rewrite_link_dest("/content/img.png", "content"), "/img.png");
    assert_eq!(rewrite_link_dest("/contentious/page.md", "content"), "ious/page.html");
}

#[test]
fn markdown_renders_heading() {
    let html = markdown_to_html("# Hello", "content");
    assert!(html.contains("<h1>Hello</h1>"), "got: {}", html);
}

#[test]
fn markdown_rewrites_link_in_document() {
    let html = markdown_to_html("[x](/content/docs/index.md)", "content");
    assert!(html.contains("<a href=\"/docs/\">x</a>"), "got: {}", html);
}

#[test]
fn markdown_table_extension_is_enabled() {
    let html = markdown_to_html("| a | b |\n|---|---|\n| 1 | 2 |", "content");
    assert!(html.contains("<table>"), "got: {}", html);
}

#[test]
fn empty_markdown_renders_empty() {
    assert_eq!(markdown_to_html("", "content"), "");
}

#[test]
fn assemble_plain_document_defaults_title_empty() {
    let page = assemble("# Hello", "content", None, None, None).unwrap();
    assert!(page.contains("<h1>Hello</h1>"), "got: {}", page);
    assert!(page.contains("<title></title>"), "got: {}", page);
    assert!(page.contains("content=\"\""), "got: {}", page);
}

#[test]
fn assemble_fills_all_six_fields() {
    let page = assemble(
        "---\ntitle: My Page\nmeta_description: A page.\n---\n# Body",
        "content",
        Some("body { margin: 0; }"),
        Some("<nav>top</nav>"),
        Some("<p>bottom</p>"),
    )
    .unwrap();
    assert!(page.contains("<title>My Page</title>"), "got: {}", page);
    assert!(page.contains("content=\"A page.\""), "got: {}", page);
    assert!(page.contains("<style>body { margin: 0; }</style>"), "got: {}", page);
    assert!(page.contains("<nav>top</nav>"), "got: {}", page);
    assert!(page.contains("<p>bottom</p>"), "got: {}", page);
    assert!(page.contains("<h1>Body</h1>"), "got: {}", page);
}

#[test]
fn assemble_link_scenario() {
    let page = assemble("[x](/content/docs/index.md)", "content", None, None, None).unwrap();
    assert!(page.contains("<a href=\"/docs/\">x</a>"), "got: {}", page);
}

#[test]
fn assemble_propagates_front_matter_error() {
    let err = assemble("---\n[\n---\nbody", "content", None, None, None).unwrap_err();
    assert_eq!(err, mdsite::assemble::BuildError::FrontMatterSyntax);
}

#[test]
fn load_html_carries_front_matter() {
    let h = load_html_from_md("---\ntitle: T\n---\n# Hi", "content").unwrap();
    let fm = h.front_matter.expect("front matter expected");
    assert_eq!(fm.title.as_deref(), Some("T"));
    assert!(h.html.contains("<h1>Hi</h1>"), "got: {}", h.html);
}

#[test]
fn render_template_escapes_title_but_not_content() {
    let content = HTMLContent { front_matter: None, html: String::from("<p>a & b</p>") };
    let page = render_template(None, None, None, content).unwrap();
    assert!(page.contains("<p>a & b</p>"), "got: {}", page);
}

#[test]
fn load_header_processes_text() {
    let h = load_header(Some("# Site"), "content").expect("header expected");
    assert!(h.html.contains("<h1>Site</h1>"), "got: {}", h.html);
    assert!(load_header(None, "content").is_none());
}

#[test]
fn load_footer_drops_bad_metadata() {
    let f = load_footer(Some("---\n[\n---\ntext"), "content");
    assert!(f.is_none());
    let f = load_footer(Some("*fine*"), "content").expect("footer expected");
    assert!(f.html.contains("<em>fine</em>"), "got: {}", f.html);
}

#[test]
fn tilde_expansion() {
    assert_eq!(expand_path("~/site", Some("/home/me")), "/home/me/site");
    assert_eq!(expand_path("~", Some("/home/me")), "/home/me");
    assert_eq!(expand_path("~other/site", Some("/home/me")), "~other/site");
    assert_eq!(expand_path("~/site", None), "~/site");
    assert_eq!(expand_path("plain/site", Some("/home/me")), "plain/site");
    assert_eq!(get_content_path("~/content", Some("/home/me")), "/home/me/content");
}

#[test]
fn output_path_replaces_md_with_html() {
    assert_eq!(html_output_path("docs/page.md"), "docs/page.html");
    assert_eq!(html_output_path("index.md"), "index.html");
}

#[test]
fn inline_delimiters_still_split() {
    // The split is not line-based: any second occurrence of the delimiter
    // closes the metadata block.
    let mc = process_markdown("---abc---def").unwrap();
    let fm = mc.front_matter.expect("front matter expected");
    assert!(fm.title.is_none());
    assert!(fm.description.is_none());
    assert_eq!(mc.markdown, "def");
}

#[test]
fn empty_metadata_block_is_valid_and_empty() {
    let mc = process_markdown("---\n---\nbody").unwrap();
    let fm = mc.front_matter.expect("front matter expected");
    assert!(fm.title.is_none());
    assert!(fm.description.is_none());
    assert_eq!(mc.markdown, "body");
}

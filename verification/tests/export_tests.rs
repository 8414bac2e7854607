use mdnotes::export::render_html;
use mdnotes::export::render_html_ext;
use mdnotes::export::strip_tags;
use mdnotes::export::strip_whitespace;
use mdnotes::textutil::html_sibling;
use mdnotes::textutil::usize_str;

#[test]
fn export_produces_markup() {
    let html = render_html("# Title");
    assert!(html.contains("<h1>"));
    assert!(html.contains("Title"));
}

#[test]
fn export_ext_produces_markup() {
    let html = render_html_ext("*x*");
    assert!(html.contains("<em>x</em>"));
}

#[test]
fn strip_tags_removes_markup_only() {
    assert_eq!(strip_tags("<p>hi <em>there</em></p>"), "hi there");
    assert_eq!(strip_tags("no tags at all"), "no tags at all");
    assert_eq!(strip_tags("<ul><li>a</li></ul>"), "a");
}

#[test]
fn strip_whitespace_removes_all_whitespace() {
    assert_eq!(strip_whitespace(" a\tb\nc\r\nd "), "abcd");
    assert_eq!(strip_whitespace(""), "");
}

#[test]
fn html_round_trip_preserves_visible_text() {
    let body = "# Title\n\nHello *world*\n\n- item one\n- item two\n\n`code`";
    let html = render_html(body);
    let visible = strip_whitespace(&strip_tags(&html));
    // The visible text of the body, markers removed, whitespace normalized.
    assert_eq!(visible, "TitleHelloworlditemoneitemtwocode");
}

#[test]
fn html_round_trip_on_plain_paragraph() {
    let body = "just a plain sentence";
    let html = render_html(body);
    let visible = strip_whitespace(&strip_tags(&html));
    assert_eq!(visible, strip_whitespace(body));
}

#[test]
fn html_sibling_replaces_md_extension() {
    assert_eq!(html_sibling("a/b/note_1.md"), "a/b/note_1.html");
    assert_eq!(html_sibling("note_12.md"), "note_12.html");
}

#[test]
fn html_sibling_appends_for_other_paths() {
    assert_eq!(html_sibling("notes.txt"), "notes.txt.html");
    assert_eq!(html_sibling("md"), "md.html");
}

#[test]
fn usize_str_renders_decimal() {
    assert_eq!(usize_str(0), "0");
    assert_eq!(usize_str(7), "7");
    assert_eq!(usize_str(42), "42");
    assert_eq!(usize_str(1000), "1000");
    assert_eq!(usize_str(987654), "987654");
}

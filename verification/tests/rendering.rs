use paste_service::markdown::{fenced_code_pieces, EventKind, Piece};
use paste_service::services::{
    markdown_to_html, markdown_to_html_pretty, GENERIC_ATTRIBUTES, MARKDOWN_EXTENSIONS,
};

fn text_of(html: &str) -> String {
    let mut text = String::new();
    let mut in_tag = false;
    for c in html.chars() {
        match c {
            '<' => in_tag = true,
            '>' => in_tag = false,
            _ if !in_tag => text.push(c),
            _ => {}
        }
    }
    text
}

#[test]
fn markdown_is_rendered_to_html() {
    assert_eq!(markdown_to_html("# hi"), "<h1>hi</h1>\n");
    assert_eq!(markdown_to_html("hello *world*"), "<p>hello <em>world</em></p>\n");
    assert_eq!(markdown_to_html(""), "");
}

#[test]
fn extensions_are_switched_on() {
    assert_eq!(markdown_to_html("~~gone~~"), "<p><del>gone</del></p>\n");
    let table = markdown_to_html("| a | b |\n|---|---|\n| 1 | 2 |\n");
    assert!(table.contains("<table>"));
    assert!(table.contains("<td>1</td>"));
}

#[test]
fn script_elements_are_removed() {
    for render in [markdown_to_html, markdown_to_html_pretty] {
        let html = render("before\n\n<script>alert(1)</script>\n\nafter");
        assert!(!html.contains("<script"));
        assert!(!html.contains("alert(1)"));
        assert!(html.contains("before"));
        assert!(html.contains("after"));
    }
}

#[test]
fn event_handlers_are_removed() {
    for render in [markdown_to_html, markdown_to_html_pretty] {
        let html = render("<a href=\"https://example.com/\" onclick=\"steal()\">link</a>");
        assert!(!html.contains("onclick"));
        assert!(!html.contains("steal"));
        assert!(html.contains("href=\"https://example.com/\""));
        assert!(html.contains("link"));
    }
}

#[test]
fn script_urls_are_removed() {
    for render in [markdown_to_html, markdown_to_html_pretty] {
        let html = render("[click](javascript:alert(1))");
        assert!(!html.contains("javascript:"));
        assert!(html.contains("click"));
    }
}

#[test]
fn id_name_and_class_are_kept_and_style_is_not() {
    let html = markdown_to_html("<p id=\"top\" class=\"note\" style=\"color:red\">x</p>");
    assert!(html.contains("id=\"top\""));
    assert!(html.contains("class=\"note\""));
    assert!(!html.contains("style"));
}

#[test]
fn plain_rendering_leaves_code_blocks_alone() {
    assert_eq!(
        markdown_to_html("```rust\nfn main() {}\n```"),
        "<pre><code class=\"language-rust\">fn main() {}\n</code></pre>\n"
    );
}

#[test]
fn fenced_code_is_highlighted_with_no_character_dropped() {
    for label in ["rust", "rs", "", "no-such-language"] {
        let source = format!("```{}\nfn main() {{}}\n```", label);
        let html = markdown_to_html_pretty(&source);
        assert!(html.contains("<pre"), "{}", html);
        assert!(html.contains("<span"), "{}", html);
        assert!(!html.contains("<code"), "{}", html);
        assert!(text_of(&html).contains("fn main() {}"), "{}", html);
    }
}

#[test]
fn the_label_of_the_fence_picks_the_grammar() {
    // No grammar is kept under the extension `rust`, so the text is left
    // in one piece; under `rs` the Rust grammar splits it into tokens.
    assert_eq!(
        markdown_to_html_pretty("```rust\nfn main() {}\n```"),
        "<pre><span>fn main() {}\n</span></pre>\n"
    );
    let rust = markdown_to_html_pretty("```rs\nfn main() {}\n```");
    assert!(rust.matches("<span>").count() > 1, "{}", rust);
    assert_eq!(text_of(&rust), "fn main() {}\n\n");
}

#[test]
fn highlighted_code_is_sanitized_too() {
    let html = markdown_to_html_pretty("```html\n<script>alert(1)</script>\n```");
    assert!(!html.contains("<script"));
    assert!(!html.contains("style="));
    assert!(text_of(&html).contains("&lt;script&gt;alert(1)&lt;/script&gt;"));
}

#[test]
fn text_around_a_fenced_block_is_rendered_as_usual() {
    let html = markdown_to_html_pretty("# title\n\n```rs\nlet x = 1;\n```\n\nthe *end*");
    assert!(html.starts_with("<h1>title</h1>\n"));
    assert!(html.ends_with("<p>the <em>end</em></p>\n"));
    assert!(text_of(&html).contains("let x = 1;"));
}

#[test]
fn without_fenced_code_both_renderings_agree() {
    for source in ["# hi\n\nsome *text*", "    indented code\n", "- a\n- b\n", "a `b` c", ""] {
        assert_eq!(markdown_to_html_pretty(source), markdown_to_html(source));
    }
    assert_eq!(
        markdown_to_html_pretty("    indented code\n"),
        "<pre><code>indented code\n</code></pre>\n"
    );
}

#[test]
fn rendering_is_a_function_of_the_source() {
    let source = "# a\n\n```rs\nfn f() -> u8 { 1 }\n```\n";
    assert_eq!(markdown_to_html_pretty(source), markdown_to_html_pretty(source));
    assert_eq!(markdown_to_html(source), markdown_to_html(source));
}

#[test]
fn fenced_blocks_become_one_piece_each() {
    let kinds = vec![
        EventKind::Other,
        EventKind::FencedCodeStart("rust".to_string()),
        EventKind::Text("fn ".to_string()),
        EventKind::Text("main() {}\n".to_string()),
        EventKind::CodeBlockEnd,
        EventKind::Text("after".to_string()),
        EventKind::Other,
        EventKind::CodeBlockEnd,
        EventKind::FencedCodeStart(String::new()),
        EventKind::CodeBlockEnd,
    ];
    let expected = vec![
        Piece::Event(0),
        Piece::Code { label: "rust".to_string(), text: "fn main() {}\n".to_string() },
        Piece::Event(5),
        Piece::Event(6),
        Piece::Event(7),
        Piece::Code { label: String::new(), text: String::new() },
    ];
    assert_eq!(fenced_code_pieces(&kinds), expected);
}

#[test]
fn no_events_give_no_pieces() {
    assert_eq!(fenced_code_pieces(&Vec::new()), Vec::new());
}

#[test]
fn an_unclosed_fence_gives_no_piece() {
    let kinds = vec![
        EventKind::FencedCodeStart("rs".to_string()),
        EventKind::Text("lost".to_string()),
    ];
    assert_eq!(fenced_code_pieces(&kinds), Vec::new());
}

#[test]
fn a_new_fence_starts_with_no_text() {
    let kinds = vec![
        EventKind::FencedCodeStart("a".to_string()),
        EventKind::Text("first".to_string()),
        EventKind::FencedCodeStart("b".to_string()),
        EventKind::Text("second".to_string()),
        EventKind::CodeBlockEnd,
    ];
    let expected = vec![Piece::Code { label: "b".to_string(), text: "second".to_string() }];
    assert_eq!(fenced_code_pieces(&kinds), expected);
}

#[test]
fn every_extension_of_the_parser_is_switched_on() {
    assert_eq!(MARKDOWN_EXTENSIONS, pulldown_cmark::Options::all().bits());
    // Footnotes, task lists and smart punctuation are among them.
    assert!(markdown_to_html("a[^1]\n\n[^1]: note\n").contains("note"));
    assert!(markdown_to_html("\"quoted\"").contains("\u{201c}quoted\u{201d}"));
}

#[test]
fn rel_is_not_allowed_on_every_tag() {
    assert_eq!(GENERIC_ATTRIBUTES, ["id", "name", "class"]);
    let html = markdown_to_html("<p rel=\"me\" lang=\"en\" title=\"t\" name=\"n\">x</p>");
    assert!(!html.contains("rel="));
    assert!(!html.contains("lang="));
    assert!(!html.contains("title="));
    assert!(html.contains("name=\"n\""));
}

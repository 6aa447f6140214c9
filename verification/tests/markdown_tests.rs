use rustynotes::markdown::{highlight_code_blocks, render_markdown, replace_block, Highlighter, MarkdownParser};

#[test]
fn test_basic_markdown() {
    let html = MarkdownParser::parse("# Hello\n\nWorld");
    assert!(html.contains("<h1"));
    assert!(html.contains("Hello"));
    assert!(html.contains("<p>World</p>"));
}

#[test]
fn test_bold_italic() {
    let html = MarkdownParser::parse("**bold** and *italic*");
    assert!(html.contains("<strong>bold</strong>"));
    assert!(html.contains("<em>italic</em>"));
}

#[test]
fn test_gfm_strikethrough() {
    let html = MarkdownParser::parse("~~deleted~~");
    assert!(html.contains("<del>deleted</del>"));
}

#[test]
fn test_gfm_table() {
    let md = "| A | B |\n|---|---|\n| 1 | 2 |";
    let html = MarkdownParser::parse(md);
    assert!(html.contains("<table>"));
    assert!(html.contains("<td>1</td>"));
}

#[test]
fn test_gfm_tasklist() {
    let md = "- [x] Done\n- [ ] Todo";
    let html = MarkdownParser::parse(md);
    assert!(html.contains("checked"));
    assert!(html.contains("type=\"checkbox\""));
}

#[test]
fn test_fenced_code_block_highlighted() {
    let md = "```rust\nfn main() {}\n```";
    let html = MarkdownParser::parse(md);
    assert!(html.contains("shiki-wrapper"));
}

#[test]
fn test_mermaid_block_preserved() {
    let md = "```mermaid\ngraph LR\nA-->B\n```";
    let html = MarkdownParser::parse(md);
    assert!(html.contains("language-mermaid"));
    assert!(!html.contains("shiki-wrapper"));
}

#[test]
fn test_math_passthrough() {
    let md = "Inline $x^2$ and block:\n\n$$\nE = mc^2\n$$";
    let html = MarkdownParser::parse(md);
    assert!(html.contains("x^2") || html.contains("math"));
}

#[test]
fn test_footnotes() {
    let md = "Text[^1]\n\n[^1]: Footnote content";
    let html = MarkdownParser::parse(md);
    assert!(html.contains("footnote"));
}

#[test]
fn test_autolink() {
    let html = MarkdownParser::parse("Visit https://example.com");
    assert!(html.contains("<a href=\"https://example.com\">"));
}

#[test]
fn test_unknown_language_fallback() {
    let md = "```obscurelang\nsome code\n```";
    let html = MarkdownParser::parse(md);
    assert!(html.contains("shiki-wrapper") || html.contains("<pre"));
}

#[test]
fn basic_markdown() {
    let html = render_markdown("# Hello\n\nWorld");
    assert!(html.contains("<h1"));
    assert!(html.contains("Hello"));
}

#[test]
fn code_block_highlighted() {
    let html = render_markdown("```rust\nfn main() {}\n```");
    assert!(html.contains("shiki-wrapper") || html.contains("<pre"));
}

#[test]
fn mermaid_block_preserved() {
    let html = render_markdown("```mermaid\ngraph LR\nA-->B\n```");
    assert!(html.contains("language-mermaid"));
}

#[test]
fn raw_html_front_matter_and_heading_ids() {
    let html = MarkdownParser::parse("---\ntitle: x\n---\n\n# Title\n\n<span>raw</span>");
    assert!(html.contains("<span>raw</span>"));
    assert!(!html.contains("title: x"));
    assert!(html.contains("id=\"title\""));
}

#[test]
fn text_without_code_blocks_is_unchanged() {
    let html = "<p>a</p>\n<pre><code>plain</code></pre>\n";
    assert_eq!(highlight_code_blocks(html), html);
}

#[test]
fn mermaid_block_kept_between_text() {
    let block = "<pre><code class=\"language-mermaid\">A--&gt;B\n</code></pre>";
    let html = format!("<p>a</p>\n{block}\n<p>b</p>\n");
    assert_eq!(highlight_code_blocks(&html), html);
}

#[test]
fn replaced_block_forms() {
    let groups = vec![Some("W".to_string()), Some("rust".to_string()), Some("c".to_string())];
    assert_eq!(replace_block(&groups, Some("H".into())), "<div class=\"shiki-wrapper\">H</div>");
    assert_eq!(replace_block(&groups, None), "W");
    let mermaid = vec![Some("W".to_string()), Some("mermaid".to_string()), Some("c".to_string())];
    assert_eq!(replace_block(&mermaid, Some("H".into())), "W");
    let short = vec![Some("W".to_string())];
    assert_eq!(replace_block(&short, Some("H".into())), "W");
}

#[test]
fn highlighted_code_is_decoded_once() {
    let html = MarkdownParser::parse("```rust\nlet a = 1 < 2;\n```");
    assert!(html.contains("shiki-wrapper"));
    assert!(!html.contains("&amp;lt;"));
    assert!(html.contains("&lt;"));
}

#[test]
fn bundled_syntax_names_are_unique() {
    let set = syntect::parsing::SyntaxSet::load_defaults_newlines();
    let mut names: Vec<&str> = set.syntaxes().iter().map(|s| s.name.as_str()).collect();
    let all = names.len();
    names.sort();
    names.dedup();
    assert_eq!(names.len(), all);
    assert!(names.contains(&"Plain Text"));
}

#[test]
fn highlight_is_syntect_with_the_token_syntax() {
    let set = syntect::parsing::SyntaxSet::load_defaults_newlines();
    let themes = syntect::highlighting::ThemeSet::load_defaults();
    let theme = &themes.themes["base16-ocean.dark"];
    let code = "fn main() {}\n";
    let syntax = set.find_syntax_by_token("rs").unwrap();
    let expected = syntect::html::highlighted_html_for_string(code, &set, syntax, theme).unwrap();
    let h = Highlighter::load();
    assert_eq!(h.highlight(code, "rs"), Some(expected.clone()));
    assert_eq!(h.highlight(code, "rust"), Some(expected));
    assert_ne!(h.highlight(code, "rust"), Some(code.to_string()));
}

#[test]
fn unknown_language_highlights_as_plain_text() {
    let h = Highlighter::load();
    let plain = h.highlight("some code\n", "Plain Text").unwrap();
    assert_eq!(h.highlight("some code\n", "obscurelang"), Some(plain.clone()));
    let html = MarkdownParser::parse("```obscurelang\nsome code\n```");
    assert!(html.contains(&format!("<div class=\"shiki-wrapper\">{plain}</div>")));
}

#[test]
fn block_is_highlighted_from_its_decoded_code_in_its_language() {
    let h = Highlighter::load();
    let expected = h.highlight("let a = 1 < 2;\n", "rust").unwrap();
    let wrapped = format!("<div class=\"shiki-wrapper\">{expected}</div>");
    let parsed = MarkdownParser::parse("```rust\nlet a = 1 < 2;\n```");
    assert!(parsed.contains(&wrapped));
    let previewed = render_markdown("```rust\nlet a = 1 < 2;\n```");
    assert_eq!(previewed, parsed);
}

use rustynotes::export::{export_document, get_exporter, ExportOptions, Exporter, HtmlExporter};

#[test]
fn test_html_export_basic() {
    let exporter = HtmlExporter;
    let options = ExportOptions { format: "html".into(), include_theme: true };
    let result = exporter.export("# Hello\n\nWorld", &options).unwrap();
    let html = String::from_utf8(result).unwrap();
    assert!(html.contains("<!DOCTYPE html>"));
    assert!(html.contains("Hello"));
    assert!(html.contains("<style>"));
}

#[test]
fn test_html_export_no_theme() {
    let exporter = HtmlExporter;
    let options = ExportOptions { format: "html".into(), include_theme: false };
    let result = exporter.export("# Hello", &options).unwrap();
    let html = String::from_utf8(result).unwrap();
    assert!(!html.contains("<style>"));
}

#[test]
fn test_html_export_gfm() {
    let exporter = HtmlExporter;
    let options = ExportOptions { format: "html".into(), include_theme: true };
    let result = exporter.export("| A | B |\n|---|---|\n| 1 | 2 |", &options).unwrap();
    let html = String::from_utf8(result).unwrap();
    assert!(html.contains("<table>"));
}

#[test]
fn test_get_exporter_html() {
    assert!(get_exporter("html").is_some());
}

#[test]
fn test_get_exporter_unknown() {
    assert!(get_exporter("pdf").is_none());
}

#[test]
fn exported_document_frames_the_body() {
    let doc = HtmlExporter::document("<p>x</p>", false);
    assert_eq!(
        doc,
        "<!DOCTYPE html>\n<html lang=\"en\">\n<head>\n<meta charset=\"UTF-8\">\n<meta name=\"viewport\" content=\"width=device-width, initial-scale=1.0\">\n<title>Exported Document</title>\n</head>\n<body>\n<p>x</p>\n</body>\n</html>"
    );
    let themed = HtmlExporter::document("", true);
    assert!(themed.contains(&format!("<style>{}</style>\n</head>", HtmlExporter::default_css())));
    assert!(HtmlExporter::default_css().contains("max-width: 800px"));
}

#[test]
fn export_names_the_format() {
    let e = HtmlExporter;
    assert_eq!(e.file_extension(), "html");
    assert_eq!(e.mime_type(), "text/html");
}

#[test]
fn export_document_refuses_unknown_formats() {
    assert_eq!(export_document("# a", "pdf", true), Err("Unsupported export format: pdf".to_string()));
    let bytes = export_document("# a", "html", false).unwrap();
    assert!(String::from_utf8(bytes).unwrap().starts_with("<!DOCTYPE html>"));
}

#[test]
fn export_is_the_parsed_html_in_a_document() {
    let md = "# Title\n\n```rust\nfn f() {}\n```";
    let bytes = export_document(md, "html", false).unwrap();
    let body = rustynotes::markdown::MarkdownParser::parse(md);
    assert_eq!(String::from_utf8(bytes).unwrap(), HtmlExporter::document(&body, false));
}

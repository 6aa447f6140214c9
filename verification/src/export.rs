//! Export of a markdown document to a standalone file; HTML is the one
//! format there is.
use vstd::prelude::*;
use crate::markdown::{parsed_html, MarkdownParser};
use crate::text::{concat, str_equal};

verus! {

/// What an export is asked for: the format's name and whether the editor's
/// stylesheet goes into the file.
#[derive(Debug, Clone)]
pub struct ExportOptions {
    pub format: String,
    pub include_theme: bool,
}

/// A way of turning markdown into the bytes of a file of some format.
pub trait Exporter {
    /// The file's bytes for a markdown text, or a message saying why none.
    fn export(&self, markdown: &str, options: &ExportOptions) -> Result<Vec<u8>, String>;

    /// The file name extension of the format.
    fn file_extension(&self) -> &str;

    /// The media type of the format.
    fn mime_type(&self) -> &str;
}

/// The stylesheet that an HTML export carries when asked to.
pub open spec fn export_css() -> Seq<char> {
    "
        body {
            font-family: -apple-system, BlinkMacSystemFont, 'Segoe UI', system-ui, sans-serif;
            font-size: 16px; line-height: 1.6; color: #1d1d1f;
            max-width: 800px; margin: 0 auto; padding: 40px 20px; background: #fff;
        }
        h1 { font-size: 2em; margin: 0.67em 0; }
        h2 { font-size: 1.5em; margin: 0.75em 0; }
        h3 { font-size: 1.17em; margin: 0.83em 0; }
        code { background: #f5f5f7; padding: 2px 6px; border-radius: 4px; font-family: 'SF Mono', monospace; font-size: 0.9em; }
        pre { background: #f5f5f7; border: 1px solid #d2d2d7; border-radius: 8px; padding: 16px; overflow-x: auto; }
        pre code { background: none; padding: 0; }
        blockquote { border-left: 3px solid #007aff; padding-left: 16px; color: #6e6e73; margin: 1em 0; }
        table { border-collapse: collapse; width: 100%; }
        th, td { border: 1px solid #d2d2d7; padding: 8px 12px; text-align: left; }
        th { background: #f5f5f7; font-weight: 600; }
        a { color: #007aff; text-decoration: none; }
        img { max-width: 100%; }
        "@
}

/// The start of every exported HTML file, up to its title.
pub open spec fn document_head() -> Seq<char> {
    "<!DOCTYPE html>\n<html lang=\"en\">\n<head>\n<meta charset=\"UTF-8\">\n<meta name=\"viewport\" content=\"width=device-width, initial-scale=1.0\">\n<title>Exported Document</title>\n"@
}

/// An exported HTML file around a rendered body: the head, the stylesheet
/// in a `<style>` element when asked for, and the body.
pub open spec fn html_document(body: Seq<char>, include_theme: bool) -> Seq<char> {
    document_head() + (if include_theme {
        "<style>"@ + export_css() + "</style>\n"@
    } else {
        Seq::empty()
    }) + "</head>\n<body>\n"@ + body + "\n</body>\n</html>"@
}

/// Exports markdown as a standalone HTML file.
pub struct HtmlExporter;

impl HtmlExporter {
    /// The stylesheet of exported files.
    pub fn default_css() -> (r: &'static str)
        ensures
            r@ == export_css(),
    {
        "
        body {
            font-family: -apple-system, BlinkMacSystemFont, 'Segoe UI', system-ui, sans-serif;
            font-size: 16px; line-height: 1.6; color: #1d1d1f;
            max-width: 800px; margin: 0 auto; padding: 40px 20px; background: #fff;
        }
        h1 { font-size: 2em; margin: 0.67em 0; }
        h2 { font-size: 1.5em; margin: 0.75em 0; }
        h3 { font-size: 1.17em; margin: 0.83em 0; }
        code { background: #f5f5f7; padding: 2px 6px; border-radius: 4px; font-family: 'SF Mono', monospace; font-size: 0.9em; }
        pre { background: #f5f5f7; border: 1px solid #d2d2d7; border-radius: 8px; padding: 16px; overflow-x: auto; }
        pre code { background: none; padding: 0; }
        blockquote { border-left: 3px solid #007aff; padding-left: 16px; color: #6e6e73; margin: 1em 0; }
        table { border-collapse: collapse; width: 100%; }
        th, td { border: 1px solid #d2d2d7; padding: 8px 12px; text-align: left; }
        th { background: #f5f5f7; font-weight: 600; }
        a { color: #007aff; text-decoration: none; }
        img { max-width: 100%; }
        "
    }

    /// The exported file around a rendered body.
    pub fn document(body: &str, include_theme: bool) -> (r: String)
        ensures
            r@ == html_document(body@, include_theme),
    {
        let mut out = String::from_str("<!DOCTYPE html>\n<html lang=\"en\">\n<head>\n<meta charset=\"UTF-8\">\n<meta name=\"viewport\" content=\"width=device-width, initial-scale=1.0\">\n<title>Exported Document</title>\n");
        if include_theme {
            out = concat(out.as_str(), "<style>");
            out = concat(out.as_str(), Self::default_css());
            out = concat(out.as_str(), "</style>\n");
        }
        out = concat(out.as_str(), "</head>\n<body>\n");
        out = concat(out.as_str(), body);
        out = concat(out.as_str(), "\n</body>\n</html>");
        proof {
            assert(out@ =~= html_document(body@, include_theme));
        }
        out
    }
}

/// The UTF-8 bytes of the HTML export of `markdown`: the parser's HTML of it
/// in a standalone document.
pub open spec fn exported_html(markdown: Seq<char>, include_theme: bool) -> Seq<u8> {
    vstd::utf8::encode_utf8(html_document(parsed_html(markdown), include_theme))
}

impl Exporter for HtmlExporter {
    /// The markdown rendered as the parser renders it, in a standalone HTML
    /// file, as UTF-8 bytes; it always succeeds.
    fn export(&self, markdown: &str, options: &ExportOptions) -> (r: Result<Vec<u8>, String>)
        ensures
            r matches Ok(bytes) && bytes@ == exported_html(markdown@, options.include_theme),
    {
        let body = MarkdownParser::parse(markdown);
        let html = Self::document(body.as_str(), options.include_theme);
        let bytes = html.as_str().as_bytes_vec();
        proof {
            assert(bytes@ == vstd::utf8::encode_utf8(html_document(body@, options.include_theme)));
        }
        Ok(bytes)
    }

    fn file_extension(&self) -> (r: &str)
        ensures
            r@ == "html"@,
    {
        "html"
    }

    fn mime_type(&self) -> (r: &str)
        ensures
            r@ == "text/html"@,
    {
        "text/html"
    }
}

/// The exporter for a format: there is one for `html` and none for any
/// other name.
pub fn get_exporter(format: &str) -> (r: Option<HtmlExporter>)
    ensures
        r is Some == (format@ == "html"@),
{
    if str_equal(format, "html") {
        Some(HtmlExporter)
    } else {
        None
    }
}

/// The file an export command writes: the export in the named format, or
/// `Unsupported export format: ` and the name when no exporter has it.
pub fn export_document(markdown: &str, format: &str, include_theme: bool) -> (r: Result<Vec<u8>, String>)
    ensures
        if format@ == "html"@ {
            r matches Ok(bytes) && bytes@ == exported_html(markdown@, include_theme)
        } else {
            r matches Err(m) && m@ == "Unsupported export format: "@ + format@
        },
{
    match get_exporter(format) {
        None => Err(concat("Unsupported export format: ", format)),
        Some(exporter) => {
            let options = ExportOptions { format: format.to_string(), include_theme };
            exporter.export(markdown, &options)
        },
    }
}

} // verus!

//! Source formatting: which formatter each file extension goes to.
use crate::text::{chars_of, range_is};
use dprint_plugin_json::configuration as json_config;
use dprint_plugin_markdown::configuration as markdown_config;
use dprint_plugin_typescript::configuration as ts_config;
use std::path::Path;
use vstd::prelude::*;

verus! {

/// What the formatter is asked to do.
pub struct FormatOptions {
    /// Only report the files that would change; write nothing.
    pub check: bool,
    /// The glob pattern of the files to format.
    pub glob: String,
}

impl FormatOptions {
    pub fn new(check: bool, glob: String) -> (r: FormatOptions)
        ensures
            r.check == check,
            r.glob@ == glob@,
    {
        FormatOptions { check, glob }
    }
}

/// The formatters that files go to.
#[derive(Clone, Copy, Debug, PartialEq, Eq, Structural)]
pub enum Formatter {
    TypeScript,
    Json,
    Markdown,
}

/// The formatter for files with extension `ext`, if there is one.
pub open spec fn formatter_for(ext: Seq<char>) -> Option<Formatter> {
    if ext == "js"@ || ext == "ts"@ || ext == "jsx"@ || ext == "tsx"@ {
        Some(Formatter::TypeScript)
    } else if ext == "json"@ || ext == "jsonc"@ {
        Some(Formatter::Json)
    } else if ext == "md"@ || ext == "markdown"@ {
        Some(Formatter::Markdown)
    } else {
        None
    }
}

/// What `dprint_plugin_typescript::format_text` gives for `text` in the file at `path` with
/// extension `ext`: `Ok(None)` when the text is already formatted, `Err` on a diagnostic.
pub uninterp spec fn typescript_formatted(path: Seq<char>, ext: Seq<char>, text: Seq<char>) -> Result<
    Option<Seq<char>>,
    (),
>;

/// What `dprint_plugin_json::format_text` gives for `text` in the file at `path`.
pub uninterp spec fn json_formatted(path: Seq<char>, text: Seq<char>) -> Result<Option<Seq<char>>, ()>;

/// What `dprint_plugin_markdown::format_text` gives for `text` in the file at `path`, with
/// code blocks formatted by `format_file`.
pub uninterp spec fn markdown_formatted(path: Seq<char>, text: Seq<char>) -> Result<
    Option<Seq<char>>,
    (),
>;

pub open spec fn formatted_view(r: Result<Option<String>, String>) -> Result<Option<Seq<char>>, ()> {
    match r {
        Ok(Some(s)) => Ok(Some(s@)),
        Ok(None) => Ok(None),
        Err(_) => Err(()),
    }
}

/// Relies on `dprint_plugin_typescript::format_text`, configured with tabs, quotes on
/// properties only where needed, a space after `//`, `sable-fmt-ignore` comments, and imports
/// and exports sorted case-insensitively.
#[verifier::external_body]
fn format_typescript(path: &str, ext: &str, text: &str) -> (r: Result<Option<String>, String>)
    ensures
        formatted_view(r) == typescript_formatted(path@, ext@, text@),
{
    let sort = ts_config::SortOrder::CaseInsensitive;
    let config = ts_config::ConfigurationBuilder::new().deno().use_tabs(true)
        .quote_props(ts_config::QuoteProps::AsNeeded).comment_line_force_space_after_slashes(true)
        .ignore_node_comment_text("sable-fmt-ignore").ignore_file_comment_text("sable-fmt-ignore-file")
        .module_sort_import_declarations(sort).module_sort_export_declarations(sort).build();
    let options = dprint_plugin_typescript::FormatTextOptions { path: Path::new(path), extension: Some(ext), text: text.to_string(), config: &config, external_formatter: None };
    dprint_plugin_typescript::format_text(options).map_err(|e| e.to_string())
}

/// Relies on `dprint_plugin_json::format_text`, configured with tabs, a line width of 80, a
/// space after `//` and `sable-fmt-ignore` comments.
#[verifier::external_body]
fn format_json(path: &str, text: &str) -> (r: Result<Option<String>, String>)
    ensures
        formatted_view(r) == json_formatted(path@, text@),
{
    let config = json_config::ConfigurationBuilder::new().line_width(80).use_tabs(true)
        .ignore_node_comment_text("sable-fmt-ignore").comment_line_force_space_after_slashes(true).build();
    dprint_plugin_json::format_text(Path::new(path), text, &config).map_err(|e| e.to_string())
}

/// Relies on `dprint_plugin_markdown::format_text`, configured to wrap text always and to
/// honour the `sable-fmt-ignore` directives; code blocks go to `format_file` by their tag.
#[verifier::external_body]
fn format_markdown(path: &str, text: &str) -> (r: Result<Option<String>, String>)
    ensures
        formatted_view(r) == markdown_formatted(path@, text@),
{
    let wrap = markdown_config::TextWrap::Always;
    let config = markdown_config::ConfigurationBuilder::new().text_wrap(wrap)
        .ignore_directive("sable-fmt-ignore").ignore_start_directive("sable-fmt-ignore-start")
        .ignore_end_directive("sable-fmt-ignore-end").ignore_file_directive("sable-fmt-ignore-file").build();
    let blocks = |tag: &str, code: &str, _line: u32| format_file(path, tag, code).map_err(|e| dprint_plugin_markdown::FormatError::CodeBlock(e.into()));
    dprint_plugin_markdown::format_text(text, &config, blocks).map_err(|e| e.to_string())
}

/// A stand-in file name with extension `ext`, for formatting text that has no file of its own.
pub fn fake_path(ext: &str) -> (r: String)
    ensures
        r@ == "file."@ + ext@,
{
    let mut name = String::from_str("file.");
    name.append(ext);
    name
}

/// The formatted text of the file at `path` with extension `ext`, or `None` when it needs no
/// change or no formatter takes that extension; see `formatter_for`.
pub fn format_file(path: &str, ext: &str, contents: &str) -> (r: Result<Option<String>, String>)
    ensures
        formatted_view(r) == match formatter_for(ext@) {
            Some(Formatter::TypeScript) => typescript_formatted(path@, ext@, contents@),
            Some(Formatter::Json) => json_formatted(path@, contents@),
            Some(Formatter::Markdown) => markdown_formatted(path@, contents@),
            None => Ok(None),
        },
{
    match formatter_of(ext) {
        Some(Formatter::TypeScript) => format_typescript(path, ext, contents),
        Some(Formatter::Json) => format_json(path, contents),
        Some(Formatter::Markdown) => format_markdown(path, contents),
        None => Ok(None),
    }
}

/// The formatter for extension `ext`; see `formatter_for`.
pub fn formatter_of(ext: &str) -> (r: Option<Formatter>)
    ensures
        r == formatter_for(ext@),
{
    let v = chars_of(ext);
    let n = v.len();
    assert(v@.subrange(0, n as int) =~= ext@);
    if range_is(&v, 0, n, "js") || range_is(&v, 0, n, "ts") || range_is(&v, 0, n, "jsx")
        || range_is(&v, 0, n, "tsx") {
        Some(Formatter::TypeScript)
    } else if range_is(&v, 0, n, "json") || range_is(&v, 0, n, "jsonc") {
        Some(Formatter::Json)
    } else if range_is(&v, 0, n, "md") || range_is(&v, 0, n, "markdown") {
        Some(Formatter::Markdown)
    } else {
        None
    }
}

} // verus!

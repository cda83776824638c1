//! Output building blocks: pagination metadata, the JSON envelope's parts and
//! the Markdown fragments that errors, tables and page hints render as.

use vstd::prelude::*;
use crate::error::AppError;
use crate::text::{decimal, joined, u32_text};

verus! {

/// The two output modes.
#[derive(Debug, Clone, Copy, PartialEq, Eq, Structural)]
pub enum OutputFormat {
    Markdown,
    Json,
}

impl Default for OutputFormat {
    fn default() -> (r: OutputFormat)
        ensures
            r == OutputFormat::Markdown,
    {
        OutputFormat::Markdown
    }
}

/// Pagination metadata of a response.
#[derive(Debug, Clone, Copy, PartialEq, Eq, Structural)]
pub struct Meta {
    pub total_count: Option<u32>,
    pub limit: Option<u32>,
    pub offset: Option<u32>,
    pub next_offset: Option<u32>,
}

impl Default for Meta {
    fn default() -> (r: Meta)
        ensures
            r.total_count is None && r.limit is None && r.offset is None && r.next_offset is None,
    {
        Meta { total_count: None, limit: None, offset: None, next_offset: None }
    }
}

impl Meta {
    /// Metadata of a page: a next offset exactly where `offset + limit` is
    /// still below the total.
    pub fn paginated(total_count: u32, limit: u32, offset: u32) -> (r: Meta)
        ensures
            r.total_count == Some(total_count),
            r.limit == Some(limit),
            r.offset == Some(offset),
            r.next_offset == if offset + limit < total_count {
                Some((offset + limit) as u32)
            } else {
                None
            },
    {
        let next_offset = if (offset as u64) + (limit as u64) < total_count as u64 {
            Some(offset + limit)
        } else {
            None
        };
        Meta {
            total_count: Some(total_count),
            limit: Some(limit),
            offset: Some(offset),
            next_offset,
        }
    }
}

/// The error part of the JSON envelope.
#[derive(Debug, Clone)]
pub struct ErrorInfo {
    pub code: String,
    pub message: String,
    /// The remediation hint, shown under `details`.
    pub hint: Option<String>,
}

impl ErrorInfo {
    pub fn new(code: &str, message: &str) -> (r: ErrorInfo)
        ensures
            r.code@ == code@,
            r.message@ == message@,
            r.hint is None,
    {
        ErrorInfo { code: code.to_owned(), message: message.to_owned(), hint: None }
    }

    /// The code, description and hint of an error.
    pub fn from_error(err: &AppError) -> (r: ErrorInfo)
        ensures
            r.code@ == err.spec_code(),
            r.message@ == err.spec_display(),
            crate::error::opt_view(r.hint) == err.spec_hint(),
    {
        let hint = match err.hint() {
            Some(h) => Some(h.to_owned()),
            None => None,
        };
        ErrorInfo { code: err.code().to_owned(), message: err.display_text(), hint }
    }
}

/// The JSON envelope: `ok`, the data or the error, and metadata.
#[derive(Debug, Clone)]
pub struct Envelope<T> {
    pub ok: bool,
    pub data: Option<T>,
    pub meta: Meta,
    pub error: Option<ErrorInfo>,
}

impl<T> Envelope<T> {
    pub fn success(data: T) -> (r: Envelope<T>)
        ensures
            r.ok && r.data == Some(data) && r.error is None,
            r.meta.total_count is None && r.meta.limit is None && r.meta.offset is None
                && r.meta.next_offset is None,
    {
        Envelope { ok: true, data: Some(data), meta: Meta::default(), error: None }
    }

    pub fn success_with_meta(data: T, meta: Meta) -> (r: Envelope<T>)
        ensures
            r.ok && r.data == Some(data) && r.error is None && r.meta == meta,
    {
        Envelope { ok: true, data: Some(data), meta, error: None }
    }

    pub fn error(error: ErrorInfo) -> (r: Envelope<()>)
        ensures
            !r.ok && r.data is None && r.error == Some(error),
            r.meta.total_count is None && r.meta.limit is None && r.meta.offset is None
                && r.meta.next_offset is None,
    {
        Envelope { ok: false, data: None, meta: Meta::default(), error: Some(error) }
    }
}

/// The Markdown blockquote of an error: its code, its description, and its
/// hint where it has one.
pub open spec fn error_markdown(code: Seq<char>, message: Seq<char>, hint: Option<Seq<char>>) -> Seq<
    char,
> {
    let head = "> **Error: "@ + code + "**\n"@ + "> "@ + message + "\n"@;
    match hint {
        Some(h) => head + ">\n"@ + "> "@ + h + "\n"@,
        None => head,
    }
}

fn error_block(code: &str, message: &str, hint: Option<&str>) -> (r: String)
    ensures
        r@ == error_markdown(
            code@,
            message@,
            match hint {
                Some(h) => Some(h@),
                None => None,
            },
        ),
{
    let mut out = joined(joined("> **Error: ", code).as_str(), "**\n");
    out.append("> ");
    out.append(message);
    out.append("\n");
    match hint {
        Some(h) => {
            out.append(">\n");
            out.append("> ");
            out.append(h);
            out.append("\n");
        },
        None => {},
    }
    out
}

/// An error as a Markdown blockquote.
pub fn format_error_markdown(error: &AppError) -> (r: String)
    ensures
        r@ == error_markdown(error.spec_code(), error.spec_display(), error.spec_hint()),
{
    let d = error.display_text();
    error_block(error.code(), d.as_str(), error.hint())
}

/// The error part of an envelope as a Markdown blockquote.
pub fn format_error_info_markdown(error: &ErrorInfo) -> (r: String)
    ensures
        r@ == error_markdown(error.code@, error.message@, crate::error::opt_view(error.hint)),
{
    let h = match &error.hint {
        Some(h) => Some(h.as_str()),
        None => None,
    };
    error_block(error.code.as_str(), error.message.as_str(), h)
}

/// The cells of a table row, each as ` cell |`.
pub open spec fn cells_text(cells: Seq<Seq<char>>) -> Seq<char>
    decreases cells.len(),
{
    if cells.len() == 0 {
        Seq::empty()
    } else {
        cells_text(cells.drop_last()) + " "@ + cells.last() + " |"@
    }
}

pub open spec fn row_text(cells: Seq<Seq<char>>) -> Seq<char> {
    "|"@ + cells_text(cells) + "\n"@
}

/// The separator under a header of `n` columns.
pub open spec fn separator_text(n: nat) -> Seq<char>
    decreases n,
{
    if n == 0 {
        "|"@
    } else {
        separator_text((n - 1) as nat) + "----|"@
    }
}

pub open spec fn rows_text(rows: Seq<Seq<Seq<char>>>) -> Seq<char>
    decreases rows.len(),
{
    if rows.len() == 0 {
        Seq::empty()
    } else {
        rows_text(rows.drop_last()) + row_text(rows.last())
    }
}

/// A Markdown table: the header row, the separator, then each row.
pub open spec fn table_text(headers: Seq<Seq<char>>, rows: Seq<Seq<Seq<char>>>) -> Seq<char> {
    row_text(headers) + separator_text(headers.len()) + "\n"@ + rows_text(rows)
}

pub open spec fn str_views(s: Seq<&str>) -> Seq<Seq<char>> {
    s.map_values(|x: &str| x@)
}

pub open spec fn string_views(s: Seq<String>) -> Seq<Seq<char>> {
    s.map_values(|x: String| x@)
}

pub open spec fn grid_views(rows: Seq<Vec<String>>) -> Seq<Seq<Seq<char>>> {
    rows.map_values(|r: Vec<String>| string_views(r@))
}

fn row_of_strings(cells: &Vec<String>) -> (r: String)
    ensures
        r@ == row_text(string_views(cells@)),
{
    let mut out = String::from_str("|");
    let mut i: usize = 0;
    while i < cells.len()
        invariant
            i <= cells@.len(),
            out@ == "|"@ + cells_text(string_views(cells@.subrange(0, i as int))),
        decreases cells@.len() - i,
    {
        proof {
            assert(string_views(cells@.subrange(0, i + 1)).drop_last() == string_views(
                cells@.subrange(0, i as int),
            ));
        }
        out.append(" ");
        out.append(cells[i].as_str());
        out.append(" |");
        i = i + 1;
    }
    assert(cells@.subrange(0, i as int) == cells@);
    out.append("\n");
    out
}

/// A Markdown table of `headers` and `rows`.
pub fn markdown_table(headers: &[&str], rows: Vec<Vec<String>>) -> (r: String)
    ensures
        r@ == table_text(str_views(headers@), grid_views(rows@)),
{
    let mut out = String::from_str("|");
    let mut i: usize = 0;
    while i < headers.len()
        invariant
            i <= headers@.len(),
            out@ == "|"@ + cells_text(str_views(headers@.subrange(0, i as int))),
        decreases headers@.len() - i,
    {
        proof {
            assert(str_views(headers@.subrange(0, i + 1)).drop_last() == str_views(
                headers@.subrange(0, i as int),
            ));
        }
        out.append(" ");
        out.append(headers[i]);
        out.append(" |");
        i = i + 1;
    }
    assert(headers@.subrange(0, i as int) == headers@);
    out.append("\n");
    let ghost head = out@;
    out.append("|");
    let mut j: usize = 0;
    while j < headers.len()
        invariant
            j <= headers@.len(),
            out@ == head + separator_text(j as nat),
        decreases headers@.len() - j,
    {
        out.append("----|");
        j = j + 1;
    }
    out.append("\n");
    let ghost top = out@;
    let mut k: usize = 0;
    while k < rows.len()
        invariant
            k <= rows@.len(),
            out@ == top + rows_text(grid_views(rows@.subrange(0, k as int))),
        decreases rows@.len() - k,
    {
        proof {
            assert(grid_views(rows@.subrange(0, k + 1)).drop_last() == grid_views(
                rows@.subrange(0, k as int),
            ));
        }
        let line = row_of_strings(&rows[k]);
        out.append(line.as_str());
        k = k + 1;
    }
    assert(rows@.subrange(0, k as int) == rows@);
    out
}

pub open spec fn pairs_text(pairs: Seq<(Seq<char>, Seq<char>)>) -> Seq<char>
    decreases pairs.len(),
{
    if pairs.len() == 0 {
        Seq::empty()
    } else {
        pairs_text(pairs.drop_last()) + "| "@ + pairs.last().0 + " | "@ + pairs.last().1 + " |\n"@
    }
}

pub open spec fn pair_views(pairs: Seq<(&str, String)>) -> Seq<(Seq<char>, Seq<char>)> {
    pairs.map_values(|p: (&str, String)| (p.0@, p.1@))
}

/// A two-column Markdown table of fields and values.
pub fn markdown_kv_table(pairs: &[(&str, String)]) -> (r: String)
    ensures
        r@ == "| Field | Value |\n"@ + "|-------|-------|\n"@ + pairs_text(pair_views(pairs@)),
{
    let mut out = String::from_str("| Field | Value |\n");
    out.append("|-------|-------|\n");
    let ghost top = out@;
    let mut i: usize = 0;
    while i < pairs.len()
        invariant
            i <= pairs@.len(),
            out@ == top + pairs_text(pair_views(pairs@.subrange(0, i as int))),
            top == "| Field | Value |\n"@ + "|-------|-------|\n"@,
        decreases pairs@.len() - i,
    {
        proof {
            assert(pair_views(pairs@.subrange(0, i + 1)).drop_last() == pair_views(
                pairs@.subrange(0, i as int),
            ));
        }
        let (k, v) = &pairs[i];
        out.append("| ");
        out.append(k);
        out.append(" | ");
        out.append(v.as_str());
        out.append(" |\n");
        i = i + 1;
    }
    assert(pairs@.subrange(0, i as int) == pairs@);
    out
}

/// The hint to the next page, where there is one.
pub fn pagination_hint(command: &str, meta: &Meta) -> (r: Option<String>)
    ensures
        r is Some <==> meta.next_offset is Some,
        r is Some ==> r.unwrap()@ == "*Use `"@ + command@ + "--offset "@ + decimal(
            meta.next_offset.unwrap() as nat,
        ) + "` for next page*"@,
{
    match meta.next_offset {
        Some(next) => {
            let mut s = joined("*Use `", command);
            s.append("--offset ");
            s.append(u32_text(next).as_str());
            s.append("` for next page*");
            Some(s)
        },
        None => None,
    }
}

} // verus!

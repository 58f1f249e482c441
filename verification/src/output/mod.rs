//! Rendering of results: tables for people, JSON for programs, and the
//! helpers that both share. Every function here returns the text that is to
//! be written; writing it is the caller's part.

pub mod api_management;
pub mod coins;
pub mod config;
pub mod contracts;
pub mod convert;
pub mod exchanges;
pub mod global;
pub mod magnitude;
pub mod ohlcv;
pub mod people;
pub mod search;
pub mod status;
pub mod tags;
pub mod tickers;

use vstd::prelude::*;
use vstd::string::*;
use crate::text::{
    byte_len, can_cut, ends_of, keep_ends, lemma_ends_of_ascii, owned, push_char, signed_decimal,
    signed_to_string,
};
use vstd::utf8::{encode_utf8, is_ascii_chars};

verus! {

/// How results are shown.
#[derive(Clone, Copy, Debug, PartialEq, Eq, Structural)]
pub enum OutputFormat {
    /// Tables, for reading.
    Table,
    /// JSON, for other programs.
    Json,
}

/// Where a text is written.
#[derive(Clone, Copy, Debug, PartialEq, Eq, Structural)]
pub enum Channel {
    /// Standard output.
    Stdout,
    /// The error channel.
    Stderr,
}

/// A text and the channel it goes to.
#[derive(Debug)]
pub struct Rendered {
    pub channel: Channel,
    pub text: String,
}

/// Provenance of a JSON document: where the data comes from and when the
/// document was made.
#[derive(Debug)]
pub struct ResponseMeta {
    pub source: String,
    pub url: String,
    pub api_docs: String,
    pub attribution: String,
    pub timestamp: String,
}

/// A payload together with its provenance: what JSON mode writes unless it
/// is asked for the payload alone.
#[derive(Debug)]
pub struct WrappedResponse {
    /// The payload as pretty-printed JSON.
    pub data: String,
    pub _meta: ResponseMeta,
}

/// One line of a detail table: what a value is, and the value.
#[derive(Debug)]
pub struct Field {
    pub label: String,
    pub value: String,
}

/// Name of the data source.
pub const SOURCE_NAME: &'static str = "CoinPaprika";

/// The site that entity paths are appended to.
pub const SITE_URL: &'static str = "https://coinpaprika.com";

/// Where the API is documented.
pub const API_DOCS_URL: &'static str = "https://api.coinpaprika.com";

/// Attribution carried by every wrapped JSON document.
pub const ATTRIBUTION: &'static str = "Powered by CoinPaprika \u{00b7} Free crypto market data";

/// Line printed under every table.
pub const FOOTER: &'static str =
    "\n Data: CoinPaprika (coinpaprika.com) \u{00b7} Free API: api.coinpaprika.com\n";

/// Marks a text that was cut short.
pub const ELLIPSIS: &'static str = "\u{2026}";

/// Stands for a value that is absent.
pub const DASH: &'static str = "\u{2014}";

/// Longest address, in bytes, that is shown in full.
pub const ADDRESS_LIMIT: usize = 13;

// --- Truncation ---

/// `s` cut to at most `max` characters: a text that fits is unchanged, a
/// longer one keeps its first `max - 1` characters and ends in an ellipsis.
pub open spec fn truncate_spec(s: Seq<char>, max: int) -> Seq<char> {
    if s.len() <= max {
        s
    } else {
        s.subrange(0, if max >= 1 { max - 1 } else { 0 }) + ELLIPSIS@
    }
}

/// Cuts a text to a budget counted in characters, not bytes.
pub fn truncate(s: &str, max: usize) -> (r: String)
    ensures
        r@ == truncate_spec(s@, max as int),
{
    if s.unicode_len() <= max {
        owned(s)
    } else {
        let keep: usize = if max >= 1 { max - 1 } else { 0 };
        let mut r = owned(s.substring_char(0, keep));
        r.append(ELLIPSIS);
        r
    }
}

/// A text longer than its budget comes out with exactly as many characters
/// as the budget, the last of them the ellipsis; a text within the budget
/// comes out unchanged. A budget of no characters at all cannot hold the
/// ellipsis, so a text that is cut has a budget of at least one.
pub proof fn lemma_truncate_fills_budget(s: Seq<char>, max: int)
    requires
        0 <= max,
        !(max == 0 && s.len() > 0),
    ensures
        s.len() > max ==> truncate_spec(s, max).len() == max,
        s.len() > max ==> truncate_spec(s, max).last() == '\u{2026}',
        s.len() <= max ==> truncate_spec(s, max) == s,
{
    reveal_strlit("\u{2026}");
    assert(ELLIPSIS@.len() == 1);
    assert(ELLIPSIS@[0] == '\u{2026}');
}

/// An address as it is shown: in full if it takes at most thirteen bytes,
/// else its first six bytes, three dots and its last four bytes.
pub open spec fn truncate_address_spec(addr: Seq<char>) -> Seq<char> {
    if encode_utf8(addr).len() <= ADDRESS_LIMIT {
        addr
    } else {
        ends_of(addr, 6, 4)
    }
}

/// Shortens a contract address. A long address must allow a cut after its
/// sixth byte and before its fourth byte from the end; every ASCII address
/// does.
pub fn truncate_address(addr: &str) -> (r: String)
    requires
        shortenable(addr@),
    ensures
        r@ == truncate_address_spec(addr@),
{
    if byte_len(addr) <= ADDRESS_LIMIT {
        owned(addr)
    } else {
        keep_ends(addr, 6, 4)
    }
}

/// Whether an address can be shown: a long address must allow a cut after
/// its sixth byte and before its fourth byte from the end.
pub open spec fn shortenable(addr: Seq<char>) -> bool {
    encode_utf8(addr).len() > ADDRESS_LIMIT ==> can_cut(addr, 6, 4)
}

/// Tells whether `truncate_address` accepts an address.
pub fn is_shortenable(addr: &str) -> (r: bool)
    ensures
        r == shortenable(addr@),
{
    let len = byte_len(addr);
    if len <= ADDRESS_LIMIT {
        true
    } else {
        addr.is_char_boundary(6) && addr.is_char_boundary(len - 4)
    }
}

/// An ASCII address may always be shortened, and comes out as its first six
/// characters, three dots and its last four characters.
pub proof fn lemma_truncate_address_ascii(addr: Seq<char>)
    requires
        is_ascii_chars(addr),
    ensures
        shortenable(addr),
        addr.len() <= 13 ==> truncate_address_spec(addr) == addr,
        addr.len() > 13 ==> truncate_address_spec(addr) == addr.subrange(0, 6) + "..."@
            + addr.subrange(addr.len() - 4, addr.len() as int),
{
    if addr.len() >= 6 {
        lemma_ends_of_ascii(addr, 6, 4);
    } else {
        lemma_ends_of_ascii(addr, 0, 0);
    }
}

// --- Cells ---

/// A text, or a dash where there is none.
pub open spec fn text_or_dash(value: Option<Seq<char>>) -> Seq<char> {
    match value {
        Some(text) => text,
        None => DASH@,
    }
}

/// A number in decimal notation, or a dash where there is none.
pub open spec fn number_or_dash(value: Option<i64>) -> Seq<char> {
    match value {
        Some(n) => signed_decimal(n as int),
        None => DASH@,
    }
}

/// `Yes` or `No`, or a dash where nothing is known.
pub open spec fn flag_or_dash(value: Option<bool>) -> Seq<char> {
    match value {
        Some(true) => "Yes"@,
        Some(false) => "No"@,
        None => DASH@,
    }
}

/// A quantity of a quote, or a dash where the quote or the quantity is
/// missing.
pub open spec fn quoted_or_dash<Q>(quote: Option<Q>, pick: spec_fn(Q) -> Option<String>) -> Seq<
    char,
> {
    match quote {
        Some(q) => text_or_dash(pick(q).deep_view()),
        None => DASH@,
    }
}

/// The cell for a text that may be absent.
pub fn text_cell(value: &Option<String>) -> (r: String)
    ensures
        r@ == text_or_dash(value.deep_view()),
{
    match value {
        Some(text) => text.clone(),
        None => owned(DASH),
    }
}

/// The cell for a number that may be absent.
pub fn number_cell(value: Option<i64>) -> (r: String)
    ensures
        r@ == number_or_dash(value),
{
    match value {
        Some(n) => signed_to_string(n),
        None => owned(DASH),
    }
}

/// The cell for a flag that may be absent.
pub fn flag_cell(value: Option<bool>) -> (r: String)
    ensures
        r@ == flag_or_dash(value),
{
    match value {
        Some(true) => owned("Yes"),
        Some(false) => owned("No"),
        None => owned(DASH),
    }
}

// --- Provenance ---

/// The offset that ends a timestamp in universal time.
pub const UTC_OFFSET: &'static str = "+00:00";

/// What holds of every timestamp in universal time, whatever the moment:
/// date, `T`, time and offset make at least 25 characters, and the offset
/// is that of universal time.
pub open spec fn is_utc_stamp(text: Seq<char>) -> bool {
    &&& text.len() >= 25
    &&& text.subrange(text.len() - 6, text.len() as int) == UTC_OFFSET@
}

/// `chrono::Utc::now().to_rfc3339()`: the current time as an RFC 3339 text.
/// Which time it is depends on the clock; in every case the text is a year
/// of at least four digits, month, day, `T`, hours, minutes and seconds,
/// and the offset of universal time written as `+00:00`.
#[verifier::external_body]
fn now_rfc3339() -> (r: String)
    ensures
        is_utc_stamp(r@),
{
    chrono::Utc::now().to_rfc3339()
}

impl ResponseMeta {
    /// Whether this is the provenance of the entity found at `entity_path`
    /// on the site; the timestamp is left open.
    pub open spec fn describes(&self, entity_path: Seq<char>) -> bool {
        &&& self.source@ == SOURCE_NAME@
        &&& self.url@ == SITE_URL@ + entity_path
        &&& self.api_docs@ == API_DOCS_URL@
        &&& self.attribution@ == ATTRIBUTION@
    }

    /// Provenance of the entity at `entity_path`, made at the time that
    /// `timestamp` gives.
    pub fn stamped(entity_path: &str, timestamp: String) -> (meta: Self)
        ensures
            meta.describes(entity_path@),
            meta.timestamp == timestamp,
    {
        let mut url = owned(SITE_URL);
        url.append(entity_path);
        ResponseMeta {
            source: owned(SOURCE_NAME),
            url,
            api_docs: owned(API_DOCS_URL),
            attribution: owned(ATTRIBUTION),
            timestamp,
        }
    }

    /// Provenance of the entity at `entity_path`, made now: the timestamp
    /// is the current time in universal time.
    pub fn coinpaprika(entity_path: &str) -> (meta: Self)
        ensures
            meta.describes(entity_path@),
            is_utc_stamp(meta.timestamp@),
    {
        ResponseMeta::stamped(entity_path, now_rfc3339())
    }
}

// --- JSON ---

/// A text as a JSON string literal, quotes and escapes included, as
/// `serde_json` writes it.
pub uninterp spec fn json_string(s: Seq<char>) -> Seq<char>;

/// `serde_json::to_string` on a string slice: the JSON string literal for
/// `s`. Writing a string cannot fail.
#[verifier::external_body]
pub(crate) fn json_quote(s: &str) -> (r: String)
    ensures
        r@ == json_string(s@),
{
    serde_json::to_string(s).unwrap_or_default()
}

/// A pretty-printed JSON text moved one level inwards: two spaces follow
/// every line break.
pub open spec fn indented(json: Seq<char>) -> Seq<char>
    decreases json.len(),
{
    if json.len() == 0 {
        json
    } else if json.last() == '\n' {
        indented(json.drop_last()) + "\n  "@
    } else {
        indented(json.drop_last()).push(json.last())
    }
}

/// The five lines of metadata, as members of a JSON object that stands one
/// level inside the document.
pub open spec fn meta_members(meta: ResponseMeta) -> Seq<char> {
    "\n    \"source\": "@ + json_string(meta.source@)
        + ",\n    \"url\": "@ + json_string(meta.url@)
        + ",\n    \"api_docs\": "@ + json_string(meta.api_docs@)
        + ",\n    \"attribution\": "@ + json_string(meta.attribution@)
        + ",\n    \"timestamp\": "@ + json_string(meta.timestamp@)
}

/// The part of a wrapped document that follows the payload: the member
/// `_meta`, an object that holds `source`, `url`, `api_docs`, `attribution`
/// and `timestamp`, in this order and nothing else.
pub open spec fn meta_member(meta: ResponseMeta) -> Seq<char> {
    ",\n  \"_meta\": {"@ + meta_members(meta) + "\n  }\n}"@
}

/// The wrapped document: an object whose member `data` is the payload, and
/// whose member `_meta` is the same for every payload.
pub open spec fn envelope(payload: Seq<char>, meta: ResponseMeta) -> Seq<char> {
    "{\n  \"data\": "@ + indented(payload) + meta_member(meta)
}

/// What JSON mode writes for a payload that is given as pretty-printed JSON.
pub open spec fn json_output(payload: Seq<char>, meta: ResponseMeta, raw: bool) -> Seq<char> {
    if raw {
        payload + "\n"@
    } else {
        envelope(payload, meta) + "\n"@
    }
}

fn push_indented(out: &mut String, json: &str)
    ensures
        final(out)@ == old(out)@ + indented(json@),
{
    let ghost start = out@;
    for ch in it: json.chars()
        invariant
            it.seq() == json@,
            out@ == start + indented(json@.take(it.index() as int)),
    {
        proof {
            let i = it.index() as int;
            assert(json@.take(i + 1).drop_last() == json@.take(i));
            assert(json@.take(i + 1).last() == ch);
        }
        if ch == '\n' {
            out.append("\n  ");
        } else {
            push_char(out, ch);
        }
    }
    assert(json@.take(json@.len() as int) == json@);
}

fn push_member(out: &mut String, opening: &str, value: &str)
    ensures
        final(out)@ == old(out)@ + opening@ + json_string(value@),
{
    out.append(opening);
    let quoted = json_quote(value);
    out.append(quoted.as_str());
}

/// The text that JSON mode writes for a command with no wrapper around it:
/// the payload as it is, and a line break.
pub fn print_json(payload: &str) -> (r: String)
    ensures
        r@ == payload@ + "\n"@,
{
    let mut r = owned(payload);
    r.append("\n");
    r
}

impl WrappedResponse {
    /// The document as pretty-printed JSON.
    pub fn to_json(&self) -> (r: String)
        ensures
            r@ == envelope(self.data@, self._meta),
    {
        let mut r = owned("{\n  \"data\": ");
        push_indented(&mut r, self.data.as_str());
        r.append(",\n  \"_meta\": {");
        let ghost before = r@;
        push_member(&mut r, "\n    \"source\": ", self._meta.source.as_str());
        push_member(&mut r, ",\n    \"url\": ", self._meta.url.as_str());
        push_member(&mut r, ",\n    \"api_docs\": ", self._meta.api_docs.as_str());
        push_member(&mut r, ",\n    \"attribution\": ", self._meta.attribution.as_str());
        push_member(&mut r, ",\n    \"timestamp\": ", self._meta.timestamp.as_str());
        assert(r@ =~= before + meta_members(self._meta));
        r.append("\n  }\n}");
        assert(r@ =~= envelope(self.data@, self._meta));
        r
    }
}

/// The text that JSON mode writes. With `raw` the payload goes out
/// unchanged; without it the payload is wrapped together with its provenance.
pub fn print_json_wrapped(payload: &str, meta: ResponseMeta, raw: bool) -> (r: String)
    ensures
        r@ == json_output(payload@, meta, raw),
{
    if raw {
        print_json(payload)
    } else {
        let wrapped = WrappedResponse { data: owned(payload), _meta: meta };
        let mut r = wrapped.to_json();
        r.append("\n");
        r
    }
}

/// In raw mode the payload comes out character for character, followed by
/// a line break, whatever the provenance says.
pub proof fn lemma_raw_is_payload(payload: Seq<char>, meta_a: ResponseMeta, meta_b: ResponseMeta)
    ensures
        json_output(payload, meta_a, true) == json_output(payload, meta_b, true),
        json_output(payload, meta_a, true).subrange(0, payload.len() as int) == payload,
        json_output(payload, meta_a, true).len() == payload.len() + 1,
{
    reveal_strlit("\n");
}

/// In wrapped mode the document is the same frame round every payload: it
/// opens with the member `data`, and what follows the payload depends on
/// the provenance alone.
pub proof fn lemma_envelope_is_one_frame(
    payload_a: Seq<char>,
    payload_b: Seq<char>,
    meta: ResponseMeta,
)
    ensures
        json_output(payload_a, meta, false) == "{\n  \"data\": "@ + indented(payload_a) + (
        meta_member(meta) + "\n"@),
        json_output(payload_b, meta, false) == "{\n  \"data\": "@ + indented(payload_b) + (
        meta_member(meta) + "\n"@),
{
}

/// How a failure is reported: in table mode as plain text on the error
/// channel, in JSON mode as one object with the member `error` on standard
/// output.
pub open spec fn error_output(message: Seq<char>, format: OutputFormat) -> (Channel, Seq<char>) {
    match format {
        OutputFormat::Json => (Channel::Stdout, "{\"error\":"@ + json_string(message) + "}\n"@),
        OutputFormat::Table => (Channel::Stderr, "Error: "@ + message + "\n"@),
    }
}

/// Reports a failure in the chosen format.
pub fn print_error(message: &str, format: OutputFormat) -> (r: Rendered)
    ensures
        (r.channel, r.text@) == error_output(message@, format),
{
    match format {
        OutputFormat::Json => {
            let mut text = owned("{\"error\":");
            let quoted = json_quote(message);
            text.append(quoted.as_str());
            text.append("}\n");
            Rendered { channel: Channel::Stdout, text }
        },
        OutputFormat::Table => {
            let mut text = owned("Error: ");
            text.append(message);
            text.append("\n");
            Rendered { channel: Channel::Stderr, text }
        },
    }
}

// --- Tables ---

/// The cells of a detail table: one row of two cells for each field.
pub open spec fn field_cells(fields: Seq<Field>) -> Seq<Seq<Seq<char>>> {
    Seq::new(fields.len(), |i: int| seq![fields[i].label@, fields[i].value@])
}

/// The picture that `tabled` draws of a grid of cells in its rounded style,
/// the first row set off as the header.
pub uninterp spec fn rounded_table(cells: Seq<Seq<Seq<char>>>) -> Seq<char>;

/// The picture that `tabled` draws of rows of two cells in its rounded
/// style, the first column wrapped at 20 and the last at 80 characters.
pub uninterp spec fn detail_table(cells: Seq<Seq<Seq<char>>>) -> Seq<char>;

/// `tabled::Table::from_iter` with `Style::rounded()`, written out with
/// `to_string`: the picture of the grid, which depends on the cells alone.
#[verifier::external_body]
fn draw_rounded(rows: &Vec<Vec<String>>) -> (r: String)
    ensures
        r@ == rounded_table(rows.deep_view()),
{
    tabled::Table::from_iter(rows.iter().map(|row| row.iter().map(|cell| cell.as_str())))
        .with(tabled::settings::Style::rounded())
        .to_string()
}

/// `tabled::Table::from_iter` with `Style::rounded()`, `Width::wrap(20)` on
/// the first column and `Width::wrap(80)` on the last, written out with
/// `to_string`: the picture of the rows, which depends on the cells alone.
#[verifier::external_body]
fn draw_detail(fields: &Vec<Field>) -> (r: String)
    ensures
        r@ == detail_table(field_cells(fields@)),
{
    tabled::Table::from_iter(fields.iter().map(|f| [f.label.as_str(), f.value.as_str()]))
        .with(tabled::settings::Style::rounded())
        .with(tabled::settings::Modify::new(tabled::settings::object::Columns::first())
            .with(tabled::settings::Width::wrap(20)))
        .with(tabled::settings::Modify::new(tabled::settings::object::Columns::last())
            .with(tabled::settings::Width::wrap(80)))
        .to_string()
}

/// Adds one row to the rows of a table.
pub fn push_row(rows: &mut Vec<Vec<String>>, row: Vec<String>)
    ensures
        final(rows).deep_view() == old(rows).deep_view().push(row.deep_view()),
{
    let ghost before = rows.deep_view();
    let ghost cells = row.deep_view();
    rows.push(row);
    assert(rows.deep_view() =~= before.push(cells));
}

/// The cells of a table: the header, then one row for each record.
pub open spec fn table_cells<T>(
    header: Seq<Seq<char>>,
    records: Seq<T>,
    row: spec_fn(T) -> Seq<Seq<char>>,
) -> Seq<Seq<Seq<char>>> {
    seq![header] + Seq::new(records.len(), |i: int| row(records[i]))
}

/// A table grows by one row with each record.
pub proof fn lemma_table_cells_grow<T>(
    header: Seq<Seq<char>>,
    records: Seq<T>,
    row: spec_fn(T) -> Seq<Seq<char>>,
    n: int,
)
    requires
        0 <= n < records.len(),
    ensures
        table_cells(header, records.take(n + 1), row) == table_cells(
            header,
            records.take(n),
            row,
        ).push(row(records[n])),
        table_cells(header, records.take(0), row) == seq![header],
        table_cells(header, records.take(records.len() as int), row) == table_cells(
            header,
            records,
            row,
        ),
{
    assert(table_cells(header, records.take(n + 1), row) =~= table_cells(
        header,
        records.take(n),
        row,
    ).push(row(records[n])));
    assert(table_cells(header, records.take(0), row) =~= seq![header]);
    assert(records.take(records.len() as int) =~= records);
}

/// The lines of a list: one text for each record, one after the other.
pub open spec fn lines<T>(records: Seq<T>, line: spec_fn(T) -> Seq<char>) -> Seq<char>
    decreases records.len(),
{
    if records.len() == 0 {
        Seq::empty()
    } else {
        lines(records.drop_last(), line) + line(records.last())
    }
}

/// A list grows by one line with each record.
pub proof fn lemma_lines_grow<T>(records: Seq<T>, line: spec_fn(T) -> Seq<char>, n: int)
    requires
        0 <= n < records.len(),
    ensures
        lines(records.take(n + 1), line) == lines(records.take(n), line) + line(records[n]),
{
    assert(records.take(n + 1).drop_last() =~= records.take(n));
}

/// Adds one field to the rows of a detail table.
pub fn detail_field(rows: &mut Vec<Field>, label: &str, value: String)
    ensures
        field_cells(final(rows)@) == field_cells(old(rows)@).push(seq![label@, value@]),
        final(rows)@.len() == old(rows)@.len() + 1,
{
    let ghost before = field_cells(rows@);
    let ghost text = value@;
    rows.push(Field { label: owned(label), value });
    assert(field_cells(rows@) =~= before.push(seq![label@, text]));
}

/// The text of a table with a header: `rows` holds the header first, then
/// one row for each record.
pub fn print_table(rows: &Vec<Vec<String>>) -> (r: String)
    ensures
        r@ == rounded_table(rows.deep_view()) + "\n"@,
{
    let mut r = draw_rounded(rows);
    r.append("\n");
    r
}

/// The text of a two-column table of labels and values.
pub fn print_detail_table(rows: Vec<Field>) -> (r: String)
    ensures
        r@ == detail_table(field_cells(rows@)) + "\n"@,
{
    let mut r = draw_detail(&rows);
    r.append("\n");
    r
}

/// The attribution line that follows every table.
pub fn print_coinpaprika_footer() -> (r: String)
    ensures
        r@ == FOOTER@,
{
    owned(FOOTER)
}

} // verus!

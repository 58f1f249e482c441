//! The table of candles.

use vstd::prelude::*;
use vstd::string::*;
use crate::commands::ohlcv::OhlcvData;
use crate::output::{
    lemma_table_cells_grow, print_table, push_row, rounded_table, table_cells, text_cell,
    text_or_dash, FOOTER,
};
use crate::text::{owned, push_string};

verus! {

/// The day of a candle: the first ten characters of the time it opened, or
/// a dash where that is missing.
pub open spec fn candle_date(time_open: Option<String>) -> Seq<char> {
    let text = text_or_dash(time_open.deep_view());
    if text.len() <= 10 {
        text
    } else {
        text.subrange(0, 10)
    }
}

fn date_cell(time_open: &Option<String>) -> (r: String)
    ensures
        r@ == candle_date(*time_open),
{
    let text = text_cell(time_open);
    if text.as_str().unicode_len() <= 10 {
        text
    } else {
        owned(text.as_str().substring_char(0, 10))
    }
}

/// Column titles of the list of candles.
pub open spec fn ohlcv_header() -> Seq<Seq<char>> {
    seq!["Date"@, "Open"@, "High"@, "Low"@, "Close"@, "Volume"@]
}

/// The row of one candle: its day, the four prices and the volume.
pub open spec fn ohlcv_row(candle: OhlcvData) -> Seq<Seq<char>> {
    seq![
        candle_date(candle.time_open),
        text_or_dash(candle.open.deep_view()),
        text_or_dash(candle.high.deep_view()),
        text_or_dash(candle.low.deep_view()),
        text_or_dash(candle.close.deep_view()),
        text_or_dash(candle.volume.deep_view()),
    ]
}

/// The text shown for a list of candles: the table and the footer.
pub fn print_ohlcv_table(data: &Vec<OhlcvData>) -> (r: String)
    ensures
        r@ == rounded_table(
            table_cells(ohlcv_header(), data@, |c: OhlcvData| ohlcv_row(c)),
        ) + "\n"@ + FOOTER@,
{
    let ghost row = |c: OhlcvData| ohlcv_row(c);
    let mut rows: Vec<Vec<String>> = Vec::new();
    let mut header: Vec<String> = Vec::new();
    push_string(&mut header, owned("Date"));
    push_string(&mut header, owned("Open"));
    push_string(&mut header, owned("High"));
    push_string(&mut header, owned("Low"));
    push_string(&mut header, owned("Close"));
    push_string(&mut header, owned("Volume"));
    assert(header.deep_view() =~= ohlcv_header());
    push_row(&mut rows, header);
    assert(rows.deep_view() =~= seq![ohlcv_header()]);
    let mut i: usize = 0;
    proof {
        assert(table_cells(ohlcv_header(), data@.take(0), row) =~= seq![ohlcv_header()]);
    }
    while i < data.len()
        invariant
            i <= data.len(),
            row == |c: OhlcvData| ohlcv_row(c),
            rows.deep_view() == table_cells(ohlcv_header(), data@.take(i as int), row),
        decreases data.len() - i,
    {
        let candle = &data[i];
        let mut cells: Vec<String> = Vec::new();
        push_string(&mut cells, date_cell(&candle.time_open));
        push_string(&mut cells, text_cell(&candle.open));
        push_string(&mut cells, text_cell(&candle.high));
        push_string(&mut cells, text_cell(&candle.low));
        push_string(&mut cells, text_cell(&candle.close));
        push_string(&mut cells, text_cell(&candle.volume));
        assert(cells.deep_view() =~= ohlcv_row(*candle));
        push_row(&mut rows, cells);
        proof {
            lemma_table_cells_grow(ohlcv_header(), data@, row, i as int);
        }
        i += 1;
    }
    assert(data@.take(data@.len() as int) =~= data@);
    let mut r = print_table(&rows);
    r.append(FOOTER);
    r
}

} // verus!

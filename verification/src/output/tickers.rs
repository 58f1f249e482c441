//! Tables for prices.

use vstd::prelude::*;
use vstd::string::*;
use crate::commands::tickers::{Ticker, TickerHistoryPoint, TickerQuote};
use crate::output::{
    detail_field, detail_table, field_cells, lemma_table_cells_grow, number_cell, number_or_dash,
    print_detail_table, print_table, push_row, quoted_or_dash, rounded_table, table_cells,
    text_cell, text_or_dash, truncate, truncate_spec, Field, DASH, FOOTER,
};
use crate::text::{owned, push_string};

verus! {

/// Column titles of the list of prices.
pub open spec fn ticker_header() -> Seq<Seq<char>> {
    seq!["Rank"@, "Symbol"@, "Name"@, "Price"@, "24h Change"@, "Market Cap"@, "Volume (24h)"@]
}

/// The row of one coin: rank, symbol, name shortened to 20 characters,
/// price, change over a day, market capitalisation and volume of a day.
pub open spec fn ticker_row(ticker: Ticker) -> Seq<Seq<char>> {
    seq![
        number_or_dash(ticker.rank),
        ticker.symbol@,
        truncate_spec(ticker.name@, 20),
        quoted_or_dash(ticker.usd, |q: TickerQuote| q.price),
        quoted_or_dash(ticker.usd, |q: TickerQuote| q.percent_change_24h),
        quoted_or_dash(ticker.usd, |q: TickerQuote| q.market_cap),
        quoted_or_dash(ticker.usd, |q: TickerQuote| q.volume_24h),
    ]
}

fn ticker_cells(ticker: &Ticker) -> (cells: Vec<String>)
    ensures
        cells.deep_view() == ticker_row(*ticker),
{
    let mut cells: Vec<String> = Vec::new();
    push_string(&mut cells, number_cell(ticker.rank));
    push_string(&mut cells, ticker.symbol.clone());
    push_string(&mut cells, truncate(ticker.name.as_str(), 20));
    match &ticker.usd {
        Some(q) => {
            push_string(&mut cells, text_cell(&q.price));
            push_string(&mut cells, text_cell(&q.percent_change_24h));
            push_string(&mut cells, text_cell(&q.market_cap));
            push_string(&mut cells, text_cell(&q.volume_24h));
        },
        None => {
            push_string(&mut cells, owned(DASH));
            push_string(&mut cells, owned(DASH));
            push_string(&mut cells, owned(DASH));
            push_string(&mut cells, owned(DASH));
        },
    }
    assert(cells.deep_view() =~= ticker_row(*ticker));
    cells
}

/// The text shown for a list of prices: the table and the footer.
pub fn print_tickers_table(tickers: &Vec<Ticker>) -> (r: String)
    ensures
        r@ == rounded_table(table_cells(ticker_header(), tickers@, |t: Ticker| ticker_row(t)))
            + "\n"@ + FOOTER@,
{
    let ghost row = |t: Ticker| ticker_row(t);
    let mut rows: Vec<Vec<String>> = Vec::new();
    let mut header: Vec<String> = Vec::new();
    push_string(&mut header, owned("Rank"));
    push_string(&mut header, owned("Symbol"));
    push_string(&mut header, owned("Name"));
    push_string(&mut header, owned("Price"));
    push_string(&mut header, owned("24h Change"));
    push_string(&mut header, owned("Market Cap"));
    push_string(&mut header, owned("Volume (24h)"));
    assert(header.deep_view() =~= ticker_header());
    push_row(&mut rows, header);
    assert(rows.deep_view() =~= seq![ticker_header()]);
    let mut i: usize = 0;
    proof {
        assert(table_cells(ticker_header(), tickers@.take(0), row) =~= seq![ticker_header()]);
    }
    while i < tickers.len()
        invariant
            i <= tickers.len(),
            row == |t: Ticker| ticker_row(t),
            rows.deep_view() == table_cells(ticker_header(), tickers@.take(i as int), row),
        decreases tickers.len() - i,
    {
        push_row(&mut rows, ticker_cells(&tickers[i]));
        proof {
            lemma_table_cells_grow(ticker_header(), tickers@, row, i as int);
        }
        i += 1;
    }
    assert(tickers@.take(tickers@.len() as int) =~= tickers@);
    let mut r = print_table(&rows);
    r.append(FOOTER);
    r
}

/// The rows that open the detail table of a coin's price.
pub open spec fn ticker_opening_cells(ticker: Ticker) -> Seq<Seq<Seq<char>>> {
    seq![
        seq!["Name"@, ticker.name@],
        seq!["Symbol"@, ticker.symbol@],
        seq!["Rank"@, number_or_dash(ticker.rank)],
    ]
}

/// The rows for the quote that the table shows.
pub open spec fn ticker_quote_cells(quote: TickerQuote) -> Seq<Seq<Seq<char>>> {
    seq![
        seq!["Price (USD)"@, text_or_dash(quote.price.deep_view())],
        seq!["Market Cap"@, text_or_dash(quote.market_cap.deep_view())],
        seq!["Volume (24h)"@, text_or_dash(quote.volume_24h.deep_view())],
        seq!["Change (1h)"@, text_or_dash(quote.percent_change_1h.deep_view())],
        seq!["Change (24h)"@, text_or_dash(quote.percent_change_24h.deep_view())],
        seq!["Change (7d)"@, text_or_dash(quote.percent_change_7d.deep_view())],
        seq!["Change (30d)"@, text_or_dash(quote.percent_change_30d.deep_view())],
        seq!["ATH Price"@, text_or_dash(quote.ath_price.deep_view())],
        seq!["ATH Date"@, text_or_dash(quote.ath_date.deep_view())],
        seq!["% From ATH"@, text_or_dash(quote.percent_from_price_ath.deep_view())],
    ]
}

/// The rows that close the detail table of a coin's price.
pub open spec fn ticker_closing_cells(ticker: Ticker) -> Seq<Seq<Seq<char>>> {
    seq![
        seq!["Circulating Supply"@, text_or_dash(ticker.circulating_supply.deep_view())],
        seq!["Total Supply"@, text_or_dash(ticker.total_supply.deep_view())],
        seq!["Max Supply"@, text_or_dash(ticker.max_supply.deep_view())],
        seq!["Last Updated"@, text_or_dash(ticker.last_updated.deep_view())],
    ]
}

/// The rows of the detail table of a coin's price: the coin, its quote
/// where there is one, and its supply.
pub open spec fn ticker_detail_cells(ticker: Ticker) -> Seq<Seq<Seq<char>>> {
    ticker_opening_cells(ticker) + match ticker.usd {
        Some(quote) => ticker_quote_cells(quote),
        None => Seq::empty(),
    } + ticker_closing_cells(ticker)
}

fn push_ticker_quote(rows: &mut Vec<Field>, quote: &TickerQuote)
    ensures
        field_cells(final(rows)@) == field_cells(old(rows)@) + ticker_quote_cells(*quote),
{
    let ghost before = field_cells(rows@);
    detail_field(rows, "Price (USD)", text_cell(&quote.price));
    detail_field(rows, "Market Cap", text_cell(&quote.market_cap));
    detail_field(rows, "Volume (24h)", text_cell(&quote.volume_24h));
    detail_field(rows, "Change (1h)", text_cell(&quote.percent_change_1h));
    detail_field(rows, "Change (24h)", text_cell(&quote.percent_change_24h));
    detail_field(rows, "Change (7d)", text_cell(&quote.percent_change_7d));
    detail_field(rows, "Change (30d)", text_cell(&quote.percent_change_30d));
    detail_field(rows, "ATH Price", text_cell(&quote.ath_price));
    detail_field(rows, "ATH Date", text_cell(&quote.ath_date));
    detail_field(rows, "% From ATH", text_cell(&quote.percent_from_price_ath));
    assert(field_cells(rows@) =~= before + ticker_quote_cells(*quote));
}

/// The text shown for the price of one coin: its detail table and the
/// footer.
pub fn print_ticker_detail(ticker: &Ticker) -> (r: String)
    ensures
        r@ == detail_table(ticker_detail_cells(*ticker)) + "\n"@ + FOOTER@,
{
    let mut rows: Vec<Field> = Vec::new();
    assert(field_cells(rows@) =~= Seq::empty());
    detail_field(&mut rows, "Name", ticker.name.clone());
    detail_field(&mut rows, "Symbol", ticker.symbol.clone());
    detail_field(&mut rows, "Rank", number_cell(ticker.rank));
    assert(field_cells(rows@) =~= ticker_opening_cells(*ticker));
    if let Some(quote) = &ticker.usd {
        push_ticker_quote(&mut rows, quote);
    }
    let ghost middle = field_cells(rows@);
    assert(middle =~= ticker_opening_cells(*ticker) + match ticker.usd {
        Some(quote) => ticker_quote_cells(quote),
        None => Seq::empty(),
    });
    detail_field(&mut rows, "Circulating Supply", text_cell(&ticker.circulating_supply));
    detail_field(&mut rows, "Total Supply", text_cell(&ticker.total_supply));
    detail_field(&mut rows, "Max Supply", text_cell(&ticker.max_supply));
    detail_field(&mut rows, "Last Updated", text_cell(&ticker.last_updated));
    assert(field_cells(rows@) =~= middle + ticker_closing_cells(*ticker));
    let mut r = print_detail_table(rows);
    r.append(FOOTER);
    r
}

/// Column titles of a list of past prices.
pub open spec fn history_header() -> Seq<Seq<char>> {
    seq!["Timestamp"@, "Price"@, "Volume (24h)"@, "Market Cap"@]
}

/// The row of one moment: when, and price, volume and market
/// capitalisation then.
pub open spec fn history_row(point: TickerHistoryPoint) -> Seq<Seq<char>> {
    seq![
        text_or_dash(point.timestamp.deep_view()),
        text_or_dash(point.price.deep_view()),
        text_or_dash(point.volume_24h.deep_view()),
        text_or_dash(point.market_cap.deep_view()),
    ]
}

/// The text shown for the past prices of a coin: the table and the footer.
pub fn print_history_table(history: &Vec<TickerHistoryPoint>) -> (r: String)
    ensures
        r@ == rounded_table(
            table_cells(history_header(), history@, |p: TickerHistoryPoint| history_row(p)),
        ) + "\n"@ + FOOTER@,
{
    let ghost row = |p: TickerHistoryPoint| history_row(p);
    let mut rows: Vec<Vec<String>> = Vec::new();
    let mut header: Vec<String> = Vec::new();
    push_string(&mut header, owned("Timestamp"));
    push_string(&mut header, owned("Price"));
    push_string(&mut header, owned("Volume (24h)"));
    push_string(&mut header, owned("Market Cap"));
    assert(header.deep_view() =~= history_header());
    push_row(&mut rows, header);
    assert(rows.deep_view() =~= seq![history_header()]);
    let mut i: usize = 0;
    proof {
        assert(table_cells(history_header(), history@.take(0), row) =~= seq![history_header()]);
    }
    while i < history.len()
        invariant
            i <= history.len(),
            row == |p: TickerHistoryPoint| history_row(p),
            rows.deep_view() == table_cells(history_header(), history@.take(i as int), row),
        decreases history.len() - i,
    {
        let point = &history[i];
        let mut cells: Vec<String> = Vec::new();
        push_string(&mut cells, text_cell(&point.timestamp));
        push_string(&mut cells, text_cell(&point.price));
        push_string(&mut cells, text_cell(&point.volume_24h));
        push_string(&mut cells, text_cell(&point.market_cap));
        assert(cells.deep_view() =~= history_row(*point));
        push_row(&mut rows, cells);
        proof {
            lemma_table_cells_grow(history_header(), history@, row, i as int);
        }
        i += 1;
    }
    assert(history@.take(history@.len() as int) =~= history@);
    let mut r = print_table(&rows);
    r.append(FOOTER);
    r
}

} // verus!

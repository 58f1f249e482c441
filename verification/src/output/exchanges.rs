//! Tables for exchanges.

use vstd::prelude::*;
use vstd::string::*;
use crate::commands::exchanges::{Exchange, ExchangeMarket, ExchangeMarketQuote, ExchangeQuote};
use crate::output::{
    detail_field, detail_table, field_cells, flag_cell, flag_or_dash, lemma_table_cells_grow,
    number_cell, number_or_dash, print_detail_table, print_table, push_row, quoted_or_dash,
    rounded_table, table_cells, text_cell, text_or_dash, truncate, truncate_spec, Field, DASH,
    FOOTER,
};
use crate::text::{owned, push_string};

verus! {

fn adjusted_volume_cell(quote: &Option<ExchangeQuote>) -> (r: String)
    ensures
        r@ == quoted_or_dash(*quote, |q: ExchangeQuote| q.adjusted_volume_24h),
{
    match quote {
        Some(q) => text_cell(&q.adjusted_volume_24h),
        None => owned(DASH),
    }
}

/// Column titles of the list of exchanges.
pub open spec fn exchange_header() -> Seq<Seq<char>> {
    seq!["Rank"@, "Name"@, "Currencies"@, "Markets"@, "Volume (24h)"@, "Confidence"@]
}

/// The row of one exchange: rank, name shortened to 25 characters, numbers
/// of currencies and markets, volume of a day and confidence score.
pub open spec fn exchange_row(exchange: Exchange) -> Seq<Seq<char>> {
    seq![
        number_or_dash(exchange.adjusted_rank),
        truncate_spec(exchange.name@, 25),
        number_or_dash(exchange.currencies),
        number_or_dash(exchange.markets),
        quoted_or_dash(exchange.usd, |q: ExchangeQuote| q.adjusted_volume_24h),
        text_or_dash(exchange.confidence_score.deep_view()),
    ]
}

/// The text shown for a list of exchanges: the table and the footer.
pub fn print_exchanges_table(exchanges: &Vec<Exchange>) -> (r: String)
    ensures
        r@ == rounded_table(
            table_cells(exchange_header(), exchanges@, |e: Exchange| exchange_row(e)),
        ) + "\n"@ + FOOTER@,
{
    let ghost row = |e: Exchange| exchange_row(e);
    let mut rows: Vec<Vec<String>> = Vec::new();
    let mut header: Vec<String> = Vec::new();
    push_string(&mut header, owned("Rank"));
    push_string(&mut header, owned("Name"));
    push_string(&mut header, owned("Currencies"));
    push_string(&mut header, owned("Markets"));
    push_string(&mut header, owned("Volume (24h)"));
    push_string(&mut header, owned("Confidence"));
    assert(header.deep_view() =~= exchange_header());
    push_row(&mut rows, header);
    assert(rows.deep_view() =~= seq![exchange_header()]);
    let mut i: usize = 0;
    proof {
        assert(table_cells(exchange_header(), exchanges@.take(0), row) =~= seq![exchange_header()]);
    }
    while i < exchanges.len()
        invariant
            i <= exchanges.len(),
            row == |e: Exchange| exchange_row(e),
            rows.deep_view() == table_cells(exchange_header(), exchanges@.take(i as int), row),
        decreases exchanges.len() - i,
    {
        let exchange = &exchanges[i];
        let mut cells: Vec<String> = Vec::new();
        push_string(&mut cells, number_cell(exchange.adjusted_rank));
        push_string(&mut cells, truncate(exchange.name.as_str(), 25));
        push_string(&mut cells, number_cell(exchange.currencies));
        push_string(&mut cells, number_cell(exchange.markets));
        push_string(&mut cells, adjusted_volume_cell(&exchange.usd));
        push_string(&mut cells, text_cell(&exchange.confidence_score));
        assert(cells.deep_view() =~= exchange_row(*exchange));
        push_row(&mut rows, cells);
        proof {
            lemma_table_cells_grow(exchange_header(), exchanges@, row, i as int);
        }
        i += 1;
    }
    assert(exchanges@.take(exchanges@.len() as int) =~= exchanges@);
    let mut r = print_table(&rows);
    r.append(FOOTER);
    r
}

/// The rows that open the detail table of an exchange.
pub open spec fn exchange_opening_cells(exchange: Exchange) -> Seq<Seq<Seq<char>>> {
    seq![
        seq!["Name"@, exchange.name@],
        seq!["ID"@, exchange.id@],
        seq!["Active"@, flag_or_dash(exchange.active)],
        seq!["Rank (Adjusted)"@, number_or_dash(exchange.adjusted_rank)],
        seq!["Currencies"@, number_or_dash(exchange.currencies)],
        seq!["Markets"@, number_or_dash(exchange.markets)],
        seq!["Confidence Score"@, text_or_dash(exchange.confidence_score.deep_view())],
    ]
}

/// The rows for the volumes of an exchange.
pub open spec fn exchange_volume_cells(quote: ExchangeQuote) -> Seq<Seq<Seq<char>>> {
    seq![
        seq!["Volume (24h)"@, text_or_dash(quote.adjusted_volume_24h.deep_view())],
        seq!["Volume (7d)"@, text_or_dash(quote.adjusted_volume_7d.deep_view())],
        seq!["Volume (30d)"@, text_or_dash(quote.adjusted_volume_30d.deep_view())],
    ]
}

/// The rows of the detail table of an exchange: the exchange; its volumes,
/// where there are some; its description shortened to 200 characters,
/// where there is one that is not empty; and when it was last updated.
pub open spec fn exchange_detail_cells(exchange: Exchange) -> Seq<Seq<Seq<char>>> {
    let measured = exchange_opening_cells(exchange) + match exchange.usd {
        Some(quote) => exchange_volume_cells(quote),
        None => Seq::empty(),
    };
    let described = match exchange.description {
        Some(text) => if text@.len() > 0 {
            measured.push(seq!["Description"@, truncate_spec(text@, 200)])
        } else {
            measured
        },
        None => measured,
    };
    described.push(seq!["Last Updated"@, text_or_dash(exchange.last_updated.deep_view())])
}

fn push_exchange_volumes(rows: &mut Vec<Field>, quote: &ExchangeQuote)
    ensures
        field_cells(final(rows)@) == field_cells(old(rows)@) + exchange_volume_cells(*quote),
{
    let ghost before = field_cells(rows@);
    detail_field(rows, "Volume (24h)", text_cell(&quote.adjusted_volume_24h));
    detail_field(rows, "Volume (7d)", text_cell(&quote.adjusted_volume_7d));
    detail_field(rows, "Volume (30d)", text_cell(&quote.adjusted_volume_30d));
    assert(field_cells(rows@) =~= before + exchange_volume_cells(*quote));
}

/// The text shown for one exchange: its detail table and the footer.
pub fn print_exchange_detail(exchange: &Exchange) -> (r: String)
    ensures
        r@ == detail_table(exchange_detail_cells(*exchange)) + "\n"@ + FOOTER@,
{
    let mut rows: Vec<Field> = Vec::new();
    assert(field_cells(rows@) =~= Seq::empty());
    detail_field(&mut rows, "Name", exchange.name.clone());
    detail_field(&mut rows, "ID", exchange.id.clone());
    detail_field(&mut rows, "Active", flag_cell(exchange.active));
    detail_field(&mut rows, "Rank (Adjusted)", number_cell(exchange.adjusted_rank));
    detail_field(&mut rows, "Currencies", number_cell(exchange.currencies));
    detail_field(&mut rows, "Markets", number_cell(exchange.markets));
    detail_field(&mut rows, "Confidence Score", text_cell(&exchange.confidence_score));
    assert(field_cells(rows@) =~= exchange_opening_cells(*exchange));
    if let Some(quote) = &exchange.usd {
        push_exchange_volumes(&mut rows, quote);
    }
    assert(field_cells(rows@) =~= exchange_opening_cells(*exchange) + match exchange.usd {
        Some(quote) => exchange_volume_cells(quote),
        None => Seq::empty(),
    });
    if let Some(desc) = &exchange.description {
        if !desc.as_str().is_empty() {
            detail_field(&mut rows, "Description", truncate(desc.as_str(), 200));
        }
    }
    detail_field(&mut rows, "Last Updated", text_cell(&exchange.last_updated));
    let mut r = print_detail_table(rows);
    r.append(FOOTER);
    r
}

fn exchange_market_price(quote: &Option<ExchangeMarketQuote>) -> (r: String)
    ensures
        r@ == quoted_or_dash(*quote, |q: ExchangeMarketQuote| q.price),
{
    match quote {
        Some(q) => text_cell(&q.price),
        None => owned(DASH),
    }
}

fn exchange_market_volume(quote: &Option<ExchangeMarketQuote>) -> (r: String)
    ensures
        r@ == quoted_or_dash(*quote, |q: ExchangeMarketQuote| q.volume_24h),
{
    match quote {
        Some(q) => text_cell(&q.volume_24h),
        None => owned(DASH),
    }
}

/// Column titles of the list of markets on an exchange.
pub open spec fn exchange_market_header() -> Seq<Seq<char>> {
    seq!["Pair"@, "Price"@, "Volume (24h)"@, "Trust"@]
}

/// The row of one market: pair, price and volume of a day in the currency
/// of the tables, and trust score.
pub open spec fn exchange_market_row(market: ExchangeMarket) -> Seq<Seq<char>> {
    seq![
        text_or_dash(market.pair.deep_view()),
        quoted_or_dash(market.usd, |q: ExchangeMarketQuote| q.price),
        quoted_or_dash(market.usd, |q: ExchangeMarketQuote| q.volume_24h),
        text_or_dash(market.trust_score.deep_view()),
    ]
}

/// The text shown for the markets on an exchange: the table and the footer.
pub fn print_exchange_markets_table(markets: &Vec<ExchangeMarket>) -> (r: String)
    ensures
        r@ == rounded_table(
            table_cells(exchange_market_header(), markets@, |m: ExchangeMarket| exchange_market_row(m)),
        ) + "\n"@ + FOOTER@,
{
    let ghost row = |m: ExchangeMarket| exchange_market_row(m);
    let mut rows: Vec<Vec<String>> = Vec::new();
    let mut header: Vec<String> = Vec::new();
    push_string(&mut header, owned("Pair"));
    push_string(&mut header, owned("Price"));
    push_string(&mut header, owned("Volume (24h)"));
    push_string(&mut header, owned("Trust"));
    assert(header.deep_view() =~= exchange_market_header());
    push_row(&mut rows, header);
    assert(rows.deep_view() =~= seq![exchange_market_header()]);
    let mut i: usize = 0;
    proof {
        assert(table_cells(exchange_market_header(), markets@.take(0), row) =~= seq![
            exchange_market_header(),
        ]);
    }
    while i < markets.len()
        invariant
            i <= markets.len(),
            row == |m: ExchangeMarket| exchange_market_row(m),
            rows.deep_view() == table_cells(exchange_market_header(), markets@.take(i as int), row),
        decreases markets.len() - i,
    {
        let market = &markets[i];
        let mut cells: Vec<String> = Vec::new();
        push_string(&mut cells, text_cell(&market.pair));
        push_string(&mut cells, exchange_market_price(&market.usd));
        push_string(&mut cells, exchange_market_volume(&market.usd));
        push_string(&mut cells, text_cell(&market.trust_score));
        assert(cells.deep_view() =~= exchange_market_row(*market));
        push_row(&mut rows, cells);
        proof {
            lemma_table_cells_grow(exchange_market_header(), markets@, row, i as int);
        }
        i += 1;
    }
    assert(markets@.take(markets@.len() as int) =~= markets@);
    let mut r = print_table(&rows);
    r.append(FOOTER);
    r
}

} // verus!

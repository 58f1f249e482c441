//! Tables for coins.

use vstd::prelude::*;
use vstd::string::*;
use crate::commands::coins::{
    CoinDetail, CoinEvent, CoinExchange, CoinListItem, CoinMarket, CoinTag, MarketQuote,
};
use crate::output::{
    detail_field, detail_table, field_cells, flag_cell, flag_or_dash, lemma_table_cells_grow,
    number_cell, number_or_dash, print_detail_table, print_table, push_row, quoted_or_dash,
    rounded_table, table_cells, text_cell, text_or_dash, truncate, truncate_spec, Field, DASH,
    FOOTER,
};
use crate::text::{joined, owned, push_string};

verus! {

/// Column titles of the list of coins.
pub open spec fn coin_header() -> Seq<Seq<char>> {
    seq!["Rank"@, "Symbol"@, "Name"@, "Type"@, "Active"@]
}

/// The row of one coin: rank, symbol, name shortened to 30 characters,
/// type, and whether it is active.
pub open spec fn coin_row(coin: CoinListItem) -> Seq<Seq<char>> {
    seq![
        number_or_dash(coin.rank),
        coin.symbol@,
        truncate_spec(coin.name@, 30),
        text_or_dash(coin.coin_type.deep_view()),
        flag_or_dash(coin.is_active),
    ]
}

/// The text shown for a list of coins: the table and the footer.
pub fn print_coins_table(coins: &Vec<CoinListItem>) -> (r: String)
    ensures
        r@ == rounded_table(table_cells(coin_header(), coins@, |c: CoinListItem| coin_row(c)))
            + "\n"@ + FOOTER@,
{
    let ghost row = |c: CoinListItem| coin_row(c);
    let mut rows: Vec<Vec<String>> = Vec::new();
    let mut header: Vec<String> = Vec::new();
    push_string(&mut header, owned("Rank"));
    push_string(&mut header, owned("Symbol"));
    push_string(&mut header, owned("Name"));
    push_string(&mut header, owned("Type"));
    push_string(&mut header, owned("Active"));
    assert(header.deep_view() =~= coin_header());
    push_row(&mut rows, header);
    assert(rows.deep_view() =~= seq![coin_header()]);
    let mut i: usize = 0;
    proof {
        assert(table_cells(coin_header(), coins@.take(0), row) =~= seq![coin_header()]);
    }
    while i < coins.len()
        invariant
            i <= coins.len(),
            row == |c: CoinListItem| coin_row(c),
            rows.deep_view() == table_cells(coin_header(), coins@.take(i as int), row),
        decreases coins.len() - i,
    {
        let coin = &coins[i];
        let mut cells: Vec<String> = Vec::new();
        push_string(&mut cells, number_cell(coin.rank));
        push_string(&mut cells, coin.symbol.clone());
        push_string(&mut cells, truncate(coin.name.as_str(), 30));
        push_string(&mut cells, text_cell(&coin.coin_type));
        push_string(&mut cells, flag_cell(coin.is_active));
        assert(cells.deep_view() =~= coin_row(*coin));
        push_row(&mut rows, cells);
        proof {
            lemma_table_cells_grow(coin_header(), coins@, row, i as int);
        }
        i += 1;
    }
    assert(coins@.take(coins@.len() as int) =~= coins@);
    let mut r = print_table(&rows);
    r.append(FOOTER);
    r
}

/// The names of the tags of a coin, in their order.
pub open spec fn tag_names(tags: Seq<CoinTag>) -> Seq<Seq<char>> {
    Seq::new(tags.len(), |i: int| tags[i].name@)
}

/// The rows that every coin has in its detail table.
pub open spec fn coin_fixed_cells(coin: CoinDetail) -> Seq<Seq<Seq<char>>> {
    seq![
        seq!["Name"@, coin.name@],
        seq!["Symbol"@, coin.symbol@],
        seq!["Rank"@, number_or_dash(coin.rank)],
        seq!["Type"@, text_or_dash(coin.coin_type.deep_view())],
        seq!["Active"@, flag_or_dash(coin.is_active)],
        seq!["Started"@, text_or_dash(coin.started_at.deep_view())],
        seq!["Proof Type"@, text_or_dash(coin.proof_type.deep_view())],
        seq!["Hash Algorithm"@, text_or_dash(coin.hash_algorithm.deep_view())],
        seq!["Org Structure"@, text_or_dash(coin.org_structure.deep_view())],
        seq!["Dev Status"@, text_or_dash(coin.development_status.deep_view())],
        seq!["Open Source"@, flag_or_dash(coin.open_source)],
        seq!["Hardware Wallet"@, flag_or_dash(coin.hardware_wallet)],
    ]
}

/// The rows of a coin's detail table: the fixed rows; the names of its tags
/// joined by commas and shortened to 80 characters, where the coin has a
/// list of tags; its description shortened to 200 characters, where it has
/// one that is not empty; and the link to its whitepaper, where it has one.
pub open spec fn coin_detail_cells(coin: CoinDetail) -> Seq<Seq<Seq<char>>> {
    let fixed = coin_fixed_cells(coin);
    let tagged = match coin.tags {
        Some(tags) => fixed.push(
            seq!["Tags"@, truncate_spec(joined(tag_names(tags@), ", "@), 80)],
        ),
        None => fixed,
    };
    let described = match coin.description {
        Some(text) => if text@.len() > 0 {
            tagged.push(seq!["Description"@, truncate_spec(text@, 200)])
        } else {
            tagged
        },
        None => tagged,
    };
    match coin.whitepaper {
        Some(paper) => match paper.link {
            Some(link) => described.push(seq!["Whitepaper"@, link@]),
            None => described,
        },
        None => described,
    }
}

fn join_tag_names(tags: &Vec<CoinTag>) -> (r: String)
    ensures
        r@ == joined(tag_names(tags@), ", "@),
{
    let mut r = String::new();
    let mut i: usize = 0;
    assert(tag_names(tags@).take(0) =~= Seq::empty());
    while i < tags.len()
        invariant
            i <= tags.len(),
            r@ == joined(tag_names(tags@).take(i as int), ", "@),
        decreases tags.len() - i,
    {
        if i > 0 {
            r.append(", ");
        }
        r.append(tags[i].name.as_str());
        proof {
            let names = tag_names(tags@);
            assert(names.take(i + 1).drop_last() =~= names.take(i as int));
            assert(names.take(i + 1).last() == tags[i as int].name@);
            if i == 0 {
                assert(r@ =~= names.take(1)[0]);
            }
        }
        i += 1;
    }
    assert(tag_names(tags@).take(tags@.len() as int) =~= tag_names(tags@));
    r
}

/// The text shown for one coin: its detail table and the footer.
pub fn print_coin_detail(coin: &CoinDetail) -> (r: String)
    ensures
        r@ == detail_table(coin_detail_cells(*coin)) + "\n"@ + FOOTER@,
{
    let mut rows: Vec<Field> = Vec::new();
    assert(field_cells(rows@) =~= Seq::empty());
    detail_field(&mut rows, "Name", coin.name.clone());
    detail_field(&mut rows, "Symbol", coin.symbol.clone());
    detail_field(&mut rows, "Rank", number_cell(coin.rank));
    detail_field(&mut rows, "Type", text_cell(&coin.coin_type));
    detail_field(&mut rows, "Active", flag_cell(coin.is_active));
    detail_field(&mut rows, "Started", text_cell(&coin.started_at));
    detail_field(&mut rows, "Proof Type", text_cell(&coin.proof_type));
    detail_field(&mut rows, "Hash Algorithm", text_cell(&coin.hash_algorithm));
    detail_field(&mut rows, "Org Structure", text_cell(&coin.org_structure));
    detail_field(&mut rows, "Dev Status", text_cell(&coin.development_status));
    detail_field(&mut rows, "Open Source", flag_cell(coin.open_source));
    detail_field(&mut rows, "Hardware Wallet", flag_cell(coin.hardware_wallet));
    assert(field_cells(rows@) =~= coin_fixed_cells(*coin));
    if let Some(tags) = &coin.tags {
        let names = join_tag_names(tags);
        detail_field(&mut rows, "Tags", truncate(names.as_str(), 80));
    }
    if let Some(desc) = &coin.description {
        if !desc.as_str().is_empty() {
            detail_field(&mut rows, "Description", truncate(desc.as_str(), 200));
        }
    }
    if let Some(wp) = &coin.whitepaper {
        if let Some(link) = &wp.link {
            detail_field(&mut rows, "Whitepaper", link.clone());
        }
    }
    let mut r = print_detail_table(rows);
    r.append(FOOTER);
    r
}

/// Column titles of the list of events.
pub open spec fn event_header() -> Seq<Seq<char>> {
    seq!["Date"@, "Name"@, "Conference"@]
}

/// The row of one event: its date, its name shortened to 50 characters, and
/// whether it is a conference.
pub open spec fn event_row(event: CoinEvent) -> Seq<Seq<char>> {
    seq![
        text_or_dash(event.date.deep_view()),
        truncate_spec(text_or_dash(event.name.deep_view()), 50),
        flag_or_dash(event.is_conference),
    ]
}

/// The text shown for the events of a coin: the table and the footer.
pub fn print_events_table(events: &Vec<CoinEvent>) -> (r: String)
    ensures
        r@ == rounded_table(table_cells(event_header(), events@, |e: CoinEvent| event_row(e)))
            + "\n"@ + FOOTER@,
{
    let ghost row = |e: CoinEvent| event_row(e);
    let mut rows: Vec<Vec<String>> = Vec::new();
    let mut header: Vec<String> = Vec::new();
    push_string(&mut header, owned("Date"));
    push_string(&mut header, owned("Name"));
    push_string(&mut header, owned("Conference"));
    assert(header.deep_view() =~= event_header());
    push_row(&mut rows, header);
    assert(rows.deep_view() =~= seq![event_header()]);
    let mut i: usize = 0;
    proof {
        assert(table_cells(event_header(), events@.take(0), row) =~= seq![event_header()]);
    }
    while i < events.len()
        invariant
            i <= events.len(),
            row == |e: CoinEvent| event_row(e),
            rows.deep_view() == table_cells(event_header(), events@.take(i as int), row),
        decreases events.len() - i,
    {
        let event = &events[i];
        let mut cells: Vec<String> = Vec::new();
        push_string(&mut cells, text_cell(&event.date));
        let name = text_cell(&event.name);
        push_string(&mut cells, truncate(name.as_str(), 50));
        push_string(&mut cells, flag_cell(event.is_conference));
        assert(cells.deep_view() =~= event_row(*event));
        push_row(&mut rows, cells);
        proof {
            lemma_table_cells_grow(event_header(), events@, row, i as int);
        }
        i += 1;
    }
    assert(events@.take(events@.len() as int) =~= events@);
    let mut r = print_table(&rows);
    r.append(FOOTER);
    r
}

/// Column titles of the list of exchanges that trade a coin.
pub open spec fn coin_exchange_header() -> Seq<Seq<char>> {
    seq!["Exchange"@, "Volume Share (24h)"@]
}

/// The row of one exchange: its name and its share of the volume of a day.
pub open spec fn coin_exchange_row(exchange: CoinExchange) -> Seq<Seq<char>> {
    seq![
        exchange.name@,
        text_or_dash(exchange.adjusted_volume_24h_share.deep_view()),
    ]
}

/// The text shown for the exchanges that trade a coin: the table and the
/// footer.
pub fn print_coin_exchanges_table(exchanges: &Vec<CoinExchange>) -> (r: String)
    ensures
        r@ == rounded_table(
            table_cells(coin_exchange_header(), exchanges@, |e: CoinExchange| coin_exchange_row(e)),
        ) + "\n"@ + FOOTER@,
{
    let ghost row = |e: CoinExchange| coin_exchange_row(e);
    let mut rows: Vec<Vec<String>> = Vec::new();
    let mut header: Vec<String> = Vec::new();
    push_string(&mut header, owned("Exchange"));
    push_string(&mut header, owned("Volume Share (24h)"));
    assert(header.deep_view() =~= coin_exchange_header());
    push_row(&mut rows, header);
    assert(rows.deep_view() =~= seq![coin_exchange_header()]);
    let mut i: usize = 0;
    proof {
        assert(table_cells(coin_exchange_header(), exchanges@.take(0), row) =~= seq![coin_exchange_header()]);
    }
    while i < exchanges.len()
        invariant
            i <= exchanges.len(),
            row == |e: CoinExchange| coin_exchange_row(e),
            rows.deep_view() == table_cells(coin_exchange_header(), exchanges@.take(i as int), row),
        decreases exchanges.len() - i,
    {
        let exchange = &exchanges[i];
        let mut cells: Vec<String> = Vec::new();
        push_string(&mut cells, exchange.name.clone());
        push_string(&mut cells, text_cell(&exchange.adjusted_volume_24h_share));
        assert(cells.deep_view() =~= coin_exchange_row(*exchange));
        push_row(&mut rows, cells);
        proof {
            lemma_table_cells_grow(coin_exchange_header(), exchanges@, row, i as int);
        }
        i += 1;
    }
    assert(exchanges@.take(exchanges@.len() as int) =~= exchanges@);
    let mut r = print_table(&rows);
    r.append(FOOTER);
    r
}

fn market_price(quote: &Option<MarketQuote>) -> (r: String)
    ensures
        r@ == quoted_or_dash(*quote, |q: MarketQuote| q.price),
{
    match quote {
        Some(q) => text_cell(&q.price),
        None => owned(DASH),
    }
}

fn market_volume_24h(quote: &Option<MarketQuote>) -> (r: String)
    ensures
        r@ == quoted_or_dash(*quote, |q: MarketQuote| q.volume_24h),
{
    match quote {
        Some(q) => text_cell(&q.volume_24h),
        None => owned(DASH),
    }
}

/// Column titles of the list of markets of a coin.
pub open spec fn market_header() -> Seq<Seq<char>> {
    seq!["Exchange"@, "Pair"@, "Price"@, "Volume (24h)"@, "Trust"@]
}

/// The row of one market: exchange, pair, price and volume of a day in the
/// currency of the tables, and trust score.
pub open spec fn market_row(market: CoinMarket) -> Seq<Seq<char>> {
    seq![
        text_or_dash(market.exchange_name.deep_view()),
        text_or_dash(market.pair.deep_view()),
        quoted_or_dash(market.usd, |q: MarketQuote| q.price),
        quoted_or_dash(market.usd, |q: MarketQuote| q.volume_24h),
        text_or_dash(market.trust_score.deep_view()),
    ]
}

/// The text shown for the markets of a coin: the table and the footer.
pub fn print_markets_table(markets: &Vec<CoinMarket>) -> (r: String)
    ensures
        r@ == rounded_table(
            table_cells(market_header(), markets@, |m: CoinMarket| market_row(m)),
        ) + "\n"@ + FOOTER@,
{
    let ghost row = |m: CoinMarket| market_row(m);
    let mut rows: Vec<Vec<String>> = Vec::new();
    let mut header: Vec<String> = Vec::new();
    push_string(&mut header, owned("Exchange"));
    push_string(&mut header, owned("Pair"));
    push_string(&mut header, owned("Price"));
    push_string(&mut header, owned("Volume (24h)"));
    push_string(&mut header, owned("Trust"));
    assert(header.deep_view() =~= market_header());
    push_row(&mut rows, header);
    assert(rows.deep_view() =~= seq![market_header()]);
    let mut i: usize = 0;
    proof {
        assert(table_cells(market_header(), markets@.take(0), row) =~= seq![market_header()]);
    }
    while i < markets.len()
        invariant
            i <= markets.len(),
            row == |m: CoinMarket| market_row(m),
            rows.deep_view() == table_cells(market_header(), markets@.take(i as int), row),
        decreases markets.len() - i,
    {
        let market = &markets[i];
        let mut cells: Vec<String> = Vec::new();
        push_string(&mut cells, text_cell(&market.exchange_name));
        push_string(&mut cells, text_cell(&market.pair));
        push_string(&mut cells, market_price(&market.usd));
        push_string(&mut cells, market_volume_24h(&market.usd));
        push_string(&mut cells, text_cell(&market.trust_score));
        assert(cells.deep_view() =~= market_row(*market));
        push_row(&mut rows, cells);
        proof {
            lemma_table_cells_grow(market_header(), markets@, row, i as int);
        }
        i += 1;
    }
    assert(markets@.take(markets@.len() as int) =~= markets@);
    let mut r = print_table(&rows);
    r.append(FOOTER);
    r
}

} // verus!

//! Texts for contract platforms and contracts.

use vstd::prelude::*;
use vstd::string::*;
use crate::commands::contracts::{Contract, ContractHistoryPoint, ContractQuote, ContractTicker};
use crate::output::{
    detail_field, detail_table, field_cells, flag_cell, flag_or_dash, is_shortenable,
    lemma_lines_grow, lemma_table_cells_grow, lines, number_cell, number_or_dash,
    print_detail_table, print_table, push_row, rounded_table, shortenable, table_cells, text_cell,
    text_or_dash, truncate_address, truncate_address_spec, Field, DASH, FOOTER,
};
use crate::text::{owned, push_string};

verus! {

/// The line of one platform in the list of platforms.
pub open spec fn platform_line(platform: String) -> Seq<char> {
    "  "@ + platform@ + "\n"@
}

/// The text shown for the list of platforms: a title, one indented line for
/// each platform, and the footer.
pub fn print_platforms(platforms: &Vec<String>) -> (r: String)
    ensures
        r@ == "Contract Platforms:\n"@ + lines(platforms@, |p: String| platform_line(p)) + FOOTER@,
{
    let ghost line = |p: String| platform_line(p);
    let mut r = owned("Contract Platforms:\n");
    let mut i: usize = 0;
    assert(lines(platforms@.take(0), line) =~= Seq::empty());
    while i < platforms.len()
        invariant
            i <= platforms.len(),
            line == |p: String| platform_line(p),
            r@ == "Contract Platforms:\n"@ + lines(platforms@.take(i as int), line),
        decreases platforms.len() - i,
    {
        r.append("  ");
        r.append(platforms[i].as_str());
        r.append("\n");
        proof {
            lemma_lines_grow(platforms@, line, i as int);
            assert(r@ =~= "Contract Platforms:\n"@ + lines(platforms@.take(i + 1), line));
        }
        i += 1;
    }
    assert(platforms@.take(platforms@.len() as int) =~= platforms@);
    r.append(FOOTER);
    r
}

/// Column titles of the list of contracts.
pub open spec fn contract_header() -> Seq<Seq<char>> {
    seq!["Address"@, "Type"@, "Coin ID"@, "Active"@]
}

/// An address as the list shows it, or a dash where there is none.
pub open spec fn address_or_dash(address: Option<String>) -> Seq<char> {
    match address {
        Some(addr) => truncate_address_spec(addr@),
        None => DASH@,
    }
}

/// The row of one contract: its shortened address, its type, the coin it
/// belongs to, and whether it is active.
pub open spec fn contract_row(contract: Contract) -> Seq<Seq<char>> {
    seq![
        address_or_dash(contract.address),
        text_or_dash(contract.contract_type.deep_view()),
        text_or_dash(contract.id.deep_view()),
        flag_or_dash(contract.active),
    ]
}

/// Whether every address in the list can be shown.
pub open spec fn all_shortenable(contracts: Seq<Contract>) -> bool {
    forall|i: int|
        0 <= i < contracts.len() ==> (#[trigger] contracts[i].address matches Some(addr)
            ==> shortenable(addr@))
}

/// The text shown for a list of contracts: the table and the footer.
pub fn print_contracts_table(contracts: &Vec<Contract>) -> (r: String)
    requires
        all_shortenable(contracts@),
    ensures
        r@ == rounded_table(
            table_cells(contract_header(), contracts@, |c: Contract| contract_row(c)),
        ) + "\n"@ + FOOTER@,
{
    let ghost row = |c: Contract| contract_row(c);
    let mut rows: Vec<Vec<String>> = Vec::new();
    let mut header: Vec<String> = Vec::new();
    push_string(&mut header, owned("Address"));
    push_string(&mut header, owned("Type"));
    push_string(&mut header, owned("Coin ID"));
    push_string(&mut header, owned("Active"));
    assert(header.deep_view() =~= contract_header());
    push_row(&mut rows, header);
    assert(rows.deep_view() =~= seq![contract_header()]);
    let mut i: usize = 0;
    proof {
        assert(table_cells(contract_header(), contracts@.take(0), row) =~= seq![contract_header()]);
    }
    while i < contracts.len()
        invariant
            i <= contracts.len(),
            all_shortenable(contracts@),
            row == |c: Contract| contract_row(c),
            rows.deep_view() == table_cells(contract_header(), contracts@.take(i as int), row),
        decreases contracts.len() - i,
    {
        let contract = &contracts[i];
        let mut cells: Vec<String> = Vec::new();
        let address = match &contract.address {
            Some(addr) => truncate_address(addr.as_str()),
            None => owned(DASH),
        };
        push_string(&mut cells, address);
        push_string(&mut cells, text_cell(&contract.contract_type));
        push_string(&mut cells, text_cell(&contract.id));
        push_string(&mut cells, flag_cell(contract.active));
        assert(cells.deep_view() =~= contract_row(*contract));
        push_row(&mut rows, cells);
        proof {
            lemma_table_cells_grow(contract_header(), contracts@, row, i as int);
        }
        i += 1;
    }
    assert(contracts@.take(contracts@.len() as int) =~= contracts@);
    let mut r = print_table(&rows);
    r.append(FOOTER);
    r
}

/// Tells whether `print_contracts_table` accepts a list.
pub fn can_print_contracts(contracts: &Vec<Contract>) -> (r: bool)
    ensures
        r == all_shortenable(contracts@),
{
    let mut i: usize = 0;
    while i < contracts.len()
        invariant
            i <= contracts.len(),
            all_shortenable(contracts@.take(i as int)),
        decreases contracts.len() - i,
    {
        if let Some(addr) = &contracts[i].address {
            if !is_shortenable(addr.as_str()) {
                return false;
            }
        }
        proof {
            let grown = contracts@.take(i + 1);
            assert forall|k: int| 0 <= k < grown.len() implies (#[trigger] grown[k].address
                matches Some(addr) ==> shortenable(addr@)) by {
                if k < i {
                    assert(grown[k] == contracts@.take(i as int)[k]);
                }
            }
        }
        i += 1;
    }
    assert(contracts@.take(contracts@.len() as int) =~= contracts@);
    true
}

/// The rows that open the detail table of a token's price.
pub open spec fn contract_opening_cells(ticker: ContractTicker) -> Seq<Seq<Seq<char>>> {
    seq![
        seq!["Name"@, text_or_dash(ticker.name.deep_view())],
        seq!["Symbol"@, text_or_dash(ticker.symbol.deep_view())],
        seq!["Rank"@, number_or_dash(ticker.rank)],
    ]
}

/// The rows for the quote that the table shows.
pub open spec fn contract_quote_cells(quote: ContractQuote) -> Seq<Seq<Seq<char>>> {
    seq![
        seq!["Price (USD)"@, text_or_dash(quote.price.deep_view())],
        seq!["Market Cap"@, text_or_dash(quote.market_cap.deep_view())],
        seq!["Volume (24h)"@, text_or_dash(quote.volume_24h.deep_view())],
        seq!["Change (24h)"@, text_or_dash(quote.percent_change_24h.deep_view())],
        seq!["Change (7d)"@, text_or_dash(quote.percent_change_7d.deep_view())],
    ]
}

/// The rows that close the detail table of a token's price.
pub open spec fn contract_closing_cells(ticker: ContractTicker) -> Seq<Seq<Seq<char>>> {
    seq![
        seq!["Circulating Supply"@, text_or_dash(ticker.circulating_supply.deep_view())],
        seq!["Total Supply"@, text_or_dash(ticker.total_supply.deep_view())],
        seq!["Last Updated"@, text_or_dash(ticker.last_updated.deep_view())],
    ]
}

/// The rows of the detail table of a token's price: the token, its quote
/// where there is one, and its supply.
pub open spec fn contract_ticker_cells(ticker: ContractTicker) -> Seq<Seq<Seq<char>>> {
    contract_opening_cells(ticker) + match ticker.usd {
        Some(quote) => contract_quote_cells(quote),
        None => Seq::empty(),
    } + contract_closing_cells(ticker)
}

fn push_contract_quote(rows: &mut Vec<Field>, quote: &ContractQuote)
    ensures
        field_cells(final(rows)@) == field_cells(old(rows)@) + contract_quote_cells(*quote),
{
    let ghost before = field_cells(rows@);
    detail_field(rows, "Price (USD)", text_cell(&quote.price));
    detail_field(rows, "Market Cap", text_cell(&quote.market_cap));
    detail_field(rows, "Volume (24h)", text_cell(&quote.volume_24h));
    detail_field(rows, "Change (24h)", text_cell(&quote.percent_change_24h));
    detail_field(rows, "Change (7d)", text_cell(&quote.percent_change_7d));
    assert(field_cells(rows@) =~= before + contract_quote_cells(*quote));
}

/// The text shown for the price of the token behind a contract: its detail
/// table and the footer.
pub fn print_contract_ticker(ticker: &ContractTicker) -> (r: String)
    ensures
        r@ == detail_table(contract_ticker_cells(*ticker)) + "\n"@ + FOOTER@,
{
    let mut rows: Vec<Field> = Vec::new();
    assert(field_cells(rows@) =~= Seq::empty());
    detail_field(&mut rows, "Name", text_cell(&ticker.name));
    detail_field(&mut rows, "Symbol", text_cell(&ticker.symbol));
    detail_field(&mut rows, "Rank", number_cell(ticker.rank));
    assert(field_cells(rows@) =~= contract_opening_cells(*ticker));
    if let Some(quote) = &ticker.usd {
        push_contract_quote(&mut rows, quote);
    }
    let ghost middle = field_cells(rows@);
    assert(middle =~= contract_opening_cells(*ticker) + match ticker.usd {
        Some(quote) => contract_quote_cells(quote),
        None => Seq::empty(),
    });
    detail_field(&mut rows, "Circulating Supply", text_cell(&ticker.circulating_supply));
    detail_field(&mut rows, "Total Supply", text_cell(&ticker.total_supply));
    detail_field(&mut rows, "Last Updated", text_cell(&ticker.last_updated));
    assert(field_cells(rows@) =~= middle + contract_closing_cells(*ticker));
    let mut r = print_detail_table(rows);
    r.append(FOOTER);
    r
}

/// Column titles of a list of past prices of a token.
pub open spec fn contract_history_header() -> Seq<Seq<char>> {
    seq!["Timestamp"@, "Price"@, "Volume (24h)"@, "Market Cap"@]
}

/// The row of one moment: when, and price, volume and market
/// capitalisation then.
pub open spec fn contract_history_row(point: ContractHistoryPoint) -> Seq<Seq<char>> {
    seq![
        text_or_dash(point.timestamp.deep_view()),
        text_or_dash(point.price.deep_view()),
        text_or_dash(point.volume_24h.deep_view()),
        text_or_dash(point.market_cap.deep_view()),
    ]
}

/// The text shown for the past prices of the token behind a contract: the
/// table and the footer.
pub fn print_contract_history(data: &Vec<ContractHistoryPoint>) -> (r: String)
    ensures
        r@ == rounded_table(
            table_cells(contract_history_header(), data@, |p: ContractHistoryPoint| contract_history_row(p)),
        ) + "\n"@ + FOOTER@,
{
    let ghost row = |p: ContractHistoryPoint| contract_history_row(p);
    let mut rows: Vec<Vec<String>> = Vec::new();
    let mut header: Vec<String> = Vec::new();
    push_string(&mut header, owned("Timestamp"));
    push_string(&mut header, owned("Price"));
    push_string(&mut header, owned("Volume (24h)"));
    push_string(&mut header, owned("Market Cap"));
    assert(header.deep_view() =~= contract_history_header());
    push_row(&mut rows, header);
    assert(rows.deep_view() =~= seq![contract_history_header()]);
    let mut i: usize = 0;
    proof {
        assert(table_cells(contract_history_header(), data@.take(0), row) =~= seq![
            contract_history_header(),
        ]);
    }
    while i < data.len()
        invariant
            i <= data.len(),
            row == |p: ContractHistoryPoint| contract_history_row(p),
            rows.deep_view() == table_cells(contract_history_header(), data@.take(i as int), row),
        decreases data.len() - i,
    {
        let point = &data[i];
        let mut cells: Vec<String> = Vec::new();
        push_string(&mut cells, text_cell(&point.timestamp));
        push_string(&mut cells, text_cell(&point.price));
        push_string(&mut cells, text_cell(&point.volume_24h));
        push_string(&mut cells, text_cell(&point.market_cap));
        assert(cells.deep_view() =~= contract_history_row(*point));
        push_row(&mut rows, cells);
        proof {
            lemma_table_cells_grow(contract_history_header(), data@, row, i as int);
        }
        i += 1;
    }
    assert(data@.take(data@.len() as int) =~= data@);
    let mut r = print_table(&rows);
    r.append(FOOTER);
    r
}

} // verus!

//! The detail table of the whole market.

use vstd::prelude::*;
use vstd::string::*;
use crate::commands::global::GlobalData;
use crate::output::{
    detail_field, detail_table, field_cells, number_cell, number_or_dash, print_detail_table,
    text_cell, text_or_dash, Field, FOOTER,
};

verus! {

/// The rows of the market overview: capitalisation and volume, the share
/// of Bitcoin, the number of coins, the highest capitalisation ever and
/// its date, and the changes over a day.
pub open spec fn global_cells(data: GlobalData) -> Seq<Seq<Seq<char>>> {
    seq![
        seq!["Market Cap"@, text_or_dash(data.market_cap_usd.deep_view())],
        seq!["Volume (24h)"@, text_or_dash(data.volume_24h_usd.deep_view())],
        seq!["BTC Dominance"@, text_or_dash(data.bitcoin_dominance_percentage.deep_view())],
        seq!["Cryptocurrencies"@, number_or_dash(data.cryptocurrencies_number)],
        seq!["Market Cap ATH"@, text_or_dash(data.market_cap_ath_value.deep_view())],
        seq!["Market Cap ATH Date"@, text_or_dash(data.market_cap_ath_date.deep_view())],
        seq!["Market Cap 24h Change"@, text_or_dash(data.market_cap_change_24h.deep_view())],
        seq!["Volume 24h Change"@, text_or_dash(data.volume_24h_change_24h.deep_view())],
    ]
}

/// The text shown for the market overview: its detail table and the
/// footer.
pub fn print_global(data: &GlobalData) -> (r: String)
    ensures
        r@ == detail_table(global_cells(*data)) + "\n"@ + FOOTER@,
{
    let mut rows: Vec<Field> = Vec::new();
    assert(field_cells(rows@) =~= Seq::empty());
    detail_field(&mut rows, "Market Cap", text_cell(&data.market_cap_usd));
    detail_field(&mut rows, "Volume (24h)", text_cell(&data.volume_24h_usd));
    detail_field(&mut rows, "BTC Dominance", text_cell(&data.bitcoin_dominance_percentage));
    detail_field(&mut rows, "Cryptocurrencies", number_cell(data.cryptocurrencies_number));
    detail_field(&mut rows, "Market Cap ATH", text_cell(&data.market_cap_ath_value));
    detail_field(&mut rows, "Market Cap ATH Date", text_cell(&data.market_cap_ath_date));
    detail_field(&mut rows, "Market Cap 24h Change", text_cell(&data.market_cap_change_24h));
    detail_field(&mut rows, "Volume 24h Change", text_cell(&data.volume_24h_change_24h));
    assert(field_cells(rows@) =~= global_cells(*data));
    let mut r = print_detail_table(rows);
    r.append(FOOTER);
    r
}

} // verus!

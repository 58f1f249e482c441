//! The detail table of a conversion.

use vstd::prelude::*;
use vstd::string::*;
use crate::commands::convert::ConvertResult;
use crate::output::{
    detail_field, detail_table, field_cells, print_detail_table, text_cell, text_or_dash, Field,
    FOOTER,
};

verus! {

/// A currency by name, with its identifier in brackets; a dash stands for
/// what is missing.
pub open spec fn currency_text(name: Option<String>, id: Option<String>) -> Seq<char> {
    text_or_dash(name.deep_view()) + " ("@ + text_or_dash(id.deep_view()) + ")"@
}

/// The rows of a conversion: from which currency, to which, how much, and
/// at what price.
pub open spec fn convert_cells(result: ConvertResult) -> Seq<Seq<Seq<char>>> {
    seq![
        seq!["From"@, currency_text(result.base_currency_name, result.base_currency_id)],
        seq!["To"@, currency_text(result.quote_currency_name, result.quote_currency_id)],
        seq!["Amount"@, text_or_dash(result.amount.deep_view())],
        seq!["Price"@, text_or_dash(result.price.deep_view())],
    ]
}

fn currency_cell(name: &Option<String>, id: &Option<String>) -> (r: String)
    ensures
        r@ == currency_text(*name, *id),
{
    let mut r = text_cell(name);
    r.append(" (");
    let id_text = text_cell(id);
    r.append(id_text.as_str());
    r.append(")");
    r
}

/// The text shown for a conversion: its detail table and the footer.
pub fn print_convert_result(result: &ConvertResult) -> (r: String)
    ensures
        r@ == detail_table(convert_cells(*result)) + "\n"@ + FOOTER@,
{
    let mut rows: Vec<Field> = Vec::new();
    assert(field_cells(rows@) =~= Seq::empty());
    detail_field(
        &mut rows,
        "From",
        currency_cell(&result.base_currency_name, &result.base_currency_id),
    );
    detail_field(
        &mut rows,
        "To",
        currency_cell(&result.quote_currency_name, &result.quote_currency_id),
    );
    detail_field(&mut rows, "Amount", text_cell(&result.amount));
    detail_field(&mut rows, "Price", text_cell(&result.price));
    assert(field_cells(rows@) =~= convert_cells(*result));
    let mut r = print_detail_table(rows);
    r.append(FOOTER);
    r
}

} // verus!

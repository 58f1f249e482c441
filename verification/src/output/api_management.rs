//! The detail table of the API key in use.

use vstd::prelude::*;
use vstd::string::*;
use crate::commands::api_management::KeyInfo;
use crate::output::{
    detail_field, detail_table, field_cells, print_detail_table, text_cell, text_or_dash, Field,
    FOOTER,
};

verus! {

/// The rows of the key's detail table: the plan; the usage record, where
/// there is one; and the message, where there is one that is not empty.
pub open spec fn key_info_cells(info: KeyInfo) -> Seq<Seq<Seq<char>>> {
    let plan = seq![seq!["Plan"@, text_or_dash(info.plan.deep_view())]];
    let used = match info.usage {
        Some(usage) => plan.push(seq!["Usage"@, usage@]),
        None => plan,
    };
    match info.message {
        Some(text) => if text@.len() > 0 {
            used.push(seq!["Message"@, text@])
        } else {
            used
        },
        None => used,
    }
}

/// The text shown for the API key in use: its detail table and the footer.
pub fn print_key_info(info: &KeyInfo) -> (r: String)
    ensures
        r@ == detail_table(key_info_cells(*info)) + "\n"@ + FOOTER@,
{
    let mut rows: Vec<Field> = Vec::new();
    assert(field_cells(rows@) =~= Seq::empty());
    detail_field(&mut rows, "Plan", text_cell(&info.plan));
    assert(field_cells(rows@) =~= seq![seq!["Plan"@, text_or_dash(info.plan.deep_view())]]);
    if let Some(usage) = &info.usage {
        detail_field(&mut rows, "Usage", usage.clone());
    }
    if let Some(msg) = &info.message {
        if !msg.as_str().is_empty() {
            detail_field(&mut rows, "Message", msg.clone());
        }
    }
    let mut r = print_detail_table(rows);
    r.append(FOOTER);
    r
}

} // verus!

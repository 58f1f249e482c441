//! The table of the health check.

use vstd::prelude::*;
use vstd::string::*;
use crate::commands::status::StatusResult;
use crate::output::{
    detail_field, detail_table, field_cells, print_detail_table, Field, FOOTER,
};
use crate::text::{decimal, owned, push_decimal};

verus! {

/// The rows of the health check: how the API answered and how fast, whether
/// a key is configured, and the plan that follows from that.
pub open spec fn status_cells(result: StatusResult) -> Seq<Seq<Seq<char>>> {
    seq![
        seq![
            "CoinPaprika API"@,
            result.coinpaprika.status@ + " ("@ + decimal(result.coinpaprika.response_time_ms as nat)
                + "ms)"@,
        ],
        seq![
            "API Key"@,
            if result.api_key_configured {
                "Configured"@
            } else {
                "Not set (free tier)"@
            },
        ],
        seq![
            "Plan"@,
            if result.api_key_configured {
                "Paid (run key-info for details)"@
            } else {
                "Free (20,000 calls/mo)"@
            },
        ],
    ]
}

/// The text shown for the health check: its detail table and the footer.
pub fn print_status(result: &StatusResult) -> (r: String)
    ensures
        r@ == detail_table(status_cells(*result)) + "\n"@ + FOOTER@,
{
    let mut rows: Vec<Field> = Vec::new();
    assert(field_cells(rows@) =~= Seq::empty());
    let mut api = result.coinpaprika.status.clone();
    api.append(" (");
    push_decimal(&mut api, result.coinpaprika.response_time_ms);
    api.append("ms)");
    detail_field(&mut rows, "CoinPaprika API", api);
    detail_field(
        &mut rows,
        "API Key",
        if result.api_key_configured {
            owned("Configured")
        } else {
            owned("Not set (free tier)")
        },
    );
    detail_field(
        &mut rows,
        "Plan",
        if result.api_key_configured {
            owned("Paid (run key-info for details)")
        } else {
            owned("Free (20,000 calls/mo)")
        },
    );
    assert(field_cells(rows@) =~= status_cells(*result));
    let mut r = print_detail_table(rows);
    r.append(FOOTER);
    r
}

} // verus!

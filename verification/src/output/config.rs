//! The table that shows the configuration in force.

use vstd::prelude::*;
use vstd::string::*;
use crate::client::{PRO_BASE, PUBLIC_BASE};
use crate::config::{mask_key, mask_key_spec, maskable};
use crate::output::{
    detail_field, detail_table, field_cells, print_detail_table, Field, FOOTER,
};
use crate::text::owned;

verus! {

/// The rows of the configuration table: where the file is, the key with
/// all but its ends hidden, where the key came from, and the endpoint that
/// follows from having a key or not.
pub open spec fn config_cells(
    config_path: Seq<char>,
    api_key: Option<Seq<char>>,
    key_source: Seq<char>,
) -> Seq<Seq<Seq<char>>> {
    seq![
        seq!["Config File"@, config_path],
        seq![
            "API Key"@,
            match api_key {
                Some(key) => mask_key_spec(key),
                None => "Not set"@,
            },
        ],
        seq!["Key Source"@, key_source],
        seq![
            "CoinPaprika URL"@,
            if api_key is Some {
                PRO_BASE@
            } else {
                PUBLIC_BASE@
            },
        ],
    ]
}

/// The text shown for the configuration in force: its detail table and the
/// footer.
pub fn print_config_show(config_path: &str, api_key: Option<&str>, key_source: &str) -> (r: String)
    requires
        api_key matches Some(key) ==> maskable(key@),
    ensures
        r@ == detail_table(config_cells(config_path@, api_key.deep_view(), key_source@)) + "\n"@
            + FOOTER@,
{
    let mut rows: Vec<Field> = Vec::new();
    assert(field_cells(rows@) =~= Seq::empty());
    detail_field(&mut rows, "Config File", owned(config_path));
    let shown = match api_key {
        Some(key) => mask_key(key),
        None => owned("Not set"),
    };
    detail_field(&mut rows, "API Key", shown);
    detail_field(&mut rows, "Key Source", owned(key_source));
    let base = if api_key.is_some() {
        owned(PRO_BASE)
    } else {
        owned(PUBLIC_BASE)
    };
    detail_field(&mut rows, "CoinPaprika URL", base);
    let ghost want = config_cells(config_path@, api_key.deep_view(), key_source@);
    assert(field_cells(rows@)[1] == want[1]);
    assert(field_cells(rows@)[3] == want[3]);
    assert(field_cells(rows@) =~= want);
    let mut r = print_detail_table(rows);
    r.append(FOOTER);
    r
}

} // verus!

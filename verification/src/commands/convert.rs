//! Conversion between two currencies.

use vstd::prelude::*;
use vstd::string::*;
use crate::commands::{no_params, push_param, Endpoint, EndpointView};
use crate::text::{decimal, owned};

verus! {

/// The outcome of a conversion. Quantities are held as the texts that show
/// them.
#[derive(Debug)]
pub struct ConvertResult {
    pub base_currency_id: Option<String>,
    pub base_currency_name: Option<String>,
    pub base_price_last_updated: Option<String>,
    pub quote_currency_id: Option<String>,
    pub quote_currency_name: Option<String>,
    pub quote_price_last_updated: Option<String>,
    pub amount: Option<String>,
    pub price: Option<String>,
}

/// The price of `amount` units of one currency in another. The amount is
/// given as the decimal text that is sent.
pub open spec fn convert_endpoint(
    base_id: Seq<char>,
    quote_id: Seq<char>,
    amount: Seq<char>,
) -> EndpointView {
    EndpointView {
        path: "/price-converter"@,
        params: seq![
            ("base_currency_id"@, base_id),
            ("quote_currency_id"@, quote_id),
            ("amount"@, amount),
        ],
        entity_path: "/convert"@,
        keep: None,
    }
}

/// The first step of the command: the request that `convert_endpoint` describes.
pub fn execute(base_id: &str, quote_id: &str, amount: &str) -> (e: Endpoint)
    ensures
        e@ == convert_endpoint(base_id@, quote_id@, amount@),
{
    let mut params = no_params();
    push_param(&mut params, "base_currency_id", base_id);
    push_param(&mut params, "quote_currency_id", quote_id);
    push_param(&mut params, "amount", amount);
    let e = Endpoint {
        path: owned("/price-converter"),
        params,
        entity_path: owned("/convert"),
        keep: None,
    };
    proof {
        assert(e@.params =~= convert_endpoint(base_id@, quote_id@, amount@).params);
    }
    e
}

} // verus!

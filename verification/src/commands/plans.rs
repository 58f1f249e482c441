//! What the free tier holds, and where the paid plans are found.

use vstd::prelude::*;
use vstd::string::*;
use crate::output::{
    is_utc_stamp, json_output, print_json_wrapped, OutputFormat, ResponseMeta,
};
use crate::text::owned;

verus! {

/// Path of the plans on the site, for the provenance of JSON output.
pub const PLANS_ENTITY: &'static str = "/plans";

/// The plans as table mode writes them.
pub const PLANS_TEXT: &'static str =
    "\n\
     \x20 ─── Free tier ($0/mo, no API key needed) ───\n\
     \n\
     \x20 Rate limits\n\
     \x20   20,000 calls/month\n\
     \x20   Data updates every ~10 minutes\n\
     \n\
     \x20 Coverage\n\
     \x20   25+ endpoints\n\
     \x20   2,000 assets\n\
     \x20   Personal use\n\
     \n\
     \x20 Historical data\n\
     \x20   Daily OHLCV:    up to 1 year back\n\
     \x20   Hourly OHLCV:   last 24 hours\n\
     \x20   OHLCV interval: 24h only\n\
     \x20   5-min / ticker history: not available\n\
     \n\
     \x20 Not included\n\
     \x20   Circulating supply\n\
     \x20   API ID mappings\n\
     \x20   WebSockets\n\
     \x20   Redistribution rights\n\
     \x20   SLA / dedicated infrastructure\n\
     \n\
     \x20 ─── Need more? ───\n\
     \n\
     \x20 Paid plans add: full history, 5-min intervals, circulating supply,\n\
     \x20 higher limits, WebSockets, commercial use, and priority support.\n\
     \n\
     \x20 See current pricing:  https://coinpaprika.com/api/pricing\n\
     \x20 Set your API key:     coinpaprika-cli config set-key <KEY>\n\
     \n";

/// The plans as a JSON payload.
pub const PLANS_JSON: &'static str =
    "{\n\
     \x20 \"free_tier\": {\n\
     \x20   \"rate_limit\": \"20,000 calls/month\",\n\
     \x20   \"update_frequency\": \"~10 minutes\",\n\
     \x20   \"endpoints\": \"25+\",\n\
     \x20   \"assets\": \"2,000\",\n\
     \x20   \"use_case\": \"Personal\",\n\
     \x20   \"daily_ohlcv_history\": \"up to 1 year back\",\n\
     \x20   \"hourly_ohlcv\": \"last 24 hours\",\n\
     \x20   \"ohlcv_intervals\": \"24h only\",\n\
     \x20   \"ticker_history\": false,\n\
     \x20   \"circulating_supply\": false,\n\
     \x20   \"api_id_mappings\": false,\n\
     \x20   \"websockets\": false,\n\
     \x20   \"redistribution\": false,\n\
     \x20   \"sla\": false\n\
     \x20 },\n\
     \x20 \"paid_plans_url\": \"https://coinpaprika.com/api/pricing\",\n\
     \x20 \"set_key_command\": \"coinpaprika-cli config set-key <KEY>\"\n\
     }";

/// What the command writes: the plans as text in table mode, and as a JSON
/// document with the given provenance in JSON mode.
pub open spec fn plans_output(output: OutputFormat, meta: ResponseMeta, raw: bool) -> Seq<char> {
    match output {
        OutputFormat::Table => PLANS_TEXT@,
        OutputFormat::Json => json_output(PLANS_JSON@, meta, raw),
    }
}

/// The text of the command for a provenance that is given.
pub fn render(output: OutputFormat, meta: ResponseMeta, raw: bool) -> (r: String)
    ensures
        r@ == plans_output(output, meta, raw),
{
    match output {
        OutputFormat::Table => owned(PLANS_TEXT),
        OutputFormat::Json => print_json_wrapped(PLANS_JSON, meta, raw),
    }
}

/// The text of the command, with the provenance stamped now.
pub fn execute(output: OutputFormat, raw: bool) -> (r: String)
    ensures
        exists|meta: ResponseMeta|
            (meta.describes(PLANS_ENTITY@) && is_utc_stamp(meta.timestamp@)
                && r@ == plans_output(output, meta, raw)),
{
    let meta = ResponseMeta::coinpaprika(PLANS_ENTITY);
    let ghost stamped = meta;
    let r = render(output, meta, raw);
    assert(stamped.describes(PLANS_ENTITY@) && is_utc_stamp(stamped.timestamp@)
        && r@ == plans_output(output, stamped, raw));
    r
}

} // verus!

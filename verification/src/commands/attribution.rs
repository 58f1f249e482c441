//! Snippets with which a site can name CoinPaprika as its source of data.

use vstd::prelude::*;
use vstd::string::*;
use crate::output::{
    is_utc_stamp, json_output, print_json_wrapped, OutputFormat, ResponseMeta,
};
use crate::text::owned;

verus! {

/// Path of the snippets on the site, for the provenance of JSON output.
pub const ATTRIBUTION_ENTITY: &'static str = "/attribution";

/// The snippets as table mode writes them.
pub const ATTRIBUTION_TEXT: &'static str =
    "  ─── CoinPaprika attribution snippets (copy & paste) ───\n\n\
     \x20 HTML:\n\
     \x20   <a href=\"https://coinpaprika.com\">Powered by CoinPaprika</a>\n\n\
     \x20 React/JSX:\n\
     \x20   <a href=\"https://coinpaprika.com\" target=\"_blank\" rel=\"noopener\">\n\
     \x20     Powered by CoinPaprika\n\
     \x20   </a>\n\n\
     \x20 Markdown:\n\
     \x20   [Powered by CoinPaprika](https://coinpaprika.com)\n\n\
     \x20 Plain text:\n\
     \x20   Data provided by CoinPaprika (https://coinpaprika.com)\n\n\
     \x20 GitHub README badge:\n\
     \x20   [![CoinPaprika](https://img.shields.io/badge/data-CoinPaprika-green)](https://coinpaprika.com)\n\n\
     \x20 Data is free forever. Attribution is appreciated, not required.\n\
     \x20 API: api.coinpaprika.com\n";

/// The snippets as a JSON payload.
pub const ATTRIBUTION_JSON: &'static str =
    "{\n\
     \x20 \"name\": \"CoinPaprika\",\n\
     \x20 \"url\": \"https://coinpaprika.com\",\n\
     \x20 \"api\": \"https://api.coinpaprika.com\",\n\
     \x20 \"html\": \"<a href=\\\"https://coinpaprika.com\\\">Powered by CoinPaprika</a>\",\n\
     \x20 \"markdown\": \"[Powered by CoinPaprika](https://coinpaprika.com)\",\n\
     \x20 \"badge\": \"https://img.shields.io/badge/data-CoinPaprika-green\"\n\
     }";

/// What the command writes: the snippets as text in table mode, and as a
/// JSON document with the given provenance in JSON mode.
pub open spec fn attribution_output(output: OutputFormat, meta: ResponseMeta, raw: bool) -> Seq<
    char,
> {
    match output {
        OutputFormat::Table => ATTRIBUTION_TEXT@,
        OutputFormat::Json => json_output(ATTRIBUTION_JSON@, meta, raw),
    }
}

/// The text of the command for a provenance that is given.
pub fn render(output: OutputFormat, meta: ResponseMeta, raw: bool) -> (r: String)
    ensures
        r@ == attribution_output(output, meta, raw),
{
    match output {
        OutputFormat::Table => owned(ATTRIBUTION_TEXT),
        OutputFormat::Json => print_json_wrapped(ATTRIBUTION_JSON, meta, raw),
    }
}

/// The text of the command, with the provenance stamped now.
pub fn execute(output: OutputFormat, raw: bool) -> (r: String)
    ensures
        exists|meta: ResponseMeta|
            (meta.describes(ATTRIBUTION_ENTITY@) && is_utc_stamp(meta.timestamp@)
                && r@ == attribution_output(output, meta, raw)),
{
    let meta = ResponseMeta::coinpaprika(ATTRIBUTION_ENTITY);
    let ghost stamped = meta;
    let r = render(output, meta, raw);
    assert(stamped.describes(ATTRIBUTION_ENTITY@) && is_utc_stamp(stamped.timestamp@)
        && r@ == attribution_output(output, stamped, raw));
    r
}

} // verus!

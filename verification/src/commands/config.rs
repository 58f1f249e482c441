//! Managing the configuration: showing it, storing a key, and resetting it.

use vstd::prelude::*;
use vstd::string::*;
use crate::client::{PRO_BASE, PUBLIC_BASE};
use crate::config::{mask_key, mask_key_spec, maskable};
use crate::text::owned;

verus! {

/// What can be done with the configuration.
#[derive(Debug)]
pub enum ConfigCommand {
    /// Show the configuration in force.
    Show,
    /// Store an API key.
    SetKey { key: String },
    /// Delete the stored configuration.
    Reset,
}

/// The configuration in force, as JSON mode reports it.
#[derive(Debug)]
pub struct ConfigInfo {
    pub config_file: String,
    /// The key with all but its ends hidden.
    pub api_key: Option<String>,
    pub key_source: String,
    pub coinpaprika_url: String,
}

/// Path of the configuration on the site, for the provenance of JSON output.
pub const CONFIG_ENTITY: &'static str = "/config";

/// Written after the configuration was deleted.
pub const CONFIG_DELETED_TEXT: &'static str = "Configuration deleted.\n";

/// A key as a report shows it.
pub open spec fn masked(api_key: Option<Seq<char>>) -> Option<Seq<char>> {
    match api_key {
        Some(key) => Some(mask_key_spec(key)),
        None => None,
    }
}

/// The report on the configuration in force: the key never appears in
/// full, and the endpoint follows from having a key or not.
pub fn config_info(config_path: &str, api_key: Option<&str>, key_source: &str) -> (info: ConfigInfo)
    requires
        api_key matches Some(key) ==> maskable(key@),
    ensures
        info.config_file@ == config_path@,
        info.api_key.deep_view() == masked(api_key.deep_view()),
        info.key_source@ == key_source@,
        info.coinpaprika_url@ == if api_key is Some {
            PRO_BASE@
        } else {
            PUBLIC_BASE@
        },
{
    let shown = match api_key {
        Some(key) => Some(mask_key(key)),
        None => None,
    };
    let url = if api_key.is_some() {
        owned(PRO_BASE)
    } else {
        owned(PUBLIC_BASE)
    };
    ConfigInfo {
        config_file: owned(config_path),
        api_key: shown,
        key_source: owned(key_source),
        coinpaprika_url: url,
    }
}

/// The line that says where a key was stored.
pub fn print_key_stored(config_path: &str) -> (r: String)
    ensures
        r@ == "API key saved to "@ + config_path@ + "\n"@,
{
    let mut r = owned("API key saved to ");
    r.append(config_path);
    r.append("\n");
    r
}

/// The text written after a key was stored: where it went, and the key
/// with all but its ends hidden.
pub fn print_key_saved(config_path: &str, key: &str) -> (r: String)
    requires
        maskable(key@),
    ensures
        r@ == "API key saved to "@ + config_path@ + "\n"@ + "Key: "@ + mask_key_spec(key@)
            + "\n"@,
{
    let mut r = print_key_stored(config_path);
    r.append("Key: ");
    let shown = mask_key(key);
    r.append(shown.as_str());
    r.append("\n");
    r
}

} // verus!

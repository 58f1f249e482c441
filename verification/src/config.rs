//! Credentials: which API key is in force, where it came from, and how it is
//! shown. Reading the environment and the configuration file is the caller's
//! part; what was found there comes in as plain values.

use vstd::prelude::*;
use vstd::string::*;
use vstd::utf8::{encode_utf8, is_ascii_chars};
use crate::output::{json_quote, json_string};
use crate::text::{byte_len, can_cut, ends_of, keep_ends, lemma_ends_of_ascii, owned};

verus! {

/// What the configuration file holds.
#[derive(Debug)]
pub struct Config {
    pub api_key: Option<String>,
}

/// Where the API key in force came from.
#[derive(Clone, Copy, Debug, PartialEq, Eq, Structural)]
pub enum KeySource {
    /// Given on the command line.
    CliFlag,
    /// Found in the environment variable.
    Environment,
    /// Found in the configuration file.
    ConfigFile,
    /// No key anywhere: the free tier is used.
    NotSet,
}

/// An API key, if one is in force, and where it came from.
#[derive(Debug)]
pub struct Credential {
    pub key: Option<String>,
    pub source: KeySource,
}

/// Directory below the home directory that holds the configuration.
pub const CONFIG_DIR_NAME: &'static str = ".coinpaprika";

/// Name of the configuration file in its directory.
pub const CONFIG_FILE_NAME: &'static str = "config.json";

/// Told to the user when the home directory cannot be found.
pub const NO_HOME_TEXT: &'static str = "Could not determine home directory";

/// Told to the user when the configuration file cannot be understood.
pub const UNREADABLE_CONFIG_TEXT: &'static str = "Failed to parse config file";

/// Permissions of the configuration directory: the owner alone.
pub const CONFIG_DIR_MODE: u32 = 0o700;

/// Permissions of the configuration file: the owner alone, to read and write.
pub const CONFIG_FILE_MODE: u32 = 0o600;

/// Name of the environment variable that may hold an API key.
pub const API_KEY_VARIABLE: &'static str = "COINPAPRIKA_API_KEY";

/// How the command-line flag is named to the user.
pub const CLI_FLAG_LABEL: &'static str = "CLI flag (--api-key)";

/// How the environment variable is named to the user.
pub const ENVIRONMENT_LABEL: &'static str = "Environment variable (COINPAPRIKA_API_KEY)";

/// How the configuration file is named to the user.
pub const CONFIG_FILE_LABEL: &'static str = "Config file (~/.coinpaprika/config.json)";

/// What the user is told when no key is set.
pub const NOT_SET_LABEL: &'static str = "Not set (using free tier)";

/// What is shown in place of a key too short to show in part.
pub const MASK: &'static str = "****";

/// Longest key, in bytes, of which nothing is shown.
pub const MASK_LIMIT: usize = 8;

/// Whether a source offers a key: it is there and not empty.
pub open spec fn offers(key: Option<Seq<char>>) -> bool {
    key matches Some(k) && k.len() > 0
}

/// The key that the configuration file offers; a file that could not be
/// read or understood offers none.
pub open spec fn file_key(config: Option<&Config>) -> Option<Seq<char>> {
    match config {
        Some(c) => c.api_key.deep_view(),
        None => None,
    }
}

/// The source whose key is in force: the command line before the
/// environment, the environment before the configuration file.
pub open spec fn active_source(
    cli: Option<Seq<char>>,
    env: Option<Seq<char>>,
    file: Option<Seq<char>>,
) -> KeySource {
    if offers(cli) {
        KeySource::CliFlag
    } else if offers(env) {
        KeySource::Environment
    } else if offers(file) {
        KeySource::ConfigFile
    } else {
        KeySource::NotSet
    }
}

/// The key in force: that of the active source.
pub open spec fn active_key(
    cli: Option<Seq<char>>,
    env: Option<Seq<char>>,
    file: Option<Seq<char>>,
) -> Option<Seq<char>> {
    match active_source(cli, env, file) {
        KeySource::CliFlag => cli,
        KeySource::Environment => env,
        KeySource::ConfigFile => file,
        KeySource::NotSet => None,
    }
}

impl KeySource {
    /// How this source is named to the user.
    pub open spec fn label_spec(self) -> Seq<char> {
        match self {
            KeySource::CliFlag => CLI_FLAG_LABEL@,
            KeySource::Environment => ENVIRONMENT_LABEL@,
            KeySource::ConfigFile => CONFIG_FILE_LABEL@,
            KeySource::NotSet => NOT_SET_LABEL@,
        }
    }

    /// How this source is named to the user.
    pub fn label(self) -> (r: &'static str)
        ensures
            r@ == self.label_spec(),
    {
        match self {
            KeySource::CliFlag => CLI_FLAG_LABEL,
            KeySource::Environment => ENVIRONMENT_LABEL,
            KeySource::ConfigFile => CONFIG_FILE_LABEL,
            KeySource::NotSet => NOT_SET_LABEL,
        }
    }
}

fn on_offer(key: Option<&str>) -> (r: bool)
    ensures
        r == offers(key.deep_view()),
{
    match key {
        Some(k) => !k.is_empty(),
        None => false,
    }
}

fn key_in_file<'a>(config: Option<&'a Config>) -> (r: Option<&'a str>)
    ensures
        r.deep_view() == file_key(config),
{
    match config {
        Some(c) => match &c.api_key {
            Some(k) => Some(k.as_str()),
            None => None,
        },
        None => None,
    }
}

/// Resolves the API key in force from what the three sources hold: the
/// value given on the command line, the value of the environment variable,
/// and the configuration file as it was loaded (`None` where it is missing
/// or cannot be understood). An empty value counts as absent. Without a key
/// the free tier is used; this never fails.
pub fn resolve_api_key(
    cli_key: Option<&str>,
    env_key: Option<&str>,
    config: Option<&Config>,
) -> (key: Option<String>)
    ensures
        key.deep_view() == active_key(cli_key.deep_view(), env_key.deep_view(), file_key(config)),
{
    resolve_credential(cli_key, env_key, config).key
}

/// Names the source of the API key in force, by the same precedence as
/// `resolve_api_key`.
pub fn key_source(
    cli_key: Option<&str>,
    env_key: Option<&str>,
    config: Option<&Config>,
) -> (label: &'static str)
    ensures
        label@ == active_source(
            cli_key.deep_view(),
            env_key.deep_view(),
            file_key(config),
        ).label_spec(),
{
    resolve_credential(cli_key, env_key, config).source.label()
}

/// Resolves the API key in force together with its source.
pub fn resolve_credential(
    cli_key: Option<&str>,
    env_key: Option<&str>,
    config: Option<&Config>,
) -> (credential: Credential)
    ensures
        credential.source == active_source(
            cli_key.deep_view(),
            env_key.deep_view(),
            file_key(config),
        ),
        credential.key.deep_view() == active_key(
            cli_key.deep_view(),
            env_key.deep_view(),
            file_key(config),
        ),
{
    let stored = key_in_file(config);
    if on_offer(cli_key) {
        Credential { key: Some(owned(cli_key.unwrap())), source: KeySource::CliFlag }
    } else if on_offer(env_key) {
        Credential { key: Some(owned(env_key.unwrap())), source: KeySource::Environment }
    } else if on_offer(stored) {
        Credential { key: Some(owned(stored.unwrap())), source: KeySource::ConfigFile }
    } else {
        Credential { key: None, source: KeySource::NotSet }
    }
}

/// The key and its source go together: a key is in force exactly when a
/// source is named, it is the key which that source holds, and it is never
/// empty.
pub proof fn lemma_key_and_source_in_lockstep(
    cli: Option<Seq<char>>,
    env: Option<Seq<char>>,
    file: Option<Seq<char>>,
)
    ensures
        active_key(cli, env, file) is Some <==> active_source(cli, env, file) != KeySource::NotSet,
        active_source(cli, env, file) == KeySource::CliFlag ==> active_key(cli, env, file) == cli,
        active_source(cli, env, file) == KeySource::Environment ==> active_key(cli, env, file)
            == env,
        active_source(cli, env, file) == KeySource::ConfigFile ==> active_key(cli, env, file)
            == file,
        active_key(cli, env, file) matches Some(k) ==> k.len() > 0,
{
}

/// No two sources are named alike, so the name tells the source.
pub proof fn lemma_labels_differ(a: KeySource, b: KeySource)
    requires
        a != b,
    ensures
        a.label_spec() != b.label_spec(),
{
    reveal_strlit("CLI flag (--api-key)");
    reveal_strlit("Environment variable (COINPAPRIKA_API_KEY)");
    reveal_strlit("Config file (~/.coinpaprika/config.json)");
    reveal_strlit("Not set (using free tier)");
    assert(CLI_FLAG_LABEL@[1] == 'L');
    assert(ENVIRONMENT_LABEL@[0] == 'E');
    assert(CONFIG_FILE_LABEL@[0] == 'C' && CONFIG_FILE_LABEL@[1] == 'o');
    assert(NOT_SET_LABEL@[0] == 'N');
    assert(CLI_FLAG_LABEL@[0] == 'C');
}

/// Precedence: a key on the command line wins over all others, one in the
/// environment over the file, and the file over nothing; where no source
/// offers a key, none is in force.
pub proof fn lemma_precedence(
    cli: Option<Seq<char>>,
    env: Option<Seq<char>>,
    file: Option<Seq<char>>,
)
    ensures
        offers(cli) ==> active_key(cli, env, file) == cli,
        !offers(cli) && offers(env) ==> active_key(cli, env, file) == env,
        !offers(cli) && !offers(env) && offers(file) ==> active_key(cli, env, file) == file,
        !offers(cli) && !offers(env) && !offers(file) ==> active_key(cli, env, file) is None,
{
}

/// The configuration file that stores `key`: one JSON object with the
/// member `api_key`.
pub open spec fn stored_config(key: Seq<char>) -> Seq<char> {
    "{\n  \"api_key\": "@ + json_string(key) + "\n}"@
}

/// The text of the configuration file that stores `key`. The file is
/// written as a whole.
pub fn stored_config_text(key: &str) -> (r: String)
    ensures
        r@ == stored_config(key@),
{
    let mut r = owned("{\n  \"api_key\": ");
    let quoted = json_quote(key);
    r.append(quoted.as_str());
    r.append("\n}");
    r
}

/// A key as it is shown: hidden altogether if it takes at most eight bytes,
/// else its first four bytes, three dots and its last four bytes.
pub open spec fn mask_key_spec(key: Seq<char>) -> Seq<char> {
    if encode_utf8(key).len() <= MASK_LIMIT {
        MASK@
    } else {
        ends_of(key, 4, 4)
    }
}

/// Whether a key can be shown in part: a long key must allow a cut after
/// its fourth byte and before its fourth byte from the end. Every ASCII key
/// does.
pub open spec fn maskable(key: Seq<char>) -> bool {
    encode_utf8(key).len() > MASK_LIMIT ==> can_cut(key, 4, 4)
}

/// Tells whether `mask_key` accepts a key.
pub fn is_maskable(key: &str) -> (r: bool)
    ensures
        r == maskable(key@),
{
    let len = byte_len(key);
    if len <= MASK_LIMIT {
        true
    } else {
        key.is_char_boundary(4) && key.is_char_boundary(len - 4)
    }
}

/// Hides all of a key but its ends.
pub fn mask_key(key: &str) -> (r: String)
    requires
        maskable(key@),
    ensures
        r@ == mask_key_spec(key@),
{
    if byte_len(key) <= MASK_LIMIT {
        owned(MASK)
    } else {
        keep_ends(key, 4, 4)
    }
}

/// An ASCII key can always be shown in part, and comes out as its first
/// four characters, three dots and its last four characters.
pub proof fn lemma_mask_key_ascii(key: Seq<char>)
    requires
        is_ascii_chars(key),
    ensures
        maskable(key),
        key.len() <= 8 ==> mask_key_spec(key) == MASK@,
        key.len() > 8 ==> mask_key_spec(key) == key.subrange(0, 4) + "..."@ + key.subrange(
            key.len() - 4,
            key.len() as int,
        ),
{
    if key.len() >= 4 {
        lemma_ends_of_ascii(key, 4, 4);
    } else {
        lemma_ends_of_ascii(key, 0, 0);
    }
}

} // verus!

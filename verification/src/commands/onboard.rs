//! The setup wizard, as a machine: it is handed what happened and says what
//! to write and what to do next. Reading, asking the API and storing the key
//! are the caller's part.

use vstd::prelude::*;
use vstd::string::*;
use crate::config::{mask_key, mask_key_spec, maskable};
use crate::text::{lowercase, owned, str_eq, to_lowercase, trim, trim_spec};

verus! {

/// Greeting and first question of the wizard.
pub const WELCOME_TEXT: &'static str =
    "┌─────────────────────────────────────────────────┐\n\
     │  Welcome to coinpaprika-cli!                    │\n\
     │  Crypto market data for developers & AI agents  │\n\
     └─────────────────────────────────────────────────┘\n\
     \n\
     Do you have a CoinPaprika API key? (y/n)\n";

/// Asks for the key.
pub const PASTE_KEY_TEXT: &'static str = "\nPaste your API key:\n";

/// Written when the user gave an empty key.
pub const NO_KEY_ENTERED_TEXT: &'static str =
    "No key entered. You can set it later with:\n\
     \x20 coinpaprika-cli config set-key <YOUR_KEY>\n";

/// Written before the key is tried on the API.
pub const VALIDATING_TEXT: &'static str = "Validating key...\n";

/// Written when the API did not accept the key.
pub const NOT_VALIDATED_TEXT: &'static str =
    "Could not validate key (it may still work). Saving anyway.\n";

/// Written for a user who has no key.
pub const FREE_TIER_INTRO_TEXT: &'static str =
    "\n\
     No problem! The free tier works without an API key.\n\
     20,000 calls/month, 25+ endpoints, 2,000 assets.\n\
     \n\
     Run coinpaprika-cli plans to see exactly what's included.\n\
     \n\
     For historical data, ticker history, and higher limits:\n\
     \x20 https://coinpaprika.com/api/pricing\n";

/// Closing words after the questions.
pub const ALL_SET_TEXT: &'static str =
    "\n\
     You're all set! Try these commands:\n\
     \x20 coinpaprika-cli ticker btc-bitcoin      # get Bitcoin price\n\
     \x20 coinpaprika-cli global                   # market overview\n\
     \x20 coinpaprika-cli search ethereum          # find coins\n\
     \n";

/// Closing words when the key came with the command.
pub const ALL_SET_BRIEF_TEXT: &'static str =
    "\nYou're all set! Try these commands:\n\
     \x20 coinpaprika-cli ticker btc-bitcoin\n\
     \x20 coinpaprika-cli global\n\
     \x20 coinpaprika-cli search ethereum\n";

/// The plan that is named when the API's record names none.
pub const UNKNOWN_PLAN: &'static str = "unknown";

/// Where the wizard stands.
#[derive(Debug)]
pub enum OnboardState {
    /// Nothing has happened yet.
    Start,
    /// The user was asked whether they have a key.
    AskedForAnswer,
    /// The user was asked for the key.
    AskedForKey,
    /// The key is being tried on the API. `asked` tells whether the key was
    /// asked for, rather than given with the command.
    Validating { key: String, asked: bool },
    /// The key is being stored. `plan` is the plan that the API named for
    /// the key, or `None` where the API did not accept it.
    Saving { key: String, asked: bool, plan: Option<String> },
    /// The wizard has ended.
    Done,
}

/// What happened.
#[derive(Debug)]
pub enum OnboardEvent {
    /// The wizard was started, with a key or without.
    Begin { key: Option<String> },
    /// The user typed a line.
    Line(String),
    /// The API accepted the key; `plan` is the plan that its record names.
    Validated { plan: Option<String> },
    /// The API did not accept the key, or could not be reached.
    NotValidated,
    /// The key was stored in the file at `path`.
    Saved { path: String },
}

/// What the caller does next, after writing the text.
#[derive(Debug)]
pub enum OnboardAction {
    /// Read a line from the user and hand it back.
    ReadLine,
    /// Ask the API for the record of this key and hand back the outcome.
    Validate(String),
    /// Store this key and hand back where it went; a failure to store ends
    /// the wizard with that failure.
    Save(String),
    /// Nothing: the wizard has ended.
    Finish,
}

/// One step of the wizard.
#[derive(Debug)]
pub struct OnboardStep {
    /// Where the wizard stands after the step.
    pub state: OnboardState,
    /// Text to write on standard output.
    pub text: String,
    /// What to do after writing.
    pub action: OnboardAction,
}

impl OnboardState {
    /// Whether `event` is what the wizard waits for in this state. A key
    /// that was given with the command is shown once it is stored, with all
    /// but its ends hidden, so by then it must allow that.
    pub open spec fn expects(self, event: OnboardEvent) -> bool {
        match self {
            OnboardState::Start => event is Begin,
            OnboardState::AskedForAnswer => event is Line,
            OnboardState::AskedForKey => event is Line,
            OnboardState::Validating { .. } => event is Validated || event is NotValidated,
            OnboardState::Saving { key, asked, .. } => event is Saved && (!asked ==> maskable(
                key@,
            )),
            OnboardState::Done => false,
        }
    }
}

/// Whether a line says yes.
pub open spec fn says_yes(line: Seq<char>) -> bool {
    lowercase(trim_spec(line)) == "y"@ || lowercase(trim_spec(line)) == "yes"@
}

/// The plan as it is named to the user.
pub open spec fn plan_name(plan: Option<String>) -> Seq<char> {
    match plan {
        Some(name) => name@,
        None => UNKNOWN_PLAN@,
    }
}

/// What is written first once the key is stored: the plan, where the API
/// accepted the key, and where the key went.
pub open spec fn stored_text(plan: Option<String>, path: Seq<char>) -> Seq<char> {
    let validated = match plan {
        Some(name) => "Key validated! Plan: "@ + name@ + "\n"@,
        None => Seq::empty(),
    };
    validated + "Saved to "@ + path + "\n"@
}

/// What is written once the key is stored: the plan and where the key went;
/// the key with all but its ends hidden, where it came with the command;
/// and the closing words.
pub open spec fn saved_text(
    key: Seq<char>,
    asked: bool,
    plan: Option<String>,
    path: Seq<char>,
) -> Seq<char> {
    if asked {
        stored_text(plan, path) + ALL_SET_TEXT@
    } else {
        stored_text(plan, path) + "Key: "@ + mask_key_spec(key) + "\n"@ + ALL_SET_BRIEF_TEXT@
    }
}

/// The text that says under which plan a key was accepted, if it was, and
/// where it was stored.
pub fn print_stored(plan: &Option<String>, path: &str) -> (r: String)
    ensures
        r@ == stored_text(*plan, path@),
{
    let mut r = String::new();
    if let Some(name) = plan {
        r.append("Key validated! Plan: ");
        r.append(name.as_str());
        r.append("\n");
    }
    r.append("Saved to ");
    r.append(path);
    r.append("\n");
    r
}

/// The step that follows `event` in `state`.
pub open spec fn step_matches(state: OnboardState, event: OnboardEvent, step: OnboardStep) -> bool {
    match (state, event) {
        (OnboardState::Start, OnboardEvent::Begin { key: Some(key) }) => {
            &&& step.text@ == VALIDATING_TEXT@
            &&& step.action == OnboardAction::Validate(key)
            &&& step.state == (OnboardState::Validating { key, asked: false })
        },
        (OnboardState::Start, OnboardEvent::Begin { key: None }) => {
            &&& step.text@ == WELCOME_TEXT@
            &&& step.action is ReadLine
            &&& step.state is AskedForAnswer
        },
        (OnboardState::AskedForAnswer, OnboardEvent::Line(line)) => if says_yes(line@) {
            &&& step.text@ == PASTE_KEY_TEXT@
            &&& step.action is ReadLine
            &&& step.state is AskedForKey
        } else {
            &&& step.text@ == FREE_TIER_INTRO_TEXT@ + ALL_SET_TEXT@
            &&& step.action is Finish
            &&& step.state is Done
        },
        (OnboardState::AskedForKey, OnboardEvent::Line(line)) => if trim_spec(line@).len() == 0 {
            &&& step.text@ == NO_KEY_ENTERED_TEXT@
            &&& step.action is Finish
            &&& step.state is Done
        } else {
            &&& step.text@ == VALIDATING_TEXT@
            &&& step.action matches OnboardAction::Validate(key)
            &&& key@ == trim_spec(line@)
            &&& step.state matches OnboardState::Validating { key: held, asked }
            &&& held@ == trim_spec(line@)
            &&& asked
        },
        (OnboardState::Validating { key, asked }, OnboardEvent::Validated { plan }) => {
            &&& step.text@ == Seq::<char>::empty()
            &&& step.action matches OnboardAction::Save(stored)
            &&& stored@ == key@
            &&& step.state matches OnboardState::Saving { key: held, asked: same, plan: named }
            &&& held == key
            &&& same == asked
            &&& named matches Some(name)
            &&& name@ == plan_name(plan)
        },
        (OnboardState::Validating { key, asked }, OnboardEvent::NotValidated) => {
            &&& step.text@ == NOT_VALIDATED_TEXT@
            &&& step.action matches OnboardAction::Save(stored)
            &&& stored@ == key@
            &&& step.state == (OnboardState::Saving { key, asked, plan: None })
        },
        (OnboardState::Saving { key, asked, plan }, OnboardEvent::Saved { path }) => {
            &&& step.text@ == saved_text(key@, asked, plan, path@)
            &&& step.action is Finish
            &&& step.state is Done
        },
        _ => false,
    }
}

/// Carries the wizard one step on: given where it stands and what has
/// just happened, says what to write and what to do next.
pub fn execute(state: OnboardState, event: OnboardEvent) -> (step: OnboardStep)
    requires
        state.expects(event),
    ensures
        step_matches(state, event, step),
{
    match state {
        OnboardState::Start => match event {
            OnboardEvent::Begin { key: Some(key) } => OnboardStep {
                text: owned(VALIDATING_TEXT),
                action: OnboardAction::Validate(key.clone()),
                state: OnboardState::Validating { key, asked: false },
            },
            _ => OnboardStep {
                text: owned(WELCOME_TEXT),
                action: OnboardAction::ReadLine,
                state: OnboardState::AskedForAnswer,
            },
        },
        OnboardState::AskedForAnswer => match event {
            OnboardEvent::Line(line) => {
                let answer = to_lowercase(trim(line.as_str()));
                if str_eq(answer.as_str(), "y") || str_eq(answer.as_str(), "yes") {
                    OnboardStep {
                        text: owned(PASTE_KEY_TEXT),
                        action: OnboardAction::ReadLine,
                        state: OnboardState::AskedForKey,
                    }
                } else {
                    let mut text = owned(FREE_TIER_INTRO_TEXT);
                    text.append(ALL_SET_TEXT);
                    OnboardStep { text, action: OnboardAction::Finish, state: OnboardState::Done }
                }
            },
            _ => ended(),
        },
        OnboardState::AskedForKey => match event {
            OnboardEvent::Line(line) => {
                let key = trim(line.as_str());
                if key.is_empty() {
                    OnboardStep {
                        text: owned(NO_KEY_ENTERED_TEXT),
                        action: OnboardAction::Finish,
                        state: OnboardState::Done,
                    }
                } else {
                    OnboardStep {
                        text: owned(VALIDATING_TEXT),
                        action: OnboardAction::Validate(owned(key)),
                        state: OnboardState::Validating { key: owned(key), asked: true },
                    }
                }
            },
            _ => ended(),
        },
        OnboardState::Validating { key, asked } => match event {
            OnboardEvent::Validated { plan } => {
                let name = match plan {
                    Some(name) => name,
                    None => owned(UNKNOWN_PLAN),
                };
                OnboardStep {
                    text: String::new(),
                    action: OnboardAction::Save(key.clone()),
                    state: OnboardState::Saving { key, asked, plan: Some(name) },
                }
            },
            _ => OnboardStep {
                text: owned(NOT_VALIDATED_TEXT),
                action: OnboardAction::Save(key.clone()),
                state: OnboardState::Saving { key, asked, plan: None },
            },
        },
        OnboardState::Saving { key, asked, plan } => match event {
            OnboardEvent::Saved { path } => {
                let mut text = print_stored(&plan, path.as_str());
                if asked {
                    text.append(ALL_SET_TEXT);
                } else {
                    text.append("Key: ");
                    let shown = mask_key(key.as_str());
                    text.append(shown.as_str());
                    text.append("\n");
                    text.append(ALL_SET_BRIEF_TEXT);
                }
                assert(text@ =~= saved_text(key@, asked, plan, path@));
                OnboardStep { text, action: OnboardAction::Finish, state: OnboardState::Done }
            },
            _ => ended(),
        },
        OnboardState::Done => ended(),
    }
}

/// The step that ends the wizard without a word.
fn ended() -> (step: OnboardStep)
    ensures
        step.state is Done,
        step.action is Finish,
        step.text@ == Seq::<char>::empty(),
{
    OnboardStep { text: String::new(), action: OnboardAction::Finish, state: OnboardState::Done }
}

} // verus!

//! Line handling of the interactive shell: splitting a line into arguments
//! and deciding what the loop does with each thing it reads and with the
//! outcome of each command it runs.

use vstd::prelude::*;
use vstd::string::*;
use crate::text::{
    is_whitespace, owned, push_char, push_string, str_eq, trim, trim_spec, white_space,
};

verus! {

/// State of the argument splitter between two characters.
pub struct Lexer {
    /// Arguments that are complete.
    pub args: Seq<Seq<char>>,
    /// Characters of the argument being read.
    pub current: Seq<char>,
    /// The quote character that opened the quoted stretch we are in, if any.
    pub quote: Option<char>,
}

/// The splitter's state before any character has been read.
pub open spec fn lexer_start() -> Lexer {
    Lexer { args: Seq::empty(), current: Seq::empty(), quote: None }
}

/// Whether `c` opens or closes a quoted stretch.
pub open spec fn is_quote(c: char) -> bool {
    c == '"' || c == '\''
}

/// The splitter's state after reading `ch` in state `st`.
pub open spec fn lexer_step(st: Lexer, ch: char) -> Lexer {
    match st.quote {
        Some(q) => if ch == q {
            Lexer { quote: None, ..st }
        } else {
            Lexer { current: st.current.push(ch), ..st }
        },
        None => if is_quote(ch) {
            Lexer { quote: Some(ch), ..st }
        } else if white_space(ch) {
            if st.current.len() > 0 {
                Lexer { args: st.args.push(st.current), current: Seq::empty(), ..st }
            } else {
                st
            }
        } else {
            Lexer { current: st.current.push(ch), ..st }
        },
    }
}

/// The splitter's state after reading all of `input`.
pub open spec fn lexer_run(input: Seq<char>) -> Lexer
    decreases input.len(),
{
    if input.len() == 0 {
        lexer_start()
    } else {
        lexer_step(lexer_run(input.drop_last()), input.last())
    }
}

/// The arguments that a line splits into. Outside quotes, white space ends
/// an argument and a quote character opens a quoted stretch; inside a quoted
/// stretch every character up to the matching quote belongs to the
/// argument. The quote characters themselves belong to no argument, and a
/// quote left open runs to the end of the line.
pub open spec fn split_args_spec(input: Seq<char>) -> Seq<Seq<char>> {
    let st = lexer_run(input);
    if st.current.len() > 0 {
        st.args.push(st.current)
    } else {
        st.args
    }
}

/// Inside a quoted stretch every character but the closing quote is taken
/// as it is, white space included.
pub proof fn lemma_quoted_stretch_is_kept(quote: char, text: Seq<char>)
    requires
        is_quote(quote),
        !text.contains(quote),
    ensures
        lexer_run(seq![quote] + text) == (Lexer {
            args: Seq::empty(),
            current: text,
            quote: Some(quote),
        }),
    decreases text.len(),
{
    let line = seq![quote] + text;
    if text.len() == 0 {
        assert(line.drop_last() =~= Seq::<char>::empty());
        assert(lexer_run(line.drop_last()) == lexer_start());
        assert(lexer_run(line).current =~= text);
    } else {
        assert(line.drop_last() =~= seq![quote] + text.drop_last());
        assert(!text.drop_last().contains(quote)) by {
            if text.drop_last().contains(quote) {
                let i = choose|i: int|
                    0 <= i < text.drop_last().len() && text.drop_last()[i] == quote;
                assert(text[i] == quote);
            }
        }
        lemma_quoted_stretch_is_kept(quote, text.drop_last());
        assert(text.contains(text.last()));
        assert(text.drop_last().push(text.last()) =~= text);
    }
}

/// A text in matching quotes is one argument, with the quotes stripped and
/// nothing split inside; a quote that is never closed runs to the end of
/// the line. An empty quoted text is no argument.
pub proof fn lemma_quoted_text_is_one_argument(quote: char, text: Seq<char>)
    requires
        is_quote(quote),
        !text.contains(quote),
    ensures
        split_args_spec(seq![quote] + text + seq![quote]) == if text.len() > 0 {
            seq![text]
        } else {
            Seq::<Seq<char>>::empty()
        },
        split_args_spec(seq![quote] + text) == split_args_spec(seq![quote] + text + seq![quote]),
{
    lemma_quoted_stretch_is_kept(quote, text);
    let closed = seq![quote] + text + seq![quote];
    assert(closed.drop_last() =~= seq![quote] + text);
    assert(closed.last() == quote);
    assert(Seq::<Seq<char>>::empty().push(text) =~= seq![text]);
}

/// No argument is empty.
pub proof fn lemma_arguments_are_not_empty(input: Seq<char>)
    ensures
        forall|i: int|
            0 <= i < split_args_spec(input).len() ==> (#[trigger] split_args_spec(input)[i]).len()
                > 0,
{
    lemma_complete_arguments_are_not_empty(input);
}

proof fn lemma_complete_arguments_are_not_empty(input: Seq<char>)
    ensures
        forall|i: int|
            0 <= i < lexer_run(input).args.len() ==> (#[trigger] lexer_run(input).args[i]).len()
                > 0,
    decreases input.len(),
{
    if input.len() > 0 {
        lemma_complete_arguments_are_not_empty(input.drop_last());
    }
}

/// Splits a line into arguments.
pub fn split_args(input: &str) -> (args: Vec<String>)
    ensures
        args.deep_view() == split_args_spec(input@),
{
    let mut args: Vec<String> = Vec::new();
    let mut current = String::new();
    let mut in_quotes = false;
    let mut quote_char = ' ';
    let ghost mut st = lexer_start();

    for ch in it: input.chars()
        invariant
            it.seq() == input@,
            st == lexer_run(input@.take(it.index() as int)),
            args.deep_view() == st.args,
            current@ == st.current,
            in_quotes == st.quote.is_some(),
            in_quotes ==> st.quote == Some(quote_char),
    {
        proof {
            let i = it.index() as int;
            assert(input@.take(i + 1).drop_last() == input@.take(i));
            assert(input@.take(i + 1).last() == ch);
            st = lexer_step(st, ch);
        }
        if in_quotes {
            if ch == quote_char {
                in_quotes = false;
            } else {
                push_char(&mut current, ch);
            }
        } else if ch == '"' || ch == '\'' {
            in_quotes = true;
            quote_char = ch;
        } else if is_whitespace(ch) {
            if !current.as_str().is_empty() {
                let done = current;
                current = String::new();
                push_string(&mut args, done);
            }
        } else {
            push_char(&mut current, ch);
        }
    }
    assert(input@.take(input@.len() as int) == input@);
    if !current.as_str().is_empty() {
        push_string(&mut args, current);
    }
    args
}

/// Where the loop stands.
#[derive(Clone, Copy, Debug, PartialEq, Eq, Structural)]
pub enum ShellState {
    /// Waiting for a line.
    Reading,
    /// A command is being run.
    Dispatching,
    /// The loop has ended.
    Exiting,
}

/// What happened: what the terminal handed to the loop while it was
/// reading, or how the command went that it dispatched.
#[derive(Debug)]
pub enum ShellEvent {
    /// A line was read.
    Line(String),
    /// The user pressed the interrupt key while a line was being read.
    Interrupted,
    /// The input ended.
    Eof,
    /// Reading failed for another reason, described by the text.
    Failed(String),
    /// The arguments were not understood as a command; the text says why.
    Refused(String),
    /// The command was run and failed with this message.
    CommandFailed(String),
    /// The command was run and succeeded.
    CommandDone,
}

/// What the loop does next.
#[derive(Debug)]
pub enum ShellAction {
    /// Read the next line.
    Read,
    /// Write the hint to standard output, then read the next line.
    Hint(String),
    /// Write the text to the error channel, then read the next line.
    Report(String),
    /// Add `entry` to the history, then take `args` as a command, run it
    /// and hand back how it went.
    Dispatch { entry: String, args: Vec<String> },
    /// Leave the loop.
    Exit,
    /// Write the message to the error channel, then leave the loop.
    Abort(String),
}

/// Written when the shell starts.
pub const SHELL_BANNER: &'static str =
    "coinpaprika-cli interactive shell \u{2014} type commands without 'coinpaprika-cli' prefix\n\
     Type 'exit' or 'quit' to leave. Ctrl+D also exits.\n\n";

/// Shown before every line that is read.
pub const PROMPT: &'static str = "coinpaprika> ";

/// Name under which the shell hands a line to the command parser.
pub const PROGRAM_NAME: &'static str = "coinpaprika-cli";

/// Written after an interrupt.
pub const INTERRUPT_HINT: &'static str = "(Ctrl+C \u{2014} type 'exit' to quit)\n";

/// Reports that the terminal could not be set up.
pub fn print_shell_unavailable(reason: &str) -> (r: String)
    ensures
        r@ == "Failed to initialize shell: "@ + reason@ + "\n"@,
{
    let mut r = owned("Failed to initialize shell: ");
    r.append(reason);
    r.append("\n");
    r
}

/// The text that reports a failed command.
pub fn print_dispatch_failure(message: &str) -> (r: String)
    ensures
        r@ == "Error: "@ + message@ + "\n"@,
{
    let mut r = owned("Error: ");
    r.append(message);
    r.append("\n");
    r
}

/// Whether a trimmed line asks to leave the shell.
pub open spec fn is_exit_word(line: Seq<char>) -> bool {
    line == "exit"@ || line == "quit"@
}

impl ShellAction {
    /// Where the loop stands once the action is taken.
    pub open spec fn leads_to(self) -> ShellState {
        match self {
            ShellAction::Read => ShellState::Reading,
            ShellAction::Hint(_) => ShellState::Reading,
            ShellAction::Report(_) => ShellState::Reading,
            ShellAction::Dispatch { .. } => ShellState::Dispatching,
            ShellAction::Exit => ShellState::Exiting,
            ShellAction::Abort(_) => ShellState::Exiting,
        }
    }

    /// Whether the loop ends with this action.
    pub open spec fn ends_loop(self) -> bool {
        self.leads_to() == ShellState::Exiting
    }
}

impl ShellEvent {
    /// The state in which the event can happen: lines, interrupts and the
    /// end of the input come while the loop reads, the outcome of a command
    /// while it dispatches.
    pub open spec fn happens_in(self) -> ShellState {
        match self {
            ShellEvent::Refused(_) => ShellState::Dispatching,
            ShellEvent::CommandFailed(_) => ShellState::Dispatching,
            ShellEvent::CommandDone => ShellState::Dispatching,
            _ => ShellState::Reading,
        }
    }
}

/// The action that follows each event, as a value of the model.
pub open spec fn next_action_matches(event: ShellEvent, action: ShellAction) -> bool {
    match event {
        ShellEvent::Line(line) => {
            let trimmed = trim_spec(line@);
            if trimmed.len() == 0 {
                action is Read
            } else if is_exit_word(trimmed) {
                action is Exit
            } else {
                &&& action matches ShellAction::Dispatch { entry, args }
                &&& entry@ == trimmed
                &&& args.deep_view() == seq![PROGRAM_NAME@] + split_args_spec(trimmed)
            }
        },
        ShellEvent::Interrupted => {
            &&& action matches ShellAction::Hint(text)
            &&& text@ == INTERRUPT_HINT@
        },
        ShellEvent::Eof => action is Exit,
        ShellEvent::Failed(reason) => {
            &&& action matches ShellAction::Abort(text)
            &&& text@ == "Shell error: "@ + reason@ + "\n"@
        },
        ShellEvent::Refused(why) => {
            &&& action matches ShellAction::Report(text)
            &&& text@ == why@ + "\n"@
        },
        ShellEvent::CommandFailed(message) => {
            &&& action matches ShellAction::Report(text)
            &&& text@ == "Error: "@ + message@ + "\n"@
        },
        ShellEvent::CommandDone => action is Read,
    }
}

/// The loop ends on an exit word, at the end of the input and when reading
/// fails, and on nothing else. An empty line and an interrupt lead back to
/// reading; every other line is dispatched; and whatever becomes of a
/// command, refused, failed or done, the loop goes back to reading.
pub proof fn lemma_loop_ends_only_on_exit(event: ShellEvent, action: ShellAction)
    requires
        next_action_matches(event, action),
    ensures
        action.ends_loop() <==> (event is Eof || event is Failed || (event matches ShellEvent::Line(
            line,
        ) && is_exit_word(trim_spec(line@)))),
        (event matches ShellEvent::Line(line) && trim_spec(line@).len() == 0) ==> action is Read,
        event.happens_in() == ShellState::Dispatching ==> action.leads_to() == ShellState::Reading,
        action.leads_to() == ShellState::Dispatching ==> event is Line,
{
    reveal_strlit("exit");
    reveal_strlit("quit");
}

/// Decides what the loop does with what it has just read.
pub fn next_action(event: ShellEvent) -> (action: ShellAction)
    ensures
        next_action_matches(event, action),
{
    match event {
        ShellEvent::Line(line) => {
            let trimmed = trim(line.as_str());
            if trimmed.is_empty() {
                ShellAction::Read
            } else if str_eq(trimmed, "exit") || str_eq(trimmed, "quit") {
                ShellAction::Exit
            } else {
                let rest = split_args(trimmed);
                let mut args: Vec<String> = Vec::new();
                push_string(&mut args, owned(PROGRAM_NAME));
                let mut i: usize = 0;
                while i < rest.len()
                    invariant
                        i <= rest.len(),
                        args.deep_view() == seq![PROGRAM_NAME@] + rest.deep_view().take(i as int),
                    decreases rest.len() - i,
                {
                    let ghost before = rest.deep_view().take(i as int);
                    push_string(&mut args, rest[i].clone());
                    i += 1;
                    assert(rest.deep_view().take(i as int) == before.push(rest[i - 1]@));
                }
                assert(rest.deep_view().take(rest.len() as int) == rest.deep_view());
                ShellAction::Dispatch { entry: owned(trimmed), args }
            }
        },
        ShellEvent::Interrupted => ShellAction::Hint(owned(INTERRUPT_HINT)),
        ShellEvent::Eof => ShellAction::Exit,
        ShellEvent::Failed(reason) => {
            let mut text = owned("Shell error: ");
            text.append(reason.as_str());
            text.append("\n");
            ShellAction::Abort(text)
        },
        ShellEvent::Refused(why) => {
            let mut text = why;
            text.append("\n");
            ShellAction::Report(text)
        },
        ShellEvent::CommandFailed(message) => ShellAction::Report(
            print_dispatch_failure(message.as_str()),
        ),
        ShellEvent::CommandDone => ShellAction::Read,
    }
}

} // verus!

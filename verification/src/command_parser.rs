//! The chat command language: a message that starts with the command symbol
//! names a command. Parsing decides at once, or asks the browser first
//! (for the current URL, or for the value of the element named by the
//! command) and decides on its answer.
use vstd::prelude::*;
use vstd::string::StringExecFns;
use crate::browser::{BrowserCommand, BrowserCommandView, Key};
use crate::text::{
    has_prefix, same_text, strip_prefix_repeatedly, strip_repeated_prefix, trim, trimmed,
};

verus! {

/// What to do about a chat message.
#[derive(Debug)]
pub enum CommandAction {
    /// Send this command to the browser.
    SendToBrowser(BrowserCommand),
    /// Send this command to the browser and answer with this text.
    WithResponse(BrowserCommand, String),
    /// Answer with this text.
    ResponseOnly(String),
    /// Nothing: the message is no command.
    Noop,
}

pub enum CommandActionView {
    SendToBrowser(BrowserCommandView),
    WithResponse(BrowserCommandView, Seq<char>),
    ResponseOnly(Seq<char>),
    Noop,
}

impl View for CommandAction {
    type V = CommandActionView;

    open spec fn view(&self) -> CommandActionView {
        match self {
            CommandAction::SendToBrowser(c) => CommandActionView::SendToBrowser(c@),
            CommandAction::WithResponse(c, s) => CommandActionView::WithResponse(c@, s@),
            CommandAction::ResponseOnly(s) => CommandActionView::ResponseOnly(s@),
            CommandAction::Noop => CommandActionView::Noop,
        }
    }
}

/// Where parsing a message stands.
#[derive(Debug)]
pub enum ParseStep {
    /// Decided.
    Complete(CommandAction),
    /// Ask the browser for the current URL, then decide with
    /// `action_for_url_reply`.
    AwaitUrl,
    /// Ask the browser for the value of the element named by this command,
    /// then decide with `action_for_element_reply`.
    AwaitElementValue(String),
}

pub enum ParseStepView {
    Complete(CommandActionView),
    AwaitUrl,
    AwaitElementValue(Seq<char>),
}

impl View for ParseStep {
    type V = ParseStepView;

    open spec fn view(&self) -> ParseStepView {
        match self {
            ParseStep::Complete(a) => ParseStepView::Complete(a@),
            ParseStep::AwaitUrl => ParseStepView::AwaitUrl,
            ParseStep::AwaitElementValue(s) => ParseStepView::AwaitElementValue(s@),
        }
    }
}

/// The command a message names: what follows the symbol, without
/// surrounding whitespace.
pub open spec fn command_text(input: Seq<char>, symbol: Seq<char>) -> Seq<char> {
    trim(input.skip(symbol.len() as int))
}

/// The prefix of commands that click an element.
pub open spec fn toggle_prefix() -> Seq<char> {
    "toggle_"@
}

/// The key a command word presses, if it names one.
pub open spec fn spec_key_named(c: Seq<char>) -> Option<Key> {
    if c == "up"@ {
        Some(Key::Up)
    } else if c == "down"@ {
        Some(Key::Down)
    } else if c == "left"@ {
        Some(Key::Left)
    } else if c == "right"@ {
        Some(Key::Right)
    } else if c == "space"@ {
        Some(Key::Space)
    } else if c == "enter"@ {
        Some(Key::Enter)
    } else if c == "esc"@ {
        Some(Key::Escape)
    } else if c == "delete"@ {
        Some(Key::Delete)
    } else {
        None
    }
}

/// How a command word is decided: a key word presses its key, `get_url`
/// asks for the URL, a single character is typed, `toggle_<name>` clicks,
/// and any other word asks the browser for the element of that name.
pub open spec fn spec_decide_command(c: Seq<char>) -> ParseStepView {
    match spec_key_named(c) {
        Some(k) => ParseStepView::Complete(
            CommandActionView::SendToBrowser(BrowserCommandView::PredefinedKey(k)),
        ),
        None => if c == "get_url"@ {
            ParseStepView::AwaitUrl
        } else if c.len() == 1 {
            ParseStepView::Complete(CommandActionView::SendToBrowser(BrowserCommandView::RawCharacter(c)))
        } else if toggle_prefix().is_prefix_of(c) {
            ParseStepView::Complete(
                CommandActionView::SendToBrowser(
                    BrowserCommandView::ClickElement(strip_repeated_prefix(c, toggle_prefix())),
                ),
            )
        } else {
            ParseStepView::AwaitElementValue(c)
        },
    }
}

/// How a message is parsed: one that does not start with the symbol is no
/// command; otherwise its command word decides.
pub open spec fn spec_parse_command(input: Seq<char>, symbol: Seq<char>) -> ParseStepView {
    if !symbol.is_prefix_of(input) {
        ParseStepView::Complete(CommandActionView::Noop)
    } else {
        spec_decide_command(command_text(input, symbol))
    }
}

/// The answer when the browser gave no URL.
pub open spec fn url_failure_text() -> Seq<char> {
    "Failed to fetch URL"@
}

pub open spec fn spec_url_reply_action(reply: Option<Seq<char>>) -> CommandActionView {
    match reply {
        Some(url) => CommandActionView::ResponseOnly(url),
        None => CommandActionView::ResponseOnly(url_failure_text()),
    }
}

/// Where the browser answered, navigate by the command and answer
/// `command: value`; where it did not, type a one-character command and
/// navigate by any other. (One-character commands are typed at once by
/// `parse_command`, so only longer words reach this decision from it.)
pub open spec fn spec_element_reply_action(command: Seq<char>, reply: Option<Seq<char>>) -> CommandActionView {
    match reply {
        Some(value) => CommandActionView::WithResponse(
            BrowserCommandView::Goto(command),
            command + ": "@ + value,
        ),
        None => if command.len() == 1 {
            CommandActionView::SendToBrowser(BrowserCommandView::RawCharacter(command))
        } else {
            CommandActionView::SendToBrowser(BrowserCommandView::Goto(command))
        },
    }
}

/// The key that a command word presses, if it names one.
pub fn key_named(word: &str) -> (r: Option<Key>)
    ensures
        r == spec_key_named(word@),
{
    if same_text(word, "up") {
        Some(Key::Up)
    } else if same_text(word, "down") {
        Some(Key::Down)
    } else if same_text(word, "left") {
        Some(Key::Left)
    } else if same_text(word, "right") {
        Some(Key::Right)
    } else if same_text(word, "space") {
        Some(Key::Space)
    } else if same_text(word, "enter") {
        Some(Key::Enter)
    } else if same_text(word, "esc") {
        Some(Key::Escape)
    } else if same_text(word, "delete") {
        Some(Key::Delete)
    } else {
        None
    }
}

fn decide_command(command: &str) -> (r: ParseStep)
    ensures
        r@ == spec_decide_command(command@),
{
    match key_named(command) {
        Some(k) => ParseStep::Complete(CommandAction::SendToBrowser(BrowserCommand::PredefinedKey(k))),
        None => if same_text(command, "get_url") {
            ParseStep::AwaitUrl
        } else if command.unicode_len() == 1 {
            ParseStep::Complete(CommandAction::SendToBrowser(BrowserCommand::RawCharacter(command.to_string())))
        } else if has_prefix(command, "toggle_") {
            let key = strip_prefix_repeatedly(command, "toggle_").to_string();
            ParseStep::Complete(CommandAction::SendToBrowser(BrowserCommand::ClickElement(key)))
        } else {
            ParseStep::AwaitElementValue(command.to_string())
        },
    }
}

/// Parses a chat message `input` whose commands start with `symbol`.
pub fn parse_command(input: &str, symbol: &str) -> (r: ParseStep)
    ensures
        r@ == spec_parse_command(input@, symbol@),
{
    if !has_prefix(input, symbol) {
        return ParseStep::Complete(CommandAction::Noop);
    }
    let rest = input.substring_char(symbol.unicode_len(), input.unicode_len());
    assert(rest@ =~= input@.skip(symbol@.len() as int));
    decide_command(trimmed(rest))
}

/// Decides a `get_url` command on the browser's answer (`None` where the
/// request could not be sent or no answer came).
pub fn action_for_url_reply(reply: Option<String>) -> (r: CommandAction)
    ensures
        r@ == spec_url_reply_action(match reply {
            Some(s) => Some(s@),
            None => None,
        }),
{
    match reply {
        Some(url) => CommandAction::ResponseOnly(url),
        None => CommandAction::ResponseOnly("Failed to fetch URL".to_string()),
    }
}

/// Decides a command word on the browser's answer to the element request
/// (`None` where the request could not be sent or no answer came).
pub fn action_for_element_reply(command: String, reply: Option<String>) -> (r: CommandAction)
    ensures
        r@ == spec_element_reply_action(command@, match reply {
            Some(s) => Some(s@),
            None => None,
        }),
{
    match reply {
        Some(value) => {
            let mut message = command.clone();
            message.append(": ");
            message.append(value.as_str());
            CommandAction::WithResponse(BrowserCommand::Goto(command), message)
        },
        None => if command.as_str().unicode_len() == 1 {
            CommandAction::SendToBrowser(BrowserCommand::RawCharacter(command))
        } else {
            CommandAction::SendToBrowser(BrowserCommand::Goto(command))
        },
    }
}

/// What carrying out an action comes to: the command to send to the
/// browser, and the answer to give, each where there is one.
#[derive(Debug)]
pub struct ParsedCommandResult {
    pub command: Option<BrowserCommand>,
    pub response: Option<String>,
}

pub struct ParsedCommandResultView {
    pub command: Option<BrowserCommandView>,
    pub response: Option<Seq<char>>,
}

impl View for ParsedCommandResult {
    type V = ParsedCommandResultView;

    open spec fn view(&self) -> ParsedCommandResultView {
        ParsedCommandResultView {
            command: match self.command {
                Some(c) => Some(c@),
                None => None,
            },
            response: match self.response {
                Some(s) => Some(s@),
                None => None,
            },
        }
    }
}

/// The command an action sends and the answer it gives.
pub open spec fn spec_dispatch(a: CommandActionView) -> ParsedCommandResultView {
    match a {
        CommandActionView::SendToBrowser(c) => ParsedCommandResultView { command: Some(c), response: None },
        CommandActionView::WithResponse(c, m) => ParsedCommandResultView { command: Some(c), response: Some(m) },
        CommandActionView::ResponseOnly(m) => ParsedCommandResultView { command: None, response: Some(m) },
        CommandActionView::Noop => ParsedCommandResultView { command: None, response: None },
    }
}

/// Splits an action into the command to send and the answer to give.
pub fn handle_parsed_command(action: CommandAction) -> (r: ParsedCommandResult)
    ensures
        r@ == spec_dispatch(action@),
{
    match action {
        CommandAction::SendToBrowser(c) => ParsedCommandResult { command: Some(c), response: None },
        CommandAction::WithResponse(c, m) => ParsedCommandResult { command: Some(c), response: Some(m) },
        CommandAction::ResponseOnly(m) => ParsedCommandResult { command: None, response: Some(m) },
        CommandAction::Noop => ParsedCommandResult { command: None, response: None },
    }
}

} // verus!

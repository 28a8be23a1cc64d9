//! What each decision of the command language and the browser worker does,
//! stated over its inputs and results.
use vstd::prelude::*;
use crate::browser::{
    spec_fetch_after_find, spec_fetch_after_frame, spec_fetch_after_read, spec_fetch_start,
    spec_frame_locator, spec_locator, spec_plan_command, spec_read_request, BrowserActionView,
    BrowserCommandView, FetchStepView, FindOutcome, FrameOutcome, Key, LocatorView,
    ReadOutcomeView, ReadRequestView,
};
use crate::command_parser::{
    spec_decide_command, spec_dispatch, spec_element_reply_action, spec_parse_command,
    spec_url_reply_action, CommandActionView, ParsedCommandResultView, ParseStepView,
};
use crate::config::{BrowserConfigView, ElementConfigView};
use crate::properties::{lemma_command_words, lemma_plain_word};
use crate::text::is_whitespace;

verus! {

/// Once an element is found, its text is read exactly when the configured
/// attribute is `text`; any other attribute is read by its name. An element
/// not found is reported as such.
pub proof fn found_elements_read_their_attribute(e: ElementConfigView)
    ensures
        e.attribute == "text"@ ==> spec_fetch_after_find(e, FindOutcome::Found) == FetchStepView::Read(
            ReadRequestView::Text,
        ),
        e.attribute != "text"@ ==> spec_fetch_after_find(e, FindOutcome::Found) == FetchStepView::Read(
            ReadRequestView::Attribute(e.attribute),
        ),
        spec_fetch_after_find(e, FindOutcome::Error) == FetchStepView::Done("Element not found (error)"@),
        spec_fetch_after_find(e, FindOutcome::TimedOut) == FetchStepView::Done(
            "Element not found (timeout)"@,
        ),
        spec_read_request(e.attribute) is Text <==> e.attribute == "text"@,
        e.attribute != "text"@ ==> spec_read_request(e.attribute) == ReadRequestView::Attribute(e.attribute),
{
}

/// Reading an element starts in its frame, where it has one (`#id` by id,
/// anything else as a CSS selector), and otherwise looks for the element by
/// its XPath query; once the frame is entered, the element is looked for by
/// its XPath query.
pub proof fn element_reading_starts_in_its_frame(e: ElementConfigView, f: Seq<char>)
    ensures
        e.iframe is None ==> spec_fetch_start(e) == FetchStepView::Find(LocatorView::XPath(e.element)),
        e.iframe == Some(f) && f.len() > 0 && f[0] == '#' ==> spec_fetch_start(e) == FetchStepView::EnterFrame(
            LocatorView::Id(f.skip(1)),
        ),
        e.iframe == Some(f) && !(f.len() > 0 && f[0] == '#') ==> spec_fetch_start(e)
            == FetchStepView::EnterFrame(LocatorView::Css(f)),
        spec_fetch_after_frame(e, FrameOutcome::Entered) == FetchStepView::Find(LocatorView::XPath(e.element)),
        spec_fetch_after_frame(e, FrameOutcome::NotFound) == FetchStepView::Done("Failed to find iframe"@),
        spec_fetch_after_frame(e, FrameOutcome::EnterFailed) == FetchStepView::Done(
            "Failed to enter iframe"@,
        ),
        spec_locator(e.element) == LocatorView::XPath(e.element),
        f.len() > 0 && f[0] == '#' ==> spec_frame_locator(f) == LocatorView::Id(f.skip(1)),
        !(f.len() > 0 && f[0] == '#') ==> spec_frame_locator(f) == LocatorView::Css(f),
{
}

/// The value read is the element's text, or the attribute's value (empty
/// where the element lacks it); a failing browser is passed on.
pub proof fn read_values_are_answered(t: Seq<char>)
    ensures
        spec_fetch_after_read(ReadOutcomeView::Text(t)) == FetchStepView::Done(t),
        spec_fetch_after_read(ReadOutcomeView::Attribute(Some(t))) == FetchStepView::Done(t),
        spec_fetch_after_read(ReadOutcomeView::Attribute(None)) == FetchStepView::Done(Seq::<char>::empty()),
        spec_fetch_after_read(ReadOutcomeView::Failed) == FetchStepView::Failed,
{
}

/// What the browser worker does for each command: an element request reads
/// exactly the element setting stored under the name (its frame included),
/// or answers that none is; a goto name navigates to its URL; a click finds
/// the element by its XPath query; keys, text and the URL request pass through.
pub proof fn worker_carries_out_commands(config: BrowserConfigView, k: Seq<char>, key: Key, t: Seq<char>)
    ensures
        config.elements.dom().contains(k) ==> spec_plan_command(BrowserCommandView::GetElementValue(k), config)
            == BrowserActionView::ReadElement(config.elements[k]),
        !config.elements.dom().contains(k) ==> spec_plan_command(BrowserCommandView::GetElementValue(k), config)
            == BrowserActionView::Reply("Key not found in config"@),
        config.goto.dom().contains(k) ==> spec_plan_command(BrowserCommandView::Goto(k), config)
            == BrowserActionView::Navigate(config.goto[k]),
        !config.goto.dom().contains(k) ==> spec_plan_command(BrowserCommandView::Goto(k), config)
            == BrowserActionView::Nothing,
        config.elements.dom().contains(k) ==> spec_plan_command(BrowserCommandView::ClickElement(k), config)
            == BrowserActionView::Click(LocatorView::XPath(config.elements[k].element)),
        !config.elements.dom().contains(k) ==> spec_plan_command(BrowserCommandView::ClickElement(k), config)
            == BrowserActionView::Nothing,
        spec_plan_command(BrowserCommandView::PredefinedKey(key), config) == BrowserActionView::PressKey(key),
        spec_plan_command(BrowserCommandView::RawCharacter(t), config) == BrowserActionView::TypeText(t),
        spec_plan_command(BrowserCommandView::FetchUrl, config) == BrowserActionView::ReplyCurrentUrl,
{
}

/// A word that is no key word, not `get_url`, not a single character and
/// does not start with `toggle_` asks the browser for the element of that
/// name, also when written after the symbol.
pub proof fn other_words_ask_for_elements(symbol: Seq<char>, w: Seq<char>)
    requires
        w != "up"@ && w != "down"@ && w != "left"@ && w != "right"@,
        w != "space"@ && w != "enter"@ && w != "esc"@ && w != "delete"@,
        w != "get_url"@,
        w.len() != 1,
        !"toggle_"@.is_prefix_of(w),
    ensures
        spec_decide_command(w) == ParseStepView::AwaitElementValue(w),
        w.len() > 0 && !is_whitespace(w[0]) && !is_whitespace(w.last()) ==> spec_parse_command(symbol + w, symbol)
            == ParseStepView::AwaitElementValue(w),
{
    if w.len() > 0 && !is_whitespace(w[0]) && !is_whitespace(w.last()) {
        lemma_plain_word(symbol, w);
    }
}

/// Only the exact word `get_url` asks for the URL.
pub proof fn only_get_url_asks_for_the_url(w: Seq<char>)
    ensures
        spec_decide_command(w) is AwaitUrl <==> w == "get_url"@,
{
    lemma_command_words();
}

/// Carrying out an action sends its command, where it has one, and answers
/// its text, where it has one, unchanged.
pub proof fn actions_send_and_answer(c: BrowserCommandView, m: Seq<char>)
    ensures
        spec_dispatch(CommandActionView::SendToBrowser(c)) == (ParsedCommandResultView {
            command: Some(c),
            response: None,
        }),
        spec_dispatch(CommandActionView::WithResponse(c, m)) == (ParsedCommandResultView {
            command: Some(c),
            response: Some(m),
        }),
        spec_dispatch(CommandActionView::ResponseOnly(m)) == (ParsedCommandResultView {
            command: None,
            response: Some(m),
        }),
        spec_dispatch(CommandActionView::Noop) == (ParsedCommandResultView { command: None, response: None }),
{
}

/// The browser's answers decide: a URL is given back as it is, or
/// `Failed to fetch URL` where none came; an element value navigates by the
/// word and answers `<word>: <value>`; with no value, a one-character word is
/// typed and any other navigated to.
pub proof fn answers_decide_commands(w: Seq<char>, v: Seq<char>)
    ensures
        spec_url_reply_action(Some(v)) == CommandActionView::ResponseOnly(v),
        spec_url_reply_action(None) == CommandActionView::ResponseOnly("Failed to fetch URL"@),
        spec_element_reply_action(w, Some(v)) == CommandActionView::WithResponse(
            BrowserCommandView::Goto(w),
            w + ": "@ + v,
        ),
        w.len() == 1 ==> spec_element_reply_action(w, None) == CommandActionView::SendToBrowser(
            BrowserCommandView::RawCharacter(w),
        ),
        w.len() != 1 ==> spec_element_reply_action(w, None) == CommandActionView::SendToBrowser(
            BrowserCommandView::Goto(w),
        ),
{
}

} // verus!

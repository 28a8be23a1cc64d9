//! Properties of the command language and the browser worker that span
//! several of their functions.
use vstd::prelude::*;
use crate::browser::{
    spec_fetch_after_find, spec_fetch_after_frame, spec_fetch_after_read, spec_fetch_start,
    spec_locator, spec_plan_command, unknown_element_reply, BrowserActionView, BrowserCommandView,
    FindOutcome, FrameOutcome, Key, ReadOutcomeView,
};
use crate::command_parser::{
    spec_decide_command, spec_key_named, spec_dispatch, spec_element_reply_action, spec_parse_command,
    spec_url_reply_action, toggle_prefix, url_failure_text, CommandActionView,
    ParsedCommandResultView, ParseStepView,
};
use crate::config::{BrowserConfigView, ElementConfigView};
use crate::text::{is_whitespace, lemma_trim_surrounded, strip_repeated_prefix, trim};

verus! {

/// A message that does not start with the command symbol is no command.
pub proof fn message_without_symbol_is_ignored(input: Seq<char>, symbol: Seq<char>)
    requires
        !symbol.is_prefix_of(input),
    ensures
        spec_parse_command(input, symbol) == ParseStepView::Complete(CommandActionView::Noop),
{
}

proof fn lemma_skip_symbol(symbol: Seq<char>, rest: Seq<char>)
    ensures
        symbol.is_prefix_of(symbol + rest),
        (symbol + rest).skip(symbol.len() as int) == rest,
{
    assert((symbol + rest).subrange(0, symbol.len() as int) =~= symbol);
    assert((symbol + rest).skip(symbol.len() as int) =~= rest);
}

/// Whitespace between the symbol and the command word, and after the word,
/// changes nothing: `!  up ` is parsed as `!up`.
pub proof fn surrounding_whitespace_is_ignored(
    symbol: Seq<char>,
    lead: Seq<char>,
    word: Seq<char>,
    trail: Seq<char>,
)
    requires
        forall|i: int| 0 <= i < lead.len() ==> is_whitespace(#[trigger] lead[i]),
        forall|i: int| 0 <= i < trail.len() ==> is_whitespace(#[trigger] trail[i]),
        word.len() > 0 ==> !is_whitespace(word[0]) && !is_whitespace(word.last()),
    ensures
        spec_parse_command(symbol + lead + word + trail, symbol) == spec_parse_command(symbol + word, symbol),
        spec_parse_command(symbol + word, symbol) == spec_decide_command(word),
{
    lemma_trim_surrounded(lead, word, trail);
    assert(symbol + lead + word + trail =~= symbol + (lead + word + trail));
    lemma_skip_symbol(symbol, lead + word + trail);
    lemma_skip_symbol(symbol, word);
}

/// A command word without surrounding whitespace, written right after the
/// symbol, is decided as that word.
pub proof fn lemma_plain_word(symbol: Seq<char>, word: Seq<char>)
    requires
        word.len() > 0,
        !is_whitespace(word[0]),
        !is_whitespace(word.last()),
    ensures
        spec_parse_command(symbol + word, symbol) == spec_decide_command(word),
{
    let e = Seq::<char>::empty();
    lemma_trim_surrounded(e, word, e);
    assert(e + word + e =~= word);
    lemma_skip_symbol(symbol, word);
}

/// The characters of the command words.
pub proof fn lemma_command_words()
    ensures
        "up"@ == seq!['u', 'p'],
        "down"@ == seq!['d', 'o', 'w', 'n'],
        "left"@ == seq!['l', 'e', 'f', 't'],
        "right"@ == seq!['r', 'i', 'g', 'h', 't'],
        "space"@ == seq!['s', 'p', 'a', 'c', 'e'],
        "enter"@ == seq!['e', 'n', 't', 'e', 'r'],
        "esc"@ == seq!['e', 's', 'c'],
        "delete"@ == seq!['d', 'e', 'l', 'e', 't', 'e'],
        "get_url"@ == seq!['g', 'e', 't', '_', 'u', 'r', 'l'],
        "toggle_"@ == seq!['t', 'o', 'g', 'g', 'l', 'e', '_'],
{
    reveal_strlit("up");
    reveal_strlit("down");
    reveal_strlit("left");
    reveal_strlit("right");
    reveal_strlit("space");
    reveal_strlit("enter");
    reveal_strlit("esc");
    reveal_strlit("delete");
    reveal_strlit("get_url");
    reveal_strlit("toggle_");
    assert("up"@ =~= seq!['u', 'p']);
    assert("down"@ =~= seq!['d', 'o', 'w', 'n']);
    assert("left"@ =~= seq!['l', 'e', 'f', 't']);
    assert("right"@ =~= seq!['r', 'i', 'g', 'h', 't']);
    assert("space"@ =~= seq!['s', 'p', 'a', 'c', 'e']);
    assert("enter"@ =~= seq!['e', 'n', 't', 'e', 'r']);
    assert("esc"@ =~= seq!['e', 's', 'c']);
    assert("delete"@ =~= seq!['d', 'e', 'l', 'e', 't', 'e']);
    assert("get_url"@ =~= seq!['g', 'e', 't', '_', 'u', 'r', 'l']);
    assert("toggle_"@ =~= seq!['t', 'o', 'g', 'g', 'l', 'e', '_']);
}

/// The key each key word names, and that `get_url` names none.
proof fn lemma_key_words()
    ensures
        spec_key_named("up"@) == Some(Key::Up),
        spec_key_named("down"@) == Some(Key::Down),
        spec_key_named("left"@) == Some(Key::Left),
        spec_key_named("right"@) == Some(Key::Right),
        spec_key_named("space"@) == Some(Key::Space),
        spec_key_named("enter"@) == Some(Key::Enter),
        spec_key_named("esc"@) == Some(Key::Escape),
        spec_key_named("delete"@) == Some(Key::Delete),
        spec_key_named("get_url"@) is None,
{
    lemma_command_words();
}

/// The key words `up`, `down`, `left`, `right`, `space`, `enter`, `esc` and
/// `delete` press their key on the page, and send nothing else.
pub proof fn key_commands_press_keys(symbol: Seq<char>, config: BrowserConfigView, word: Seq<char>, key: Key)
    requires
        word == "up"@ && key == Key::Up || word == "down"@ && key == Key::Down || word == "left"@ && key
            == Key::Left || word == "right"@ && key == Key::Right || word == "space"@ && key
            == Key::Space || word == "enter"@ && key == Key::Enter || word == "esc"@ && key
            == Key::Escape || word == "delete"@ && key == Key::Delete,
    ensures
        spec_parse_command(symbol + word, symbol) == ParseStepView::Complete(
            CommandActionView::SendToBrowser(BrowserCommandView::PredefinedKey(key)),
        ),
        spec_dispatch(CommandActionView::SendToBrowser(BrowserCommandView::PredefinedKey(key)))
            == (ParsedCommandResultView {
            command: Some(BrowserCommandView::PredefinedKey(key)),
            response: None,
        }),
        spec_plan_command(BrowserCommandView::PredefinedKey(key), config) == BrowserActionView::PressKey(key),
{
    lemma_command_words();
    lemma_key_words();
    lemma_plain_word(symbol, word);
}

/// A command of a single character (any character but whitespace) types that
/// character on the page.
pub proof fn single_characters_are_typed(symbol: Seq<char>, config: BrowserConfigView, c: char)
    requires
        !is_whitespace(c),
    ensures
        spec_parse_command(symbol + seq![c], symbol) == ParseStepView::Complete(
            CommandActionView::SendToBrowser(BrowserCommandView::RawCharacter(seq![c])),
        ),
        spec_plan_command(BrowserCommandView::RawCharacter(seq![c]), config) == BrowserActionView::TypeText(
            seq![c],
        ),
{
    lemma_command_words();
    lemma_key_words();
    lemma_plain_word(symbol, seq![c]);
}

/// `!get_url` asks the browser for its URL, which the browser answers with
/// the current URL; the answer is given back, and nothing is sent on.
pub proof fn get_url_answers_the_url(symbol: Seq<char>, config: BrowserConfigView, url: Seq<char>)
    ensures
        spec_parse_command(symbol + "get_url"@, symbol) == ParseStepView::AwaitUrl,
        spec_plan_command(BrowserCommandView::FetchUrl, config) == BrowserActionView::ReplyCurrentUrl,
        spec_dispatch(spec_url_reply_action(Some(url))) == (ParsedCommandResultView {
            command: None,
            response: Some(url),
        }),
        spec_dispatch(spec_url_reply_action(None)) == (ParsedCommandResultView {
            command: None,
            response: Some(url_failure_text()),
        }),
{
    lemma_command_words();
    lemma_key_words();
    lemma_plain_word(symbol, "get_url"@);
}

/// `!toggle_<name>` clicks the element configured under `name` (with every
/// leading `toggle_` removed).
pub proof fn toggle_commands_click(symbol: Seq<char>, name: Seq<char>, config: BrowserConfigView)
    requires
        name.len() > 0 ==> !is_whitespace(name.last()),
        !toggle_prefix().is_prefix_of(name),
        config.elements.dom().contains(name),
    ensures
        spec_parse_command(symbol + toggle_prefix() + name, symbol) == ParseStepView::Complete(
            CommandActionView::SendToBrowser(BrowserCommandView::ClickElement(name)),
        ),
        spec_plan_command(BrowserCommandView::ClickElement(name), config) == BrowserActionView::Click(
            spec_locator(config.elements[name].element),
        ),
{
    lemma_command_words();
    let w = toggle_prefix() + name;
    let e = Seq::<char>::empty();
    assert(w[0] == 't');
    assert(w.last() == if name.len() > 0 { name.last() } else { '_' });
    lemma_trim_surrounded(e, w, e);
    assert(e + w + e =~= w);
    assert(symbol + toggle_prefix() + name =~= symbol + w);
    lemma_skip_symbol(symbol, w);
    assert(toggle_prefix().is_prefix_of(w)) by {
        assert(w.subrange(0, 7) =~= toggle_prefix());
    }
    assert(spec_key_named(w) is None && w != "get_url"@);
    assert(w.skip(7) =~= name);
    assert(strip_repeated_prefix(name, toggle_prefix()) == name);
}

/// A command word that names a `goto` URL and no element is answered
/// `<word>: Key not found in config` and navigates to that URL.
pub proof fn goto_names_navigate(symbol: Seq<char>, word: Seq<char>, config: BrowserConfigView)
    requires
        word.len() > 0 ==> !is_whitespace(word[0]) && !is_whitespace(word.last()),
        spec_decide_command(word) == ParseStepView::AwaitElementValue(word),
        config.goto.dom().contains(word),
        !config.elements.dom().contains(word),
    ensures
        spec_parse_command(symbol + word, symbol) == ParseStepView::AwaitElementValue(word),
        spec_plan_command(BrowserCommandView::GetElementValue(word), config) == BrowserActionView::Reply(
            unknown_element_reply(),
        ),
        spec_dispatch(spec_element_reply_action(word, Some(unknown_element_reply())))
            == (ParsedCommandResultView {
            command: Some(BrowserCommandView::Goto(word)),
            response: Some(word + ": "@ + unknown_element_reply()),
        }),
        spec_plan_command(BrowserCommandView::Goto(word), config) == BrowserActionView::Navigate(
            config.goto[word],
        ),
{
    let e = Seq::<char>::empty();
    surrounding_whitespace_is_ignored(symbol, e, word, e);
    assert(symbol + e + word + e =~= symbol + word);
}

/// Whenever the browser answers an element request, the command word is sent
/// back as navigation, and the answer is `<word>: <answer>`.
pub proof fn answered_words_navigate(word: Seq<char>, answer: Seq<char>)
    ensures
        spec_dispatch(spec_element_reply_action(word, Some(answer))) == (ParsedCommandResultView {
            command: Some(BrowserCommandView::Goto(word)),
            response: Some(word + ": "@ + answer),
        }),
{
}

/// Reading an element ends within four steps: the start enters a frame or
/// looks for the element; after the frame comes the search or the end; after
/// the search, the read or the end; after the read, the end.
pub proof fn element_reading_ends(
    element: ElementConfigView,
    frame: FrameOutcome,
    find: FindOutcome,
    read: ReadOutcomeView,
)
    ensures
        spec_fetch_start(element) is EnterFrame || spec_fetch_start(element) is Find,
        spec_fetch_after_frame(element, frame) is Find || spec_fetch_after_frame(element, frame) is Done,
        spec_fetch_after_find(element, find) is Read || spec_fetch_after_find(element, find) is Done,
        spec_fetch_after_read(read) is Done || spec_fetch_after_read(read) is Failed,
{
}

} // verus!

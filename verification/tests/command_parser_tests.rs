use wimble::browser::{BrowserCommand, Key};
use wimble::command_parser::{
    action_for_element_reply, action_for_url_reply, handle_parsed_command, parse_command,
    CommandAction, ParseStep,
};
use wimble::stdin_source::StdinSource;

#[test]
fn test_parse_command_up() {
    let action = parse_command("!up", "!");
    if let ParseStep::Complete(CommandAction::SendToBrowser(BrowserCommand::PredefinedKey(key))) = action {
        assert_eq!(format!("{:?}", key), "Up");
    } else {
        panic!("Unexpected command action");
    }
}

#[test]
fn test_parse_command_toggle_element() {
    let action = parse_command("!toggle_submit", "!");
    if let ParseStep::Complete(CommandAction::SendToBrowser(BrowserCommand::ClickElement(ref s))) = action {
        assert_eq!(s, "submit");
    } else {
        panic!("Expected ClickElement");
    }
}

#[test]
fn test_parse_command_non_command() {
    let action = parse_command("hello world", "!");
    assert!(matches!(action, ParseStep::Complete(CommandAction::Noop)));
}

#[test]
fn down_and_space_press_keys() {
    assert!(matches!(
        parse_command("!down", "!"),
        ParseStep::Complete(CommandAction::SendToBrowser(BrowserCommand::PredefinedKey(Key::Down)))
    ));
    assert!(matches!(
        parse_command("!space", "!"),
        ParseStep::Complete(CommandAction::SendToBrowser(BrowserCommand::PredefinedKey(Key::Space)))
    ));
}

#[test]
fn surrounding_whitespace_is_ignored_in_commands() {
    assert!(matches!(
        parse_command("!  up \t\n", "!"),
        ParseStep::Complete(CommandAction::SendToBrowser(BrowserCommand::PredefinedKey(Key::Up)))
    ));
    // U+3000 and U+00A0 are whitespace too, as for `str::trim`.
    assert!(matches!(
        parse_command("!\u{3000}space\u{a0}", "!"),
        ParseStep::Complete(CommandAction::SendToBrowser(BrowserCommand::PredefinedKey(Key::Space)))
    ));
    // Whitespace before the symbol makes the message no command.
    assert!(matches!(parse_command(" !up", "!"), ParseStep::Complete(CommandAction::Noop)));
}

#[test]
fn command_words_are_case_sensitive() {
    match parse_command("!UP", "!") {
        ParseStep::AwaitElementValue(word) => assert_eq!(word, "UP"),
        other => panic!("unexpected {:?}", other),
    }
}

#[test]
fn get_url_waits_for_the_url() {
    assert!(matches!(parse_command("!get_url", "!"), ParseStep::AwaitUrl));
    match action_for_url_reply(Some("https://twitch.tv/x".to_string())) {
        CommandAction::ResponseOnly(s) => assert_eq!(s, "https://twitch.tv/x"),
        other => panic!("unexpected {:?}", other),
    }
    match action_for_url_reply(None) {
        CommandAction::ResponseOnly(s) => assert_eq!(s, "Failed to fetch URL"),
        other => panic!("unexpected {:?}", other),
    }
}

#[test]
fn repeated_toggle_prefixes_are_removed() {
    match parse_command("!toggle_toggle_menu", "!") {
        ParseStep::Complete(CommandAction::SendToBrowser(BrowserCommand::ClickElement(s))) => {
            assert_eq!(s, "menu")
        }
        other => panic!("unexpected {:?}", other),
    }
    match parse_command("!toggle_", "!") {
        ParseStep::Complete(CommandAction::SendToBrowser(BrowserCommand::ClickElement(s))) => {
            assert_eq!(s, "")
        }
        other => panic!("unexpected {:?}", other),
    }
}

#[test]
fn other_words_ask_for_an_element() {
    match parse_command("!youtube", "!") {
        ParseStep::AwaitElementValue(word) => assert_eq!(word, "youtube"),
        other => panic!("unexpected {:?}", other),
    }
    match parse_command("!!", "!!") {
        ParseStep::AwaitElementValue(word) => assert_eq!(word, ""),
        other => panic!("unexpected {:?}", other),
    }
    match parse_command("#élan ", "#") {
        ParseStep::AwaitElementValue(word) => assert_eq!(word, "élan"),
        other => panic!("unexpected {:?}", other),
    }
}

#[test]
fn answered_element_requests_navigate_and_answer() {
    match action_for_element_reply("youtube".to_string(), Some("Key not found in config".to_string())) {
        CommandAction::WithResponse(BrowserCommand::Goto(key), message) => {
            assert_eq!(key, "youtube");
            assert_eq!(message, "youtube: Key not found in config");
        }
        other => panic!("unexpected {:?}", other),
    }
}

#[test]
fn single_characters_are_typed_at_once() {
    match parse_command("!a", "!") {
        ParseStep::Complete(CommandAction::SendToBrowser(BrowserCommand::RawCharacter(s))) => assert_eq!(s, "a"),
        other => panic!("unexpected {:?}", other),
    }
    // Characters are counted, not bytes: "é" is one character.
    match parse_command("!é", "!") {
        ParseStep::Complete(CommandAction::SendToBrowser(BrowserCommand::RawCharacter(s))) => assert_eq!(s, "é"),
        other => panic!("unexpected {:?}", other),
    }
    match parse_command("! 7 ", "!") {
        ParseStep::Complete(CommandAction::SendToBrowser(BrowserCommand::RawCharacter(s))) => assert_eq!(s, "7"),
        other => panic!("unexpected {:?}", other),
    }
}

#[test]
fn unanswered_words_are_navigated() {
    match action_for_element_reply("a".to_string(), None) {
        CommandAction::SendToBrowser(BrowserCommand::RawCharacter(s)) => assert_eq!(s, "a"),
        other => panic!("unexpected {:?}", other),
    }
    match action_for_element_reply("é".to_string(), None) {
        CommandAction::SendToBrowser(BrowserCommand::RawCharacter(s)) => assert_eq!(s, "é"),
        other => panic!("unexpected {:?}", other),
    }
    match action_for_element_reply("google".to_string(), None) {
        CommandAction::SendToBrowser(BrowserCommand::Goto(s)) => assert_eq!(s, "google"),
        other => panic!("unexpected {:?}", other),
    }
}

#[test]
fn every_key_word_presses_its_key() {
    let words = [
        ("up", Key::Up),
        ("down", Key::Down),
        ("left", Key::Left),
        ("right", Key::Right),
        ("space", Key::Space),
        ("enter", Key::Enter),
        ("esc", Key::Escape),
        ("delete", Key::Delete),
    ];
    for (word, key) in words {
        match parse_command(&format!("!{}", word), "!") {
            ParseStep::Complete(CommandAction::SendToBrowser(BrowserCommand::PredefinedKey(k))) => assert_eq!(k, key),
            other => panic!("unexpected {:?} for {}", other, word),
        }
    }
}

#[test]
fn actions_split_into_command_and_response() {
    let r = handle_parsed_command(CommandAction::WithResponse(
        BrowserCommand::Goto("g".to_string()),
        "g: x".to_string(),
    ));
    assert!(matches!(r.command, Some(BrowserCommand::Goto(ref s)) if s == "g"));
    assert_eq!(r.response.as_deref(), Some("g: x"));
    let r = handle_parsed_command(CommandAction::SendToBrowser(BrowserCommand::FetchUrl));
    assert!(matches!(r.command, Some(BrowserCommand::FetchUrl)));
    assert!(r.response.is_none());
    let r = handle_parsed_command(CommandAction::ResponseOnly("hi".to_string()));
    assert!(r.command.is_none());
    assert_eq!(r.response.as_deref(), Some("hi"));
    let r = handle_parsed_command(CommandAction::Noop);
    assert!(r.command.is_none() && r.response.is_none());
}

#[test]
fn stdin_lines_use_the_source_symbol() {
    let source = StdinSource { command_symbol: "?".to_string() };
    assert!(matches!(source.parse_line("?get_url"), ParseStep::AwaitUrl));
    assert!(matches!(source.parse_line("!get_url"), ParseStep::Complete(CommandAction::Noop)));
}

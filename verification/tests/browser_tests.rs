use wimble::browser::{
    element_locator, element_reply, frame_locator, fetch_after_find, fetch_after_frame, fetch_after_read,
    fetch_start, named_element_queries, named_value, plan_command, read_request, BrowserAction,
    BrowserCommand, FetchStep, FindOutcome, FrameOutcome, Key, Locator, ReadOutcome, ReadRequest,
};
use wimble::command_parser::{
    action_for_element_reply, action_for_url_reply, handle_parsed_command, parse_command, ParseStep,
};
use wimble::config::{BrowserConfig, ElementConfig, OutputMode};
use wimble::streambot::response_targets;
use wimble::table::KeyedTable;

fn element(e: &str, a: &str, frame: Option<&str>) -> ElementConfig {
    ElementConfig { element: e.to_string(), attribute: a.to_string(), iframe: frame.map(|f| f.to_string()) }
}

fn browser_config() -> BrowserConfig {
    let mut goto = KeyedTable::new();
    goto.insert("youtube".to_string(), "https://youtube.com".to_string());
    goto.insert("google".to_string(), "https://google.com".to_string());
    let mut elements = KeyedTable::new();
    elements.insert("title".to_string(), element("h1.title", "text", None));
    elements.insert("link".to_string(), element(" //a", "href", Some("#frame")));
    BrowserConfig { enabled: true, start_url: "https://twitch.tv".to_string(), goto, elements }
}

#[test]
fn element_requests_read_configured_elements() {
    let config = browser_config();
    match plan_command(&BrowserCommand::GetElementValue("title".to_string()), &config) {
        BrowserAction::ReadElement(e) => assert_eq!(e.element, "h1.title"),
        other => panic!("unexpected {:?}", other),
    }
    match plan_command(&BrowserCommand::GetElementValue("nope".to_string()), &config) {
        BrowserAction::Reply(s) => assert_eq!(s, "Key not found in config"),
        other => panic!("unexpected {:?}", other),
    }
}

#[test]
fn goto_navigates_to_configured_urls() {
    let config = browser_config();
    match plan_command(&BrowserCommand::Goto("google".to_string()), &config) {
        BrowserAction::Navigate(url) => assert_eq!(url, "https://google.com"),
        other => panic!("unexpected {:?}", other),
    }
    assert!(matches!(
        plan_command(&BrowserCommand::Goto("bing".to_string()), &config),
        BrowserAction::Nothing
    ));
}

#[test]
fn keys_text_url_and_clicks_are_planned() {
    let config = browser_config();
    assert!(matches!(
        plan_command(&BrowserCommand::PredefinedKey(Key::Down), &config),
        BrowserAction::PressKey(Key::Down)
    ));
    match plan_command(&BrowserCommand::RawCharacter("a".to_string()), &config) {
        BrowserAction::TypeText(t) => assert_eq!(t, "a"),
        other => panic!("unexpected {:?}", other),
    }
    assert!(matches!(plan_command(&BrowserCommand::FetchUrl, &config), BrowserAction::ReplyCurrentUrl));
    match plan_command(&BrowserCommand::ClickElement("link".to_string()), &config) {
        BrowserAction::Click(Locator::XPath(x)) => assert_eq!(x, " //a"),
        other => panic!("unexpected {:?}", other),
    }
    assert!(matches!(
        plan_command(&BrowserCommand::ClickElement("nope".to_string()), &config),
        BrowserAction::Nothing
    ));
}

#[test]
fn elements_are_located_by_xpath() {
    assert!(matches!(element_locator(&"//div".to_string()), Locator::XPath(ref s) if s == "//div"));
    assert!(matches!(element_locator(&"(//a)[1]".to_string()), Locator::XPath(ref s) if s == "(//a)[1]"));
    assert!(matches!(element_locator(&"  /html".to_string()), Locator::XPath(ref s) if s == "  /html"));
}

#[test]
fn frames_are_located_by_id_or_css() {
    assert!(matches!(frame_locator(&"#player".to_string()), Locator::Id(ref s) if s == "player"));
    assert!(matches!(frame_locator(&"#".to_string()), Locator::Id(ref s) if s.is_empty()));
    assert!(matches!(frame_locator(&"iframe.video".to_string()), Locator::Css(ref s) if s == "iframe.video"));
    assert!(matches!(frame_locator(&"player".to_string()), Locator::Css(ref s) if s == "player"));
}

#[test]
fn text_attribute_reads_text() {
    assert!(matches!(read_request(&"text".to_string()), ReadRequest::Text));
    assert!(matches!(read_request(&"href".to_string()), ReadRequest::Attribute(ref s) if s == "href"));
    assert!(matches!(read_request(&"Text".to_string()), ReadRequest::Attribute(ref s) if s == "Text"));
}

#[test]
fn fetch_with_frame_enters_it_first() {
    let e = element("//a", "href", Some("#player"));
    assert!(matches!(fetch_start(&e), FetchStep::EnterFrame(Locator::Id(ref id)) if id == "player"));
    let css = element("//a", "href", Some("div > iframe"));
    assert!(matches!(fetch_start(&css), FetchStep::EnterFrame(Locator::Css(ref s)) if s == "div > iframe"));
    assert!(matches!(fetch_after_frame(&e, FrameOutcome::Entered), FetchStep::Find(Locator::XPath(ref s)) if s == "//a"));
    assert!(matches!(fetch_after_frame(&e, FrameOutcome::NotFound), FetchStep::Done(ref s) if s == "Failed to find iframe"));
    assert!(matches!(fetch_after_frame(&e, FrameOutcome::EnterFailed), FetchStep::Done(ref s) if s == "Failed to enter iframe"));
}

#[test]
fn fetch_without_frame_finds_and_reads() {
    let e = element("div.c", "text", None);
    assert!(matches!(fetch_start(&e), FetchStep::Find(Locator::XPath(ref s)) if s == "div.c"));
    assert!(matches!(fetch_after_find(&e, FindOutcome::Found), FetchStep::Read(ReadRequest::Text)));
    assert!(matches!(fetch_after_find(&e, FindOutcome::Error), FetchStep::Done(ref s) if s == "Element not found (error)"));
    assert!(matches!(fetch_after_find(&e, FindOutcome::TimedOut), FetchStep::Done(ref s) if s == "Element not found (timeout)"));
    assert!(matches!(fetch_after_read(ReadOutcome::Text("hi".to_string())), FetchStep::Done(ref s) if s == "hi"));
    assert!(matches!(fetch_after_read(ReadOutcome::Attribute(Some("v".to_string()))), FetchStep::Done(ref s) if s == "v"));
    assert!(matches!(fetch_after_read(ReadOutcome::Attribute(None)), FetchStep::Done(ref s) if s.is_empty()));
    assert!(matches!(fetch_after_read(ReadOutcome::Failed), FetchStep::Failed));
}

#[test]
fn failed_reads_are_answered_error() {
    assert_eq!(element_reply(None), "Error");
    assert_eq!(element_reply(Some("x".to_string())), "x");
}

#[test]
fn element_report_queries_every_element_by_xpath() {
    let config = browser_config();
    let queries = named_element_queries(&config);
    assert_eq!(queries.len(), 2);
    for q in &queries {
        match q.name.as_str() {
            "title" => {
                assert!(matches!(q.locator, Locator::XPath(ref s) if s == "h1.title"));
                assert!(matches!(q.read, ReadRequest::Text));
            }
            "link" => {
                assert!(matches!(q.locator, Locator::XPath(ref s) if s == " //a"));
                assert!(matches!(q.read, ReadRequest::Attribute(ref s) if s == "href"));
            }
            other => panic!("unexpected {}", other),
        }
    }
    assert_eq!(named_value(ReadOutcome::Failed), "");
    assert_eq!(named_value(ReadOutcome::Text("t".to_string())), "t");
}

#[test]
fn table_keeps_one_value_per_name() {
    let mut t: KeyedTable<String> = KeyedTable::new();
    assert_eq!(t.len(), 0);
    t.insert("a".to_string(), "1".to_string());
    t.insert("b".to_string(), "2".to_string());
    t.insert("a".to_string(), "3".to_string());
    assert_eq!(t.len(), 2);
    assert_eq!(t.get("a").unwrap(), "3");
    assert_eq!(t.get("b").unwrap(), "2");
    assert!(t.get("c").is_none());
    assert_eq!(t.entries().len(), 2);
}

#[test]
fn responses_go_where_the_output_mode_says() {
    let r = response_targets(OutputMode::Chat);
    assert!(r.chat && !r.stdout);
    let r = response_targets(OutputMode::Stdout);
    assert!(!r.chat && r.stdout);
    let r = response_targets(OutputMode::Both);
    assert!(r.chat && r.stdout);
}

#[test]
fn goto_names_are_answered_and_navigated() {
    let config = browser_config();
    let word = match parse_command("!google", "!") {
        ParseStep::AwaitElementValue(w) => w,
        other => panic!("unexpected {:?}", other),
    };
    let answer = match plan_command(&BrowserCommand::GetElementValue(word.clone()), &config) {
        BrowserAction::Reply(s) => s,
        other => panic!("unexpected {:?}", other),
    };
    let result = handle_parsed_command(action_for_element_reply(word, Some(answer)));
    assert_eq!(result.response.as_deref(), Some("google: Key not found in config"));
    let command = result.command.unwrap();
    match plan_command(&command, &config) {
        BrowserAction::Navigate(url) => assert_eq!(url, "https://google.com"),
        other => panic!("unexpected {:?}", other),
    }
}

#[test]
fn get_url_is_answered_with_the_url() {
    let config = browser_config();
    assert!(matches!(parse_command("!get_url", "!"), ParseStep::AwaitUrl));
    assert!(matches!(plan_command(&BrowserCommand::FetchUrl, &config), BrowserAction::ReplyCurrentUrl));
    let result = handle_parsed_command(action_for_url_reply(Some("https://twitch.tv/".to_string())));
    assert!(result.command.is_none());
    assert_eq!(result.response.as_deref(), Some("https://twitch.tv/"));
}

use wimble::config::{load_config, LoadConfigError, OutputMode};

const README_CONFIG: &str = r#"
[global]
placeholder = true

[streambot]
enabled = true
channel = "twitch_user_name"
command_symbol = "!"
client_id = "your-client-id"
access_token = "your-access-token"
refresh_token = "your-refresh-token"
username = "your-twitch-username"

[browser]
enabled = true
start_url = "https://twitch.tv"
start_cmd = "space"

[browser.goto]
youtube = "https://youtube.com"
google = "https://google.com"

[browser.elements]
youtube_url = { element = "//*[@id='movie_player']/div[3]/div[2]/div/a", attribute = "href" }
"#;

fn settings(text: &str) -> config::Config {
    config::Config::builder()
        .add_source(config::File::from_str(text, config::FileFormat::Toml))
        .build()
        .unwrap()
}

#[test]
fn test_load_config_ok() {
    // The `config` file is the example configuration of the README.
    let config = load_config(&settings(README_CONFIG));
    assert!(config.is_ok());

    let config = config.unwrap();
    assert!(config.global.placeholder);
}

#[test]
fn readme_config_fields_are_read() {
    let config = load_config(&settings(README_CONFIG)).unwrap();
    assert!(config.streambot.enabled);
    assert_eq!(config.streambot.channel, "twitch_user_name");
    assert_eq!(config.streambot.username, "your-twitch-username");
    assert_eq!(config.streambot.command_symbol, "!");
    assert_eq!(config.streambot.access_token, "your-access-token");
    assert_eq!(config.streambot.refresh_token, "your-refresh-token");
    assert_eq!(config.streambot.output, OutputMode::Chat);
    assert!(config.browser.enabled);
    assert_eq!(config.browser.start_url, "https://twitch.tv");
    assert_eq!(config.browser.goto.len(), 2);
    assert_eq!(config.browser.goto.get("youtube").unwrap(), "https://youtube.com");
    assert_eq!(config.browser.goto.get("google").unwrap(), "https://google.com");
    assert!(config.browser.goto.get("bing").is_none());
    assert_eq!(config.browser.elements.len(), 1);
    let element = config.browser.elements.get("youtube_url").unwrap();
    assert_eq!(element.element, "//*[@id='movie_player']/div[3]/div[2]/div/a");
    assert_eq!(element.attribute, "href");
    assert!(element.iframe.is_none());
}

#[test]
fn element_frame_is_read() {
    let text = README_CONFIG.replace(
        r#"attribute = "href" }"#,
        r##"attribute = "text", iframe = "#player" }"##,
    );
    let config = load_config(&settings(&text)).unwrap();
    let element = config.browser.elements.get("youtube_url").unwrap();
    assert_eq!(element.attribute, "text");
    assert_eq!(element.iframe.as_deref(), Some("#player"));
}

#[test]
fn missing_placeholder_is_reported() {
    let text = README_CONFIG.replace("placeholder = true", "");
    match load_config(&settings(&text)) {
        Err(LoadConfigError::Setting { key, .. }) => assert_eq!(key, "global.placeholder"),
        other => panic!("unexpected {:?}", other.map(|_| ())),
    }
}

#[test]
fn first_missing_setting_in_order_is_reported() {
    let text = README_CONFIG
        .replace("channel = \"twitch_user_name\"", "")
        .replace("start_url = \"https://twitch.tv\"", "");
    match load_config(&settings(&text)) {
        Err(LoadConfigError::Setting { key, message }) => {
            assert_eq!(key, "streambot.channel");
            assert!(!message.is_empty());
        }
        other => panic!("unexpected {:?}", other.map(|_| ())),
    }
}

#[test]
fn missing_goto_table_is_reported() {
    let text = README_CONFIG
        .replace("[browser.goto]", "")
        .replace("youtube = \"https://youtube.com\"", "")
        .replace("google = \"https://google.com\"", "");
    match load_config(&settings(&text)) {
        Err(LoadConfigError::Setting { key, .. }) => assert_eq!(key, "browser.goto"),
        other => panic!("unexpected {:?}", other.map(|_| ())),
    }
}

#[test]
fn unreadable_bool_is_reported() {
    let text = README_CONFIG.replace("placeholder = true", "placeholder = \"maybe\"");
    match load_config(&settings(&text)) {
        Err(LoadConfigError::Setting { key, .. }) => assert_eq!(key, "global.placeholder"),
        other => panic!("unexpected {:?}", other.map(|_| ())),
    }
}

#[test]
fn element_without_attribute_is_reported() {
    let text = README_CONFIG.replace(r#", attribute = "href""#, "");
    match load_config(&settings(&text)) {
        Err(LoadConfigError::ElementField { element, field }) => {
            assert_eq!(element, "youtube_url");
            assert_eq!(field, "attribute");
        }
        other => panic!("unexpected {:?}", other.map(|_| ())),
    }
}

#[test]
fn output_mode_is_read() {
    let text = README_CONFIG.replace("[browser]", "output = \"Both\"\n\n[browser]");
    let config = load_config(&settings(&text)).unwrap();
    assert_eq!(config.streambot.output, OutputMode::Both);
    let text = README_CONFIG.replace("[browser]", "output = \"Stdout\"\n\n[browser]");
    let config = load_config(&settings(&text)).unwrap();
    assert_eq!(config.streambot.output, OutputMode::Stdout);
}

#[test]
fn unknown_output_mode_falls_back_to_chat() {
    let text = README_CONFIG.replace("[browser]", "output = \"everywhere\"\n\n[browser]");
    let config = load_config(&settings(&text)).unwrap();
    assert_eq!(config.streambot.output, OutputMode::Chat);
    let text = README_CONFIG.replace("[browser]", "output = \"stdout\"\n\n[browser]");
    let config = load_config(&settings(&text)).unwrap();
    assert_eq!(config.streambot.output, OutputMode::Stdout);
}

#[test]
fn undeclared_element_keys_are_ignored() {
    let text = README_CONFIG.replace(
        r#"attribute = "href" }"#,
        r#"attribute = "href", extra = { a = 1 }, list = [1, 2], note = "x" }"#,
    );
    let config = load_config(&settings(&text)).unwrap();
    let element = config.browser.elements.get("youtube_url").unwrap();
    assert_eq!(element.attribute, "href");
    assert!(element.iframe.is_none());
}

#[test]
fn element_names_need_not_be_identifiers() {
    let text = README_CONFIG.replace(
        "youtube_url = {",
        r#""my.site link" = {"#,
    );
    let config = load_config(&settings(&text)).unwrap();
    assert!(config.browser.elements.get("my.site link").is_some());
}

#[test]
fn element_fields_that_hold_no_text_are_reported() {
    let text = README_CONFIG.replace(r#"attribute = "href""#, r#"attribute = { a = 1 }"#);
    match load_config(&settings(&text)) {
        Err(LoadConfigError::ElementField { element, field }) => {
            assert_eq!(element, "youtube_url");
            assert_eq!(field, "attribute");
        }
        other => panic!("unexpected {:?}", other.map(|_| ())),
    }
    let text = README_CONFIG.replace(r#"attribute = "href""#, r#"attribute = "href", iframe = [1]"#);
    match load_config(&settings(&text)) {
        Err(LoadConfigError::ElementField { field, .. }) => assert_eq!(field, "iframe"),
        other => panic!("unexpected {:?}", other.map(|_| ())),
    }
    // Both missing: `element` is reported first.
    let text = README_CONFIG.replace(
        r#"{ element = "//*[@id='movie_player']/div[3]/div[2]/div/a", attribute = "href" }"#,
        r#"{ note = "x" }"#,
    );
    match load_config(&settings(&text)) {
        Err(LoadConfigError::ElementField { field, .. }) => assert_eq!(field, "element"),
        other => panic!("unexpected {:?}", other.map(|_| ())),
    }
}

#[test]
fn numbers_read_as_text_where_text_is_wanted() {
    let text = README_CONFIG.replace(r#"attribute = "href""#, r#"attribute = 5"#);
    let config = load_config(&settings(&text)).unwrap();
    assert_eq!(config.browser.elements.get("youtube_url").unwrap().attribute, "5");
}

#[test]
fn null_frame_override_means_no_frame() {
    let text = README_CONFIG.replace(
        r#"attribute = "href" }"#,
        r##"attribute = "href", iframe = "#player" }"##,
    );
    let settings = config::Config::builder()
        .add_source(config::File::from_str(&text, config::FileFormat::Toml))
        .set_override("browser.elements.youtube_url.iframe", Option::<String>::None)
        .unwrap()
        .build()
        .unwrap();
    let config = load_config(&settings).unwrap();
    assert!(config.browser.elements.get("youtube_url").unwrap().iframe.is_none());
}

#[test]
fn json_null_frame_means_no_frame() {
    let json = r#"{
        "global": { "placeholder": true },
        "streambot": { "enabled": true, "channel": "c", "username": "u", "command_symbol": "!",
                       "access_token": "a", "refresh_token": "r" },
        "browser": { "enabled": false, "start_url": "https://twitch.tv",
                     "goto": {},
                     "elements": { "title": { "element": "//h1", "attribute": "text", "iframe": null } } }
    }"#;
    let settings = config::Config::builder()
        .add_source(config::File::from_str(json, config::FileFormat::Json))
        .build()
        .unwrap();
    let config = load_config(&settings).unwrap();
    let title = config.browser.elements.get("title").unwrap();
    assert_eq!(title.element, "//h1");
    assert!(title.iframe.is_none());
    assert!(!config.browser.enabled);
    assert_eq!(config.browser.goto.len(), 0);
}

#[test]
fn null_element_field_is_reported() {
    let settings = config::Config::builder()
        .add_source(config::File::from_str(README_CONFIG, config::FileFormat::Toml))
        .set_override("browser.elements.youtube_url.element", Option::<String>::None)
        .unwrap()
        .build()
        .unwrap();
    match load_config(&settings) {
        Err(LoadConfigError::ElementField { element, field }) => {
            assert_eq!(element, "youtube_url");
            assert_eq!(field, "element");
        }
        other => panic!("unexpected {:?}", other.map(|_| ())),
    }
}

#[test]
fn undeclared_settings_change_nothing() {
    let plain = load_config(&settings(README_CONFIG)).unwrap();
    let extra = README_CONFIG
        .replace("[global]", "[global]\nnote = { deep = [1, 2] }")
        .replace("[browser]", "mode = 3\n\n[browser]");
    let with_extra = load_config(&settings(&extra)).unwrap();
    assert_eq!(plain.global.placeholder, with_extra.global.placeholder);
    assert_eq!(plain.streambot.channel, with_extra.streambot.channel);
    assert_eq!(plain.browser.start_url, with_extra.browser.start_url);
    assert_eq!(plain.browser.goto.len(), with_extra.browser.goto.len());
    assert_eq!(plain.browser.elements.len(), with_extra.browser.elements.len());
}

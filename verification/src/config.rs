//! The application's settings and how they are read out of a
//! `config::Config` repository (built from the `config` file by the caller).
use vstd::prelude::*;
use crate::table::{entries_map, keys_distinct, lookup_entry, KeyedTable};
use crate::text::same_text;

verus! {

#[verifier::external_type_specification]
#[verifier::external_body]
pub struct ExConfig(config::Config);

#[verifier::external_type_specification]
#[verifier::external_body]
pub struct ExConfigError(config::ConfigError);

/// The keys at which `Config::get_bool` succeeds on `settings`, each with the
/// value it returns.
pub uninterp spec fn config_bools(settings: config::Config) -> Map<Seq<char>, bool>;

/// The keys at which `Config::get_string` succeeds on `settings`, each with
/// the string it returns.
pub uninterp spec fn config_strings(settings: config::Config) -> Map<Seq<char>, Seq<char>>;

/// The keys at which `Config::get` succeeds on `settings` when asked for a
/// `HashMap<String, String>`, each with the map it returns.
pub uninterp spec fn config_string_tables(settings: config::Config) -> Map<
    Seq<char>,
    Map<Seq<char>, Seq<char>>,
>;

/// The keys at which `Config::get` succeeds on `settings` when asked for a
/// `HashMap<String, HashMap<String, config::Value>>` (a table of tables),
/// each with that table: for each entry, each field as `Nil` where the value
/// is nil, else as the text that `Value::into_string` gives it, or
/// `Unreadable` where `into_string` fails.
pub uninterp spec fn config_field_tables(settings: config::Config) -> Map<
    Seq<char>,
    Map<Seq<char>, Map<Seq<char>, FieldValue>>,
>;

/// A field's value, as far as settings read it.
#[derive(Debug)]
pub enum FieldText {
    /// The value is nil (no value).
    Nil,
    /// The value read as text.
    Text(String),
    /// The value cannot be read as text.
    Unreadable,
}

/// A field's value, as far as settings read it.
pub enum FieldValue {
    Nil,
    Text(Seq<char>),
    Unreadable,
}

impl View for FieldText {
    type V = FieldValue;

    open spec fn view(&self) -> FieldValue {
        match self {
            FieldText::Nil => FieldValue::Nil,
            FieldText::Text(s) => FieldValue::Text(s@),
            FieldText::Unreadable => FieldValue::Unreadable,
        }
    }
}

/// The map that a list of (name, list of (field, text)) entries describes.
pub open spec fn nested_entries_map(s: Seq<(String, Vec<(String, FieldText)>)>) -> Map<
    Seq<char>,
    Map<Seq<char>, FieldValue>,
>
    decreases s.len(),
{
    if s.len() == 0 {
        Map::empty()
    } else {
        nested_entries_map(s.drop_last()).insert(s.last().0@, entries_map(s.last().1@))
    }
}

/// `Config::get_bool`: reads the setting at `key` as a boolean. Claimed: it
/// succeeds exactly at the keys of `config_bools` and returns the value
/// recorded there (the name is defined as what this call returns).
#[verifier::external_body]
fn read_bool(settings: &config::Config, key: &str) -> (r: Result<bool, config::ConfigError>)
    ensures
        r is Ok <==> config_bools(*settings).dom().contains(key@),
        r matches Ok(b) ==> b == config_bools(*settings)[key@],
{
    settings.get_bool(key)
}

/// `Config::get_string`: reads the setting at `key` as text. Claimed: it
/// succeeds exactly at the keys of `config_strings` and returns the text
/// recorded there.
#[verifier::external_body]
fn read_string(settings: &config::Config, key: &str) -> (r: Result<String, config::ConfigError>)
    ensures
        r is Ok <==> config_strings(*settings).dom().contains(key@),
        r matches Ok(s) ==> s@ == config_strings(*settings)[key@],
{
    settings.get_string(key)
}

/// `Config::get::<HashMap<String, String>>`: reads the table at `key`, whose
/// values are all read as text. Claimed: it succeeds exactly at the keys of
/// `config_string_tables`; the entries come out in the map's (unspecified)
/// order, each name once, and describe the map recorded there.
#[verifier::external_body]
fn read_string_table(settings: &config::Config, key: &str) -> (r: Result<
    Vec<(String, String)>,
    config::ConfigError,
>)
    ensures
        r is Ok <==> config_string_tables(*settings).dom().contains(key@),
        r matches Ok(v) ==> keys_distinct(v@) && entries_map(v@) == config_string_tables(
            *settings,
        )[key@],
{
    match settings.get::<std::collections::HashMap<String, String>>(key) {
        Ok(table) => Ok(table.into_iter().collect()),
        Err(e) => Err(e),
    }
}

/// `Config::get::<HashMap<String, HashMap<String, config::Value>>>`: reads
/// the table of tables at `key`; each field is `Nil` where its value's kind is
/// `ValueKind::Nil`, else `Value::into_string` reads it as text. Claimed: the read succeeds exactly at the keys of
/// `config_field_tables`; entries come out in unspecified order, each name
/// once (also within each inner table), and describe the map recorded there.
#[verifier::external_body]
fn read_field_tables(settings: &config::Config, key: &str) -> (r: Result<
    Vec<(String, Vec<(String, FieldText)>)>,
    config::ConfigError,
>)
    ensures
        r is Ok <==> config_field_tables(*settings).dom().contains(key@),
        r matches Ok(v) ==> {
            &&& keys_distinct(v@)
            &&& forall|i: int| 0 <= i < v@.len() ==> keys_distinct(#[trigger] v@[i].1@)
            &&& nested_entries_map(v@) == config_field_tables(*settings)[key@]
        },
{
    match settings.get::<std::collections::HashMap<String, std::collections::HashMap<String, config::Value>>>(key) {
        Ok(table) => Ok(table.into_iter().map(|(name, fields)| (name, fields.into_iter().map(|(field, value)| (field, match &value.kind {
            config::ValueKind::Nil => FieldText::Nil,
            _ => match value.into_string() {
                Ok(text) => FieldText::Text(text),
                Err(_) => FieldText::Unreadable,
            },
        })).collect())).collect()),
        Err(e) => Err(e),
    }
}

/// The text that `config::ConfigError` displays. Nothing is claimed of it.
#[verifier::external_body]
fn describe_config_error(e: &config::ConfigError) -> String {
    e.to_string()
}

/// Settings that apply to the whole application.
pub struct GlobalConfig {
    pub placeholder: bool,
}

/// Where the chat bot's responses go.
#[derive(Clone, Copy, Debug, PartialEq, Eq, Structural)]
pub enum OutputMode {
    /// Said in the chat channel.
    Chat,
    /// Printed on standard output.
    Stdout,
    /// Printed, then said in the channel.
    Both,
}

/// The chat bot's settings.
pub struct StreambotConfig {
    pub enabled: bool,
    pub channel: String,
    pub username: String,
    pub command_symbol: String,
    pub access_token: String,
    pub refresh_token: String,
    pub output: OutputMode,
}

/// What a chat bot setting holds, as text.
pub struct StreambotConfigView {
    pub enabled: bool,
    pub channel: Seq<char>,
    pub username: Seq<char>,
    pub command_symbol: Seq<char>,
    pub access_token: Seq<char>,
    pub refresh_token: Seq<char>,
    pub output: OutputMode,
}

impl View for StreambotConfig {
    type V = StreambotConfigView;

    open spec fn view(&self) -> StreambotConfigView {
        StreambotConfigView {
            enabled: self.enabled,
            channel: self.channel@,
            username: self.username@,
            command_symbol: self.command_symbol@,
            access_token: self.access_token@,
            refresh_token: self.refresh_token@,
            output: self.output,
        }
    }
}

/// A named element of the page: where to find it, and what to read from it.
#[derive(Clone, Debug)]
pub struct ElementConfig {
    /// An XPath query.
    pub element: String,
    /// The attribute to read, or `text` for the element's text.
    pub attribute: String,
    /// The frame to enter first: `#id` by its id, anything else as a CSS selector.
    pub iframe: Option<String>,
}

/// What an element setting holds, as text.
pub struct ElementConfigView {
    pub element: Seq<char>,
    pub attribute: Seq<char>,
    pub iframe: Option<Seq<char>>,
}

impl View for ElementConfig {
    type V = ElementConfigView;

    open spec fn view(&self) -> ElementConfigView {
        ElementConfigView {
            element: self.element@,
            attribute: self.attribute@,
            iframe: match self.iframe {
                Some(f) => Some(f@),
                None => None,
            },
        }
    }
}

/// The browser's settings.
pub struct BrowserConfig {
    pub enabled: bool,
    pub start_url: String,
    /// URLs to navigate to, by command name.
    pub goto: KeyedTable<String>,
    /// Page elements to read, by command name.
    pub elements: KeyedTable<ElementConfig>,
}

/// What the browser settings hold.
pub struct BrowserConfigView {
    pub enabled: bool,
    pub start_url: Seq<char>,
    pub goto: Map<Seq<char>, Seq<char>>,
    pub elements: Map<Seq<char>, ElementConfigView>,
}

impl View for BrowserConfig {
    type V = BrowserConfigView;

    open spec fn view(&self) -> BrowserConfigView {
        BrowserConfigView {
            enabled: self.enabled,
            start_url: self.start_url@,
            goto: self.goto@,
            elements: self.elements@,
        }
    }
}

/// All settings.
pub struct AppConfig {
    pub global: GlobalConfig,
    pub streambot: StreambotConfig,
    pub browser: BrowserConfig,
}

/// What all settings hold.
pub struct AppConfigView {
    pub placeholder: bool,
    pub streambot: StreambotConfigView,
    pub browser: BrowserConfigView,
}

impl View for AppConfig {
    type V = AppConfigView;

    open spec fn view(&self) -> AppConfigView {
        AppConfigView {
            placeholder: self.global.placeholder,
            streambot: self.streambot@,
            browser: self.browser@,
        }
    }
}

/// Why settings could not be read.
#[derive(Debug)]
pub enum LoadConfigError {
    /// The setting at `key` is missing or cannot be read as the type it needs.
    Setting { key: String, message: String },
    /// The element setting `element` cannot be read: its `field` is missing or holds no text.
    ElementField { element: String, field: String },
}

/// Why settings could not be read, as the specification tells it apart.
pub enum LoadFailure {
    Setting(Seq<char>),
    IncompleteElement,
}

impl LoadConfigError {
    pub open spec fn failure(&self) -> LoadFailure {
        match self {
            LoadConfigError::Setting { key, .. } => LoadFailure::Setting(key@),
            LoadConfigError::ElementField { .. } => LoadFailure::IncompleteElement,
        }
    }
}

pub open spec fn setting_bool(c: config::Config, key: Seq<char>) -> Result<bool, LoadFailure> {
    if config_bools(c).dom().contains(key) {
        Ok(config_bools(c)[key])
    } else {
        Err(LoadFailure::Setting(key))
    }
}

pub open spec fn setting_string(c: config::Config, key: Seq<char>) -> Result<Seq<char>, LoadFailure> {
    if config_strings(c).dom().contains(key) {
        Ok(config_strings(c)[key])
    } else {
        Err(LoadFailure::Setting(key))
    }
}

/// The output mode a setting names: the variant's name, capitalised or in
/// lower case.
pub open spec fn output_mode_named(s: Seq<char>) -> Option<OutputMode> {
    if s == "Chat"@ || s == "chat"@ {
        Some(OutputMode::Chat)
    } else if s == "Stdout"@ || s == "stdout"@ {
        Some(OutputMode::Stdout)
    } else if s == "Both"@ || s == "both"@ {
        Some(OutputMode::Both)
    } else {
        None
    }
}

/// `streambot.output`: the mode it names; `Chat` where it is absent or names
/// no mode, so that loading never fails on it.
pub open spec fn spec_output_mode(c: config::Config) -> OutputMode {
    if config_strings(c).dom().contains("streambot.output"@) {
        match output_mode_named(config_strings(c)["streambot.output"@]) {
            Some(m) => m,
            None => OutputMode::Chat,
        }
    } else {
        OutputMode::Chat
    }
}

pub open spec fn spec_streambot(c: config::Config) -> Result<StreambotConfigView, LoadFailure> {
    match setting_bool(c, "streambot.enabled"@) {
        Err(e) => Err(e),
        Ok(enabled) => match setting_string(c, "streambot.channel"@) {
            Err(e) => Err(e),
            Ok(channel) => match setting_string(c, "streambot.username"@) {
                Err(e) => Err(e),
                Ok(username) => match setting_string(c, "streambot.command_symbol"@) {
                    Err(e) => Err(e),
                    Ok(command_symbol) => match setting_string(c, "streambot.access_token"@) {
                        Err(e) => Err(e),
                        Ok(access_token) => match setting_string(c, "streambot.refresh_token"@) {
                            Err(e) => Err(e),
                            Ok(refresh_token) => Ok(
                                StreambotConfigView {
                                    enabled,
                                    channel,
                                    username,
                                    command_symbol,
                                    access_token,
                                    refresh_token,
                                    output: spec_output_mode(c),
                                },
                            ),
                        },
                    },
                },
            },
        },
    }
}

/// How `field` reads among an element setting's fields: `None` where absent.
pub open spec fn declared_field(fields: Map<Seq<char>, FieldValue>, field: Seq<char>) -> Option<FieldValue> {
    if fields.dom().contains(field) {
        Some(fields[field])
    } else {
        None
    }
}

/// The text of a field, where it holds text.
pub open spec fn field_text_of(fields: Map<Seq<char>, FieldValue>, field: Seq<char>) -> Option<Seq<char>> {
    match declared_field(fields, field) {
        Some(FieldValue::Text(t)) => Some(t),
        _ => None,
    }
}

/// The frame setting, as `Option<String>` reads it: absent or nil is no
/// frame, text is that frame, and anything else cannot be read (`Err`).
pub open spec fn frame_reading(fields: Map<Seq<char>, FieldValue>) -> Result<Option<Seq<char>>, ()> {
    match declared_field(fields, "iframe"@) {
        None => Ok(None),
        Some(FieldValue::Nil) => Ok(None),
        Some(FieldValue::Text(t)) => Ok(Some(t)),
        Some(FieldValue::Unreadable) => Err(()),
    }
}

/// All that an element setting's reading depends on: the `element` and
/// `attribute` texts and the frame reading. Other fields are ignored.
pub open spec fn declared_readings(fields: Map<Seq<char>, FieldValue>) -> (
    Option<Seq<char>>,
    Option<Seq<char>>,
    Result<Option<Seq<char>>, ()>,
) {
    (field_text_of(fields, "element"@), field_text_of(fields, "attribute"@), frame_reading(fields))
}

/// The first field, in declaration order, that keeps an element setting from
/// being read: `element` and `attribute` must hold text, and `iframe` must be
/// absent, nil or text. Other fields are ignored.
pub open spec fn first_bad_field(fields: Map<Seq<char>, FieldValue>) -> Option<Seq<char>> {
    let (element, attribute, frame) = declared_readings(fields);
    if element is None {
        Some("element"@)
    } else if attribute is None {
        Some("attribute"@)
    } else if frame is Err {
        Some("iframe"@)
    } else {
        None
    }
}

pub open spec fn element_fields_complete(fields: Map<Seq<char>, FieldValue>) -> bool {
    first_bad_field(fields) is None
}

/// The element setting that complete fields describe.
pub open spec fn element_of_fields(fields: Map<Seq<char>, FieldValue>) -> ElementConfigView {
    let (element, attribute, frame) = declared_readings(fields);
    ElementConfigView {
        element: element.unwrap(),
        attribute: attribute.unwrap(),
        iframe: match frame {
            Ok(f) => f,
            Err(_) => None,
        },
    }
}

pub open spec fn elements_complete(m: Map<Seq<char>, Map<Seq<char>, FieldValue>>) -> bool {
    forall|n: Seq<char>| #[trigger] m.dom().contains(n) ==> element_fields_complete(m[n])
}

/// The element settings that complete element fields describe.
pub open spec fn elements_of(m: Map<Seq<char>, Map<Seq<char>, FieldValue>>) -> Map<Seq<char>, ElementConfigView> {
    Map::new(|n: Seq<char>| m.dom().contains(n), |n: Seq<char>| element_of_fields(m[n]))
}

pub open spec fn spec_elements(c: config::Config) -> Result<Map<Seq<char>, ElementConfigView>, LoadFailure> {
    if config_field_tables(c).dom().contains("browser.elements"@) {
        let m = config_field_tables(c)["browser.elements"@];
        if elements_complete(m) {
            Ok(elements_of(m))
        } else {
            Err(LoadFailure::IncompleteElement)
        }
    } else {
        Err(LoadFailure::Setting("browser.elements"@))
    }
}

pub open spec fn spec_browser(c: config::Config) -> Result<BrowserConfigView, LoadFailure> {
    match setting_bool(c, "browser.enabled"@) {
        Err(e) => Err(e),
        Ok(enabled) => match setting_string(c, "browser.start_url"@) {
            Err(e) => Err(e),
            Ok(start_url) => if config_string_tables(c).dom().contains("browser.goto"@) {
                match spec_elements(c) {
                    Err(e) => Err(e),
                    Ok(elements) => Ok(
                        BrowserConfigView {
                            enabled,
                            start_url,
                            goto: config_string_tables(c)["browser.goto"@],
                            elements,
                        },
                    ),
                }
            } else {
                Err(LoadFailure::Setting("browser.goto"@))
            },
        },
    }
}

/// The settings that `settings` holds, read field by field in declaration
/// order; the first setting that cannot be read is the failure.
pub open spec fn spec_load_config(c: config::Config) -> Result<AppConfigView, LoadFailure> {
    match setting_bool(c, "global.placeholder"@) {
        Err(e) => Err(e),
        Ok(placeholder) => match spec_streambot(c) {
            Err(e) => Err(e),
            Ok(streambot) => match spec_browser(c) {
                Err(e) => Err(e),
                Ok(browser) => Ok(AppConfigView { placeholder, streambot, browser }),
            },
        },
    }
}

fn load_bool(settings: &config::Config, key: &str) -> (r: Result<bool, LoadConfigError>)
    ensures
        r matches Ok(b) ==> setting_bool(*settings, key@) == Ok::<bool, LoadFailure>(b),
        r matches Err(e) ==> setting_bool(*settings, key@) == Err::<bool, LoadFailure>(e.failure()),
{
    match read_bool(settings, key) {
        Ok(b) => Ok(b),
        Err(e) => Err(LoadConfigError::Setting { key: key.to_string(), message: describe_config_error(&e) }),
    }
}

fn load_string(settings: &config::Config, key: &str) -> (r: Result<String, LoadConfigError>)
    ensures
        r matches Ok(s) ==> setting_string(*settings, key@) == Ok::<Seq<char>, LoadFailure>(s@),
        r matches Err(e) ==> setting_string(*settings, key@) == Err::<Seq<char>, LoadFailure>(e.failure()),
{
    match read_string(settings, key) {
        Ok(s) => Ok(s),
        Err(e) => Err(LoadConfigError::Setting { key: key.to_string(), message: describe_config_error(&e) }),
    }
}

/// The output mode that `name` names, if any.
pub fn output_mode_from_name(name: &str) -> (r: Option<OutputMode>)
    ensures
        r == output_mode_named(name@),
{
    if same_text(name, "Chat") || same_text(name, "chat") {
        Some(OutputMode::Chat)
    } else if same_text(name, "Stdout") || same_text(name, "stdout") {
        Some(OutputMode::Stdout)
    } else if same_text(name, "Both") || same_text(name, "both") {
        Some(OutputMode::Both)
    } else {
        None
    }
}

fn load_output_mode(settings: &config::Config) -> (r: OutputMode)
    ensures
        r == spec_output_mode(*settings),
{
    match read_string(settings, "streambot.output") {
        Ok(s) => match output_mode_from_name(s.as_str()) {
            Some(m) => m,
            None => OutputMode::Chat,
        },
        Err(_) => OutputMode::Chat,
    }
}

fn load_streambot(settings: &config::Config) -> (r: Result<StreambotConfig, LoadConfigError>)
    ensures
        r matches Ok(s) ==> spec_streambot(*settings) == Ok::<StreambotConfigView, LoadFailure>(s@),
        r matches Err(e) ==> spec_streambot(*settings) == Err::<StreambotConfigView, LoadFailure>(e.failure()),
{
    let enabled = load_bool(settings, "streambot.enabled")?;
    let channel = load_string(settings, "streambot.channel")?;
    let username = load_string(settings, "streambot.username")?;
    let command_symbol = load_string(settings, "streambot.command_symbol")?;
    let access_token = load_string(settings, "streambot.access_token")?;
    let refresh_token = load_string(settings, "streambot.refresh_token")?;
    let output = load_output_mode(settings);
    Ok(StreambotConfig { enabled, channel, username, command_symbol, access_token, refresh_token, output })
}

proof fn lemma_nested_value(s: Seq<(String, Vec<(String, FieldText)>)>, i: int)
    requires
        keys_distinct(s),
        0 <= i < s.len(),
    ensures
        nested_entries_map(s).dom().contains(s[i].0@),
        nested_entries_map(s)[s[i].0@] == entries_map(s[i].1@),
    decreases s.len(),
{
    if i < s.len() - 1 {
        assert(keys_distinct(s.drop_last()));
        lemma_nested_value(s.drop_last(), i);
        assert(s.drop_last()[i] == s[i]);
    }
}

/// The text of `field` among an element setting's fields, if it holds text.
fn field_text(fields: &Vec<(String, FieldText)>, field: &str) -> (r: Option<String>)
    requires
        keys_distinct(fields@),
    ensures
        r matches Some(t) ==> field_text_of(entries_map(fields@), field@) == Some(t@),
        r is None ==> field_text_of(entries_map(fields@), field@) is None,
{
    match lookup_entry(fields, field) {
        Some(FieldText::Text(t)) => Some(t.clone()),
        _ => None,
    }
}

/// Builds the element setting named `name` from its fields.
fn element_from_fields(name: &String, fields: &Vec<(String, FieldText)>) -> (r: Result<ElementConfig, LoadConfigError>)
    requires
        keys_distinct(fields@),
    ensures
        r is Ok <==> element_fields_complete(entries_map(fields@)),
        r matches Ok(e) ==> e@ == element_of_fields(entries_map(fields@)),
        r matches Err(e) ==> e matches LoadConfigError::ElementField { element, field } && element@ == name@
            && first_bad_field(entries_map(fields@)) == Some(field@),
{
    let element = match field_text(fields, "element") {
        Some(v) => v,
        None => {
            return Err(LoadConfigError::ElementField { element: name.clone(), field: "element".to_string() });
        },
    };
    let attribute = match field_text(fields, "attribute") {
        Some(v) => v,
        None => {
            return Err(LoadConfigError::ElementField { element: name.clone(), field: "attribute".to_string() });
        },
    };
    let iframe = match lookup_entry(fields, "iframe") {
        Some(FieldText::Text(t)) => Some(t.clone()),
        Some(FieldText::Nil) => None,
        Some(FieldText::Unreadable) => {
            return Err(LoadConfigError::ElementField { element: name.clone(), field: "iframe".to_string() });
        },
        None => None,
    };
    Ok(ElementConfig { element, attribute, iframe })
}

fn load_elements(settings: &config::Config) -> (r: Result<KeyedTable<ElementConfig>, LoadConfigError>)
    ensures
        r is Ok <==> spec_elements(*settings) is Ok,
        r matches Ok(t) ==> spec_elements(*settings) == Ok::<Map<Seq<char>, ElementConfigView>, LoadFailure>(t@),
        r matches Err(e) ==> spec_elements(*settings) == Err::<Map<Seq<char>, ElementConfigView>, LoadFailure>(e.failure()),
        r matches Err(LoadConfigError::ElementField { element, field }) ==> {
            let m = config_field_tables(*settings)["browser.elements"@];
            &&& m.dom().contains(element@)
            &&& first_bad_field(m[element@]) == Some(field@)
        },
{
    let entries = match read_field_tables(settings, "browser.elements") {
        Ok(v) => v,
        Err(e) => {
            return Err(LoadConfigError::Setting { key: "browser.elements".to_string(), message: describe_config_error(&e) });
        },
    };
    let ghost m = config_field_tables(*settings)["browser.elements"@];
    let mut table: KeyedTable<ElementConfig> = KeyedTable::new();
    let mut i: usize = 0;
    while i < entries.len()
        invariant
            i <= entries@.len(),
            keys_distinct(entries@),
            forall|k: int| 0 <= k < entries@.len() ==> keys_distinct(#[trigger] entries@[k].1@),
            nested_entries_map(entries@) == m,
            config_field_tables(*settings).dom().contains("browser.elements"@),
            m == config_field_tables(*settings)["browser.elements"@],
            elements_complete(nested_entries_map(entries@.take(i as int))),
            table@ == elements_of(nested_entries_map(entries@.take(i as int))),
        decreases entries@.len() - i,
    {
        let name = &entries[i].0;
        let fields = &entries[i].1;
        assert(keys_distinct(entries@[i as int].1@));
        let ghost before = nested_entries_map(entries@.take(i as int));
        assert(entries@.take(i + 1).drop_last() =~= entries@.take(i as int));
        let ghost after = nested_entries_map(entries@.take(i + 1));
        assert(after == before.insert(name@, entries_map(fields@)));
        match element_from_fields(name, fields) {
            Ok(e) => {
                let ghost table_before = table@;
                let ghost ev = e@;
                table.insert(name.clone(), e);
                assert(table@ == table_before.insert(name@, ev));
                assert(ev == element_of_fields(entries_map(fields@)));
                assert(elements_complete(after)) by {
                    assert forall|n: Seq<char>| #[trigger] after.dom().contains(n) implies element_fields_complete(after[n]) by {
                        if n != name@ {
                            assert(before.dom().contains(n));
                        }
                    }
                }
                assert(table@ =~= elements_of(after));
            },
            Err(e) => {
                proof {
                    lemma_nested_value(entries@, i as int);
                    assert(m.dom().contains(name@));
                    assert(m[name@] == entries_map(fields@));
                    assert(!element_fields_complete(m[name@]));
                    assert(!elements_complete(m));
                    assert(config_field_tables(*settings).dom().contains("browser.elements"@));
                    assert(spec_elements(*settings) is Err);
                }
                return Err(e);
            },
        }
        i = i + 1;
    }
    assert(entries@.take(entries@.len() as int) =~= entries@);
    assert(elements_complete(m));
    Ok(table)
}

fn load_browser(settings: &config::Config) -> (r: Result<BrowserConfig, LoadConfigError>)
    ensures
        r matches Ok(b) ==> spec_browser(*settings) == Ok::<BrowserConfigView, LoadFailure>(b@),
        r matches Err(e) ==> spec_browser(*settings) == Err::<BrowserConfigView, LoadFailure>(e.failure()),
        r matches Err(LoadConfigError::ElementField { element, field }) ==> {
            let m = config_field_tables(*settings)["browser.elements"@];
            &&& m.dom().contains(element@)
            &&& first_bad_field(m[element@]) == Some(field@)
        },
{
    let enabled = load_bool(settings, "browser.enabled")?;
    let start_url = load_string(settings, "browser.start_url")?;
    let goto_entries = match read_string_table(settings, "browser.goto") {
        Ok(v) => v,
        Err(e) => {
            return Err(LoadConfigError::Setting { key: "browser.goto".to_string(), message: describe_config_error(&e) });
        },
    };
    let goto = KeyedTable::from_entries(goto_entries);
    let elements = load_elements(settings)?;
    Ok(BrowserConfig { enabled, start_url, goto, elements })
}

/// Reads all settings out of `settings`, in declaration order: it fails with
/// the first setting that is missing or unreadable, or with an element
/// setting whose `element` or `attribute` is missing or holds no text, or
/// whose `iframe` is neither absent, nil nor text. Undeclared keys are ignored.
pub fn load_config(settings: &config::Config) -> (r: Result<AppConfig, LoadConfigError>)
    ensures
        r is Ok <==> spec_load_config(*settings) is Ok,
        r matches Ok(a) ==> spec_load_config(*settings) == Ok::<AppConfigView, LoadFailure>(a@),
        r matches Err(e) ==> spec_load_config(*settings) == Err::<AppConfigView, LoadFailure>(e.failure()),
        r matches Err(LoadConfigError::ElementField { element, field }) ==> {
            let m = config_field_tables(*settings)["browser.elements"@];
            &&& m.dom().contains(element@)
            &&& first_bad_field(m[element@]) == Some(field@)
        },
{
    let placeholder = load_bool(settings, "global.placeholder")?;
    let streambot = load_streambot(settings)?;
    let browser = load_browser(settings)?;
    Ok(AppConfig { global: GlobalConfig { placeholder }, streambot, browser })
}

} // verus!

//! The commands the browser worker takes, and its decisions: what each
//! command does under the browser settings, and the steps of reading a
//! configured page element.
use vstd::prelude::*;
use crate::config::{BrowserConfig, BrowserConfigView, ElementConfig, ElementConfigView};
use crate::table::{entries_map, keys_distinct};
use crate::text::same_text;

verus! {

/// The keys that chat commands can press.
#[derive(Clone, Copy, Debug, PartialEq, Eq, Structural)]
pub enum Key {
    Up,
    Down,
    Left,
    Right,
    Space,
    Enter,
    Escape,
    Delete,
}

/// A command for the browser worker. Those that expect an answer
/// (`FetchUrl`, `GetElementValue`) are paired with a reply channel by the
/// caller that sends them.
#[derive(Clone, Debug)]
pub enum BrowserCommand {
    /// Press a key on the page.
    PredefinedKey(Key),
    /// Type text on the page.
    RawCharacter(String),
    /// Answer the current URL.
    FetchUrl,
    /// Navigate to the URL configured under this name.
    Goto(String),
    /// Answer the value of the element configured under this name.
    GetElementValue(String),
    /// Click the element configured under this name.
    ClickElement(String),
}

/// A browser command, with text as characters.
pub enum BrowserCommandView {
    PredefinedKey(Key),
    RawCharacter(Seq<char>),
    FetchUrl,
    Goto(Seq<char>),
    GetElementValue(Seq<char>),
    ClickElement(Seq<char>),
}

impl View for BrowserCommand {
    type V = BrowserCommandView;

    open spec fn view(&self) -> BrowserCommandView {
        match self {
            BrowserCommand::PredefinedKey(k) => BrowserCommandView::PredefinedKey(*k),
            BrowserCommand::RawCharacter(s) => BrowserCommandView::RawCharacter(s@),
            BrowserCommand::FetchUrl => BrowserCommandView::FetchUrl,
            BrowserCommand::Goto(s) => BrowserCommandView::Goto(s@),
            BrowserCommand::GetElementValue(s) => BrowserCommandView::GetElementValue(s@),
            BrowserCommand::ClickElement(s) => BrowserCommandView::ClickElement(s@),
        }
    }
}

/// How an element is found on the page.
#[derive(Clone, Debug)]
pub enum Locator {
    /// By an XPath expression.
    XPath(String),
    /// By a CSS selector.
    Css(String),
    /// By its id.
    Id(String),
}

pub enum LocatorView {
    XPath(Seq<char>),
    Css(Seq<char>),
    Id(Seq<char>),
}

impl View for Locator {
    type V = LocatorView;

    open spec fn view(&self) -> LocatorView {
        match self {
            Locator::XPath(s) => LocatorView::XPath(s@),
            Locator::Css(s) => LocatorView::Css(s@),
            Locator::Id(s) => LocatorView::Id(s@),
        }
    }
}

/// What is read from a found element.
#[derive(Clone, Debug)]
pub enum ReadRequest {
    /// Its text.
    Text,
    /// The value of this attribute.
    Attribute(String),
}

pub enum ReadRequestView {
    Text,
    Attribute(Seq<char>),
}

impl View for ReadRequest {
    type V = ReadRequestView;

    open spec fn view(&self) -> ReadRequestView {
        match self {
            ReadRequest::Text => ReadRequestView::Text,
            ReadRequest::Attribute(s) => ReadRequestView::Attribute(s@),
        }
    }
}

/// A configured element is an XPath query.
pub open spec fn spec_locator(element: Seq<char>) -> LocatorView {
    LocatorView::XPath(element)
}

/// A frame setting `#id` names the frame by its id; any other is a CSS selector.
pub open spec fn spec_frame_locator(frame: Seq<char>) -> LocatorView {
    if frame.len() > 0 && frame[0] == '#' {
        LocatorView::Id(frame.skip(1))
    } else {
        LocatorView::Css(frame)
    }
}

/// The attribute name `text` asks for the element's text.
pub open spec fn spec_read_request(attribute: Seq<char>) -> ReadRequestView {
    if attribute == "text"@ {
        ReadRequestView::Text
    } else {
        ReadRequestView::Attribute(attribute)
    }
}

/// The locator of a configured element: its XPath query.
pub fn element_locator(element: &String) -> (r: Locator)
    ensures
        r@ == spec_locator(element@),
{
    Locator::XPath(element.clone())
}

/// The locator of a frame setting: `#id` by id, anything else as a CSS selector.
pub fn frame_locator(frame: &String) -> (r: Locator)
    ensures
        r@ == spec_frame_locator(frame@),
{
    let n = frame.as_str().unicode_len();
    if n > 0 && frame.as_str().get_char(0) == '#' {
        let id = frame.as_str().substring_char(1, n).to_string();
        assert(id@ =~= frame@.skip(1));
        Locator::Id(id)
    } else {
        Locator::Css(frame.clone())
    }
}

/// What to read for an attribute setting (`get_attribute_or_text`).
pub fn read_request(attribute: &String) -> (r: ReadRequest)
    ensures
        r@ == spec_read_request(attribute@),
{
    if same_text(attribute.as_str(), "text") {
        ReadRequest::Text
    } else {
        ReadRequest::Attribute(attribute.clone())
    }
}

/// A step in reading a configured element's value.
#[derive(Debug)]
pub enum FetchStep {
    /// Find the frame this way and enter it.
    EnterFrame(Locator),
    /// Find the element, waiting at most five seconds.
    Find(Locator),
    /// Read from the found element.
    Read(ReadRequest),
    /// The value is this text.
    Done(String),
    /// The browser failed while reading; the failure is passed on.
    Failed,
}

pub enum FetchStepView {
    EnterFrame(LocatorView),
    Find(LocatorView),
    Read(ReadRequestView),
    Done(Seq<char>),
    Failed,
}

impl View for FetchStep {
    type V = FetchStepView;

    open spec fn view(&self) -> FetchStepView {
        match self {
            FetchStep::EnterFrame(l) => FetchStepView::EnterFrame(l@),
            FetchStep::Find(l) => FetchStepView::Find(l@),
            FetchStep::Read(r) => FetchStepView::Read(r@),
            FetchStep::Done(s) => FetchStepView::Done(s@),
            FetchStep::Failed => FetchStepView::Failed,
        }
    }
}

/// What came of finding and entering a frame.
#[derive(Clone, Copy, Debug, PartialEq, Eq, Structural)]
pub enum FrameOutcome {
    Entered,
    NotFound,
    EnterFailed,
}

/// What came of looking for an element.
#[derive(Clone, Copy, Debug, PartialEq, Eq, Structural)]
pub enum FindOutcome {
    Found,
    Error,
    TimedOut,
}

/// What came of reading from an element.
#[derive(Debug)]
pub enum ReadOutcome {
    /// The element's text.
    Text(String),
    /// The attribute's value, `None` where the element lacks it.
    Attribute(Option<String>),
    /// The browser failed.
    Failed,
}

pub enum ReadOutcomeView {
    Text(Seq<char>),
    Attribute(Option<Seq<char>>),
    Failed,
}

impl View for ReadOutcome {
    type V = ReadOutcomeView;

    open spec fn view(&self) -> ReadOutcomeView {
        match self {
            ReadOutcome::Text(s) => ReadOutcomeView::Text(s@),
            ReadOutcome::Attribute(Some(s)) => ReadOutcomeView::Attribute(Some(s@)),
            ReadOutcome::Attribute(None) => ReadOutcomeView::Attribute(None),
            ReadOutcome::Failed => ReadOutcomeView::Failed,
        }
    }
}

pub open spec fn spec_fetch_start(e: ElementConfigView) -> FetchStepView {
    match e.iframe {
        Some(f) => FetchStepView::EnterFrame(spec_frame_locator(f)),
        None => FetchStepView::Find(spec_locator(e.element)),
    }
}

pub open spec fn spec_fetch_after_frame(e: ElementConfigView, o: FrameOutcome) -> FetchStepView {
    match o {
        FrameOutcome::Entered => FetchStepView::Find(spec_locator(e.element)),
        FrameOutcome::NotFound => FetchStepView::Done("Failed to find iframe"@),
        FrameOutcome::EnterFailed => FetchStepView::Done("Failed to enter iframe"@),
    }
}

pub open spec fn spec_fetch_after_find(e: ElementConfigView, o: FindOutcome) -> FetchStepView {
    match o {
        FindOutcome::Found => FetchStepView::Read(spec_read_request(e.attribute)),
        FindOutcome::Error => FetchStepView::Done("Element not found (error)"@),
        FindOutcome::TimedOut => FetchStepView::Done("Element not found (timeout)"@),
    }
}

pub open spec fn spec_fetch_after_read(o: ReadOutcomeView) -> FetchStepView {
    match o {
        ReadOutcomeView::Text(t) => FetchStepView::Done(t),
        ReadOutcomeView::Attribute(Some(v)) => FetchStepView::Done(v),
        ReadOutcomeView::Attribute(None) => FetchStepView::Done(Seq::empty()),
        ReadOutcomeView::Failed => FetchStepView::Failed,
    }
}

/// The first step of reading `element`: enter its frame, if it has one,
/// else look for it.
pub fn fetch_start(element: &ElementConfig) -> (r: FetchStep)
    ensures
        r@ == spec_fetch_start(element@),
{
    match &element.iframe {
        Some(f) => FetchStep::EnterFrame(frame_locator(f)),
        None => FetchStep::Find(element_locator(&element.element)),
    }
}

/// The step after the frame was (or was not) entered.
pub fn fetch_after_frame(element: &ElementConfig, outcome: FrameOutcome) -> (r: FetchStep)
    ensures
        r@ == spec_fetch_after_frame(element@, outcome),
{
    match outcome {
        FrameOutcome::Entered => FetchStep::Find(element_locator(&element.element)),
        FrameOutcome::NotFound => FetchStep::Done("Failed to find iframe".to_string()),
        FrameOutcome::EnterFailed => FetchStep::Done("Failed to enter iframe".to_string()),
    }
}

/// The step after looking for the element.
pub fn fetch_after_find(element: &ElementConfig, outcome: FindOutcome) -> (r: FetchStep)
    ensures
        r@ == spec_fetch_after_find(element@, outcome),
{
    match outcome {
        FindOutcome::Found => FetchStep::Read(read_request(&element.attribute)),
        FindOutcome::Error => FetchStep::Done("Element not found (error)".to_string()),
        FindOutcome::TimedOut => FetchStep::Done("Element not found (timeout)".to_string()),
    }
}

/// The last step, after reading from the element: its text, the attribute's
/// value (empty where the element lacks it), or the browser's failure.
pub fn fetch_after_read(outcome: ReadOutcome) -> (r: FetchStep)
    ensures
        r@ == spec_fetch_after_read(outcome@),
{
    match outcome {
        ReadOutcome::Text(t) => FetchStep::Done(t),
        ReadOutcome::Attribute(Some(v)) => FetchStep::Done(v),
        ReadOutcome::Attribute(None) => FetchStep::Done(String::new()),
        ReadOutcome::Failed => FetchStep::Failed,
    }
}

/// What the browser worker does for one command.
#[derive(Debug)]
pub enum BrowserAction {
    /// Read this element (see `fetch_start`) and reply with its value, or
    /// `Error` where the browser failed.
    ReadElement(ElementConfig),
    /// Reply with this text.
    Reply(String),
    /// Press this key on the page body.
    PressKey(Key),
    /// Type this text on the page body.
    TypeText(String),
    /// Reply with the current URL.
    ReplyCurrentUrl,
    /// Navigate to this URL.
    Navigate(String),
    /// Find the element this way and click it.
    Click(Locator),
    /// Nothing is configured under the command's name.
    Nothing,
}

pub enum BrowserActionView {
    ReadElement(ElementConfigView),
    Reply(Seq<char>),
    PressKey(Key),
    TypeText(Seq<char>),
    ReplyCurrentUrl,
    Navigate(Seq<char>),
    Click(LocatorView),
    Nothing,
}

impl View for BrowserAction {
    type V = BrowserActionView;

    open spec fn view(&self) -> BrowserActionView {
        match self {
            BrowserAction::ReadElement(e) => BrowserActionView::ReadElement(e@),
            BrowserAction::Reply(s) => BrowserActionView::Reply(s@),
            BrowserAction::PressKey(k) => BrowserActionView::PressKey(*k),
            BrowserAction::TypeText(s) => BrowserActionView::TypeText(s@),
            BrowserAction::ReplyCurrentUrl => BrowserActionView::ReplyCurrentUrl,
            BrowserAction::Navigate(s) => BrowserActionView::Navigate(s@),
            BrowserAction::Click(l) => BrowserActionView::Click(l@),
            BrowserAction::Nothing => BrowserActionView::Nothing,
        }
    }
}

/// The reply to an element request whose name no element setting has.
pub open spec fn unknown_element_reply() -> Seq<char> {
    "Key not found in config"@
}

pub open spec fn spec_plan_command(c: BrowserCommandView, config: BrowserConfigView) -> BrowserActionView {
    match c {
        BrowserCommandView::GetElementValue(key) => if config.elements.dom().contains(key) {
            BrowserActionView::ReadElement(config.elements[key])
        } else {
            BrowserActionView::Reply(unknown_element_reply())
        },
        BrowserCommandView::PredefinedKey(k) => BrowserActionView::PressKey(k),
        BrowserCommandView::RawCharacter(t) => BrowserActionView::TypeText(t),
        BrowserCommandView::FetchUrl => BrowserActionView::ReplyCurrentUrl,
        BrowserCommandView::Goto(key) => if config.goto.dom().contains(key) {
            BrowserActionView::Navigate(config.goto[key])
        } else {
            BrowserActionView::Nothing
        },
        BrowserCommandView::ClickElement(key) => if config.elements.dom().contains(key) {
            BrowserActionView::Click(spec_locator(config.elements[key].element))
        } else {
            BrowserActionView::Nothing
        },
    }
}

/// What the browser worker does for `command` under `config`.
pub fn plan_command(command: &BrowserCommand, config: &BrowserConfig) -> (r: BrowserAction)
    ensures
        r@ == spec_plan_command(command@, config@),
{
    match command {
        BrowserCommand::GetElementValue(key) => match config.elements.get(key.as_str()) {
            Some(e) => BrowserAction::ReadElement(e.clone_config()),
            None => BrowserAction::Reply("Key not found in config".to_string()),
        },
        BrowserCommand::PredefinedKey(k) => BrowserAction::PressKey(*k),
        BrowserCommand::RawCharacter(t) => BrowserAction::TypeText(t.clone()),
        BrowserCommand::FetchUrl => BrowserAction::ReplyCurrentUrl,
        BrowserCommand::Goto(key) => match config.goto.get(key.as_str()) {
            Some(url) => BrowserAction::Navigate(url.clone()),
            None => BrowserAction::Nothing,
        },
        BrowserCommand::ClickElement(key) => match config.elements.get(key.as_str()) {
            Some(e) => BrowserAction::Click(element_locator(&e.element)),
            None => BrowserAction::Nothing,
        },
    }
}

/// The reply to an element request once reading ended: the value, or
/// `Error` where the browser failed.
pub fn element_reply(value: Option<String>) -> (r: String)
    ensures
        value matches Some(v) ==> r@ == v@,
        value is None ==> r@ == "Error"@,
{
    match value {
        Some(v) => v,
        None => "Error".to_string(),
    }
}

/// One named element to read for the element report: its name, where to find
/// it (always by XPath) and what to read.
pub struct NamedQuery {
    pub name: String,
    pub locator: Locator,
    pub read: ReadRequest,
}

/// The element report's queries, one per element setting, in table order.
pub fn named_element_queries(config: &BrowserConfig) -> (r: Vec<NamedQuery>)
    ensures
        r@.len() == config@.elements.dom().len(),
        forall|i: int, j: int| 0 <= i < j < r@.len() ==> r@[i].name@ != r@[j].name@,
        forall|i: int|
            #![trigger r@[i]]
            0 <= i < r@.len() ==> {
                &&& config@.elements.dom().contains(r@[i].name@)
                &&& r@[i].locator@ == LocatorView::XPath(config@.elements[r@[i].name@].element)
                &&& r@[i].read@ == spec_read_request(config@.elements[r@[i].name@].attribute)
            },
{
    let entries = config.elements.entries();
    let mut r: Vec<NamedQuery> = Vec::new();
    let mut i: usize = 0;
    proof {
        crate::table::lemma_distinct_len(entries@);
    }
    while i < entries.len()
        invariant
            i <= entries@.len(),
            keys_distinct(entries@),
            entries_map(entries@) == config@.elements,
            r@.len() == i,
            forall|k: int| #![trigger r@[k]] 0 <= k < i ==> {
                &&& r@[k].name@ == entries@[k].0@
                &&& r@[k].locator@ == LocatorView::XPath(entries@[k].1.element@)
                &&& r@[k].read@ == spec_read_request(entries@[k].1.attribute@)
            },
        decreases entries@.len() - i,
    {
        let e = &entries[i].1;
        r.push(NamedQuery { name: entries[i].0.clone(), locator: Locator::XPath(e.element.clone()), read: read_request(&e.attribute) });
        i = i + 1;
    }
    proof {
        assert forall|k: int| #![trigger r@[k]] 0 <= k < r@.len() implies {
            &&& config@.elements.dom().contains(r@[k].name@)
            &&& r@[k].locator@ == LocatorView::XPath(config@.elements[r@[k].name@].element)
            &&& r@[k].read@ == spec_read_request(config@.elements[r@[k].name@].attribute)
        } by {
            crate::table::lemma_entries_map_value(entries@, k);
        }
    }
    r
}

/// The value the element report shows for a read: empty where the browser failed.
pub fn named_value(outcome: ReadOutcome) -> (r: String)
    ensures
        spec_fetch_after_read(outcome@) matches FetchStepView::Done(v) ==> r@ == v,
        outcome@ is Failed ==> r@ == Seq::<char>::empty(),
{
    match fetch_after_read(outcome) {
        FetchStep::Done(v) => v,
        _ => String::new(),
    }
}

impl ElementConfig {
    /// A copy of this element setting.
    pub fn clone_config(&self) -> (r: ElementConfig)
        ensures
            r@ == self@,
    {
        ElementConfig {
            element: self.element.clone(),
            attribute: self.attribute.clone(),
            iframe: match &self.iframe {
                Some(f) => Some(f.clone()),
                None => None,
            },
        }
    }
}

} // verus!

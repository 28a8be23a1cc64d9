//! Properties of reading the settings: what the result depends on.
use vstd::prelude::*;
use crate::config::{
    config_bools, config_field_tables, config_string_tables, config_strings, declared_readings,
    element_of_fields, elements_complete, elements_of, first_bad_field, setting_bool,
    setting_string, spec_elements, spec_load_config, spec_output_mode, AppConfigView,
    BrowserConfigView, ElementConfigView, FieldValue, LoadFailure, OutputMode,
};

verus! {

/// Two settings repositories read the same at every declared key other than
/// the element settings.
pub open spec fn same_declared_scalars(c1: config::Config, c2: config::Config) -> bool {
    &&& setting_bool(c1, "global.placeholder"@) == setting_bool(c2, "global.placeholder"@)
    &&& setting_bool(c1, "streambot.enabled"@) == setting_bool(c2, "streambot.enabled"@)
    &&& setting_string(c1, "streambot.channel"@) == setting_string(c2, "streambot.channel"@)
    &&& setting_string(c1, "streambot.username"@) == setting_string(c2, "streambot.username"@)
    &&& setting_string(c1, "streambot.command_symbol"@) == setting_string(c2, "streambot.command_symbol"@)
    &&& setting_string(c1, "streambot.access_token"@) == setting_string(c2, "streambot.access_token"@)
    &&& setting_string(c1, "streambot.refresh_token"@) == setting_string(c2, "streambot.refresh_token"@)
    &&& spec_output_mode(c1) == spec_output_mode(c2)
    &&& setting_bool(c1, "browser.enabled"@) == setting_bool(c2, "browser.enabled"@)
    &&& setting_string(c1, "browser.start_url"@) == setting_string(c2, "browser.start_url"@)
    &&& config_string_tables(c1).dom().contains("browser.goto"@) == config_string_tables(c2).dom().contains(
        "browser.goto"@,
    )
    &&& config_string_tables(c1).dom().contains("browser.goto"@) ==> config_string_tables(c1)["browser.goto"@]
        == config_string_tables(c2)["browser.goto"@]
}

/// Two tables of element settings name the same elements, and each reads the
/// same at its declared fields (`element`, `attribute`, `iframe`).
pub open spec fn same_element_readings(
    m1: Map<Seq<char>, Map<Seq<char>, FieldValue>>,
    m2: Map<Seq<char>, Map<Seq<char>, FieldValue>>,
) -> bool {
    &&& m1.dom() == m2.dom()
    &&& forall|n: Seq<char>| #[trigger] m1.dom().contains(n) ==> declared_readings(m1[n]) == declared_readings(m2[n])
}

/// Two settings repositories read the same at every declared key.
pub open spec fn same_declared_readings(c1: config::Config, c2: config::Config) -> bool {
    &&& same_declared_scalars(c1, c2)
    &&& config_field_tables(c1).dom().contains("browser.elements"@) == config_field_tables(c2).dom().contains(
        "browser.elements"@,
    )
    &&& config_field_tables(c1).dom().contains("browser.elements"@) ==> same_element_readings(
        config_field_tables(c1)["browser.elements"@],
        config_field_tables(c2)["browser.elements"@],
    )
}

proof fn lemma_same_elements(
    m1: Map<Seq<char>, Map<Seq<char>, FieldValue>>,
    m2: Map<Seq<char>, Map<Seq<char>, FieldValue>>,
)
    requires
        same_element_readings(m1, m2),
    ensures
        elements_complete(m1) == elements_complete(m2),
        elements_of(m1) == elements_of(m2),
{
    assert(elements_complete(m1) ==> elements_complete(m2)) by {
        if elements_complete(m1) {
            assert forall|n: Seq<char>| #[trigger] m2.dom().contains(n) implies crate::config::element_fields_complete(m2[n]) by {
                assert(m1.dom().contains(n));
                assert(declared_readings(m1[n]) == declared_readings(m2[n]));
            }
        }
    }
    assert(elements_complete(m2) ==> elements_complete(m1)) by {
        if elements_complete(m2) {
            assert forall|n: Seq<char>| #[trigger] m1.dom().contains(n) implies crate::config::element_fields_complete(m1[n]) by {
                assert(m2.dom().contains(n));
                assert(declared_readings(m1[n]) == declared_readings(m2[n]));
            }
        }
    }
    assert(elements_of(m1) =~= elements_of(m2)) by {
        assert forall|n: Seq<char>| #[trigger] m1.dom().contains(n) implies element_of_fields(m1[n]) == element_of_fields(m2[n]) by {
            assert(declared_readings(m1[n]) == declared_readings(m2[n]));
        }
    }
}

/// Keys that the settings do not declare (such as `client_id` under
/// `[streambot]`, `start_cmd` under `[browser]`, or any extra field of an
/// element) change nothing: settings that read the same at every declared key
/// load the same, or fail the same.
pub proof fn undeclared_keys_change_nothing(c1: config::Config, c2: config::Config)
    requires
        same_declared_readings(c1, c2),
    ensures
        spec_load_config(c1) == spec_load_config(c2),
{
    if config_field_tables(c1).dom().contains("browser.elements"@) {
        lemma_same_elements(config_field_tables(c1)["browser.elements"@], config_field_tables(c2)["browser.elements"@]);
    }
    assert(spec_elements(c1) == spec_elements(c2));
}

/// Loaded settings with the frame of element `name` dropped.
pub open spec fn without_frame(a: AppConfigView, name: Seq<char>) -> AppConfigView {
    let e = a.browser.elements[name];
    AppConfigView {
        placeholder: a.placeholder,
        streambot: a.streambot,
        browser: BrowserConfigView {
            enabled: a.browser.enabled,
            start_url: a.browser.start_url,
            goto: a.browser.goto,
            elements: a.browser.elements.insert(
                name,
                ElementConfigView { element: e.element, attribute: e.attribute, iframe: None },
            ),
        },
    }
}

/// The frame setting is optional: settings that load, with one element's
/// `iframe` field removed, load the same but for that element having no frame.
pub proof fn dropping_a_frame_setting(c1: config::Config, c2: config::Config, name: Seq<char>)
    requires
        same_declared_scalars(c1, c2),
        config_field_tables(c1).dom().contains("browser.elements"@),
        config_field_tables(c1)["browser.elements"@].dom().contains(name),
        config_field_tables(c2).dom().contains("browser.elements"@),
        config_field_tables(c2)["browser.elements"@] == config_field_tables(c1)["browser.elements"@].insert(
            name,
            config_field_tables(c1)["browser.elements"@][name].remove("iframe"@),
        ),
        spec_load_config(c1) is Ok,
    ensures
        spec_load_config(c2) matches Ok(a2) && spec_load_config(c1) matches Ok(a1) && a2 == without_frame(a1, name),
{
    reveal_strlit("element");
    reveal_strlit("attribute");
    reveal_strlit("iframe");
    let m1 = config_field_tables(c1)["browser.elements"@];
    let m2 = config_field_tables(c2)["browser.elements"@];
    let f1 = m1[name];
    let f2 = f1.remove("iframe"@);
    assert(elements_complete(m1));
    assert(crate::config::element_fields_complete(f1));
    assert("element"@.len() == 7 && "attribute"@.len() == 9 && "iframe"@.len() == 6);
    assert(declared_readings(f2) == (declared_readings(f1).0, declared_readings(f1).1, Ok::<Option<Seq<char>>, ()>(None)));
    assert(elements_complete(m2)) by {
        assert forall|n: Seq<char>| #[trigger] m2.dom().contains(n) implies crate::config::element_fields_complete(m2[n]) by {
            if n != name {
                assert(m1.dom().contains(n));
            }
        }
    }
    let a1 = spec_load_config(c1)->Ok_0;
    assert(a1.browser.elements == elements_of(m1));
    assert(elements_of(m2) =~= elements_of(m1).insert(
        name,
        ElementConfigView { element: element_of_fields(f1).element, attribute: element_of_fields(f1).attribute, iframe: None },
    ));
}

/// An element setting is read field by field, each on its own: where
/// `element` and `attribute` hold text, the element is those texts, with the
/// frame that `iframe` holds as text (whatever the attribute), no frame where
/// `iframe` is absent or nil, and a failure on `iframe` where it holds
/// anything else. Other fields play no part.
pub proof fn element_fields_are_read_on_their_own(
    f: Map<Seq<char>, FieldValue>,
    e: Seq<char>,
    a: Seq<char>,
    t: Seq<char>,
)
    requires
        f.dom().contains("element"@) && f["element"@] == FieldValue::Text(e),
        f.dom().contains("attribute"@) && f["attribute"@] == FieldValue::Text(a),
    ensures
        f.dom().contains("iframe"@) && f["iframe"@] == FieldValue::Text(t) ==> first_bad_field(f) is None
            && element_of_fields(f) == (ElementConfigView { element: e, attribute: a, iframe: Some(t) }),
        !f.dom().contains("iframe"@) || f["iframe"@] == FieldValue::Nil ==> first_bad_field(f) is None
            && element_of_fields(f) == (ElementConfigView { element: e, attribute: a, iframe: None }),
        f.dom().contains("iframe"@) && f["iframe"@] == FieldValue::Unreadable ==> first_bad_field(f) == Some(
            "iframe"@,
        ),
{
}

/// An element setting without text in `element` fails on `element`; one with
/// it but without text in `attribute` fails on `attribute`.
pub proof fn incomplete_elements_fail_on_the_first_field(f: Map<Seq<char>, FieldValue>)
    ensures
        !(f.dom().contains("element"@) && f["element"@] is Text) ==> first_bad_field(f) == Some("element"@),
        f.dom().contains("element"@) && f["element"@] is Text && !(f.dom().contains("attribute"@)
            && f["attribute"@] is Text) ==> first_bad_field(f) == Some("attribute"@),
{
}

/// The output mode is the one `streambot.output` names (`Chat`, `Stdout` or
/// `Both`, also in lower case), and `Chat` where it names none or is absent.
pub proof fn output_mode_is_the_named_one(c: config::Config)
    ensures
        config_strings(c).dom().contains("streambot.output"@) && (config_strings(c)["streambot.output"@]
            == "Stdout"@ || config_strings(c)["streambot.output"@] == "stdout"@) ==> spec_output_mode(c)
            == OutputMode::Stdout,
        config_strings(c).dom().contains("streambot.output"@) && (config_strings(c)["streambot.output"@]
            == "Both"@ || config_strings(c)["streambot.output"@] == "both"@) ==> spec_output_mode(c)
            == OutputMode::Both,
        spec_output_mode(c) == OutputMode::Stdout ==> config_strings(c).dom().contains("streambot.output"@)
            && (config_strings(c)["streambot.output"@] == "Stdout"@ || config_strings(c)["streambot.output"@]
            == "stdout"@),
        spec_output_mode(c) == OutputMode::Both ==> config_strings(c).dom().contains("streambot.output"@)
            && (config_strings(c)["streambot.output"@] == "Both"@ || config_strings(c)["streambot.output"@]
            == "both"@),
{
    reveal_strlit("Chat");
    reveal_strlit("chat");
    reveal_strlit("Stdout");
    reveal_strlit("stdout");
    reveal_strlit("Both");
    reveal_strlit("both");
    assert("Chat"@.len() == 4 && "chat"@.len() == 4 && "Both"@.len() == 4 && "both"@.len() == 4);
    assert("Stdout"@.len() == 6 && "stdout"@.len() == 6);
    assert("Chat"@[0] == 'C' && "chat"@[0] == 'c' && "Both"@[0] == 'B' && "both"@[0] == 'b');
}

/// Loaded settings are the readings at the declared keys: each flag and text
/// setting as read, the goto URLs as the `browser.goto` table, and one element
/// per entry of `browser.elements`, holding the texts of its `element` and
/// `attribute` fields and, where its `iframe` field holds text, that frame.
pub proof fn loaded_settings_are_the_readings(c: config::Config)
    ensures
        spec_load_config(c) matches Ok(a) ==> {
            let m = config_field_tables(c)["browser.elements"@];
            &&& config_bools(c).dom().contains("global.placeholder"@)
            &&& a.placeholder == config_bools(c)["global.placeholder"@]
            &&& config_bools(c).dom().contains("streambot.enabled"@)
            &&& a.streambot.enabled == config_bools(c)["streambot.enabled"@]
            &&& config_strings(c).dom().contains("streambot.channel"@)
            &&& a.streambot.channel == config_strings(c)["streambot.channel"@]
            &&& config_strings(c).dom().contains("streambot.username"@)
            &&& a.streambot.username == config_strings(c)["streambot.username"@]
            &&& config_strings(c).dom().contains("streambot.command_symbol"@)
            &&& a.streambot.command_symbol == config_strings(c)["streambot.command_symbol"@]
            &&& config_strings(c).dom().contains("streambot.access_token"@)
            &&& a.streambot.access_token == config_strings(c)["streambot.access_token"@]
            &&& config_strings(c).dom().contains("streambot.refresh_token"@)
            &&& a.streambot.refresh_token == config_strings(c)["streambot.refresh_token"@]
            &&& config_bools(c).dom().contains("browser.enabled"@)
            &&& a.browser.enabled == config_bools(c)["browser.enabled"@]
            &&& config_strings(c).dom().contains("browser.start_url"@)
            &&& a.browser.start_url == config_strings(c)["browser.start_url"@]
            &&& config_string_tables(c).dom().contains("browser.goto"@)
            &&& a.browser.goto == config_string_tables(c)["browser.goto"@]
            &&& config_field_tables(c).dom().contains("browser.elements"@)
            &&& a.browser.elements.dom() == m.dom()
            &&& forall|n: Seq<char>| #[trigger] m.dom().contains(n) ==> {
                &&& m[n].dom().contains("element"@)
                &&& m[n]["element"@] == FieldValue::Text(a.browser.elements[n].element)
                &&& m[n].dom().contains("attribute"@)
                &&& m[n]["attribute"@] == FieldValue::Text(a.browser.elements[n].attribute)
                &&& (m[n].dom().contains("iframe"@) && m[n]["iframe"@] is Text) <==> a.browser.elements[n].iframe is Some
                &&& a.browser.elements[n].iframe is Some ==> m[n]["iframe"@] == FieldValue::Text(
                    a.browser.elements[n].iframe->0,
                )
            }
        },
{
    if spec_load_config(c) is Ok {
        let m = config_field_tables(c)["browser.elements"@];
        assert forall|n: Seq<char>| #[trigger] m.dom().contains(n) implies crate::config::element_fields_complete(m[n]) by {}
    }
}

/// Settings load whenever every declared setting can be read: the flags and
/// texts, the `browser.goto` table, and every element with text in `element`
/// and `attribute` and an `iframe` that is absent, nil or text.
pub proof fn readable_settings_load(c: config::Config)
    requires
        config_bools(c).dom().contains("global.placeholder"@),
        config_bools(c).dom().contains("streambot.enabled"@),
        config_strings(c).dom().contains("streambot.channel"@),
        config_strings(c).dom().contains("streambot.username"@),
        config_strings(c).dom().contains("streambot.command_symbol"@),
        config_strings(c).dom().contains("streambot.access_token"@),
        config_strings(c).dom().contains("streambot.refresh_token"@),
        config_bools(c).dom().contains("browser.enabled"@),
        config_strings(c).dom().contains("browser.start_url"@),
        config_string_tables(c).dom().contains("browser.goto"@),
        config_field_tables(c).dom().contains("browser.elements"@),
        forall|n: Seq<char>| #[trigger] config_field_tables(c)["browser.elements"@].dom().contains(n) ==> {
            let f = config_field_tables(c)["browser.elements"@][n];
            &&& f.dom().contains("element"@) && f["element"@] is Text
            &&& f.dom().contains("attribute"@) && f["attribute"@] is Text
            &&& f.dom().contains("iframe"@) ==> !(f["iframe"@] is Unreadable)
        },
    ensures
        spec_load_config(c) is Ok,
{
    let m = config_field_tables(c)["browser.elements"@];
    assert(elements_complete(m)) by {
        assert forall|n: Seq<char>| #[trigger] m.dom().contains(n) implies crate::config::element_fields_complete(m[n]) by {
            let f = m[n];
            assert(f.dom().contains("element"@) && f["element"@] is Text);
        }
    }
}

/// A setting that cannot be read is reported, and it is the first one in
/// declaration order: `global.placeholder`, the chat bot's `enabled`,
/// `channel`, `username`, `command_symbol`, `access_token`, `refresh_token`,
/// then the browser's `enabled`, `start_url`, `goto` and `elements`.
pub proof fn unreadable_settings_are_reported_in_order(c: config::Config)
    ensures
        !config_bools(c).dom().contains("global.placeholder"@)
            ==> spec_load_config(c) == Err::<AppConfigView, LoadFailure>(LoadFailure::Setting("global.placeholder"@)),
        config_bools(c).dom().contains("global.placeholder"@) && !config_bools(c).dom().contains("streambot.enabled"@)
            ==> spec_load_config(c) == Err::<AppConfigView, LoadFailure>(LoadFailure::Setting("streambot.enabled"@)),
        config_bools(c).dom().contains("global.placeholder"@) && config_bools(c).dom().contains("streambot.enabled"@) && !config_strings(c).dom().contains("streambot.channel"@)
            ==> spec_load_config(c) == Err::<AppConfigView, LoadFailure>(LoadFailure::Setting("streambot.channel"@)),
        config_bools(c).dom().contains("global.placeholder"@) && config_bools(c).dom().contains("streambot.enabled"@) && config_strings(c).dom().contains("streambot.channel"@) && !config_strings(c).dom().contains("streambot.username"@)
            ==> spec_load_config(c) == Err::<AppConfigView, LoadFailure>(LoadFailure::Setting("streambot.username"@)),
        config_bools(c).dom().contains("global.placeholder"@) && config_bools(c).dom().contains("streambot.enabled"@) && config_strings(c).dom().contains("streambot.channel"@) && config_strings(c).dom().contains("streambot.username"@) && !config_strings(c).dom().contains("streambot.command_symbol"@)
            ==> spec_load_config(c) == Err::<AppConfigView, LoadFailure>(LoadFailure::Setting("streambot.command_symbol"@)),
        config_bools(c).dom().contains("global.placeholder"@) && config_bools(c).dom().contains("streambot.enabled"@) && config_strings(c).dom().contains("streambot.channel"@) && config_strings(c).dom().contains("streambot.username"@) && config_strings(c).dom().contains("streambot.command_symbol"@) && !config_strings(c).dom().contains("streambot.access_token"@)
            ==> spec_load_config(c) == Err::<AppConfigView, LoadFailure>(LoadFailure::Setting("streambot.access_token"@)),
        config_bools(c).dom().contains("global.placeholder"@) && config_bools(c).dom().contains("streambot.enabled"@) && config_strings(c).dom().contains("streambot.channel"@) && config_strings(c).dom().contains("streambot.username"@) && config_strings(c).dom().contains("streambot.command_symbol"@) && config_strings(c).dom().contains("streambot.access_token"@) && !config_strings(c).dom().contains("streambot.refresh_token"@)
            ==> spec_load_config(c) == Err::<AppConfigView, LoadFailure>(LoadFailure::Setting("streambot.refresh_token"@)),
        config_bools(c).dom().contains("global.placeholder"@) && config_bools(c).dom().contains("streambot.enabled"@) && config_strings(c).dom().contains("streambot.channel"@) && config_strings(c).dom().contains("streambot.username"@) && config_strings(c).dom().contains("streambot.command_symbol"@) && config_strings(c).dom().contains("streambot.access_token"@) && config_strings(c).dom().contains("streambot.refresh_token"@) && !config_bools(c).dom().contains("browser.enabled"@)
            ==> spec_load_config(c) == Err::<AppConfigView, LoadFailure>(LoadFailure::Setting("browser.enabled"@)),
        config_bools(c).dom().contains("global.placeholder"@) && config_bools(c).dom().contains("streambot.enabled"@) && config_strings(c).dom().contains("streambot.channel"@) && config_strings(c).dom().contains("streambot.username"@) && config_strings(c).dom().contains("streambot.command_symbol"@) && config_strings(c).dom().contains("streambot.access_token"@) && config_strings(c).dom().contains("streambot.refresh_token"@) && config_bools(c).dom().contains("browser.enabled"@) && !config_strings(c).dom().contains("browser.start_url"@)
            ==> spec_load_config(c) == Err::<AppConfigView, LoadFailure>(LoadFailure::Setting("browser.start_url"@)),
        config_bools(c).dom().contains("global.placeholder"@) && config_bools(c).dom().contains("streambot.enabled"@) && config_strings(c).dom().contains("streambot.channel"@) && config_strings(c).dom().contains("streambot.username"@) && config_strings(c).dom().contains("streambot.command_symbol"@) && config_strings(c).dom().contains("streambot.access_token"@) && config_strings(c).dom().contains("streambot.refresh_token"@) && config_bools(c).dom().contains("browser.enabled"@) && config_strings(c).dom().contains("browser.start_url"@) && !config_string_tables(c).dom().contains("browser.goto"@)
            ==> spec_load_config(c) == Err::<AppConfigView, LoadFailure>(LoadFailure::Setting("browser.goto"@)),
        config_bools(c).dom().contains("global.placeholder"@) && config_bools(c).dom().contains("streambot.enabled"@) && config_strings(c).dom().contains("streambot.channel"@) && config_strings(c).dom().contains("streambot.username"@) && config_strings(c).dom().contains("streambot.command_symbol"@) && config_strings(c).dom().contains("streambot.access_token"@) && config_strings(c).dom().contains("streambot.refresh_token"@) && config_bools(c).dom().contains("browser.enabled"@) && config_strings(c).dom().contains("browser.start_url"@) && config_string_tables(c).dom().contains("browser.goto"@) && !config_field_tables(c).dom().contains("browser.elements"@)
            ==> spec_load_config(c) == Err::<AppConfigView, LoadFailure>(LoadFailure::Setting("browser.elements"@)),
{
}

/// An element setting that cannot be read makes loading fail, once every
/// other setting can be read.
pub proof fn unreadable_elements_fail_the_load(c: config::Config, n: Seq<char>)
    requires
        config_bools(c).dom().contains("global.placeholder"@),
        config_bools(c).dom().contains("streambot.enabled"@),
        config_strings(c).dom().contains("streambot.channel"@),
        config_strings(c).dom().contains("streambot.username"@),
        config_strings(c).dom().contains("streambot.command_symbol"@),
        config_strings(c).dom().contains("streambot.access_token"@),
        config_strings(c).dom().contains("streambot.refresh_token"@),
        config_bools(c).dom().contains("browser.enabled"@),
        config_strings(c).dom().contains("browser.start_url"@),
        config_string_tables(c).dom().contains("browser.goto"@),
        config_field_tables(c).dom().contains("browser.elements"@),
        config_field_tables(c)["browser.elements"@].dom().contains(n),
        ({
            let f = config_field_tables(c)["browser.elements"@][n];
            ||| !(f.dom().contains("element"@) && f["element"@] is Text)
            ||| !(f.dom().contains("attribute"@) && f["attribute"@] is Text)
            ||| f.dom().contains("iframe"@) && f["iframe"@] is Unreadable
        }),
    ensures
        spec_load_config(c) == Err::<AppConfigView, LoadFailure>(LoadFailure::IncompleteElement),
{
    let m = config_field_tables(c)["browser.elements"@];
    assert(!crate::config::element_fields_complete(m[n]));
}

} // verus!

use antenna_status::json::JsonValue;
use antenna_status::modem_utils::NetworkMode;
use antenna_status::utils::{
    copy_string_to_array, get_xml_element, get_xml_element_as, get_xml_element_as_unit,
    json_str_as_type, truncate_unit, xml_contains_required_parameters, ValueChangeObserver,
};
use antenna_status::xml::{XmlElement, XmlNode};

#[test]
fn copy_string_to_array_keeps_one_place_free() {
    assert_eq!(copy_string_to_array("25001", 6), "25001");
    assert_eq!(copy_string_to_array("310410", 6), "31041");
    assert_eq!(copy_string_to_array("", 6), "");
    assert_eq!(copy_string_to_array("abc", 1), "");
    assert_eq!(copy_string_to_array("abc", 2), "a");
    assert_eq!(copy_string_to_array("abc", 4), "abc");
    assert_eq!(copy_string_to_array("0123456789012345678901234", 20), "0123456789012345678");
}

#[test]
fn value_change_observer_reports_the_first_value_and_every_change() {
    let mut observer = ValueChangeObserver::<i64>::new();
    assert!(observer.update_and_check_if_changed(5));
    assert!(!observer.update_and_check_if_changed(5));
    assert!(observer.update_and_check_if_changed(6));
    assert!(!observer.update_and_check_if_changed(6));
    assert!(observer.update_and_check_if_changed(5));
}

#[test]
fn value_change_observer_works_on_flags_and_modes() {
    let mut flag = ValueChangeObserver::<bool>::new();
    assert!(flag.update_and_check_if_changed(false));
    assert!(!flag.update_and_check_if_changed(false));
    assert!(flag.update_and_check_if_changed(true));
    let mut mode = ValueChangeObserver::<NetworkMode>::new();
    assert!(mode.update_and_check_if_changed(NetworkMode::Unknown));
    assert!(mode.update_and_check_if_changed(NetworkMode::Lte));
    assert!(!mode.update_and_check_if_changed(NetworkMode::Lte));
}

#[test]
fn truncate_unit_takes_one_unit_off() {
    for (text, expected) in [
        ("-85dBm", "-85"),
        ("-11dB", "-11"),
        ("14", "14"),
        ("", ""),
        ("dB", ""),
        ("dBm", ""),
        ("5dBdB", "5dB"),
        ("5dBmdB", "5dBm"),
        ("5dBdBm", "5dB"),
        ("5 dBm", "5 "),
        ("5DBM", "5DBM"),
        ("5dbm", "5dbm"),
        ("dB5", "dB5"),
    ] {
        let mut s = String::from(text);
        truncate_unit(&mut s);
        assert_eq!(s, expected, "text {text:?}");
    }
}

#[test]
fn json_str_as_type_reads_integers_held_as_strings() {
    assert_eq!(json_str_as_type(&JsonValue::String(String::from("123456"))), Some(123456));
    assert_eq!(json_str_as_type(&JsonValue::String(String::from("-3"))), Some(-3));
    assert_eq!(json_str_as_type(&JsonValue::String(String::from("12.5"))), None);
    assert_eq!(json_str_as_type(&JsonValue::String(String::new())), None);
    assert_eq!(json_str_as_type(&JsonValue::Number(Some(12))), None);
    assert_eq!(json_str_as_type(&JsonValue::Null), None);
}

fn sample() -> XmlElement {
    XmlElement::parse(
        "<response><mode>7</mode><rssi>-65dBm</rssi><cell_id>4660</cell_id><empty/>\
         <bad>12x</bad><rsrq>-11dB</rsrq><mode>2</mode></response>",
    )
    .unwrap()
}

#[test]
fn get_xml_element_reads_the_first_child_of_that_name() {
    let xml = sample();
    assert_eq!(get_xml_element(&xml, "mode"), Some(String::from("7")));
    assert_eq!(get_xml_element(&xml, "rssi"), Some(String::from("-65dBm")));
    assert_eq!(get_xml_element(&xml, "empty"), None);
    assert_eq!(get_xml_element(&xml, "missing"), None);
    assert_eq!(get_xml_element(&xml, "Mode"), None);
}

#[test]
fn get_xml_element_as_is_strict() {
    let xml = sample();
    assert_eq!(get_xml_element_as(&xml, "cell_id"), Some(4660));
    assert_eq!(get_xml_element_as(&xml, "mode"), Some(7));
    assert_eq!(get_xml_element_as(&xml, "rssi"), None);
    assert_eq!(get_xml_element_as(&xml, "bad"), None);
    assert_eq!(get_xml_element_as(&xml, "empty"), None);
    assert_eq!(get_xml_element_as(&xml, "missing"), None);
}

#[test]
fn get_xml_element_as_unit_strips_the_unit_first() {
    let xml = sample();
    assert_eq!(get_xml_element_as_unit(&xml, "rssi"), Some(-65));
    assert_eq!(get_xml_element_as_unit(&xml, "rsrq"), Some(-11));
    assert_eq!(get_xml_element_as_unit(&xml, "cell_id"), Some(4660));
    assert_eq!(get_xml_element_as_unit(&xml, "bad"), None);
    assert_eq!(get_xml_element_as_unit(&xml, "missing"), None);
}

#[test]
fn xml_contains_required_parameters_wants_all_of_them() {
    let xml = sample();
    assert!(xml_contains_required_parameters(&xml, &["mode", "rssi", "cell_id"]));
    assert!(xml_contains_required_parameters(&xml, &[]));
    assert!(!xml_contains_required_parameters(&xml, &["mode", "rssi", "plmn"]));
    assert!(!xml_contains_required_parameters(&xml, &["empty"]));
}

#[test]
fn xml_parse_keeps_document_order_and_joins_text() {
    let xml = XmlElement::parse("<a>one<b>x</b><![CDATA[two]]><!-- c -->three</a>").unwrap();
    assert_eq!(xml.name, "a");
    assert_eq!(xml.get_text(), Some(String::from("onetwothree")));
    assert_eq!(
        xml.children,
        vec![
            XmlNode::Text(String::from("one")),
            XmlNode::Element(XmlElement {
                name: String::from("b"),
                children: vec![XmlNode::Text(String::from("x"))],
            }),
            XmlNode::CData(String::from("two")),
            XmlNode::Comment(String::from(" c ")),
            XmlNode::Text(String::from("three")),
        ]
    );
    assert_eq!(xml.get_child("b").map(|b| b.get_text()), Some(Some(String::from("x"))));
    assert_eq!(xml.get_child("c"), None);
}

#[test]
fn xml_parse_refuses_what_is_no_document() {
    assert_eq!(XmlElement::parse(""), None);
    assert_eq!(XmlElement::parse("plain text"), None);
    assert_eq!(XmlElement::parse("<a><b></a>"), None);
    assert_eq!(XmlElement::parse("<a>"), None);
}

#[test]
fn hand_built_elements_read_like_parsed_ones() {
    let xml = XmlElement {
        name: String::from("response"),
        children: vec![
            XmlNode::Comment(String::from("mode")),
            XmlNode::Text(String::from("mode")),
            XmlNode::Element(XmlElement { name: String::from("mode"), children: vec![] }),
            XmlNode::Element(XmlElement {
                name: String::from("mode"),
                children: vec![XmlNode::Text(String::from("7"))],
            }),
        ],
    };
    // the first child called `mode` has no text, and hides the second
    assert_eq!(get_xml_element(&xml, "mode"), None);
    assert_eq!(xml.get_text(), Some(String::from("mode")));
}

#[test]
fn json_parse_and_lookups() {
    let json = JsonValue::parse(
        r#"{"a": {"b": {"c": 5, "s": "five", "f": 5.5, "big": 18446744073709551615}}, "n": null,
            "t": true, "l": [1, "two"], "neg": -9223372036854775808}"#,
    )
    .unwrap();
    assert_eq!(json.i64_at3("a", "b", "c"), Some(5));
    assert_eq!(json.i64_at3("a", "b", "s"), None);
    assert_eq!(json.i64_at3("a", "b", "f"), None);
    assert_eq!(json.i64_at3("a", "b", "big"), None);
    assert_eq!(json.i64_at3("a", "x", "c"), None);
    assert_eq!(json.i64_at3("n", "b", "c"), None);
    assert_eq!(json.i64_at2("a", "b"), None);
    assert_eq!(json.get2("a", "b").and_then(|b| b.get("s")).and_then(|s| s.as_str()), Some("five"));
    assert_eq!(json.get("n"), Some(&JsonValue::Null));
    assert_eq!(json.get("t"), Some(&JsonValue::Bool(true)));
    assert_eq!(
        json.get("l"),
        Some(&JsonValue::Array(vec![
            JsonValue::Number(Some(1)),
            JsonValue::String(String::from("two"))
        ]))
    );
    assert_eq!(json.get("neg").and_then(|v| v.as_i64()), Some(i64::MIN));
    assert_eq!(json.get("missing"), None);
    assert_eq!(JsonValue::Null.get("a"), None);
    assert_eq!(JsonValue::parse("{"), None);
    assert_eq!(JsonValue::parse(""), None);
    assert_eq!(JsonValue::parse("7"), Some(JsonValue::Number(Some(7))));
}

#[test]
fn json_lookups_agree_with_serde_json() {
    let text = r#"{"wwan": {"signalStrength": {"rssi": -65, "bars": "4"}, "x": [1]}, "y": 1.0}"#;
    let ours = JsonValue::parse(text).unwrap();
    let theirs: serde_json::Value = serde_json::from_str(text).unwrap();
    assert_eq!(
        ours.i64_at3("wwan", "signalStrength", "rssi"),
        theirs["wwan"]["signalStrength"]["rssi"].as_i64()
    );
    assert_eq!(
        ours.i64_at3("wwan", "signalStrength", "bars"),
        theirs["wwan"]["signalStrength"]["bars"].as_i64()
    );
    assert_eq!(
        ours.get3("wwan", "signalStrength", "bars").and_then(|v| v.as_str()),
        theirs["wwan"]["signalStrength"]["bars"].as_str()
    );
    assert_eq!(ours.i64_at2("wwan", "x"), theirs["wwan"]["x"].as_i64());
    assert_eq!(ours.i64_at2("y", "z"), theirs["y"]["z"].as_i64());
    assert_eq!(ours.get("y").and_then(|v| v.as_i64()), theirs["y"].as_i64());
}

#[test]
fn xml_reads_agree_with_xmltree() {
    let text = "<r><a>1</a><b><![CDATA[x]]>y</b><c/><a>2</a><!-- z --></r>";
    let ours = XmlElement::parse(text).unwrap();
    let theirs = xmltree::Element::parse(text.as_bytes()).unwrap();
    for name in ["a", "b", "c", "d"] {
        let expected = theirs.get_child(name).and_then(|e| e.get_text()).map(|t| t.into_owned());
        assert_eq!(get_xml_element(&ours, name), expected, "child {name}");
    }
    assert_eq!(ours.name, theirs.name);
    assert_eq!(ours.get_text(), theirs.get_text().map(|t| t.into_owned()));
}

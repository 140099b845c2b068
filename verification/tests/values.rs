use dprint_plugin_oxc::configuration::coercion::{
    collect_text_groups, collect_text_items, report_unknown_properties, take_bool, take_text,
    take_u16, take_u8,
};
use dprint_plugin_oxc::configuration::diagnostics::{append_prefixed, report};
use dprint_plugin_oxc::configuration::values::same_text;
use dprint_plugin_oxc::configuration::{
    ConfigEnum, ConfigurationDiagnostic, LineEnding, RawConfigMap, RawConfigValue, TrailingCommas,
};
use dprint_plugin_oxc::format_text::{changed_text, join_error_messages, syntax_failure};

fn number(map: &mut RawConfigMap, key: &str) -> Option<i32> {
    match map.take(key) {
        Some(RawConfigValue::Number(n)) => Some(n),
        _ => None,
    }
}

#[test]
fn map_keeps_insertion_order_and_unique_keys() {
    let mut map = RawConfigMap::new();
    assert_eq!(map.len(), 0);
    map.insert("b".to_string(), RawConfigValue::Number(1));
    map.insert("a".to_string(), RawConfigValue::Number(2));
    map.insert("b".to_string(), RawConfigValue::Number(3));
    assert_eq!(map.len(), 2);
    assert_eq!(map.key_at(0), Some(&"b".to_string()));
    assert_eq!(map.key_at(1), Some(&"a".to_string()));
    assert_eq!(map.key_at(2), None);
    assert_eq!(number(&mut map, "b"), Some(3));
    assert_eq!(map.len(), 1);
    assert_eq!(map.key_at(0), Some(&"a".to_string()));
    assert_eq!(number(&mut map, "b"), None);
    assert_eq!(number(&mut map, "a"), Some(2));
    assert_eq!(map.len(), 0);
}

#[test]
fn take_removes_the_key_even_when_the_value_is_malformed() {
    let mut map = RawConfigMap::new();
    map.insert("flag".to_string(), RawConfigValue::Number(1));
    map.insert("width".to_string(), RawConfigValue::Number(7));
    let mut diagnostics = Vec::new();
    assert_eq!(take_bool(&mut map, "flag", &mut diagnostics), None);
    assert_eq!(take_bool(&mut map, "flag", &mut diagnostics), None);
    assert_eq!(take_bool(&mut map, "absent", &mut diagnostics), None);
    assert_eq!(take_u8(&mut map, "width", &mut diagnostics), Some(7));
    assert_eq!(take_u16(&mut map, "width", &mut diagnostics), None);
    assert_eq!(map.len(), 0);
    assert_eq!(
        diagnostics,
        vec![ConfigurationDiagnostic {
            property_name: "flag".to_string(),
            message: "expected a boolean".to_string()
        }]
    );
}

#[test]
fn take_text_hands_the_string_over() {
    let mut map = RawConfigMap::new();
    map.insert("path".to_string(), RawConfigValue::String("a/b".to_string()));
    let mut diagnostics = Vec::new();
    assert_eq!(take_text(&mut map, "path", &mut diagnostics), Some("a/b".to_string()));
    assert_eq!(diagnostics, vec![]);
}

#[test]
fn literal_tables() {
    assert_eq!(LineEnding::parse("crlf"), Some(LineEnding::Crlf));
    assert_eq!(LineEnding::parse("crl"), None);
    assert_eq!(LineEnding::parse("Crlf"), None);
    assert_eq!(LineEnding::parse(""), None);
    assert_eq!(TrailingCommas::parse("none"), Some(TrailingCommas::Never));
}

#[test]
fn same_text_compares_whole_strings() {
    assert!(same_text("", ""));
    assert!(same_text("indentWidth", "indentWidth"));
    assert!(!same_text("indentWidth", "indentSize"));
    assert!(!same_text("a", "ab"));
}

#[test]
fn text_items_keep_order() {
    let items = vec![
        RawConfigValue::Null,
        RawConfigValue::String("x".to_string()),
        RawConfigValue::Array(vec![RawConfigValue::String("inner".to_string())]),
        RawConfigValue::String("y".to_string()),
    ];
    assert_eq!(collect_text_items(&items), vec!["x".to_string(), "y".to_string()]);
    assert_eq!(collect_text_groups(&items), vec![vec!["inner".to_string()]]);
    assert_eq!(collect_text_items(&vec![]), Vec::<String>::new());
}

#[test]
fn findings_are_appended_in_order() {
    let mut diagnostics = Vec::new();
    report(&mut diagnostics, "first", "one");
    let mut nested = Vec::new();
    report(&mut nested, "inner", "two");
    report(&mut nested, "", "three");
    append_prefixed(&mut diagnostics, nested, "outer.");
    let mut rest = RawConfigMap::new();
    rest.insert("z".to_string(), RawConfigValue::Null);
    rest.insert("y".to_string(), RawConfigValue::Null);
    report_unknown_properties(rest, &mut diagnostics);
    let listed: Vec<(String, String)> =
        diagnostics.into_iter().map(|d| (d.property_name, d.message)).collect();
    assert_eq!(
        listed,
        vec![
            ("first".to_string(), "one".to_string()),
            ("outer.inner".to_string(), "two".to_string()),
            ("outer.".to_string(), "three".to_string()),
            ("z".to_string(), "Unknown property".to_string()),
            ("y".to_string(), "Unknown property".to_string()),
        ]
    );
}

#[test]
fn error_messages_are_joined_by_line_feeds() {
    assert_eq!(join_error_messages(&vec![]), "");
    assert_eq!(join_error_messages(&vec!["only".to_string()]), "only");
    assert_eq!(
        join_error_messages(&vec!["a".to_string(), "".to_string(), "c".to_string()]),
        "a\n\nc"
    );
}

#[test]
fn syntax_errors_become_one_failure() {
    assert_eq!(syntax_failure(&vec![]), None);
    assert_eq!(syntax_failure(&vec!["".to_string()]), Some("".to_string()));
    assert_eq!(
        syntax_failure(&vec!["Unexpected token".to_string(), "Expected `;`".to_string()]),
        Some("Unexpected token\nExpected `;`".to_string())
    );
}

#[test]
fn unchanged_text_is_no_change() {
    assert_eq!(changed_text("const x = 1;\n", "const x = 1;\n".to_string()), None);
    assert_eq!(
        changed_text("const x=1", "const x = 1;\n".to_string()),
        Some("const x = 1;\n".to_string())
    );
    assert_eq!(changed_text("", "".to_string()), None);
}

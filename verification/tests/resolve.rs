use dprint_plugin_oxc::configuration::{
    resolve_config, ArrowParentheses, AttributePosition, Configuration, ConfigurationDiagnostic,
    EmbeddedLanguageFormatting, Expand, GlobalConfiguration, IndentStyle, LineEnding, NewLineKind,
    OperatorPosition, QuoteProperties, QuoteStyle, RawConfigMap, RawConfigValue,
    ResolveConfigurationResult, Semicolons, TrailingCommas,
};

fn text(value: &str) -> RawConfigValue {
    RawConfigValue::String(value.to_string())
}

fn map_of(entries: Vec<(&str, RawConfigValue)>) -> RawConfigMap {
    let mut map = RawConfigMap::new();
    for (key, value) in entries {
        map.insert(key.to_string(), value);
    }
    map
}

fn resolve(entries: Vec<(&str, RawConfigValue)>) -> ResolveConfigurationResult<Configuration> {
    resolve_config(map_of(entries), &GlobalConfiguration::default())
}

fn finding(property_name: &str, message: &str) -> ConfigurationDiagnostic {
    ConfigurationDiagnostic { property_name: property_name.to_string(), message: message.to_string() }
}

fn lone_literal(key: &str, literal: &str) -> Configuration {
    let result = resolve(vec![(key, text(literal))]);
    assert_eq!(result.diagnostics, vec![]);
    result.config
}

#[test]
fn line_ending_literals() {
    assert_eq!(lone_literal("lineEnding", "lf").line_ending, Some(LineEnding::Lf));
    assert_eq!(lone_literal("lineEnding", "cr").line_ending, Some(LineEnding::Cr));
    assert_eq!(lone_literal("lineEnding", "crlf").line_ending, Some(LineEnding::Crlf));
}

#[test]
fn indent_style_literals() {
    assert_eq!(lone_literal("indentStyle", "tab").indent_style, Some(IndentStyle::Tab));
    assert_eq!(lone_literal("indentStyle", "space").indent_style, Some(IndentStyle::Space));
}

#[test]
fn semicolons_literals() {
    assert_eq!(lone_literal("semicolons", "always").semicolons, Some(Semicolons::Always));
    assert_eq!(lone_literal("semicolons", "asNeeded").semicolons, Some(Semicolons::AsNeeded));
}

#[test]
fn quote_style_literals() {
    assert_eq!(lone_literal("quoteStyle", "single").quote_style, Some(QuoteStyle::Single));
    assert_eq!(lone_literal("quoteStyle", "double").quote_style, Some(QuoteStyle::Double));
    assert_eq!(lone_literal("jsxQuoteStyle", "single").jsx_quote_style, Some(QuoteStyle::Single));
    assert_eq!(lone_literal("jsxQuoteStyle", "double").jsx_quote_style, Some(QuoteStyle::Double));
    assert_eq!(lone_literal("jsxQuoteStyle", "double").quote_style, None);
}

#[test]
fn quote_properties_literals() {
    assert_eq!(
        lone_literal("quoteProperties", "asNeeded").quote_properties,
        Some(QuoteProperties::AsNeeded)
    );
    assert_eq!(
        lone_literal("quoteProperties", "preserve").quote_properties,
        Some(QuoteProperties::Preserve)
    );
    assert_eq!(
        lone_literal("quoteProperties", "consistent").quote_properties,
        Some(QuoteProperties::Consistent)
    );
}

#[test]
fn arrow_parentheses_literals() {
    assert_eq!(
        lone_literal("arrowParentheses", "always").arrow_parentheses,
        Some(ArrowParentheses::Always)
    );
    assert_eq!(
        lone_literal("arrowParentheses", "asNeeded").arrow_parentheses,
        Some(ArrowParentheses::AsNeeded)
    );
}

#[test]
fn trailing_commas_literals() {
    assert_eq!(lone_literal("trailingCommas", "all").trailing_commas, Some(TrailingCommas::All));
    assert_eq!(lone_literal("trailingCommas", "es5").trailing_commas, Some(TrailingCommas::Es5));
    assert_eq!(lone_literal("trailingCommas", "none").trailing_commas, Some(TrailingCommas::Never));
}

#[test]
fn later_option_literals() {
    assert_eq!(
        lone_literal("attributePosition", "auto").attribute_position,
        Some(AttributePosition::Auto)
    );
    assert_eq!(
        lone_literal("attributePosition", "multiline").attribute_position,
        Some(AttributePosition::Multiline)
    );
    assert_eq!(lone_literal("expand", "auto").expand, Some(Expand::Auto));
    assert_eq!(lone_literal("expand", "never").expand, Some(Expand::Never));
    assert_eq!(
        lone_literal("embeddedLanguageFormatting", "auto").embedded_language_formatting,
        Some(EmbeddedLanguageFormatting::Auto)
    );
    assert_eq!(
        lone_literal("embeddedLanguageFormatting", "off").embedded_language_formatting,
        Some(EmbeddedLanguageFormatting::Off)
    );
    assert_eq!(
        lone_literal("experimentalOperatorPosition", "start").experimental_operator_position,
        Some(OperatorPosition::Start)
    );
    assert_eq!(
        lone_literal("experimentalOperatorPosition", "end").experimental_operator_position,
        Some(OperatorPosition::End)
    );
}

#[test]
fn expand_always_is_no_literal() {
    let result = resolve(vec![("expand", text("always"))]);
    assert_eq!(result.config.expand, None);
    assert_eq!(result.diagnostics, vec![finding("expand", "Found invalid value 'always'.")]);
}

#[test]
fn unrecognized_literal_is_reported_once() {
    let keys = vec![
        "lineEnding",
        "indentStyle",
        "semicolons",
        "quoteStyle",
        "jsxQuoteStyle",
        "quoteProperties",
        "arrowParentheses",
        "trailingCommas",
        "attributePosition",
        "expand",
        "embeddedLanguageFormatting",
        "experimentalOperatorPosition",
    ];
    for key in keys {
        let result = resolve(vec![(key, text("not-a-real-literal"))]);
        assert_eq!(result.config, Configuration::default());
        assert_eq!(
            result.diagnostics,
            vec![finding(key, "Found invalid value 'not-a-real-literal'.")]
        );
    }
}

#[test]
fn value_of_another_shape_is_no_literal() {
    let result = resolve(vec![("quoteStyle", RawConfigValue::Number(1))]);
    assert_eq!(result.config.quote_style, None);
    assert_eq!(result.diagnostics, vec![finding("quoteStyle", "expected a string")]);
    let result = resolve(vec![("lineEnding", text(""))]);
    assert_eq!(result.config.line_ending, None);
    assert_eq!(result.diagnostics, vec![finding("lineEnding", "Found invalid value ''.")]);
}

#[test]
fn literals_are_matched_exactly() {
    let result = resolve(vec![("lineEnding", text("LF")), ("quoteStyle", text("sing"))]);
    assert_eq!(result.config, Configuration::default());
    assert_eq!(
        result.diagnostics,
        vec![
            finding("lineEnding", "Found invalid value 'LF'."),
            finding("quoteStyle", "Found invalid value 'sing'."),
        ]
    );
}

#[test]
fn unknown_key_is_reported() {
    let result = resolve(vec![("someOption", RawConfigValue::Bool(true))]);
    assert_eq!(result.config, Configuration::default());
    assert_eq!(result.diagnostics, vec![finding("someOption", "Unknown property")]);
}

#[test]
fn empty_map_leaves_everything_unset() {
    let result = resolve(vec![]);
    assert_eq!(result.config, Configuration::default());
    assert_eq!(result.config.line_width, None);
    assert_eq!(result.config.experimental_sort_imports, None);
    assert_eq!(result.diagnostics, vec![]);
}

#[test]
fn canonical_key_wins_over_alias() {
    let result =
        resolve(vec![("indentWidth", RawConfigValue::Number(2)), ("indentSize", RawConfigValue::Number(4))]);
    assert_eq!(result.config.indent_width, Some(2));
    assert_eq!(result.diagnostics, vec![]);
}

#[test]
fn alias_is_read_when_canonical_key_is_missing() {
    let result = resolve(vec![("indentSize", RawConfigValue::Number(4))]);
    assert_eq!(result.config.indent_width, Some(4));
    assert_eq!(result.diagnostics, vec![]);
    let result = resolve(vec![("trailingComma", text("es5"))]);
    assert_eq!(result.config.trailing_commas, Some(TrailingCommas::Es5));
    assert_eq!(result.diagnostics, vec![]);
}

#[test]
fn alias_is_read_when_canonical_value_is_malformed() {
    let result = resolve(vec![("indentSize", RawConfigValue::Number(4)), ("indentWidth", text("wide"))]);
    assert_eq!(result.config.indent_width, Some(4));
    assert_eq!(result.diagnostics, vec![finding("indentWidth", "expected an integer from 0 to 255")]);
}

#[test]
fn malformed_alias_is_reported_only_when_read() {
    let result = resolve(vec![("trailingCommas", text("all")), ("trailingComma", text("some"))]);
    assert_eq!(result.config.trailing_commas, Some(TrailingCommas::All));
    assert_eq!(result.diagnostics, vec![]);
    let result = resolve(vec![("trailingComma", text("some"))]);
    assert_eq!(result.config.trailing_commas, None);
    assert_eq!(result.diagnostics, vec![finding("trailingComma", "Found invalid value 'some'.")]);
}

#[test]
fn tabs_flag_is_the_fallback_for_indent_style() {
    let tabs = GlobalConfiguration { use_tabs: Some(true), ..GlobalConfiguration::default() };
    let result = resolve_config(RawConfigMap::new(), &tabs);
    assert_eq!(result.config.indent_style, Some(IndentStyle::Tab));
    assert_eq!(result.diagnostics, vec![]);
    let spaces = GlobalConfiguration { use_tabs: Some(false), ..GlobalConfiguration::default() };
    let result = resolve_config(RawConfigMap::new(), &spaces);
    assert_eq!(result.config.indent_style, Some(IndentStyle::Space));
    let result = resolve_config(map_of(vec![("indentStyle", text("space"))]), &tabs);
    assert_eq!(result.config.indent_style, Some(IndentStyle::Space));
}

#[test]
fn malformed_value_falls_back_to_shared_settings() {
    let tabs = GlobalConfiguration { use_tabs: Some(true), ..GlobalConfiguration::default() };
    let result = resolve_config(map_of(vec![("indentStyle", text("not-a-real-literal"))]), &tabs);
    assert_eq!(result.config.indent_style, Some(IndentStyle::Tab));
    assert_eq!(result.diagnostics, vec![finding("indentStyle", "Found invalid value 'not-a-real-literal'.")]);
}

#[test]
fn shared_widths_are_the_fallback() {
    let global = GlobalConfiguration {
        line_width: Some(100),
        indent_width: Some(3),
        ..GlobalConfiguration::default()
    };
    let result = resolve_config(RawConfigMap::new(), &global);
    assert_eq!(result.config.line_width, Some(100));
    assert_eq!(result.config.indent_width, Some(3));
    let result = resolve_config(
        map_of(vec![("lineWidth", RawConfigValue::Number(80)), ("indentWidth", RawConfigValue::Number(8))]),
        &global,
    );
    assert_eq!(result.config.line_width, Some(80));
    assert_eq!(result.config.indent_width, Some(8));
}

#[test]
fn shared_line_width_is_held_within_range() {
    let global = GlobalConfiguration { line_width: Some(70000), ..GlobalConfiguration::default() };
    assert_eq!(resolve_config(RawConfigMap::new(), &global).config.line_width, Some(65535));
    let global = GlobalConfiguration { line_width: Some(65535), ..GlobalConfiguration::default() };
    assert_eq!(resolve_config(RawConfigMap::new(), &global).config.line_width, Some(65535));
    let global = GlobalConfiguration { line_width: Some(65536), ..GlobalConfiguration::default() };
    assert_eq!(resolve_config(RawConfigMap::new(), &global).config.line_width, Some(65535));
}

#[test]
fn own_width_out_of_range_is_reported() {
    let result = resolve(vec![("lineWidth", RawConfigValue::Number(65536))]);
    assert_eq!(result.config.line_width, None);
    assert_eq!(result.diagnostics, vec![finding("lineWidth", "expected an integer from 0 to 65535")]);
    let result = resolve(vec![("lineWidth", RawConfigValue::Number(65535))]);
    assert_eq!(result.config.line_width, Some(65535));
    let result = resolve(vec![("indentWidth", RawConfigValue::Number(256))]);
    assert_eq!(result.config.indent_width, None);
    assert_eq!(result.diagnostics, vec![finding("indentWidth", "expected an integer from 0 to 255")]);
    let result = resolve(vec![("indentWidth", RawConfigValue::Number(-1))]);
    assert_eq!(result.config.indent_width, None);
    assert_eq!(result.diagnostics.len(), 1);
    let result = resolve(vec![("indentWidth", RawConfigValue::Number(255))]);
    assert_eq!(result.config.indent_width, Some(255));
}

#[test]
fn newline_kind_is_the_fallback_for_line_ending() {
    let with_kind = |kind: NewLineKind| GlobalConfiguration {
        new_line_kind: Some(kind),
        ..GlobalConfiguration::default()
    };
    let resolved = |kind: NewLineKind| resolve_config(RawConfigMap::new(), &with_kind(kind)).config;
    assert_eq!(resolved(NewLineKind::LineFeed).line_ending, Some(LineEnding::Lf));
    assert_eq!(resolved(NewLineKind::CarriageReturnLineFeed).line_ending, Some(LineEnding::Crlf));
    assert_eq!(resolved(NewLineKind::Auto).line_ending, None);
    let result = resolve_config(
        map_of(vec![("lineEnding", text("cr"))]),
        &with_kind(NewLineKind::LineFeed),
    );
    assert_eq!(result.config.line_ending, Some(LineEnding::Cr));
}

#[test]
fn booleans_are_read() {
    let result = resolve(vec![
        ("bracketSpacing", RawConfigValue::Bool(false)),
        ("bracketSameLine", RawConfigValue::Bool(true)),
        ("experimentalTernaries", RawConfigValue::Bool(true)),
    ]);
    assert_eq!(result.config.bracket_spacing, Some(false));
    assert_eq!(result.config.bracket_same_line, Some(true));
    assert_eq!(result.config.experimental_ternaries, Some(true));
    assert_eq!(result.diagnostics, vec![]);
}

#[test]
fn wrong_shape_is_reported() {
    let result = resolve(vec![
        ("bracketSpacing", text("true")),
        ("semicolons", RawConfigValue::Bool(true)),
        ("lineWidth", RawConfigValue::Null),
    ]);
    assert_eq!(result.config, Configuration::default());
    assert_eq!(
        result.diagnostics,
        vec![
            finding("lineWidth", "expected an integer from 0 to 65535"),
            finding("semicolons", "expected a string"),
            finding("bracketSpacing", "expected a boolean"),
        ]
    );
}

#[test]
fn malformed_value_does_not_disturb_other_options() {
    let result = resolve(vec![
        ("quoteStyle", RawConfigValue::Number(1)),
        ("semicolons", text("asNeeded")),
        ("mystery", RawConfigValue::Null),
        ("lineWidth", RawConfigValue::Number(120)),
        ("other", RawConfigValue::Null),
    ]);
    assert_eq!(result.config.quote_style, None);
    assert_eq!(result.config.semicolons, Some(Semicolons::AsNeeded));
    assert_eq!(result.config.line_width, Some(120));
    assert_eq!(
        result.diagnostics,
        vec![
            finding("quoteStyle", "expected a string"),
            finding("mystery", "Unknown property"),
            finding("other", "Unknown property"),
        ]
    );
}

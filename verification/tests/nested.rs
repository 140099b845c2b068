use dprint_plugin_oxc::configuration::{
    resolve_config, Configuration, ConfigurationDiagnostic, GlobalConfiguration, RawConfigMap,
    RawConfigValue, ResolveConfigurationResult, SortImportsOptions, SortOrder, TailwindcssOptions,
};

fn string(value: &str) -> RawConfigValue {
    RawConfigValue::String(value.to_string())
}

fn object(entries: Vec<(&str, RawConfigValue)>) -> RawConfigMap {
    let mut map = RawConfigMap::new();
    for (key, value) in entries {
        map.insert(key.to_string(), value);
    }
    map
}

fn resolve_entries(entries: Vec<(&str, RawConfigValue)>) -> ResolveConfigurationResult<Configuration> {
    resolve_config(object(entries), &GlobalConfiguration::default())
}

fn problem(property_name: &str, message: &str) -> ConfigurationDiagnostic {
    ConfigurationDiagnostic { property_name: property_name.to_string(), message: message.to_string() }
}

fn plain_sort_imports() -> SortImportsOptions {
    SortImportsOptions {
        partition_by_newline: false,
        partition_by_comment: false,
        sort_side_effects: false,
        order: None,
        ignore_case: None,
        newlines_between: None,
        internal_pattern: vec![],
        groups: vec![],
    }
}

#[test]
fn block_of_wrong_shape_is_dropped_whole() {
    let result = resolve_entries(vec![("experimentalSortImports", string("oops"))]);
    assert_eq!(result.config.experimental_sort_imports, None);
    assert_eq!(result.diagnostics, vec![problem("experimentalSortImports", "expected an object")]);
    let result = resolve_entries(vec![("experimentalTailwindcss", RawConfigValue::Array(vec![]))]);
    assert_eq!(result.config.experimental_tailwindcss, None);
    assert_eq!(result.diagnostics, vec![problem("experimentalTailwindcss", "expected an object")]);
}

#[test]
fn missing_block_is_unset() {
    let result = resolve_entries(vec![("semicolons", string("always"))]);
    assert_eq!(result.config.experimental_sort_imports, None);
    assert_eq!(result.config.experimental_tailwindcss, None);
    assert_eq!(result.diagnostics, vec![]);
}

#[test]
fn malformed_list_items_are_dropped_silently() {
    let block = object(vec![(
        "internalPattern",
        RawConfigValue::Array(vec![string("a"), RawConfigValue::Number(5), string("b")]),
    )]);
    let result = resolve_entries(vec![("experimentalSortImports", RawConfigValue::Object(block))]);
    let options = result.config.experimental_sort_imports.unwrap();
    assert_eq!(options.internal_pattern, vec!["a".to_string(), "b".to_string()]);
    assert_eq!(result.diagnostics, vec![]);
}

#[test]
fn empty_block_gives_plain_options() {
    let result =
        resolve_entries(vec![("experimentalSortImports", RawConfigValue::Object(RawConfigMap::new()))]);
    assert_eq!(result.config.experimental_sort_imports, Some(plain_sort_imports()));
    assert_eq!(result.diagnostics, vec![]);
}

#[test]
fn sort_imports_block_is_read() {
    let groups = RawConfigValue::Array(vec![
        RawConfigValue::Array(vec![string("builtin"), RawConfigValue::Bool(true), string("external")]),
        string("stray"),
        RawConfigValue::Array(vec![]),
        RawConfigValue::Array(vec![string("parent")]),
    ]);
    let block = object(vec![
        ("groups", groups),
        ("order", string("desc")),
        ("partitionByNewline", RawConfigValue::Bool(true)),
        ("partitionByComment", RawConfigValue::Bool(false)),
        ("sortSideEffects", RawConfigValue::Bool(true)),
        ("ignoreCase", RawConfigValue::Bool(false)),
        ("newlinesBetween", RawConfigValue::Bool(true)),
        ("internalPattern", RawConfigValue::Array(vec![string("~/"), string("@/")])),
    ]);
    let result = resolve_entries(vec![("experimentalSortImports", RawConfigValue::Object(block))]);
    assert_eq!(
        result.config.experimental_sort_imports,
        Some(SortImportsOptions {
            partition_by_newline: true,
            partition_by_comment: false,
            sort_side_effects: true,
            order: Some(SortOrder::Desc),
            ignore_case: Some(false),
            newlines_between: Some(true),
            internal_pattern: vec!["~/".to_string(), "@/".to_string()],
            groups: vec![
                vec!["builtin".to_string(), "external".to_string()],
                vec![],
                vec!["parent".to_string()],
            ],
        })
    );
    assert_eq!(result.diagnostics, vec![]);
}

#[test]
fn findings_in_a_block_carry_its_key() {
    let block = object(vec![
        ("surprise", RawConfigValue::Null),
        ("order", string("sideways")),
        ("internalPattern", string("not a list")),
        ("ignoreCase", RawConfigValue::Number(1)),
        ("another", RawConfigValue::Null),
    ]);
    let result = resolve_entries(vec![
        ("zeta", RawConfigValue::Null),
        ("experimentalSortImports", RawConfigValue::Object(block)),
        ("quoteStyle", string("triple")),
    ]);
    let options = result.config.experimental_sort_imports.unwrap();
    assert_eq!(options, plain_sort_imports());
    assert_eq!(
        result.diagnostics,
        vec![
            problem("quoteStyle", "Found invalid value 'triple'."),
            problem("experimentalSortImports.order", "Found invalid value 'sideways'."),
            problem("experimentalSortImports.ignoreCase", "expected a boolean"),
            problem("experimentalSortImports.surprise", "Unknown property"),
            problem("experimentalSortImports.another", "Unknown property"),
            problem("zeta", "Unknown property"),
        ]
    );
}

#[test]
fn value_that_is_no_list_counts_as_empty() {
    let block = object(vec![
        ("internalPattern", string("not a list")),
        ("groups", RawConfigValue::Object(RawConfigMap::new())),
    ]);
    let result = resolve_entries(vec![("experimentalSortImports", RawConfigValue::Object(block))]);
    assert_eq!(result.config.experimental_sort_imports, Some(plain_sort_imports()));
    assert_eq!(result.diagnostics, vec![]);
    let block = object(vec![("functions", RawConfigValue::Bool(true))]);
    let result = resolve_entries(vec![("experimentalTailwindcss", RawConfigValue::Object(block))]);
    assert_eq!(result.config.experimental_tailwindcss.unwrap().functions, Vec::<String>::new());
    assert_eq!(result.diagnostics, vec![]);
}

#[test]
fn sort_order_literals() {
    let block = object(vec![("order", string("asc"))]);
    let result = resolve_entries(vec![("experimentalSortImports", RawConfigValue::Object(block))]);
    assert_eq!(result.config.experimental_sort_imports.unwrap().order, Some(SortOrder::Asc));
}

#[test]
fn tailwindcss_block_is_read() {
    let block = object(vec![
        ("config", string("./tailwind.config.js")),
        ("stylesheet", string("./app.css")),
        ("functions", RawConfigValue::Array(vec![string("clsx"), RawConfigValue::Null, string("cva")])),
        ("attributes", RawConfigValue::Array(vec![string("classList")])),
        ("preserveWhitespace", RawConfigValue::Bool(true)),
        ("preserveDuplicates", RawConfigValue::Bool(true)),
    ]);
    let result = resolve_entries(vec![("experimentalTailwindcss", RawConfigValue::Object(block))]);
    assert_eq!(
        result.config.experimental_tailwindcss,
        Some(TailwindcssOptions {
            config: Some("./tailwind.config.js".to_string()),
            stylesheet: Some("./app.css".to_string()),
            functions: vec!["clsx".to_string(), "cva".to_string()],
            attributes: vec!["classList".to_string()],
            preserve_whitespace: true,
            preserve_duplicates: true,
        })
    );
    assert_eq!(result.diagnostics, vec![]);
}

#[test]
fn tailwindcss_findings_carry_its_key() {
    let block = object(vec![
        ("config", RawConfigValue::Number(3)),
        ("preserveWhitespace", string("yes")),
        ("plugins", RawConfigValue::Array(vec![])),
    ]);
    let result = resolve_entries(vec![("experimentalTailwindcss", RawConfigValue::Object(block))]);
    assert_eq!(
        result.config.experimental_tailwindcss,
        Some(TailwindcssOptions {
            config: None,
            stylesheet: None,
            functions: vec![],
            attributes: vec![],
            preserve_whitespace: false,
            preserve_duplicates: false,
        })
    );
    assert_eq!(
        result.diagnostics,
        vec![
            problem("experimentalTailwindcss.config", "expected a string"),
            problem("experimentalTailwindcss.preserveWhitespace", "expected a boolean"),
            problem("experimentalTailwindcss.plugins", "Unknown property"),
        ]
    );
}

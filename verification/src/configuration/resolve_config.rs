//! The assembler: resolves every option and reports what is left over.
use vstd::prelude::*;
use crate::configuration::coercion::{
    bool_faults, bool_of, enum_faults, enum_of, report_unknown_properties, take_bool, take_enum,
    take_u16, take_u8, u16_faults, u16_of, u8_faults, u8_of, unknown_findings,
};
use crate::configuration::configuration::{
    ArrowParentheses, AttributePosition, Configuration, EmbeddedLanguageFormatting, Expand,
    GlobalConfiguration, IndentStyle, LineEnding, NewLineKind, OperatorPosition, QuoteProperties,
    QuoteStyle, Semicolons, TrailingCommas,
};
use crate::configuration::diagnostics::{views, ConfigurationDiagnostic};
use crate::configuration::keys::lemma_option_key_shapes;
use crate::configuration::nested::{
    sort_imports_faults, sort_imports_taken, tailwindcss_faults, tailwindcss_taken,
    take_sort_imports, take_tailwindcss,
};
use crate::configuration::values::{
    lemma_next_key, lemma_without_nothing, lookup, without_keys, RawConfigMap, RawConfigValue,
};

verus! {

/// A resolved configuration together with the findings made on the way.
#[derive(Clone, Debug, PartialEq, Eq)]
pub struct ResolveConfigurationResult<T> {
    /// The findings, in the order in which they were made.
    pub diagnostics: Vec<ConfigurationDiagnostic>,
    /// The resolved configuration.
    pub config: T,
}

/// The first of two sources that yields a value.
pub open spec fn first_set<T>(preferred: Option<T>, fallback: Option<T>) -> Option<T> {
    if preferred is Some {
        preferred
    } else {
        fallback
    }
}

/// The indent style that the shared tabs flag stands for.
pub open spec fn indent_style_of_tabs(use_tabs: Option<bool>) -> Option<IndentStyle> {
    match use_tabs {
        Some(true) => Some(IndentStyle::Tab),
        Some(false) => Some(IndentStyle::Space),
        None => None,
    }
}

/// The shared line width, with widths beyond 65535 held at 65535.
pub open spec fn line_width_within_range(line_width: Option<u32>) -> Option<u16> {
    match line_width {
        Some(width) => Some(if width > u16::MAX { u16::MAX } else { width as u16 }),
        None => None,
    }
}

/// The line ending that the shared newline kind stands for. Only the two
/// fixed kinds give one.
pub open spec fn line_ending_of_kind(kind: Option<NewLineKind>) -> Option<LineEnding> {
    match kind {
        Some(NewLineKind::CarriageReturnLineFeed) => Some(LineEnding::Crlf),
        Some(NewLineKind::LineFeed) => Some(LineEnding::Lf),
        _ => None,
    }
}

/// The findings of an alias key: those of the value under it where the
/// canonical key gave no value, none where it did.
pub open spec fn alias_faults(canonical_set: bool, faults: Seq<(Seq<char>, Seq<char>)>) -> Seq<
    (Seq<char>, Seq<char>),
> {
    if canonical_set {
        Seq::empty()
    } else {
        faults
    }
}

/// The top-level keys that resolution reads, aliases included.
pub open spec fn recognized_keys() -> Set<Seq<char>> {
    Set::empty()
        .insert("indentStyle"@)
        .insert("indentWidth"@)
        .insert("indentSize"@)
        .insert("lineWidth"@)
        .insert("lineEnding"@)
        .insert("semicolons"@)
        .insert("quoteStyle"@)
        .insert("jsxQuoteStyle"@)
        .insert("quoteProperties"@)
        .insert("arrowParentheses"@)
        .insert("trailingCommas"@)
        .insert("trailingComma"@)
        .insert("bracketSpacing"@)
        .insert("bracketSameLine"@)
        .insert("attributePosition"@)
        .insert("expand"@)
        .insert("embeddedLanguageFormatting"@)
        .insert("experimentalOperatorPosition"@)
        .insert("experimentalTernaries"@)
        .insert("experimentalSortImports"@)
        .insert("experimentalTailwindcss"@)
}

/// Whether `config` is what the entries resolve to, given the shared
/// settings. Each option is read from its own key, then from its alias
/// where it has one, then from the shared settings where they cover it;
/// no option depends on another.
pub open spec fn resolves_to(
    entries: Seq<(String, RawConfigValue)>,
    global: GlobalConfiguration,
    config: Configuration,
) -> bool {
    &&& config.indent_style == first_set(
        enum_of::<IndentStyle>(lookup(entries, "indentStyle"@)),
        indent_style_of_tabs(global.use_tabs),
    )
    &&& config.indent_width == first_set(
        first_set(
            u8_of(lookup(entries, "indentWidth"@)),
            u8_of(lookup(entries, "indentSize"@)),
        ),
        global.indent_width,
    )
    &&& config.line_width == first_set(
        u16_of(lookup(entries, "lineWidth"@)),
        line_width_within_range(global.line_width),
    )
    &&& config.line_ending == first_set(
        enum_of::<LineEnding>(lookup(entries, "lineEnding"@)),
        line_ending_of_kind(global.new_line_kind),
    )
    &&& config.semicolons == enum_of::<Semicolons>(lookup(entries, "semicolons"@))
    &&& config.quote_style == enum_of::<QuoteStyle>(lookup(entries, "quoteStyle"@))
    &&& config.jsx_quote_style == enum_of::<QuoteStyle>(lookup(entries, "jsxQuoteStyle"@))
    &&& config.quote_properties == enum_of::<QuoteProperties>(lookup(entries, "quoteProperties"@))
    &&& config.arrow_parentheses == enum_of::<ArrowParentheses>(
        lookup(entries, "arrowParentheses"@),
    )
    &&& config.trailing_commas == first_set(
            enum_of::<TrailingCommas>(lookup(entries, "trailingCommas"@)),
            enum_of::<TrailingCommas>(lookup(entries, "trailingComma"@)),
        )
    &&& config.bracket_spacing == bool_of(lookup(entries, "bracketSpacing"@))
    &&& config.bracket_same_line == bool_of(lookup(entries, "bracketSameLine"@))
    &&& config.attribute_position == enum_of::<AttributePosition>(
        lookup(entries, "attributePosition"@),
    )
    &&& config.expand == enum_of::<Expand>(lookup(entries, "expand"@))
    &&& config.embedded_language_formatting == enum_of::<EmbeddedLanguageFormatting>(
        lookup(entries, "embeddedLanguageFormatting"@),
    )
    &&& config.experimental_operator_position == enum_of::<OperatorPosition>(
        lookup(entries, "experimentalOperatorPosition"@),
    )
    &&& config.experimental_ternaries == bool_of(lookup(entries, "experimentalTernaries"@))
    &&& sort_imports_taken(
        lookup(entries, "experimentalSortImports"@),
        config.experimental_sort_imports,
    )
    &&& tailwindcss_taken(
        lookup(entries, "experimentalTailwindcss"@),
        config.experimental_tailwindcss,
    )
}

/// The findings that resolution makes on the entries: those on the
/// recognized keys in the order in which they are read, then one for every
/// other key in the order of the entries.
pub open spec fn expected_findings(entries: Seq<(String, RawConfigValue)>) -> Seq<
    (Seq<char>, Seq<char>),
> {
    Seq::empty()
        + enum_faults::<IndentStyle>("indentStyle"@, lookup(entries, "indentStyle"@))
        + u8_faults("indentWidth"@, lookup(entries, "indentWidth"@))
        + alias_faults(
            u8_of(lookup(entries, "indentWidth"@)) is Some,
            u8_faults("indentSize"@, lookup(entries, "indentSize"@)),
        )
        + u16_faults("lineWidth"@, lookup(entries, "lineWidth"@))
        + enum_faults::<LineEnding>("lineEnding"@, lookup(entries, "lineEnding"@))
        + enum_faults::<Semicolons>("semicolons"@, lookup(entries, "semicolons"@))
        + enum_faults::<QuoteStyle>("quoteStyle"@, lookup(entries, "quoteStyle"@))
        + enum_faults::<QuoteStyle>("jsxQuoteStyle"@, lookup(entries, "jsxQuoteStyle"@))
        + enum_faults::<QuoteProperties>("quoteProperties"@, lookup(entries, "quoteProperties"@))
        + enum_faults::<ArrowParentheses>("arrowParentheses"@, lookup(entries, "arrowParentheses"@))
        + enum_faults::<TrailingCommas>("trailingCommas"@, lookup(entries, "trailingCommas"@))
        + alias_faults(
            enum_of::<TrailingCommas>(lookup(entries, "trailingCommas"@)) is Some,
            enum_faults::<TrailingCommas>("trailingComma"@, lookup(entries, "trailingComma"@)),
        )
        + bool_faults("bracketSpacing"@, lookup(entries, "bracketSpacing"@))
        + bool_faults("bracketSameLine"@, lookup(entries, "bracketSameLine"@))
        + enum_faults::<AttributePosition>(
            "attributePosition"@,
            lookup(entries, "attributePosition"@),
        )
        + enum_faults::<Expand>("expand"@, lookup(entries, "expand"@))
        + enum_faults::<EmbeddedLanguageFormatting>(
            "embeddedLanguageFormatting"@,
            lookup(entries, "embeddedLanguageFormatting"@),
        )
        + enum_faults::<OperatorPosition>(
            "experimentalOperatorPosition"@,
            lookup(entries, "experimentalOperatorPosition"@),
        )
        + bool_faults("experimentalTernaries"@, lookup(entries, "experimentalTernaries"@))
        + sort_imports_faults(lookup(entries, "experimentalSortImports"@))
        + tailwindcss_faults(lookup(entries, "experimentalTailwindcss"@))
        + unknown_findings(without_keys(entries, recognized_keys()))
}

fn first_of<T>(preferred: Option<T>, fallback: Option<T>) -> (chosen: Option<T>)
    ensures
        chosen == first_set(preferred, fallback),
{
    match preferred {
        Some(value) => Some(value),
        None => fallback,
    }
}

fn indent_style_for(use_tabs: Option<bool>) -> (style: Option<IndentStyle>)
    ensures
        style == indent_style_of_tabs(use_tabs),
{
    match use_tabs {
        Some(true) => Some(IndentStyle::Tab),
        Some(false) => Some(IndentStyle::Space),
        None => None,
    }
}

fn line_width_for(line_width: Option<u32>) -> (width: Option<u16>)
    ensures
        width == line_width_within_range(line_width),
{
    match line_width {
        Some(width) => Some(if width > 65535 { 65535u16 } else { width as u16 }),
        None => None,
    }
}

fn line_ending_for(kind: Option<NewLineKind>) -> (ending: Option<LineEnding>)
    ensures
        ending == line_ending_of_kind(kind),
{
    match kind {
        Some(NewLineKind::CarriageReturnLineFeed) => Some(LineEnding::Crlf),
        Some(NewLineKind::LineFeed) => Some(LineEnding::Lf),
        _ => None,
    }
}

/// Resolves the raw settings of the plugin against the shared settings.
///
/// Every recognized key is removed from the map as it is read, whether its
/// value is usable or not, so a malformed value is reported once and never
/// again as an unknown property. What is left in the map at the end is
/// reported as unknown. Resolution never fails: a malformed value leaves
/// its option to the next source and, in the end, unset.
pub fn resolve_config(config: RawConfigMap, global_config: &GlobalConfiguration) -> (result:
    ResolveConfigurationResult<Configuration>)
    ensures
        resolves_to(config@, *global_config, result.config),
        views(result.diagnostics@) == expected_findings(config@),
{
    let mut config = config;
    let mut diagnostics: Vec<ConfigurationDiagnostic> = Vec::new();
    let ghost entries = config@;
    let ghost mut removed: Set<Seq<char>> = Set::empty();
    proof {
        lemma_option_key_shapes();
        lemma_without_nothing(entries);
        assert(views(diagnostics@) =~= Seq::empty());
    }
    proof {
        lemma_next_key(entries, removed, "indentStyle"@);
        removed = removed.insert("indentStyle"@);
    }
    let indent_style = first_of(
        take_enum::<IndentStyle>(&mut config, "indentStyle", &mut diagnostics),
        indent_style_for(global_config.use_tabs),
    );
    proof {
        lemma_next_key(entries, removed, "indentWidth"@);
        removed = removed.insert("indentWidth"@);
    }
    let indent_width_own = take_u8(&mut config, "indentWidth", &mut diagnostics);
    proof {
        lemma_next_key(entries, removed, "indentSize"@);
        removed = removed.insert("indentSize"@);
    }
    let ghost before = views(diagnostics@);
    let indent_width_alias = if indent_width_own.is_some() {
        let _ = config.take("indentSize");
        assert(before + Seq::empty() =~= before);
        None
    } else {
        take_u8(&mut config, "indentSize", &mut diagnostics)
    };
    let indent_width = first_of(
        first_of(indent_width_own, indent_width_alias),
        global_config.indent_width,
    );
    proof {
        lemma_next_key(entries, removed, "lineWidth"@);
        removed = removed.insert("lineWidth"@);
    }
    let line_width = first_of(
        take_u16(&mut config, "lineWidth", &mut diagnostics),
        line_width_for(global_config.line_width),
    );
    proof {
        lemma_next_key(entries, removed, "lineEnding"@);
        removed = removed.insert("lineEnding"@);
    }
    let line_ending = first_of(
        take_enum::<LineEnding>(&mut config, "lineEnding", &mut diagnostics),
        line_ending_for(global_config.new_line_kind),
    );
    proof {
        lemma_next_key(entries, removed, "semicolons"@);
        removed = removed.insert("semicolons"@);
    }
    let semicolons = take_enum::<Semicolons>(&mut config, "semicolons", &mut diagnostics);
    proof {
        lemma_next_key(entries, removed, "quoteStyle"@);
        removed = removed.insert("quoteStyle"@);
    }
    let quote_style = take_enum::<QuoteStyle>(&mut config, "quoteStyle", &mut diagnostics);
    proof {
        lemma_next_key(entries, removed, "jsxQuoteStyle"@);
        removed = removed.insert("jsxQuoteStyle"@);
    }
    let jsx_quote_style = take_enum::<QuoteStyle>(&mut config, "jsxQuoteStyle", &mut diagnostics);
    proof {
        lemma_next_key(entries, removed, "quoteProperties"@);
        removed = removed.insert("quoteProperties"@);
    }
    let quote_properties = take_enum::<QuoteProperties>(
        &mut config,
        "quoteProperties",
        &mut diagnostics,
    );
    proof {
        lemma_next_key(entries, removed, "arrowParentheses"@);
        removed = removed.insert("arrowParentheses"@);
    }
    let arrow_parentheses = take_enum::<ArrowParentheses>(
        &mut config,
        "arrowParentheses",
        &mut diagnostics,
    );
    proof {
        lemma_next_key(entries, removed, "trailingCommas"@);
        removed = removed.insert("trailingCommas"@);
    }
    let trailing_commas_own = take_enum::<TrailingCommas>(
        &mut config,
        "trailingCommas",
        &mut diagnostics,
    );
    proof {
        lemma_next_key(entries, removed, "trailingComma"@);
        removed = removed.insert("trailingComma"@);
    }
    let ghost before = views(diagnostics@);
    let trailing_commas_alias = if trailing_commas_own.is_some() {
        let _ = config.take("trailingComma");
        assert(before + Seq::empty() =~= before);
        None
    } else {
        take_enum::<TrailingCommas>(&mut config, "trailingComma", &mut diagnostics)
    };
    let trailing_commas = first_of(trailing_commas_own, trailing_commas_alias);
    proof {
        lemma_next_key(entries, removed, "bracketSpacing"@);
        removed = removed.insert("bracketSpacing"@);
    }
    let bracket_spacing = take_bool(&mut config, "bracketSpacing", &mut diagnostics);
    proof {
        lemma_next_key(entries, removed, "bracketSameLine"@);
        removed = removed.insert("bracketSameLine"@);
    }
    let bracket_same_line = take_bool(&mut config, "bracketSameLine", &mut diagnostics);
    proof {
        lemma_next_key(entries, removed, "attributePosition"@);
        removed = removed.insert("attributePosition"@);
    }
    let attribute_position = take_enum::<AttributePosition>(
        &mut config,
        "attributePosition",
        &mut diagnostics,
    );
    proof {
        lemma_next_key(entries, removed, "expand"@);
        removed = removed.insert("expand"@);
    }
    let expand = take_enum::<Expand>(&mut config, "expand", &mut diagnostics);
    proof {
        lemma_next_key(entries, removed, "embeddedLanguageFormatting"@);
        removed = removed.insert("embeddedLanguageFormatting"@);
    }
    let embedded_language_formatting = take_enum::<EmbeddedLanguageFormatting>(
        &mut config,
        "embeddedLanguageFormatting",
        &mut diagnostics,
    );
    proof {
        lemma_next_key(entries, removed, "experimentalOperatorPosition"@);
        removed = removed.insert("experimentalOperatorPosition"@);
    }
    let experimental_operator_position = take_enum::<OperatorPosition>(
        &mut config,
        "experimentalOperatorPosition",
        &mut diagnostics,
    );
    proof {
        lemma_next_key(entries, removed, "experimentalTernaries"@);
        removed = removed.insert("experimentalTernaries"@);
    }
    let experimental_ternaries = take_bool(&mut config, "experimentalTernaries", &mut diagnostics);
    proof {
        lemma_next_key(entries, removed, "experimentalSortImports"@);
        removed = removed.insert("experimentalSortImports"@);
    }
    let experimental_sort_imports = take_sort_imports(&mut config, &mut diagnostics);
    proof {
        lemma_next_key(entries, removed, "experimentalTailwindcss"@);
        removed = removed.insert("experimentalTailwindcss"@);
    }
    let experimental_tailwindcss = take_tailwindcss(&mut config, &mut diagnostics);
    report_unknown_properties(config, &mut diagnostics);
    let resolved = Configuration {
        line_ending,
        indent_style,
        indent_width,
        line_width,
        semicolons,
        quote_style,
        jsx_quote_style,
        quote_properties,
        arrow_parentheses,
        trailing_commas,
        bracket_spacing,
        bracket_same_line,
        attribute_position,
        expand,
        embedded_language_formatting,
        experimental_operator_position,
        experimental_ternaries,
        experimental_sort_imports,
        experimental_tailwindcss,
    };
    ResolveConfigurationResult { diagnostics, config: resolved }
}

} // verus!

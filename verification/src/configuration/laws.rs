//! Laws of resolution, proved from the contract of the assembler.
use vstd::prelude::*;
use crate::configuration::coercion::{
    enum_message, enum_of, text_items, u8_faults, u8_of, unknown_findings,
};
use crate::configuration::configuration::{
    all_unset, ArrowParentheses, AttributePosition, ConfigEnum, Configuration,
    EmbeddedLanguageFormatting, Expand, GlobalConfiguration, IndentStyle, LineEnding,
    OperatorPosition, QuoteProperties, QuoteStyle, Semicolons, SortOrder, TrailingCommas,
};
use crate::configuration::keys::lemma_option_key_shapes;
use crate::configuration::resolve_config::{
    alias_faults, expected_findings, indent_style_of_tabs, line_ending_of_kind,
    line_width_within_range, recognized_keys, resolves_to,
};
use crate::configuration::values::{
    lemma_removed_keys_are_gone, lookup, without_keys, RawConfigValue,
};

verus! {

/// The entries of a map that holds one setting.
pub open spec fn lone(name: String, value: RawConfigValue) -> Seq<(String, RawConfigValue)> {
    seq![(name, value)]
}

/// Whether `text` is a literal of the enumerated option that `key` names.
pub open spec fn names_variant(key: Seq<char>, text: Seq<char>) -> bool {
    ||| key == "lineEnding"@
        && LineEnding::from_literal(text) is Some
    ||| key == "indentStyle"@
        && IndentStyle::from_literal(text) is Some
    ||| key == "semicolons"@
        && Semicolons::from_literal(text) is Some
    ||| key == "quoteStyle"@
        && QuoteStyle::from_literal(text) is Some
    ||| key == "jsxQuoteStyle"@
        && QuoteStyle::from_literal(text) is Some
    ||| key == "quoteProperties"@
        && QuoteProperties::from_literal(text) is Some
    ||| key == "arrowParentheses"@
        && ArrowParentheses::from_literal(text) is Some
    ||| key == "trailingCommas"@
        && TrailingCommas::from_literal(text) is Some
    ||| key == "attributePosition"@
        && AttributePosition::from_literal(text) is Some
    ||| key == "expand"@
        && Expand::from_literal(text) is Some
    ||| key == "embeddedLanguageFormatting"@
        && EmbeddedLanguageFormatting::from_literal(text) is Some
    ||| key == "experimentalOperatorPosition"@
        && OperatorPosition::from_literal(text) is Some
}

/// In a map of one setting, a key finds the value if it is the setting's
/// name and nothing otherwise; removing keys empties the map if the name is
/// among them and leaves it as it is otherwise.
pub proof fn lemma_lone_entry(name: String, value: RawConfigValue, keys: Set<Seq<char>>)
    ensures
        forall|key: Seq<char>| #[trigger]
            lookup(lone(name, value), key) == if name@ == key {
                Some(value)
            } else {
                None
            },
        without_keys(lone(name, value), keys) == if keys.contains(name@) {
            Seq::<(String, RawConfigValue)>::empty()
        } else {
            lone(name, value)
        },
{
    let entries = lone(name, value);
    assert(entries.drop_last() =~= Seq::empty());
    assert(without_keys(entries.drop_last(), keys) =~= Seq::empty());
    assert(Seq::<(String, RawConfigValue)>::empty().push(entries.last()) =~= entries);
    assert forall|key: Seq<char>| #[trigger]
        lookup(entries, key) == if name@ == key {
            Some(value)
        } else {
            None
        } by {
        assert(lookup(entries.drop_last(), key) is None);
    }
}

/// A map that holds nothing but an enumerated option, set to one of its
/// literals, resolves to that option set to the variant that the literal
/// names, whatever the shared settings hold, and gives no finding.
pub proof fn lemma_lone_literal_sets_option(
    name: String,
    text: String,
    global: GlobalConfiguration,
    config: Configuration,
)
    requires
        resolves_to(lone(name, RawConfigValue::String(text)), global, config),
    ensures
        names_variant(name@, text@) ==> expected_findings(
            lone(name, RawConfigValue::String(text)),
        ) == Seq::<(Seq<char>, Seq<char>)>::empty(),
        name@ == "lineEnding"@
            && LineEnding::from_literal(text@) is Some
            ==> config.line_ending
            == LineEnding::from_literal(text@),
        name@ == "indentStyle"@
            && IndentStyle::from_literal(text@) is Some
            ==> config.indent_style
            == IndentStyle::from_literal(text@),
        name@ == "semicolons"@
            && Semicolons::from_literal(text@) is Some
            ==> config.semicolons
            == Semicolons::from_literal(text@),
        name@ == "quoteStyle"@
            && QuoteStyle::from_literal(text@) is Some
            ==> config.quote_style
            == QuoteStyle::from_literal(text@),
        name@ == "jsxQuoteStyle"@
            && QuoteStyle::from_literal(text@) is Some
            ==> config.jsx_quote_style
            == QuoteStyle::from_literal(text@),
        name@ == "quoteProperties"@
            && QuoteProperties::from_literal(text@) is Some
            ==> config.quote_properties
            == QuoteProperties::from_literal(text@),
        name@ == "arrowParentheses"@
            && ArrowParentheses::from_literal(text@) is Some
            ==> config.arrow_parentheses
            == ArrowParentheses::from_literal(text@),
        name@ == "trailingCommas"@
            && TrailingCommas::from_literal(text@) is Some
            ==> config.trailing_commas
            == TrailingCommas::from_literal(text@),
        name@ == "attributePosition"@
            && AttributePosition::from_literal(text@) is Some
            ==> config.attribute_position
            == AttributePosition::from_literal(text@),
        name@ == "expand"@
            && Expand::from_literal(text@) is Some
            ==> config.expand
            == Expand::from_literal(text@),
        name@ == "embeddedLanguageFormatting"@
            && EmbeddedLanguageFormatting::from_literal(text@) is Some
            ==> config.embedded_language_formatting
            == EmbeddedLanguageFormatting::from_literal(text@),
        name@ == "experimentalOperatorPosition"@
            && OperatorPosition::from_literal(text@) is Some
            ==> config.experimental_operator_position
            == OperatorPosition::from_literal(text@),
{
    lemma_option_key_shapes();
    lemma_lone_entry(name, RawConfigValue::String(text), recognized_keys());
    if names_variant(name@, text@) {
        assert(expected_findings(lone(name, RawConfigValue::String(text))) =~= Seq::empty());
    }
}

/// A map that holds nothing but an enumerated option, set to a value that is
/// none of its literals, gives exactly one finding, on that option. The
/// option stays unset, except that the indent style and the line ending
/// then come from the shared settings where these give one.
pub proof fn lemma_lone_unrecognized_literal(
    name: String,
    value: RawConfigValue,
    global: GlobalConfiguration,
    config: Configuration,
)
    requires
        resolves_to(lone(name, value), global, config),
    ensures
        name@ == "lineEnding"@
            && enum_of::<LineEnding>(Some(value)) is None
            ==> expected_findings(lone(name, value))
                == seq![("lineEnding"@, enum_message(Some(value)))]
            && config.line_ending
                == line_ending_of_kind(global.new_line_kind),
        name@ == "indentStyle"@
            && enum_of::<IndentStyle>(Some(value)) is None
            ==> expected_findings(lone(name, value))
                == seq![("indentStyle"@, enum_message(Some(value)))]
            && config.indent_style
                == indent_style_of_tabs(global.use_tabs),
        name@ == "semicolons"@
            && enum_of::<Semicolons>(Some(value)) is None
            ==> expected_findings(lone(name, value))
                == seq![("semicolons"@, enum_message(Some(value)))]
            && config.semicolons
                == None::<Semicolons>,
        name@ == "quoteStyle"@
            && enum_of::<QuoteStyle>(Some(value)) is None
            ==> expected_findings(lone(name, value))
                == seq![("quoteStyle"@, enum_message(Some(value)))]
            && config.quote_style
                == None::<QuoteStyle>,
        name@ == "jsxQuoteStyle"@
            && enum_of::<QuoteStyle>(Some(value)) is None
            ==> expected_findings(lone(name, value))
                == seq![("jsxQuoteStyle"@, enum_message(Some(value)))]
            && config.jsx_quote_style
                == None::<QuoteStyle>,
        name@ == "quoteProperties"@
            && enum_of::<QuoteProperties>(Some(value)) is None
            ==> expected_findings(lone(name, value))
                == seq![("quoteProperties"@, enum_message(Some(value)))]
            && config.quote_properties
                == None::<QuoteProperties>,
        name@ == "arrowParentheses"@
            && enum_of::<ArrowParentheses>(Some(value)) is None
            ==> expected_findings(lone(name, value))
                == seq![("arrowParentheses"@, enum_message(Some(value)))]
            && config.arrow_parentheses
                == None::<ArrowParentheses>,
        name@ == "trailingCommas"@
            && enum_of::<TrailingCommas>(Some(value)) is None
            ==> expected_findings(lone(name, value))
                == seq![("trailingCommas"@, enum_message(Some(value)))]
            && config.trailing_commas
                == None::<TrailingCommas>,
        name@ == "attributePosition"@
            && enum_of::<AttributePosition>(Some(value)) is None
            ==> expected_findings(lone(name, value))
                == seq![("attributePosition"@, enum_message(Some(value)))]
            && config.attribute_position
                == None::<AttributePosition>,
        name@ == "expand"@
            && enum_of::<Expand>(Some(value)) is None
            ==> expected_findings(lone(name, value))
                == seq![("expand"@, enum_message(Some(value)))]
            && config.expand
                == None::<Expand>,
        name@ == "embeddedLanguageFormatting"@
            && enum_of::<EmbeddedLanguageFormatting>(Some(value)) is None
            ==> expected_findings(lone(name, value))
                == seq![("embeddedLanguageFormatting"@, enum_message(Some(value)))]
            && config.embedded_language_formatting
                == None::<EmbeddedLanguageFormatting>,
        name@ == "experimentalOperatorPosition"@
            && enum_of::<OperatorPosition>(Some(value)) is None
            ==> expected_findings(lone(name, value))
                == seq![("experimentalOperatorPosition"@, enum_message(Some(value)))]
            && config.experimental_operator_position
                == None::<OperatorPosition>,
{
    lemma_option_key_shapes();
    lemma_lone_entry(name, value, recognized_keys());
    if name@ == "lineEnding"@ {
        assert(enum_of::<LineEnding>(Some(value)) is None ==> expected_findings(
            lone(name, value),
        ) =~= seq![("lineEnding"@, enum_message(Some(value)))]);
    }
    if name@ == "indentStyle"@ {
        assert(enum_of::<IndentStyle>(Some(value)) is None ==> expected_findings(
            lone(name, value),
        ) =~= seq![("indentStyle"@, enum_message(Some(value)))]);
    }
    if name@ == "semicolons"@ {
        assert(enum_of::<Semicolons>(Some(value)) is None ==> expected_findings(
            lone(name, value),
        ) =~= seq![("semicolons"@, enum_message(Some(value)))]);
    }
    if name@ == "quoteStyle"@ {
        assert(enum_of::<QuoteStyle>(Some(value)) is None ==> expected_findings(
            lone(name, value),
        ) =~= seq![("quoteStyle"@, enum_message(Some(value)))]);
    }
    if name@ == "jsxQuoteStyle"@ {
        assert(enum_of::<QuoteStyle>(Some(value)) is None ==> expected_findings(
            lone(name, value),
        ) =~= seq![("jsxQuoteStyle"@, enum_message(Some(value)))]);
    }
    if name@ == "quoteProperties"@ {
        assert(enum_of::<QuoteProperties>(Some(value)) is None ==> expected_findings(
            lone(name, value),
        ) =~= seq![("quoteProperties"@, enum_message(Some(value)))]);
    }
    if name@ == "arrowParentheses"@ {
        assert(enum_of::<ArrowParentheses>(Some(value)) is None ==> expected_findings(
            lone(name, value),
        ) =~= seq![("arrowParentheses"@, enum_message(Some(value)))]);
    }
    if name@ == "trailingCommas"@ {
        assert(enum_of::<TrailingCommas>(Some(value)) is None ==> expected_findings(
            lone(name, value),
        ) =~= seq![("trailingCommas"@, enum_message(Some(value)))]);
    }
    if name@ == "attributePosition"@ {
        assert(enum_of::<AttributePosition>(Some(value)) is None ==> expected_findings(
            lone(name, value),
        ) =~= seq![("attributePosition"@, enum_message(Some(value)))]);
    }
    if name@ == "expand"@ {
        assert(enum_of::<Expand>(Some(value)) is None ==> expected_findings(
            lone(name, value),
        ) =~= seq![("expand"@, enum_message(Some(value)))]);
    }
    if name@ == "embeddedLanguageFormatting"@ {
        assert(enum_of::<EmbeddedLanguageFormatting>(Some(value)) is None ==> expected_findings(
            lone(name, value),
        ) =~= seq![("embeddedLanguageFormatting"@, enum_message(Some(value)))]);
    }
    if name@ == "experimentalOperatorPosition"@ {
        assert(enum_of::<OperatorPosition>(Some(value)) is None ==> expected_findings(
            lone(name, value),
        ) =~= seq![("experimentalOperatorPosition"@, enum_message(Some(value)))]);
    }
}

/// The shared settings that give no fallback at all.
pub open spec fn no_fallback(global: GlobalConfiguration) -> bool {
    &&& global.line_width is None
    &&& global.use_tabs is None
    &&& global.indent_width is None
    &&& line_ending_of_kind(global.new_line_kind) is None
}

/// A map that holds nothing but a key that resolution does not read gives
/// exactly one finding, which marks that key as unknown; and where the
/// shared settings give no fallback, every option stays unset.
pub proof fn lemma_lone_unknown_key(
    name: String,
    value: RawConfigValue,
    global: GlobalConfiguration,
    config: Configuration,
)
    requires
        !recognized_keys().contains(name@),
        resolves_to(lone(name, value), global, config),
    ensures
        expected_findings(lone(name, value)) == seq![(name@, "Unknown property"@)],
        no_fallback(global) ==> all_unset(config),
{
    lemma_option_key_shapes();
    lemma_lone_entry(name, value, recognized_keys());
    assert(expected_findings(lone(name, value)) =~= seq![(name@, "Unknown property"@)]);
}

/// The empty map resolves to what the shared settings give: their indent
/// style, indent width, line width held within range and line ending, and
/// nothing else. It gives no finding.
pub proof fn lemma_empty_map(global: GlobalConfiguration, config: Configuration)
    requires
        resolves_to(Seq::empty(), global, config),
    ensures
        expected_findings(Seq::empty()) == Seq::<(Seq<char>, Seq<char>)>::empty(),
        config.indent_style == indent_style_of_tabs(global.use_tabs),
        config.indent_width == global.indent_width,
        config.line_width == line_width_within_range(global.line_width),
        config.line_ending == line_ending_of_kind(global.new_line_kind),
        no_fallback(global) ==> all_unset(config),
{
    assert(expected_findings(Seq::empty()) =~= Seq::empty());
}

/// A map that holds nothing but one of the two option blocks, with a value
/// that is no object, leaves the block unset and gives exactly one finding,
/// on the block's key: nothing inside the value is looked at.
pub proof fn lemma_lone_block_of_wrong_shape(
    name: String,
    value: RawConfigValue,
    global: GlobalConfiguration,
    config: Configuration,
)
    requires
        !(value is Object),
        resolves_to(lone(name, value), global, config),
    ensures
        name@ == "experimentalSortImports"@ ==> config.experimental_sort_imports is None
            && expected_findings(lone(name, value)) == seq![
            ("experimentalSortImports"@, "expected an object"@),
        ],
        name@ == "experimentalTailwindcss"@ ==> config.experimental_tailwindcss is None
            && expected_findings(lone(name, value)) == seq![
            ("experimentalTailwindcss"@, "expected an object"@),
        ],
{
    lemma_option_key_shapes();
    lemma_lone_entry(name, value, recognized_keys());
    if name@ == "experimentalSortImports"@ {
        assert(expected_findings(lone(name, value)) =~= seq![
            ("experimentalSortImports"@, "expected an object"@),
        ]);
    }
    if name@ == "experimentalTailwindcss"@ {
        assert(expected_findings(lone(name, value)) =~= seq![
            ("experimentalTailwindcss"@, "expected an object"@),
        ]);
    }
}

/// What is reported as unknown is never a key that resolution reads: every
/// recognized key is gone from the map before the last sweep.
pub proof fn lemma_unknown_findings_name_unread_keys(entries: Seq<(String, RawConfigValue)>)
    ensures
        forall|i: int|
            0 <= i < unknown_findings(without_keys(entries, recognized_keys())).len()
                ==> !recognized_keys().contains(
                (#[trigger] unknown_findings(without_keys(entries, recognized_keys()))[i]).0,
            ),
{
    lemma_removed_keys_are_gone(entries, recognized_keys());
}

/// The canonical key wins over its alias: where the value under
/// `indentWidth` is usable, it is the indent width, whatever `indentSize`
/// and the shared settings hold, and the value under `indentSize` adds
/// nothing to the findings.
pub proof fn lemma_canonical_key_wins(
    entries: Seq<(String, RawConfigValue)>,
    global: GlobalConfiguration,
    config: Configuration,
)
    requires
        resolves_to(entries, global, config),
        u8_of(lookup(entries, "indentWidth"@)) is Some,
    ensures
        config.indent_width == u8_of(lookup(entries, "indentWidth"@)),
        alias_faults(
            u8_of(lookup(entries, "indentWidth"@)) is Some,
            u8_faults("indentSize"@, lookup(entries, "indentSize"@)),
        ) == Seq::<(Seq<char>, Seq<char>)>::empty(),
{
}


/// Leniency of lists, one item at a time: a string at the end of the items
/// is the last string of the list, and an item of any other shape leaves
/// the list as it is without the item.
pub proof fn lemma_text_items_push(items: Seq<RawConfigValue>, item: RawConfigValue)
    ensures
        text_items(items.push(item)) == match item {
            RawConfigValue::String(s) => text_items(items).push(s),
            _ => text_items(items),
        },
{
    assert(items.push(item).drop_last() =~= items);
}

/// Leniency of lists: between two strings, an item that is no string is
/// left out, and the two strings keep their order.
pub proof fn lemma_text_items_skip(first: String, stray: RawConfigValue, second: String)
    requires
        !(stray is String),
    ensures
        text_items(
            seq![RawConfigValue::String(first), stray, RawConfigValue::String(second)],
        ) == seq![first, second],
{
    let none = Seq::<RawConfigValue>::empty();
    let one = none.push(RawConfigValue::String(first));
    let two = one.push(stray);
    let all = two.push(RawConfigValue::String(second));
    lemma_text_items_push(none, RawConfigValue::String(first));
    lemma_text_items_push(one, stray);
    lemma_text_items_push(two, RawConfigValue::String(second));
    assert(all =~= seq![RawConfigValue::String(first), stray, RawConfigValue::String(second)]);
    assert(text_items(none) =~= Seq::<String>::empty());
    assert(Seq::<String>::empty().push(first).push(second) =~= seq![first, second]);
}


/// The tables of literals: every literal names the variant listed here, and
/// a literal that begins like another one is not taken for it.
pub proof fn lemma_literal_tables()
    ensures
        LineEnding::from_literal("lf"@) == Some(LineEnding::Lf),
        LineEnding::from_literal("cr"@) == Some(LineEnding::Cr),
        LineEnding::from_literal("crlf"@) == Some(LineEnding::Crlf),
        IndentStyle::from_literal("tab"@) == Some(IndentStyle::Tab),
        IndentStyle::from_literal("space"@) == Some(IndentStyle::Space),
        Semicolons::from_literal("always"@) == Some(Semicolons::Always),
        Semicolons::from_literal("asNeeded"@) == Some(Semicolons::AsNeeded),
        QuoteStyle::from_literal("single"@) == Some(QuoteStyle::Single),
        QuoteStyle::from_literal("double"@) == Some(QuoteStyle::Double),
        QuoteProperties::from_literal("asNeeded"@) == Some(QuoteProperties::AsNeeded),
        QuoteProperties::from_literal("preserve"@) == Some(QuoteProperties::Preserve),
        QuoteProperties::from_literal("consistent"@) == Some(QuoteProperties::Consistent),
        ArrowParentheses::from_literal("always"@) == Some(ArrowParentheses::Always),
        ArrowParentheses::from_literal("asNeeded"@) == Some(ArrowParentheses::AsNeeded),
        TrailingCommas::from_literal("all"@) == Some(TrailingCommas::All),
        TrailingCommas::from_literal("es5"@) == Some(TrailingCommas::Es5),
        TrailingCommas::from_literal("none"@) == Some(TrailingCommas::Never),
        AttributePosition::from_literal("auto"@) == Some(AttributePosition::Auto),
        AttributePosition::from_literal("multiline"@) == Some(AttributePosition::Multiline),
        Expand::from_literal("auto"@) == Some(Expand::Auto),
        Expand::from_literal("never"@) == Some(Expand::Never),
        EmbeddedLanguageFormatting::from_literal("auto"@) == Some(EmbeddedLanguageFormatting::Auto),
        EmbeddedLanguageFormatting::from_literal("off"@) == Some(EmbeddedLanguageFormatting::Off),
        OperatorPosition::from_literal("start"@) == Some(OperatorPosition::Start),
        OperatorPosition::from_literal("end"@) == Some(OperatorPosition::End),
        SortOrder::from_literal("asc"@) == Some(SortOrder::Asc),
        SortOrder::from_literal("desc"@) == Some(SortOrder::Desc),
{
    reveal_strlit("lf");
    reveal_strlit("cr");
    reveal_strlit("crlf");
    reveal_strlit("tab");
    reveal_strlit("space");
    reveal_strlit("always");
    reveal_strlit("asNeeded");
    reveal_strlit("single");
    reveal_strlit("double");
    reveal_strlit("preserve");
    reveal_strlit("consistent");
    reveal_strlit("all");
    reveal_strlit("es5");
    reveal_strlit("none");
    reveal_strlit("auto");
    reveal_strlit("multiline");
    reveal_strlit("never");
    reveal_strlit("off");
    reveal_strlit("start");
    reveal_strlit("end");
    reveal_strlit("asc");
    reveal_strlit("desc");
    assert("lf"@.len() == 2);
    assert("lf"@[0] == 'l');
    assert("cr"@.len() == 2);
    assert("cr"@[0] == 'c');
    assert("crlf"@.len() == 4);
    assert("tab"@.len() == 3);
    assert("space"@.len() == 5);
    assert("always"@.len() == 6);
    assert("asNeeded"@.len() == 8);
    assert("asNeeded"@[0] == 'a');
    assert("single"@.len() == 6);
    assert("single"@[0] == 's');
    assert("double"@.len() == 6);
    assert("double"@[0] == 'd');
    assert("preserve"@.len() == 8);
    assert("preserve"@[0] == 'p');
    assert("consistent"@.len() == 10);
    assert("all"@.len() == 3);
    assert("all"@[0] == 'a');
    assert("es5"@.len() == 3);
    assert("es5"@[0] == 'e');
    assert("none"@.len() == 4);
    assert("auto"@.len() == 4);
    assert("multiline"@.len() == 9);
    assert("never"@.len() == 5);
    assert("off"@.len() == 3);
    assert("start"@.len() == 5);
    assert("end"@.len() == 3);
    assert("asc"@.len() == 3);
    assert("desc"@.len() == 4);
}


} // verus!

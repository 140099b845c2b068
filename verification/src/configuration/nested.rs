//! The two nested option blocks: import sorting and utility class sorting.
use vstd::prelude::*;
use crate::configuration::coercion::{
    bool_faults, bool_of, enum_faults, enum_of, group_views,
    report_unknown_properties, take_bool, take_enum, take_text, take_text_groups, take_text_list,
    text_faults, text_groups_of, text_list_of, text_of, unknown_findings,
};
use crate::configuration::configuration::{SortImportsOptions, SortOrder, TailwindcssOptions};
use crate::configuration::diagnostics::{
    append_prefixed, prefixed, report, views, ConfigurationDiagnostic,
};
use crate::configuration::keys::{lemma_sort_imports_key_shapes, lemma_tailwindcss_key_shapes};
use crate::configuration::values::{
    lemma_next_key, lemma_without_nothing, lookup, without_keys, RawConfigMap, RawConfigValue,
};

verus! {

/// The flag that a raw value stands for: unset unless it is the boolean `true`.
pub open spec fn flag_of(found: Option<RawConfigValue>) -> bool {
    match bool_of(found) {
        Some(flag) => flag,
        None => false,
    }
}

/// The keys that the import sorting options recognize.
pub open spec fn sort_imports_keys() -> Set<Seq<char>> {
    Set::empty()
        .insert("partitionByNewline"@)
        .insert("partitionByComment"@)
        .insert("sortSideEffects"@)
        .insert("order"@)
        .insert("ignoreCase"@)
        .insert("newlinesBetween"@)
        .insert("internalPattern"@)
        .insert("groups"@)
}

/// The findings on the entries of the block, in the order in which the
/// keys are read, with the unknown keys last.
pub open spec fn sort_imports_findings(entries: Seq<(String, RawConfigValue)>) -> Seq<
    (Seq<char>, Seq<char>),
> {
    Seq::empty()
        + bool_faults("partitionByNewline"@, lookup(entries, "partitionByNewline"@))
        + bool_faults("partitionByComment"@, lookup(entries, "partitionByComment"@))
        + bool_faults("sortSideEffects"@, lookup(entries, "sortSideEffects"@))
        + enum_faults::<SortOrder>("order"@, lookup(entries, "order"@))
        + bool_faults("ignoreCase"@, lookup(entries, "ignoreCase"@))
        + bool_faults("newlinesBetween"@, lookup(entries, "newlinesBetween"@))
        + unknown_findings(without_keys(entries, sort_imports_keys()))
}

/// Whether `options` is what the entries of the block resolve to.
pub open spec fn sort_imports_from(
    entries: Seq<(String, RawConfigValue)>,
    options: SortImportsOptions,
) -> bool {
    &&& options.partition_by_newline == flag_of(lookup(entries, "partitionByNewline"@))
    &&& options.partition_by_comment == flag_of(lookup(entries, "partitionByComment"@))
    &&& options.sort_side_effects == flag_of(lookup(entries, "sortSideEffects"@))
    &&& options.order == enum_of::<SortOrder>(lookup(entries, "order"@))
    &&& options.ignore_case == bool_of(lookup(entries, "ignoreCase"@))
    &&& options.newlines_between == bool_of(lookup(entries, "newlinesBetween"@))
    &&& options.internal_pattern@ == text_list_of(lookup(entries, "internalPattern"@))
    &&& group_views(options.groups@) == text_groups_of(lookup(entries, "groups"@))
}

/// Whether `value` is what the raw value found under the block's key resolves
/// to: the options where it is an object, nothing otherwise.
pub open spec fn sort_imports_taken(
    found: Option<RawConfigValue>,
    value: Option<SortImportsOptions>,
) -> bool {
    match found {
        Some(RawConfigValue::Object(block)) => value is Some && sort_imports_from(block@, value->0),
        _ => value is None,
    }
}

/// The findings on the block: those on its entries where it is an object,
/// one on its shape where it is anything else.
pub open spec fn sort_imports_faults(found: Option<RawConfigValue>) -> Seq<(Seq<char>, Seq<char>)> {
    match found {
        Some(RawConfigValue::Object(block)) => prefixed(
            sort_imports_findings(block@),
            "experimentalSortImports."@,
        ),
        Some(_) => seq![("experimentalSortImports"@, "expected an object"@)],
        None => Seq::empty(),
    }
}

/// Resolves the entries of the block: reads every recognized key and
/// reports what is left as unknown.
pub fn resolve_sort_imports(block: RawConfigMap) -> (resolved: (
    SortImportsOptions,
    Vec<ConfigurationDiagnostic>,
))
    ensures
        sort_imports_from(block@, resolved.0),
        views(resolved.1@) == sort_imports_findings(block@),
{
    let mut block = block;
    let mut diagnostics: Vec<ConfigurationDiagnostic> = Vec::new();
    let ghost entries = block@;
    let ghost mut removed: Set<Seq<char>> = Set::empty();
    proof {
        lemma_sort_imports_key_shapes();
        lemma_without_nothing(entries);
        assert(views(diagnostics@) =~= Seq::empty());
    }
    proof {
        lemma_next_key(entries, removed, "partitionByNewline"@);
        removed = removed.insert("partitionByNewline"@);
    }
    let partition_by_newline = match take_bool(&mut block, "partitionByNewline", &mut diagnostics) {
        Some(flag) => flag,
        None => false,
    };
    proof {
        lemma_next_key(entries, removed, "partitionByComment"@);
        removed = removed.insert("partitionByComment"@);
    }
    let partition_by_comment = match take_bool(&mut block, "partitionByComment", &mut diagnostics) {
        Some(flag) => flag,
        None => false,
    };
    proof {
        lemma_next_key(entries, removed, "sortSideEffects"@);
        removed = removed.insert("sortSideEffects"@);
    }
    let sort_side_effects = match take_bool(&mut block, "sortSideEffects", &mut diagnostics) {
        Some(flag) => flag,
        None => false,
    };
    proof {
        lemma_next_key(entries, removed, "order"@);
        removed = removed.insert("order"@);
    }
    let order = take_enum::<SortOrder>(&mut block, "order", &mut diagnostics);
    proof {
        lemma_next_key(entries, removed, "ignoreCase"@);
        removed = removed.insert("ignoreCase"@);
    }
    let ignore_case = take_bool(&mut block, "ignoreCase", &mut diagnostics);
    proof {
        lemma_next_key(entries, removed, "newlinesBetween"@);
        removed = removed.insert("newlinesBetween"@);
    }
    let newlines_between = take_bool(&mut block, "newlinesBetween", &mut diagnostics);
    proof {
        lemma_next_key(entries, removed, "internalPattern"@);
        removed = removed.insert("internalPattern"@);
    }
    let internal_pattern = take_text_list(&mut block, "internalPattern");
    proof {
        lemma_next_key(entries, removed, "groups"@);
        removed = removed.insert("groups"@);
    }
    let groups = take_text_groups(&mut block, "groups");
    report_unknown_properties(block, &mut diagnostics);
    (
        SortImportsOptions {
            partition_by_newline,
            partition_by_comment,
            sort_side_effects,
            order,
            ignore_case,
            newlines_between,
            internal_pattern,
            groups,
        },
        diagnostics,
    )
}

/// Takes the block under `experimentalSortImports`. A value that is no object is reported
/// and dropped whole; the findings on an object's entries are reported
/// under paths that begin with the block's key.
pub fn take_sort_imports(
    map: &mut RawConfigMap,
    diagnostics: &mut Vec<ConfigurationDiagnostic>,
) -> (value: Option<SortImportsOptions>)
    ensures
        final(map)@ == without_keys(old(map)@, set!["experimentalSortImports"@]),
        sort_imports_taken(lookup(old(map)@, "experimentalSortImports"@), value),
        views(final(diagnostics)@) == views(old(diagnostics)@) + sort_imports_faults(
            lookup(old(map)@, "experimentalSortImports"@),
        ),
{
    let ghost before = views(diagnostics@);
    match map.take("experimentalSortImports") {
        Some(RawConfigValue::Object(block)) => {
            let (options, nested) = resolve_sort_imports(block);
            append_prefixed(diagnostics, nested, "experimentalSortImports.");
            Some(options)
        },
        Some(_) => {
            report(diagnostics, "experimentalSortImports", "expected an object");
            let ghost fault = ("experimentalSortImports"@, "expected an object"@);
            assert(before + seq![fault] =~= before.push(fault));
            None
        },
        None => {
            assert(before + Seq::empty() =~= before);
            None
        },
    }
}

/// The keys that the utility class sorting options recognize.
pub open spec fn tailwindcss_keys() -> Set<Seq<char>> {
    Set::empty()
        .insert("config"@)
        .insert("stylesheet"@)
        .insert("functions"@)
        .insert("attributes"@)
        .insert("preserveWhitespace"@)
        .insert("preserveDuplicates"@)
}

/// The findings on the entries of the block, in the order in which the
/// keys are read, with the unknown keys last.
pub open spec fn tailwindcss_findings(entries: Seq<(String, RawConfigValue)>) -> Seq<
    (Seq<char>, Seq<char>),
> {
    Seq::empty()
        + text_faults("config"@, lookup(entries, "config"@))
        + text_faults("stylesheet"@, lookup(entries, "stylesheet"@))
        + bool_faults("preserveWhitespace"@, lookup(entries, "preserveWhitespace"@))
        + bool_faults("preserveDuplicates"@, lookup(entries, "preserveDuplicates"@))
        + unknown_findings(without_keys(entries, tailwindcss_keys()))
}

/// Whether `options` is what the entries of the block resolve to.
pub open spec fn tailwindcss_from(
    entries: Seq<(String, RawConfigValue)>,
    options: TailwindcssOptions,
) -> bool {
    &&& options.config == text_of(lookup(entries, "config"@))
    &&& options.stylesheet == text_of(lookup(entries, "stylesheet"@))
    &&& options.functions@ == text_list_of(lookup(entries, "functions"@))
    &&& options.attributes@ == text_list_of(lookup(entries, "attributes"@))
    &&& options.preserve_whitespace == flag_of(lookup(entries, "preserveWhitespace"@))
    &&& options.preserve_duplicates == flag_of(lookup(entries, "preserveDuplicates"@))
}

/// Whether `value` is what the raw value found under the block's key resolves
/// to: the options where it is an object, nothing otherwise.
pub open spec fn tailwindcss_taken(
    found: Option<RawConfigValue>,
    value: Option<TailwindcssOptions>,
) -> bool {
    match found {
        Some(RawConfigValue::Object(block)) => value is Some && tailwindcss_from(block@, value->0),
        _ => value is None,
    }
}

/// The findings on the block: those on its entries where it is an object,
/// one on its shape where it is anything else.
pub open spec fn tailwindcss_faults(found: Option<RawConfigValue>) -> Seq<(Seq<char>, Seq<char>)> {
    match found {
        Some(RawConfigValue::Object(block)) => prefixed(
            tailwindcss_findings(block@),
            "experimentalTailwindcss."@,
        ),
        Some(_) => seq![("experimentalTailwindcss"@, "expected an object"@)],
        None => Seq::empty(),
    }
}

/// Resolves the entries of the block: reads every recognized key and
/// reports what is left as unknown.
pub fn resolve_tailwindcss(block: RawConfigMap) -> (resolved: (
    TailwindcssOptions,
    Vec<ConfigurationDiagnostic>,
))
    ensures
        tailwindcss_from(block@, resolved.0),
        views(resolved.1@) == tailwindcss_findings(block@),
{
    let mut block = block;
    let mut diagnostics: Vec<ConfigurationDiagnostic> = Vec::new();
    let ghost entries = block@;
    let ghost mut removed: Set<Seq<char>> = Set::empty();
    proof {
        lemma_tailwindcss_key_shapes();
        lemma_without_nothing(entries);
        assert(views(diagnostics@) =~= Seq::empty());
    }
    proof {
        lemma_next_key(entries, removed, "config"@);
        removed = removed.insert("config"@);
    }
    let config = take_text(&mut block, "config", &mut diagnostics);
    proof {
        lemma_next_key(entries, removed, "stylesheet"@);
        removed = removed.insert("stylesheet"@);
    }
    let stylesheet = take_text(&mut block, "stylesheet", &mut diagnostics);
    proof {
        lemma_next_key(entries, removed, "functions"@);
        removed = removed.insert("functions"@);
    }
    let functions = take_text_list(&mut block, "functions");
    proof {
        lemma_next_key(entries, removed, "attributes"@);
        removed = removed.insert("attributes"@);
    }
    let attributes = take_text_list(&mut block, "attributes");
    proof {
        lemma_next_key(entries, removed, "preserveWhitespace"@);
        removed = removed.insert("preserveWhitespace"@);
    }
    let preserve_whitespace = match take_bool(&mut block, "preserveWhitespace", &mut diagnostics) {
        Some(flag) => flag,
        None => false,
    };
    proof {
        lemma_next_key(entries, removed, "preserveDuplicates"@);
        removed = removed.insert("preserveDuplicates"@);
    }
    let preserve_duplicates = match take_bool(&mut block, "preserveDuplicates", &mut diagnostics) {
        Some(flag) => flag,
        None => false,
    };
    report_unknown_properties(block, &mut diagnostics);
    (
        TailwindcssOptions {
            config,
            stylesheet,
            functions,
            attributes,
            preserve_whitespace,
            preserve_duplicates,
        },
        diagnostics,
    )
}

/// Takes the block under `experimentalTailwindcss`. A value that is no object is reported
/// and dropped whole; the findings on an object's entries are reported
/// under paths that begin with the block's key.
pub fn take_tailwindcss(
    map: &mut RawConfigMap,
    diagnostics: &mut Vec<ConfigurationDiagnostic>,
) -> (value: Option<TailwindcssOptions>)
    ensures
        final(map)@ == without_keys(old(map)@, set!["experimentalTailwindcss"@]),
        tailwindcss_taken(lookup(old(map)@, "experimentalTailwindcss"@), value),
        views(final(diagnostics)@) == views(old(diagnostics)@) + tailwindcss_faults(
            lookup(old(map)@, "experimentalTailwindcss"@),
        ),
{
    let ghost before = views(diagnostics@);
    match map.take("experimentalTailwindcss") {
        Some(RawConfigValue::Object(block)) => {
            let (options, nested) = resolve_tailwindcss(block);
            append_prefixed(diagnostics, nested, "experimentalTailwindcss.");
            Some(options)
        },
        Some(_) => {
            report(diagnostics, "experimentalTailwindcss", "expected an object");
            let ghost fault = ("experimentalTailwindcss"@, "expected an object"@);
            assert(before + seq![fault] =~= before.push(fault));
            None
        },
        None => {
            assert(before + Seq::empty() =~= before);
            None
        },
    }
}

} // verus!

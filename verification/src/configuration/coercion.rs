//! Scalar coercion: taking one typed value out of a raw map.
//!
//! Every `take_*` function removes its key from the map whether or not the
//! value is usable. A missing key is no fault. A scalar of the wrong shape
//! is reported once and then counts as unset. Lists are lenient: a value
//! that is no array counts as the empty list, items of the wrong shape are
//! left out, and neither is reported.
use vstd::prelude::*;
use vstd::string::StringExecFns;
use crate::configuration::configuration::ConfigEnum;
use crate::configuration::diagnostics::{report, views, ConfigurationDiagnostic};
use crate::configuration::values::{lookup, without_keys, RawConfigMap, RawConfigValue};

verus! {

/// One finding on `key` with `message` where `rejected` holds, none otherwise.
pub open spec fn fault(key: Seq<char>, rejected: bool, message: Seq<char>) -> Seq<
    (Seq<char>, Seq<char>),
> {
    if rejected {
        seq![(key, message)]
    } else {
        Seq::empty()
    }
}

/// The boolean that a raw value stands for.
pub open spec fn bool_of(found: Option<RawConfigValue>) -> Option<bool> {
    match found {
        Some(RawConfigValue::Bool(b)) => Some(b),
        _ => None,
    }
}

/// The findings for a boolean property.
pub open spec fn bool_faults(key: Seq<char>, found: Option<RawConfigValue>) -> Seq<
    (Seq<char>, Seq<char>),
> {
    fault(key, found is Some && bool_of(found) is None, "expected a boolean"@)
}

/// The integer from 0 to 255 that a raw value stands for.
pub open spec fn u8_of(found: Option<RawConfigValue>) -> Option<u8> {
    match found {
        Some(RawConfigValue::Number(n)) => if 0 <= n <= u8::MAX {
            Some(n as u8)
        } else {
            None
        },
        _ => None,
    }
}

/// The findings for a property that holds an integer from 0 to 255.
pub open spec fn u8_faults(key: Seq<char>, found: Option<RawConfigValue>) -> Seq<
    (Seq<char>, Seq<char>),
> {
    fault(key, found is Some && u8_of(found) is None, "expected an integer from 0 to 255"@)
}

/// The integer from 0 to 65535 that a raw value stands for.
pub open spec fn u16_of(found: Option<RawConfigValue>) -> Option<u16> {
    match found {
        Some(RawConfigValue::Number(n)) => if 0 <= n <= u16::MAX {
            Some(n as u16)
        } else {
            None
        },
        _ => None,
    }
}

/// The findings for a property that holds an integer from 0 to 65535.
pub open spec fn u16_faults(key: Seq<char>, found: Option<RawConfigValue>) -> Seq<
    (Seq<char>, Seq<char>),
> {
    fault(key, found is Some && u16_of(found) is None, "expected an integer from 0 to 65535"@)
}

/// The string that a raw value holds.
pub open spec fn text_of(found: Option<RawConfigValue>) -> Option<String> {
    match found {
        Some(RawConfigValue::String(s)) => Some(s),
        _ => None,
    }
}

/// The findings for a string property.
pub open spec fn text_faults(key: Seq<char>, found: Option<RawConfigValue>) -> Seq<
    (Seq<char>, Seq<char>),
> {
    fault(key, found is Some && text_of(found) is None, "expected a string"@)
}

/// The variant that a raw value names.
pub open spec fn enum_of<T: ConfigEnum>(found: Option<RawConfigValue>) -> Option<T> {
    match found {
        Some(RawConfigValue::String(s)) => T::from_literal(s@),
        _ => None,
    }
}

/// The message for a string that is none of the literals of its option.
pub open spec fn invalid_literal_message(text: Seq<char>) -> Seq<char> {
    "Found invalid value '"@ + text + "'."@
}

/// The message for a value that names no variant: it quotes a string that
/// is no literal, and asks for a string where the value is none.
pub open spec fn enum_message(found: Option<RawConfigValue>) -> Seq<char> {
    match found {
        Some(RawConfigValue::String(s)) => invalid_literal_message(s@),
        _ => "expected a string"@,
    }
}

/// The findings for a property that holds one of the literals of `T`.
pub open spec fn enum_faults<T: ConfigEnum>(
    key: Seq<char>,
    found: Option<RawConfigValue>,
) -> Seq<(Seq<char>, Seq<char>)> {
    fault(key, found is Some && enum_of::<T>(found) is None, enum_message(found))
}

/// The strings among `items`, in order. Items of another shape are left out.
pub open spec fn text_items(items: Seq<RawConfigValue>) -> Seq<String>
    decreases items.len(),
{
    if items.len() == 0 {
        Seq::empty()
    } else {
        match items.last() {
            RawConfigValue::String(s) => text_items(items.drop_last()).push(s),
            _ => text_items(items.drop_last()),
        }
    }
}

/// The list of strings that a raw value stands for: empty unless it is an array.
pub open spec fn text_list_of(found: Option<RawConfigValue>) -> Seq<String> {
    match found {
        Some(RawConfigValue::Array(items)) => text_items(items@),
        _ => Seq::empty(),
    }
}

/// The arrays among `items`, each reduced to its strings, in order.
pub open spec fn text_groups(items: Seq<RawConfigValue>) -> Seq<Seq<String>>
    decreases items.len(),
{
    if items.len() == 0 {
        Seq::empty()
    } else {
        match items.last() {
            RawConfigValue::Array(inner) => text_groups(items.drop_last()).push(
                text_items(inner@),
            ),
            _ => text_groups(items.drop_last()),
        }
    }
}

/// The list of lists of strings that a raw value stands for.
pub open spec fn text_groups_of(found: Option<RawConfigValue>) -> Seq<Seq<String>> {
    match found {
        Some(RawConfigValue::Array(items)) => text_groups(items@),
        _ => Seq::empty(),
    }
}

/// The contents of a list of lists, as sequences.
pub open spec fn group_views(groups: Seq<Vec<String>>) -> Seq<Seq<String>> {
    groups.map_values(|g: Vec<String>| g@)
}

/// Takes a boolean.
pub fn take_bool(
    map: &mut RawConfigMap,
    key: &str,
    diagnostics: &mut Vec<ConfigurationDiagnostic>,
) -> (value: Option<bool>)
    ensures
        final(map)@ == without_keys(old(map)@, set![key@]),
        value == bool_of(lookup(old(map)@, key@)),
        views(final(diagnostics)@) == views(old(diagnostics)@) + bool_faults(
            key@,
            lookup(old(map)@, key@),
        ),
{
    let ghost before = views(diagnostics@);
    match map.take(key) {
        Some(RawConfigValue::Bool(b)) => {
            assert(before + Seq::empty() =~= before);
            Some(b)
        },
        Some(_) => {
            report(diagnostics, key, "expected a boolean");
            assert(before + seq![(key@, "expected a boolean"@)] =~= before.push(
                (key@, "expected a boolean"@),
            ));
            None
        },
        None => {
            assert(before + Seq::empty() =~= before);
            None
        },
    }
}

/// Takes an integer from 0 to 255.
pub fn take_u8(
    map: &mut RawConfigMap,
    key: &str,
    diagnostics: &mut Vec<ConfigurationDiagnostic>,
) -> (value: Option<u8>)
    ensures
        final(map)@ == without_keys(old(map)@, set![key@]),
        value == u8_of(lookup(old(map)@, key@)),
        views(final(diagnostics)@) == views(old(diagnostics)@) + u8_faults(
            key@,
            lookup(old(map)@, key@),
        ),
{
    let ghost before = views(diagnostics@);
    let found = map.take(key);
    let value: Option<u8> = match found {
        Some(RawConfigValue::Number(n)) => if 0 <= n && n <= 255 {
            Some(n as u8)
        } else {
            None
        },
        _ => None,
    };
    if found.is_some() && value.is_none() {
        report(diagnostics, key, "expected an integer from 0 to 255");
        assert(before + seq![(key@, "expected an integer from 0 to 255"@)] =~= before.push(
            (key@, "expected an integer from 0 to 255"@),
        ));
    } else {
        assert(before + Seq::empty() =~= before);
    }
    value
}

/// Takes an integer from 0 to 65535.
pub fn take_u16(
    map: &mut RawConfigMap,
    key: &str,
    diagnostics: &mut Vec<ConfigurationDiagnostic>,
) -> (value: Option<u16>)
    ensures
        final(map)@ == without_keys(old(map)@, set![key@]),
        value == u16_of(lookup(old(map)@, key@)),
        views(final(diagnostics)@) == views(old(diagnostics)@) + u16_faults(
            key@,
            lookup(old(map)@, key@),
        ),
{
    let ghost before = views(diagnostics@);
    let found = map.take(key);
    let value: Option<u16> = match found {
        Some(RawConfigValue::Number(n)) => if 0 <= n && n <= 65535 {
            Some(n as u16)
        } else {
            None
        },
        _ => None,
    };
    if found.is_some() && value.is_none() {
        report(diagnostics, key, "expected an integer from 0 to 65535");
        assert(before + seq![(key@, "expected an integer from 0 to 65535"@)] =~= before.push(
            (key@, "expected an integer from 0 to 65535"@),
        ));
    } else {
        assert(before + Seq::empty() =~= before);
    }
    value
}

/// Takes a string.
pub fn take_text(
    map: &mut RawConfigMap,
    key: &str,
    diagnostics: &mut Vec<ConfigurationDiagnostic>,
) -> (value: Option<String>)
    ensures
        final(map)@ == without_keys(old(map)@, set![key@]),
        value == text_of(lookup(old(map)@, key@)),
        views(final(diagnostics)@) == views(old(diagnostics)@) + text_faults(
            key@,
            lookup(old(map)@, key@),
        ),
{
    let ghost before = views(diagnostics@);
    match map.take(key) {
        Some(RawConfigValue::String(s)) => {
            assert(before + Seq::empty() =~= before);
            Some(s)
        },
        Some(_) => {
            report(diagnostics, key, "expected a string");
            assert(before + seq![(key@, "expected a string"@)] =~= before.push(
                (key@, "expected a string"@),
            ));
            None
        },
        None => {
            assert(before + Seq::empty() =~= before);
            None
        },
    }
}

/// Takes one of the literals of `T`.
pub fn take_enum<T: ConfigEnum>(
    map: &mut RawConfigMap,
    key: &str,
    diagnostics: &mut Vec<ConfigurationDiagnostic>,
) -> (value: Option<T>)
    ensures
        final(map)@ == without_keys(old(map)@, set![key@]),
        value == enum_of::<T>(lookup(old(map)@, key@)),
        views(final(diagnostics)@) == views(old(diagnostics)@) + enum_faults::<T>(
            key@,
            lookup(old(map)@, key@),
        ),
{
    let ghost before = views(diagnostics@);
    match map.take(key) {
        Some(RawConfigValue::String(text)) => {
            let value = T::parse(text.as_str());
            if value.is_none() {
                let message = String::from_str("Found invalid value '").concat(
                    text.as_str(),
                ).concat("'.");
                report(diagnostics, key, message.as_str());
                assert(before + seq![(key@, message@)] =~= before.push((key@, message@)));
            } else {
                assert(before + Seq::empty() =~= before);
            }
            value
        },
        Some(_) => {
            report(diagnostics, key, "expected a string");
            assert(before + seq![(key@, "expected a string"@)] =~= before.push(
                (key@, "expected a string"@),
            ));
            None
        },
        None => {
            assert(before + Seq::empty() =~= before);
            None
        },
    }
}

/// Copies the strings out of `items`, leaving out items of another shape.
pub fn collect_text_items(items: &Vec<RawConfigValue>) -> (texts: Vec<String>)
    ensures
        texts@ == text_items(items@),
{
    let mut texts: Vec<String> = Vec::new();
    let mut i: usize = 0;
    while i < items.len()
        invariant
            i <= items.len(),
            texts@ == text_items(items@.take(i as int)),
        decreases items.len() - i,
    {
        proof {
            assert(items@.take(i + 1).drop_last() =~= items@.take(i as int));
        }
        match &items[i] {
            RawConfigValue::String(s) => {
                texts.push(s.clone());
            },
            _ => {},
        }
        i += 1;
    }
    proof {
        assert(items@.take(items.len() as int) =~= items@);
    }
    texts
}

/// Copies the arrays out of `items`, each reduced to its strings.
pub fn collect_text_groups(items: &Vec<RawConfigValue>) -> (groups: Vec<Vec<String>>)
    ensures
        group_views(groups@) == text_groups(items@),
{
    let mut groups: Vec<Vec<String>> = Vec::new();
    let mut i: usize = 0;
    proof {
        assert(group_views(groups@) =~= Seq::empty());
    }
    while i < items.len()
        invariant
            i <= items.len(),
            group_views(groups@) == text_groups(items@.take(i as int)),
        decreases items.len() - i,
    {
        proof {
            assert(items@.take(i + 1).drop_last() =~= items@.take(i as int));
        }
        match &items[i] {
            RawConfigValue::Array(inner) => {
                let group = collect_text_items(inner);
                let ghost before = groups@;
                groups.push(group);
                proof {
                    assert(group_views(groups@) =~= group_views(before).push(group@));
                }
            },
            _ => {},
        }
        i += 1;
    }
    proof {
        assert(items@.take(items.len() as int) =~= items@);
    }
    groups
}

/// Takes a list of strings. A missing key gives the empty list, and so
/// does a value that is no array; neither is reported.
pub fn take_text_list(map: &mut RawConfigMap, key: &str) -> (value: Vec<String>)
    ensures
        final(map)@ == without_keys(old(map)@, set![key@]),
        value@ == text_list_of(lookup(old(map)@, key@)),
{
    match map.take(key) {
        Some(RawConfigValue::Array(items)) => collect_text_items(&items),
        _ => Vec::new(),
    }
}

/// Takes a list of lists of strings, with the leniency of [`take_text_list`].
pub fn take_text_groups(map: &mut RawConfigMap, key: &str) -> (value: Vec<Vec<String>>)
    ensures
        final(map)@ == without_keys(old(map)@, set![key@]),
        group_views(value@) == text_groups_of(lookup(old(map)@, key@)),
{
    match map.take(key) {
        Some(RawConfigValue::Array(items)) => collect_text_groups(&items),
        _ => {
            let empty: Vec<Vec<String>> = Vec::new();
            assert(group_views(empty@) =~= Seq::empty());
            empty
        },
    }
}

/// The finding for each entry: its key, marked as unknown.
pub open spec fn unknown_findings(entries: Seq<(String, RawConfigValue)>) -> Seq<
    (Seq<char>, Seq<char>),
> {
    entries.map_values(|e: (String, RawConfigValue)| (e.0@, "Unknown property"@))
}

/// Reports every entry left in `map` as an unknown property, in the order
/// of the entries.
pub fn report_unknown_properties(map: RawConfigMap, diagnostics: &mut Vec<ConfigurationDiagnostic>)
    ensures
        views(final(diagnostics)@) == views(old(diagnostics)@) + unknown_findings(map@),
{
    let mut i: usize = 0;
    let n = map.len();
    proof {
        assert(views(diagnostics@) + unknown_findings(map@.take(0)) =~= views(diagnostics@));
    }
    while i < n
        invariant
            i <= n,
            n == map@.len(),
            views(diagnostics@) == views(old(diagnostics)@) + unknown_findings(map@.take(i as int)),
        decreases n - i,
    {
        let ghost before = views(diagnostics@);
        match map.key_at(i) {
            Some(key) => report(diagnostics, key.as_str(), "Unknown property"),
            None => {},
        }
        proof {
            assert(views(old(diagnostics)@) + unknown_findings(map@.take(i + 1)) =~= before.push(
                (map@[i as int].0@, "Unknown property"@),
            ));
        }
        i += 1;
    }
    proof {
        assert(map@.take(n as int) =~= map@);
    }
}

} // verus!

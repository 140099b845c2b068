//! Non-fatal findings about configuration properties.
use vstd::prelude::*;
use vstd::string::StringExecFns;

verus! {

/// A reportable problem with one configuration property.
#[derive(Clone, Debug, PartialEq, Eq)]
pub struct ConfigurationDiagnostic {
    /// Path of the property; nested properties are written `outer.inner`.
    pub property_name: String,
    /// What is wrong with it.
    pub message: String,
}

impl View for ConfigurationDiagnostic {
    type V = (Seq<char>, Seq<char>);

    open spec fn view(&self) -> (Seq<char>, Seq<char>) {
        (self.property_name@, self.message@)
    }
}

/// A diagnostics list as pairs of property path and message.
pub open spec fn views(list: Seq<ConfigurationDiagnostic>) -> Seq<(Seq<char>, Seq<char>)> {
    list.map_values(|d: ConfigurationDiagnostic| d@)
}

/// The same findings with `prefix` put in front of every property path.
pub open spec fn prefixed(list: Seq<(Seq<char>, Seq<char>)>, prefix: Seq<char>) -> Seq<
    (Seq<char>, Seq<char>),
> {
    list.map_values(|d: (Seq<char>, Seq<char>)| (prefix + d.0, d.1))
}

/// Message attached to a property that no resolver recognizes.
pub open spec fn unknown_property_message() -> Seq<char> {
    "Unknown property"@
}

/// Appends one finding.
pub fn report(diagnostics: &mut Vec<ConfigurationDiagnostic>, property_name: &str, message: &str)
    ensures
        views(final(diagnostics)@) == views(old(diagnostics)@).push((property_name@, message@)),
{
    let entry = ConfigurationDiagnostic {
        property_name: String::from_str(property_name),
        message: String::from_str(message),
    };
    diagnostics.push(entry);
    assert(views(diagnostics@) =~= views(old(diagnostics)@).push((property_name@, message@)));
}

/// Moves the findings of a nested resolver to the end of the main list,
/// each path prefixed with `prefix`.
pub fn append_prefixed(
    diagnostics: &mut Vec<ConfigurationDiagnostic>,
    nested: Vec<ConfigurationDiagnostic>,
    prefix: &str,
)
    ensures
        views(final(diagnostics)@) == views(old(diagnostics)@) + prefixed(views(nested@), prefix@),
{
    let mut i: usize = 0;
    while i < nested.len()
        invariant
            i <= nested.len(),
            views(diagnostics@) == views(old(diagnostics)@) + prefixed(
                views(nested@.take(i as int)),
                prefix@,
            ),
        decreases nested.len() - i,
    {
        let path = String::from_str(prefix).concat(nested[i].property_name.as_str());
        let entry = ConfigurationDiagnostic {
            property_name: path,
            message: nested[i].message.clone(),
        };
        let ghost before = diagnostics@;
        diagnostics.push(entry);
        proof {
            assert(nested@.take(i + 1) =~= nested@.take(i as int).push(nested@[i as int]));
            assert(views(diagnostics@) =~= views(before).push(entry@));
            assert(prefixed(views(nested@.take(i + 1)), prefix@) =~= prefixed(
                views(nested@.take(i as int)),
                prefix@,
            ).push(entry@));
            assert(views(diagnostics@) =~= views(old(diagnostics)@) + prefixed(
                views(nested@.take(i + 1)),
                prefix@,
            ));
        }
        i += 1;
    }
    proof {
        assert(nested@.take(nested.len() as int) =~= nested@);
    }
}

} // verus!

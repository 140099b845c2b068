//! The resolved configuration and the option types it is made of.
use vstd::prelude::*;
use crate::configuration::values::same_text;

verus! {

/// An option whose values are written as fixed string literals. The table
/// of literals is matched exactly: case matters and no prefix is accepted.
pub trait ConfigEnum: Sized {
    /// The variant that `text` names, if any.
    spec fn from_literal(text: Seq<char>) -> Option<Self>;

    /// Looks `text` up in the table of literals.
    fn parse(text: &str) -> (variant: Option<Self>)
        ensures
            variant == Self::from_literal(text@),
    ;
}

/// The character sequence that ends a line.
#[derive(Clone, Copy, Debug, PartialEq, Eq, Structural)]
pub enum LineEnding {
    Lf,
    Cr,
    Crlf,
}

impl ConfigEnum for LineEnding {
    open spec fn from_literal(text: Seq<char>) -> Option<Self> {
        if text == "lf"@ {
            Some(LineEnding::Lf)
        } else if text == "cr"@ {
            Some(LineEnding::Cr)
        } else if text == "crlf"@ {
            Some(LineEnding::Crlf)
        } else {
            None
        }
    }

    fn parse(text: &str) -> (variant: Option<Self>) {
        if same_text(text, "lf") {
            Some(LineEnding::Lf)
        } else if same_text(text, "cr") {
            Some(LineEnding::Cr)
        } else if same_text(text, "crlf") {
            Some(LineEnding::Crlf)
        } else {
            None
        }
    }
}

/// Whether indentation uses tabs or spaces.
#[derive(Clone, Copy, Debug, PartialEq, Eq, Structural)]
pub enum IndentStyle {
    Tab,
    Space,
}

impl ConfigEnum for IndentStyle {
    open spec fn from_literal(text: Seq<char>) -> Option<Self> {
        if text == "tab"@ {
            Some(IndentStyle::Tab)
        } else if text == "space"@ {
            Some(IndentStyle::Space)
        } else {
            None
        }
    }

    fn parse(text: &str) -> (variant: Option<Self>) {
        if same_text(text, "tab") {
            Some(IndentStyle::Tab)
        } else if same_text(text, "space") {
            Some(IndentStyle::Space)
        } else {
            None
        }
    }
}

/// When statements end with a semicolon.
#[derive(Clone, Copy, Debug, PartialEq, Eq, Structural)]
pub enum Semicolons {
    Always,
    AsNeeded,
}

impl ConfigEnum for Semicolons {
    open spec fn from_literal(text: Seq<char>) -> Option<Self> {
        if text == "always"@ {
            Some(Semicolons::Always)
        } else if text == "asNeeded"@ {
            Some(Semicolons::AsNeeded)
        } else {
            None
        }
    }

    fn parse(text: &str) -> (variant: Option<Self>) {
        if same_text(text, "always") {
            Some(Semicolons::Always)
        } else if same_text(text, "asNeeded") {
            Some(Semicolons::AsNeeded)
        } else {
            None
        }
    }
}

/// The quote character used for string literals.
#[derive(Clone, Copy, Debug, PartialEq, Eq, Structural)]
pub enum QuoteStyle {
    Single,
    Double,
}

impl ConfigEnum for QuoteStyle {
    open spec fn from_literal(text: Seq<char>) -> Option<Self> {
        if text == "single"@ {
            Some(QuoteStyle::Single)
        } else if text == "double"@ {
            Some(QuoteStyle::Double)
        } else {
            None
        }
    }

    fn parse(text: &str) -> (variant: Option<Self>) {
        if same_text(text, "single") {
            Some(QuoteStyle::Single)
        } else if same_text(text, "double") {
            Some(QuoteStyle::Double)
        } else {
            None
        }
    }
}

/// When object property names are quoted.
#[derive(Clone, Copy, Debug, PartialEq, Eq, Structural)]
pub enum QuoteProperties {
    AsNeeded,
    Preserve,
    Consistent,
}

impl ConfigEnum for QuoteProperties {
    open spec fn from_literal(text: Seq<char>) -> Option<Self> {
        if text == "asNeeded"@ {
            Some(QuoteProperties::AsNeeded)
        } else if text == "preserve"@ {
            Some(QuoteProperties::Preserve)
        } else if text == "consistent"@ {
            Some(QuoteProperties::Consistent)
        } else {
            None
        }
    }

    fn parse(text: &str) -> (variant: Option<Self>) {
        if same_text(text, "asNeeded") {
            Some(QuoteProperties::AsNeeded)
        } else if same_text(text, "preserve") {
            Some(QuoteProperties::Preserve)
        } else if same_text(text, "consistent") {
            Some(QuoteProperties::Consistent)
        } else {
            None
        }
    }
}

/// When a lone arrow function parameter is parenthesized.
#[derive(Clone, Copy, Debug, PartialEq, Eq, Structural)]
pub enum ArrowParentheses {
    Always,
    AsNeeded,
}

impl ConfigEnum for ArrowParentheses {
    open spec fn from_literal(text: Seq<char>) -> Option<Self> {
        if text == "always"@ {
            Some(ArrowParentheses::Always)
        } else if text == "asNeeded"@ {
            Some(ArrowParentheses::AsNeeded)
        } else {
            None
        }
    }

    fn parse(text: &str) -> (variant: Option<Self>) {
        if same_text(text, "always") {
            Some(ArrowParentheses::Always)
        } else if same_text(text, "asNeeded") {
            Some(ArrowParentheses::AsNeeded)
        } else {
            None
        }
    }
}

/// Where trailing commas are printed.
#[derive(Clone, Copy, Debug, PartialEq, Eq, Structural)]
pub enum TrailingCommas {
    All,
    Es5,
    Never,
}

impl ConfigEnum for TrailingCommas {
    open spec fn from_literal(text: Seq<char>) -> Option<Self> {
        if text == "all"@ {
            Some(TrailingCommas::All)
        } else if text == "es5"@ {
            Some(TrailingCommas::Es5)
        } else if text == "none"@ {
            Some(TrailingCommas::Never)
        } else {
            None
        }
    }

    fn parse(text: &str) -> (variant: Option<Self>) {
        if same_text(text, "all") {
            Some(TrailingCommas::All)
        } else if same_text(text, "es5") {
            Some(TrailingCommas::Es5)
        } else if same_text(text, "none") {
            Some(TrailingCommas::Never)
        } else {
            None
        }
    }
}

/// How markup attributes are laid out.
#[derive(Clone, Copy, Debug, PartialEq, Eq, Structural)]
pub enum AttributePosition {
    Auto,
    Multiline,
}

impl ConfigEnum for AttributePosition {
    open spec fn from_literal(text: Seq<char>) -> Option<Self> {
        if text == "auto"@ {
            Some(AttributePosition::Auto)
        } else if text == "multiline"@ {
            Some(AttributePosition::Multiline)
        } else {
            None
        }
    }

    fn parse(text: &str) -> (variant: Option<Self>) {
        if same_text(text, "auto") {
            Some(AttributePosition::Auto)
        } else if same_text(text, "multiline") {
            Some(AttributePosition::Multiline)
        } else {
            None
        }
    }
}

/// Whether object and array literals are expanded over several lines. `Always` has no literal
/// of its own: the formatting engine may select it, a configuration file cannot.
#[derive(Clone, Copy, Debug, PartialEq, Eq, Structural)]
pub enum Expand {
    Auto,
    Always,
    Never,
}

impl ConfigEnum for Expand {
    open spec fn from_literal(text: Seq<char>) -> Option<Self> {
        if text == "auto"@ {
            Some(Expand::Auto)
        } else if text == "never"@ {
            Some(Expand::Never)
        } else {
            None
        }
    }

    fn parse(text: &str) -> (variant: Option<Self>) {
        if same_text(text, "auto") {
            Some(Expand::Auto)
        } else if same_text(text, "never") {
            Some(Expand::Never)
        } else {
            None
        }
    }
}

/// Whether code embedded in template literals is formatted.
#[derive(Clone, Copy, Debug, PartialEq, Eq, Structural)]
pub enum EmbeddedLanguageFormatting {
    Auto,
    Off,
}

impl ConfigEnum for EmbeddedLanguageFormatting {
    open spec fn from_literal(text: Seq<char>) -> Option<Self> {
        if text == "auto"@ {
            Some(EmbeddedLanguageFormatting::Auto)
        } else if text == "off"@ {
            Some(EmbeddedLanguageFormatting::Off)
        } else {
            None
        }
    }

    fn parse(text: &str) -> (variant: Option<Self>) {
        if same_text(text, "auto") {
            Some(EmbeddedLanguageFormatting::Auto)
        } else if same_text(text, "off") {
            Some(EmbeddedLanguageFormatting::Off)
        } else {
            None
        }
    }
}

/// Where a binary operator goes when its expression breaks.
#[derive(Clone, Copy, Debug, PartialEq, Eq, Structural)]
pub enum OperatorPosition {
    Start,
    End,
}

impl ConfigEnum for OperatorPosition {
    open spec fn from_literal(text: Seq<char>) -> Option<Self> {
        if text == "start"@ {
            Some(OperatorPosition::Start)
        } else if text == "end"@ {
            Some(OperatorPosition::End)
        } else {
            None
        }
    }

    fn parse(text: &str) -> (variant: Option<Self>) {
        if same_text(text, "start") {
            Some(OperatorPosition::Start)
        } else if same_text(text, "end") {
            Some(OperatorPosition::End)
        } else {
            None
        }
    }
}

/// Direction in which imports are sorted.
#[derive(Clone, Copy, Debug, PartialEq, Eq, Structural)]
pub enum SortOrder {
    Asc,
    Desc,
}

impl ConfigEnum for SortOrder {
    open spec fn from_literal(text: Seq<char>) -> Option<Self> {
        if text == "asc"@ {
            Some(SortOrder::Asc)
        } else if text == "desc"@ {
            Some(SortOrder::Desc)
        } else {
            None
        }
    }

    fn parse(text: &str) -> (variant: Option<Self>) {
        if same_text(text, "asc") {
            Some(SortOrder::Asc)
        } else if same_text(text, "desc") {
            Some(SortOrder::Desc)
        } else {
            None
        }
    }
}

/// How imports are sorted and grouped.
#[derive(Clone, Debug, PartialEq, Eq)]
pub struct SortImportsOptions {
    pub partition_by_newline: bool,
    pub partition_by_comment: bool,
    pub sort_side_effects: bool,
    pub order: Option<SortOrder>,
    pub ignore_case: Option<bool>,
    pub newlines_between: Option<bool>,
    /// Glob patterns that mark an import as internal.
    pub internal_pattern: Vec<String>,
    /// The groups, in the order in which they are printed; each group is a
    /// list of selectors.
    pub groups: Vec<Vec<String>>,
}

/// How utility class lists are found and sorted.
#[derive(Clone, Debug, PartialEq, Eq)]
pub struct TailwindcssOptions {
    /// Path of the class list configuration.
    pub config: Option<String>,
    /// Path of the stylesheet.
    pub stylesheet: Option<String>,
    /// Names of functions whose arguments hold class lists.
    pub functions: Vec<String>,
    /// Names of attributes whose values hold class lists.
    pub attributes: Vec<String>,
    pub preserve_whitespace: bool,
    pub preserve_duplicates: bool,
}

/// The resolved configuration. A field that is `None` leaves the choice to
/// the formatting engine.
#[derive(Clone, Debug, PartialEq, Eq)]
pub struct Configuration {
    pub line_ending: Option<LineEnding>,
    pub indent_style: Option<IndentStyle>,
    pub indent_width: Option<u8>,
    pub line_width: Option<u16>,
    pub semicolons: Option<Semicolons>,
    pub quote_style: Option<QuoteStyle>,
    pub jsx_quote_style: Option<QuoteStyle>,
    pub quote_properties: Option<QuoteProperties>,
    pub arrow_parentheses: Option<ArrowParentheses>,
    pub trailing_commas: Option<TrailingCommas>,
    pub bracket_spacing: Option<bool>,
    pub bracket_same_line: Option<bool>,
    pub attribute_position: Option<AttributePosition>,
    pub expand: Option<Expand>,
    pub embedded_language_formatting: Option<EmbeddedLanguageFormatting>,
    pub experimental_operator_position: Option<OperatorPosition>,
    pub experimental_ternaries: Option<bool>,
    pub experimental_sort_imports: Option<SortImportsOptions>,
    pub experimental_tailwindcss: Option<TailwindcssOptions>,
}

/// Whether every field of `config` is unset.
pub open spec fn all_unset(config: Configuration) -> bool {
    &&& config.line_ending is None
    &&& config.indent_style is None
    &&& config.indent_width is None
    &&& config.line_width is None
    &&& config.semicolons is None
    &&& config.quote_style is None
    &&& config.jsx_quote_style is None
    &&& config.quote_properties is None
    &&& config.arrow_parentheses is None
    &&& config.trailing_commas is None
    &&& config.bracket_spacing is None
    &&& config.bracket_same_line is None
    &&& config.attribute_position is None
    &&& config.expand is None
    &&& config.embedded_language_formatting is None
    &&& config.experimental_operator_position is None
    &&& config.experimental_ternaries is None
    &&& config.experimental_sort_imports is None
    &&& config.experimental_tailwindcss is None
}

impl Default for Configuration {
    fn default() -> (config: Configuration)
        ensures
            all_unset(config),
    {
        Configuration {
            line_ending: None,
            indent_style: None,
            indent_width: None,
            line_width: None,
            semicolons: None,
            quote_style: None,
            jsx_quote_style: None,
            quote_properties: None,
            arrow_parentheses: None,
            trailing_commas: None,
            bracket_spacing: None,
            bracket_same_line: None,
            attribute_position: None,
            expand: None,
            embedded_language_formatting: None,
            experimental_operator_position: None,
            experimental_ternaries: None,
            experimental_sort_imports: None,
            experimental_tailwindcss: None,
        }
    }
}

/// Newline conventions that the shared configuration can ask for.
#[derive(Clone, Copy, Debug, PartialEq, Eq, Structural)]
pub enum NewLineKind {
    /// Follow the last newline of the file.
    Auto,
    LineFeed,
    CarriageReturnLineFeed,
}

/// Settings shared by all plugins of a formatting toolchain. They are the
/// fallback for options that the plugin's own settings leave unset.
#[derive(Clone, Copy, Debug, Default, PartialEq, Eq, Structural)]
pub struct GlobalConfiguration {
    pub line_width: Option<u32>,
    pub use_tabs: Option<bool>,
    pub indent_width: Option<u8>,
    pub new_line_kind: Option<NewLineKind>,
}

} // verus!

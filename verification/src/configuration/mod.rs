//! Resolution of the plugin's configuration: the raw value model, the typed
//! options, and the assembler that turns the one into the other.
pub mod coercion;
pub mod configuration;
pub mod diagnostics;
pub mod keys;
pub mod laws;
pub mod nested;
pub mod resolve_config;
pub mod values;

pub use self::configuration::{
    ArrowParentheses, AttributePosition, ConfigEnum, Configuration, EmbeddedLanguageFormatting,
    Expand, GlobalConfiguration, IndentStyle, LineEnding, NewLineKind, OperatorPosition,
    QuoteProperties, QuoteStyle, Semicolons, SortImportsOptions, SortOrder, TailwindcssOptions,
    TrailingCommas,
};
pub use self::diagnostics::ConfigurationDiagnostic;
pub use self::resolve_config::{resolve_config, ResolveConfigurationResult};
pub use self::values::{RawConfigMap, RawConfigValue};

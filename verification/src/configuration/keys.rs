//! What the verifier has to know about the key literals to tell them apart.
use vstd::prelude::*;

verus! {

/// Lengths and telling characters of the top-level keys: any two of the keys
/// differ in length or in one of the listed characters.
pub proof fn lemma_option_key_shapes()
    ensures
        "indentStyle"@.len() == 11,
        "indentStyle"@[6] == 'S',
        "indentWidth"@.len() == 11,
        "indentWidth"@[6] == 'W',
        "indentSize"@.len() == 10,
        "indentSize"@[0] == 'i',
        "lineWidth"@.len() == 9,
        "lineEnding"@.len() == 10,
        "lineEnding"@[0] == 'l',
        "semicolons"@.len() == 10,
        "semicolons"@[0] == 's',
        "quoteStyle"@.len() == 10,
        "quoteStyle"@[0] == 'q',
        "jsxQuoteStyle"@.len() == 13,
        "jsxQuoteStyle"@[0] == 'j',
        "quoteProperties"@.len() == 15,
        "quoteProperties"@[0] == 'q',
        "arrowParentheses"@.len() == 16,
        "trailingCommas"@.len() == 14,
        "trailingCommas"@[0] == 't',
        "trailingComma"@.len() == 13,
        "trailingComma"@[0] == 't',
        "bracketSpacing"@.len() == 14,
        "bracketSpacing"@[0] == 'b',
        "bracketSameLine"@.len() == 15,
        "bracketSameLine"@[0] == 'b',
        "attributePosition"@.len() == 17,
        "expand"@.len() == 6,
        "embeddedLanguageFormatting"@.len() == 26,
        "experimentalOperatorPosition"@.len() == 28,
        "experimentalTernaries"@.len() == 21,
        "experimentalSortImports"@.len() == 23,
        "experimentalSortImports"@[12] == 'S',
        "experimentalTailwindcss"@.len() == 23,
        "experimentalTailwindcss"@[12] == 'T',
{
    reveal_strlit("indentStyle");
    reveal_strlit("indentWidth");
    reveal_strlit("indentSize");
    reveal_strlit("lineWidth");
    reveal_strlit("lineEnding");
    reveal_strlit("semicolons");
    reveal_strlit("quoteStyle");
    reveal_strlit("jsxQuoteStyle");
    reveal_strlit("quoteProperties");
    reveal_strlit("arrowParentheses");
    reveal_strlit("trailingCommas");
    reveal_strlit("trailingComma");
    reveal_strlit("bracketSpacing");
    reveal_strlit("bracketSameLine");
    reveal_strlit("attributePosition");
    reveal_strlit("expand");
    reveal_strlit("embeddedLanguageFormatting");
    reveal_strlit("experimentalOperatorPosition");
    reveal_strlit("experimentalTernaries");
    reveal_strlit("experimentalSortImports");
    reveal_strlit("experimentalTailwindcss");
}

/// Lengths and telling characters of the keys of the import sorting block.
pub proof fn lemma_sort_imports_key_shapes()
    ensures
        "partitionByNewline"@.len() == 18,
        "partitionByNewline"@[11] == 'N',
        "partitionByComment"@.len() == 18,
        "partitionByComment"@[11] == 'C',
        "sortSideEffects"@.len() == 15,
        "sortSideEffects"@[0] == 's',
        "order"@.len() == 5,
        "ignoreCase"@.len() == 10,
        "newlinesBetween"@.len() == 15,
        "newlinesBetween"@[0] == 'n',
        "internalPattern"@.len() == 15,
        "internalPattern"@[0] == 'i',
        "groups"@.len() == 6,
{
    reveal_strlit("partitionByNewline");
    reveal_strlit("partitionByComment");
    reveal_strlit("sortSideEffects");
    reveal_strlit("order");
    reveal_strlit("ignoreCase");
    reveal_strlit("newlinesBetween");
    reveal_strlit("internalPattern");
    reveal_strlit("groups");
}

/// Lengths and telling characters of the keys of the utility class block.
pub proof fn lemma_tailwindcss_key_shapes()
    ensures
        "config"@.len() == 6,
        "stylesheet"@.len() == 10,
        "stylesheet"@[0] == 's',
        "functions"@.len() == 9,
        "attributes"@.len() == 10,
        "attributes"@[0] == 'a',
        "preserveWhitespace"@.len() == 18,
        "preserveWhitespace"@[8] == 'W',
        "preserveDuplicates"@.len() == 18,
        "preserveDuplicates"@[8] == 'D',
{
    reveal_strlit("config");
    reveal_strlit("stylesheet");
    reveal_strlit("functions");
    reveal_strlit("attributes");
    reveal_strlit("preserveWhitespace");
    reveal_strlit("preserveDuplicates");
}

} // verus!

//! Why a manifest is refused.

use vstd::prelude::*;

verus! {

/// The reason for which a manifest is refused.  A manifest is read before
/// the plugin is built: none of these can come up when the host loads it.
#[derive(Clone, Copy, Debug, PartialEq, Eq, Structural)]
pub enum ManifestError {
    /// An attribute of the form `#![...]` stands before a key of a module.
    GlobalAttribute,
    /// An attribute stands before a key that takes none.
    LocalAttribute,
    /// The attribute before `params` is not `#[prefix = "..."]`, or it is
    /// not alone.
    ExpectedPrefixAttribute,
    /// `params` stands without the prefix of its names.
    ParamsWithoutPrefix,
    /// The prefix is not of the form `prefix = ...`.
    ExpectedNameValue,
    /// A submodule declares submodules of its own.
    NestedSubmodules,
    /// A key that the grammar does not know.
    UnknownKey,
    MissingType,
    MissingLoader,
    MissingCapability,
    MissingCategory,
    MissingDescription,
    /// A section without a name.
    MissingName,
    MissingDefault,
    MissingText,
    MissingLongText,
    /// An attribute of the form `#![...]` before a parameter is not a
    /// section.
    OnlySectionAllowed,
    /// An attribute before a parameter that the grammar does not know.
    UnsupportedAttribute,
    /// A modifier was given arguments.
    AttributeTakesNoArgument,
    /// A parameter has more than one modifier.
    ConflictingModifiers,
    /// The type of a parameter is none of `i64`, `f32`, `bool` and `str`.
    UnsupportedType,
    /// The category is not the name of a subcategory of the host.
    UnknownCategory,
    /// The score does not fit in 32 bits.
    ScoreOutOfRange,
    /// An integer does not fit in 64 bits.
    IntegerOutOfRange,
    /// A range that lacks a bound or leaves its upper bound out.
    RangeNotClosed,
    /// What follows `range` is no range.
    ExpectedRange,
    /// The default is not of the parameter's type.
    DefaultTypeMismatch,
    /// A range on a parameter that is no number.
    RangeOnNonNumeric,
    /// A bound of the range is not of the parameter's type.
    RangeTypeMismatch,
    /// A modifier on a parameter of a type that it is not meant for.
    ModifierTypeMismatch,
    /// A range on an RGB color, whose range is fixed.
    RgbWithRange,
    ExpectedIdent,
    ExpectedColon,
    ExpectedComma,
    ExpectedEquals,
    ExpectedAt,
    ExpectedStr,
    ExpectedInt,
    ExpectedNumber,
    ExpectedLiteral,
    ExpectedParenthesis,
    ExpectedBrace,
    ExpectedBracket,
    /// Tokens follow where a group should end.
    UnexpectedToken,
}

impl ManifestError {
    /// The words in which the reason is told to whoever wrote the manifest.
    pub open spec fn spec_message(self) -> Seq<char> {
        match self {
            ManifestError::GlobalAttribute => "no global arguments are expected here"@,
            ManifestError::LocalAttribute => "no local arguments are expected here"@,
            ManifestError::ExpectedPrefixAttribute => "one (and only one) attribute was expected here, try `#[prefix = \"...\"]`"@,
            ManifestError::ParamsWithoutPrefix => "missing `#[prefix = \"...\"]` on `params`"@,
            ManifestError::ExpectedNameValue => "expected name-value arguments"@,
            ManifestError::NestedSubmodules => "nested submodules are not allowed"@,
            ManifestError::UnknownKey => "unknown key"@,
            ManifestError::MissingType => "missing `type` key"@,
            ManifestError::MissingLoader => "invalid `type` key, missing module loader"@,
            ManifestError::MissingCapability => "missing `capability` key"@,
            ManifestError::MissingCategory => "missing `category` key"@,
            ManifestError::MissingDescription => "missing `description` key"@,
            ManifestError::MissingName => "missing `name` key"@,
            ManifestError::MissingDefault => "missing `default` key"@,
            ManifestError::MissingText => "missing `text` key"@,
            ManifestError::MissingLongText => "missing `long_text` key"@,
            ManifestError::OnlySectionAllowed => "only `#[section(name=\"\", description=\"\")]` is allowed here"@,
            ManifestError::UnsupportedAttribute => "only `#[rgb]`, `#[font]`, `#[savefile]`, `#[loadfile]`, `#[password]`, `#[directory]` and `#[deprecated = ...]` are supported"@,
            ManifestError::AttributeTakesNoArgument => "this attribute doesn't take any argument"@,
            ManifestError::ConflictingModifiers => "a parameter takes at most one of `#[rgb]`, `#[font]`, `#[savefile]`, `#[loadfile]`, `#[password]` and `#[directory]`"@,
            ManifestError::UnsupportedType => "only `i64`, `f32`, `bool` and `str` are supported"@,
            ManifestError::UnknownCategory => "unknown category"@,
            ManifestError::ScoreOutOfRange => "the score does not fit in 32 bits"@,
            ManifestError::IntegerOutOfRange => "the integer does not fit in 64 bits"@,
            ManifestError::RangeNotClosed => "only closed ranges (ie. -200..=100) are supported here"@,
            ManifestError::ExpectedRange => "expected a range (ie. 5..=10)"@,
            ManifestError::DefaultTypeMismatch => "the default is not of the parameter's type"@,
            ManifestError::RangeOnNonNumeric => "this type doesn't support ranges"@,
            ManifestError::RangeTypeMismatch => "the bounds of the range are not of the parameter's type"@,
            ManifestError::ModifierTypeMismatch => "this attribute is not meant for a parameter of this type"@,
            ManifestError::RgbWithRange => "`#[rgb]` fixes the range, no other range is allowed"@,
            ManifestError::ExpectedIdent => "expected identifier"@,
            ManifestError::ExpectedColon => "expected `:`"@,
            ManifestError::ExpectedComma => "expected `,`"@,
            ManifestError::ExpectedEquals => "expected `=`"@,
            ManifestError::ExpectedAt => "expected `@`"@,
            ManifestError::ExpectedStr => "expected string literal"@,
            ManifestError::ExpectedInt => "expected integer literal"@,
            ManifestError::ExpectedNumber => "expected number"@,
            ManifestError::ExpectedLiteral => "expected literal"@,
            ManifestError::ExpectedParenthesis => "expected parentheses"@,
            ManifestError::ExpectedBrace => "expected curly braces"@,
            ManifestError::ExpectedBracket => "expected square brackets"@,
            ManifestError::UnexpectedToken => "unexpected token"@,
        }
    }

    /// The words in which the reason is told to whoever wrote the manifest.
    pub fn message(&self) -> (text: &'static str)
        ensures
            text@ == self.spec_message(),
    {
        match self {
            ManifestError::GlobalAttribute => "no global arguments are expected here",
            ManifestError::LocalAttribute => "no local arguments are expected here",
            ManifestError::ExpectedPrefixAttribute => "one (and only one) attribute was expected here, try `#[prefix = \"...\"]`",
            ManifestError::ParamsWithoutPrefix => "missing `#[prefix = \"...\"]` on `params`",
            ManifestError::ExpectedNameValue => "expected name-value arguments",
            ManifestError::NestedSubmodules => "nested submodules are not allowed",
            ManifestError::UnknownKey => "unknown key",
            ManifestError::MissingType => "missing `type` key",
            ManifestError::MissingLoader => "invalid `type` key, missing module loader",
            ManifestError::MissingCapability => "missing `capability` key",
            ManifestError::MissingCategory => "missing `category` key",
            ManifestError::MissingDescription => "missing `description` key",
            ManifestError::MissingName => "missing `name` key",
            ManifestError::MissingDefault => "missing `default` key",
            ManifestError::MissingText => "missing `text` key",
            ManifestError::MissingLongText => "missing `long_text` key",
            ManifestError::OnlySectionAllowed => "only `#[section(name=\"\", description=\"\")]` is allowed here",
            ManifestError::UnsupportedAttribute => "only `#[rgb]`, `#[font]`, `#[savefile]`, `#[loadfile]`, `#[password]`, `#[directory]` and `#[deprecated = ...]` are supported",
            ManifestError::AttributeTakesNoArgument => "this attribute doesn't take any argument",
            ManifestError::ConflictingModifiers => "a parameter takes at most one of `#[rgb]`, `#[font]`, `#[savefile]`, `#[loadfile]`, `#[password]` and `#[directory]`",
            ManifestError::UnsupportedType => "only `i64`, `f32`, `bool` and `str` are supported",
            ManifestError::UnknownCategory => "unknown category",
            ManifestError::ScoreOutOfRange => "the score does not fit in 32 bits",
            ManifestError::IntegerOutOfRange => "the integer does not fit in 64 bits",
            ManifestError::RangeNotClosed => "only closed ranges (ie. -200..=100) are supported here",
            ManifestError::ExpectedRange => "expected a range (ie. 5..=10)",
            ManifestError::DefaultTypeMismatch => "the default is not of the parameter's type",
            ManifestError::RangeOnNonNumeric => "this type doesn't support ranges",
            ManifestError::RangeTypeMismatch => "the bounds of the range are not of the parameter's type",
            ManifestError::ModifierTypeMismatch => "this attribute is not meant for a parameter of this type",
            ManifestError::RgbWithRange => "`#[rgb]` fixes the range, no other range is allowed",
            ManifestError::ExpectedIdent => "expected identifier",
            ManifestError::ExpectedColon => "expected `:`",
            ManifestError::ExpectedComma => "expected `,`",
            ManifestError::ExpectedEquals => "expected `=`",
            ManifestError::ExpectedAt => "expected `@`",
            ManifestError::ExpectedStr => "expected string literal",
            ManifestError::ExpectedInt => "expected integer literal",
            ManifestError::ExpectedNumber => "expected number",
            ManifestError::ExpectedLiteral => "expected literal",
            ManifestError::ExpectedParenthesis => "expected parentheses",
            ManifestError::ExpectedBrace => "expected curly braces",
            ManifestError::ExpectedBracket => "expected square brackets",
            ManifestError::UnexpectedToken => "unexpected token",
        }
    }
}

} // verus!

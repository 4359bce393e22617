//! The grammar of manifests, as functions from tokens to what they declare.
//!
//! A manifest is a list of entries between commas; a comma may follow the
//! last.  An entry of a module is a key, a colon and a value.  Every
//! function here says what a piece of a manifest declares, or why the
//! manifest is refused.

use vstd::prelude::*;
use crate::macros::error::ManifestError;
use crate::macros::info::{
    Modifier, ParameterType, SpecCapabilityInfo, SpecManifest, SpecModuleInfo, SpecParameterInfo,
    SpecSectionInfo, SpecValue,
};
use crate::macros::token::{
    spec_float_at, spec_group_at, spec_ident_at, spec_int_at, spec_is_ident, spec_is_literal,
    spec_is_punct, spec_str_at, Delimiter, Token,
};
use crate::plugin::ConfigSubcategory;

verus! {

/// The place of the first comma at or after `start`, or the end of the
/// tokens where no comma follows.
pub open spec fn spec_segment_end(tokens: Seq<Token>, start: int) -> int
    decreases tokens.len() - start,
{
    if 0 <= start < tokens.len() && !spec_is_punct(tokens, start, ',') {
        spec_segment_end(tokens, start + 1)
    } else {
        start
    }
}

/// Reads the entries of a list from place `start` on.  Each entry runs up
/// to the next comma; `step` takes the entry, whether it is the last one
/// and without a comma behind it, and what the entries before it gave.
pub open spec fn spec_fold_items<A>(
    tokens: Seq<Token>,
    start: int,
    acc: A,
    step: spec_fn(Seq<Token>, bool, A) -> Result<A, ManifestError>,
) -> Result<A, ManifestError>
    decreases tokens.len() - start,
{
    if 0 <= start < tokens.len() {
        let end = spec_segment_end(tokens, start);
        match step(tokens.subrange(start, end), end >= tokens.len(), acc) {
            Err(e) => Err(e),
            Ok(next) => if start <= end < tokens.len() {
                spec_fold_items(tokens, end + 1, next, step)
            } else {
                Ok(next)
            },
        }
    } else {
        Ok(acc)
    }
}

/// The number of tokens that the attributes of the form `#![...]` take,
/// from place `from` on.
pub open spec fn spec_inner_attrs_len(seg: Seq<Token>, from: int) -> nat
    decreases seg.len() - from,
{
    if spec_is_punct(seg, from, '#') && spec_is_punct(seg, from + 1, '!') && spec_group_at(
        seg,
        from + 2,
        Delimiter::Bracket,
    ) is Some {
        3 + spec_inner_attrs_len(seg, from + 3)
    } else {
        0
    }
}

/// The number of tokens that the attributes of the form `#[...]` take,
/// from place `from` on.
pub open spec fn spec_outer_attrs_len(seg: Seq<Token>, from: int) -> nat
    decreases seg.len() - from,
{
    if spec_is_punct(seg, from, '#') && spec_group_at(seg, from + 1, Delimiter::Bracket) is Some {
        2 + spec_outer_attrs_len(seg, from + 2)
    } else {
        0
    }
}

/// The integer with the magnitude `magnitude`, negated where `negative`,
/// if it fits in 64 bits.
pub open spec fn spec_signed(magnitude: u64, negative: bool) -> Option<i64> {
    if negative {
        if magnitude <= 0x8000_0000_0000_0000 {
            Some((-(magnitude as int)) as i64)
        } else {
            None
        }
    } else {
        if magnitude <= 0x7FFF_FFFF_FFFF_FFFF {
            Some(magnitude as i64)
        } else {
            None
        }
    }
}

/// The score with the magnitude `magnitude`, negated where `negative`, if
/// it fits in 32 bits.
pub open spec fn spec_score(magnitude: u64, negative: bool) -> Option<i32> {
    if negative {
        if magnitude <= 0x8000_0000 {
            Some((-(magnitude as int)) as i32)
        } else {
            None
        }
    } else {
        if magnitude <= 0x7FFF_FFFF {
            Some(magnitude as i32)
        } else {
            None
        }
    }
}

/// The bits of the negated number.
pub open spec fn spec_negate_bits(bits: u64) -> u64 {
    bits ^ 0x8000_0000_0000_0000u64
}

/// The number at place `i`, an integer or a floating-point literal with or
/// without a minus before it, and the place after it.
pub open spec fn spec_number(seg: Seq<Token>, i: int) -> Result<(SpecValue, int), ManifestError> {
    let negative = spec_is_punct(seg, i, '-');
    let j = if negative {
        i + 1
    } else {
        i
    };
    match spec_int_at(seg, j) {
        Some(magnitude) => match spec_signed(magnitude, negative) {
            Some(n) => Ok((SpecValue::Int(n), j + 1)),
            None => Err(ManifestError::IntegerOutOfRange),
        },
        None => match spec_float_at(seg, j) {
            Some(bits) => Ok(
                (
                    SpecValue::Float(
                        if negative {
                            spec_negate_bits(bits)
                        } else {
                            bits
                        },
                    ),
                    j + 1,
                ),
            ),
            None => Err(ManifestError::ExpectedNumber),
        },
    }
}

/// The value at place `i`, a text, `true`, `false` or a number, and the
/// place after it.
pub open spec fn spec_literal(seg: Seq<Token>, i: int) -> Result<(SpecValue, int), ManifestError> {
    match spec_str_at(seg, i) {
        Some(s) => Ok((SpecValue::Str(s), i + 1)),
        None => if spec_is_ident(seg, i, "true"@) {
            Ok((SpecValue::Bool(true), i + 1))
        } else if spec_is_ident(seg, i, "false"@) {
            Ok((SpecValue::Bool(false), i + 1))
        } else {
            match spec_number(seg, i) {
                Ok(found) => Ok(found),
                Err(e) => if e == ManifestError::ExpectedNumber {
                    Err(ManifestError::ExpectedLiteral)
                } else {
                    Err(e)
                },
            }
        },
    }
}

/// The text of an entry `key: "text"` whose key stands at place `k`.
pub open spec fn spec_text_value(seg: Seq<Token>, k: int) -> Result<Seq<char>, ManifestError> {
    if !spec_is_punct(seg, k + 1, ':') {
        Err(ManifestError::ExpectedColon)
    } else {
        match spec_str_at(seg, k + 2) {
            None => Err(ManifestError::ExpectedStr),
            Some(s) => if seg.len() != k + 3 {
                Err(ManifestError::ExpectedComma)
            } else {
                Ok(s)
            },
        }
    }
}

/// The tokens of the group of an entry `key: [...]` or `key: {...}` whose
/// key stands at place `k`.
pub open spec fn spec_group_value(seg: Seq<Token>, k: int, d: Delimiter) -> Result<
    Seq<Token>,
    ManifestError,
> {
    if !spec_is_punct(seg, k + 1, ':') {
        Err(ManifestError::ExpectedColon)
    } else {
        match spec_group_at(seg, k + 2, d) {
            None => Err(
                if d == Delimiter::Brace {
                    ManifestError::ExpectedBrace
                } else if d == Delimiter::Bracket {
                    ManifestError::ExpectedBracket
                } else {
                    ManifestError::ExpectedParenthesis
                },
            ),
            Some(inner) => if seg.len() != k + 3 {
                Err(ManifestError::ExpectedComma)
            } else {
                Ok(inner)
            },
        }
    }
}

/// What an entry `capability: "name" @ score` declares.
pub open spec fn spec_capability(seg: Seq<Token>, k: int) -> Result<
    SpecCapabilityInfo,
    ManifestError,
> {
    if !spec_is_punct(seg, k + 1, ':') {
        Err(ManifestError::ExpectedColon)
    } else {
        match spec_str_at(seg, k + 2) {
            None => Err(ManifestError::ExpectedStr),
            Some(capability) => if !spec_is_punct(seg, k + 3, '@') {
                Err(ManifestError::ExpectedAt)
            } else {
                let negative = spec_is_punct(seg, k + 4, '-');
                let j = if negative {
                    k + 5
                } else {
                    k + 4
                };
                match spec_int_at(seg, j) {
                    None => Err(ManifestError::ExpectedInt),
                    Some(magnitude) => match spec_score(magnitude, negative) {
                        None => Err(ManifestError::ScoreOutOfRange),
                        Some(score) => if seg.len() != j + 1 {
                            Err(ManifestError::ExpectedComma)
                        } else {
                            Ok(SpecCapabilityInfo { capability, score })
                        },
                    },
                }
            },
        }
    }
}

/// The subcategory of the host with the name `name`.
pub open spec fn spec_category_of(name: Seq<char>) -> Option<ConfigSubcategory> {
    if name == "HIDDEN"@ {
        Some(ConfigSubcategory::HIDDEN)
    } else if name == "UNKNOWN"@ {
        Some(ConfigSubcategory::UNKNOWN)
    } else if name == "INTERFACE_GENERAL"@ {
        Some(ConfigSubcategory::INTERFACE_GENERAL)
    } else if name == "INTERFACE_MAIN"@ {
        Some(ConfigSubcategory::INTERFACE_MAIN)
    } else if name == "INTERFACE_CONTROL"@ {
        Some(ConfigSubcategory::INTERFACE_CONTROL)
    } else if name == "INTERFACE_HOTKEYS"@ {
        Some(ConfigSubcategory::INTERFACE_HOTKEYS)
    } else if name == "AUDIO_GENERAL"@ {
        Some(ConfigSubcategory::AUDIO_GENERAL)
    } else if name == "AUDIO_AOUT"@ {
        Some(ConfigSubcategory::AUDIO_AOUT)
    } else if name == "AUDIO_AFILTER"@ {
        Some(ConfigSubcategory::AUDIO_AFILTER)
    } else if name == "AUDIO_VISUAL"@ {
        Some(ConfigSubcategory::AUDIO_VISUAL)
    } else if name == "AUDIO_RESAMPLER"@ {
        Some(ConfigSubcategory::AUDIO_RESAMPLER)
    } else if name == "VIDEO_GENERAL"@ {
        Some(ConfigSubcategory::VIDEO_GENERAL)
    } else if name == "VIDEO_VOUT"@ {
        Some(ConfigSubcategory::VIDEO_VOUT)
    } else if name == "VIDEO_VFILTER"@ {
        Some(ConfigSubcategory::VIDEO_VFILTER)
    } else if name == "VIDEO_SUBPIC"@ {
        Some(ConfigSubcategory::VIDEO_SUBPIC)
    } else if name == "VIDEO_SPLITTER"@ {
        Some(ConfigSubcategory::VIDEO_SPLITTER)
    } else if name == "INPUT_GENERAL"@ {
        Some(ConfigSubcategory::INPUT_GENERAL)
    } else if name == "INPUT_ACCESS"@ {
        Some(ConfigSubcategory::INPUT_ACCESS)
    } else if name == "INPUT_DEMUX"@ {
        Some(ConfigSubcategory::INPUT_DEMUX)
    } else if name == "INPUT_VCODEC"@ {
        Some(ConfigSubcategory::INPUT_VCODEC)
    } else if name == "INPUT_ACODEC"@ {
        Some(ConfigSubcategory::INPUT_ACODEC)
    } else if name == "INPUT_SCODEC"@ {
        Some(ConfigSubcategory::INPUT_SCODEC)
    } else if name == "INPUT_STREAM_FILTER"@ {
        Some(ConfigSubcategory::INPUT_STREAM_FILTER)
    } else if name == "SOUT_GENERAL"@ {
        Some(ConfigSubcategory::SOUT_GENERAL)
    } else if name == "SOUT_STREAM"@ {
        Some(ConfigSubcategory::SOUT_STREAM)
    } else if name == "SOUT_MUX"@ {
        Some(ConfigSubcategory::SOUT_MUX)
    } else if name == "SOUT_ACO"@ {
        Some(ConfigSubcategory::SOUT_ACO)
    } else if name == "SOUT_PACKETIZER"@ {
        Some(ConfigSubcategory::SOUT_PACKETIZER)
    } else if name == "SOUT_VOD"@ {
        Some(ConfigSubcategory::SOUT_VOD)
    } else if name == "SOUT_RENDERER"@ {
        Some(ConfigSubcategory::SOUT_RENDERER)
    } else if name == "ADVANCED_MISC"@ {
        Some(ConfigSubcategory::ADVANCED_MISC)
    } else if name == "ADVANCED_NETWORK"@ {
        Some(ConfigSubcategory::ADVANCED_NETWORK)
    } else if name == "PLAYLIST_GENERAL"@ {
        Some(ConfigSubcategory::PLAYLIST_GENERAL)
    } else if name == "PLAYLIST_SD"@ {
        Some(ConfigSubcategory::PLAYLIST_SD)
    } else if name == "PLAYLIST_EXPORT"@ {
        Some(ConfigSubcategory::PLAYLIST_EXPORT)
    } else {
        None
    }
}

/// What an entry `category: NAME` declares.
pub open spec fn spec_category(seg: Seq<Token>, k: int) -> Result<
    ConfigSubcategory,
    ManifestError,
> {
    if !spec_is_punct(seg, k + 1, ':') {
        Err(ManifestError::ExpectedColon)
    } else {
        match spec_ident_at(seg, k + 2) {
            None => Err(ManifestError::ExpectedIdent),
            Some(name) => match spec_category_of(name) {
                None => Err(ManifestError::UnknownCategory),
                Some(category) => if seg.len() != k + 3 {
                    Err(ManifestError::ExpectedComma)
                } else {
                    Ok(category)
                },
            },
        }
    }
}

/// What an entry `type: Type (Loader)` declares: the type and its loader.
/// A comma always follows this entry.
pub open spec fn spec_type_item(seg: Seq<Token>, k: int, is_last: bool) -> Result<
    (Seq<char>, Seq<char>),
    ManifestError,
> {
    if !spec_is_punct(seg, k + 1, ':') {
        Err(ManifestError::ExpectedColon)
    } else {
        match spec_ident_at(seg, k + 2) {
            None => Err(ManifestError::ExpectedIdent),
            Some(type_) => match spec_group_at(seg, k + 3, Delimiter::Parenthesis) {
                None => Err(ManifestError::ExpectedParenthesis),
                Some(inner) => match spec_ident_at(inner, 0) {
                    None => Err(ManifestError::ExpectedIdent),
                    Some(loader) => if inner.len() != 1 {
                        Err(ManifestError::UnexpectedToken)
                    } else if seg.len() != k + 4 || is_last {
                        Err(ManifestError::ExpectedComma)
                    } else {
                        Ok((type_, loader))
                    },
                },
            },
        }
    }
}

/// The prefix that the tokens of an attribute `#[prefix = "..."]` declare.
pub open spec fn spec_prefix_attr(attr: Seq<Token>) -> Result<Seq<char>, ManifestError> {
    if !spec_is_ident(attr, 0, "prefix"@) {
        Err(ManifestError::ExpectedPrefixAttribute)
    } else if !(attr.len() == 3 && spec_is_punct(attr, 1, '=') && spec_is_literal(attr, 2)) {
        Err(ManifestError::ExpectedNameValue)
    } else {
        match spec_str_at(attr, 2) {
            None => Err(ManifestError::ExpectedStr),
            Some(prefix) => Ok(prefix),
        }
    }
}

/// What one entry of a list of shortcuts adds to the shortcuts before it.
pub open spec fn spec_shortcut_item(seg: Seq<Token>, is_last: bool, acc: Seq<Seq<char>>) -> Result<
    Seq<Seq<char>>,
    ManifestError,
> {
    match spec_str_at(seg, 0) {
        None => Err(ManifestError::ExpectedStr),
        Some(s) => if seg.len() != 1 {
            Err(ManifestError::ExpectedComma)
        } else {
            Ok(acc.push(s))
        },
    }
}

pub open spec fn spec_shortcut_step() -> spec_fn(Seq<Token>, bool, Seq<Seq<char>>) -> Result<
    Seq<Seq<char>>,
    ManifestError,
> {
    |seg: Seq<Token>, is_last: bool, acc: Seq<Seq<char>>| spec_shortcut_item(seg, is_last, acc)
}

/// The shortcuts that a list `"a", "b"` declares.
pub open spec fn spec_shortcut_list(tokens: Seq<Token>) -> Result<Seq<Seq<char>>, ManifestError> {
    spec_fold_items(tokens, 0, Seq::empty(), spec_shortcut_step())
}

/// What the entries of a section have given so far.
pub struct SpecSectionDraft {
    pub name: Option<Seq<char>>,
    pub description: Option<Seq<char>>,
}

/// What one entry `name = "..."` or `description = "..."` adds to a
/// section.
pub open spec fn spec_section_item(seg: Seq<Token>, is_last: bool, draft: SpecSectionDraft) -> Result<
    SpecSectionDraft,
    ManifestError,
> {
    match spec_ident_at(seg, 0) {
        None => Err(ManifestError::ExpectedIdent),
        Some(key) => if key != "name"@ && key != "description"@ {
            Err(ManifestError::UnknownKey)
        } else if !spec_is_punct(seg, 1, '=') {
            Err(ManifestError::ExpectedEquals)
        } else {
            match spec_str_at(seg, 2) {
                None => Err(ManifestError::ExpectedStr),
                Some(s) => if seg.len() != 3 {
                    Err(ManifestError::ExpectedComma)
                } else if key == "name"@ {
                    Ok(SpecSectionDraft { name: Some(s), ..draft })
                } else {
                    Ok(SpecSectionDraft { description: Some(s), ..draft })
                },
            }
        },
    }
}

pub open spec fn spec_section_step() -> spec_fn(Seq<Token>, bool, SpecSectionDraft) -> Result<
    SpecSectionDraft,
    ManifestError,
> {
    |seg: Seq<Token>, is_last: bool, draft: SpecSectionDraft| spec_section_item(seg, is_last, draft)
}

/// The section that the tokens of an attribute
/// `#![section(name = "...", description = "...")]` declare.
pub open spec fn spec_section_attr(attr: Seq<Token>) -> Result<SpecSectionInfo, ManifestError> {
    if !spec_is_ident(attr, 0, "section"@) {
        Err(ManifestError::OnlySectionAllowed)
    } else {
        match spec_group_at(attr, 1, Delimiter::Parenthesis) {
            None => Err(ManifestError::ExpectedParenthesis),
            Some(args) => if attr.len() != 2 {
                Err(ManifestError::UnexpectedToken)
            } else {
                match spec_fold_items(
                    args,
                    0,
                    SpecSectionDraft { name: None, description: None },
                    spec_section_step(),
                ) {
                    Err(e) => Err(e),
                    Ok(draft) => match draft.name {
                        None => Err(ManifestError::MissingName),
                        Some(name) => Ok(SpecSectionInfo { name, description: draft.description }),
                    },
                }
            },
        }
    }
}

/// The section that the attributes of the form `#![...]` from place `i` up
/// to place `n` declare: the last one, where there are several.
pub open spec fn spec_inner_attrs(
    seg: Seq<Token>,
    i: int,
    n: int,
    acc: Option<SpecSectionInfo>,
) -> Result<Option<SpecSectionInfo>, ManifestError>
    decreases n - i,
{
    if i >= n {
        Ok(acc)
    } else {
        match spec_group_at(seg, i + 2, Delimiter::Bracket) {
            None => Err(ManifestError::ExpectedBracket),
            Some(attr) => match spec_section_attr(attr) {
                Err(e) => Err(e),
                Ok(section) => if i + 3 <= n {
                    spec_inner_attrs(seg, i + 3, n, Some(section))
                } else {
                    Ok(Some(section))
                },
            },
        }
    }
}

/// What the attributes of the form `#[...]` before a parameter say of it.
pub struct Flags {
    pub modifier: Option<Modifier>,
    pub deprecated: bool,
}

/// The modifier with the name `name`.
pub open spec fn spec_modifier_of(name: Seq<char>) -> Option<Modifier> {
    if name == "rgb"@ {
        Some(Modifier::Rgb)
    } else if name == "font"@ {
        Some(Modifier::Font)
    } else if name == "savefile"@ {
        Some(Modifier::Savefile)
    } else if name == "loadfile"@ {
        Some(Modifier::Loadfile)
    } else if name == "password"@ {
        Some(Modifier::Password)
    } else if name == "directory"@ {
        Some(Modifier::Directory)
    } else {
        None
    }
}

/// What the tokens of one attribute `#[...]` before a parameter add to the
/// attributes before it.  `deprecated` may come with a note; a modifier
/// comes alone, and once.
pub open spec fn spec_flag_attr(attr: Seq<Token>, acc: Flags) -> Result<Flags, ManifestError> {
    match spec_ident_at(attr, 0) {
        None => Err(ManifestError::UnsupportedAttribute),
        Some(name) => if name == "deprecated"@ {
            Ok(Flags { deprecated: true, ..acc })
        } else {
            match spec_modifier_of(name) {
                None => Err(ManifestError::UnsupportedAttribute),
                Some(modifier) => if attr.len() != 1 {
                    Err(ManifestError::AttributeTakesNoArgument)
                } else if acc.modifier is Some {
                    Err(ManifestError::ConflictingModifiers)
                } else {
                    Ok(Flags { modifier: Some(modifier), ..acc })
                },
            }
        },
    }
}

/// What the attributes of the form `#[...]` from place `i` up to place `n`
/// say of a parameter.
pub open spec fn spec_outer_attrs(seg: Seq<Token>, i: int, n: int, acc: Flags) -> Result<
    Flags,
    ManifestError,
>
    decreases n - i,
{
    if i >= n {
        Ok(acc)
    } else {
        match spec_group_at(seg, i + 1, Delimiter::Bracket) {
            None => Err(ManifestError::ExpectedBracket),
            Some(attr) => match spec_flag_attr(attr, acc) {
                Err(e) => Err(e),
                Ok(flags) => if i + 2 <= n {
                    spec_outer_attrs(seg, i + 2, n, flags)
                } else {
                    Ok(flags)
                },
            },
        }
    }
}

/// The bounds that an entry `range: from..=to` declares.  Both bounds are
/// required, and the upper one is included.
pub open spec fn spec_range(seg: Seq<Token>) -> Result<(SpecValue, SpecValue), ManifestError> {
    if !spec_is_punct(seg, 1, ':') {
        Err(ManifestError::ExpectedColon)
    } else if spec_is_punct(seg, 2, '.') {
        Err(ManifestError::RangeNotClosed)
    } else {
        match spec_number(seg, 2) {
            Err(e) => Err(
                if e == ManifestError::ExpectedNumber {
                    ManifestError::ExpectedRange
                } else {
                    e
                },
            ),
            Ok((from, j)) => if !(spec_is_punct(seg, j, '.') && spec_is_punct(seg, j + 1, '.')) {
                Err(ManifestError::ExpectedRange)
            } else if !spec_is_punct(seg, j + 2, '=') {
                Err(ManifestError::RangeNotClosed)
            } else {
                match spec_number(seg, j + 3) {
                    Err(e) => Err(
                        if e == ManifestError::ExpectedNumber {
                            ManifestError::RangeNotClosed
                        } else {
                            e
                        },
                    ),
                    Ok((to, end)) => if seg.len() != end {
                        Err(ManifestError::ExpectedComma)
                    } else {
                        Ok((from, to))
                    },
                }
            },
        }
    }
}

/// What the entries between the braces of a parameter have given so far.
pub struct SpecParameterDraft {
    pub default_: Option<SpecValue>,
    pub range: Option<(SpecValue, SpecValue)>,
    pub text: Option<Seq<char>>,
    pub long_text: Option<Seq<char>>,
}

/// What one entry between the braces of a parameter adds: `default`,
/// `range`, `text` or `long_text`.  A comma always follows `default`.
pub open spec fn spec_parameter_item(
    seg: Seq<Token>,
    is_last: bool,
    draft: SpecParameterDraft,
) -> Result<SpecParameterDraft, ManifestError> {
    match spec_ident_at(seg, 0) {
        None => Err(ManifestError::ExpectedIdent),
        Some(key) => if key == "default"@ {
            if !spec_is_punct(seg, 1, ':') {
                Err(ManifestError::ExpectedColon)
            } else {
                match spec_literal(seg, 2) {
                    Err(e) => Err(e),
                    Ok((value, end)) => if seg.len() != end || is_last {
                        Err(ManifestError::ExpectedComma)
                    } else {
                        Ok(SpecParameterDraft { default_: Some(value), ..draft })
                    },
                }
            }
        } else if key == "range"@ {
            match spec_range(seg) {
                Err(e) => Err(e),
                Ok(range) => Ok(SpecParameterDraft { range: Some(range), ..draft }),
            }
        } else if key == "text"@ {
            match spec_text_value(seg, 0) {
                Err(e) => Err(e),
                Ok(text) => Ok(SpecParameterDraft { text: Some(text), ..draft }),
            }
        } else if key == "long_text"@ {
            match spec_text_value(seg, 0) {
                Err(e) => Err(e),
                Ok(text) => Ok(SpecParameterDraft { long_text: Some(text), ..draft }),
            }
        } else {
            Err(ManifestError::UnknownKey)
        },
    }
}

pub open spec fn spec_parameter_step() -> spec_fn(Seq<Token>, bool, SpecParameterDraft) -> Result<
    SpecParameterDraft,
    ManifestError,
> {
    |seg: Seq<Token>, is_last: bool, draft: SpecParameterDraft|
        spec_parameter_item(seg, is_last, draft)
}

/// The type of a parameter with the name `name`.
pub open spec fn spec_type_of(name: Seq<char>) -> Option<ParameterType> {
    if name == "i64"@ {
        Some(ParameterType::I64)
    } else if name == "f32"@ {
        Some(ParameterType::F32)
    } else if name == "bool"@ {
        Some(ParameterType::Bool)
    } else if name == "str"@ {
        Some(ParameterType::Str)
    } else {
        None
    }
}

/// The parameter that its name, its type, its attributes and the entries
/// between its braces make, if they are complete and fit together.
pub open spec fn spec_finish_parameter(
    name: Seq<char>,
    type_: ParameterType,
    section: Option<SpecSectionInfo>,
    flags: Flags,
    draft: SpecParameterDraft,
) -> Result<SpecParameterInfo, ManifestError> {
    if draft.default_ is None {
        Err(ManifestError::MissingDefault)
    } else if draft.text is None {
        Err(ManifestError::MissingText)
    } else if draft.long_text is None {
        Err(ManifestError::MissingLongText)
    } else if !draft.default_->0.has_type(type_) {
        Err(ManifestError::DefaultTypeMismatch)
    } else if draft.range is Some && type_ != ParameterType::I64 && type_ != ParameterType::F32 {
        Err(ManifestError::RangeOnNonNumeric)
    } else if draft.range matches Some((from, to)) && !(from.has_type(type_) && to.has_type(type_)) {
        Err(ManifestError::RangeTypeMismatch)
    } else if flags.modifier is Some && type_ != (if flags.modifier->0 == Modifier::Rgb {
        ParameterType::I64
    } else {
        ParameterType::Str
    }) {
        Err(ManifestError::ModifierTypeMismatch)
    } else if flags.modifier == Some(Modifier::Rgb) && draft.range is Some {
        Err(ManifestError::RgbWithRange)
    } else {
        Ok(
            SpecParameterInfo {
                name,
                type_,
                range: draft.range,
                default_: draft.default_->0,
                text: draft.text->0,
                long_text: draft.long_text->0,
                prefix: None,
                section,
                modifier: flags.modifier,
                deprecated: flags.deprecated,
            },
        )
    }
}

/// The parameter that one entry of `params` declares: its attributes, its
/// name, a colon, its type, and its entries between braces.
pub open spec fn spec_parameter(seg: Seq<Token>) -> Result<SpecParameterInfo, ManifestError> {
    let g = spec_inner_attrs_len(seg, 0) as int;
    let k = g + spec_outer_attrs_len(seg, g);
    match spec_inner_attrs(seg, 0, g, None) {
        Err(e) => Err(e),
        Ok(section) => match spec_outer_attrs(
            seg,
            g,
            k,
            Flags { modifier: None, deprecated: false },
        ) {
            Err(e) => Err(e),
            Ok(flags) => match spec_ident_at(seg, k) {
                None => Err(ManifestError::ExpectedIdent),
                Some(name) => if !spec_is_punct(seg, k + 1, ':') {
                    Err(ManifestError::ExpectedColon)
                } else {
                    match spec_ident_at(seg, k + 2) {
                        None => Err(ManifestError::ExpectedIdent),
                        Some(type_ident) => match spec_type_of(type_ident) {
                            None => Err(ManifestError::UnsupportedType),
                            Some(type_) => match spec_group_at(seg, k + 3, Delimiter::Brace) {
                                None => Err(ManifestError::ExpectedBrace),
                                Some(body) => if seg.len() != k + 4 {
                                    Err(ManifestError::ExpectedComma)
                                } else {
                                    match spec_fold_items(
                                        body,
                                        0,
                                        SpecParameterDraft {
                                            default_: None,
                                            range: None,
                                            text: None,
                                            long_text: None,
                                        },
                                        spec_parameter_step(),
                                    ) {
                                        Err(e) => Err(e),
                                        Ok(draft) => spec_finish_parameter(
                                            name,
                                            type_,
                                            section,
                                            flags,
                                            draft,
                                        ),
                                    }
                                },
                            },
                        },
                    }
                },
            },
        },
    }
}

/// What one entry of `params` adds to the parameters before it.
pub open spec fn spec_parameters_item(
    seg: Seq<Token>,
    is_last: bool,
    acc: Seq<SpecParameterInfo>,
) -> Result<Seq<SpecParameterInfo>, ManifestError> {
    match spec_parameter(seg) {
        Err(e) => Err(e),
        Ok(p) => Ok(acc.push(p)),
    }
}

pub open spec fn spec_parameters_step() -> spec_fn(
    Seq<Token>,
    bool,
    Seq<SpecParameterInfo>,
) -> Result<Seq<SpecParameterInfo>, ManifestError> {
    |seg: Seq<Token>, is_last: bool, acc: Seq<SpecParameterInfo>|
        spec_parameters_item(seg, is_last, acc)
}

/// The parameters that the tokens between the braces of `params` declare.
pub open spec fn spec_parameters(tokens: Seq<Token>) -> Result<
    Seq<SpecParameterInfo>,
    ManifestError,
> {
    spec_fold_items(tokens, 0, Seq::empty(), spec_parameters_step())
}

/// What the entries of a module have given so far.  The submodules are
/// kept as their tokens until the module itself is complete.
pub struct SpecModuleDraft {
    pub type_: Option<Seq<char>>,
    pub loader: Option<Seq<char>>,
    pub category: Option<ConfigSubcategory>,
    pub capability: Option<SpecCapabilityInfo>,
    pub description: Option<Seq<char>>,
    pub help: Option<Seq<char>>,
    pub shortname: Option<Seq<char>>,
    pub prefix: Option<Seq<char>>,
    pub params: Option<Seq<SpecParameterInfo>>,
    pub shortcuts: Option<Seq<Seq<char>>>,
    pub submodules: Option<Seq<Token>>,
}

/// The draft of a module of which nothing was read yet.
pub open spec fn spec_empty_module() -> SpecModuleDraft {
    SpecModuleDraft {
        type_: None,
        loader: None,
        category: None,
        capability: None,
        description: None,
        help: None,
        shortname: None,
        prefix: None,
        params: None,
        shortcuts: None,
        submodules: None,
    }
}

/// What the entry `params` adds to a module.  Exactly one attribute stands
/// before its key, `#[prefix = "..."]`: the key stands at place 2.
pub open spec fn spec_params_item(seg: Seq<Token>, k: int, draft: SpecModuleDraft) -> Result<
    SpecModuleDraft,
    ManifestError,
> {
    if k == 0 {
        Err(ManifestError::ParamsWithoutPrefix)
    } else if k != 2 {
        Err(ManifestError::ExpectedPrefixAttribute)
    } else {
        match spec_group_at(seg, 1, Delimiter::Bracket) {
            None => Err(ManifestError::ExpectedBracket),
            Some(attr) => match spec_prefix_attr(attr) {
                Err(e) => Err(e),
                Ok(prefix) => match spec_group_value(seg, k, Delimiter::Brace) {
                    Err(e) => Err(e),
                    Ok(list) => match spec_parameters(list) {
                        Err(e) => Err(e),
                        Ok(params) => Ok(
                            SpecModuleDraft { prefix: Some(prefix), params: Some(params), ..draft },
                        ),
                    },
                },
            },
        }
    }
}

/// What an entry with the key `key` at place `k`, other than `type` and
/// `params`, adds to a module.
pub open spec fn spec_plain_item(
    seg: Seq<Token>,
    k: int,
    key: Seq<char>,
    draft: SpecModuleDraft,
    nested: bool,
) -> Result<SpecModuleDraft, ManifestError> {
    if key == "capability"@ {
        match spec_capability(seg, k) {
            Err(e) => Err(e),
            Ok(capability) => Ok(SpecModuleDraft { capability: Some(capability), ..draft }),
        }
    } else if key == "shortcuts"@ {
        match spec_group_value(seg, k, Delimiter::Bracket) {
            Err(e) => Err(e),
            Ok(list) => match spec_shortcut_list(list) {
                Err(e) => Err(e),
                Ok(shortcuts) => Ok(SpecModuleDraft { shortcuts: Some(shortcuts), ..draft }),
            },
        }
    } else if key == "shortname"@ {
        match spec_text_value(seg, k) {
            Err(e) => Err(e),
            Ok(text) => Ok(SpecModuleDraft { shortname: Some(text), ..draft }),
        }
    } else if key == "description"@ {
        match spec_text_value(seg, k) {
            Err(e) => Err(e),
            Ok(text) => Ok(SpecModuleDraft { description: Some(text), ..draft }),
        }
    } else if key == "help"@ {
        match spec_text_value(seg, k) {
            Err(e) => Err(e),
            Ok(text) => Ok(SpecModuleDraft { help: Some(text), ..draft }),
        }
    } else if key == "category"@ {
        match spec_category(seg, k) {
            Err(e) => Err(e),
            Ok(category) => Ok(SpecModuleDraft { category: Some(category), ..draft }),
        }
    } else if key == "submodules"@ {
        match spec_group_value(seg, k, Delimiter::Bracket) {
            Err(e) => Err(e),
            Ok(list) => if nested {
                Err(ManifestError::NestedSubmodules)
            } else {
                Ok(SpecModuleDraft { submodules: Some(list), ..draft })
            },
        }
    } else {
        Err(ManifestError::UnknownKey)
    }
}

/// What one entry of a module adds to the entries before it.  `nested`
/// says that the module is a submodule, which declares no submodules.
pub open spec fn spec_module_item(
    seg: Seq<Token>,
    is_last: bool,
    draft: SpecModuleDraft,
    nested: bool,
) -> Result<SpecModuleDraft, ManifestError> {
    let g = spec_inner_attrs_len(seg, 0) as int;
    let k = g + spec_outer_attrs_len(seg, g);
    if g > 0 {
        Err(ManifestError::GlobalAttribute)
    } else if spec_is_ident(seg, k, "type"@) {
        match spec_type_item(seg, k, is_last) {
            Err(e) => Err(e),
            Ok((type_, loader)) => Ok(
                SpecModuleDraft { type_: Some(type_), loader: Some(loader), ..draft },
            ),
        }
    } else {
        match spec_ident_at(seg, k) {
            None => Err(ManifestError::ExpectedIdent),
            Some(key) => if key == "params"@ {
                spec_params_item(seg, k, draft)
            } else {
                match spec_plain_item(seg, k, key, draft, nested) {
                    Err(e) => Err(e),
                    Ok(next) => if k > 0 {
                        Err(ManifestError::LocalAttribute)
                    } else {
                        Ok(next)
                    },
                }
            },
        }
    }
}

pub open spec fn spec_module_step(nested: bool) -> spec_fn(
    Seq<Token>,
    bool,
    SpecModuleDraft,
) -> Result<SpecModuleDraft, ManifestError> {
    |seg: Seq<Token>, is_last: bool, draft: SpecModuleDraft|
        spec_module_item(seg, is_last, draft, nested)
}

/// The module that its entries make, if none of the mandatory ones is
/// missing: the type with its loader, the capability, the category and the
/// description.
pub open spec fn spec_finish_module(draft: SpecModuleDraft) -> Result<
    SpecModuleInfo,
    ManifestError,
> {
    if draft.type_ is None {
        Err(ManifestError::MissingType)
    } else if draft.loader is None {
        Err(ManifestError::MissingLoader)
    } else if draft.capability is None {
        Err(ManifestError::MissingCapability)
    } else if draft.category is None {
        Err(ManifestError::MissingCategory)
    } else if draft.description is None {
        Err(ManifestError::MissingDescription)
    } else if draft.params is Some && draft.prefix is None {
        Err(ManifestError::ParamsWithoutPrefix)
    } else {
        Ok(
            SpecModuleInfo {
                type_: draft.type_->0,
                loader: draft.loader->0,
                category: draft.category->0,
                capability: draft.capability->0,
                description: draft.description->0,
                help: draft.help,
                shortname: draft.shortname,
                prefix: draft.prefix,
                params: draft.params,
                shortcuts: draft.shortcuts,
            },
        )
    }
}

/// The module that the tokens between the braces of a submodule declare.
pub open spec fn spec_submodule_body(tokens: Seq<Token>) -> Result<SpecModuleInfo, ManifestError> {
    match spec_fold_items(tokens, 0, spec_empty_module(), spec_module_step(true)) {
        Err(e) => Err(e),
        Ok(draft) => spec_finish_module(draft),
    }
}

/// What one entry `{ ... }` of `submodules` adds to the submodules before
/// it.
pub open spec fn spec_submodule_item(
    seg: Seq<Token>,
    is_last: bool,
    acc: Seq<SpecModuleInfo>,
) -> Result<Seq<SpecModuleInfo>, ManifestError> {
    match spec_group_at(seg, 0, Delimiter::Brace) {
        None => Err(ManifestError::ExpectedBrace),
        Some(inner) => if seg.len() != 1 {
            Err(ManifestError::ExpectedComma)
        } else {
            match spec_submodule_body(inner) {
                Err(e) => Err(e),
                Ok(m) => Ok(acc.push(m)),
            }
        },
    }
}

pub open spec fn spec_submodule_step() -> spec_fn(Seq<Token>, bool, Seq<SpecModuleInfo>) -> Result<
    Seq<SpecModuleInfo>,
    ManifestError,
> {
    |seg: Seq<Token>, is_last: bool, acc: Seq<SpecModuleInfo>|
        spec_submodule_item(seg, is_last, acc)
}

/// The submodules that the tokens between the brackets of `submodules`
/// declare.
pub open spec fn spec_submodules(tokens: Seq<Token>) -> Result<Seq<SpecModuleInfo>, ManifestError> {
    spec_fold_items(tokens, 0, Seq::empty(), spec_submodule_step())
}

/// The manifest that a list of tokens declares, or why it is refused.
pub open spec fn spec_manifest(tokens: Seq<Token>) -> Result<SpecManifest, ManifestError> {
    match spec_fold_items(tokens, 0, spec_empty_module(), spec_module_step(false)) {
        Err(e) => Err(e),
        Ok(draft) => match spec_finish_module(draft) {
            Err(e) => Err(e),
            Ok(module) => match draft.submodules {
                None => Ok(SpecManifest { module, submodules: None }),
                Some(list) => match spec_submodules(list) {
                    Err(e) => Err(e),
                    Ok(submodules) => Ok(SpecManifest { module, submodules: Some(submodules) }),
                },
            },
        },
    }
}

} // verus!

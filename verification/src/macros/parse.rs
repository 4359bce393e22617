//! Reading a manifest from its tokens.

use vstd::prelude::*;
use vstd::slice::slice_subrange;
use crate::macros::error::ManifestError;
use crate::macros::grammar::{
    spec_capability, spec_category, spec_category_of, spec_flag_attr,
    spec_fold_items, spec_group_value, spec_inner_attrs, spec_inner_attrs_len, spec_literal,
    spec_modifier_of, spec_negate_bits, spec_number, spec_outer_attrs, spec_outer_attrs_len,
    spec_prefix_attr, spec_range, spec_score, spec_section_attr, spec_section_item,
    spec_section_step, spec_segment_end, spec_shortcut_item, spec_shortcut_list,
    spec_shortcut_step, spec_signed, spec_text_value, spec_type_item, spec_type_of, Flags,
    SpecSectionDraft,
};
use crate::macros::info::{
    CapabilityInfo, Modifier, ParameterType, PrefixInfo, SectionInfo, SpecValue, Value,
};
use crate::macros::token::{
    ends_at, float_at, group_at, ident_at, int_at, is_ident, is_literal, is_punct, str_at,
    Delimiter, Token,
};
use crate::plugin::ConfigSubcategory;
use crate::text::{option_view, str_eq, strings_view};

verus! {

/// What a result stands for: the view of what was read, or the error.
pub open spec fn result_view<T: View>(r: Result<T, ManifestError>) -> Result<T::V, ManifestError> {
    match r {
        Ok(x) => Ok(x@),
        Err(e) => Err(e),
    }
}

/// The place of the first comma at or after `start`, or the end of the
/// tokens where no comma follows.
pub fn segment_end(tokens: &[Token], start: usize) -> (end: usize)
    requires
        start <= tokens@.len(),
    ensures
        end == spec_segment_end(tokens@, start as int),
        start <= end <= tokens@.len(),
{
    let mut i = start;
    while i < tokens.len() && !is_punct(tokens, i, 0, ',')
        invariant
            start <= i <= tokens@.len(),
            spec_segment_end(tokens@, i as int) == spec_segment_end(tokens@, start as int),
        decreases tokens@.len() - i,
    {
        i += 1;
    }
    i
}

/// The number of tokens that the attributes of the form `#![...]` take,
/// from place `from` on.
pub fn inner_attrs_len(seg: &[Token], from: usize) -> (len: usize)
    requires
        from <= seg@.len(),
    ensures
        len == spec_inner_attrs_len(seg@, from as int),
        from + len <= seg@.len(),
        from + len <= usize::MAX,
{
    let mut i = from;
    while is_punct(seg, i, 0, '#') && is_punct(seg, i, 1, '!') && group_at(
        seg,
        i,
        2,
        Delimiter::Bracket,
    ).is_some()
        invariant
            from <= i <= seg@.len(),
            spec_inner_attrs_len(seg@, from as int) == (i - from) + spec_inner_attrs_len(
                seg@,
                i as int,
            ),
        decreases seg@.len() - i,
    {
        i += 3;
    }
    i - from
}

/// The number of tokens that the attributes of the form `#[...]` take,
/// from place `from` on.
pub fn outer_attrs_len(seg: &[Token], from: usize) -> (len: usize)
    requires
        from <= seg@.len(),
    ensures
        len == spec_outer_attrs_len(seg@, from as int),
        from + len <= seg@.len(),
        from + len <= usize::MAX,
{
    let mut i = from;
    while is_punct(seg, i, 0, '#') && group_at(seg, i, 1, Delimiter::Bracket).is_some()
        invariant
            from <= i <= seg@.len(),
            spec_outer_attrs_len(seg@, from as int) == (i - from) + spec_outer_attrs_len(
                seg@,
                i as int,
            ),
        decreases seg@.len() - i,
    {
        i += 2;
    }
    i - from
}

/// The integer with the magnitude `magnitude`, negated where `negative`,
/// if it fits in 64 bits.
pub fn signed(magnitude: u64, negative: bool) -> (r: Option<i64>)
    ensures
        r == spec_signed(magnitude, negative),
{
    if negative {
        if magnitude == 0x8000_0000_0000_0000 {
            Some(i64::MIN)
        } else if magnitude < 0x8000_0000_0000_0000 {
            Some(-(magnitude as i64))
        } else {
            None
        }
    } else {
        if magnitude <= 0x7FFF_FFFF_FFFF_FFFF {
            Some(magnitude as i64)
        } else {
            None
        }
    }
}

/// The score with the magnitude `magnitude`, negated where `negative`, if
/// it fits in 32 bits.
pub fn score(magnitude: u64, negative: bool) -> (r: Option<i32>)
    ensures
        r == spec_score(magnitude, negative),
{
    if negative {
        if magnitude == 0x8000_0000 {
            Some(i32::MIN)
        } else if magnitude < 0x8000_0000 {
            Some(-(magnitude as i32))
        } else {
            None
        }
    } else {
        if magnitude <= 0x7FFF_FFFF {
            Some(magnitude as i32)
        } else {
            None
        }
    }
}

/// The bits of the negated number.
pub fn negate_bits(bits: u64) -> (r: u64)
    ensures
        r == spec_negate_bits(bits),
{
    bits ^ 0x8000_0000_0000_0000u64
}

/// The number at place `at + off` and the place after it.
pub fn number(seg: &[Token], at: usize, off: usize) -> (r: Result<(Value, usize), ManifestError>)
    requires
        off < 16,
    ensures
        match r {
            Ok((v, next)) => spec_number(seg@, at + off) == Ok::<_, ManifestError>(
                (v@, next as int),
            ) && next <= seg@.len(),
            Err(e) => spec_number(seg@, at + off) == Err::<(SpecValue, int), _>(e),
        },
{
    let negative = is_punct(seg, at, off, '-');
    let shift = if negative {
        off + 1
    } else {
        off
    };
    match int_at(seg, at, shift) {
        Some(magnitude) => match signed(magnitude, negative) {
            Some(n) => Ok((Value::Int(n), at + shift + 1)),
            None => Err(ManifestError::IntegerOutOfRange),
        },
        None => match float_at(seg, at, shift) {
            Some(bits) => Ok(
                (
                    Value::Float(
                        if negative {
                            negate_bits(bits)
                        } else {
                            bits
                        },
                    ),
                    at + shift + 1,
                ),
            ),
            None => Err(ManifestError::ExpectedNumber),
        },
    }
}

/// The value at place `at + off` and the place after it.
pub fn literal(seg: &[Token], at: usize, off: usize) -> (r: Result<(Value, usize), ManifestError>)
    requires
        off < 16,
    ensures
        match r {
            Ok((v, next)) => spec_literal(seg@, at + off) == Ok::<_, ManifestError>(
                (v@, next as int),
            ) && next <= seg@.len(),
            Err(e) => spec_literal(seg@, at + off) == Err::<(SpecValue, int), _>(e),
        },
{
    match str_at(seg, at, off) {
        Some(s) => Ok((Value::Str(s.clone()), at + off + 1)),
        None => if is_ident(seg, at, off, "true") {
            Ok((Value::Bool(true), at + off + 1))
        } else if is_ident(seg, at, off, "false") {
            Ok((Value::Bool(false), at + off + 1))
        } else {
            match number(seg, at, off) {
                Ok(found) => Ok(found),
                Err(e) => match e {
                    ManifestError::ExpectedNumber => Err(ManifestError::ExpectedLiteral),
                    _ => Err(e),
                },
            }
        },
    }
}

/// The text of an entry `key: "text"` whose key stands at place `k`.
pub fn text_value(seg: &[Token], k: usize) -> (r: Result<String, ManifestError>)
    ensures
        result_view(r) == spec_text_value(seg@, k as int),
{
    if !is_punct(seg, k, 1, ':') {
        Err(ManifestError::ExpectedColon)
    } else {
        match str_at(seg, k, 2) {
            None => Err(ManifestError::ExpectedStr),
            Some(s) => if !ends_at(seg, k, 3) {
                Err(ManifestError::ExpectedComma)
            } else {
                Ok(s.clone())
            },
        }
    }
}

/// The tokens of the group of an entry `key: [...]` or `key: {...}` whose
/// key stands at place `k`.
pub fn group_value<'a>(seg: &'a [Token], k: usize, d: Delimiter) -> (r: Result<
    &'a Vec<Token>,
    ManifestError,
>)
    ensures
        match r {
            Ok(inner) => spec_group_value(seg@, k as int, d) == Ok::<_, ManifestError>(inner@),
            Err(e) => spec_group_value(seg@, k as int, d) == Err::<Seq<Token>, _>(e),
        },
{
    if !is_punct(seg, k, 1, ':') {
        Err(ManifestError::ExpectedColon)
    } else {
        match group_at(seg, k, 2, d) {
            None => Err(
                match d {
                    Delimiter::Brace => ManifestError::ExpectedBrace,
                    Delimiter::Bracket => ManifestError::ExpectedBracket,
                    Delimiter::Parenthesis => ManifestError::ExpectedParenthesis,
                },
            ),
            Some(inner) => if !ends_at(seg, k, 3) {
                Err(ManifestError::ExpectedComma)
            } else {
                Ok(inner)
            },
        }
    }
}

impl CapabilityInfo {
    /// Reads an entry `capability: "name" @ score` whose key stands at
    /// place `k`.
    pub fn parse(seg: &[Token], k: usize) -> (r: Result<CapabilityInfo, ManifestError>)
        ensures
            result_view(r) == spec_capability(seg@, k as int),
    {
        if !is_punct(seg, k, 1, ':') {
            Err(ManifestError::ExpectedColon)
        } else {
            match str_at(seg, k, 2) {
                None => Err(ManifestError::ExpectedStr),
                Some(capability) => if !is_punct(seg, k, 3, '@') {
                    Err(ManifestError::ExpectedAt)
                } else {
                    let negative = is_punct(seg, k, 4, '-');
                    let shift: usize = if negative {
                        5
                    } else {
                        4
                    };
                    match int_at(seg, k, shift) {
                        None => Err(ManifestError::ExpectedInt),
                        Some(magnitude) => match score(magnitude, negative) {
                            None => Err(ManifestError::ScoreOutOfRange),
                            Some(score) => if !ends_at(seg, k, shift + 1) {
                                Err(ManifestError::ExpectedComma)
                            } else {
                                Ok(CapabilityInfo { capability: capability.clone(), score })
                            },
                        },
                    }
                },
            }
        }
    }
}

/// The subcategory of the host with the name `name`.
pub fn category_of(name: &str) -> (r: Option<ConfigSubcategory>)
    ensures
        r == spec_category_of(name@),
{
    if str_eq(name, "HIDDEN") {
        Some(ConfigSubcategory::HIDDEN)
    } else if str_eq(name, "UNKNOWN") {
        Some(ConfigSubcategory::UNKNOWN)
    } else if str_eq(name, "INTERFACE_GENERAL") {
        Some(ConfigSubcategory::INTERFACE_GENERAL)
    } else if str_eq(name, "INTERFACE_MAIN") {
        Some(ConfigSubcategory::INTERFACE_MAIN)
    } else if str_eq(name, "INTERFACE_CONTROL") {
        Some(ConfigSubcategory::INTERFACE_CONTROL)
    } else if str_eq(name, "INTERFACE_HOTKEYS") {
        Some(ConfigSubcategory::INTERFACE_HOTKEYS)
    } else if str_eq(name, "AUDIO_GENERAL") {
        Some(ConfigSubcategory::AUDIO_GENERAL)
    } else if str_eq(name, "AUDIO_AOUT") {
        Some(ConfigSubcategory::AUDIO_AOUT)
    } else if str_eq(name, "AUDIO_AFILTER") {
        Some(ConfigSubcategory::AUDIO_AFILTER)
    } else if str_eq(name, "AUDIO_VISUAL") {
        Some(ConfigSubcategory::AUDIO_VISUAL)
    } else if str_eq(name, "AUDIO_RESAMPLER") {
        Some(ConfigSubcategory::AUDIO_RESAMPLER)
    } else if str_eq(name, "VIDEO_GENERAL") {
        Some(ConfigSubcategory::VIDEO_GENERAL)
    } else if str_eq(name, "VIDEO_VOUT") {
        Some(ConfigSubcategory::VIDEO_VOUT)
    } else if str_eq(name, "VIDEO_VFILTER") {
        Some(ConfigSubcategory::VIDEO_VFILTER)
    } else if str_eq(name, "VIDEO_SUBPIC") {
        Some(ConfigSubcategory::VIDEO_SUBPIC)
    } else if str_eq(name, "VIDEO_SPLITTER") {
        Some(ConfigSubcategory::VIDEO_SPLITTER)
    } else if str_eq(name, "INPUT_GENERAL") {
        Some(ConfigSubcategory::INPUT_GENERAL)
    } else if str_eq(name, "INPUT_ACCESS") {
        Some(ConfigSubcategory::INPUT_ACCESS)
    } else if str_eq(name, "INPUT_DEMUX") {
        Some(ConfigSubcategory::INPUT_DEMUX)
    } else if str_eq(name, "INPUT_VCODEC") {
        Some(ConfigSubcategory::INPUT_VCODEC)
    } else if str_eq(name, "INPUT_ACODEC") {
        Some(ConfigSubcategory::INPUT_ACODEC)
    } else if str_eq(name, "INPUT_SCODEC") {
        Some(ConfigSubcategory::INPUT_SCODEC)
    } else if str_eq(name, "INPUT_STREAM_FILTER") {
        Some(ConfigSubcategory::INPUT_STREAM_FILTER)
    } else if str_eq(name, "SOUT_GENERAL") {
        Some(ConfigSubcategory::SOUT_GENERAL)
    } else if str_eq(name, "SOUT_STREAM") {
        Some(ConfigSubcategory::SOUT_STREAM)
    } else if str_eq(name, "SOUT_MUX") {
        Some(ConfigSubcategory::SOUT_MUX)
    } else if str_eq(name, "SOUT_ACO") {
        Some(ConfigSubcategory::SOUT_ACO)
    } else if str_eq(name, "SOUT_PACKETIZER") {
        Some(ConfigSubcategory::SOUT_PACKETIZER)
    } else if str_eq(name, "SOUT_VOD") {
        Some(ConfigSubcategory::SOUT_VOD)
    } else if str_eq(name, "SOUT_RENDERER") {
        Some(ConfigSubcategory::SOUT_RENDERER)
    } else if str_eq(name, "ADVANCED_MISC") {
        Some(ConfigSubcategory::ADVANCED_MISC)
    } else if str_eq(name, "ADVANCED_NETWORK") {
        Some(ConfigSubcategory::ADVANCED_NETWORK)
    } else if str_eq(name, "PLAYLIST_GENERAL") {
        Some(ConfigSubcategory::PLAYLIST_GENERAL)
    } else if str_eq(name, "PLAYLIST_SD") {
        Some(ConfigSubcategory::PLAYLIST_SD)
    } else if str_eq(name, "PLAYLIST_EXPORT") {
        Some(ConfigSubcategory::PLAYLIST_EXPORT)
    } else {
        None
    }
}

/// Reads an entry `category: NAME` whose key stands at place `k`.
pub fn category(seg: &[Token], k: usize) -> (r: Result<ConfigSubcategory, ManifestError>)
    ensures
        r == spec_category(seg@, k as int),
{
    if !is_punct(seg, k, 1, ':') {
        Err(ManifestError::ExpectedColon)
    } else {
        match ident_at(seg, k, 2) {
            None => Err(ManifestError::ExpectedIdent),
            Some(name) => match category_of(name.as_str()) {
                None => Err(ManifestError::UnknownCategory),
                Some(category) => if !ends_at(seg, k, 3) {
                    Err(ManifestError::ExpectedComma)
                } else {
                    Ok(category)
                },
            },
        }
    }
}

/// Reads an entry `type: Type (Loader)` whose key stands at place `k`.
pub fn type_item(seg: &[Token], k: usize, is_last: bool) -> (r: Result<
    (String, String),
    ManifestError,
>)
    ensures
        match r {
            Ok((type_, loader)) => spec_type_item(seg@, k as int, is_last) == Ok::<
                _,
                ManifestError,
            >((type_@, loader@)),
            Err(e) => spec_type_item(seg@, k as int, is_last) == Err::<(Seq<char>, Seq<char>), _>(
                e,
            ),
        },
{
    if !is_punct(seg, k, 1, ':') {
        Err(ManifestError::ExpectedColon)
    } else {
        match ident_at(seg, k, 2) {
            None => Err(ManifestError::ExpectedIdent),
            Some(type_) => match group_at(seg, k, 3, Delimiter::Parenthesis) {
                None => Err(ManifestError::ExpectedParenthesis),
                Some(inner) => match ident_at(inner.as_slice(), 0, 0) {
                    None => Err(ManifestError::ExpectedIdent),
                    Some(loader) => if inner.len() != 1 {
                        Err(ManifestError::UnexpectedToken)
                    } else if !ends_at(seg, k, 4) || is_last {
                        Err(ManifestError::ExpectedComma)
                    } else {
                        Ok((type_.clone(), loader.clone()))
                    },
                },
            },
        }
    }
}

impl PrefixInfo {
    /// Reads the tokens of an attribute `#[prefix = "..."]`.
    pub fn parse(attr: &[Token]) -> (r: Result<PrefixInfo, ManifestError>)
        ensures
            result_view(r) == spec_prefix_attr(attr@),
    {
        if !is_ident(attr, 0, 0, "prefix") {
            Err(ManifestError::ExpectedPrefixAttribute)
        } else if !(attr.len() == 3 && is_punct(attr, 0, 1, '=') && is_literal(attr, 0, 2)) {
            Err(ManifestError::ExpectedNameValue)
        } else {
            match str_at(attr, 0, 2) {
                None => Err(ManifestError::ExpectedStr),
                Some(prefix) => Ok(PrefixInfo { prefix: prefix.clone() }),
            }
        }
    }
}

/// Reads the shortcuts of a list `"a", "b"`.
pub fn parse_shortcuts(tokens: &[Token]) -> (r: Result<Vec<String>, ManifestError>)
    ensures
        match r {
            Ok(shortcuts) => spec_shortcut_list(tokens@) == Ok::<_, ManifestError>(
                strings_view(shortcuts@),
            ),
            Err(e) => spec_shortcut_list(tokens@) == Err::<Seq<Seq<char>>, _>(e),
        },
{
    let mut shortcuts: Vec<String> = Vec::new();
    let mut start: usize = 0;
    assert(strings_view(shortcuts@) =~= Seq::<Seq<char>>::empty());
    while start < tokens.len()
        invariant
            start <= tokens@.len(),
            spec_fold_items(tokens@, start as int, strings_view(shortcuts@), spec_shortcut_step())
                == spec_shortcut_list(tokens@),
        decreases tokens@.len() - start,
    {
        let end = segment_end(tokens, start);
        let seg = slice_subrange(tokens, start, end);
        let ghost before = strings_view(shortcuts@);
        match str_at(seg, 0, 0) {
            None => {
                return Err(ManifestError::ExpectedStr);
            },
            Some(s) => {
                if seg.len() != 1 {
                    return Err(ManifestError::ExpectedComma);
                }
                shortcuts.push(s.clone());
                assert(strings_view(shortcuts@) =~= before.push(s@));
            },
        }
        if end < tokens.len() {
            start = end + 1;
        } else {
            start = tokens.len();
        }
    }
    Ok(shortcuts)
}

/// What the entries of a section have given so far.
pub struct SectionDraft {
    pub name: Option<String>,
    pub description: Option<String>,
}

impl View for SectionDraft {
    type V = SpecSectionDraft;

    open spec fn view(&self) -> SpecSectionDraft {
        SpecSectionDraft {
            name: option_view(self.name),
            description: option_view(self.description),
        }
    }
}

/// Reads one entry `name = "..."` or `description = "..."` of a section.
pub fn section_item(seg: &[Token], is_last: bool, draft: SectionDraft) -> (r: Result<
    SectionDraft,
    ManifestError,
>)
    ensures
        result_view(r) == spec_section_item(seg@, is_last, draft@),
{
    match ident_at(seg, 0, 0) {
        None => Err(ManifestError::ExpectedIdent),
        Some(key) => {
            let is_name = str_eq(key.as_str(), "name");
            if !is_name && !str_eq(key.as_str(), "description") {
                Err(ManifestError::UnknownKey)
            } else if !is_punct(seg, 0, 1, '=') {
                Err(ManifestError::ExpectedEquals)
            } else {
                match str_at(seg, 0, 2) {
                    None => Err(ManifestError::ExpectedStr),
                    Some(s) => if seg.len() != 3 {
                        Err(ManifestError::ExpectedComma)
                    } else if is_name {
                        Ok(SectionDraft { name: Some(s.clone()), description: draft.description })
                    } else {
                        Ok(SectionDraft { name: draft.name, description: Some(s.clone()) })
                    },
                }
            }
        },
    }
}

/// Reads the entries between the parentheses of a section.
pub fn section_items(args: &[Token]) -> (r: Result<SectionDraft, ManifestError>)
    ensures
        result_view(r) == spec_fold_items(
            args@,
            0,
            SpecSectionDraft { name: None, description: None },
            spec_section_step(),
        ),
{
    let mut draft = SectionDraft { name: None, description: None };
    let mut start: usize = 0;
    while start < args.len()
        invariant
            start <= args@.len(),
            spec_fold_items(args@, start as int, draft@, spec_section_step()) == spec_fold_items(
                args@,
                0,
                SpecSectionDraft { name: None, description: None },
                spec_section_step(),
            ),
        decreases args@.len() - start,
    {
        let end = segment_end(args, start);
        let seg = slice_subrange(args, start, end);
        match section_item(seg, end >= args.len(), draft) {
            Err(e) => {
                return Err(e);
            },
            Ok(next) => {
                draft = next;
            },
        }
        if end < args.len() {
            start = end + 1;
        } else {
            start = args.len();
        }
    }
    Ok(draft)
}

impl SectionInfo {
    /// Reads the tokens of an attribute
    /// `#![section(name = "...", description = "...")]`.
    pub fn parse(attr: &[Token]) -> (r: Result<SectionInfo, ManifestError>)
        ensures
            result_view(r) == spec_section_attr(attr@),
    {
        if !is_ident(attr, 0, 0, "section") {
            return Err(ManifestError::OnlySectionAllowed);
        }
        let args = match group_at(attr, 0, 1, Delimiter::Parenthesis) {
            None => {
                return Err(ManifestError::ExpectedParenthesis);
            },
            Some(args) => args.as_slice(),
        };
        if attr.len() != 2 {
            return Err(ManifestError::UnexpectedToken);
        }
        match section_items(args) {
            Err(e) => Err(e),
            Ok(draft) => match draft.name {
                None => Err(ManifestError::MissingName),
                Some(name) => Ok(SectionInfo { name, description: draft.description }),
            },
        }
    }
}

/// The section that the attributes of the form `#![...]` from the start of
/// `seg` up to place `n` declare.
pub fn inner_attrs(seg: &[Token], n: usize) -> (r: Result<Option<SectionInfo>, ManifestError>)
    requires
        n <= seg@.len(),
    ensures
        match r {
            Ok(Some(section)) => spec_inner_attrs(seg@, 0, n as int, None) == Ok::<
                _,
                ManifestError,
            >(Some(section@)),
            Ok(None) => spec_inner_attrs(seg@, 0, n as int, None) == Ok::<_, ManifestError>(
                None::<crate::macros::info::SpecSectionInfo>,
            ),
            Err(e) => spec_inner_attrs(seg@, 0, n as int, None) == Err::<
                Option<crate::macros::info::SpecSectionInfo>,
                _,
            >(e),
        },
{
    let mut section: Option<SectionInfo> = None;
    let ghost goal = spec_inner_attrs(seg@, 0, n as int, None);
    let mut i: usize = 0;
    while i < n
        invariant
            i <= n,
            n <= seg@.len(),
            goal == spec_inner_attrs(seg@, 0, n as int, None),
            spec_inner_attrs(
                seg@,
                i as int,
                n as int,
                match section {
                    Some(s) => Some(s@),
                    None => None,
                },
            ) == goal,
        decreases n - i,
    {
        match group_at(seg, i, 2, Delimiter::Bracket) {
            None => {
                return Err(ManifestError::ExpectedBracket);
            },
            Some(attr) => match SectionInfo::parse(attr.as_slice()) {
                Err(e) => {
                    return Err(e);
                },
                Ok(s) => {
                    section = Some(s);
                },
            },
        }
        if n - i >= 3 {
            i += 3;
        } else {
            i = n;
        }
    }
    Ok(section)
}

/// The modifier with the name `name`.
pub fn modifier_of(name: &str) -> (r: Option<Modifier>)
    ensures
        r == spec_modifier_of(name@),
{
    if str_eq(name, "rgb") {
        Some(Modifier::Rgb)
    } else if str_eq(name, "font") {
        Some(Modifier::Font)
    } else if str_eq(name, "savefile") {
        Some(Modifier::Savefile)
    } else if str_eq(name, "loadfile") {
        Some(Modifier::Loadfile)
    } else if str_eq(name, "password") {
        Some(Modifier::Password)
    } else if str_eq(name, "directory") {
        Some(Modifier::Directory)
    } else {
        None
    }
}

/// The type of a parameter with the name `name`.
pub fn type_of(name: &str) -> (r: Option<ParameterType>)
    ensures
        r == spec_type_of(name@),
{
    if str_eq(name, "i64") {
        Some(ParameterType::I64)
    } else if str_eq(name, "f32") {
        Some(ParameterType::F32)
    } else if str_eq(name, "bool") {
        Some(ParameterType::Bool)
    } else if str_eq(name, "str") {
        Some(ParameterType::Str)
    } else {
        None
    }
}

/// Reads the tokens of one attribute `#[...]` before a parameter.
pub fn flag_attr(attr: &[Token], acc: Flags) -> (r: Result<Flags, ManifestError>)
    ensures
        r == spec_flag_attr(attr@, acc),
{
    match ident_at(attr, 0, 0) {
        None => Err(ManifestError::UnsupportedAttribute),
        Some(name) => if str_eq(name.as_str(), "deprecated") {
            Ok(Flags { modifier: acc.modifier, deprecated: true })
        } else {
            match modifier_of(name.as_str()) {
                None => Err(ManifestError::UnsupportedAttribute),
                Some(modifier) => if attr.len() != 1 {
                    Err(ManifestError::AttributeTakesNoArgument)
                } else if acc.modifier.is_some() {
                    Err(ManifestError::ConflictingModifiers)
                } else {
                    Ok(Flags { modifier: Some(modifier), deprecated: acc.deprecated })
                },
            }
        },
    }
}

/// What the attributes of the form `#[...]` from place `from` up to place
/// `n` say of a parameter.
pub fn outer_attrs(seg: &[Token], from: usize, n: usize) -> (r: Result<Flags, ManifestError>)
    requires
        from <= n <= seg@.len(),
    ensures
        r == spec_outer_attrs(
            seg@,
            from as int,
            n as int,
            Flags { modifier: None, deprecated: false },
        ),
{
    let mut flags = Flags { modifier: None, deprecated: false };
    let ghost goal = spec_outer_attrs(seg@, from as int, n as int, flags);
    let mut i: usize = from;
    while i < n
        invariant
            from <= i <= n,
            n <= seg@.len(),
            goal == spec_outer_attrs(
                seg@,
                from as int,
                n as int,
                Flags { modifier: None, deprecated: false },
            ),
            spec_outer_attrs(seg@, i as int, n as int, flags) == goal,
        decreases n - i,
    {
        match group_at(seg, i, 1, Delimiter::Bracket) {
            None => {
                return Err(ManifestError::ExpectedBracket);
            },
            Some(attr) => match flag_attr(attr.as_slice(), flags) {
                Err(e) => {
                    return Err(e);
                },
                Ok(next) => {
                    flags = next;
                },
            },
        }
        if n - i >= 2 {
            i += 2;
        } else {
            i = n;
        }
    }
    Ok(flags)
}

/// Reads an entry `range: from..=to`.
pub fn range(seg: &[Token]) -> (r: Result<(Value, Value), ManifestError>)
    ensures
        match r {
            Ok((from, to)) => spec_range(seg@) == Ok::<_, ManifestError>((from@, to@)),
            Err(e) => spec_range(seg@) == Err::<(SpecValue, SpecValue), _>(e),
        },
{
    if !is_punct(seg, 0, 1, ':') {
        Err(ManifestError::ExpectedColon)
    } else if is_punct(seg, 0, 2, '.') {
        Err(ManifestError::RangeNotClosed)
    } else {
        match number(seg, 0, 2) {
            Err(e) => Err(
                match e {
                    ManifestError::ExpectedNumber => ManifestError::ExpectedRange,
                    _ => e,
                },
            ),
            Ok((from, j)) => if !(is_punct(seg, j, 0, '.') && is_punct(seg, j, 1, '.')) {
                Err(ManifestError::ExpectedRange)
            } else if !is_punct(seg, j, 2, '=') {
                Err(ManifestError::RangeNotClosed)
            } else {
                match number(seg, j, 3) {
                    Err(e) => Err(
                        match e {
                            ManifestError::ExpectedNumber => ManifestError::RangeNotClosed,
                            _ => e,
                        },
                    ),
                    Ok((to, end)) => if seg.len() != end {
                        Err(ManifestError::ExpectedComma)
                    } else {
                        Ok((from, to))
                    },
                }
            },
        }
    }
}

} // verus!

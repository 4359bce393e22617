//! Reading parameters, modules and whole manifests from their tokens.

use vstd::prelude::*;
use vstd::slice::slice_subrange;
use crate::macros::error::ManifestError;
use crate::macros::grammar::{
    spec_empty_module, spec_finish_module, spec_finish_parameter, spec_fold_items, spec_manifest,
    spec_modifier_of, spec_module_item, spec_module_step, spec_parameter, spec_parameter_item,
    spec_parameter_step, spec_parameters, spec_parameters_step, spec_params_item,
    spec_plain_item, spec_submodule_body, spec_submodule_item, spec_submodule_step,
    spec_submodules, Flags, SpecModuleDraft, SpecParameterDraft,
};
use crate::macros::info::{
    params_view, prefix_view, submodules_view, CapabilityInfo, Manifest, Modifier, ModuleInfo,
    ParameterInfo, ParameterType, PrefixInfo, SectionInfo, SpecModuleInfo, SpecParameterInfo,
    SpecSectionInfo, SubmoduleInfo, Value,
};
use crate::macros::parse::{
    category, group_value, inner_attrs, inner_attrs_len, literal, modifier_of, outer_attrs,
    outer_attrs_len, parse_shortcuts, range, result_view, segment_end, text_value, type_item,
    type_of,
};
use crate::macros::token::{ends_at, group_at, ident_at, is_ident, is_punct, Delimiter, Token};
use crate::plugin::ConfigSubcategory;
use crate::text::{option_view, str_eq, strings_view};

verus! {

/// What the entries between the braces of a parameter have given so far.
pub struct ParameterDraft {
    pub default_: Option<Value>,
    pub range: Option<(Value, Value)>,
    pub text: Option<String>,
    pub long_text: Option<String>,
}

impl View for ParameterDraft {
    type V = SpecParameterDraft;

    open spec fn view(&self) -> SpecParameterDraft {
        SpecParameterDraft {
            default_: match self.default_ {
                Some(v) => Some(v@),
                None => None,
            },
            range: match self.range {
                Some((from, to)) => Some((from@, to@)),
                None => None,
            },
            text: option_view(self.text),
            long_text: option_view(self.long_text),
        }
    }
}

/// Reads one entry between the braces of a parameter.
pub fn parameter_item(seg: &[Token], is_last: bool, draft: ParameterDraft) -> (r: Result<
    ParameterDraft,
    ManifestError,
>)
    ensures
        result_view(r) == spec_parameter_item(seg@, is_last, draft@),
{
    match ident_at(seg, 0, 0) {
        None => Err(ManifestError::ExpectedIdent),
        Some(key) => if str_eq(key.as_str(), "default") {
            if !is_punct(seg, 0, 1, ':') {
                Err(ManifestError::ExpectedColon)
            } else {
                match literal(seg, 0, 2) {
                    Err(e) => Err(e),
                    Ok((value, end)) => if seg.len() != end || is_last {
                        Err(ManifestError::ExpectedComma)
                    } else {
                        Ok(
                            ParameterDraft {
                                default_: Some(value),
                                range: draft.range,
                                text: draft.text,
                                long_text: draft.long_text,
                            },
                        )
                    },
                }
            }
        } else if str_eq(key.as_str(), "range") {
            match range(seg) {
                Err(e) => Err(e),
                Ok(range) => Ok(
                    ParameterDraft {
                        default_: draft.default_,
                        range: Some(range),
                        text: draft.text,
                        long_text: draft.long_text,
                    },
                ),
            }
        } else if str_eq(key.as_str(), "text") {
            match text_value(seg, 0) {
                Err(e) => Err(e),
                Ok(text) => Ok(
                    ParameterDraft {
                        default_: draft.default_,
                        range: draft.range,
                        text: Some(text),
                        long_text: draft.long_text,
                    },
                ),
            }
        } else if str_eq(key.as_str(), "long_text") {
            match text_value(seg, 0) {
                Err(e) => Err(e),
                Ok(text) => Ok(
                    ParameterDraft {
                        default_: draft.default_,
                        range: draft.range,
                        text: draft.text,
                        long_text: Some(text),
                    },
                ),
            }
        } else {
            Err(ManifestError::UnknownKey)
        },
    }
}

/// Reads the entries between the braces of a parameter.
pub fn parameter_items(body: &[Token]) -> (r: Result<ParameterDraft, ManifestError>)
    ensures
        result_view(r) == spec_fold_items(
            body@,
            0,
            SpecParameterDraft { default_: None, range: None, text: None, long_text: None },
            spec_parameter_step(),
        ),
{
    let mut draft = ParameterDraft { default_: None, range: None, text: None, long_text: None };
    let mut start: usize = 0;
    while start < body.len()
        invariant
            start <= body@.len(),
            spec_fold_items(body@, start as int, draft@, spec_parameter_step()) == spec_fold_items(
                body@,
                0,
                SpecParameterDraft { default_: None, range: None, text: None, long_text: None },
                spec_parameter_step(),
            ),
        decreases body@.len() - start,
    {
        let end = segment_end(body, start);
        let seg = slice_subrange(body, start, end);
        match parameter_item(seg, end >= body.len(), draft) {
            Err(e) => {
                return Err(e);
            },
            Ok(next) => {
                draft = next;
            },
        }
        if end < body.len() {
            start = end + 1;
        } else {
            start = body.len();
        }
    }
    Ok(draft)
}

/// Whether a value can be the default of a parameter of type `t`.
pub fn has_type(value: &Value, t: ParameterType) -> (r: bool)
    ensures
        r == value@.has_type(t),
{
    match value {
        Value::Int(_) => t == ParameterType::I64,
        Value::Float(_) => t == ParameterType::F32,
        Value::Bool(_) => t == ParameterType::Bool,
        Value::Str(_) => t == ParameterType::Str,
    }
}

/// The view of an optional section.
pub open spec fn section_view(section: Option<SectionInfo>) -> Option<SpecSectionInfo> {
    match section {
        Some(s) => Some(s@),
        None => None,
    }
}

/// Makes a parameter of its name, its type, its attributes and the entries
/// between its braces, if they are complete and fit together.
pub fn finish_parameter(
    name: String,
    type_: ParameterType,
    section: Option<SectionInfo>,
    flags: Flags,
    draft: ParameterDraft,
) -> (r: Result<ParameterInfo, ManifestError>)
    ensures
        result_view(r) == spec_finish_parameter(name@, type_, section_view(section), flags, draft@),
        r matches Ok(p) ==> p@.valid(),
{
    let default_ = match draft.default_ {
        None => {
            return Err(ManifestError::MissingDefault);
        },
        Some(v) => v,
    };
    let text = match draft.text {
        None => {
            return Err(ManifestError::MissingText);
        },
        Some(t) => t,
    };
    let long_text = match draft.long_text {
        None => {
            return Err(ManifestError::MissingLongText);
        },
        Some(t) => t,
    };
    if !has_type(&default_, type_) {
        return Err(ManifestError::DefaultTypeMismatch);
    }
    match &draft.range {
        Some((from, to)) => {
            if type_ != ParameterType::I64 && type_ != ParameterType::F32 {
                return Err(ManifestError::RangeOnNonNumeric);
            }
            if !(has_type(from, type_) && has_type(to, type_)) {
                return Err(ManifestError::RangeTypeMismatch);
            }
        },
        None => {},
    }
    match flags.modifier {
        Some(modifier) => {
            let wanted = if modifier == Modifier::Rgb {
                ParameterType::I64
            } else {
                ParameterType::Str
            };
            if type_ != wanted {
                return Err(ManifestError::ModifierTypeMismatch);
            }
            if modifier == Modifier::Rgb && draft.range.is_some() {
                return Err(ManifestError::RgbWithRange);
            }
        },
        None => {},
    }
    Ok(
        ParameterInfo {
            name,
            type_,
            range: draft.range,
            default_,
            text,
            long_text,
            prefix: None,
            section,
            modifier: flags.modifier,
            deprecated: flags.deprecated,
        },
    )
}

/// Whether the attribute with the name `name` stands on the parameter `p`.
pub open spec fn spec_has_local_attr(p: SpecParameterInfo, name: Seq<char>) -> bool {
    if name == "deprecated"@ {
        p.deprecated
    } else {
        p.modifier is Some && spec_modifier_of(name) == p.modifier
    }
}

impl ParameterInfo {
    /// Reads one entry of `params`: the attributes of a parameter, its
    /// name, a colon, its type, and its entries between braces.
    pub fn parse(seg: &[Token]) -> (r: Result<ParameterInfo, ManifestError>)
        ensures
            result_view(r) == spec_parameter(seg@),
            r matches Ok(p) ==> p@.valid(),
    {
        let g = inner_attrs_len(seg, 0);
        let k = g + outer_attrs_len(seg, g);
        let section = match inner_attrs(seg, g) {
            Err(e) => {
                return Err(e);
            },
            Ok(section) => section,
        };
        let flags = match outer_attrs(seg, g, k) {
            Err(e) => {
                return Err(e);
            },
            Ok(flags) => flags,
        };
        let name = match ident_at(seg, k, 0) {
            None => {
                return Err(ManifestError::ExpectedIdent);
            },
            Some(name) => name,
        };
        if !is_punct(seg, k, 1, ':') {
            return Err(ManifestError::ExpectedColon);
        }
        let type_ident = match ident_at(seg, k, 2) {
            None => {
                return Err(ManifestError::ExpectedIdent);
            },
            Some(type_ident) => type_ident,
        };
        let type_ = match type_of(type_ident.as_str()) {
            None => {
                return Err(ManifestError::UnsupportedType);
            },
            Some(type_) => type_,
        };
        let body = match group_at(seg, k, 3, Delimiter::Brace) {
            None => {
                return Err(ManifestError::ExpectedBrace);
            },
            Some(body) => body,
        };
        if !ends_at(seg, k, 4) {
            return Err(ManifestError::ExpectedComma);
        }
        match parameter_items(body.as_slice()) {
            Err(e) => Err(e),
            Ok(draft) => finish_parameter(name.clone(), type_, section, flags, draft),
        }
    }

    /// Whether the attribute with the name `name` stands on the parameter:
    /// `deprecated`, or a modifier.
    pub fn has_local_attr(&self, name: &str) -> (r: bool)
        ensures
            r == spec_has_local_attr(self@, name@),
    {
        if str_eq(name, "deprecated") {
            self.deprecated
        } else {
            match self.modifier {
                None => false,
                Some(own) => match modifier_of(name) {
                    None => false,
                    Some(asked) => asked == own,
                },
            }
        }
    }
}

/// Reads the parameters between the braces of `params`.
pub fn parse_parameters(tokens: &[Token]) -> (r: Result<Vec<ParameterInfo>, ManifestError>)
    ensures
        match r {
            Ok(params) => spec_parameters(tokens@) == Ok::<_, ManifestError>(params_view(params@))
                && forall|i: int| 0 <= i < params@.len() ==> (#[trigger] params@[i])@.valid(),
            Err(e) => spec_parameters(tokens@) == Err::<Seq<SpecParameterInfo>, _>(e),
        },
{
    let mut params: Vec<ParameterInfo> = Vec::new();
    let mut start: usize = 0;
    assert(params_view(params@) =~= Seq::<SpecParameterInfo>::empty());
    while start < tokens.len()
        invariant
            start <= tokens@.len(),
            forall|i: int| 0 <= i < params@.len() ==> (#[trigger] params@[i])@.valid(),
            spec_fold_items(tokens@, start as int, params_view(params@), spec_parameters_step())
                == spec_parameters(tokens@),
        decreases tokens@.len() - start,
    {
        let end = segment_end(tokens, start);
        let seg = slice_subrange(tokens, start, end);
        let ghost before = params_view(params@);
        match ParameterInfo::parse(seg) {
            Err(e) => {
                return Err(e);
            },
            Ok(p) => {
                let ghost view = p@;
                params.push(p);
                assert(params_view(params@) =~= before.push(view));
            },
        }
        if end < tokens.len() {
            start = end + 1;
        } else {
            start = tokens.len();
        }
    }
    Ok(params)
}

/// What the entries of a module have given so far.
pub struct ModuleDraft<'a> {
    pub type_: Option<String>,
    pub loader: Option<String>,
    pub category: Option<ConfigSubcategory>,
    pub capability: Option<CapabilityInfo>,
    pub description: Option<String>,
    pub help: Option<String>,
    pub shortname: Option<String>,
    pub prefix: Option<PrefixInfo>,
    pub params: Option<Vec<ParameterInfo>>,
    pub shortcuts: Option<Vec<String>>,
    pub submodules: Option<&'a Vec<Token>>,
}

impl<'a> View for ModuleDraft<'a> {
    type V = SpecModuleDraft;

    open spec fn view(&self) -> SpecModuleDraft {
        SpecModuleDraft {
            type_: option_view(self.type_),
            loader: option_view(self.loader),
            category: self.category,
            capability: match self.capability {
                Some(c) => Some(c@),
                None => None,
            },
            description: option_view(self.description),
            help: option_view(self.help),
            shortname: option_view(self.shortname),
            prefix: prefix_view(self.prefix),
            params: match self.params {
                Some(v) => Some(params_view(v@)),
                None => None,
            },
            shortcuts: match self.shortcuts {
                Some(v) => Some(strings_view(v@)),
                None => None,
            },
            submodules: match self.submodules {
                Some(v) => Some(v@),
                None => None,
            },
        }
    }
}

impl<'a> ModuleDraft<'a> {
    /// Every parameter read so far is valid.
    pub open spec fn params_valid(&self) -> bool {
        self.params matches Some(params) ==> forall|i: int|
            0 <= i < params@.len() ==> (#[trigger] params@[i])@.valid()
    }
}

/// Reads the entry `params` of a module, whose key stands at place `k`.
pub fn params_item<'a>(seg: &'a [Token], k: usize, draft: ModuleDraft<'a>) -> (r: Result<
    ModuleDraft<'a>,
    ManifestError,
>)
    requires
        draft.params_valid(),
    ensures
        result_view(r) == spec_params_item(seg@, k as int, draft@),
        r matches Ok(next) ==> next.params_valid(),
{
    if k == 0 {
        return Err(ManifestError::ParamsWithoutPrefix);
    }
    if k != 2 {
        return Err(ManifestError::ExpectedPrefixAttribute);
    }
    let attr = match group_at(seg, 0, 1, Delimiter::Bracket) {
        None => {
            return Err(ManifestError::ExpectedBracket);
        },
        Some(attr) => attr,
    };
    let prefix = match PrefixInfo::parse(attr.as_slice()) {
        Err(e) => {
            return Err(e);
        },
        Ok(prefix) => prefix,
    };
    let list = match group_value(seg, k, Delimiter::Brace) {
        Err(e) => {
            return Err(e);
        },
        Ok(list) => list,
    };
    match parse_parameters(list.as_slice()) {
        Err(e) => Err(e),
        Ok(params) => Ok(
            ModuleDraft {
                type_: draft.type_,
                loader: draft.loader,
                category: draft.category,
                capability: draft.capability,
                description: draft.description,
                help: draft.help,
                shortname: draft.shortname,
                prefix: Some(prefix),
                params: Some(params),
                shortcuts: draft.shortcuts,
                submodules: draft.submodules,
            },
        ),
    }
}

/// Reads an entry of a module with the key `key` at place `k`, other than
/// `type` and `params`.
pub fn plain_item<'a>(
    seg: &'a [Token],
    k: usize,
    key: &str,
    draft: ModuleDraft<'a>,
    nested: bool,
) -> (r: Result<ModuleDraft<'a>, ManifestError>)
    requires
        draft.params_valid(),
    ensures
        result_view(r) == spec_plain_item(seg@, k as int, key@, draft@, nested),
        r matches Ok(next) ==> next.params_valid(),
{
    let mut draft = draft;
    if str_eq(key, "capability") {
        match CapabilityInfo::parse(seg, k) {
            Err(e) => Err(e),
            Ok(capability) => {
                draft.capability = Some(capability);
                Ok(draft)
            },
        }
    } else if str_eq(key, "shortcuts") {
        match group_value(seg, k, Delimiter::Bracket) {
            Err(e) => Err(e),
            Ok(list) => match parse_shortcuts(list.as_slice()) {
                Err(e) => Err(e),
                Ok(shortcuts) => {
                    draft.shortcuts = Some(shortcuts);
                    Ok(draft)
                },
            },
        }
    } else if str_eq(key, "shortname") {
        match text_value(seg, k) {
            Err(e) => Err(e),
            Ok(text) => {
                draft.shortname = Some(text);
                Ok(draft)
            },
        }
    } else if str_eq(key, "description") {
        match text_value(seg, k) {
            Err(e) => Err(e),
            Ok(text) => {
                draft.description = Some(text);
                Ok(draft)
            },
        }
    } else if str_eq(key, "help") {
        match text_value(seg, k) {
            Err(e) => Err(e),
            Ok(text) => {
                draft.help = Some(text);
                Ok(draft)
            },
        }
    } else if str_eq(key, "category") {
        match category(seg, k) {
            Err(e) => Err(e),
            Ok(category) => {
                draft.category = Some(category);
                Ok(draft)
            },
        }
    } else if str_eq(key, "submodules") {
        match group_value(seg, k, Delimiter::Bracket) {
            Err(e) => Err(e),
            Ok(list) => if nested {
                Err(ManifestError::NestedSubmodules)
            } else {
                draft.submodules = Some(list);
                Ok(draft)
            },
        }
    } else {
        Err(ManifestError::UnknownKey)
    }
}

/// Reads one entry of a module.
pub fn module_item<'a>(seg: &'a [Token], is_last: bool, draft: ModuleDraft<'a>, nested: bool) -> (r:
    Result<ModuleDraft<'a>, ManifestError>)
    requires
        draft.params_valid(),
    ensures
        result_view(r) == spec_module_item(seg@, is_last, draft@, nested),
        r matches Ok(next) ==> next.params_valid(),
{
    let g = inner_attrs_len(seg, 0);
    let k = g + outer_attrs_len(seg, g);
    if g > 0 {
        return Err(ManifestError::GlobalAttribute);
    }
    if is_ident(seg, k, 0, "type") {
        return match type_item(seg, k, is_last) {
            Err(e) => Err(e),
            Ok((type_, loader)) => {
                let mut draft = draft;
                draft.type_ = Some(type_);
                draft.loader = Some(loader);
                Ok(draft)
            },
        };
    }
    match ident_at(seg, k, 0) {
        None => Err(ManifestError::ExpectedIdent),
        Some(key) => if str_eq(key.as_str(), "params") {
            params_item(seg, k, draft)
        } else {
            match plain_item(seg, k, key.as_str(), draft, nested) {
                Err(e) => Err(e),
                Ok(next) => if k > 0 {
                    Err(ManifestError::LocalAttribute)
                } else {
                    Ok(next)
                },
            }
        },
    }
}

/// Reads the entries of a module.
pub fn module_items<'a>(tokens: &'a [Token], nested: bool) -> (r: Result<
    ModuleDraft<'a>,
    ManifestError,
>)
    ensures
        result_view(r) == spec_fold_items(
            tokens@,
            0,
            spec_empty_module(),
            spec_module_step(nested),
        ),
        r matches Ok(draft) ==> draft.params_valid(),
{
    let mut draft = ModuleDraft {
        type_: None,
        loader: None,
        category: None,
        capability: None,
        description: None,
        help: None,
        shortname: None,
        prefix: None,
        params: None,
        shortcuts: None,
        submodules: None,
    };
    let mut start: usize = 0;
    while start < tokens.len()
        invariant
            start <= tokens@.len(),
            draft.params_valid(),
            spec_fold_items(tokens@, start as int, draft@, spec_module_step(nested))
                == spec_fold_items(tokens@, 0, spec_empty_module(), spec_module_step(nested)),
        decreases tokens@.len() - start,
    {
        let end = segment_end(tokens, start);
        let seg = slice_subrange(tokens, start, end);
        match module_item(seg, end >= tokens.len(), draft, nested) {
            Err(e) => {
                return Err(e);
            },
            Ok(next) => {
                draft = next;
            },
        }
        if end < tokens.len() {
            start = end + 1;
        } else {
            start = tokens.len();
        }
    }
    Ok(draft)
}

/// Makes a module of its entries, if none of the mandatory ones is
/// missing.  The tokens of its submodules come back beside it.
pub fn finish_module<'a>(draft: ModuleDraft<'a>) -> (r: Result<
    (ModuleInfo, Option<&'a Vec<Token>>),
    ManifestError,
>)
    requires
        draft.params_valid(),
    ensures
        match r {
            Ok((module, submodules)) => spec_finish_module(draft@) == Ok::<_, ManifestError>(
                module@,
            ) && submodules == draft.submodules && module@.valid(),
            Err(e) => spec_finish_module(draft@) == Err::<SpecModuleInfo, _>(e),
        },
{
    let type_ = match draft.type_ {
        None => {
            return Err(ManifestError::MissingType);
        },
        Some(x) => x,
    };
    let loader = match draft.loader {
        None => {
            return Err(ManifestError::MissingLoader);
        },
        Some(x) => x,
    };
    let capability = match draft.capability {
        None => {
            return Err(ManifestError::MissingCapability);
        },
        Some(x) => x,
    };
    let category = match draft.category {
        None => {
            return Err(ManifestError::MissingCategory);
        },
        Some(x) => x,
    };
    let description = match draft.description {
        None => {
            return Err(ManifestError::MissingDescription);
        },
        Some(x) => x,
    };
    if draft.params.is_some() && draft.prefix.is_none() {
        return Err(ManifestError::ParamsWithoutPrefix);
    }
    let module = ModuleInfo {
        type_,
        loader,
        category,
        capability,
        description,
        help: draft.help,
        shortname: draft.shortname,
        prefix: draft.prefix,
        params: draft.params,
        shortcuts: draft.shortcuts,
    };
    Ok((module, draft.submodules))
}

impl SubmoduleInfo {
    /// Reads the tokens between the braces of a submodule.
    pub fn parse(tokens: &[Token]) -> (r: Result<SubmoduleInfo, ManifestError>)
        ensures
            result_view(r) == spec_submodule_body(tokens@),
            r matches Ok(s) ==> s@.valid(),
    {
        match module_items(tokens, true) {
            Err(e) => Err(e),
            Ok(draft) => match finish_module(draft) {
                Err(e) => Err(e),
                Ok((submodule, _)) => Ok(SubmoduleInfo { submodule }),
            },
        }
    }
}

/// Reads the submodules between the brackets of `submodules`.
pub fn parse_submodules(tokens: &[Token]) -> (r: Result<Vec<SubmoduleInfo>, ManifestError>)
    ensures
        match r {
            Ok(subs) => spec_submodules(tokens@) == Ok::<_, ManifestError>(submodules_view(subs@))
                && forall|i: int| 0 <= i < subs@.len() ==> (#[trigger] subs@[i])@.valid(),
            Err(e) => spec_submodules(tokens@) == Err::<Seq<SpecModuleInfo>, _>(e),
        },
{
    let mut subs: Vec<SubmoduleInfo> = Vec::new();
    let mut start: usize = 0;
    assert(submodules_view(subs@) =~= Seq::<SpecModuleInfo>::empty());
    while start < tokens.len()
        invariant
            start <= tokens@.len(),
            forall|i: int| 0 <= i < subs@.len() ==> (#[trigger] subs@[i])@.valid(),
            spec_fold_items(tokens@, start as int, submodules_view(subs@), spec_submodule_step())
                == spec_submodules(tokens@),
        decreases tokens@.len() - start,
    {
        let end = segment_end(tokens, start);
        let seg = slice_subrange(tokens, start, end);
        let ghost before = submodules_view(subs@);
        let inner = match group_at(seg, 0, 0, Delimiter::Brace) {
            None => {
                return Err(ManifestError::ExpectedBrace);
            },
            Some(inner) => inner,
        };
        if seg.len() != 1 {
            return Err(ManifestError::ExpectedComma);
        }
        match SubmoduleInfo::parse(inner.as_slice()) {
            Err(e) => {
                return Err(e);
            },
            Ok(s) => {
                let ghost view = s@;
                subs.push(s);
                assert(submodules_view(subs@) =~= before.push(view));
            },
        }
        if end < tokens.len() {
            start = end + 1;
        } else {
            start = tokens.len();
        }
    }
    Ok(subs)
}

impl Manifest {
    /// Reads a manifest from its tokens.
    ///
    /// The manifest is refused where a mandatory key is missing, where
    /// `params` stands without a prefix, where a range is not closed on both
    /// sides, where a default or a bound is not of the parameter's type,
    /// where a submodule declares submodules, and on any key or attribute
    /// that the grammar does not know.
    pub fn parse(tokens: &Vec<Token>) -> (r: Result<Manifest, ManifestError>)
        ensures
            result_view(r) == spec_manifest(tokens@),
            r matches Ok(m) ==> m@.valid(),
    {
        let draft = match module_items(tokens.as_slice(), false) {
            Err(e) => {
                return Err(e);
            },
            Ok(draft) => draft,
        };
        let (module, list) = match finish_module(draft) {
            Err(e) => {
                return Err(e);
            },
            Ok(found) => found,
        };
        match list {
            None => Ok(Manifest { module, submodules: None }),
            Some(list) => match parse_submodules(list.as_slice()) {
                Err(e) => Err(e),
                Ok(subs) => {
                    assert(forall|i: int|
                        0 <= i < subs@.len() ==> submodules_view(subs@)[i] == (
                        #[trigger] subs@[i])@);
                    Ok(Manifest { module, submodules: Some(subs) })
                },
            },
        }
    }
}

} // verus!

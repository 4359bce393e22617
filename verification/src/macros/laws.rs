//! What holds of every manifest.

use vstd::prelude::*;
use vstd::string::*;
use crate::macros::codegen::{
    spec_module_calls, spec_module_head, spec_param_calls, spec_params_calls, spec_range_calls,
    spec_section_calls, spec_setup_calls, spec_subcategory_calls, RGB_MAX,
};
use crate::macros::error::ManifestError;
use crate::macros::grammar::{
    spec_empty_module, spec_finish_module, spec_finish_parameter, spec_fold_items,
    spec_manifest, spec_module_item, spec_module_step, spec_parameter, spec_parameters,
    spec_parameters_step, spec_plain_item, spec_segment_end, spec_submodule_body,
    spec_submodule_step, spec_submodules, Flags, SpecModuleDraft, SpecParameterDraft,
};
use crate::macros::token::Token;
use crate::macros::info::{
    Modifier, ParameterType, SpecManifest, SpecModuleInfo, SpecParameterInfo, SpecSectionInfo,
};
use crate::macros::module::{spec_entry_calls, spec_submodules_calls};
use crate::plugin::call::SpecPropertyCall;
use crate::plugin::ModuleProperties;

verus! {

/// Whether a call sets a property of a configuration entry.
pub open spec fn spec_is_config_property(call: SpecPropertyCall) -> bool {
    call.opcode().spec_is_config_property()
}

/// Whether every property of a configuration entry comes after the
/// creation of an entry, with nothing but properties of that entry in
/// between; and the calls do not start with such a property.
pub open spec fn spec_config_scoped(calls: Seq<SpecPropertyCall>) -> bool {
    forall|i: int| 0 <= i < calls.len() ==> #[trigger] spec_scoped_at(calls, i)
}

/// Whether the call at place `i`, where it sets a property of a
/// configuration entry, stands right behind the creation of an entry or
/// behind another property of an entry.
pub open spec fn spec_scoped_at(calls: Seq<SpecPropertyCall>, i: int) -> bool {
    spec_is_config_property(calls[i]) ==> i > 0 && (calls[i - 1].opcode()
        == ModuleProperties::CONFIG_CREATE || spec_is_config_property(calls[i - 1]))
}

proof fn lemma_scoped_add(a: Seq<SpecPropertyCall>, b: Seq<SpecPropertyCall>)
    requires
        spec_config_scoped(a),
        spec_config_scoped(b),
    ensures
        spec_config_scoped(a + b),
{
    let c = a + b;
    assert forall|i: int| 0 <= i < c.len() implies #[trigger] spec_scoped_at(c, i) by {
        if i < a.len() {
            assert(spec_scoped_at(a, i));
            assert(c[i] == a[i]);
            if i > 0 {
                assert(c[i - 1] == a[i - 1]);
            }
        } else {
            assert(spec_scoped_at(b, i - a.len()));
            assert(c[i] == b[i - a.len()]);
            if i - a.len() > 0 {
                assert(c[i - 1] == b[i - a.len() - 1]);
            }
        }
    }
}

proof fn lemma_scoped_push(a: Seq<SpecPropertyCall>, call: SpecPropertyCall)
    requires
        spec_config_scoped(a),
        a.len() > 0,
        a.last().opcode() == ModuleProperties::CONFIG_CREATE || spec_is_config_property(a.last()),
    ensures
        spec_config_scoped(a + seq![call]),
{
    let c = a + seq![call];
    assert forall|i: int| 0 <= i < c.len() implies #[trigger] spec_scoped_at(c, i) by {
        if i < a.len() {
            assert(spec_scoped_at(a, i));
            assert(c[i] == a[i]);
            if i > 0 {
                assert(c[i - 1] == a[i - 1]);
            }
        } else {
            assert(c[i - 1] == a.last());
        }
    }
}

proof fn lemma_section_scoped(p: SpecParameterInfo)
    ensures
        spec_config_scoped(spec_section_calls(p)),
{
    let section = spec_section_calls(p);
    assert forall|i: int| 0 <= i < section.len() implies #[trigger] spec_scoped_at(section, i) by {
        assert(section[0].opcode() == ModuleProperties::CONFIG_CREATE);
    }
}

proof fn lemma_setup_scoped(m: SpecModuleInfo, p: SpecParameterInfo)
    ensures
        spec_config_scoped(spec_setup_calls(m, p)),
        spec_setup_calls(m, p).len() == 4,
        spec_is_config_property(spec_setup_calls(m, p).last()),
{
    let setup = spec_setup_calls(m, p);
    assert(setup[0].opcode() == ModuleProperties::CONFIG_CREATE);
    assert(spec_is_config_property(setup[1]));
    assert(spec_is_config_property(setup[2]));
    assert(spec_is_config_property(setup[3]));
    assert forall|i: int| 0 <= i < setup.len() implies #[trigger] spec_scoped_at(setup, i) by {}
}

proof fn lemma_range_shape(p: SpecParameterInfo)
    ensures
        spec_range_calls(p).len() <= 1,
        spec_range_calls(p).len() == 1 ==> spec_is_config_property(spec_range_calls(p)[0]),
{
}

proof fn lemma_param_scoped(m: SpecModuleInfo, p: SpecParameterInfo)
    ensures
        spec_config_scoped(spec_param_calls(m, p)),
{
    let section = spec_section_calls(p);
    let setup = spec_setup_calls(m, p);
    let removed: Seq<SpecPropertyCall> = if p.deprecated {
        seq![SpecPropertyCall::ConfigRemoved]
    } else {
        seq![]
    };
    let range = spec_range_calls(p);
    lemma_section_scoped(p);
    lemma_setup_scoped(m, p);
    lemma_range_shape(p);
    lemma_scoped_add(section, setup);
    let front = section + setup;
    assert(front.last() == setup.last());
    let middle = front + removed;
    if p.deprecated {
        lemma_scoped_push(front, SpecPropertyCall::ConfigRemoved);
        assert(middle.last() == SpecPropertyCall::ConfigRemoved);
    } else {
        assert(middle =~= front);
    }
    assert(spec_config_scoped(middle));
    assert(spec_is_config_property(middle.last()));
    let all = middle + range;
    if range.len() == 1 {
        assert(range =~= seq![range[0]]);
        lemma_scoped_push(middle, range[0]);
    } else {
        assert(all =~= middle);
    }
    assert(all == spec_param_calls(m, p));
}

proof fn lemma_params_scoped(m: SpecModuleInfo, params: Seq<SpecParameterInfo>)
    ensures
        spec_config_scoped(spec_params_calls(m, params)),
    decreases params.len(),
{
    if params.len() > 0 {
        lemma_params_scoped(m, params.drop_last());
        lemma_param_scoped(m, params.last());
        lemma_scoped_add(
            spec_params_calls(m, params.drop_last()),
            spec_param_calls(m, params.last()),
        );
    }
}

/// Whether none of the calls sets a property of a configuration entry.
spec fn spec_no_config(calls: Seq<SpecPropertyCall>) -> bool {
    forall|i: int| 0 <= i < calls.len() ==> !spec_is_config_property(#[trigger] calls[i])
}

proof fn lemma_no_config_add(a: Seq<SpecPropertyCall>, b: Seq<SpecPropertyCall>)
    requires
        spec_no_config(a),
        spec_no_config(b),
    ensures
        spec_no_config(a + b),
{
    let c = a + b;
    assert forall|i: int| 0 <= i < c.len() implies !spec_is_config_property(#[trigger] c[i]) by {
        if i < a.len() {
            assert(c[i] == a[i]);
        } else {
            assert(c[i] == b[i - a.len()]);
        }
    }
}

proof fn lemma_head_no_config(m: SpecModuleInfo, has_deactivate: bool)
    ensures
        spec_no_config(spec_module_head(m, has_deactivate)),
{
    let s0 = seq![
        SpecPropertyCall::ModuleCapability(m.capability.capability),
        SpecPropertyCall::ModuleScore(m.capability.score),
        SpecPropertyCall::ModuleDescription(m.description),
    ];
    let s1: Seq<SpecPropertyCall> = match m.help {
        Some(help) => seq![SpecPropertyCall::ModuleHelp(help)],
        None => seq![],
    };
    let s2: Seq<SpecPropertyCall> = match m.shortname {
        Some(shortname) => seq![SpecPropertyCall::ModuleShortname(shortname)],
        None => seq![],
    };
    let s3: Seq<SpecPropertyCall> = match m.shortcuts {
        Some(shortcuts) => seq![SpecPropertyCall::ModuleShortcut(shortcuts)],
        None => seq![],
    };
    let s4 = seq![
        SpecPropertyCall::ModuleCbOpen {
            name: m.type_ + "-open"@,
            type_: m.type_,
            loader: m.loader,
        },
    ];
    let s5: Seq<SpecPropertyCall> = if has_deactivate {
        seq![
            SpecPropertyCall::ModuleCbClose {
                name: m.type_ + "-close"@,
                type_: m.type_,
                loader: m.loader,
            },
        ]
    } else {
        seq![]
    };
    assert(spec_no_config(s0));
    assert(spec_no_config(s1));
    assert(spec_no_config(s2));
    assert(spec_no_config(s3));
    assert(spec_no_config(s4));
    assert(spec_no_config(s5));
    lemma_no_config_add(s0, s1);
    lemma_no_config_add(s0 + s1, s2);
    lemma_no_config_add(s0 + s1 + s2, s3);
    lemma_no_config_add(s0 + s1 + s2 + s3, s4);
    lemma_no_config_add(s0 + s1 + s2 + s3 + s4, s5);
    assert(spec_module_head(m, has_deactivate) == s0 + s1 + s2 + s3 + s4 + s5);
}

proof fn lemma_subcategory_scoped(m: SpecModuleInfo)
    ensures
        spec_config_scoped(spec_subcategory_calls(m)),
{
    let sub = spec_subcategory_calls(m);
    assert(sub[0].opcode() == ModuleProperties::CONFIG_CREATE);
    assert forall|i: int| 0 <= i < sub.len() implies #[trigger] spec_scoped_at(sub, i) by {}
}

proof fn lemma_module_scoped(m: SpecModuleInfo, has_deactivate: bool)
    ensures
        spec_config_scoped(spec_module_calls(m, has_deactivate)),
{
    let head = spec_module_head(m, has_deactivate);
    lemma_head_no_config(m, has_deactivate);
    assert forall|i: int| 0 <= i < head.len() implies #[trigger] spec_scoped_at(head, i) by {}
    let sub = spec_subcategory_calls(m);
    lemma_subcategory_scoped(m);
    lemma_scoped_add(head, sub);
    match m.params {
        Some(params) => {
            lemma_params_scoped(m, params);
            lemma_scoped_add(head + sub, spec_params_calls(m, params));
        },
        None => {
            assert(head + sub + Seq::<SpecPropertyCall>::empty() =~= head + sub);
        },
    }
}

proof fn lemma_submodules_scoped(subs: Seq<SpecModuleInfo>, deactivates: Seq<bool>)
    ensures
        spec_config_scoped(spec_submodules_calls(subs, deactivates)),
    decreases subs.len(),
{
    if subs.len() > 0 {
        lemma_submodules_scoped(subs.drop_last(), deactivates);
        let create = seq![SpecPropertyCall::ModuleCreate { submodule: true }];
        assert forall|i: int| 0 <= i < create.len() implies #[trigger] spec_scoped_at(
            create,
            i,
        ) by {}
        lemma_scoped_add(spec_submodules_calls(subs.drop_last(), deactivates), create);
        let has = crate::macros::module::spec_has_deactivate(deactivates, subs.len() as int);
        lemma_module_scoped(subs.last(), has);
        lemma_scoped_add(
            spec_submodules_calls(subs.drop_last(), deactivates) + create,
            spec_module_calls(subs.last(), has),
        );
    }
}

/// The registration of every manifest starts by creating the plugin's
/// module and naming it: no property of a module is set before the module
/// is created, and none but the name before it is named.
pub proof fn law_create_then_name(
    manifest: SpecManifest,
    module_name: Seq<char>,
    deactivates: Seq<bool>,
)
    ensures
        spec_entry_calls(manifest, module_name, deactivates).len() >= 2,
        spec_entry_calls(manifest, module_name, deactivates)[0] == (SpecPropertyCall::ModuleCreate {
            submodule: false,
        }),
        spec_entry_calls(manifest, module_name, deactivates)[1] == SpecPropertyCall::ModuleName(
            module_name,
        ),
        forall|i: int|
            0 <= i < spec_entry_calls(manifest, module_name, deactivates).len() && (
            #[trigger] spec_entry_calls(
                manifest,
                module_name,
                deactivates,
            )[i]).opcode().spec_is_module_property() ==> i >= 1,
{
}

/// In the registration of every manifest, a property of a configuration
/// entry is set only after an entry was created, and nothing but
/// properties of that entry stands between the two.
pub proof fn law_config_after_create(
    manifest: SpecManifest,
    module_name: Seq<char>,
    deactivates: Seq<bool>,
)
    ensures
        spec_config_scoped(spec_entry_calls(manifest, module_name, deactivates)),
{
    let start = seq![
        SpecPropertyCall::ModuleCreate { submodule: false },
        SpecPropertyCall::ModuleName(module_name),
    ];
    assert forall|i: int| 0 <= i < start.len() implies #[trigger] spec_scoped_at(start, i) by {}
    let has = crate::macros::module::spec_has_deactivate(deactivates, 0);
    lemma_module_scoped(manifest.module, has);
    lemma_scoped_add(start, spec_module_calls(manifest.module, has));
    lemma_submodules_scoped(manifest.subs(), deactivates);
    lemma_scoped_add(
        start + spec_module_calls(manifest.module, has),
        spec_submodules_calls(manifest.subs(), deactivates),
    );
}

/// An RGB color is declared with the range from 0 to `RGB_MAX`, whatever
/// range the parameter holds: the range is the last call of the
/// parameter, and its only one.
pub proof fn law_rgb_range_fixed(m: SpecModuleInfo, p: SpecParameterInfo)
    requires
        p.modifier == Some(Modifier::Rgb),
    ensures
        spec_range_calls(p) == seq![SpecPropertyCall::ConfigRangeInt(0, 16777215)],
        spec_param_calls(m, p).last() == SpecPropertyCall::ConfigRangeInt(0, 16777215),
        RGB_MAX == 16777215,
{
}

/// A parameter that is an RGB color and comes with a range of its own is
/// refused.
pub proof fn law_rgb_range_refused(
    name: Seq<char>,
    type_: ParameterType,
    section: Option<SpecSectionInfo>,
    flags: Flags,
    draft: SpecParameterDraft,
)
    requires
        flags.modifier == Some(Modifier::Rgb),
        draft.range is Some,
    ensures
        spec_finish_parameter(name, type_, section, flags, draft) is Err,
{
}

/// A parameter that is accepted is valid: well typed, and without a range
/// of its own where it is an RGB color.
pub proof fn law_accepted_parameter_valid(
    name: Seq<char>,
    type_: ParameterType,
    section: Option<SpecSectionInfo>,
    flags: Flags,
    draft: SpecParameterDraft,
)
    ensures
        spec_finish_parameter(name, type_, section, flags, draft) matches Ok(p) ==> p.valid(),
{
}

/// A module that lacks its type, its capability, its category or its
/// description is refused, and the error names the first that is missing.
pub proof fn law_mandatory_keys(draft: SpecModuleDraft)
    ensures
        draft.type_ is None ==> spec_finish_module(draft) == Err::<SpecModuleInfo, _>(
            ManifestError::MissingType,
        ),
        draft.type_ is Some && draft.loader is Some && draft.capability is None
            ==> spec_finish_module(draft) == Err::<SpecModuleInfo, _>(
            ManifestError::MissingCapability,
        ),
        draft.type_ is Some && draft.loader is Some && draft.capability is Some && draft.category
            is None ==> spec_finish_module(draft) == Err::<SpecModuleInfo, _>(
            ManifestError::MissingCategory,
        ),
        draft.type_ is Some && draft.loader is Some && draft.capability is Some && draft.category
            is Some && draft.description is None ==> spec_finish_module(draft) == Err::<
            SpecModuleInfo,
            _,
        >(ManifestError::MissingDescription),
        spec_finish_module(draft) is Ok ==> draft.type_ is Some && draft.loader is Some
            && draft.capability is Some && draft.category is Some && draft.description is Some,
{
}

/// In a submodule the key `submodules` is refused, whatever follows it.
pub proof fn law_nested_submodules_refused(seg: Seq<Token>, k: int, draft: SpecModuleDraft)
    ensures
        spec_plain_item(seg, k, "submodules"@, draft, true) is Err,
{
    reveal_strlit("submodules");
    reveal_strlit("capability");
    reveal_strlit("shortcuts");
    reveal_strlit("shortname");
    reveal_strlit("description");
    reveal_strlit("help");
    reveal_strlit("category");
    let key = "submodules"@;
    assert(key.len() == 10 && key[0] == 's');
    assert("capability"@[0] == 'c');
    assert("shortcuts"@.len() == 9);
    assert("shortname"@.len() == 9);
    assert("description"@.len() == 11);
    assert("help"@.len() == 4);
    assert("category"@.len() == 8);
}

/// What holds of the entries of a list that was read holds of the whole
/// list, where each entry keeps it.
proof fn lemma_fold_keeps<A>(
    tokens: Seq<Token>,
    start: int,
    acc: A,
    step: spec_fn(Seq<Token>, bool, A) -> Result<A, ManifestError>,
    keeps: spec_fn(A) -> bool,
)
    requires
        keeps(acc),
        forall|seg: Seq<Token>, is_last: bool, a: A|
            keeps(a) ==> (#[trigger] step(seg, is_last, a) matches Ok(b) ==> keeps(b)),
    ensures
        spec_fold_items(tokens, start, acc, step) matches Ok(r) ==> keeps(r),
    decreases tokens.len() - start,
{
    if 0 <= start < tokens.len() {
        let end = spec_segment_end(tokens, start);
        match step(tokens.subrange(start, end), end >= tokens.len(), acc) {
            Err(_) => {},
            Ok(next) => {
                if start <= end < tokens.len() {
                    lemma_fold_keeps(tokens, end + 1, next, step, keeps);
                }
            },
        }
    }
}

spec fn all_valid(params: Seq<SpecParameterInfo>) -> bool {
    forall|i: int| 0 <= i < params.len() ==> (#[trigger] params[i]).valid()
}

spec fn draft_valid(draft: SpecModuleDraft) -> bool {
    draft.params matches Some(params) ==> draft.prefix is Some && all_valid(params)
}

spec fn modules_valid(modules: Seq<SpecModuleInfo>) -> bool {
    forall|i: int| 0 <= i < modules.len() ==> (#[trigger] modules[i]).valid()
}

/// Every parameter that is read is valid.
pub proof fn law_read_parameter_valid(seg: Seq<Token>)
    ensures
        spec_parameter(seg) matches Ok(p) ==> p.valid(),
{
}

proof fn lemma_parameters_valid(tokens: Seq<Token>)
    ensures
        spec_parameters(tokens) matches Ok(params) ==> all_valid(params),
{
    let keeps = |params: Seq<SpecParameterInfo>| all_valid(params);
    let step = spec_parameters_step();
    assert forall|seg: Seq<Token>, is_last: bool, a: Seq<SpecParameterInfo>| keeps(a) implies (
    #[trigger] step(seg, is_last, a) matches Ok(b) ==> keeps(b)) by {
        law_read_parameter_valid(seg);
        if let Ok(p) = spec_parameter(seg) {
            let b = a.push(p);
            assert forall|i: int| 0 <= i < b.len() implies (#[trigger] b[i]).valid() by {
                if i < a.len() {
                    assert(b[i] == a[i]);
                }
            }
        }
    }
    lemma_fold_keeps(tokens, 0, Seq::<SpecParameterInfo>::empty(), step, keeps);
}

proof fn lemma_item_keeps_valid(seg: Seq<Token>, is_last: bool, draft: SpecModuleDraft, nested: bool)
    requires
        draft_valid(draft),
    ensures
        spec_module_item(seg, is_last, draft, nested) matches Ok(next) ==> draft_valid(next),
{
    let r = spec_module_item(seg, is_last, draft, nested);
    if let Ok(next) = r {
        if next.params != draft.params || next.prefix != draft.prefix {
            // Only `params` sets the parameters and their prefix, and it sets both.
            let k = 2int;
            let list = crate::macros::grammar::spec_group_value(
                seg,
                k,
                crate::macros::token::Delimiter::Brace,
            );
            if let Ok(tokens) = list {
                lemma_parameters_valid(tokens);
            }
        }
    }
}

proof fn lemma_module_items_valid(tokens: Seq<Token>, nested: bool)
    ensures
        spec_fold_items(tokens, 0, spec_empty_module(), spec_module_step(nested)) matches Ok(draft)
            ==> draft_valid(draft),
{
    let keeps = |draft: SpecModuleDraft| draft_valid(draft);
    let step = spec_module_step(nested);
    assert forall|seg: Seq<Token>, is_last: bool, a: SpecModuleDraft| keeps(a) implies (
    #[trigger] step(seg, is_last, a) matches Ok(b) ==> keeps(b)) by {
        lemma_item_keeps_valid(seg, is_last, a, nested);
    }
    lemma_fold_keeps(tokens, 0, spec_empty_module(), step, keeps);
}

proof fn lemma_submodules_valid(tokens: Seq<Token>)
    ensures
        spec_submodules(tokens) matches Ok(modules) ==> modules_valid(modules),
{
    let keeps = |modules: Seq<SpecModuleInfo>| modules_valid(modules);
    let step = spec_submodule_step();
    assert forall|seg: Seq<Token>, is_last: bool, a: Seq<SpecModuleInfo>| keeps(a) implies (
    #[trigger] step(seg, is_last, a) matches Ok(b) ==> keeps(b)) by {
        if let Ok(b) = step(seg, is_last, a) {
            let inner = crate::macros::token::spec_group_at(
                seg,
                0,
                crate::macros::token::Delimiter::Brace,
            )->0;
            lemma_module_items_valid(inner, true);
            let m = spec_submodule_body(inner)->Ok_0;
            assert(b == a.push(m));
            assert forall|i: int| 0 <= i < b.len() implies (#[trigger] b[i]).valid() by {
                if i < a.len() {
                    assert(b[i] == a[i]);
                }
            }
        }
    }
    lemma_fold_keeps(tokens, 0, Seq::<SpecModuleInfo>::empty(), step, keeps);
}

/// Every manifest that is read is valid: parameters come with a prefix
/// for their names, each parameter is well typed, and no RGB color has a
/// range of its own.
pub proof fn law_read_manifest_valid(tokens: Seq<Token>)
    ensures
        spec_manifest(tokens) matches Ok(manifest) ==> manifest.valid(),
{
    lemma_module_items_valid(tokens, false);
    if let Ok(draft) = spec_fold_items(tokens, 0, spec_empty_module(), spec_module_step(false)) {
        if let Some(list) = draft.submodules {
            lemma_submodules_valid(list);
        }
    }
}

} // verus!

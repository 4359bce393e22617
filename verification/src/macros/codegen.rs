//! From a module's declaration to the calls of the host's setter.

use vstd::prelude::*;
use vstd::string::*;
use crate::macros::info::{
    params_view, Modifier, ModuleInfo, ParameterInfo, ParameterType, SpecModuleInfo,
    SpecParameterInfo, SpecValue, Value,
};
use crate::plugin::call::{calls_view, push_call, PropertyCall, SpecPropertyCall};
use crate::plugin::ConfigModule;
use crate::text::{
    clone_option, clone_strings, dashed, ends_with, spec_dashed, spec_ends_with,
};

verus! {

/// The greatest value of an RGB color.
pub const RGB_MAX: i64 = 0xFFFFFF;

/// The prefix of a parameter's name: its own, else the module's.
pub open spec fn spec_param_prefix(m: SpecModuleInfo, p: SpecParameterInfo) -> Seq<char> {
    match p.prefix {
        Some(prefix) => prefix,
        None => m.prefix->0,
    }
}

/// The name under which the host knows a parameter: the prefix, a dash
/// unless the prefix ends with a dash or an underscore, and the parameter's
/// own name with dashes for underscores.
pub open spec fn spec_param_name(m: SpecModuleInfo, p: SpecParameterInfo) -> Seq<char> {
    let prefix = spec_param_prefix(m, p);
    let head = if spec_ends_with(prefix, '_') || spec_ends_with(prefix, '-') {
        prefix
    } else {
        prefix.push('-')
    };
    head + spec_dashed(p.name)
}

/// The kind of configuration item that a parameter is created as.
pub open spec fn spec_item_kind(p: SpecParameterInfo) -> ConfigModule {
    match p.type_ {
        ParameterType::I64 => if p.modifier == Some(Modifier::Rgb) {
            ConfigModule::ITEM_RGB
        } else {
            ConfigModule::ITEM_INTEGER
        },
        ParameterType::F32 => ConfigModule::ITEM_FLOAT,
        ParameterType::Bool => ConfigModule::ITEM_BOOL,
        ParameterType::Str => match p.modifier {
            Some(Modifier::Font) => ConfigModule::ITEM_FONT,
            Some(Modifier::Savefile) => ConfigModule::ITEM_SAVEFILE,
            Some(Modifier::Loadfile) => ConfigModule::ITEM_LOADFILE,
            Some(Modifier::Password) => ConfigModule::ITEM_PASSWORD,
            Some(Modifier::Directory) => ConfigModule::ITEM_DIRECTORY,
            _ => ConfigModule::ITEM_STRING,
        },
    }
}

/// The call that sets a parameter's default.  A boolean goes to the host as
/// the integer 1 or 0.
pub open spec fn spec_value_call(v: SpecValue) -> SpecPropertyCall {
    match v {
        SpecValue::Int(n) => SpecPropertyCall::ConfigValueInt(n),
        SpecValue::Float(b) => SpecPropertyCall::ConfigValueFloat(b),
        SpecValue::Bool(b) => SpecPropertyCall::ConfigValueInt(
            if b {
                1
            } else {
                0
            },
        ),
        SpecValue::Str(s) => SpecPropertyCall::ConfigValueStr(s),
    }
}

/// The calls that open a parameter's section, if it opens one.
pub open spec fn spec_section_calls(p: SpecParameterInfo) -> Seq<SpecPropertyCall> {
    match p.section {
        Some(section) => seq![
            SpecPropertyCall::ConfigCreate(ConfigModule::SECTION),
            SpecPropertyCall::ConfigDesc { text: section.name, long_text: section.description },
        ],
        None => seq![],
    }
}

/// The call that sets a parameter's range, if it has one.  An RGB color
/// has the range from 0 to `RGB_MAX`, whatever range it was declared with.
pub open spec fn spec_range_calls(p: SpecParameterInfo) -> Seq<SpecPropertyCall> {
    if p.modifier == Some(Modifier::Rgb) {
        seq![SpecPropertyCall::ConfigRangeInt(0, RGB_MAX)]
    } else {
        match p.range {
            Some((SpecValue::Int(from), SpecValue::Int(to))) => seq![
                SpecPropertyCall::ConfigRangeInt(from, to),
            ],
            Some((SpecValue::Float(from), SpecValue::Float(to))) => seq![
                SpecPropertyCall::ConfigRangeFloat(from, to),
            ],
            _ => seq![],
        }
    }
}

/// The calls that create the item of a parameter and describe it.
pub open spec fn spec_setup_calls(m: SpecModuleInfo, p: SpecParameterInfo) -> Seq<
    SpecPropertyCall,
> {
    seq![
        SpecPropertyCall::ConfigCreate(spec_item_kind(p)),
        SpecPropertyCall::ConfigDesc { text: p.text, long_text: Some(p.long_text) },
        SpecPropertyCall::ConfigName(spec_param_name(m, p)),
        spec_value_call(p.default_),
    ]
}

/// The calls that declare one parameter, in the order in which the host
/// takes them: the section, if the parameter opens one; the creation of the
/// item; its texts; its name; its default; that it is deprecated, if it is;
/// its range, if it has one.
pub open spec fn spec_param_calls(m: SpecModuleInfo, p: SpecParameterInfo) -> Seq<
    SpecPropertyCall,
> {
    spec_section_calls(p) + spec_setup_calls(m, p) + (if p.deprecated {
        seq![SpecPropertyCall::ConfigRemoved]
    } else {
        seq![]
    }) + spec_range_calls(p)
}

/// The calls that declare a list of parameters, one after the other.
pub open spec fn spec_params_calls(m: SpecModuleInfo, params: Seq<SpecParameterInfo>) -> Seq<
    SpecPropertyCall,
>
    decreases params.len(),
{
    if params.len() == 0 {
        seq![]
    } else {
        spec_params_calls(m, params.drop_last()) + spec_param_calls(m, params.last())
    }
}

/// The calls that describe a module to the host, once it is created.
pub open spec fn spec_module_head(m: SpecModuleInfo, has_deactivate: bool) -> Seq<
    SpecPropertyCall,
> {
    seq![
        SpecPropertyCall::ModuleCapability(m.capability.capability),
        SpecPropertyCall::ModuleScore(m.capability.score),
        SpecPropertyCall::ModuleDescription(m.description),
    ] + (match m.help {
        Some(help) => seq![SpecPropertyCall::ModuleHelp(help)],
        None => seq![],
    }) + (match m.shortname {
        Some(shortname) => seq![SpecPropertyCall::ModuleShortname(shortname)],
        None => seq![],
    }) + (match m.shortcuts {
        Some(shortcuts) => seq![SpecPropertyCall::ModuleShortcut(shortcuts)],
        None => seq![],
    }) + seq![
        SpecPropertyCall::ModuleCbOpen {
            name: m.type_ + "-open"@,
            type_: m.type_,
            loader: m.loader,
        },
    ] + (if has_deactivate {
        seq![
            SpecPropertyCall::ModuleCbClose {
                name: m.type_ + "-close"@,
                type_: m.type_,
                loader: m.loader,
            },
        ]
    } else {
        seq![]
    })
}

/// The calls that file a module's configuration under its subcategory.
pub open spec fn spec_subcategory_calls(m: SpecModuleInfo) -> Seq<SpecPropertyCall> {
    seq![
        SpecPropertyCall::ConfigCreate(ConfigModule::SUBCATEGORY),
        SpecPropertyCall::ConfigValueSubcategory(m.category),
    ]
}

/// All the calls that a module's declaration stands for, after the call
/// that creates the module: its capability, score and description; its
/// help, short name and shortcuts, as far as it declares them; its
/// activation function, and its deactivation function where the loader has
/// one; its subcategory; its parameters.
pub open spec fn spec_module_calls(m: SpecModuleInfo, has_deactivate: bool) -> Seq<
    SpecPropertyCall,
> {
    spec_module_head(m, has_deactivate) + spec_subcategory_calls(m) + (match m.params {
        Some(params) => spec_params_calls(m, params),
        None => seq![],
    })
}

/// The name under which the host knows a parameter.
pub fn vlc_param_name(module_info: &ModuleInfo, param: &ParameterInfo) -> (name: String)
    requires
        param.prefix is Some || module_info.prefix is Some,
    ensures
        name@ == spec_param_name(module_info@, param@),
{
    let mut name = match &param.prefix {
        Some(prefix) => prefix.prefix.clone(),
        None => match &module_info.prefix {
            Some(prefix) => prefix.prefix.clone(),
            None => {
                proof {
                    assert(false);
                }
                String::new()
            },
        },
    };
    if !ends_with(name.as_str(), '_') && !ends_with(name.as_str(), '-') {
        proof {
            reveal_strlit("-");
            assert("-"@ =~= seq!['-']);
            assert(name@ + seq!['-'] =~= name@.push('-'));
        }
        name.append("-");
    }
    let tail = dashed(param.name.as_str());
    name.append(tail.as_str());
    name
}

/// The kind of configuration item that a parameter is created as.
pub fn item_kind(param: &ParameterInfo) -> (kind: ConfigModule)
    ensures
        kind == spec_item_kind(param@),
{
    match param.type_ {
        ParameterType::I64 => match param.modifier {
            Some(Modifier::Rgb) => ConfigModule::ITEM_RGB,
            _ => ConfigModule::ITEM_INTEGER,
        },
        ParameterType::F32 => ConfigModule::ITEM_FLOAT,
        ParameterType::Bool => ConfigModule::ITEM_BOOL,
        ParameterType::Str => match param.modifier {
            Some(Modifier::Font) => ConfigModule::ITEM_FONT,
            Some(Modifier::Savefile) => ConfigModule::ITEM_SAVEFILE,
            Some(Modifier::Loadfile) => ConfigModule::ITEM_LOADFILE,
            Some(Modifier::Password) => ConfigModule::ITEM_PASSWORD,
            Some(Modifier::Directory) => ConfigModule::ITEM_DIRECTORY,
            _ => ConfigModule::ITEM_STRING,
        },
    }
}

/// The call that sets a default.
fn value_call(value: &Value) -> (call: PropertyCall)
    ensures
        call@ == spec_value_call(value@),
{
    match value {
        Value::Int(n) => PropertyCall::ConfigValueInt(*n),
        Value::Float(b) => PropertyCall::ConfigValueFloat(*b),
        Value::Bool(b) => PropertyCall::ConfigValueInt(
            if *b {
                1
            } else {
                0
            },
        ),
        Value::Str(s) => PropertyCall::ConfigValueStr(s.clone()),
    }
}

/// Appends the calls that declare one parameter of `module_info`.
pub fn generate_param_code(
    module_info: &ModuleInfo,
    param: &ParameterInfo,
    calls: &mut Vec<PropertyCall>,
)
    requires
        param.prefix is Some || module_info.prefix is Some,
    ensures
        calls_view(final(calls)@) == calls_view(old(calls)@) + spec_param_calls(
            module_info@,
            param@,
        ),
{
    let ghost before = calls_view(calls@);
    let ghost m = module_info@;
    let ghost p = param@;
    match &param.section {
        Some(section) => {
            push_call(calls, PropertyCall::ConfigCreate(ConfigModule::SECTION));
            push_call(
                calls,
                PropertyCall::ConfigDesc {
                    text: section.name.clone(),
                    long_text: clone_option(&section.description),
                },
            );
        },
        None => {},
    }
    assert(calls_view(calls@) =~= before + spec_section_calls(p));
    push_call(calls, PropertyCall::ConfigCreate(item_kind(param)));
    push_call(
        calls,
        PropertyCall::ConfigDesc {
            text: param.text.clone(),
            long_text: Some(param.long_text.clone()),
        },
    );
    push_call(calls, PropertyCall::ConfigName(vlc_param_name(module_info, param)));
    push_call(calls, value_call(&param.default_));
    assert(calls_view(calls@) =~= before + spec_section_calls(p) + spec_setup_calls(m, p));
    if param.deprecated {
        push_call(calls, PropertyCall::ConfigRemoved);
    }
    let ghost middle = calls_view(calls@);
    assert(middle =~= before + spec_section_calls(p) + spec_setup_calls(m, p) + (if p.deprecated {
        seq![SpecPropertyCall::ConfigRemoved]
    } else {
        seq![]
    }));
    match param.modifier {
        Some(Modifier::Rgb) => {
            push_call(calls, PropertyCall::ConfigRangeInt(0, RGB_MAX));
        },
        _ => {
            match &param.range {
                Some((Value::Int(from), Value::Int(to))) => {
                    push_call(calls, PropertyCall::ConfigRangeInt(*from, *to));
                },
                Some((Value::Float(from), Value::Float(to))) => {
                    push_call(calls, PropertyCall::ConfigRangeFloat(*from, *to));
                },
                _ => {},
            }
        },
    }
    assert(calls_view(calls@) =~= middle + spec_range_calls(p));
    assert(calls_view(calls@) =~= before + spec_param_calls(m, p));
}

/// All the calls that a module's declaration stands for, after the call
/// that creates the module.  `has_deactivate` says whether the module's
/// loader has a deactivation function to hand to the host.
pub fn generate_module_code(module_info: &ModuleInfo, has_deactivate: bool) -> (calls: Vec<
    PropertyCall,
>)
    requires
        module_info@.has_prefix(),
    ensures
        calls_view(calls@) == spec_module_calls(module_info@, has_deactivate),
{
    let ghost m = module_info@;
    let mut calls: Vec<PropertyCall> = Vec::new();
    push_call(&mut calls, PropertyCall::ModuleCapability(module_info.capability.capability.clone()));
    push_call(&mut calls, PropertyCall::ModuleScore(module_info.capability.score));
    push_call(&mut calls, PropertyCall::ModuleDescription(module_info.description.clone()));
    match &module_info.help {
        Some(help) => {
            push_call(&mut calls, PropertyCall::ModuleHelp(help.clone()));
        },
        None => {},
    }
    match &module_info.shortname {
        Some(shortname) => {
            push_call(&mut calls, PropertyCall::ModuleShortname(shortname.clone()));
        },
        None => {},
    }
    match &module_info.shortcuts {
        Some(shortcuts) => {
            push_call(&mut calls, PropertyCall::ModuleShortcut(clone_strings(shortcuts)));
        },
        None => {},
    }
    let mut module_open = module_info.type_.clone();
    module_open.append("-open");
    push_call(
        &mut calls,
        PropertyCall::ModuleCbOpen {
            name: module_open,
            type_: module_info.type_.clone(),
            loader: module_info.loader.clone(),
        },
    );
    if has_deactivate {
        let mut module_close = module_info.type_.clone();
        module_close.append("-close");
        push_call(
            &mut calls,
            PropertyCall::ModuleCbClose {
                name: module_close,
                type_: module_info.type_.clone(),
                loader: module_info.loader.clone(),
            },
        );
    }
    assert(calls_view(calls@) =~= spec_module_head(m, has_deactivate));
    push_call(&mut calls, PropertyCall::ConfigCreate(ConfigModule::SUBCATEGORY));
    push_call(&mut calls, PropertyCall::ConfigValueSubcategory(module_info.category));
    let ghost head = spec_module_head(m, has_deactivate) + spec_subcategory_calls(m);
    assert(calls_view(calls@) =~= head);
    match &module_info.params {
        Some(params) => {
            let ghost all = params_view(params@);
            let mut i: usize = 0;
            while i < params.len()
                invariant
                    i <= params.len(),
                    module_info.prefix is Some,
                    m == module_info@,
                    all == params_view(params@),
                    calls_view(calls@) == head + spec_params_calls(m, all.take(i as int)),
                decreases params.len() - i,
            {
                generate_param_code(module_info, &params[i], &mut calls);
                proof {
                    assert(all.take(i + 1).drop_last() =~= all.take(i as int));
                    assert(all.take(i + 1).last() == params@[i as int]@);
                    assert(calls_view(calls@) =~= head + spec_params_calls(m, all.take(i + 1)));
                }
                i += 1;
            }
            assert(all.take(params.len() as int) =~= all);
        },
        None => {
            assert(calls_view(calls@) =~= head + Seq::<SpecPropertyCall>::empty());
        },
    }
    calls
}

} // verus!


//! From a manifest to what the plugin exports: the names of its entry
//! points and the calls that its registration makes.

use vstd::prelude::*;
use vstd::string::*;
use crate::macros::codegen::{generate_module_code, spec_module_calls};
use crate::macros::error::ManifestError;
use crate::macros::grammar::spec_manifest;
use crate::macros::info::{
    params_view, Manifest, ModuleInfo, ParameterInfo, ParameterType, SpecManifest,
    SpecModuleInfo, SpecParameterInfo,
};
use crate::macros::token::Token;
use crate::plugin::call::{calls_view, push_call, PropertyCall, SpecPropertyCall};
use crate::plugin::{VLC_COPYRIGHT_VIDEOLAN, VLC_LICENSE_LGPL_2_1_PLUS};
use crate::text::{lowercase, to_lowercase};

verus! {

/// The version of the host's plugin interface that a manifest is written
/// for.  The host refuses a plugin that answers with another.
pub const VLC_API_VERSION_STRING: &'static str = "4.0.6";

/// Whether the loader of the module at place `i` has a deactivation
/// function: place 0 is the plugin's module, the submodules follow.  A
/// loader that `deactivates` does not speak of has none.
pub open spec fn spec_has_deactivate(deactivates: Seq<bool>, i: int) -> bool {
    0 <= i < deactivates.len() && deactivates[i]
}

/// The calls that create and describe the submodules, one after the other.
pub open spec fn spec_submodules_calls(subs: Seq<SpecModuleInfo>, deactivates: Seq<bool>) -> Seq<
    SpecPropertyCall,
>
    decreases subs.len(),
{
    if subs.len() == 0 {
        seq![]
    } else {
        spec_submodules_calls(subs.drop_last(), deactivates) + seq![
            SpecPropertyCall::ModuleCreate { submodule: true },
        ] + spec_module_calls(subs.last(), spec_has_deactivate(deactivates, subs.len() as int))
    }
}

/// The calls that the registration of a manifest makes, in their order:
/// the plugin's module is created and named, then described; then each
/// submodule is created and described.
pub open spec fn spec_entry_calls(
    manifest: SpecManifest,
    module_name: Seq<char>,
    deactivates: Seq<bool>,
) -> Seq<SpecPropertyCall> {
    seq![
        SpecPropertyCall::ModuleCreate { submodule: false },
        SpecPropertyCall::ModuleName(module_name),
    ] + spec_module_calls(manifest.module, spec_has_deactivate(deactivates, 0))
        + spec_submodules_calls(manifest.subs(), deactivates)
}

/// The name of a symbol that the plugin exports: `symbol_name` itself, or,
/// for a plugin that is linked into the host, `symbol_name`, two
/// underscores and the module's name.
pub open spec fn spec_symbol(symbol_name: Seq<char>, module_name: Option<Seq<char>>) -> Seq<char> {
    match module_name {
        Some(module_name) => symbol_name + "__"@ + module_name,
        None => symbol_name,
    }
}

/// The name under which the host knows a plugin whose type, in lower case,
/// is `lowered`.
pub open spec fn spec_module_name(lowered: Seq<char>) -> Seq<char> {
    lowered + "-rs"@
}

/// What goes behind the names of the symbols of a plugin that is linked
/// into the host, for a type that is `lowered` in lower case.
pub open spec fn spec_module_suffix(lowered: Seq<char>) -> Seq<char> {
    lowered + "_rs"@
}

/// The view of an optional text.
pub open spec fn option_str_view(o: Option<&str>) -> Option<Seq<char>> {
    match o {
        Some(s) => Some(s@),
        None => None,
    }
}

/// The name of a symbol that the plugin exports.
pub fn vlc_symbol(symbol_name: &str, module_name: Option<&str>) -> (symbol: String)
    ensures
        symbol@ == spec_symbol(symbol_name@, option_str_view(module_name)),
{
    let mut symbol = String::from_str(symbol_name);
    match module_name {
        Some(module_name) => {
            symbol.append("__");
            symbol.append(module_name);
        },
        None => {},
    }
    symbol
}

/// An entry point that answers the host with a fixed text.
#[derive(Clone, Debug, PartialEq, Eq)]
pub struct EntryPoint {
    /// The name of the exported symbol.
    pub symbol: String,
    /// The text that it answers with.
    pub answer: String,
}

/// The entry point that tells the host which version of its interface the
/// plugin was written for.
pub fn vlc_entry_api_version(module_suffix: Option<&str>) -> (entry: EntryPoint)
    ensures
        entry.symbol@ == spec_symbol("vlc_entry_api_version"@, option_str_view(module_suffix)),
        entry.answer@ == VLC_API_VERSION_STRING@,
{
    EntryPoint {
        symbol: vlc_symbol("vlc_entry_api_version", module_suffix),
        answer: String::from_str(VLC_API_VERSION_STRING),
    }
}

/// The entry point that tells the host the plugin's copyright.
pub fn vlc_entry_copyright(module_suffix: Option<&str>) -> (entry: EntryPoint)
    ensures
        entry.symbol@ == spec_symbol("vlc_entry_copyright"@, option_str_view(module_suffix)),
        entry.answer@ == VLC_COPYRIGHT_VIDEOLAN@,
{
    EntryPoint {
        symbol: vlc_symbol("vlc_entry_copyright", module_suffix),
        answer: String::from_str(VLC_COPYRIGHT_VIDEOLAN),
    }
}

/// The entry point that tells the host the plugin's license.
pub fn vlc_entry_license(module_suffix: Option<&str>) -> (entry: EntryPoint)
    ensures
        entry.symbol@ == spec_symbol("vlc_entry_license"@, option_str_view(module_suffix)),
        entry.answer@ == VLC_LICENSE_LGPL_2_1_PLUS@,
{
    EntryPoint {
        symbol: vlc_symbol("vlc_entry_license", module_suffix),
        answer: String::from_str(VLC_LICENSE_LGPL_2_1_PLUS),
    }
}

/// The name under which the host knows a plugin whose type, in lower case,
/// is `lowered`.
pub fn module_name_from(lowered: &str) -> (name: String)
    ensures
        name@ == spec_module_name(lowered@),
{
    let mut name = String::from_str(lowered);
    name.append("-rs");
    name
}

/// What goes behind the names of the symbols of a plugin that is linked
/// into the host.
pub fn module_suffix_from(lowered: &str) -> (suffix: String)
    ensures
        suffix@ == spec_module_suffix(lowered@),
{
    let mut suffix = String::from_str(lowered);
    suffix.append("_rs");
    suffix
}

/// The name under which the host knows the plugin of a type: the type's
/// name in lower case, and `-rs`.
pub fn module_name(type_: &str) -> (name: String)
    ensures
        name@ == spec_module_name(lowercase(type_@)),
{
    let lowered = to_lowercase(type_);
    module_name_from(lowered.as_str())
}

/// Whether the loader of the module at place `i` has a deactivation
/// function.
fn has_deactivate(deactivates: &Vec<bool>, i: usize) -> (r: bool)
    ensures
        r == spec_has_deactivate(deactivates@, i as int),
{
    i < deactivates.len() && deactivates[i]
}

proof fn lemma_calls_view_add(a: Seq<PropertyCall>, b: Seq<PropertyCall>)
    ensures
        calls_view(a + b) == calls_view(a) + calls_view(b),
{
    assert(calls_view(a + b) =~= calls_view(a) + calls_view(b));
}

/// The calls that the registration of `manifest` makes, for a plugin that
/// the host knows as `module_name`.
///
/// `deactivates` says of each module, the plugin's own first, whether its
/// loader has a deactivation function; only then is one handed to the host.
pub fn entry_calls_named(manifest: &Manifest, module_name: String, deactivates: &Vec<bool>) -> (calls:
    Vec<PropertyCall>)
    requires
        manifest@.has_prefixes(),
    ensures
        calls_view(calls@) == spec_entry_calls(manifest@, module_name@, deactivates@),
{
    let ghost m = manifest@;
    let ghost name = module_name@;
    let mut calls: Vec<PropertyCall> = Vec::new();
    push_call(&mut calls, PropertyCall::ModuleCreate { submodule: false });
    push_call(&mut calls, PropertyCall::ModuleName(module_name));
    let mut own = generate_module_code(&manifest.module, has_deactivate(deactivates, 0));
    proof {
        lemma_calls_view_add(calls@, own@);
    }
    calls.append(&mut own);
    let ghost head = seq![
        SpecPropertyCall::ModuleCreate { submodule: false },
        SpecPropertyCall::ModuleName(name),
    ] + spec_module_calls(m.module, spec_has_deactivate(deactivates@, 0));
    assert(calls_view(calls@) =~= head);
    match &manifest.submodules {
        Some(subs) => {
            let ghost all = m.subs();
            let mut i: usize = 0;
            while i < subs.len()
                invariant
                    i <= subs.len(),
                    m == manifest@,
                    m.has_prefixes(),
                    manifest.submodules == Some(*subs),
                    all == m.subs(),
                    all.len() == subs.len(),
                    calls_view(calls@) == head + spec_submodules_calls(
                        all.take(i as int),
                        deactivates@,
                    ),
                decreases subs.len() - i,
            {
                let ghost before = calls_view(calls@);
                assert(all[i as int] == subs@[i as int]@);
                push_call(&mut calls, PropertyCall::ModuleCreate { submodule: true });
                let mut part = generate_module_code(
                    &subs[i].submodule,
                    has_deactivate(deactivates, i + 1),
                );
                proof {
                    lemma_calls_view_add(calls@, part@);
                }
                calls.append(&mut part);
                proof {
                    assert(all.take(i + 1).drop_last() =~= all.take(i as int));
                    assert(all.take(i + 1).last() == all[i as int]);
                    assert(calls_view(calls@) =~= before + seq![
                        SpecPropertyCall::ModuleCreate { submodule: true },
                    ] + spec_module_calls(
                        all[i as int],
                        spec_has_deactivate(deactivates@, i + 1),
                    ));
                    assert(calls_view(calls@) =~= head + spec_submodules_calls(
                        all.take(i + 1),
                        deactivates@,
                    ));
                }
                i += 1;
            }
            assert(all.take(subs.len() as int) =~= all);
        },
        None => {
            assert(calls_view(calls@) =~= head + Seq::<SpecPropertyCall>::empty());
        },
    }
    calls
}

/// The calls that the registration of `manifest` makes.  The host knows
/// the plugin by the name of its type in lower case, and `-rs`.
pub fn entry_calls(manifest: &Manifest, deactivates: &Vec<bool>) -> (calls: Vec<PropertyCall>)
    requires
        manifest@.has_prefixes(),
    ensures
        calls_view(calls@) == spec_entry_calls(
            manifest@,
            spec_module_name(lowercase(manifest@.module.type_)),
            deactivates@,
        ),
{
    let name = module_name(manifest.module.type_.as_str());
    entry_calls_named(manifest, name, deactivates)
}

/// A field of the structure that holds the values of a module's
/// parameters.
#[derive(Clone, Debug, PartialEq, Eq)]
pub struct ArgsField {
    pub name: String,
    pub type_: ParameterType,
}

/// The structure that holds the values of a module's parameters: one field
/// for each parameter, under the parameter's name.
#[derive(Clone, Debug, PartialEq, Eq)]
pub struct ArgsStruct {
    pub name: String,
    pub fields: Vec<ArgsField>,
}

pub struct SpecArgsStruct {
    pub name: Seq<char>,
    pub fields: Seq<(Seq<char>, ParameterType)>,
}

/// What a list of fields stands for.
pub open spec fn fields_view(fields: Seq<ArgsField>) -> Seq<(Seq<char>, ParameterType)> {
    fields.map_values(|f: ArgsField| (f.name@, f.type_))
}

impl View for ArgsStruct {
    type V = SpecArgsStruct;

    open spec fn view(&self) -> SpecArgsStruct {
        SpecArgsStruct { name: self.name@, fields: fields_view(self.fields@) }
    }
}

/// What a plugin exports, as its manifest declares it.
#[derive(Clone, Debug, PartialEq, Eq)]
pub struct Expansion {
    /// The name under which the host knows the plugin.
    pub module_name: String,
    /// What goes behind the names of the entry points where the plugin is
    /// linked into the host.
    pub module_suffix: String,
    /// The structure of the parameters of the plugin's module, if it has
    /// parameters.
    pub args: Option<ArgsStruct>,
    /// Every call that the registration can make, in order.  A
    /// `ModuleCbClose` among them is made only where the loader has a
    /// deactivation function.
    pub entry: Vec<PropertyCall>,
}

pub struct SpecExpansion {
    pub module_name: Seq<char>,
    pub module_suffix: Seq<char>,
    pub args: Option<SpecArgsStruct>,
    pub entry: Seq<SpecPropertyCall>,
}

impl View for Expansion {
    type V = SpecExpansion;

    open spec fn view(&self) -> SpecExpansion {
        SpecExpansion {
            module_name: self.module_name@,
            module_suffix: self.module_suffix@,
            args: match self.args {
                Some(a) => Some(a@),
                None => None,
            },
            entry: calls_view(self.entry@),
        }
    }
}

/// The type of the field that holds a parameter of type `t`.
pub open spec fn spec_rust_type(t: ParameterType) -> Seq<char> {
    match t {
        ParameterType::I64 => "i64"@,
        ParameterType::F32 => "f32"@,
        ParameterType::Bool => "bool"@,
        ParameterType::Str => "String"@,
    }
}

/// The type of the field that holds a parameter of type `t`.
pub fn rust_type(t: ParameterType) -> (name: &'static str)
    ensures
        name@ == spec_rust_type(t),
{
    match t {
        ParameterType::I64 => "i64",
        ParameterType::F32 => "f32",
        ParameterType::Bool => "bool",
        ParameterType::Str => "String",
    }
}

/// The structure of the parameters of a module: its name is the type's
/// name and `Args`.
pub open spec fn spec_args(m: SpecModuleInfo) -> Option<SpecArgsStruct> {
    match m.params {
        Some(params) => Some(
            SpecArgsStruct {
                name: m.type_ + "Args"@,
                fields: params.map_values(|p: SpecParameterInfo| (p.name, p.type_)),
            },
        ),
        None => None,
    }
}

/// What the plugin of a manifest exports, where `lowered` is the name of
/// its type in lower case.
pub open spec fn spec_expand(manifest: SpecManifest, lowered: Seq<char>) -> SpecExpansion {
    SpecExpansion {
        module_name: spec_module_name(lowered),
        module_suffix: spec_module_suffix(lowered),
        args: spec_args(manifest.module),
        entry: spec_entry_calls(
            manifest,
            spec_module_name(lowered),
            Seq::new(manifest.modules(), |i: int| true),
        ),
    }
}

/// The structure of the parameters of a module.
pub fn args_struct(module_info: &ModuleInfo) -> (args: Option<ArgsStruct>)
    ensures
        (match args {
            Some(a) => Some(a@),
            None => None,
        }) == spec_args(module_info@),
{
    match &module_info.params {
        None => None,
        Some(params) => {
            let mut name = module_info.type_.clone();
            name.append("Args");
            let mut fields: Vec<ArgsField> = Vec::new();
            let mut i: usize = 0;
            while i < params.len()
                invariant
                    i <= params.len(),
                    fields@.len() == i,
                    forall|k: int|
                        0 <= k < i ==> (#[trigger] fields@[k]).name@ == params@[k].name@
                            && fields@[k].type_ == params@[k].type_,
                decreases params.len() - i,
            {
                fields.push(ArgsField { name: params[i].name.clone(), type_: params[i].type_ });
                i += 1;
            }
            assert(fields_view(fields@) =~= params_view(params@).map_values(
                |p: SpecParameterInfo| (p.name, p.type_),
            ));
            Some(ArgsStruct { name, fields })
        },
    }
}

/// What the plugin of `manifest` exports, where `lowered` is the name of
/// its type in lower case.
pub fn expand_named(manifest: &Manifest, lowered: &str) -> (expansion: Expansion)
    requires
        manifest@.has_prefixes(),
    ensures
        expansion@ == spec_expand(manifest@, lowered@),
{
    let mut deactivates: Vec<bool> = Vec::new();
    deactivates.push(true);
    match &manifest.submodules {
        Some(subs) => {
            let mut i: usize = 0;
            while i < subs.len()
                invariant
                    i <= subs.len(),
                    deactivates@.len() == 1 + i,
                    forall|k: int| 0 <= k < deactivates@.len() ==> deactivates@[k],
                decreases subs.len() - i,
            {
                deactivates.push(true);
                i += 1;
            }
        },
        None => {},
    }
    assert(deactivates@ =~= Seq::new(manifest@.modules(), |i: int| true));
    let module_name = module_name_from(lowered);
    let entry = entry_calls_named(manifest, module_name.clone(), &deactivates);
    Expansion {
        module_name,
        module_suffix: module_suffix_from(lowered),
        args: args_struct(&manifest.module),
        entry,
    }
}

/// What the plugin of `manifest` exports.
pub fn expand(manifest: &Manifest) -> (expansion: Expansion)
    requires
        manifest@.has_prefixes(),
    ensures
        expansion@ == spec_expand(manifest@, lowercase(manifest@.module.type_)),
{
    let lowered = to_lowercase(manifest.module.type_.as_str());
    expand_named(manifest, lowered.as_str())
}

/// Reads a manifest and says what the plugin exports, or why the manifest
/// is refused.
pub fn module(input: &Vec<Token>) -> (r: Result<Expansion, ManifestError>)
    ensures
        match r {
            Ok(expansion) => spec_manifest(input@) matches Ok(m) && expansion@ == spec_expand(
                m,
                lowercase(m.module.type_),
            ),
            Err(e) => spec_manifest(input@) == Err::<SpecManifest, _>(e),
        },
{
    match Manifest::parse(input) {
        Err(e) => Err(e),
        Ok(manifest) => Ok(expand(&manifest)),
    }
}

} // verus!

//! One call of the host's setter callback, with its arguments.

use vstd::prelude::*;
use crate::plugin::{ConfigModule, ConfigSubcategory, ModuleProperties};
use crate::text::{option_view, strings_view};

verus! {

/// The handle that a setter call is aimed at.
#[derive(Clone, Copy, Debug, PartialEq, Eq, Structural)]
pub enum Target {
    /// No handle: the call creates one.
    Null,
    /// The module that was created last.
    Module,
    /// The configuration entry that was created last.
    Config,
}

/// One call of the host's setter callback.
///
/// Floating-point arguments are held as the bits of an IEEE 754 double.
#[derive(Clone, Debug, PartialEq, Eq)]
pub enum PropertyCall {
    /// Creates a module; a submodule is created under the plugin's module.
    ModuleCreate { submodule: bool },
    ModuleName(String),
    ModuleCapability(String),
    ModuleScore(i32),
    ModuleDescription(String),
    ModuleHelp(String),
    ModuleShortname(String),
    ModuleShortcut(Vec<String>),
    /// Hands the host the activation function that `loader` has for `type_`.
    ModuleCbOpen { name: String, type_: String, loader: String },
    /// Hands the host the deactivation function that `loader` has for `type_`.
    ModuleCbClose { name: String, type_: String, loader: String },
    ConfigCreate(ConfigModule),
    ConfigDesc { text: String, long_text: Option<String> },
    ConfigName(String),
    ConfigValueInt(i64),
    ConfigValueFloat(u64),
    ConfigValueStr(String),
    ConfigValueSubcategory(ConfigSubcategory),
    ConfigRemoved,
    ConfigRangeInt(i64, i64),
    ConfigRangeFloat(u64, u64),
}

/// What a `PropertyCall` stands for, with texts as sequences of characters.
pub enum SpecPropertyCall {
    ModuleCreate { submodule: bool },
    ModuleName(Seq<char>),
    ModuleCapability(Seq<char>),
    ModuleScore(i32),
    ModuleDescription(Seq<char>),
    ModuleHelp(Seq<char>),
    ModuleShortname(Seq<char>),
    ModuleShortcut(Seq<Seq<char>>),
    ModuleCbOpen { name: Seq<char>, type_: Seq<char>, loader: Seq<char> },
    ModuleCbClose { name: Seq<char>, type_: Seq<char>, loader: Seq<char> },
    ConfigCreate(ConfigModule),
    ConfigDesc { text: Seq<char>, long_text: Option<Seq<char>> },
    ConfigName(Seq<char>),
    ConfigValueInt(i64),
    ConfigValueFloat(u64),
    ConfigValueStr(Seq<char>),
    ConfigValueSubcategory(ConfigSubcategory),
    ConfigRemoved,
    ConfigRangeInt(i64, i64),
    ConfigRangeFloat(u64, u64),
}

impl SpecPropertyCall {
    /// The operation code that the call passes to the setter.
    pub open spec fn opcode(self) -> ModuleProperties {
        match self {
            SpecPropertyCall::ModuleCreate { .. } => ModuleProperties::MODULE_CREATE,
            SpecPropertyCall::ModuleName(_) => ModuleProperties::MODULE_NAME,
            SpecPropertyCall::ModuleCapability(_) => ModuleProperties::MODULE_CAPABILITY,
            SpecPropertyCall::ModuleScore(_) => ModuleProperties::MODULE_SCORE,
            SpecPropertyCall::ModuleDescription(_) => ModuleProperties::MODULE_DESCRIPTION,
            SpecPropertyCall::ModuleHelp(_) => ModuleProperties::MODULE_HELP,
            SpecPropertyCall::ModuleShortname(_) => ModuleProperties::MODULE_SHORTNAME,
            SpecPropertyCall::ModuleShortcut(_) => ModuleProperties::MODULE_SHORTCUT,
            SpecPropertyCall::ModuleCbOpen { .. } => ModuleProperties::MODULE_CB_OPEN,
            SpecPropertyCall::ModuleCbClose { .. } => ModuleProperties::MODULE_CB_CLOSE,
            SpecPropertyCall::ConfigCreate(_) => ModuleProperties::CONFIG_CREATE,
            SpecPropertyCall::ConfigDesc { .. } => ModuleProperties::CONFIG_DESC,
            SpecPropertyCall::ConfigName(_) => ModuleProperties::CONFIG_NAME,
            SpecPropertyCall::ConfigValueInt(_) => ModuleProperties::CONFIG_VALUE,
            SpecPropertyCall::ConfigValueFloat(_) => ModuleProperties::CONFIG_VALUE,
            SpecPropertyCall::ConfigValueStr(_) => ModuleProperties::CONFIG_VALUE,
            SpecPropertyCall::ConfigValueSubcategory(_) => ModuleProperties::CONFIG_VALUE,
            SpecPropertyCall::ConfigRemoved => ModuleProperties::CONFIG_REMOVED,
            SpecPropertyCall::ConfigRangeInt(_, _) => ModuleProperties::CONFIG_RANGE,
            SpecPropertyCall::ConfigRangeFloat(_, _) => ModuleProperties::CONFIG_RANGE,
        }
    }

    /// The handle that the call is aimed at: a property goes to the module
    /// or the configuration entry that was created last, a creation to none,
    /// but for a submodule, which is created under the plugin's module.
    pub open spec fn target(self) -> Target {
        match self {
            SpecPropertyCall::ModuleCreate { submodule } => if submodule {
                Target::Module
            } else {
                Target::Null
            },
            SpecPropertyCall::ConfigCreate(_) => Target::Null,
            _ => if self.opcode().spec_is_config_property() {
                Target::Config
            } else {
                Target::Module
            },
        }
    }
}

impl View for PropertyCall {
    type V = SpecPropertyCall;

    open spec fn view(&self) -> SpecPropertyCall {
        match *self {
            PropertyCall::ModuleCreate { submodule } => SpecPropertyCall::ModuleCreate {
                submodule,
            },
            PropertyCall::ModuleName(s) => SpecPropertyCall::ModuleName(s@),
            PropertyCall::ModuleCapability(s) => SpecPropertyCall::ModuleCapability(s@),
            PropertyCall::ModuleScore(n) => SpecPropertyCall::ModuleScore(n),
            PropertyCall::ModuleDescription(s) => SpecPropertyCall::ModuleDescription(s@),
            PropertyCall::ModuleHelp(s) => SpecPropertyCall::ModuleHelp(s@),
            PropertyCall::ModuleShortname(s) => SpecPropertyCall::ModuleShortname(s@),
            PropertyCall::ModuleShortcut(v) => SpecPropertyCall::ModuleShortcut(strings_view(v@)),
            PropertyCall::ModuleCbOpen { name, type_, loader } => SpecPropertyCall::ModuleCbOpen {
                name: name@,
                type_: type_@,
                loader: loader@,
            },
            PropertyCall::ModuleCbClose { name, type_, loader } => SpecPropertyCall::ModuleCbClose {
                name: name@,
                type_: type_@,
                loader: loader@,
            },
            PropertyCall::ConfigCreate(k) => SpecPropertyCall::ConfigCreate(k),
            PropertyCall::ConfigDesc { text, long_text } => SpecPropertyCall::ConfigDesc {
                text: text@,
                long_text: option_view(long_text),
            },
            PropertyCall::ConfigName(s) => SpecPropertyCall::ConfigName(s@),
            PropertyCall::ConfigValueInt(n) => SpecPropertyCall::ConfigValueInt(n),
            PropertyCall::ConfigValueFloat(b) => SpecPropertyCall::ConfigValueFloat(b),
            PropertyCall::ConfigValueStr(s) => SpecPropertyCall::ConfigValueStr(s@),
            PropertyCall::ConfigValueSubcategory(c) => SpecPropertyCall::ConfigValueSubcategory(c),
            PropertyCall::ConfigRemoved => SpecPropertyCall::ConfigRemoved,
            PropertyCall::ConfigRangeInt(a, b) => SpecPropertyCall::ConfigRangeInt(a, b),
            PropertyCall::ConfigRangeFloat(a, b) => SpecPropertyCall::ConfigRangeFloat(a, b),
        }
    }
}

/// What a list of calls stands for.
pub open spec fn calls_view(calls: Seq<PropertyCall>) -> Seq<SpecPropertyCall> {
    calls.map_values(|c: PropertyCall| c@)
}

impl PropertyCall {
    /// The operation code that the call passes to the setter.
    pub fn opcode(&self) -> (r: ModuleProperties)
        ensures
            r == self@.opcode(),
    {
        match self {
            PropertyCall::ModuleCreate { .. } => ModuleProperties::MODULE_CREATE,
            PropertyCall::ModuleName(_) => ModuleProperties::MODULE_NAME,
            PropertyCall::ModuleCapability(_) => ModuleProperties::MODULE_CAPABILITY,
            PropertyCall::ModuleScore(_) => ModuleProperties::MODULE_SCORE,
            PropertyCall::ModuleDescription(_) => ModuleProperties::MODULE_DESCRIPTION,
            PropertyCall::ModuleHelp(_) => ModuleProperties::MODULE_HELP,
            PropertyCall::ModuleShortname(_) => ModuleProperties::MODULE_SHORTNAME,
            PropertyCall::ModuleShortcut(_) => ModuleProperties::MODULE_SHORTCUT,
            PropertyCall::ModuleCbOpen { .. } => ModuleProperties::MODULE_CB_OPEN,
            PropertyCall::ModuleCbClose { .. } => ModuleProperties::MODULE_CB_CLOSE,
            PropertyCall::ConfigCreate(_) => ModuleProperties::CONFIG_CREATE,
            PropertyCall::ConfigDesc { .. } => ModuleProperties::CONFIG_DESC,
            PropertyCall::ConfigName(_) => ModuleProperties::CONFIG_NAME,
            PropertyCall::ConfigValueInt(_) => ModuleProperties::CONFIG_VALUE,
            PropertyCall::ConfigValueFloat(_) => ModuleProperties::CONFIG_VALUE,
            PropertyCall::ConfigValueStr(_) => ModuleProperties::CONFIG_VALUE,
            PropertyCall::ConfigValueSubcategory(_) => ModuleProperties::CONFIG_VALUE,
            PropertyCall::ConfigRemoved => ModuleProperties::CONFIG_REMOVED,
            PropertyCall::ConfigRangeInt(_, _) => ModuleProperties::CONFIG_RANGE,
            PropertyCall::ConfigRangeFloat(_, _) => ModuleProperties::CONFIG_RANGE,
        }
    }

    /// The handle that the call is aimed at.
    pub fn target(&self) -> (r: Target)
        ensures
            r == self@.target(),
    {
        match self {
            PropertyCall::ModuleCreate { submodule } => if *submodule {
                Target::Module
            } else {
                Target::Null
            },
            PropertyCall::ConfigCreate(_) => Target::Null,
            _ => if self.opcode().code() >= 0x1000 {
                Target::Config
            } else {
                Target::Module
            },
        }
    }
}

/// Appends one call to a list of calls.
pub fn push_call(calls: &mut Vec<PropertyCall>, call: PropertyCall)
    ensures
        calls_view(final(calls)@) == calls_view(old(calls)@).push(call@),
        final(calls)@ == old(calls)@.push(call),
{
    calls.push(call);
    assert(calls_view(calls@) =~= calls_view(old(calls)@).push(call@));
}

} // verus!

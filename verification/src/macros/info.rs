//! What a manifest declares: modules, their capability and their
//! configuration parameters.

use vstd::prelude::*;
use crate::plugin::ConfigSubcategory;
use crate::text::{option_view, strings_view};

verus! {

/// The scalar type of a configuration parameter.
#[derive(Clone, Copy, Debug, PartialEq, Eq, Structural)]
pub enum ParameterType {
    /// `i64`: a signed integer of 64 bits.
    I64,
    /// `f32`: a floating-point number.
    F32,
    /// `bool`.
    Bool,
    /// `str`: a text.
    Str,
}

/// What a parameter means beyond its scalar type.
#[derive(Clone, Copy, Debug, PartialEq, Eq, Structural)]
pub enum Modifier {
    Rgb,
    Font,
    Savefile,
    Loadfile,
    Password,
    Directory,
}

/// A value written in a manifest: a default, or a bound of a range.
/// A floating-point value is held as the bits of an IEEE 754 double.
#[derive(Clone, Debug, PartialEq, Eq)]
pub enum Value {
    Int(i64),
    Float(u64),
    Bool(bool),
    Str(String),
}

pub enum SpecValue {
    Int(i64),
    Float(u64),
    Bool(bool),
    Str(Seq<char>),
}

impl SpecValue {
    /// Whether a value of this kind can be the default of a parameter of
    /// type `t`.
    pub open spec fn has_type(self, t: ParameterType) -> bool {
        match self {
            SpecValue::Int(_) => t == ParameterType::I64,
            SpecValue::Float(_) => t == ParameterType::F32,
            SpecValue::Bool(_) => t == ParameterType::Bool,
            SpecValue::Str(_) => t == ParameterType::Str,
        }
    }
}

impl View for Value {
    type V = SpecValue;

    open spec fn view(&self) -> SpecValue {
        match *self {
            Value::Int(n) => SpecValue::Int(n),
            Value::Float(b) => SpecValue::Float(b),
            Value::Bool(b) => SpecValue::Bool(b),
            Value::Str(s) => SpecValue::Str(s@),
        }
    }
}

/// The section of the generated help that a parameter opens.
#[derive(Clone, Debug, PartialEq, Eq)]
pub struct SectionInfo {
    pub name: String,
    pub description: Option<String>,
}

pub struct SpecSectionInfo {
    pub name: Seq<char>,
    pub description: Option<Seq<char>>,
}

impl View for SectionInfo {
    type V = SpecSectionInfo;

    open spec fn view(&self) -> SpecSectionInfo {
        SpecSectionInfo { name: self.name@, description: option_view(self.description) }
    }
}

/// The text that the names of a module's parameters start with.
#[derive(Clone, Debug, PartialEq, Eq)]
pub struct PrefixInfo {
    pub prefix: String,
}

impl View for PrefixInfo {
    type V = Seq<char>;

    open spec fn view(&self) -> Seq<char> {
        self.prefix@
    }
}

/// The characters of an optional prefix.
pub open spec fn prefix_view(p: Option<PrefixInfo>) -> Option<Seq<char>> {
    match p {
        Some(p) => Some(p@),
        None => None,
    }
}

/// The role that a module plays for the host, and its priority among the
/// modules that play the same role: the highest score wins.
#[derive(Clone, Debug, PartialEq, Eq)]
pub struct CapabilityInfo {
    pub capability: String,
    pub score: i32,
}

pub struct SpecCapabilityInfo {
    pub capability: Seq<char>,
    pub score: i32,
}

impl View for CapabilityInfo {
    type V = SpecCapabilityInfo;

    open spec fn view(&self) -> SpecCapabilityInfo {
        SpecCapabilityInfo { capability: self.capability@, score: self.score }
    }
}

/// One configuration parameter of a module.
#[derive(Clone, Debug, PartialEq, Eq)]
pub struct ParameterInfo {
    pub name: String,
    pub type_: ParameterType,
    /// The least and the greatest value, both included.
    pub range: Option<(Value, Value)>,
    pub default_: Value,
    pub text: String,
    pub long_text: String,
    /// A prefix of its own, which goes before the module's.
    pub prefix: Option<PrefixInfo>,
    pub section: Option<SectionInfo>,
    pub modifier: Option<Modifier>,
    pub deprecated: bool,
}

pub struct SpecParameterInfo {
    pub name: Seq<char>,
    pub type_: ParameterType,
    pub range: Option<(SpecValue, SpecValue)>,
    pub default_: SpecValue,
    pub text: Seq<char>,
    pub long_text: Seq<char>,
    pub prefix: Option<Seq<char>>,
    pub section: Option<SpecSectionInfo>,
    pub modifier: Option<Modifier>,
    pub deprecated: bool,
}

impl SpecParameterInfo {
    /// The default has the parameter's type; a range stands on a numeric
    /// parameter only, with bounds of its type; the RGB modifier stands on
    /// an integer, every other modifier on a text.
    pub open spec fn well_typed(self) -> bool {
        &&& self.default_.has_type(self.type_)
        &&& self.range matches Some((from, to)) ==> {
            &&& self.type_ == ParameterType::I64 || self.type_ == ParameterType::F32
            &&& from.has_type(self.type_)
            &&& to.has_type(self.type_)
        }
        &&& self.modifier matches Some(m) ==> {
            if m == Modifier::Rgb {
                self.type_ == ParameterType::I64
            } else {
                self.type_ == ParameterType::Str
            }
        }
    }

    /// Well typed, and without a range of its own where it is an RGB color,
    /// whose range is fixed.
    pub open spec fn valid(self) -> bool {
        &&& self.well_typed()
        &&& self.modifier == Some(Modifier::Rgb) ==> self.range is None
    }
}

impl View for ParameterInfo {
    type V = SpecParameterInfo;

    open spec fn view(&self) -> SpecParameterInfo {
        SpecParameterInfo {
            name: self.name@,
            type_: self.type_,
            range: match self.range {
                Some((from, to)) => Some((from@, to@)),
                None => None,
            },
            default_: self.default_@,
            text: self.text@,
            long_text: self.long_text@,
            prefix: prefix_view(self.prefix),
            section: match self.section {
                Some(s) => Some(s@),
                None => None,
            },
            modifier: self.modifier,
            deprecated: self.deprecated,
        }
    }
}

/// What a list of parameters stands for.
pub open spec fn params_view(params: Seq<ParameterInfo>) -> Seq<SpecParameterInfo> {
    params.map_values(|p: ParameterInfo| p@)
}

/// What one module declares of itself.
#[derive(Clone, Debug, PartialEq, Eq)]
pub struct ModuleInfo {
    /// The type that implements the capability.
    pub type_: String,
    /// The type that has the activation and deactivation functions of the
    /// capability.
    pub loader: String,
    pub category: ConfigSubcategory,
    pub capability: CapabilityInfo,
    pub description: String,
    pub help: Option<String>,
    pub shortname: Option<String>,
    pub prefix: Option<PrefixInfo>,
    pub params: Option<Vec<ParameterInfo>>,
    pub shortcuts: Option<Vec<String>>,
}

pub struct SpecModuleInfo {
    pub type_: Seq<char>,
    pub loader: Seq<char>,
    pub category: ConfigSubcategory,
    pub capability: SpecCapabilityInfo,
    pub description: Seq<char>,
    pub help: Option<Seq<char>>,
    pub shortname: Option<Seq<char>>,
    pub prefix: Option<Seq<char>>,
    pub params: Option<Seq<SpecParameterInfo>>,
    pub shortcuts: Option<Seq<Seq<char>>>,
}

impl SpecModuleInfo {
    /// Parameters come with a prefix for their names.
    pub open spec fn has_prefix(self) -> bool {
        self.params is Some ==> self.prefix is Some
    }

    /// Parameters come with a prefix for their names, and each of them is
    /// well typed.
    pub open spec fn well_typed(self) -> bool {
        &&& self.has_prefix()
        &&& self.params matches Some(params) ==> forall|i: int|
            0 <= i < params.len() ==> (#[trigger] params[i]).well_typed()
    }

    /// Parameters come with a prefix for their names, and each of them is
    /// valid.
    pub open spec fn valid(self) -> bool {
        &&& self.has_prefix()
        &&& self.params matches Some(params) ==> forall|i: int|
            0 <= i < params.len() ==> (#[trigger] params[i]).valid()
    }
}

impl View for ModuleInfo {
    type V = SpecModuleInfo;

    open spec fn view(&self) -> SpecModuleInfo {
        SpecModuleInfo {
            type_: self.type_@,
            loader: self.loader@,
            category: self.category,
            capability: self.capability@,
            description: self.description@,
            help: option_view(self.help),
            shortname: option_view(self.shortname),
            prefix: prefix_view(self.prefix),
            params: match self.params {
                Some(v) => Some(params_view(v@)),
                None => None,
            },
            shortcuts: match self.shortcuts {
                Some(v) => Some(strings_view(v@)),
                None => None,
            },
        }
    }
}

/// A further module of the same plugin.  It declares what a module
/// declares, but no submodules of its own.
#[derive(Clone, Debug, PartialEq, Eq)]
pub struct SubmoduleInfo {
    pub submodule: ModuleInfo,
}

impl View for SubmoduleInfo {
    type V = SpecModuleInfo;

    open spec fn view(&self) -> SpecModuleInfo {
        self.submodule@
    }
}

/// What a list of submodules stands for.
pub open spec fn submodules_view(subs: Seq<SubmoduleInfo>) -> Seq<SpecModuleInfo> {
    subs.map_values(|s: SubmoduleInfo| s@)
}

/// A whole manifest: the plugin's module and its submodules.
#[derive(Clone, Debug, PartialEq, Eq)]
pub struct Manifest {
    pub module: ModuleInfo,
    pub submodules: Option<Vec<SubmoduleInfo>>,
}

pub struct SpecManifest {
    pub module: SpecModuleInfo,
    pub submodules: Option<Seq<SpecModuleInfo>>,
}

impl SpecManifest {
    /// The submodules, none where the manifest declares none.
    pub open spec fn subs(self) -> Seq<SpecModuleInfo> {
        match self.submodules {
            Some(s) => s,
            None => Seq::empty(),
        }
    }

    /// The number of modules, the plugin's own included.
    pub open spec fn modules(self) -> nat {
        1 + self.subs().len()
    }

    /// Every module with parameters has a prefix for their names.
    pub open spec fn has_prefixes(self) -> bool {
        &&& self.module.has_prefix()
        &&& forall|i: int| 0 <= i < self.subs().len() ==> (#[trigger] self.subs()[i]).has_prefix()
    }

    pub open spec fn well_typed(self) -> bool {
        &&& self.module.well_typed()
        &&& forall|i: int| 0 <= i < self.subs().len() ==> (#[trigger] self.subs()[i]).well_typed()
    }

    pub open spec fn valid(self) -> bool {
        &&& self.module.valid()
        &&& forall|i: int| 0 <= i < self.subs().len() ==> (#[trigger] self.subs()[i]).valid()
    }
}

impl View for Manifest {
    type V = SpecManifest;

    open spec fn view(&self) -> SpecManifest {
        SpecManifest {
            module: self.module@,
            submodules: match self.submodules {
                Some(v) => Some(submodules_view(v@)),
                None => None,
            },
        }
    }
}

} // verus!

//! The property protocol: the codes and the calls that the host's setter
//! callback accepts, and the loader interface of a capability.

use vstd::prelude::*;

pub mod call;
pub mod entry;

verus! {

/// What the host's copyright entry point answers.
pub const VLC_COPYRIGHT_VIDEOLAN: &'static str = r#"
\x43\x6f\x70\x79\x72\x69\x67\x68\x74\x20\x28\x43\x29\x20\x74\x68
\x65\x20\x56\x69\x64\x65\x6f\x4c\x41\x4e\x20\x56\x4c\x43\x20\x6d
\x65\x64\x69\x61\x20\x70\x6c\x61\x79\x65\x72\x20\x64\x65\x76\x65
\x6c\x6f\x70\x65\x72\x73"#;

/// What the host's license entry point answers.
pub const VLC_LICENSE_LGPL_2_1_PLUS: &'static str = r#"
\x4c\x69\x63\x65\x6e\x73\x65\x64\x20\x75\x6e\x64\x65\x72\x20\x74
\x68\x65\x20\x74\x65\x72\x6d\x73\x20\x6f\x66\x20\x74\x68\x65\x20
\x47\x4e\x55\x20\x4c\x65\x73\x73\x65\x72\x20\x47\x65\x6e\x65\x72
\x61\x6c\x20\x50\x75\x62\x6c\x69\x63\x20\x4c\x69\x63\x65\x6e\x73
\x65\x2c\x20\x76\x65\x72\x73\x69\x6f\x6e\x20\x32\x2e\x31\x20\x6f"#;

/// The kind of a configuration entry, as the host numbers it.
///
/// The three high bits of an item's code give its class (float, integer,
/// boolean, string); the five low bits give a flavor within the class.
#[allow(non_camel_case_types)]
#[derive(Clone, Copy, Debug, PartialEq, Eq, Structural)]
pub enum ConfigModule {
    HINT_CATEGORY,
    SUBCATEGORY,
    SECTION,
    ITEM_FLOAT,
    ITEM_INTEGER,
    ITEM_RGB,
    ITEM_BOOL,
    ITEM_STRING,
    ITEM_PASSWORD,
    ITEM_KEY,
    ITEM_MODULE,
    ITEM_MODULE_CAT,
    ITEM_MODULE_LIST,
    ITEM_MODULE_LIST_CAT,
    ITEM_LOADFILE,
    ITEM_SAVEFILE,
    ITEM_DIRECTORY,
    ITEM_FONT,
}

impl ConfigModule {
    /// The number that the host knows this kind by.
    pub open spec fn spec_code(self) -> int {
        match self {
            ConfigModule::HINT_CATEGORY => 0x02,
            ConfigModule::SUBCATEGORY => 0x07,
            ConfigModule::SECTION => 0x08,
            ConfigModule::ITEM_FLOAT => 0x20,
            ConfigModule::ITEM_INTEGER => 0x40,
            ConfigModule::ITEM_RGB => 0x41,
            ConfigModule::ITEM_BOOL => 0x60,
            ConfigModule::ITEM_STRING => 0x80,
            ConfigModule::ITEM_PASSWORD => 0x81,
            ConfigModule::ITEM_KEY => 0x82,
            ConfigModule::ITEM_MODULE => 0x84,
            ConfigModule::ITEM_MODULE_CAT => 0x85,
            ConfigModule::ITEM_MODULE_LIST => 0x86,
            ConfigModule::ITEM_MODULE_LIST_CAT => 0x87,
            ConfigModule::ITEM_LOADFILE => 0x8C,
            ConfigModule::ITEM_SAVEFILE => 0x8D,
            ConfigModule::ITEM_DIRECTORY => 0x8E,
            ConfigModule::ITEM_FONT => 0x8F,
        }
    }

    pub fn code(&self) -> (c: u32)
        ensures
            c == self.spec_code(),
    {
        match self {
            ConfigModule::HINT_CATEGORY => 0x02,
            ConfigModule::SUBCATEGORY => 0x07,
            ConfigModule::SECTION => 0x08,
            ConfigModule::ITEM_FLOAT => 0x20,
            ConfigModule::ITEM_INTEGER => 0x40,
            ConfigModule::ITEM_RGB => 0x41,
            ConfigModule::ITEM_BOOL => 0x60,
            ConfigModule::ITEM_STRING => 0x80,
            ConfigModule::ITEM_PASSWORD => 0x81,
            ConfigModule::ITEM_KEY => 0x82,
            ConfigModule::ITEM_MODULE => 0x84,
            ConfigModule::ITEM_MODULE_CAT => 0x85,
            ConfigModule::ITEM_MODULE_LIST => 0x86,
            ConfigModule::ITEM_MODULE_LIST_CAT => 0x87,
            ConfigModule::ITEM_LOADFILE => 0x8C,
            ConfigModule::ITEM_SAVEFILE => 0x8D,
            ConfigModule::ITEM_DIRECTORY => 0x8E,
            ConfigModule::ITEM_FONT => 0x8F,
        }
    }
}

/// The top-level categories of the host's preferences.
#[allow(non_camel_case_types)]
#[derive(Clone, Copy, Debug, PartialEq, Eq, Structural)]
pub enum ConfigCategory {
    HIDDEN,
    UNKNOWN,
    INTERFACE,
    AUDIO,
    VIDEO,
    INPUT,
    SOUT,
    ADVANCED,
    PLAYLIST,
}

impl ConfigCategory {
    /// The number that the host knows this category by.
    pub open spec fn spec_code(self) -> int {
        match self {
            ConfigCategory::HIDDEN => -1,
            ConfigCategory::UNKNOWN => 0,
            ConfigCategory::INTERFACE => 1,
            ConfigCategory::AUDIO => 2,
            ConfigCategory::VIDEO => 3,
            ConfigCategory::INPUT => 4,
            ConfigCategory::SOUT => 5,
            ConfigCategory::ADVANCED => 6,
            ConfigCategory::PLAYLIST => 7,
        }
    }

    pub fn code(&self) -> (c: i32)
        ensures
            c == self.spec_code(),
    {
        match self {
            ConfigCategory::HIDDEN => -1,
            ConfigCategory::UNKNOWN => 0,
            ConfigCategory::INTERFACE => 1,
            ConfigCategory::AUDIO => 2,
            ConfigCategory::VIDEO => 3,
            ConfigCategory::INPUT => 4,
            ConfigCategory::SOUT => 5,
            ConfigCategory::ADVANCED => 6,
            ConfigCategory::PLAYLIST => 7,
        }
    }
}

/// The subcategories of the host's preferences.  A module's configuration
/// is filed under one of them.
#[allow(non_camel_case_types)]
#[derive(Clone, Copy, Debug, PartialEq, Eq, Structural)]
pub enum ConfigSubcategory {
    HIDDEN,
    UNKNOWN,
    INTERFACE_GENERAL,
    INTERFACE_MAIN,
    INTERFACE_CONTROL,
    INTERFACE_HOTKEYS,
    AUDIO_GENERAL,
    AUDIO_AOUT,
    AUDIO_AFILTER,
    AUDIO_VISUAL,
    AUDIO_RESAMPLER,
    VIDEO_GENERAL,
    VIDEO_VOUT,
    VIDEO_VFILTER,
    VIDEO_SUBPIC,
    VIDEO_SPLITTER,
    INPUT_GENERAL,
    INPUT_ACCESS,
    INPUT_DEMUX,
    INPUT_VCODEC,
    INPUT_ACODEC,
    INPUT_SCODEC,
    INPUT_STREAM_FILTER,
    SOUT_GENERAL,
    SOUT_STREAM,
    SOUT_MUX,
    SOUT_ACO,
    SOUT_PACKETIZER,
    SOUT_VOD,
    SOUT_RENDERER,
    ADVANCED_MISC,
    ADVANCED_NETWORK,
    PLAYLIST_GENERAL,
    PLAYLIST_SD,
    PLAYLIST_EXPORT,
}

impl ConfigSubcategory {
    /// The number that the host knows this subcategory by.
    pub open spec fn spec_code(self) -> int {
        match self {
            ConfigSubcategory::HIDDEN => -1,
            ConfigSubcategory::UNKNOWN => 0,
            ConfigSubcategory::INTERFACE_GENERAL => 101,
            ConfigSubcategory::INTERFACE_MAIN => 102,
            ConfigSubcategory::INTERFACE_CONTROL => 103,
            ConfigSubcategory::INTERFACE_HOTKEYS => 104,
            ConfigSubcategory::AUDIO_GENERAL => 201,
            ConfigSubcategory::AUDIO_AOUT => 202,
            ConfigSubcategory::AUDIO_AFILTER => 203,
            ConfigSubcategory::AUDIO_VISUAL => 204,
            ConfigSubcategory::AUDIO_RESAMPLER => 206,
            ConfigSubcategory::VIDEO_GENERAL => 301,
            ConfigSubcategory::VIDEO_VOUT => 302,
            ConfigSubcategory::VIDEO_VFILTER => 303,
            ConfigSubcategory::VIDEO_SUBPIC => 305,
            ConfigSubcategory::VIDEO_SPLITTER => 306,
            ConfigSubcategory::INPUT_GENERAL => 401,
            ConfigSubcategory::INPUT_ACCESS => 402,
            ConfigSubcategory::INPUT_DEMUX => 403,
            ConfigSubcategory::INPUT_VCODEC => 404,
            ConfigSubcategory::INPUT_ACODEC => 405,
            ConfigSubcategory::INPUT_SCODEC => 406,
            ConfigSubcategory::INPUT_STREAM_FILTER => 407,
            ConfigSubcategory::SOUT_GENERAL => 501,
            ConfigSubcategory::SOUT_STREAM => 502,
            ConfigSubcategory::SOUT_MUX => 503,
            ConfigSubcategory::SOUT_ACO => 504,
            ConfigSubcategory::SOUT_PACKETIZER => 505,
            ConfigSubcategory::SOUT_VOD => 507,
            ConfigSubcategory::SOUT_RENDERER => 508,
            ConfigSubcategory::ADVANCED_MISC => 602,
            ConfigSubcategory::ADVANCED_NETWORK => 603,
            ConfigSubcategory::PLAYLIST_GENERAL => 701,
            ConfigSubcategory::PLAYLIST_SD => 702,
            ConfigSubcategory::PLAYLIST_EXPORT => 703,
        }
    }

    pub fn code(&self) -> (c: i32)
        ensures
            c == self.spec_code(),
    {
        match self {
            ConfigSubcategory::HIDDEN => -1,
            ConfigSubcategory::UNKNOWN => 0,
            ConfigSubcategory::INTERFACE_GENERAL => 101,
            ConfigSubcategory::INTERFACE_MAIN => 102,
            ConfigSubcategory::INTERFACE_CONTROL => 103,
            ConfigSubcategory::INTERFACE_HOTKEYS => 104,
            ConfigSubcategory::AUDIO_GENERAL => 201,
            ConfigSubcategory::AUDIO_AOUT => 202,
            ConfigSubcategory::AUDIO_AFILTER => 203,
            ConfigSubcategory::AUDIO_VISUAL => 204,
            ConfigSubcategory::AUDIO_RESAMPLER => 206,
            ConfigSubcategory::VIDEO_GENERAL => 301,
            ConfigSubcategory::VIDEO_VOUT => 302,
            ConfigSubcategory::VIDEO_VFILTER => 303,
            ConfigSubcategory::VIDEO_SUBPIC => 305,
            ConfigSubcategory::VIDEO_SPLITTER => 306,
            ConfigSubcategory::INPUT_GENERAL => 401,
            ConfigSubcategory::INPUT_ACCESS => 402,
            ConfigSubcategory::INPUT_DEMUX => 403,
            ConfigSubcategory::INPUT_VCODEC => 404,
            ConfigSubcategory::INPUT_ACODEC => 405,
            ConfigSubcategory::INPUT_SCODEC => 406,
            ConfigSubcategory::INPUT_STREAM_FILTER => 407,
            ConfigSubcategory::SOUT_GENERAL => 501,
            ConfigSubcategory::SOUT_STREAM => 502,
            ConfigSubcategory::SOUT_MUX => 503,
            ConfigSubcategory::SOUT_ACO => 504,
            ConfigSubcategory::SOUT_PACKETIZER => 505,
            ConfigSubcategory::SOUT_VOD => 507,
            ConfigSubcategory::SOUT_RENDERER => 508,
            ConfigSubcategory::ADVANCED_MISC => 602,
            ConfigSubcategory::ADVANCED_NETWORK => 603,
            ConfigSubcategory::PLAYLIST_GENERAL => 701,
            ConfigSubcategory::PLAYLIST_SD => 702,
            ConfigSubcategory::PLAYLIST_EXPORT => 703,
        }
    }
}

/// Every operation that the host's setter callback accepts.
///
/// The numbers are fixed by the host: the two creations come first, the
/// properties of a module start at `0x100`, those of a configuration entry
/// at `0x1000`.
#[allow(non_camel_case_types)]
#[derive(Clone, Copy, Debug, PartialEq, Eq, PartialOrd, Structural)]
pub enum ModuleProperties {
    MODULE_CREATE,
    CONFIG_CREATE,
    MODULE_CPU_REQUIREMENT,
    MODULE_SHORTCUT,
    MODULE_CAPABILITY,
    MODULE_SCORE,
    MODULE_CB_OPEN,
    MODULE_CB_CLOSE,
    MODULE_NO_UNLOAD,
    MODULE_NAME,
    MODULE_SHORTNAME,
    MODULE_DESCRIPTION,
    MODULE_HELP,
    MODULE_TEXTDOMAIN,
    MODULE_HELP_HTML,
    CONFIG_NAME,
    CONFIG_VALUE,
    CONFIG_RANGE,
    CONFIG_ADVANCED_RESERVED,
    CONFIG_VOLATILE,
    CONFIG_PERSISTENT_OBSOLETE,
    CONFIG_PRIVATE,
    CONFIG_REMOVED,
    CONFIG_CAPABILITY,
    CONFIG_SHORTCUT,
    CONFIG_OLDNAME_OBSOLETE,
    CONFIG_SAFE,
    CONFIG_DESC,
    CONFIG_LIST_OBSOLETE,
    CONFIG_ADD_ACTION_OBSOLETE,
    CONFIG_LIST,
    CONFIG_LIST_CB_OBSOLETE,
}

impl ModuleProperties {
    /// The number that the host knows this operation by.
    pub open spec fn spec_code(self) -> int {
        match self {
            ModuleProperties::MODULE_CREATE => 0,
            ModuleProperties::CONFIG_CREATE => 1,
            ModuleProperties::MODULE_CPU_REQUIREMENT => 0x100,
            ModuleProperties::MODULE_SHORTCUT => 0x101,
            ModuleProperties::MODULE_CAPABILITY => 0x102,
            ModuleProperties::MODULE_SCORE => 0x103,
            ModuleProperties::MODULE_CB_OPEN => 0x104,
            ModuleProperties::MODULE_CB_CLOSE => 0x105,
            ModuleProperties::MODULE_NO_UNLOAD => 0x106,
            ModuleProperties::MODULE_NAME => 0x107,
            ModuleProperties::MODULE_SHORTNAME => 0x108,
            ModuleProperties::MODULE_DESCRIPTION => 0x109,
            ModuleProperties::MODULE_HELP => 0x10A,
            ModuleProperties::MODULE_TEXTDOMAIN => 0x10B,
            ModuleProperties::MODULE_HELP_HTML => 0x10C,
            ModuleProperties::CONFIG_NAME => 0x1000,
            ModuleProperties::CONFIG_VALUE => 0x1001,
            ModuleProperties::CONFIG_RANGE => 0x1002,
            ModuleProperties::CONFIG_ADVANCED_RESERVED => 0x1003,
            ModuleProperties::CONFIG_VOLATILE => 0x1004,
            ModuleProperties::CONFIG_PERSISTENT_OBSOLETE => 0x1005,
            ModuleProperties::CONFIG_PRIVATE => 0x1006,
            ModuleProperties::CONFIG_REMOVED => 0x1007,
            ModuleProperties::CONFIG_CAPABILITY => 0x1008,
            ModuleProperties::CONFIG_SHORTCUT => 0x1009,
            ModuleProperties::CONFIG_OLDNAME_OBSOLETE => 0x100A,
            ModuleProperties::CONFIG_SAFE => 0x100B,
            ModuleProperties::CONFIG_DESC => 0x100C,
            ModuleProperties::CONFIG_LIST_OBSOLETE => 0x100D,
            ModuleProperties::CONFIG_ADD_ACTION_OBSOLETE => 0x100E,
            ModuleProperties::CONFIG_LIST => 0x100F,
            ModuleProperties::CONFIG_LIST_CB_OBSOLETE => 0x1010,
        }
    }

    /// Whether this operation sets a property of a module.
    pub open spec fn spec_is_module_property(self) -> bool {
        0x100 <= self.spec_code() < 0x1000
    }

    /// Whether this operation sets a property of a configuration entry.
    pub open spec fn spec_is_config_property(self) -> bool {
        0x1000 <= self.spec_code()
    }

    /// The operation that the host knows by `opcode`, if there is one.
    pub open spec fn decode(opcode: int) -> Option<ModuleProperties> {
        if exists|p: ModuleProperties| p.spec_code() == opcode {
            Some(choose|p: ModuleProperties| p.spec_code() == opcode)
        } else {
            None
        }
    }

    pub fn code(&self) -> (c: i32)
        ensures
            c == self.spec_code(),
    {
        match self {
            ModuleProperties::MODULE_CREATE => 0,
            ModuleProperties::CONFIG_CREATE => 1,
            ModuleProperties::MODULE_CPU_REQUIREMENT => 0x100,
            ModuleProperties::MODULE_SHORTCUT => 0x101,
            ModuleProperties::MODULE_CAPABILITY => 0x102,
            ModuleProperties::MODULE_SCORE => 0x103,
            ModuleProperties::MODULE_CB_OPEN => 0x104,
            ModuleProperties::MODULE_CB_CLOSE => 0x105,
            ModuleProperties::MODULE_NO_UNLOAD => 0x106,
            ModuleProperties::MODULE_NAME => 0x107,
            ModuleProperties::MODULE_SHORTNAME => 0x108,
            ModuleProperties::MODULE_DESCRIPTION => 0x109,
            ModuleProperties::MODULE_HELP => 0x10A,
            ModuleProperties::MODULE_TEXTDOMAIN => 0x10B,
            ModuleProperties::MODULE_HELP_HTML => 0x10C,
            ModuleProperties::CONFIG_NAME => 0x1000,
            ModuleProperties::CONFIG_VALUE => 0x1001,
            ModuleProperties::CONFIG_RANGE => 0x1002,
            ModuleProperties::CONFIG_ADVANCED_RESERVED => 0x1003,
            ModuleProperties::CONFIG_VOLATILE => 0x1004,
            ModuleProperties::CONFIG_PERSISTENT_OBSOLETE => 0x1005,
            ModuleProperties::CONFIG_PRIVATE => 0x1006,
            ModuleProperties::CONFIG_REMOVED => 0x1007,
            ModuleProperties::CONFIG_CAPABILITY => 0x1008,
            ModuleProperties::CONFIG_SHORTCUT => 0x1009,
            ModuleProperties::CONFIG_OLDNAME_OBSOLETE => 0x100A,
            ModuleProperties::CONFIG_SAFE => 0x100B,
            ModuleProperties::CONFIG_DESC => 0x100C,
            ModuleProperties::CONFIG_LIST_OBSOLETE => 0x100D,
            ModuleProperties::CONFIG_ADD_ACTION_OBSOLETE => 0x100E,
            ModuleProperties::CONFIG_LIST => 0x100F,
            ModuleProperties::CONFIG_LIST_CB_OBSOLETE => 0x1010,
        }
    }
}

impl TryFrom<i32> for ModuleProperties {
    type Error = ();

    /// Reads an operation code that came from the host.  A number that names
    /// no operation is an error, never a panic: later versions of the
    /// protocol may add operations.
    fn try_from(opcode: i32) -> (r: Result<Self, Self::Error>)
        ensures
            r matches Ok(p) ==> p.spec_code() == opcode,
            r is Err <==> forall|p: ModuleProperties| p.spec_code() != opcode,
    {
        let prop = match opcode {
            0 => ModuleProperties::MODULE_CREATE,
            1 => ModuleProperties::CONFIG_CREATE,
            0x100 => ModuleProperties::MODULE_CPU_REQUIREMENT,
            0x101 => ModuleProperties::MODULE_SHORTCUT,
            0x102 => ModuleProperties::MODULE_CAPABILITY,
            0x103 => ModuleProperties::MODULE_SCORE,
            0x104 => ModuleProperties::MODULE_CB_OPEN,
            0x105 => ModuleProperties::MODULE_CB_CLOSE,
            0x106 => ModuleProperties::MODULE_NO_UNLOAD,
            0x107 => ModuleProperties::MODULE_NAME,
            0x108 => ModuleProperties::MODULE_SHORTNAME,
            0x109 => ModuleProperties::MODULE_DESCRIPTION,
            0x10A => ModuleProperties::MODULE_HELP,
            0x10B => ModuleProperties::MODULE_TEXTDOMAIN,
            0x10C => ModuleProperties::MODULE_HELP_HTML,
            0x1000 => ModuleProperties::CONFIG_NAME,
            0x1001 => ModuleProperties::CONFIG_VALUE,
            0x1002 => ModuleProperties::CONFIG_RANGE,
            0x1003 => ModuleProperties::CONFIG_ADVANCED_RESERVED,
            0x1004 => ModuleProperties::CONFIG_VOLATILE,
            0x1005 => ModuleProperties::CONFIG_PERSISTENT_OBSOLETE,
            0x1006 => ModuleProperties::CONFIG_PRIVATE,
            0x1007 => ModuleProperties::CONFIG_REMOVED,
            0x1008 => ModuleProperties::CONFIG_CAPABILITY,
            0x1009 => ModuleProperties::CONFIG_SHORTCUT,
            0x100A => ModuleProperties::CONFIG_OLDNAME_OBSOLETE,
            0x100B => ModuleProperties::CONFIG_SAFE,
            0x100C => ModuleProperties::CONFIG_DESC,
            0x100D => ModuleProperties::CONFIG_LIST_OBSOLETE,
            0x100E => ModuleProperties::CONFIG_ADD_ACTION_OBSOLETE,
            0x100F => ModuleProperties::CONFIG_LIST,
            0x1010 => ModuleProperties::CONFIG_LIST_CB_OBSOLETE,
            _ => {
                return Err(());
            },
        };
        proof {
            lemma_codes_differ(prop, choose|p: ModuleProperties| p.spec_code() == opcode);
        }
        Ok(prop)
    }
}

impl vstd::std_specs::convert::TryFromSpecImpl<i32> for ModuleProperties {
    open spec fn obeys_try_from_spec() -> bool {
        true
    }

    open spec fn try_from_spec(opcode: i32) -> Result<Self, ()> {
        match ModuleProperties::decode(opcode as int) {
            Some(p) => Ok(p),
            None => Err(()),
        }
    }
}

/// No two operations share a number.
pub proof fn lemma_codes_differ(p: ModuleProperties, q: ModuleProperties)
    ensures
        p.spec_code() == q.spec_code() ==> p == q,
{
}

/// Every operation is read back from its own number.
pub proof fn lemma_decode_code(p: ModuleProperties)
    ensures
        ModuleProperties::decode(p.spec_code()) == Some(p),
{
    lemma_codes_differ(p, choose|q: ModuleProperties| q.spec_code() == p.spec_code());
}

/// The operations' numbers lie in three ranges: the two creations, the
/// properties of a module, the properties of a configuration entry.  The
/// number after the last operation names none.
pub proof fn lemma_code_ranges(opcode: int)
    ensures
        ModuleProperties::decode(opcode) is Some <==> (0 <= opcode <= 1 || 0x100 <= opcode <= 0x10C
            || 0x1000 <= opcode <= 0x1010),
        ModuleProperties::decode(0x1011) is None,
{
    if 0 <= opcode <= 1 || 0x100 <= opcode <= 0x10C || 0x1000 <= opcode <= 0x1010 {
        lemma_code_witness(opcode);
    }
}

proof fn lemma_code_witness(opcode: int)
    requires
        0 <= opcode <= 1 || 0x100 <= opcode <= 0x10C || 0x1000 <= opcode <= 0x1010,
    ensures
        exists|p: ModuleProperties| p.spec_code() == opcode,
{
    let p = if opcode == 0 {
        ModuleProperties::MODULE_CREATE
    } else if opcode == 1 {
        ModuleProperties::CONFIG_CREATE
    } else if opcode == 0x100 {
        ModuleProperties::MODULE_CPU_REQUIREMENT
    } else if opcode == 0x101 {
        ModuleProperties::MODULE_SHORTCUT
    } else if opcode == 0x102 {
        ModuleProperties::MODULE_CAPABILITY
    } else if opcode == 0x103 {
        ModuleProperties::MODULE_SCORE
    } else if opcode == 0x104 {
        ModuleProperties::MODULE_CB_OPEN
    } else if opcode == 0x105 {
        ModuleProperties::MODULE_CB_CLOSE
    } else if opcode == 0x106 {
        ModuleProperties::MODULE_NO_UNLOAD
    } else if opcode == 0x107 {
        ModuleProperties::MODULE_NAME
    } else if opcode == 0x108 {
        ModuleProperties::MODULE_SHORTNAME
    } else if opcode == 0x109 {
        ModuleProperties::MODULE_DESCRIPTION
    } else if opcode == 0x10A {
        ModuleProperties::MODULE_HELP
    } else if opcode == 0x10B {
        ModuleProperties::MODULE_TEXTDOMAIN
    } else if opcode == 0x10C {
        ModuleProperties::MODULE_HELP_HTML
    } else if opcode == 0x1000 {
        ModuleProperties::CONFIG_NAME
    } else if opcode == 0x1001 {
        ModuleProperties::CONFIG_VALUE
    } else if opcode == 0x1002 {
        ModuleProperties::CONFIG_RANGE
    } else if opcode == 0x1003 {
        ModuleProperties::CONFIG_ADVANCED_RESERVED
    } else if opcode == 0x1004 {
        ModuleProperties::CONFIG_VOLATILE
    } else if opcode == 0x1005 {
        ModuleProperties::CONFIG_PERSISTENT_OBSOLETE
    } else if opcode == 0x1006 {
        ModuleProperties::CONFIG_PRIVATE
    } else if opcode == 0x1007 {
        ModuleProperties::CONFIG_REMOVED
    } else if opcode == 0x1008 {
        ModuleProperties::CONFIG_CAPABILITY
    } else if opcode == 0x1009 {
        ModuleProperties::CONFIG_SHORTCUT
    } else if opcode == 0x100A {
        ModuleProperties::CONFIG_OLDNAME_OBSOLETE
    } else if opcode == 0x100B {
        ModuleProperties::CONFIG_SAFE
    } else if opcode == 0x100C {
        ModuleProperties::CONFIG_DESC
    } else if opcode == 0x100D {
        ModuleProperties::CONFIG_LIST_OBSOLETE
    } else if opcode == 0x100E {
        ModuleProperties::CONFIG_ADD_ACTION_OBSOLETE
    } else if opcode == 0x100F {
        ModuleProperties::CONFIG_LIST
    } else {
        ModuleProperties::CONFIG_LIST_CB_OBSOLETE
    };
    assert(p.spec_code() == opcode);
}

/// The loader of a capability: for a type that implements the capability,
/// it has the function by which the host activates the module, and, where
/// the capability needs one, the function by which the host deactivates
/// it.  A loader that does not say otherwise has no deactivation function.
pub trait ModuleProtocol<ModuleType: ?Sized> {
    type Activate;

    type Deactivate;

    fn activate_function() -> Self::Activate;

    /// The function by which the host deactivates the module, if the
    /// loader has one.  A loader that keeps this default has none.
    fn deactivate_function() -> (r: Option<Self::Deactivate>)
        default_ensures
            r is None,
    {
        None
    }
}

/// Whether `Loader` hands the host a deactivation function for
/// `ModuleType`.  Only then does the registration set one.
pub fn has_deactivate<ModuleType, Loader: ModuleProtocol<ModuleType>>() -> (r: bool)
    ensures
        exists|d: Option<Loader::Deactivate>|
            call_ensures(Loader::deactivate_function, (), d) && r == d.is_some(),
{
    Loader::deactivate_function().is_some()
}

} // verus!

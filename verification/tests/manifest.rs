use vlcrs::macros::codegen::{generate_module_code, item_kind, vlc_param_name, RGB_MAX};
use vlcrs::macros::error::ManifestError;
use vlcrs::macros::info::{
    CapabilityInfo, Manifest, Modifier, ModuleInfo, ParameterInfo, ParameterType, PrefixInfo,
    SectionInfo, SubmoduleInfo, Value,
};
use vlcrs::macros::module::{
    entry_calls, entry_calls_named, expand, module, module_name, module_name_from,
    module_suffix_from, rust_type, vlc_entry_api_version, vlc_entry_copyright, vlc_entry_license,
    vlc_symbol, ArgsField, ArgsStruct, VLC_API_VERSION_STRING,
};
use vlcrs::macros::parse::{literal, negate_bits, number, score, signed};
use vlcrs::macros::parse_module::{finish_module, ModuleDraft};
use vlcrs::macros::token::{Delimiter, Literal, Token};
use vlcrs::sys_generator::header_contents;
use vlcrs::object::Object;
use vlcrs::plugin::call::PropertyCall;
use vlcrs::plugin::entry::{entry_next, entry_start, EntryState};
use vlcrs::plugin::{
    has_deactivate, ConfigModule, ConfigSubcategory, ModuleProperties, ModuleProtocol,
    VLC_COPYRIGHT_VIDEOLAN, VLC_LICENSE_LGPL_2_1_PLUS,
};

fn id(name: &str) -> Token {
    Token::Ident(name.to_string())
}

fn p(c: char) -> Token {
    Token::Punct(c)
}

fn s(text: &str) -> Token {
    Token::Literal(Literal::Str(text.to_string()))
}

fn num(n: u64) -> Token {
    Token::Literal(Literal::Int(n))
}

fn flt(x: f64) -> Token {
    Token::Literal(Literal::Float(x.to_bits()))
}

fn paren(inner: Vec<Token>) -> Token {
    Token::Group(Delimiter::Parenthesis, inner)
}

fn brace(inner: Vec<Token>) -> Token {
    Token::Group(Delimiter::Brace, inner)
}

fn bracket(inner: Vec<Token>) -> Token {
    Token::Group(Delimiter::Bracket, inner)
}

/// The entries, each followed by a comma.
fn list(entries: Vec<Vec<Token>>) -> Vec<Token> {
    let mut out = Vec::new();
    for entry in entries {
        out.extend(entry);
        out.push(p(','));
    }
    out
}

/// The entries with commas between them and none behind the last.
fn bare(entries: Vec<Vec<Token>>) -> Vec<Token> {
    let mut out = list(entries);
    out.pop();
    out
}

fn type_entry(type_: &str, loader: &str) -> Vec<Token> {
    vec![id("type"), p(':'), id(type_), paren(vec![id(loader)])]
}

fn text_entry(key: &str, value: &str) -> Vec<Token> {
    vec![id(key), p(':'), s(value)]
}

fn capability(name: &str, score: u64) -> Vec<Token> {
    vec![id("capability"), p(':'), s(name), p('@'), num(score)]
}

fn category(name: &str) -> Vec<Token> {
    vec![id("category"), p(':'), id(name)]
}

fn shortcuts(names: &[&str]) -> Vec<Token> {
    vec![id("shortcuts"), p(':'), bracket(bare(names.iter().map(|n| vec![s(n)]).collect()))]
}

fn attr(inner: Vec<Token>) -> Vec<Token> {
    vec![p('#'), bracket(inner)]
}

fn inner_attr(inner: Vec<Token>) -> Vec<Token> {
    vec![p('#'), p('!'), bracket(inner)]
}

fn prefix(value: &str) -> Vec<Token> {
    attr(vec![id("prefix"), p('='), s(value)])
}

fn params(prefix_attr: Vec<Token>, entries: Vec<Vec<Token>>) -> Vec<Token> {
    let mut out = prefix_attr;
    out.extend(vec![id("params"), p(':'), brace(list(entries))]);
    out
}

fn param(attrs: Vec<Token>, name: &str, type_: &str, body: Vec<Vec<Token>>) -> Vec<Token> {
    let mut out = attrs;
    out.extend(vec![id(name), p(':'), id(type_), brace(list(body))]);
    out
}

fn default(value: Vec<Token>) -> Vec<Token> {
    let mut out = vec![id("default"), p(':')];
    out.extend(value);
    out
}

fn range(from: Vec<Token>, to: Vec<Token>) -> Vec<Token> {
    let mut out = vec![id("range"), p(':')];
    out.extend(from);
    out.extend(vec![p('.'), p('.'), p('=')]);
    out.extend(to);
    out
}

fn texts() -> Vec<Vec<Token>> {
    vec![text_entry("text", "Text"), text_entry("long_text", "Long text")]
}

fn body(first: Vec<Vec<Token>>) -> Vec<Vec<Token>> {
    let mut out = first;
    out.extend(texts());
    out
}

/// The manifest of the module that the tests of the loaders declare.
fn filter_manifest(loader: &str) -> Vec<Token> {
    list(vec![
        type_entry("TestModule", loader),
        capability("video_filter", 0),
        category("VIDEO_VFILTER"),
        text_entry("description", "A new module"),
        text_entry("shortname", "mynewmodule"),
        shortcuts(&["mynewmodule_filter"]),
    ])
}

fn minimal(extra: Vec<Vec<Token>>) -> Vec<Token> {
    let mut entries = vec![
        type_entry("Inflate", "Loader"),
        capability("stream_filter", 330),
        category("INPUT_STREAM_FILTER"),
        text_entry("description", "A module"),
    ];
    entries.extend(extra);
    list(entries)
}

fn with_param(entry: Vec<Token>) -> Vec<Token> {
    minimal(vec![params(prefix("infrs"), vec![entry])])
}

fn opcodes(calls: &[PropertyCall]) -> Vec<ModuleProperties> {
    calls.iter().map(|c| c.opcode()).collect()
}

pub struct TestContext<Activate, Deactivate> {
    pub command_cursor: usize,
    pub commands: Vec<ModuleProperties>,
    pub open_cb: Option<Activate>,
    pub close_cb: Option<Deactivate>,
}

/// Registers the calls with a setter that checks each operation against the
/// expected one and keeps the callbacks that it is handed.
fn load_manifest<Activate, Deactivate>(
    context: &mut TestContext<Activate, Deactivate>,
    calls: &[PropertyCall],
    open: &dyn Fn(&str, &str) -> Activate,
    close: &dyn Fn(&str, &str) -> Option<Deactivate>,
) -> i32 {
    let mut state = entry_start(calls.len());
    loop {
        match state {
            EntryState::Done(code) => return code,
            EntryState::Call(at) => {
                let call = &calls[at];
                let propid = call.opcode().code();
                let opcode = ModuleProperties::try_from(propid);
                println!("PropId: {:?} ({})", opcode, propid);
                let opcode = opcode.unwrap();
                assert!(context.command_cursor < context.commands.len());
                assert_eq!(context.commands[context.command_cursor], opcode);
                context.command_cursor += 1;
                let mut answer = 0;
                match call {
                    PropertyCall::ModuleCbOpen { type_, loader, .. } => {
                        context.open_cb = Some(open(type_, loader));
                    },
                    PropertyCall::ModuleCbClose { type_, loader, .. } => {
                        match close(type_, loader) {
                            Some(f) => context.close_cb = Some(f),
                            None => answer = 1,
                        }
                    },
                    _ => {},
                }
                state = entry_next(calls.len(), at, answer);
            },
        }
    }
}

#[allow(non_camel_case_types)]
type vlc_activate = fn(Option<&mut Object>) -> i32;

#[allow(non_camel_case_types)]
type vlc_deactivate = fn(Option<&mut Object>);

fn activate_test<T: SpecificCapabilityModule>(_obj: Option<&mut Object>) -> i32 {
    0
}

fn deactivate_test<T: SpecificCapabilityModule>(_obj: Option<&mut Object>) {
}

pub struct ModuleLoader;

impl<T> ModuleProtocol<T> for ModuleLoader where T: SpecificCapabilityModule {
    type Activate = vlc_activate;
    type Deactivate = vlc_deactivate;

    fn activate_function() -> Self::Activate {
        activate_test::<T>
    }

    fn deactivate_function() -> Option<Self::Deactivate> {
        Some(deactivate_test::<T>)
    }
}

pub trait SpecificCapabilityModule {
    fn open();
}

pub struct TestModule;

impl SpecificCapabilityModule for TestModule {
    fn open() {
        unreachable!()
    }
}

#[test]
fn test_module_load_common_activate() {
    let manifest = Manifest::parse(&filter_manifest("ModuleLoader")).unwrap();
    let deactivates = vec![has_deactivate::<TestModule, ModuleLoader>()];
    let vlc_entry = entry_calls(&manifest, &deactivates);

    let mut context = TestContext::<vlc_activate, vlc_deactivate> {
        command_cursor: 0,
        commands: vec![
            ModuleProperties::MODULE_CREATE,
            ModuleProperties::MODULE_NAME,
            ModuleProperties::MODULE_CAPABILITY,
            ModuleProperties::MODULE_SCORE,
            ModuleProperties::MODULE_DESCRIPTION,
            ModuleProperties::MODULE_SHORTNAME,
            ModuleProperties::MODULE_SHORTCUT,
            ModuleProperties::MODULE_CB_OPEN,
            ModuleProperties::MODULE_CB_CLOSE,
            ModuleProperties::CONFIG_CREATE,
            ModuleProperties::CONFIG_VALUE,
        ],
        open_cb: None,
        close_cb: None,
    };
    let ret = load_manifest(
        &mut context,
        &vlc_entry,
        &|_, _| <ModuleLoader as ModuleProtocol<TestModule>>::activate_function(),
        &|_, _| <ModuleLoader as ModuleProtocol<TestModule>>::deactivate_function(),
    );
    assert_eq!(ret, 0);
    assert_ne!(context.open_cb, None);
    assert_ne!(context.close_cb, None);
    assert_eq!(context.command_cursor, context.commands.len());

    context.open_cb.unwrap()(None);
    context.close_cb.unwrap()(None);
}

fn activate_filter(_obj: Option<&mut Object>) -> i32 {
    0
}

pub struct FilterModuleLoader;

impl<T> ModuleProtocol<T> for FilterModuleLoader where T: TestNoDeactivateCapability {
    type Activate = vlc_activate;
    type Deactivate = vlc_deactivate;

    fn activate_function() -> vlc_activate {
        activate_filter
    }
}

pub trait TestNoDeactivateCapability {
}

pub struct TestNoDeactivateModule;

impl TestNoDeactivateCapability for TestNoDeactivateModule {
}

#[test]
fn test_module_load_default_deactivate() {
    let version = vlc_entry_api_version(None);
    assert_eq!(version.answer, "4.0.6");
    assert_eq!(version.symbol, "vlc_entry_api_version");

    let manifest = Manifest::parse(&filter_manifest("FilterModuleLoader")).unwrap();
    let deactivates = vec![has_deactivate::<TestNoDeactivateModule, FilterModuleLoader>()];
    let vlc_entry = entry_calls(&manifest, &deactivates);

    let mut context = TestContext::<vlc_activate, vlc_deactivate> {
        command_cursor: 0,
        commands: vec![
            ModuleProperties::MODULE_CREATE,
            ModuleProperties::MODULE_NAME,
            ModuleProperties::MODULE_CAPABILITY,
            ModuleProperties::MODULE_SCORE,
            ModuleProperties::MODULE_DESCRIPTION,
            ModuleProperties::MODULE_SHORTNAME,
            ModuleProperties::MODULE_SHORTCUT,
            ModuleProperties::MODULE_CB_OPEN,
            ModuleProperties::CONFIG_CREATE,
            ModuleProperties::CONFIG_VALUE,
        ],
        open_cb: None,
        close_cb: None,
    };
    let ret = load_manifest(
        &mut context,
        &vlc_entry,
        &|_, _| <FilterModuleLoader as ModuleProtocol<TestNoDeactivateModule>>::activate_function(),
        &|_, _| {
            <FilterModuleLoader as ModuleProtocol<TestNoDeactivateModule>>::deactivate_function()
        },
    );
    assert_eq!(ret, 0);
    assert_ne!(context.open_cb, None);
    assert_eq!(context.close_cb, None);
    assert_eq!(context.command_cursor, context.commands.len());
}

#[allow(non_camel_case_types)]
type vlc_filter_activate = fn(&mut bool) -> i32;

fn activate_capability_filter<T: TestFilterCapability>(valid: &mut bool) -> i32 {
    T::open(valid);
    0
}

fn activate_other_filter<T: TestOtherCapability>(valid: &mut bool) -> i32 {
    T::open(valid);
    0
}

pub struct CapabilityFilterLoader;

impl<T> ModuleProtocol<T> for CapabilityFilterLoader where T: TestFilterCapability {
    type Activate = vlc_filter_activate;
    type Deactivate = ();

    fn activate_function() -> Self::Activate {
        activate_capability_filter::<T>
    }
}

pub trait TestFilterCapability {
    fn open(valid: &mut bool);
}

pub struct TestModuleFilter;

impl TestFilterCapability for TestModuleFilter {
    fn open(valid: &mut bool) {
        *valid = true;
    }
}

pub trait TestOtherCapability {
    fn open(valid: &mut bool);
}

struct TestOtherCapabilityLoader;

impl<T> ModuleProtocol<T> for TestOtherCapabilityLoader where T: TestOtherCapability {
    type Activate = vlc_filter_activate;
    type Deactivate = ();

    fn activate_function() -> Self::Activate {
        activate_other_filter::<T>
    }
}

impl TestOtherCapability for TestModuleFilter {
    fn open(valid: &mut bool) {
        *valid = true;
    }
}

fn multiple_manifest() -> Vec<Token> {
    bare(vec![
        type_entry("TestModuleFilter", "FilterModuleLoader"),
        capability("video_filter", 0),
        category("VIDEO_VFILTER"),
        text_entry("description", "A new module"),
        text_entry("shortname", "mynewmodule"),
        shortcuts(&["mynewmodule_filter"]),
        vec![
            id("submodules"),
            p(':'),
            bracket(vec![brace(bare(vec![
                type_entry("TestModuleFilter", "TestOtherCapabilityLoader"),
                capability("other_capability", 0),
                category("VIDEO_VFILTER"),
                text_entry("description", "Another module"),
                text_entry("shortname", "othermodule"),
            ]))]),
        ],
    ])
}

#[test]
fn test_module_manifest_multiple_capabilities() {
    let manifest = Manifest::parse(&multiple_manifest()).unwrap();
    let deactivates = vec![
        has_deactivate::<TestModuleFilter, CapabilityFilterLoader>(),
        has_deactivate::<TestModuleFilter, TestOtherCapabilityLoader>(),
    ];
    let vlc_entry = entry_calls(&manifest, &deactivates);

    let mut context = TestContext::<vlc_filter_activate, ()> {
        command_cursor: 0,
        commands: vec![
            ModuleProperties::MODULE_CREATE,
            ModuleProperties::MODULE_NAME,
            ModuleProperties::MODULE_CAPABILITY,
            ModuleProperties::MODULE_SCORE,
            ModuleProperties::MODULE_DESCRIPTION,
            ModuleProperties::MODULE_SHORTNAME,
            ModuleProperties::MODULE_SHORTCUT,
            ModuleProperties::MODULE_CB_OPEN,
            ModuleProperties::CONFIG_CREATE,
            ModuleProperties::CONFIG_VALUE,
            ModuleProperties::MODULE_CREATE,
            ModuleProperties::MODULE_CAPABILITY,
            ModuleProperties::MODULE_SCORE,
            ModuleProperties::MODULE_DESCRIPTION,
            ModuleProperties::MODULE_SHORTNAME,
            ModuleProperties::MODULE_CB_OPEN,
            ModuleProperties::CONFIG_CREATE,
            ModuleProperties::CONFIG_VALUE,
        ],
        open_cb: None,
        close_cb: None,
    };
    let ret = load_manifest(
        &mut context,
        &vlc_entry,
        &|_, loader| {
            if loader == "TestOtherCapabilityLoader" {
                <TestOtherCapabilityLoader as ModuleProtocol<TestModuleFilter>>::activate_function()
            } else {
                <CapabilityFilterLoader as ModuleProtocol<TestModuleFilter>>::activate_function()
            }
        },
        &|_, _| None,
    );
    assert_eq!(ret, 0);
    assert_ne!(context.open_cb, None);
    assert_eq!(context.command_cursor, context.commands.len());

    let mut valid = false;
    context.open_cb.unwrap()(&mut valid);

    assert!(valid, "The open from the module must have been called");
}

#[test]
fn manifest_of_the_filter_module_is_read() {
    let manifest = Manifest::parse(&filter_manifest("ModuleLoader")).unwrap();
    assert_eq!(
        manifest,
        Manifest {
            module: ModuleInfo {
                type_: "TestModule".to_string(),
                loader: "ModuleLoader".to_string(),
                category: ConfigSubcategory::VIDEO_VFILTER,
                capability: CapabilityInfo { capability: "video_filter".to_string(), score: 0 },
                description: "A new module".to_string(),
                help: None,
                shortname: Some("mynewmodule".to_string()),
                prefix: None,
                params: None,
                shortcuts: Some(vec!["mynewmodule_filter".to_string()]),
            },
            submodules: None,
        }
    );
}

#[test]
fn calls_of_the_filter_module_are_exact() {
    let manifest = Manifest::parse(&filter_manifest("ModuleLoader")).unwrap();
    let calls = entry_calls(&manifest, &vec![true]);
    assert_eq!(
        calls,
        vec![
            PropertyCall::ModuleCreate { submodule: false },
            PropertyCall::ModuleName("testmodule-rs".to_string()),
            PropertyCall::ModuleCapability("video_filter".to_string()),
            PropertyCall::ModuleScore(0),
            PropertyCall::ModuleDescription("A new module".to_string()),
            PropertyCall::ModuleShortname("mynewmodule".to_string()),
            PropertyCall::ModuleShortcut(vec!["mynewmodule_filter".to_string()]),
            PropertyCall::ModuleCbOpen {
                name: "TestModule-open".to_string(),
                type_: "TestModule".to_string(),
                loader: "ModuleLoader".to_string(),
            },
            PropertyCall::ModuleCbClose {
                name: "TestModule-close".to_string(),
                type_: "TestModule".to_string(),
                loader: "ModuleLoader".to_string(),
            },
            PropertyCall::ConfigCreate(ConfigModule::SUBCATEGORY),
            PropertyCall::ConfigValueSubcategory(ConfigSubcategory::VIDEO_VFILTER),
        ]
    );
}

#[test]
fn submodule_is_read_and_created_under_the_module() {
    let manifest = Manifest::parse(&multiple_manifest()).unwrap();
    let subs = manifest.submodules.as_ref().unwrap();
    assert_eq!(subs.len(), 1);
    assert_eq!(subs[0].submodule.loader, "TestOtherCapabilityLoader");
    assert_eq!(subs[0].submodule.capability.capability, "other_capability");
    assert_eq!(subs[0].submodule.shortcuts, None);
    let calls = entry_calls(&manifest, &vec![]);
    assert_eq!(calls[10], PropertyCall::ModuleCreate { submodule: true });
    assert_eq!(calls[11], PropertyCall::ModuleCapability("other_capability".to_string()));
    assert_eq!(calls.len(), 18);
}

#[test]
fn deactivation_is_set_per_module() {
    let manifest = Manifest::parse(&multiple_manifest()).unwrap();
    let calls = entry_calls(&manifest, &vec![false, true]);
    let closes: Vec<usize> = calls
        .iter()
        .enumerate()
        .filter(|(_, c)| c.opcode() == ModuleProperties::MODULE_CB_CLOSE)
        .map(|(i, _)| i)
        .collect();
    assert_eq!(closes, vec![16]);
    let calls = entry_calls(&manifest, &vec![true]);
    let closes: Vec<usize> = calls
        .iter()
        .enumerate()
        .filter(|(_, c)| c.opcode() == ModuleProperties::MODULE_CB_CLOSE)
        .map(|(i, _)| i)
        .collect();
    assert_eq!(closes, vec![8]);
}

fn full_manifest() -> Vec<Token> {
    let mut section = inner_attr(vec![
        id("section"),
        paren(bare(vec![
            vec![id("name"), p('='), s("")],
            vec![id("description"), p('='), s("kk")],
        ])),
    ]);
    section.extend(attr(vec![id("deprecated")]));
    bare(vec![
        type_entry("Inflate", "CapabilityTraitLoader"),
        shortcuts(&["mp4", "MP4A"]),
        text_entry("shortname", "infrs"),
        text_entry("description", "This a Rust Module - inflate-rs"),
        text_entry("help", "This is a dummy help text"),
        category("INPUT_STREAM_FILTER"),
        capability("stream_filter", 330),
        params(
            prefix("infrs"),
            vec![
                param(section, "my_bool", "bool", body(vec![default(vec![id("false")])])),
                param(
                    vec![],
                    "my_i32",
                    "i64",
                    body(vec![default(vec![num(5)]), range(vec![p('-'), num(2)], vec![num(2)])]),
                ),
                param(
                    vec![],
                    "my_f32",
                    "f32",
                    body(vec![
                        default(vec![flt(5.)]),
                        range(vec![p('-'), flt(2.0)], vec![flt(2.0)]),
                    ]),
                ),
                param(vec![], "my_str", "str", body(vec![default(vec![s("aaa")])])),
                param(
                    attr(vec![id("loadfile")]),
                    "my_loadfile",
                    "str",
                    body(vec![default(vec![s("aaa")])]),
                ),
            ],
        ),
    ])
}

#[test]
fn complete_manifest_is_read() {
    let manifest = Manifest::parse(&full_manifest()).unwrap();
    let module = &manifest.module;
    assert_eq!(module.type_, "Inflate");
    assert_eq!(module.loader, "CapabilityTraitLoader");
    assert_eq!(module.category, ConfigSubcategory::INPUT_STREAM_FILTER);
    assert_eq!(module.capability.score, 330);
    assert_eq!(module.help, Some("This is a dummy help text".to_string()));
    assert_eq!(module.shortcuts, Some(vec!["mp4".to_string(), "MP4A".to_string()]));
    assert_eq!(module.prefix, Some(PrefixInfo { prefix: "infrs".to_string() }));
    let params = module.params.as_ref().unwrap();
    assert_eq!(params.len(), 5);
    assert_eq!(
        params[0],
        ParameterInfo {
            name: "my_bool".to_string(),
            type_: ParameterType::Bool,
            range: None,
            default_: Value::Bool(false),
            text: "Text".to_string(),
            long_text: "Long text".to_string(),
            prefix: None,
            section: Some(SectionInfo { name: "".to_string(), description: Some("kk".to_string()) }),
            modifier: None,
            deprecated: true,
        }
    );
    assert_eq!(params[1].range, Some((Value::Int(-2), Value::Int(2))));
    assert_eq!(params[1].default_, Value::Int(5));
    assert_eq!(
        params[2].range,
        Some((Value::Float((-2.0f64).to_bits()), Value::Float(2.0f64.to_bits())))
    );
    assert_eq!(params[2].default_, Value::Float(5.0f64.to_bits()));
    assert_eq!(params[3].default_, Value::Str("aaa".to_string()));
    assert_eq!(params[4].modifier, Some(Modifier::Loadfile));
    assert!(params[4].has_local_attr("loadfile"));
    assert!(!params[4].has_local_attr("font"));
    assert!(!params[4].has_local_attr("deprecated"));
    assert!(params[0].has_local_attr("deprecated"));
    assert!(!params[0].has_local_attr("rgb"));
    assert!(!params[0].has_local_attr("other"));
}

#[test]
fn calls_of_the_complete_manifest_are_exact() {
    let manifest = Manifest::parse(&full_manifest()).unwrap();
    let calls = entry_calls(&manifest, &vec![false]);
    let text = |t: &str| t.to_string();
    let desc = || PropertyCall::ConfigDesc { text: text("Text"), long_text: Some(text("Long text")) };
    assert_eq!(
        calls,
        vec![
            PropertyCall::ModuleCreate { submodule: false },
            PropertyCall::ModuleName(text("inflate-rs")),
            PropertyCall::ModuleCapability(text("stream_filter")),
            PropertyCall::ModuleScore(330),
            PropertyCall::ModuleDescription(text("This a Rust Module - inflate-rs")),
            PropertyCall::ModuleHelp(text("This is a dummy help text")),
            PropertyCall::ModuleShortname(text("infrs")),
            PropertyCall::ModuleShortcut(vec![text("mp4"), text("MP4A")]),
            PropertyCall::ModuleCbOpen {
                name: text("Inflate-open"),
                type_: text("Inflate"),
                loader: text("CapabilityTraitLoader"),
            },
            PropertyCall::ConfigCreate(ConfigModule::SUBCATEGORY),
            PropertyCall::ConfigValueSubcategory(ConfigSubcategory::INPUT_STREAM_FILTER),
            PropertyCall::ConfigCreate(ConfigModule::SECTION),
            PropertyCall::ConfigDesc { text: text(""), long_text: Some(text("kk")) },
            PropertyCall::ConfigCreate(ConfigModule::ITEM_BOOL),
            desc(),
            PropertyCall::ConfigName(text("infrs-my-bool")),
            PropertyCall::ConfigValueInt(0),
            PropertyCall::ConfigRemoved,
            PropertyCall::ConfigCreate(ConfigModule::ITEM_INTEGER),
            desc(),
            PropertyCall::ConfigName(text("infrs-my-i32")),
            PropertyCall::ConfigValueInt(5),
            PropertyCall::ConfigRangeInt(-2, 2),
            PropertyCall::ConfigCreate(ConfigModule::ITEM_FLOAT),
            desc(),
            PropertyCall::ConfigName(text("infrs-my-f32")),
            PropertyCall::ConfigValueFloat(5.0f64.to_bits()),
            PropertyCall::ConfigRangeFloat((-2.0f64).to_bits(), 2.0f64.to_bits()),
            PropertyCall::ConfigCreate(ConfigModule::ITEM_STRING),
            desc(),
            PropertyCall::ConfigName(text("infrs-my-str")),
            PropertyCall::ConfigValueStr(text("aaa")),
            PropertyCall::ConfigCreate(ConfigModule::ITEM_LOADFILE),
            desc(),
            PropertyCall::ConfigName(text("infrs-my-loadfile")),
            PropertyCall::ConfigValueStr(text("aaa")),
        ]
    );
}

fn one_param_opcodes() -> Vec<ModuleProperties> {
    vec![
        ModuleProperties::CONFIG_CREATE,
        ModuleProperties::CONFIG_DESC,
        ModuleProperties::CONFIG_NAME,
        ModuleProperties::CONFIG_VALUE,
    ]
}

fn head_opcodes() -> Vec<ModuleProperties> {
    vec![
        ModuleProperties::MODULE_CREATE,
        ModuleProperties::MODULE_NAME,
        ModuleProperties::MODULE_CAPABILITY,
        ModuleProperties::MODULE_SCORE,
        ModuleProperties::MODULE_DESCRIPTION,
        ModuleProperties::MODULE_CB_OPEN,
        ModuleProperties::CONFIG_CREATE,
        ModuleProperties::CONFIG_VALUE,
    ]
}

#[test]
fn opcodes_without_parameters() {
    let manifest = Manifest::parse(&minimal(vec![])).unwrap();
    assert_eq!(opcodes(&entry_calls(&manifest, &vec![])), head_opcodes());
}

#[test]
fn opcodes_with_one_parameter() {
    let tokens = with_param(param(vec![], "a", "bool", body(vec![default(vec![id("true")])])));
    let manifest = Manifest::parse(&tokens).unwrap();
    let mut expected = head_opcodes();
    expected.extend(one_param_opcodes());
    let calls = entry_calls(&manifest, &vec![]);
    assert_eq!(opcodes(&calls), expected);
    assert_eq!(calls[11], PropertyCall::ConfigValueInt(1));
}

#[test]
fn opcodes_with_two_parameters() {
    let tokens = minimal(vec![params(
        prefix("infrs"),
        vec![
            param(
                vec![],
                "a",
                "i64",
                body(vec![default(vec![num(1)]), range(vec![num(0)], vec![num(6)])]),
            ),
            param(attr(vec![id("deprecated")]), "b", "str", body(vec![default(vec![s("x")])])),
        ],
    )]);
    let manifest = Manifest::parse(&tokens).unwrap();
    let mut expected = head_opcodes();
    expected.extend(one_param_opcodes());
    expected.push(ModuleProperties::CONFIG_RANGE);
    expected.extend(one_param_opcodes());
    expected.push(ModuleProperties::CONFIG_REMOVED);
    assert_eq!(opcodes(&entry_calls(&manifest, &vec![])), expected);
}

#[test]
fn registration_is_cut_at_each_position() {
    let manifest = Manifest::parse(&full_manifest()).unwrap();
    let calls = entry_calls(&manifest, &vec![true]);
    for failing in 0..calls.len() {
        let mut received: Vec<i32> = vec![0; calls.len()];
        let mut state = entry_start(calls.len());
        let code = loop {
            match state {
                EntryState::Done(code) => break code,
                EntryState::Call(at) => {
                    received[at] = calls[at].opcode().code() + 1;
                    let answer = if at == failing { 5 } else { 0 };
                    state = entry_next(calls.len(), at, answer);
                },
            }
        };
        assert_eq!(code, -1);
        for (at, opcode) in received.iter().enumerate() {
            if at <= failing {
                assert_eq!(*opcode, calls[at].opcode().code() + 1);
            } else {
                assert_eq!(*opcode, 0);
            }
        }
    }
}

#[test]
fn rgb_parameter_has_the_fixed_range() {
    let tokens =
        with_param(param(attr(vec![id("rgb")]), "color", "i64", body(vec![default(vec![num(255)])])));
    let manifest = Manifest::parse(&tokens).unwrap();
    let calls = entry_calls(&manifest, &vec![]);
    assert_eq!(calls[8], PropertyCall::ConfigCreate(ConfigModule::ITEM_RGB));
    assert_eq!(calls.last(), Some(&PropertyCall::ConfigRangeInt(0, 16777215)));
    assert_eq!(RGB_MAX, 0xFFFFFF);
}

#[test]
fn rgb_parameter_with_a_range_is_refused() {
    let tokens = with_param(param(
        attr(vec![id("rgb")]),
        "color",
        "i64",
        body(vec![default(vec![num(255)]), range(vec![num(0)], vec![num(10)])]),
    ));
    assert_eq!(Manifest::parse(&tokens), Err(ManifestError::RgbWithRange));
}

fn parameter(modifier: Option<Modifier>, range: Option<(Value, Value)>) -> ParameterInfo {
    ParameterInfo {
        name: "my_color".to_string(),
        type_: ParameterType::I64,
        range,
        default_: Value::Int(0),
        text: "t".to_string(),
        long_text: "l".to_string(),
        prefix: None,
        section: None,
        modifier,
        deprecated: false,
    }
}

fn module_with(params: Vec<ParameterInfo>, prefix: &str) -> ModuleInfo {
    ModuleInfo {
        type_: "T".to_string(),
        loader: "L".to_string(),
        category: ConfigSubcategory::ADVANCED_MISC,
        capability: CapabilityInfo { capability: "c".to_string(), score: -4 },
        description: "d".to_string(),
        help: None,
        shortname: None,
        prefix: Some(PrefixInfo { prefix: prefix.to_string() }),
        params: Some(params),
        shortcuts: None,
    }
}

#[test]
fn rgb_range_does_not_depend_on_the_declared_range() {
    let declared = parameter(Some(Modifier::Rgb), Some((Value::Int(3), Value::Int(4))));
    let module = module_with(vec![declared], "p");
    let calls = generate_module_code(&module, false);
    assert_eq!(calls.last(), Some(&PropertyCall::ConfigRangeInt(0, 16777215)));
    let ranges = calls.iter().filter(|c| c.opcode() == ModuleProperties::CONFIG_RANGE).count();
    assert_eq!(ranges, 1);
    assert_eq!(calls[1], PropertyCall::ModuleScore(-4));
}

#[test]
fn parameter_names() {
    let param = parameter(None, None);
    assert_eq!(vlc_param_name(&module_with(vec![], "infrs"), &param), "infrs-my-color");
    assert_eq!(vlc_param_name(&module_with(vec![], "infrs-"), &param), "infrs-my-color");
    assert_eq!(vlc_param_name(&module_with(vec![], "infrs_"), &param), "infrs_my-color");
    assert_eq!(vlc_param_name(&module_with(vec![], "in_frs"), &param), "in_frs-my-color");
    assert_eq!(vlc_param_name(&module_with(vec![], ""), &param), "-my-color");
    let mut own = parameter(None, None);
    own.prefix = Some(PrefixInfo { prefix: "own".to_string() });
    assert_eq!(vlc_param_name(&module_with(vec![], "infrs"), &own), "own-my-color");
}

#[test]
fn item_kinds() {
    let kind = |type_, modifier| {
        let mut p = parameter(modifier, None);
        p.type_ = type_;
        item_kind(&p)
    };
    assert_eq!(kind(ParameterType::I64, None), ConfigModule::ITEM_INTEGER);
    assert_eq!(kind(ParameterType::I64, Some(Modifier::Rgb)), ConfigModule::ITEM_RGB);
    assert_eq!(kind(ParameterType::F32, None), ConfigModule::ITEM_FLOAT);
    assert_eq!(kind(ParameterType::Bool, None), ConfigModule::ITEM_BOOL);
    assert_eq!(kind(ParameterType::Str, None), ConfigModule::ITEM_STRING);
    assert_eq!(kind(ParameterType::Str, Some(Modifier::Font)), ConfigModule::ITEM_FONT);
    assert_eq!(kind(ParameterType::Str, Some(Modifier::Savefile)), ConfigModule::ITEM_SAVEFILE);
    assert_eq!(kind(ParameterType::Str, Some(Modifier::Loadfile)), ConfigModule::ITEM_LOADFILE);
    assert_eq!(kind(ParameterType::Str, Some(Modifier::Password)), ConfigModule::ITEM_PASSWORD);
    assert_eq!(kind(ParameterType::Str, Some(Modifier::Directory)), ConfigModule::ITEM_DIRECTORY);
}

#[test]
fn modifiers_are_read() {
    for (name, kind) in [
        ("font", ConfigModule::ITEM_FONT),
        ("savefile", ConfigModule::ITEM_SAVEFILE),
        ("loadfile", ConfigModule::ITEM_LOADFILE),
        ("password", ConfigModule::ITEM_PASSWORD),
        ("directory", ConfigModule::ITEM_DIRECTORY),
    ] {
        let tokens =
            with_param(param(attr(vec![id(name)]), "a", "str", body(vec![default(vec![s("")])])));
        let manifest = Manifest::parse(&tokens).unwrap();
        let calls = entry_calls(&manifest, &vec![]);
        assert_eq!(calls[8], PropertyCall::ConfigCreate(kind));
    }
}

fn refused(tokens: Vec<Token>) -> ManifestError {
    Manifest::parse(&tokens).unwrap_err()
}

#[test]
fn missing_mandatory_keys_are_refused() {
    let entries = || {
        vec![
            type_entry("T", "L"),
            capability("c", 0),
            category("VIDEO_VFILTER"),
            text_entry("description", "d"),
        ]
    };
    let without = |i: usize| {
        let mut e = entries();
        e.remove(i);
        list(e)
    };
    assert_eq!(refused(without(0)), ManifestError::MissingType);
    assert_eq!(refused(without(1)), ManifestError::MissingCapability);
    assert_eq!(refused(without(2)), ManifestError::MissingCategory);
    assert_eq!(refused(without(3)), ManifestError::MissingDescription);
    assert_eq!(refused(vec![]), ManifestError::MissingType);
    assert!(Manifest::parse(&list(entries())).is_ok());
}

#[test]
fn params_without_prefix_are_refused() {
    let entry = param(vec![], "a", "bool", body(vec![default(vec![id("true")])]));
    assert_eq!(
        refused(minimal(vec![params(vec![], vec![entry])])),
        ManifestError::ParamsWithoutPrefix
    );
}

#[test]
fn prefix_must_be_a_name_and_a_text() {
    let entry = || param(vec![], "a", "bool", body(vec![default(vec![id("true")])]));
    assert_eq!(
        refused(minimal(vec![params(attr(vec![id("other"), p('='), s("x")]), vec![entry()])])),
        ManifestError::ExpectedPrefixAttribute
    );
    assert_eq!(
        refused(minimal(vec![params(attr(vec![id("prefix")]), vec![entry()])])),
        ManifestError::ExpectedNameValue
    );
    assert_eq!(
        refused(minimal(vec![params(attr(vec![id("prefix"), p('='), num(3)]), vec![entry()])])),
        ManifestError::ExpectedStr
    );
    let mut two = prefix("a");
    two.extend(prefix("b"));
    assert_eq!(
        refused(minimal(vec![params(two, vec![entry()])])),
        ManifestError::ExpectedPrefixAttribute
    );
}

#[test]
fn ranges_must_be_closed_on_both_sides() {
    let with_range = |r: Vec<Token>| {
        let mut entry = vec![id("range"), p(':')];
        entry.extend(r);
        with_param(param(vec![], "a", "i64", body(vec![default(vec![num(1)]), entry])))
    };
    assert!(Manifest::parse(&with_range(vec![num(0), p('.'), p('.'), p('='), num(6)])).is_ok());
    assert_eq!(
        refused(with_range(vec![num(0), p('.'), p('.'), num(6)])),
        ManifestError::RangeNotClosed
    );
    assert_eq!(
        refused(with_range(vec![p('.'), p('.'), p('='), num(6)])),
        ManifestError::RangeNotClosed
    );
    assert_eq!(refused(with_range(vec![num(0), p('.'), p('.')])), ManifestError::RangeNotClosed);
    assert_eq!(
        refused(with_range(vec![num(0), p('.'), p('.'), p('=')])),
        ManifestError::RangeNotClosed
    );
    assert_eq!(refused(with_range(vec![num(0)])), ManifestError::ExpectedRange);
    assert_eq!(refused(with_range(vec![s("a")])), ManifestError::ExpectedRange);
}

#[test]
fn defaults_must_have_the_parameters_type() {
    let with = |type_: &str, value: Vec<Token>| {
        Manifest::parse(&with_param(param(vec![], "a", type_, body(vec![default(value)]))))
    };
    assert!(with("i64", vec![num(1)]).is_ok());
    assert!(with("i64", vec![p('-'), num(1)]).is_ok());
    assert!(with("f32", vec![flt(1.5)]).is_ok());
    assert!(with("bool", vec![id("false")]).is_ok());
    assert!(with("str", vec![s("x")]).is_ok());
    assert_eq!(with("i64", vec![s("x")]), Err(ManifestError::DefaultTypeMismatch));
    assert_eq!(with("i64", vec![flt(1.0)]), Err(ManifestError::DefaultTypeMismatch));
    assert_eq!(with("f32", vec![num(1)]), Err(ManifestError::DefaultTypeMismatch));
    assert_eq!(with("bool", vec![num(1)]), Err(ManifestError::DefaultTypeMismatch));
    assert_eq!(with("str", vec![id("true")]), Err(ManifestError::DefaultTypeMismatch));
    assert_eq!(with("u8", vec![num(1)]), Err(ManifestError::UnsupportedType));
    assert_eq!(with("i64", vec![id("x")]), Err(ManifestError::ExpectedLiteral));
    assert_eq!(
        with("i64", vec![Token::Literal(Literal::Other)]),
        Err(ManifestError::ExpectedLiteral)
    );
}

#[test]
fn integers_must_fit() {
    let with = |value: Vec<Token>| {
        Manifest::parse(&with_param(param(vec![], "a", "i64", body(vec![default(value)]))))
            .map(|m| m.module.params.unwrap()[0].default_.clone())
    };
    assert_eq!(with(vec![num(i64::MAX as u64)]), Ok(Value::Int(i64::MAX)));
    assert_eq!(with(vec![num(i64::MAX as u64 + 1)]), Err(ManifestError::IntegerOutOfRange));
    assert_eq!(with(vec![p('-'), num(i64::MAX as u64 + 1)]), Ok(Value::Int(i64::MIN)));
    assert_eq!(with(vec![p('-'), num(i64::MAX as u64 + 2)]), Err(ManifestError::IntegerOutOfRange));
    assert_eq!(with(vec![p('-'), num(0)]), Ok(Value::Int(0)));
}

#[test]
fn scores_must_fit() {
    let with = |score: Vec<Token>| {
        let mut entry = vec![id("capability"), p(':'), s("c"), p('@')];
        entry.extend(score);
        Manifest::parse(&list(vec![
            type_entry("T", "L"),
            entry,
            category("VIDEO_VFILTER"),
            text_entry("description", "d"),
        ]))
        .map(|m| m.module.capability.score)
    };
    assert_eq!(with(vec![num(330)]), Ok(330));
    assert_eq!(with(vec![p('-'), num(1)]), Ok(-1));
    assert_eq!(with(vec![num(i32::MAX as u64)]), Ok(i32::MAX));
    assert_eq!(with(vec![num(i32::MAX as u64 + 1)]), Err(ManifestError::ScoreOutOfRange));
    assert_eq!(with(vec![p('-'), num(i32::MAX as u64 + 1)]), Ok(i32::MIN));
    assert_eq!(with(vec![p('-'), num(i32::MAX as u64 + 2)]), Err(ManifestError::ScoreOutOfRange));
    assert_eq!(with(vec![s("x")]), Err(ManifestError::ExpectedInt));
    assert_eq!(with(vec![]), Err(ManifestError::ExpectedInt));
}

#[test]
fn ranges_stand_on_numbers_of_the_parameters_type() {
    let with = |type_: &str, value: Vec<Token>, r: Vec<Token>| {
        Manifest::parse(&with_param(param(vec![], "a", type_, body(vec![default(value), r]))))
    };
    assert_eq!(
        with("bool", vec![id("true")], range(vec![num(0)], vec![num(1)])),
        Err(ManifestError::RangeOnNonNumeric)
    );
    assert_eq!(
        with("str", vec![s("")], range(vec![num(0)], vec![num(1)])),
        Err(ManifestError::RangeOnNonNumeric)
    );
    assert_eq!(
        with("i64", vec![num(0)], range(vec![flt(0.0)], vec![flt(1.0)])),
        Err(ManifestError::RangeTypeMismatch)
    );
    assert_eq!(
        with("f32", vec![flt(0.0)], range(vec![flt(0.0)], vec![num(1)])),
        Err(ManifestError::RangeTypeMismatch)
    );
}

#[test]
fn modifiers_stand_on_their_type_and_alone() {
    let with = |attrs: Vec<Token>, type_: &str, value: Vec<Token>| {
        Manifest::parse(&with_param(param(attrs, "a", type_, body(vec![default(value)]))))
    };
    assert_eq!(
        with(attr(vec![id("rgb")]), "str", vec![s("")]),
        Err(ManifestError::ModifierTypeMismatch)
    );
    assert_eq!(
        with(attr(vec![id("font")]), "i64", vec![num(0)]),
        Err(ManifestError::ModifierTypeMismatch)
    );
    let mut both = attr(vec![id("font")]);
    both.extend(attr(vec![id("password")]));
    assert_eq!(with(both, "str", vec![s("")]), Err(ManifestError::ConflictingModifiers));
    assert_eq!(
        with(attr(vec![id("font"), paren(vec![])]), "str", vec![s("")]),
        Err(ManifestError::AttributeTakesNoArgument)
    );
    assert_eq!(
        with(attr(vec![id("prefix"), p('='), s("x")]), "str", vec![s("")]),
        Err(ManifestError::UnsupportedAttribute)
    );
    assert!(with(attr(vec![id("deprecated"), p('='), s("note")]), "str", vec![s("")]).is_ok());
    let mut two = attr(vec![id("deprecated")]);
    two.extend(attr(vec![id("password")]));
    let read = with(two, "str", vec![s("")]).unwrap();
    let params = read.module.params.unwrap();
    assert!(params[0].deprecated);
    assert_eq!(params[0].modifier, Some(Modifier::Password));
}

#[test]
fn nested_submodules_are_refused() {
    let inner = bare(vec![
        type_entry("T", "L"),
        capability("c", 0),
        category("VIDEO_VFILTER"),
        text_entry("description", "d"),
        vec![id("submodules"), p(':'), bracket(vec![])],
    ]);
    let tokens = minimal(vec![vec![id("submodules"), p(':'), bracket(vec![brace(inner)])]]);
    assert_eq!(refused(tokens), ManifestError::NestedSubmodules);
}

#[test]
fn submodules_are_complete_modules() {
    let inner = bare(vec![type_entry("T", "L"), capability("c", 0), category("VIDEO_VFILTER")]);
    let tokens = minimal(vec![vec![id("submodules"), p(':'), bracket(vec![brace(inner)])]]);
    assert_eq!(refused(tokens), ManifestError::MissingDescription);
    let tokens = minimal(vec![vec![id("submodules"), p(':'), bracket(vec![s("x")])]]);
    assert_eq!(refused(tokens), ManifestError::ExpectedBrace);
    let tokens = minimal(vec![vec![id("submodules"), p(':'), bracket(vec![])]]);
    assert_eq!(Manifest::parse(&tokens).unwrap().submodules, Some(vec![]));
    assert_eq!(
        SubmoduleInfo::parse(&bare(vec![
            type_entry("T", "L"),
            capability("c", 0),
            category("HIDDEN"),
            text_entry("description", "d"),
        ]))
        .unwrap()
        .submodule
        .category,
        ConfigSubcategory::HIDDEN
    );
}

#[test]
fn unknown_keys_are_refused() {
    assert_eq!(refused(minimal(vec![text_entry("colour", "x")])), ManifestError::UnknownKey);
    let entry = param(
        vec![],
        "a",
        "bool",
        vec![default(vec![id("true")]), text_entry("text", "t"), text_entry("tooltip", "t")],
    );
    assert_eq!(refused(with_param(entry)), ManifestError::UnknownKey);
    let section = inner_attr(vec![id("section"), paren(vec![id("title"), p('='), s("x")])]);
    let entry = param(section, "a", "bool", body(vec![default(vec![id("true")])]));
    assert_eq!(refused(with_param(entry)), ManifestError::UnknownKey);
}

#[test]
fn attributes_stand_only_where_they_are_meant() {
    let mut entry = attr(vec![id("deprecated")]);
    entry.extend(text_entry("help", "h"));
    assert_eq!(refused(minimal(vec![entry])), ManifestError::LocalAttribute);
    let mut entry = inner_attr(vec![id("section")]);
    entry.extend(text_entry("help", "h"));
    assert_eq!(refused(minimal(vec![entry])), ManifestError::GlobalAttribute);
    let entry = param(
        inner_attr(vec![id("other"), paren(vec![])]),
        "a",
        "bool",
        body(vec![default(vec![id("true")])]),
    );
    assert_eq!(refused(with_param(entry)), ManifestError::OnlySectionAllowed);
    let entry = param(
        inner_attr(vec![id("section"), paren(vec![id("description"), p('='), s("x")])]),
        "a",
        "bool",
        body(vec![default(vec![id("true")])]),
    );
    assert_eq!(refused(with_param(entry)), ManifestError::MissingName);
}

#[test]
fn parameters_are_complete() {
    let with = |entries: Vec<Vec<Token>>| refused(with_param(param(vec![], "a", "bool", entries)));
    assert_eq!(with(texts()), ManifestError::MissingDefault);
    assert_eq!(
        with(vec![default(vec![id("true")]), text_entry("long_text", "l")]),
        ManifestError::MissingText
    );
    assert_eq!(
        with(vec![default(vec![id("true")]), text_entry("text", "t")]),
        ManifestError::MissingLongText
    );
}

#[test]
fn commas_separate_the_entries() {
    let mut tokens = capability("c", 0);
    tokens.extend(category("VIDEO_VFILTER"));
    assert_eq!(refused(tokens), ManifestError::ExpectedComma);
    // A comma always follows the type ...
    assert_eq!(
        refused(bare(vec![
            capability("c", 0),
            category("VIDEO_VFILTER"),
            text_entry("description", "d"),
            type_entry("T", "L"),
        ])),
        ManifestError::ExpectedComma
    );
    // ... and the default.
    let entry = param(vec![], "a", "bool", vec![]);
    let mut entry = entry;
    entry.pop();
    entry.push(brace(bare(vec![
        text_entry("text", "t"),
        text_entry("long_text", "l"),
        default(vec![id("true")]),
    ])));
    assert_eq!(refused(with_param(entry)), ManifestError::ExpectedComma);
    // Two commas in a row leave an empty entry.
    let mut tokens = minimal(vec![]);
    tokens.push(p(','));
    assert_eq!(refused(tokens), ManifestError::ExpectedIdent);
    // No comma is needed behind the last entry.
    assert!(Manifest::parse(&bare(vec![
        type_entry("T", "L"),
        capability("c", 0),
        category("VIDEO_VFILTER"),
        text_entry("description", "d"),
    ]))
    .is_ok());
}

#[test]
fn values_have_their_shape() {
    assert_eq!(
        refused(minimal(vec![vec![id("help"), s("h")]])),
        ManifestError::ExpectedColon
    );
    assert_eq!(
        refused(minimal(vec![vec![id("help"), p(':'), id("h")]])),
        ManifestError::ExpectedStr
    );
    assert_eq!(
        refused(minimal(vec![vec![id("category"), p(':'), id("NOWHERE")]])),
        ManifestError::UnknownCategory
    );
    assert_eq!(
        refused(minimal(vec![vec![id("shortcuts"), p(':'), brace(vec![])]])),
        ManifestError::ExpectedBracket
    );
    assert_eq!(
        refused(minimal(vec![vec![id("shortcuts"), p(':'), bracket(vec![id("a")])]])),
        ManifestError::ExpectedStr
    );
    assert_eq!(
        refused(minimal(vec![vec![id("capability"), p(':'), s("c"), num(0)]])),
        ManifestError::ExpectedAt
    );
    assert_eq!(
        refused(list(vec![vec![id("type"), p(':'), id("T")]])),
        ManifestError::ExpectedParenthesis
    );
    assert_eq!(
        refused(list(vec![vec![id("type"), p(':'), id("T"), paren(vec![id("L"), id("M")])]])),
        ManifestError::UnexpectedToken
    );
    assert_eq!(refused(vec![s("x")]), ManifestError::ExpectedIdent);
}

#[test]
fn every_subcategory_is_known_by_its_name() {
    for (name, category_) in [
        ("HIDDEN", ConfigSubcategory::HIDDEN),
        ("UNKNOWN", ConfigSubcategory::UNKNOWN),
        ("INTERFACE_GENERAL", ConfigSubcategory::INTERFACE_GENERAL),
        ("INTERFACE_MAIN", ConfigSubcategory::INTERFACE_MAIN),
        ("INTERFACE_CONTROL", ConfigSubcategory::INTERFACE_CONTROL),
        ("INTERFACE_HOTKEYS", ConfigSubcategory::INTERFACE_HOTKEYS),
        ("AUDIO_GENERAL", ConfigSubcategory::AUDIO_GENERAL),
        ("AUDIO_AOUT", ConfigSubcategory::AUDIO_AOUT),
        ("AUDIO_AFILTER", ConfigSubcategory::AUDIO_AFILTER),
        ("AUDIO_VISUAL", ConfigSubcategory::AUDIO_VISUAL),
        ("AUDIO_RESAMPLER", ConfigSubcategory::AUDIO_RESAMPLER),
        ("VIDEO_GENERAL", ConfigSubcategory::VIDEO_GENERAL),
        ("VIDEO_VOUT", ConfigSubcategory::VIDEO_VOUT),
        ("VIDEO_VFILTER", ConfigSubcategory::VIDEO_VFILTER),
        ("VIDEO_SUBPIC", ConfigSubcategory::VIDEO_SUBPIC),
        ("VIDEO_SPLITTER", ConfigSubcategory::VIDEO_SPLITTER),
        ("INPUT_GENERAL", ConfigSubcategory::INPUT_GENERAL),
        ("INPUT_ACCESS", ConfigSubcategory::INPUT_ACCESS),
        ("INPUT_DEMUX", ConfigSubcategory::INPUT_DEMUX),
        ("INPUT_VCODEC", ConfigSubcategory::INPUT_VCODEC),
        ("INPUT_ACODEC", ConfigSubcategory::INPUT_ACODEC),
        ("INPUT_SCODEC", ConfigSubcategory::INPUT_SCODEC),
        ("INPUT_STREAM_FILTER", ConfigSubcategory::INPUT_STREAM_FILTER),
        ("SOUT_GENERAL", ConfigSubcategory::SOUT_GENERAL),
        ("SOUT_STREAM", ConfigSubcategory::SOUT_STREAM),
        ("SOUT_MUX", ConfigSubcategory::SOUT_MUX),
        ("SOUT_ACO", ConfigSubcategory::SOUT_ACO),
        ("SOUT_PACKETIZER", ConfigSubcategory::SOUT_PACKETIZER),
        ("SOUT_VOD", ConfigSubcategory::SOUT_VOD),
        ("SOUT_RENDERER", ConfigSubcategory::SOUT_RENDERER),
        ("ADVANCED_MISC", ConfigSubcategory::ADVANCED_MISC),
        ("ADVANCED_NETWORK", ConfigSubcategory::ADVANCED_NETWORK),
        ("PLAYLIST_GENERAL", ConfigSubcategory::PLAYLIST_GENERAL),
        ("PLAYLIST_SD", ConfigSubcategory::PLAYLIST_SD),
        ("PLAYLIST_EXPORT", ConfigSubcategory::PLAYLIST_EXPORT),
    ] {
        assert_eq!(vlcrs::macros::parse::category_of(name), Some(category_));
    }
    assert_eq!(vlcrs::macros::parse::category_of("hidden"), None);
}

#[test]
fn later_entries_replace_earlier_ones() {
    let manifest =
        Manifest::parse(&minimal(vec![text_entry("description", "second")])).unwrap();
    assert_eq!(manifest.module.description, "second");
}

#[test]
fn telegraf_manifest() {
    let tokens = list(vec![
        type_entry("TelegrafTracer", "TracerModuleLoader"),
        capability("tracer", 0),
        category("ADVANCED_MISC"),
        text_entry("description", "Tracer module forwarding the traces to a Telegraf endpoint"),
        text_entry("shortname", "Telegraf tracer"),
        shortcuts(&["telegraf"]),
    ]);
    let expansion = module(&tokens).unwrap();
    assert_eq!(expansion.module_name, "telegraftracer-rs");
    assert_eq!(expansion.module_suffix, "telegraftracer_rs");
    assert_eq!(expansion.args, None);
    assert_eq!(
        opcodes(&expansion.entry),
        vec![
            ModuleProperties::MODULE_CREATE,
            ModuleProperties::MODULE_NAME,
            ModuleProperties::MODULE_CAPABILITY,
            ModuleProperties::MODULE_SCORE,
            ModuleProperties::MODULE_DESCRIPTION,
            ModuleProperties::MODULE_SHORTNAME,
            ModuleProperties::MODULE_SHORTCUT,
            ModuleProperties::MODULE_CB_OPEN,
            ModuleProperties::MODULE_CB_CLOSE,
            ModuleProperties::CONFIG_CREATE,
            ModuleProperties::CONFIG_VALUE,
        ]
    );
    assert_eq!(expansion.entry[1], PropertyCall::ModuleName("telegraftracer-rs".to_string()));
}

#[test]
fn refused_manifest_has_no_expansion() {
    assert_eq!(module(&vec![]), Err(ManifestError::MissingType));
}

#[test]
fn expansion_has_the_structure_of_the_parameters() {
    let manifest = Manifest::parse(&full_manifest()).unwrap();
    let expansion = expand(&manifest);
    assert_eq!(
        expansion.args,
        Some(ArgsStruct {
            name: "InflateArgs".to_string(),
            fields: vec![
                ArgsField { name: "my_bool".to_string(), type_: ParameterType::Bool },
                ArgsField { name: "my_i32".to_string(), type_: ParameterType::I64 },
                ArgsField { name: "my_f32".to_string(), type_: ParameterType::F32 },
                ArgsField { name: "my_str".to_string(), type_: ParameterType::Str },
                ArgsField { name: "my_loadfile".to_string(), type_: ParameterType::Str },
            ],
        })
    );
    assert_eq!(expansion.entry, entry_calls(&manifest, &vec![true]));
    assert_eq!(rust_type(ParameterType::I64), "i64");
    assert_eq!(rust_type(ParameterType::F32), "f32");
    assert_eq!(rust_type(ParameterType::Bool), "bool");
    assert_eq!(rust_type(ParameterType::Str), "String");
}

#[test]
fn module_names() {
    assert_eq!(module_name("TestModule"), "testmodule-rs");
    assert_eq!(module_name("ÉCOLE"), "école-rs");
    assert_eq!(module_name_from("abc"), "abc-rs");
    assert_eq!(module_suffix_from("abc"), "abc_rs");
    let manifest = Manifest::parse(&minimal(vec![])).unwrap();
    assert_eq!(
        entry_calls_named(&manifest, "given".to_string(), &vec![])[1],
        PropertyCall::ModuleName("given".to_string())
    );
}

#[test]
fn symbols() {
    assert_eq!(vlc_symbol("vlc_entry", None), "vlc_entry");
    assert_eq!(vlc_symbol("vlc_entry", Some("inflate_rs")), "vlc_entry__inflate_rs");
    let version = vlc_entry_api_version(Some("inflate_rs"));
    assert_eq!(version.symbol, "vlc_entry_api_version__inflate_rs");
    assert_eq!(version.answer, VLC_API_VERSION_STRING);
    let copyright = vlc_entry_copyright(None);
    assert_eq!(copyright.symbol, "vlc_entry_copyright");
    assert_eq!(copyright.answer, VLC_COPYRIGHT_VIDEOLAN);
    let license = vlc_entry_license(Some("m"));
    assert_eq!(license.symbol, "vlc_entry_license__m");
    assert_eq!(license.answer, VLC_LICENSE_LGPL_2_1_PLUS);
}

#[test]
fn section_entries_have_their_shape() {
    let with = |args: Vec<Token>| {
        let entry = param(
            inner_attr(vec![id("section"), paren(args)]),
            "a",
            "bool",
            body(vec![default(vec![id("true")])]),
        );
        Manifest::parse(&with_param(entry))
            .map(|m| m.module.params.unwrap()[0].section.clone().unwrap())
    };
    assert_eq!(
        with(vec![id("name"), p('='), s("n")]),
        Ok(SectionInfo { name: "n".to_string(), description: None })
    );
    assert_eq!(with(vec![id("name"), p(':'), s("n")]), Err(ManifestError::ExpectedEquals));
    assert_eq!(with(vec![id("name"), p('='), num(1)]), Err(ManifestError::ExpectedStr));
    assert_eq!(with(vec![s("name")]), Err(ManifestError::ExpectedIdent));
    assert_eq!(with(vec![]), Err(ManifestError::MissingName));
}

#[test]
fn numbers_are_read_with_their_sign() {
    let tokens = vec![p('-'), flt(2.5), num(7), s("x")];
    assert_eq!(number(&tokens, 0, 0), Ok((Value::Float((-2.5f64).to_bits()), 2)));
    assert_eq!(number(&tokens, 0, 1), Ok((Value::Float(2.5f64.to_bits()), 2)));
    assert_eq!(number(&tokens, 1, 1), Ok((Value::Int(7), 3)));
    assert_eq!(number(&tokens, 0, 3), Err(ManifestError::ExpectedNumber));
    assert_eq!(number(&tokens, 4, 0), Err(ManifestError::ExpectedNumber));
    assert_eq!(literal(&tokens, 0, 3), Ok((Value::Str("x".to_string()), 4)));
    assert_eq!(literal(&tokens, 0, 4), Err(ManifestError::ExpectedLiteral));
    assert_eq!(negate_bits(1.0f64.to_bits()), (-1.0f64).to_bits());
    assert_eq!(negate_bits((-0.0f64).to_bits()), 0);
    assert_eq!(signed(5, true), Some(-5));
    assert_eq!(signed(u64::MAX, false), None);
    assert_eq!(score(5, false), Some(5));
    assert_eq!(score(1 << 31, false), None);
}

#[test]
fn a_module_needs_its_loader() {
    let draft = ModuleDraft {
        type_: Some("T".to_string()),
        loader: None,
        category: Some(ConfigSubcategory::HIDDEN),
        capability: Some(CapabilityInfo { capability: "c".to_string(), score: 0 }),
        description: Some("d".to_string()),
        help: None,
        shortname: None,
        prefix: None,
        params: None,
        shortcuts: None,
        submodules: None,
    };
    assert_eq!(finish_module(draft).unwrap_err(), ManifestError::MissingLoader);
}

#[test]
fn errors_have_their_words() {
    assert_eq!(ManifestError::MissingType.message(), "missing `type` key");
    assert_eq!(ManifestError::MissingCapability.message(), "missing `capability` key");
    assert_eq!(ManifestError::MissingCategory.message(), "missing `category` key");
    assert_eq!(ManifestError::MissingDescription.message(), "missing `description` key");
    assert_eq!(
        ManifestError::ParamsWithoutPrefix.message(),
        "missing `#[prefix = \"...\"]` on `params`"
    );
    assert_eq!(ManifestError::NestedSubmodules.message(), "nested submodules are not allowed");
    assert_eq!(
        ManifestError::UnsupportedType.message(),
        "only `i64`, `f32`, `bool` and `str` are supported"
    );
    assert_eq!(
        ManifestError::GlobalAttribute.message(),
        "no global arguments are expected here"
    );
    assert_eq!(ManifestError::LocalAttribute.message(), "no local arguments are expected here");
}

#[test]
fn generated_header_includes_the_common_one_first() {
    assert_eq!(header_contents(&[]), "#include <vlc_common.h>\n");
    assert_eq!(
        header_contents(&["vlc_messages.h", "vlc_tick.h"]),
        "#include <vlc_common.h>\n#include <vlc_messages.h>\n#include <vlc_tick.h>\n"
    );
}

use weechat::plugin::{
    init_status, weechat_plugin_end, weechat_plugin_init, VariableKind, WeechatPluginInfo,
    WeechatVariable,
};
use weechat::{Args, Fault, Plugin, ReturnCode, Runtime, ThreadId, Weechat};

struct Hello {
    plugin: usize,
    args: Vec<String>,
}

impl Plugin for Hello {
    fn init(weechat: &Weechat, mut args: Args) -> Result<Self, ()> {
        let mut seen = Vec::new();
        while let Some(arg) = args.next() {
            seen.push(arg);
        }
        Ok(Hello { plugin: weechat.ptr(), args: seen })
    }
}

struct Broken;

impl Plugin for Broken {
    fn init(_: &Weechat, _: Args) -> Result<Self, ()> {
        Err(())
    }
}

#[test]
fn loading_sets_the_runtime_up_and_unloading_tears_it_down() {
    let mut runtime = Runtime::new();
    let argv = vec![b"--verbose".to_vec()];
    let (plugin, status) = weechat_plugin_init::<Hello>(&mut runtime, 0x77, ThreadId(5), &argv);
    assert_eq!(status, 0);
    let plugin = plugin.unwrap();
    assert_eq!(plugin.plugin, 0x77);
    assert_eq!(plugin.args, vec!["--verbose"]);
    assert_eq!(Weechat::check_thread(&runtime, ThreadId(5)), Ok(()));
    assert!(Weechat::log(&runtime, ThreadId(5), "up").is_ok());

    assert_eq!(weechat_plugin_end(&mut runtime, Some(plugin)), 0);
    assert_eq!(Weechat::log(&runtime, ThreadId(5), "down"), Err(Fault::NotInitialized));
    assert_eq!(Weechat::spawn_checked(&mut runtime, ThreadId(5)), Ok(None));
}

#[test]
fn failed_init_is_reported_to_the_host() {
    let mut runtime = Runtime::new();
    let (plugin, status) = weechat_plugin_init::<Broken>(&mut runtime, 0x77, ThreadId(5), &Vec::new());
    assert!(plugin.is_none());
    assert_eq!(status, -1);
    assert_eq!(weechat_plugin_end::<Broken>(&mut runtime, None), 0);
}

#[test]
fn return_codes() {
    assert_eq!(ReturnCode::Success.as_int(), 0);
    assert_eq!(ReturnCode::OkEat.as_int(), 1);
    assert_eq!(ReturnCode::Error.as_int(), -1);
}

#[test]
fn description_lines_are_read_whatever_the_case_of_the_key() {
    let line = WeechatVariable::parse("name", String::from("hello")).ok().unwrap();
    assert_eq!(line.kind, VariableKind::Name);
    assert_eq!(line.value(), "hello");
    let line = WeechatVariable::parse("AUTHOR", String::from("me")).ok().unwrap();
    assert_eq!(line.kind, VariableKind::Author);
    let line = WeechatVariable::parse("Description", String::new()).ok().unwrap();
    assert_eq!(line.kind, VariableKind::Description);
    let line = WeechatVariable::parse("version", String::from("1.0")).ok().unwrap();
    assert_eq!(line.kind, VariableKind::Version);
    let line = WeechatVariable::parse("License", String::from("MIT")).ok().unwrap();
    assert_eq!(line.kind, VariableKind::License);
    assert_eq!(
        WeechatVariable::parse("homepage", String::new()).err(),
        Some("expected one of name, author, description, version or license")
    );
    // The key in lower case is read as it stands.
    assert!(WeechatVariable::from_lower_key("NAME", String::new()).is_err());
    assert!(WeechatVariable::from_lower_key("name", String::new()).is_ok());
}

#[test]
fn description_values_end_with_a_nul_byte() {
    assert_eq!(WeechatVariable::to_pair("hello"), (6, b"hello\0".to_vec()));
    assert_eq!(WeechatVariable::to_pair(""), (1, vec![0]));
    assert_eq!(WeechatVariable::to_pair("caf\u{e9}"), (6, b"caf\xc3\xa9\0".to_vec()));
    assert_eq!(WeechatVariable::default_literal(), (1, vec![0]));
    let line = WeechatVariable { kind: VariableKind::License, value: String::from("MIT") };
    assert_eq!(line.as_pair(), (4, b"MIT\0".to_vec()));
}

#[test]
fn plugin_description_needs_a_name() {
    let lines = vec![
        WeechatVariable { kind: VariableKind::Author, value: String::from("a") },
        WeechatVariable { kind: VariableKind::Name, value: String::from("first") },
        WeechatVariable { kind: VariableKind::Version, value: String::from("0.1.0") },
        WeechatVariable { kind: VariableKind::Name, value: String::from("hello") },
    ];
    let info = WeechatPluginInfo::parse(String::from("Hello"), &lines).ok().unwrap();
    assert_eq!(info.plugin, "Hello");
    assert_eq!(info.name, (6, b"hello\0".to_vec(), String::from("hello")));
    assert_eq!(info.author, (2, b"a\0".to_vec()));
    assert_eq!(info.description, (1, vec![0]));
    assert_eq!(info.version, (6, b"0.1.0\0".to_vec()));
    assert_eq!(info.license, (1, vec![0]));

    let lines = vec![WeechatVariable { kind: VariableKind::Author, value: String::from("a") }];
    assert_eq!(
        WeechatPluginInfo::parse(String::from("Hello"), &lines).err(),
        Some("the name of the plugin needs to be defined")
    );
    assert!(WeechatPluginInfo::parse(String::from("Hello"), &Vec::new()).is_err());
}

#[test]
fn init_status_follows_the_plugins_own_initialization() {
    assert_eq!(init_status(Ok(7u8)), (Some(7u8), 0));
    assert_eq!(init_status::<u8>(Err(())), (None, -1));
}

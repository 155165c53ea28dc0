use std::cell::Cell;
use std::collections::HashMap;
use std::rc::Rc;

use weechat::config::{
    BaseConfigOption, BooleanOption, BooleanOptionSettings, ColorOptionSettings, Conf, Config,
    ConfigError, ConfigOption, ConfigReloadCallback, ConfigSection, ConfigSectionSettings,
    EnumOptionSettings, HiddenConfigOptionT, IntegerOptionSettings, OptionCallback,
    OptionChanged, OptionCheckCallback, OptionType, SectionReadCallback, SectionWriteCallback,
    SectionWriteDefaultCallback, StringOption, StringOptionSettings,
};
use weechat::{Fault, NativeCall, Runtime, ThreadId, Weechat};

const MAIN: ThreadId = ThreadId(1);
const OTHER: ThreadId = ThreadId(2);

/// A runtime that is set up on the thread `MAIN`.
fn rt() -> Runtime {
    let mut runtime = Runtime::new();
    Weechat::init_from_ptr(&mut runtime, 0x77, MAIN);
    runtime
}

/// A stand-in for the host: it keeps what it was asked to create and answers
/// as the host does for boolean and integer options.
struct Host {
    next: usize,
    types: HashMap<usize, String>,
    values: HashMap<usize, String>,
    names: HashMap<Vec<u8>, usize>,
}

impl Host {
    fn new() -> Host {
        Host { next: 0x1000, types: HashMap::new(), values: HashMap::new(), names: HashMap::new() }
    }

    fn fresh(&mut self) -> usize {
        self.next += 0x10;
        self.next
    }

    /// Performs a call that creates something and answers with its address,
    /// or with null for a name that is taken.
    fn create(&mut self, call: &NativeCall) -> usize {
        match call {
            NativeCall::ConfigNew { name, .. } | NativeCall::ConfigNewSection { name, .. } => {
                if self.names.contains_key(name) {
                    return 0;
                }
                let ptr = self.fresh();
                self.names.insert(name.clone(), ptr);
                ptr
            }
            NativeCall::ConfigNewOption { name, option_type, value, .. } => {
                if self.names.contains_key(name) {
                    return 0;
                }
                let ptr = self.fresh();
                self.names.insert(name.clone(), ptr);
                self.types.insert(ptr, String::from_utf8(option_type.clone()).unwrap());
                self.values.insert(ptr, String::from_utf8(value.clone()).unwrap());
                ptr
            }
            other => panic!("not a creation: {:?}", other),
        }
    }

    /// Performs `config_option_set` and answers with the host's status.
    fn set(&mut self, call: &NativeCall) -> i32 {
        let (option, value) = match call {
            NativeCall::ConfigOptionSet { option, value, .. } => {
                (*option, String::from_utf8(value.clone()).unwrap())
            }
            other => panic!("not a set: {:?}", other),
        };
        let kind = match self.types.get(&option) {
            Some(kind) => kind.clone(),
            None => return -1,
        };
        let parsed = match kind.as_str() {
            "boolean" => match value.as_str() {
                "on" | "yes" | "true" | "1" => Some(String::from("on")),
                "off" | "no" | "false" | "0" => Some(String::from("off")),
                _ => None,
            },
            "integer" => value.parse::<i32>().ok().map(|v| v.to_string()),
            _ => Some(value),
        };
        match parsed {
            None => 0,
            Some(value) => {
                if self.values[&option] == value {
                    1
                } else {
                    self.values.insert(option, value);
                    2
                }
            }
        }
    }

    fn search(&self, call: &NativeCall) -> (usize, String) {
        match call {
            NativeCall::ConfigSearchOption { name, .. } => match self.names.get(name) {
                Some(ptr) => (*ptr, self.types[ptr].clone()),
                None => (0, String::new()),
            },
            other => panic!("not a search: {:?}", other),
        }
    }

    fn boolean(&self, call: &NativeCall) -> i32 {
        match call {
            NativeCall::ConfigBoolean { option } => (self.values[option] == "on") as i32,
            other => panic!("not a boolean read: {:?}", other),
        }
    }
}

fn plugin() -> Weechat {
    Weechat::from_ptr(0x77)
}

fn new_config(host: &mut Host, name: &str) -> Config {
    let call = NativeCall::ConfigNew { plugin: 0x77, name: name.as_bytes().to_vec(), reload: false };
    let ptr = host.create(&call);
    Config::new(&plugin(), ptr).unwrap()
}

fn new_section<'a>(host: &mut Host, config: &'a mut Config, name: &str) -> &'a mut ConfigSection {
    let settings = ConfigSectionSettings::new(name);
    let call = config.new_section_call(&rt(), MAIN, &settings).unwrap();
    let ptr = host.create(&call);
    config.new_section(settings, ptr).unwrap()
}

#[test]
fn boolean_option_set_changed_then_unchanged() {
    let mut host = Host::new();
    let mut config = new_config(&mut host, "test");
    let section = new_section(&mut host, &mut config, "look");

    let settings = BooleanOptionSettings::new("flag").default_value(false);
    let call = section.new_boolean_option_call(&rt(), MAIN, &settings).unwrap();
    let ptr = host.create(&call);
    let flag = section.new_boolean_option(settings, ptr).unwrap();

    assert!(!flag.value(host.boolean(&flag.value_call(&rt(), MAIN).unwrap())));

    let outcome = flag.set(host.set(&flag.set_call(&rt(), MAIN, "on", true).unwrap()));
    assert_eq!(outcome, OptionChanged::Changed);
    assert!(flag.value(host.boolean(&flag.value_call(&rt(), MAIN).unwrap())));

    let outcome = flag.set(host.set(&flag.set_call(&rt(), MAIN, "on", true).unwrap()));
    assert_eq!(outcome, OptionChanged::Unchanged);
}

#[test]
fn set_outcomes_follow_the_host() {
    let mut host = Host::new();
    let mut config = new_config(&mut host, "test");
    let section = new_section(&mut host, &mut config, "net");

    let settings = IntegerOptionSettings::new("limit").default_value(6667).min(1).max(65535);
    let call = section.new_integer_option_call(&rt(), MAIN, &settings).unwrap();
    let ptr = host.create(&call);
    let limit = section.new_integer_option(settings, ptr).unwrap();

    assert_eq!(limit.set(host.set(&limit.set_call(&rt(), MAIN, "6667", false).unwrap())), OptionChanged::Unchanged);
    assert_eq!(limit.set(host.set(&limit.set_call(&rt(), MAIN, "6697", false).unwrap())), OptionChanged::Changed);
    assert_eq!(limit.set(host.set(&limit.set_call(&rt(), MAIN, "notanumber", false).unwrap())), OptionChanged::Error);

    let (found, kind) = host.search(&section.search_option_call(&rt(), MAIN, "nothing").unwrap());
    assert!(section.search_option(found, &kind).is_none());
    assert!(!section.contains("nothing"));
}

#[test]
fn option_changed_reads_each_status_code() {
    assert_eq!(OptionChanged::from_int(2), OptionChanged::Changed);
    assert_eq!(OptionChanged::from_int(1), OptionChanged::Unchanged);
    assert_eq!(OptionChanged::from_int(0), OptionChanged::Error);
    assert_eq!(OptionChanged::from_int(-1), OptionChanged::NotFound);
    for outcome in [
        OptionChanged::Changed,
        OptionChanged::Unchanged,
        OptionChanged::Error,
        OptionChanged::NotFound,
    ] {
        assert_eq!(OptionChanged::from_int(outcome.as_int()), outcome);
    }
}

#[test]
fn created_option_is_found_with_its_type() {
    let mut host = Host::new();
    let mut config = new_config(&mut host, "test");
    let section = new_section(&mut host, &mut config, "all");

    let settings = BooleanOptionSettings::new("b");
    let ptr = host.create(&section.new_boolean_option_call(&rt(), MAIN, &settings).unwrap());
    section.new_boolean_option(settings, ptr).unwrap();
    let settings = IntegerOptionSettings::new("i");
    let ptr = host.create(&section.new_integer_option_call(&rt(), MAIN, &settings).unwrap());
    section.new_integer_option(settings, ptr).unwrap();
    let settings = StringOptionSettings::new("s");
    let ptr = host.create(&section.new_string_option_call(&rt(), MAIN, &settings).unwrap());
    section.new_string_option(settings, ptr).unwrap();
    let settings = ColorOptionSettings::new("c");
    let ptr = host.create(&section.new_color_option_call(&rt(), MAIN, &settings).unwrap());
    section.new_color_option(settings, ptr).unwrap();
    let settings = EnumOptionSettings::new("e");
    let ptr = host.create(&section.new_enum_option_call(&rt(), MAIN, &settings).unwrap());
    section.new_enum_option(settings, ptr).unwrap();

    let expected = [
        ("b", OptionType::Boolean),
        ("i", OptionType::Integer),
        ("s", OptionType::String),
        ("c", OptionType::Color),
        ("e", OptionType::Enum),
    ];
    for (name, option_type) in expected {
        let (found, kind) = host.search(&section.search_option_call(&rt(), MAIN, name).unwrap());
        let option = section.search_option(found, &kind).unwrap();
        assert_eq!(option.kind(), option_type);
        assert_eq!(option.option_type(&kind), option_type);
        assert_eq!(option.get_ptr(), found);
        assert_eq!(section.option_type(name), Some(option_type));
    }
    assert_eq!(section.len(), 5);
    let mut names = section.option_names();
    names.sort();
    assert_eq!(names, vec!["b", "c", "e", "i", "s"]);
}

#[test]
fn option_type_names() {
    assert_eq!(OptionType::Boolean.as_str(), "boolean");
    assert_eq!(OptionType::Integer.as_str(), "integer");
    assert_eq!(OptionType::String.as_str(), "string");
    assert_eq!(OptionType::Color.as_str(), "color");
    assert_eq!(OptionType::Enum.as_str(), "enum");
    assert_eq!(OptionType::try_from("color"), Ok(OptionType::Color));
    assert_eq!(OptionType::try_from("Color"), Err("Invalid option type"));
    assert_eq!(OptionType::try_from(""), Err("Invalid option type"));
}

#[test]
fn option_from_type_and_ptr_picks_the_handle() {
    let option = Config::option_from_type_and_ptr(0x77, 0x500, "enum");
    assert!(matches!(option, ConfigOption::Enum(_)));
    assert_eq!(option.get_ptr(), 0x500);
    assert_eq!(option.get_weechat().ptr(), 0x77);
    let option = Config::option_from_type_and_ptr(0x77, 0x501, "string");
    assert!(matches!(option, ConfigOption::String(_)));
}

#[test]
fn new_option_calls_say_what_the_settings_say() {
    let mut host = Host::new();
    let mut config = new_config(&mut host, "test");
    let config_ptr = config.get_ptr();
    let section = new_section(&mut host, &mut config, "look");
    let section_ptr = section.get_ptr();

    let settings = BooleanOptionSettings::new("fl\0ag").description("A flag").default_value(true);
    assert_eq!(
        section.new_boolean_option_call(&rt(), MAIN, &settings).unwrap(),
        NativeCall::ConfigNewOption {
            config: config_ptr,
            section: section_ptr,
            name: b"flag".to_vec(),
            option_type: b"boolean".to_vec(),
            description: b"A flag".to_vec(),
            string_values: Vec::new(),
            min: 0,
            max: 0,
            default_value: b"on".to_vec(),
            value: b"on".to_vec(),
            null_allowed: false,
            check: false,
            change: false,
            delete: false,
        }
    );

    let settings = IntegerOptionSettings::new("n").default_value(-2147483648).min(-5).max(9);
    assert_eq!(
        section.new_integer_option_call(&rt(), MAIN, &settings).unwrap(),
        NativeCall::ConfigNewOption {
            config: config_ptr,
            section: section_ptr,
            name: b"n".to_vec(),
            option_type: b"integer".to_vec(),
            description: Vec::new(),
            string_values: Vec::new(),
            min: -5,
            max: 9,
            default_value: b"-2147483648".to_vec(),
            value: b"-2147483648".to_vec(),
            null_allowed: false,
            check: false,
            change: false,
            delete: false,
        }
    );

    let values = vec![String::from("left"), String::from("right"), String::from("top")];
    let settings =
        EnumOptionSettings::new("side").string_values(&values).default_value(2).min(1).max(2);
    assert_eq!(
        section.new_enum_option_call(&rt(), MAIN, &settings).unwrap(),
        NativeCall::ConfigNewOption {
            config: config_ptr,
            section: section_ptr,
            name: b"side".to_vec(),
            option_type: b"enum".to_vec(),
            description: Vec::new(),
            string_values: b"left|right|top".to_vec(),
            min: 1,
            max: 2,
            default_value: b"2".to_vec(),
            value: b"2".to_vec(),
            null_allowed: false,
            check: false,
            change: false,
            delete: false,
        }
    );

    let settings = ColorOptionSettings::new("fg").default_value("red");
    match section.new_color_option_call(&rt(), MAIN, &settings).unwrap() {
        NativeCall::ConfigNewOption { option_type, default_value, value, .. } => {
            assert_eq!(option_type, b"color");
            assert_eq!(default_value, b"red");
            assert_eq!(value, b"red");
        }
        other => panic!("unexpected call {:?}", other),
    }
}

#[test]
fn refused_creation_is_an_error_and_changes_nothing() {
    let mut host = Host::new();
    assert!(Config::new(&plugin(), 0).is_err());

    let mut config = new_config(&mut host, "test");
    assert!(config.new_section(ConfigSectionSettings::new("look"), 0).is_err());
    assert_eq!(config.len(), 0);

    let section = new_section(&mut host, &mut config, "look");
    assert!(section.new_boolean_option(BooleanOptionSettings::new("flag"), 0).is_err());
    assert!(section.new_integer_option(IntegerOptionSettings::new("n"), 0).is_err());
    assert!(section.new_string_option(StringOptionSettings::new("s"), 0).is_err());
    assert!(section.new_color_option(ColorOptionSettings::new("c"), 0).is_err());
    assert!(section.new_enum_option(EnumOptionSettings::new("e"), 0).is_err());
    assert_eq!(section.len(), 0);

    // The host refuses a second section of the same name; so does the file.
    let settings = ConfigSectionSettings::new("look");
    let ptr = host.create(&config.new_section_call(&rt(), MAIN, &settings).unwrap());
    assert_eq!(ptr, 0);
    assert!(config.new_section(ConfigSectionSettings::new("look"), 0x9990).is_err());
    assert_eq!(config.len(), 1);
}

#[test]
fn search_section_finds_what_was_created() {
    let mut host = Host::new();
    let mut config = new_config(&mut host, "test");
    new_section(&mut host, &mut config, "look");
    new_section(&mut host, &mut config, "network");

    assert_eq!(config.search_section("look").unwrap().name(), "look");
    assert_eq!(config.search_section("network").unwrap().name(), "network");
    assert!(config.search_section("color").is_none());
    assert!(config.search_section_mut("color").is_none());

    let section = config.search_section_mut("network").unwrap();
    let settings = StringOptionSettings::new("host").default_value("localhost");
    let ptr = host.create(&section.new_string_option_call(&rt(), MAIN, &settings).unwrap());
    section.new_string_option(settings, ptr).unwrap();
    assert!(config.search_section("network").unwrap().contains("host"));
    assert!(!config.search_section("look").unwrap().contains("host"));
}

#[test]
fn free_option_gives_the_option_up_once() {
    let mut host = Host::new();
    let mut config = new_config(&mut host, "test");
    let section = new_section(&mut host, &mut config, "look");
    let settings = BooleanOptionSettings::new("flag");
    let ptr = host.create(&section.new_boolean_option_call(&rt(), MAIN, &settings).unwrap());
    section.new_boolean_option(settings, ptr).unwrap();

    // Another thread cannot free the option: it stays.
    assert_eq!(section.free_option(&rt(), OTHER, "flag", ptr), Err(Fault::WrongThread));
    assert!(section.contains("flag"));
    assert_eq!(
        section.free_option(&rt(), MAIN, "flag", ptr),
        Ok(Ok(NativeCall::ConfigOptionFree { option: ptr }))
    );
    assert!(!section.contains("flag"));
    assert_eq!(section.free_option(&rt(), MAIN, "flag", ptr), Ok(Err(())));
    assert_eq!(section.free_option(&rt(), MAIN, "never", 0), Ok(Err(())));
}

struct Canary {
    fired: Rc<Cell<usize>>,
    dropped: Rc<Cell<usize>>,
}

impl Canary {
    fn new(fired: &Rc<Cell<usize>>, dropped: &Rc<Cell<usize>>) -> Canary {
        Canary { fired: fired.clone(), dropped: dropped.clone() }
    }

    fn fire(&self) {
        self.fired.set(self.fired.get() + 1);
    }
}

impl Drop for Canary {
    fn drop(&mut self) {
        self.dropped.set(self.dropped.get() + 1);
    }
}

impl ConfigReloadCallback for Canary {
    fn callback(&mut self, _: &Weechat, _: &Conf) {
        self.fire();
    }
}

impl SectionReadCallback for Canary {
    fn callback(
        &mut self,
        _: &Weechat,
        _: &Conf,
        _: &mut ConfigSection,
        _: &str,
        _: &str,
    ) -> OptionChanged {
        self.fire();
        OptionChanged::Changed
    }
}

impl SectionWriteCallback for Canary {
    fn callback(&mut self, _: &Weechat, _: &Conf, _: &mut ConfigSection) {
        self.fire();
    }
}

impl SectionWriteDefaultCallback for Canary {
    fn callback(&mut self, _: &Weechat, _: &Conf, _: &mut ConfigSection) {
        self.fire();
    }
}

impl OptionCallback<BooleanOption<'static>> for Canary {
    fn callback(&mut self, _: &Weechat, _: &BooleanOption) {
        self.fire();
    }
}

impl OptionCallback<StringOption<'static>> for Canary {
    fn callback(&mut self, _: &Weechat, _: &StringOption) {
        self.fire();
    }
}

struct ShortOnly;

impl OptionCheckCallback<StringOption<'static>> for ShortOnly {
    fn callback(&mut self, _: &Weechat, _: &StringOption, value: &str) -> bool {
        value.len() <= 3
    }
}

#[test]
fn dropping_a_config_frees_everything_once_and_silences_callbacks() {
    let fired = Rc::new(Cell::new(0));
    let dropped = Rc::new(Cell::new(0));
    let weechat = plugin();

    let mut config =
        Config::new_with_callback(&weechat, 0x100, Canary::new(&fired, &dropped)).unwrap();
    let settings = ConfigSectionSettings::new("look")
        .set_read_callback(Canary::new(&fired, &dropped))
        .set_write_callback(Canary::new(&fired, &dropped))
        .set_write_default_callback(Canary::new(&fired, &dropped));
    let section = config.new_section(settings, 0x200).unwrap();
    let settings =
        BooleanOptionSettings::new("flag").set_change_callback(Canary::new(&fired, &dropped));
    section.new_boolean_option(settings, 0x300).unwrap();
    let settings =
        StringOptionSettings::new("name").set_change_callback(Canary::new(&fired, &dropped));
    section.new_string_option(settings, 0x301).unwrap();
    config.new_section(ConfigSectionSettings::new("empty"), 0x201).unwrap();

    // While the file lives every callback can be reached.
    assert_eq!(config.on_reload(0x100), Ok(0));
    assert_eq!(config.on_section_read("look", 0x100, b"k", b"v"), Ok(2));
    assert_eq!(config.on_section_write("look", 0x100), Ok((0, true)));
    assert_eq!(config.on_section_write_default("look", 0x100), Ok((0, true)));
    let section = config.search_section_mut("look").unwrap();
    assert_eq!(section.on_option_change("flag", 0x300), Ok(true));
    assert_eq!(section.on_option_change("name", 0x301), Ok(true));
    assert_eq!(fired.get(), 6);
    assert_eq!(dropped.get(), 0);

    // Another thread cannot free the file: everything stays alive.
    assert_eq!(config.free(&rt(), OTHER), Err(Fault::WrongThread));
    assert!(!config.freed());
    assert_eq!(dropped.get(), 0);
    assert_eq!(config.len(), 2);

    let calls = config.free(&rt(), MAIN).unwrap();
    assert_eq!(
        calls,
        vec![
            NativeCall::ConfigSectionFreeOptions { section: 0x200 },
            NativeCall::ConfigSectionFree { section: 0x200 },
            NativeCall::ConfigSectionFreeOptions { section: 0x201 },
            NativeCall::ConfigSectionFree { section: 0x201 },
            NativeCall::ConfigFree { config: 0x100 },
        ]
    );
    assert!(config.freed());
    // Each of the six callbacks was given back, once.
    assert_eq!(dropped.get(), 6);

    // Nothing fires afterwards, and nothing is freed a second time.
    assert_eq!(config.on_reload(0x100), Err(Fault::StaleContext));
    assert_eq!(config.on_section_read("look", 0x100, b"k", b"v"), Err(Fault::StaleContext));
    assert_eq!(config.on_section_write("look", 0x100), Err(Fault::StaleContext));
    assert_eq!(config.on_section_write_default("look", 0x100), Err(Fault::StaleContext));
    assert!(config.search_section("look").is_none());
    assert!(config.new_section(ConfigSectionSettings::new("late"), 0x202).is_err());
    assert_eq!(config.free(&rt(), MAIN), Ok(Vec::new()));
    assert_eq!(fired.get(), 6);
    assert_eq!(dropped.get(), 6);
}

#[test]
fn callbacks_are_dropped_at_once_when_the_host_refuses() {
    let fired = Rc::new(Cell::new(0));
    let dropped = Rc::new(Cell::new(0));
    let weechat = plugin();

    assert!(Config::new_with_callback(&weechat, 0, Canary::new(&fired, &dropped)).is_err());
    assert_eq!(dropped.get(), 1);

    let mut config = Config::new(&weechat, 0x100).unwrap();
    let settings =
        ConfigSectionSettings::new("look").set_read_callback(Canary::new(&fired, &dropped));
    assert!(config.new_section(settings, 0).is_err());
    assert_eq!(dropped.get(), 2);

    let section = config.new_section(ConfigSectionSettings::new("look"), 0x200).unwrap();
    let settings =
        BooleanOptionSettings::new("flag").set_change_callback(Canary::new(&fired, &dropped));
    assert!(section.new_boolean_option(settings, 0).is_err());
    assert_eq!(dropped.get(), 3);
    assert_eq!(fired.get(), 0);
}

#[test]
fn freed_or_deleted_option_is_silent() {
    let fired = Rc::new(Cell::new(0));
    let dropped = Rc::new(Cell::new(0));
    let mut config = Config::new(&plugin(), 0x100).unwrap();
    let section = config.new_section(ConfigSectionSettings::new("look"), 0x200).unwrap();

    let settings =
        BooleanOptionSettings::new("a").set_change_callback(Canary::new(&fired, &dropped));
    section.new_boolean_option(settings, 0x300).unwrap();
    let settings =
        BooleanOptionSettings::new("b").set_change_callback(Canary::new(&fired, &dropped));
    section.new_boolean_option(settings, 0x301).unwrap();

    assert!(matches!(section.free_option(&rt(), MAIN, "a", 0x300), Ok(Ok(_))));
    assert_eq!(dropped.get(), 1);
    assert_eq!(section.on_option_change("a", 0x300), Err(Fault::StaleContext));

    // The host deletes the other option itself: no delete callback was set.
    assert_eq!(section.on_option_delete("b", 0x301), Ok(false));
    assert_eq!(dropped.get(), 2);
    assert_eq!(section.on_option_delete("b", 0x301), Err(Fault::StaleContext));
    assert_eq!(section.on_option_change("b", 0x301), Err(Fault::StaleContext));
    assert_eq!(section.free_option(&rt(), MAIN, "b", 0x301), Ok(Err(())));
    assert_eq!(fired.get(), 0);
    assert_eq!(section.len(), 0);
}

#[test]
fn check_callback_vets_values() {
    let mut config = Config::new(&plugin(), 0x100).unwrap();
    let section = config.new_section(ConfigSectionSettings::new("look"), 0x200).unwrap();

    let settings = StringOptionSettings::new("nick").set_check_callback(ShortOnly);
    match section.new_string_option_call(&rt(), MAIN, &settings).unwrap() {
        NativeCall::ConfigNewOption { check, change, delete, .. } => {
            assert!(check);
            assert!(!change);
            assert!(!delete);
        }
        other => panic!("unexpected call {:?}", other),
    }
    section.new_string_option(settings, 0x300).unwrap();
    section.new_string_option(StringOptionSettings::new("free"), 0x301).unwrap();

    assert_eq!(section.on_option_check("nick", 0x300, b"bob"), Ok(1));
    assert_eq!(section.on_option_check("nick", 0x300, b"robert"), Ok(0));
    // Without a check callback every value is accepted.
    assert_eq!(section.on_option_check("free", 0x301, b"anything at all"), Ok(1));
    assert_eq!(section.on_option_check("gone", 0x302, b"x"), Err(Fault::StaleContext));
    assert_eq!(section.on_option_change("free", 0x301), Ok(false));
}

struct OnlyX;

impl SectionReadCallback for OnlyX {
    fn callback(
        &mut self,
        _: &Weechat,
        _: &Conf,
        section: &mut ConfigSection,
        option_name: &str,
        option_value: &str,
    ) -> OptionChanged {
        if !option_name.starts_with("x_") {
            return OptionChanged::NotFound;
        }
        let settings = StringOptionSettings::new(option_name).default_value(option_value);
        match section.new_string_option(settings, 0x4000 + section.len()) {
            Ok(_) => OptionChanged::Changed,
            Err(()) => OptionChanged::Error,
        }
    }
}

#[test]
fn read_callback_accepts_only_its_keys() {
    let mut config = Config::new(&plugin(), 0x100).unwrap();
    config
        .new_section(ConfigSectionSettings::new("vars").set_read_callback(OnlyX), 0x200)
        .unwrap();

    assert_eq!(config.on_section_read("vars", 0x100, b"x_a", b"1"), Ok(2));
    assert_eq!(config.on_section_read("vars", 0x100, b"y_b", b"1"), Ok(-1));
    assert_eq!(config.on_section_read("vars", 0x100, b"y_b", b"1"), Ok(-1));
    assert_eq!(OptionChanged::from_int(-1), OptionChanged::NotFound);

    let section = config.search_section("vars").unwrap();
    assert!(section.contains("x_a"));
    assert!(!section.contains("y_b"));
    assert_eq!(section.option_type("x_a"), Some(OptionType::String));
}

#[test]
fn missing_callbacks_are_told_apart_from_missing_sections() {
    let mut config = Config::new(&plugin(), 0x100).unwrap();
    config.new_section(ConfigSectionSettings::new("plain"), 0x200).unwrap();

    assert_eq!(config.on_section_read("plain", 0x100, b"k", b"v"), Err(Fault::MissingCallback));
    assert_eq!(config.on_section_read("other", 0x100, b"k", b"v"), Err(Fault::StaleContext));
    assert_eq!(config.on_section_write("plain", 0x100), Ok((0, false)));
    assert_eq!(config.on_section_write_default("plain", 0x100), Ok((0, false)));
    assert_eq!(config.on_section_write("other", 0x100), Err(Fault::StaleContext));
    assert_eq!(config.on_reload(0x100), Err(Fault::MissingCallback));
}

#[test]
fn read_and_write_statuses() {
    let config = Config::new(&plugin(), 0x100).unwrap();
    assert_eq!(config.read_call(&rt(), MAIN).unwrap(), NativeCall::ConfigRead { config: 0x100 });
    assert_eq!(config.write_call(&rt(), MAIN).unwrap(), NativeCall::ConfigWrite { config: 0x100 });
    assert_eq!(config.read(0), Ok(()));
    assert_eq!(config.read(-1), Err(ConfigError::OutOfMemory));
    assert_eq!(config.read(-2), Err(ConfigError::NotFound));
    assert_eq!(config.write(0), Ok(()));
    assert_eq!(config.write(-1), Err(ConfigError::WriteFailed));
    assert_eq!(config.write(-2), Err(ConfigError::OutOfMemory));
    assert_eq!(ConfigError::WriteFailed.message(), "File could not be written");
    assert_eq!(Config::return_value_to_error(-2), Err(ConfigError::NotFound));
    assert_eq!(ConfigError::NotFound.message(), "File was not found");
    assert_eq!(ConfigError::OutOfMemory.message(), "Not enough memory");
}

#[test]
fn conf_writes_lines() {
    let conf = Conf::from_ptrs(0x100, 0x77);
    assert_eq!(
        conf.write_section(&rt(), MAIN, "look").unwrap(),
        NativeCall::ConfigWriteLine { config: 0x100, key: b"look".to_vec(), value: None }
    );
    assert_eq!(
        conf.write_line(&rt(), MAIN, "nick", "b\0ob").unwrap(),
        NativeCall::ConfigWriteLine {
            config: 0x100,
            key: b"nick".to_vec(),
            value: Some(b"bob".to_vec()),
        }
    );
    let option = Config::option_from_type_and_ptr(0x77, 0x300, "integer");
    assert_eq!(
        conf.write_option(&rt(), MAIN, &option).unwrap(),
        NativeCall::ConfigWriteOption { config: 0x100, option: 0x300 }
    );
}

#[test]
fn base_option_calls() {
    let option = Config::option_from_type_and_ptr(0x77, 0x300, "string");
    assert_eq!(
        option.name_call(&rt(), MAIN).unwrap(),
        NativeCall::ConfigOptionGetString { option: 0x300, property: b"name".to_vec() }
    );
    assert_eq!(
        option.description_call(&rt(), MAIN).unwrap(),
        NativeCall::ConfigOptionGetString { option: 0x300, property: b"description".to_vec() }
    );
    assert_eq!(
        option.section_name_call(&rt(), MAIN).unwrap(),
        NativeCall::ConfigOptionGetString { option: 0x300, property: b"section_name".to_vec() }
    );
    assert_eq!(
        option.config_name_call(&rt(), MAIN).unwrap(),
        NativeCall::ConfigOptionGetString { option: 0x300, property: b"config_name".to_vec() }
    );
    assert_eq!(
        option.option_type_call(&rt(), MAIN).unwrap(),
        NativeCall::ConfigOptionGetString { option: 0x300, property: b"type".to_vec() }
    );
    assert_eq!(
        option.set_call(&rt(), MAIN, "va\0lue", true).unwrap(),
        NativeCall::ConfigOptionSet { option: 0x300, value: b"value".to_vec(), run_callback: 1 }
    );
    assert_eq!(
        option.reset_call(&rt(), MAIN, false).unwrap(),
        NativeCall::ConfigOptionReset { option: 0x300, run_callback: 0 }
    );
    assert_eq!(option.is_null_call(&rt(), MAIN).unwrap(), NativeCall::ConfigOptionIsNull { option: 0x300 });
    assert_eq!(option.name(b"nick"), "nick");
    assert_eq!(option.get_string(None), None);
    assert_eq!(option.get_string(Some(b"a\xffb")), Some(String::from("a\u{fffd}b")));
    assert_eq!(option.reset(1), OptionChanged::Unchanged);
    assert!(option.is_null(1));
    assert!(!option.is_null(0));
    match option {
        ConfigOption::String(s) => {
            assert_eq!(s.value_call(&rt(), MAIN).unwrap(), NativeCall::ConfigString { option: 0x300 });
            assert_eq!(s.value(b"caf\xc3\xa9"), "caf\u{e9}");
            assert_eq!(s.value(b"\xc3"), "\u{fffd}");
        }
        _ => panic!("a string option was asked for"),
    }
}

#[test]
fn plugin_options() {
    let weechat = plugin();
    assert_eq!(weechat.config_get_call(&rt(), MAIN, "a.b.c").unwrap(), NativeCall::ConfigGet { name: b"a.b.c".to_vec() });
    assert!(weechat.config_get(0, "").is_none());
    assert_eq!(weechat.config_get(0x300, "color").unwrap().kind(), OptionType::Color);
    assert_eq!(
        weechat.get_plugin_option_call(&rt(), MAIN, "key").unwrap(),
        NativeCall::ConfigGetPlugin { plugin: 0x77, name: b"key".to_vec() }
    );
    assert_eq!(weechat.get_plugin_option(Some(b"v")), Some(String::from("v")));
    assert_eq!(weechat.get_plugin_option(None), None);
    assert_eq!(
        weechat.set_plugin_option_call(&rt(), MAIN, "key", "v").unwrap(),
        NativeCall::ConfigSetPlugin { plugin: 0x77, name: b"key".to_vec(), value: b"v".to_vec() }
    );
    assert_eq!(weechat.set_plugin_option(-1), OptionChanged::NotFound);
}

#[test]
fn settings_keep_what_they_were_given() {
    assert_eq!(ConfigSectionSettings::new("look").name(), "look");
    assert_eq!(BooleanOptionSettings::new("flag").description("d").name(), "flag");
    assert_eq!(IntegerOptionSettings::new("n").min(1).max(2).default_value(1).name(), "n");
    assert_eq!(StringOptionSettings::new("s").default_value("x").name(), "s");
    assert_eq!(ColorOptionSettings::new("c").description("d").name(), "c");
    assert_eq!(EnumOptionSettings::new("e").min(0).max(3).name(), "e");

    let mut config = Config::new(&plugin(), 0x100).unwrap();
    let section = config.new_section(ConfigSectionSettings::new("look"), 0x200).unwrap();
    let none: Vec<String> = Vec::new();
    let settings = EnumOptionSettings::new("e").string_values(&none).description("An enum");
    match section.new_enum_option_call(&rt(), MAIN, &settings).unwrap() {
        NativeCall::ConfigNewOption { string_values, description, .. } => {
            assert_eq!(string_values, b"");
            assert_eq!(description, b"An enum");
        }
        other => panic!("unexpected call {:?}", other),
    }
    let one = vec![String::from("only")];
    let settings = EnumOptionSettings::new("e").string_values(&one);
    match section.new_enum_option_call(&rt(), MAIN, &settings).unwrap() {
        NativeCall::ConfigNewOption { string_values, .. } => assert_eq!(string_values, b"only"),
        other => panic!("unexpected call {:?}", other),
    }
}

#[test]
fn options_are_listed_from_the_hosts_answers() {
    let mut host = Host::new();
    let mut config = new_config(&mut host, "test");
    let section = new_section(&mut host, &mut config, "look");
    let settings = BooleanOptionSettings::new("flag");
    let ptr = host.create(&section.new_boolean_option_call(&rt(), MAIN, &settings).unwrap());
    section.new_boolean_option(settings, ptr).unwrap();
    let settings = IntegerOptionSettings::new("count");
    let ptr = host.create(&section.new_integer_option_call(&rt(), MAIN, &settings).unwrap());
    section.new_integer_option(settings, ptr).unwrap();

    let names = section.option_names();
    let answers: Vec<(usize, String)> =
        names.iter().map(|name| host.search(&section.search_option_call(&rt(), MAIN, name).unwrap())).collect();
    let options = section.options(&answers);
    assert_eq!(options.len(), 2);
    for (i, option) in options.iter().enumerate() {
        assert_eq!(option.get_ptr(), answers[i].0);
        assert_eq!(Some(option.kind()), section.option_type(&names[i]));
    }
}

#[test]
fn a_new_option_takes_the_place_of_one_with_the_same_name() {
    let fired = Rc::new(Cell::new(0));
    let dropped = Rc::new(Cell::new(0));
    let mut config = Config::new(&plugin(), 0x100).unwrap();
    let section = config.new_section(ConfigSectionSettings::new("look"), 0x200).unwrap();
    let settings =
        BooleanOptionSettings::new("x").set_change_callback(Canary::new(&fired, &dropped));
    section.new_boolean_option(settings, 0x300).unwrap();
    section.new_string_option(StringOptionSettings::new("x"), 0x301).unwrap();
    assert_eq!(section.len(), 1);
    assert_eq!(section.option_type("x"), Some(OptionType::String));
    // The record of the option that was replaced was given back.
    assert_eq!(dropped.get(), 1);
}

#[test]
fn enum_bounds_go_to_the_host_as_set() {
    let mut config = Config::new(&plugin(), 0x100).unwrap();
    let section = config.new_section(ConfigSectionSettings::new("look"), 0x200).unwrap();
    let settings = EnumOptionSettings::new("e").min(-3).max(12);
    match section.new_enum_option_call(&rt(), MAIN, &settings).unwrap() {
        NativeCall::ConfigNewOption { min, max, .. } => {
            assert_eq!(min, -3);
            assert_eq!(max, 12);
        }
        other => panic!("unexpected call {:?}", other),
    }
    let settings = EnumOptionSettings::new("e");
    match section.new_enum_option_call(&rt(), MAIN, &settings).unwrap() {
        NativeCall::ConfigNewOption { min, max, .. } => {
            assert_eq!(min, 0);
            assert_eq!(max, 0);
        }
        other => panic!("unexpected call {:?}", other),
    }
}

#[test]
fn a_found_section_bears_the_name_asked_for() {
    let mut config = Config::new(&plugin(), 0x100).unwrap();
    config.new_section(ConfigSectionSettings::new("look"), 0x200).unwrap();
    config.new_section(ConfigSectionSettings::new("network"), 0x201).unwrap();
    for name in ["look", "network"] {
        assert_eq!(config.search_section(name).unwrap().name(), name);
        assert_eq!(config.search_section_mut(name).unwrap().name(), name);
    }
    assert_eq!(config.search_section("look").unwrap().get_ptr(), 0x200);
    assert_eq!(config.search_section("network").unwrap().get_ptr(), 0x201);
}

#[test]
fn call_builders_refuse_another_thread() {
    let runtime = rt();
    let idle = Runtime::new();
    let mut config = Config::new(&plugin(), 0x100).unwrap();
    assert_eq!(config.read_call(&runtime, OTHER), Err(Fault::WrongThread));
    assert_eq!(config.write_call(&runtime, OTHER), Err(Fault::WrongThread));
    assert_eq!(config.read_call(&idle, MAIN), Err(Fault::NotInitialized));
    let settings = ConfigSectionSettings::new("look");
    assert_eq!(config.new_section_call(&runtime, OTHER, &settings), Err(Fault::WrongThread));
    let section = config.new_section(settings, 0x200).unwrap();
    let settings = BooleanOptionSettings::new("flag");
    assert_eq!(
        section.new_boolean_option_call(&runtime, OTHER, &settings),
        Err(Fault::WrongThread)
    );
    assert_eq!(section.search_option_call(&runtime, OTHER, "flag"), Err(Fault::WrongThread));
    let flag = section.new_boolean_option(settings, 0x300).unwrap();
    assert_eq!(flag.set_call(&runtime, OTHER, "on", true), Err(Fault::WrongThread));
    assert_eq!(flag.reset_call(&runtime, OTHER, true), Err(Fault::WrongThread));
    assert_eq!(flag.value_call(&runtime, OTHER), Err(Fault::WrongThread));
    assert_eq!(flag.name_call(&runtime, OTHER), Err(Fault::WrongThread));
    assert_eq!(flag.is_null_call(&runtime, OTHER), Err(Fault::WrongThread));
    assert_eq!(
        flag.set_call(&runtime, MAIN, "on", true),
        Ok(NativeCall::ConfigOptionSet { option: 0x300, value: b"on".to_vec(), run_callback: 1 })
    );
    let conf = Conf::from_ptrs(0x100, 0x77);
    assert_eq!(conf.write_line(&runtime, OTHER, "k", "v"), Err(Fault::WrongThread));
    assert_eq!(conf.write_section(&runtime, OTHER, "look"), Err(Fault::WrongThread));
    assert_eq!(plugin().config_get_call(&runtime, OTHER, "a.b.c"), Err(Fault::WrongThread));
    assert_eq!(
        plugin().set_plugin_option_call(&runtime, OTHER, "k", "v"),
        Err(Fault::WrongThread)
    );
}

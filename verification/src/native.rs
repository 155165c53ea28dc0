//! The host's call table, as values.
//!
//! Each variant of [`NativeCall`] stands for one entry of the table together
//! with the arguments it is to be called with. Strings are nul-free byte
//! strings, native objects are addresses, and a callback is a flag that says
//! whether the matching trampoline is to be registered.

use vstd::prelude::*;

verus! {

/// The address of a native object. Zero is the null pointer.
pub type Address = usize;

/// The identity of a thread, as the embedding layer numbers them.
#[derive(Debug, PartialEq, Eq, Clone, Copy, Structural)]
pub struct ThreadId(pub u64);

/// A misuse of the runtime. The embedding layer stops the plugin on one.
#[derive(Debug, PartialEq, Eq, Clone, Copy, Structural)]
pub enum Fault {
    /// The runtime was used before it was set up or after it was torn down.
    NotInitialized,
    /// The host was called from a thread other than the owning thread.
    WrongThread,
    /// The task executor is not running any more.
    ExecutorStopped,
    /// The host called back through a record that is not registered.
    StaleContext,
    /// The host called back for a callback that was never registered.
    MissingCallback,
}

impl Fault {
    /// The text of the fault.
    pub open spec fn text(self) -> Seq<char> {
        match self {
            Fault::NotInitialized => "Plugin wasn't initialized correctly"@,
            Fault::WrongThread =>
                "Weechat methods can be only called from the main Weechat thread."@,
            Fault::ExecutorStopped => "Executor isn't running anymore"@,
            Fault::StaleContext => "Callback ran for an object that has been destroyed"@,
            Fault::MissingCallback => "C callback was set while no rust callback"@,
        }
    }

    /// Returns the text of the fault.
    pub fn message(&self) -> (message: &'static str)
        ensures
            message@ == self.text(),
    {
        match self {
            Fault::NotInitialized => "Plugin wasn't initialized correctly",
            Fault::WrongThread =>
                "Weechat methods can be only called from the main Weechat thread.",
            Fault::ExecutorStopped => "Executor isn't running anymore",
            Fault::StaleContext => "Callback ran for an object that has been destroyed",
            Fault::MissingCallback => "C callback was set while no rust callback",
        }
    }
}

/// A call of one entry of the host's table.
#[derive(Debug, PartialEq, Eq)]
#[allow(inconsistent_fields)]
pub enum NativeCall {
    /// `log_printf("%s", message)`
    LogPrintf { message: Vec<u8> },
    /// `printf_datetime_tags(NULL, 0, 0, NULL, "%s", message)`
    Print { message: Vec<u8> },
    /// `color(name)`
    Color { name: Vec<u8> },
    /// `prefix(name)`
    Prefix { name: Vec<u8> },
    /// `info_get(plugin, name, arguments)`
    InfoGet { plugin: Address, name: Vec<u8>, arguments: Vec<u8> },
    /// `string_remove_color(string, NULL)`
    StringRemoveColor { string: Vec<u8> },
    /// `string_eval_expression(expression, NULL, NULL, NULL)`
    StringEvalExpression { expression: Vec<u8> },
    /// `string_eval_path_home(path, NULL, NULL, NULL)`
    StringEvalPathHome { path: Vec<u8> },
    /// `string_expand_home(path)`
    StringExpandHome { path: Vec<u8> },
    /// `hook_modifier_exec(plugin, modifier, modifier_data, string)`
    HookModifierExec { plugin: Address, modifier: Vec<u8>, modifier_data: Vec<u8>,
        string: Vec<u8> },
    /// `bar_item_update(name)`
    BarItemUpdate { name: Vec<u8> },
    /// `config_new(plugin, name, reload callback, ..)`
    ConfigNew { plugin: Address, name: Vec<u8>, reload: bool },
    /// `config_new_section(config, name, 0, 0, read, write, write default, NULL, NULL)`
    ConfigNewSection { config: Address, name: Vec<u8>, read: bool, write: bool,
        write_default: bool },
    /// `config_new_option(config, section, name, type, description, string values, min, max,
    /// default value, value, null allowed, check, change, delete)`
    ConfigNewOption {
        config: Address,
        section: Address,
        name: Vec<u8>,
        option_type: Vec<u8>,
        description: Vec<u8>,
        string_values: Vec<u8>,
        min: i32,
        max: i32,
        default_value: Vec<u8>,
        value: Vec<u8>,
        null_allowed: bool,
        check: bool,
        change: bool,
        delete: bool,
    },
    /// `config_search_option(config, section, name)`
    ConfigSearchOption { config: Address, section: Address, name: Vec<u8> },
    /// `config_option_get_string(option, property)`
    ConfigOptionGetString { option: Address, property: Vec<u8> },
    /// `config_option_set(option, value, run_callback)`
    ConfigOptionSet { option: Address, value: Vec<u8>, run_callback: i32 },
    /// `config_option_reset(option, run_callback)`
    ConfigOptionReset { option: Address, run_callback: i32 },
    /// `config_option_is_null(option)`
    ConfigOptionIsNull { option: Address },
    /// `config_boolean(option)`
    ConfigBoolean { option: Address },
    /// `config_integer(option)`
    ConfigInteger { option: Address },
    /// `config_string(option)`
    ConfigString { option: Address },
    /// `config_enum(option)`
    ConfigEnum { option: Address },
    /// `config_read(config)`
    ConfigRead { config: Address },
    /// `config_write(config)`
    ConfigWrite { config: Address },
    /// `config_write_line(config, key, value)`, with `None` for a null value
    ConfigWriteLine { config: Address, key: Vec<u8>, value: Option<Vec<u8>> },
    /// `config_write_option(config, option)`
    ConfigWriteOption { config: Address, option: Address },
    /// `config_option_free(option)`
    ConfigOptionFree { option: Address },
    /// `config_section_free_options(section)`
    ConfigSectionFreeOptions { section: Address },
    /// `config_section_free(section)`
    ConfigSectionFree { section: Address },
    /// `config_free(config)`
    ConfigFree { config: Address },
    /// `config_get(name)`
    ConfigGet { name: Vec<u8> },
    /// `config_get_plugin(plugin, name)`
    ConfigGetPlugin { plugin: Address, name: Vec<u8> },
    /// `config_set_plugin(plugin, name, value)`
    ConfigSetPlugin { plugin: Address, name: Vec<u8>, value: Vec<u8> },
    /// `nicklist_group_get_string(buffer, group, property)`
    NicklistGroupGetString { buffer: Address, group: Address, property: Vec<u8> },
    /// `nicklist_group_get_integer(buffer, group, property)`
    NicklistGroupGetInteger { buffer: Address, group: Address, property: Vec<u8> },
    /// `buffer_new(plugin, name, input callback, close callback)`
    BufferNew { plugin: Address, name: Vec<u8>, input: bool, close: bool },
    /// `buffer_set(buffer, property, value)`
    BufferSet { buffer: Address, property: Vec<u8>, value: Vec<u8> },
    /// `hook_command(plugin, name, description, args, args description, completion, callback)`
    HookCommand {
        plugin: Address,
        name: Vec<u8>,
        description: Vec<u8>,
        args: Vec<u8>,
        args_description: Vec<u8>,
        completion: Vec<u8>,
    },
    /// `unhook(hook)`
    Unhook { hook: Address },
}

} // verus!

//! A configuration file: the root of the tree of sections and options.

use vstd::prelude::*;

use crate::callback::{CallbackContext, ContextState};
use crate::config::config_options::{HiddenConfigOptionT, OptionType};
use crate::config::section::{
    ConfigOption, ConfigSection, ConfigSectionPointers, ConfigSectionSettings, SectionHandle,
    SectionHandleMut,
};
use crate::native::{Address, Fault, NativeCall, ThreadId};
use crate::text::{decode_lossy, decoded, native_string, same_text, LossyCString};
use crate::weechat::{Runtime, Weechat};

verus! {

/// The borrowed equivalent of the `Config`. Will be present in callbacks.
pub struct Conf {
    ptr: Address,
    weechat_ptr: Address,
}

impl Conf {
    #[verifier::type_invariant]
    spec fn never_null(self) -> bool {
        self.ptr != 0 && self.weechat_ptr != 0
    }

    /// The address of the native configuration file.
    pub closed spec fn address(&self) -> Address {
        self.ptr
    }

    /// The address of the native plugin record.
    pub closed spec fn plugin_address(&self) -> Address {
        self.weechat_ptr
    }

    /// Wraps the native configuration file at `ptr` of the plugin at
    /// `weechat_ptr`.
    pub fn from_ptrs(ptr: Address, weechat_ptr: Address) -> (conf: Conf)
        requires
            ptr != 0,
            weechat_ptr != 0,
        ensures
            conf.address() == ptr,
            conf.plugin_address() == weechat_ptr,
    {
        Conf { ptr, weechat_ptr }
    }

    /// Returns the address of the native configuration file, which is never
    /// null.
    pub fn get_ptr(&self) -> (ptr: Address)
        ensures
            ptr == self.address(),
            ptr != 0,
    {
        proof {
            use_type_invariant(self);
        }
        self.ptr
    }

    /// Write the section header to the configuration file: the call that
    /// does it.
    pub fn write_section(
        &self,
        runtime: &Runtime,
        current: ThreadId,
        section_name: &str,
    ) -> (call: Result<NativeCall, Fault>)
        ensures
            call is Ok <==> runtime.admits(current),
            call matches Ok(built) ==> (
                built matches NativeCall::ConfigWriteLine { config, key, value }
                    && config == self.address()
                    && key@ == native_string(section_name@)
                    && value is None
            ),
            call matches Err(fault) ==> Some(fault) == runtime.refusal(current),
    {
        self.write(runtime, current, section_name, None)
    }

    /// Write a line to the configuration file: the call that does it.
    pub fn write_line(
        &self,
        runtime: &Runtime,
        current: ThreadId,
        key: &str,
        value: &str,
    ) -> (call: Result<NativeCall, Fault>)
        ensures
            call is Ok <==> runtime.admits(current),
            call matches Ok(built) ==> (
                built matches NativeCall::ConfigWriteLine { config, key: k, value: v }
                    && config == self.address()
                    && k@ == native_string(key@)
                    && v is Some
                    && v->0@ == native_string(value@)
            ),
            call matches Err(fault) ==> Some(fault) == runtime.refusal(current),
    {
        self.write(runtime, current, key, Some(value))
    }

    /// The call that writes `key`, with `value` if there is one.
    fn write(
        &self,
        runtime: &Runtime,
        current: ThreadId,
        key: &str,
        value: Option<&str>,
    ) -> (call: Result<NativeCall, Fault>)
        ensures
            call is Ok <==> runtime.admits(current),
            call matches Ok(built) ==> (
                built matches NativeCall::ConfigWriteLine { config, key: k, value: v }
                    && config == self.address()
                    && k@ == native_string(key@)
                    && (v is Some <==> value is Some)
                    && (v is Some ==> v->0@ == native_string(value->0@))
            ),
            call matches Err(fault) ==> Some(fault) == runtime.refusal(current),
    {
        let call = {
            let option_name = LossyCString::new(key);
            let c_value = match value {
                Some(value) => Some(LossyCString::new(value)),
                None => None,
            };
            NativeCall::ConfigWriteLine { config: self.ptr, key: option_name, value: c_value }
        };
        runtime.clear_call(current, call)
    }

    /// Write a line in a configuration file with option and its value: the
    /// call that does it.
    pub fn write_option<O: HiddenConfigOptionT>(
        &self,
        runtime: &Runtime,
        current: ThreadId,
        option: &O,
    ) -> (call: Result<NativeCall, Fault>)
        ensures
            call is Ok <==> runtime.admits(current),
            call matches Ok(built) ==> (
                built matches NativeCall::ConfigWriteOption { config, option: o }
                    && config == self.address()
                    && o == option.option_address()
            ),
            call matches Err(fault) ==> Some(fault) == runtime.refusal(current),
    {
        runtime.clear_call(
            current,
            NativeCall::ConfigWriteOption { config: self.ptr, option: option.get_ptr() },
        )
    }
}

/// The outcome of an attempt to set or reset an option.
#[derive(Debug, PartialEq, Eq, Clone, Copy, Structural)]
pub enum OptionChanged {
    /// The option was successfully changed.
    Changed,
    /// The options value has not changed.
    Unchanged,
    /// The option was not found.
    NotFound,
    /// An error occurred changing the value.
    Error,
}

impl OptionChanged {
    /// The host's status code for this outcome.
    pub open spec fn code(self) -> int {
        match self {
            OptionChanged::Changed => 2,
            OptionChanged::Unchanged => 1,
            OptionChanged::Error => 0,
            OptionChanged::NotFound => -1,
        }
    }

    /// Whether `v` is one of the host's status codes for setting an option.
    pub open spec fn is_code(v: int) -> bool {
        -1 <= v <= 2
    }

    /// Reads the host's status code.
    pub fn from_int(v: i32) -> (outcome: OptionChanged)
        requires
            Self::is_code(v as int),
        ensures
            outcome.code() == v,
    {
        if v == 2 {
            OptionChanged::Changed
        } else if v == 1 {
            OptionChanged::Unchanged
        } else if v == 0 {
            OptionChanged::Error
        } else {
            OptionChanged::NotFound
        }
    }

    /// Returns the host's status code for this outcome.
    pub fn as_int(&self) -> (v: i32)
        ensures
            v == self.code(),
            Self::is_code(v as int),
    {
        match self {
            OptionChanged::Changed => 2,
            OptionChanged::Unchanged => 1,
            OptionChanged::Error => 0,
            OptionChanged::NotFound => -1,
        }
    }
}

/// The four outcomes have four different status codes, so that reading a
/// written code gives the outcome back.
pub proof fn lemma_option_changed_codes(a: OptionChanged, b: OptionChanged)
    ensures
        OptionChanged::is_code(a.code()),
        a.code() == b.code() <==> a == b,
{
}

/// Why a configuration file could not be read or written.
#[derive(Debug, PartialEq, Eq, Clone, Copy, Structural)]
pub enum ConfigError {
    /// File was not found
    NotFound,
    /// Not enough memory
    OutOfMemory,
    /// File could not be written
    WriteFailed,
}

impl ConfigError {
    /// The text of the error.
    pub open spec fn text(self) -> Seq<char> {
        match self {
            ConfigError::NotFound => "File was not found"@,
            ConfigError::OutOfMemory => "Not enough memory"@,
            ConfigError::WriteFailed => "File could not be written"@,
        }
    }

    /// Returns the text of the error.
    pub fn message(&self) -> (message: &'static str)
        ensures
            message@ == self.text(),
    {
        match self {
            ConfigError::NotFound => "File was not found",
            ConfigError::OutOfMemory => "Not enough memory",
            ConfigError::WriteFailed => "File could not be written",
        }
    }
}

/// Trait for the config reload callback.
pub trait ConfigReloadCallback {
    /// Function called when configuration file is reloaded with /reload
    fn callback(&mut self, weechat: &Weechat, config: &Conf);
}

/// The callback record of a configuration file.
pub struct ConfigPointers {
    pub(crate) reload_cb: Option<Box<dyn ConfigReloadCallback>>,
    pub(crate) weechat_ptr: Address,
}

impl ConfigPointers {
    /// The address of the native plugin record.
    pub closed spec fn plugin_address(&self) -> Address {
        self.weechat_ptr
    }

    /// Whether the record holds a reload callback.
    pub closed spec fn has_reload(&self) -> bool {
        self.reload_cb is Some
    }

    /// The host reloaded the file at `config_pointer`. Returns whether a
    /// reload callback ran.
    pub fn reload(&mut self, config_pointer: Address) -> (ran: bool)
        requires
            config_pointer != 0,
            old(self).plugin_address() != 0,
        ensures
            ran == old(self).has_reload(),
            final(self).has_reload() == old(self).has_reload(),
            final(self).plugin_address() == old(self).plugin_address(),
    {
        let conf = Conf::from_ptrs(config_pointer, self.weechat_ptr);
        let weechat = Weechat::from_ptr(self.weechat_ptr);
        match &mut self.reload_cb {
            Some(callback) => {
                callback.callback(&weechat, &conf);
                true
            },
            None => false,
        }
    }
}

/// A section of a configuration file together with its callback record,
/// kept under the name that the section was created with.
pub(crate) struct SectionCell {
    pub(crate) name: String,
    pub(crate) section: ConfigSection,
    pub(crate) section_data: CallbackContext<ConfigSectionPointers>,
}

/// No two of `cells` are kept under the same name.
spec fn distinct_cells(cells: Seq<SectionCell>) -> bool {
    forall|i: int, j: int|
        0 <= i < j < cells.len() ==> (#[trigger] cells[i]).name@ != (#[trigger] cells[j]).name@
}

/// Each of `cells` has a callback record that the host may call back
/// through, for the plugin at `plugin`.
spec fn live_cells(cells: Seq<SectionCell>, plugin: Address) -> bool {
    forall|i: int|
        0 <= i < cells.len() ==> (#[trigger] cells[i]).section_data.state()
            == ContextState::Registered && cells[i].section_data.record() is Some
            && cells[i].section_data.record()->0.plugin_address() == plugin
}

/// The names that `cells` are kept under, in their order.
spec fn cell_names(cells: Seq<SectionCell>) -> Seq<Seq<char>> {
    Seq::new(cells.len(), |i: int| cells[i].name@)
}

/// Cells that are kept under different names have names without duplicates.
proof fn lemma_distinct_cells(cells: Seq<SectionCell>)
    requires
        distinct_cells(cells),
    ensures
        cell_names(cells).no_duplicates(),
{
    let names = cell_names(cells);
    assert forall|i: int, j: int| 0 <= i < names.len() && 0 <= j < names.len()
        && i != j implies names[i]
        != names[j] by {
        if i < j {
            assert(cells[i].name@ != cells[j].name@);
        } else {
            assert(cells[j].name@ != cells[i].name@);
        }
    }
}

/// The addresses of the native sections of `cells`, in their order.
spec fn cell_addresses(cells: Seq<SectionCell>) -> Seq<Address> {
    Seq::new(cells.len(), |i: int| cells[i].section.address())
}

/// The calls that free a configuration file on the host's side: for each
/// section in turn its options and then the section, and the file last.
pub open spec fn release_plan(sections: Seq<Address>, config: Address) -> Seq<NativeCall>
    decreases sections.len(),
{
    if sections.len() == 0 {
        seq![NativeCall::ConfigFree { config }]
    } else {
        seq![
            NativeCall::ConfigSectionFreeOptions { section: sections[0] },
            NativeCall::ConfigSectionFree { section: sections[0] },
        ] + release_plan(sections.drop_first(), config)
    }
}

/// The plan frees every section exactly once, and the file exactly once,
/// after all of them.
pub proof fn lemma_release_plan(sections: Seq<Address>, config: Address)
    ensures
        release_plan(sections, config).len() == 2 * sections.len() + 1,
        release_plan(sections, config).last() == (NativeCall::ConfigFree { config }),
        forall|i: int|
            0 <= i < sections.len() ==> #[trigger] release_plan(sections, config)[2 * i] == (
            NativeCall::ConfigSectionFreeOptions { section: sections[i] }) && release_plan(
                sections,
                config,
            )[2 * i + 1] == (NativeCall::ConfigSectionFree { section: sections[i] }),
    decreases sections.len(),
{
    if sections.len() > 0 {
        let rest = sections.drop_first();
        lemma_release_plan(rest, config);
        let plan = release_plan(sections, config);
        assert forall|i: int| 0 <= i < sections.len() implies #[trigger] plan[2 * i] == (
        NativeCall::ConfigSectionFreeOptions { section: sections[i] }) && plan[2 * i + 1] == (
        NativeCall::ConfigSectionFree { section: sections[i] }) by {
            if i > 0 {
                assert(plan[2 * i] == release_plan(rest, config)[2 * (i - 1)]);
                assert(plan[2 * i + 1] == release_plan(rest, config)[2 * (i - 1) + 1]);
                assert(rest[i - 1] == sections[i]);
            }
        }
    }
}

/// Lends the section of the cell in the place `i`. Nothing else of the
/// cells can change while it is lent.
fn lend_section(cells: &mut Vec<SectionCell>, i: usize) -> (section: &mut ConfigSection)
    requires
        i < old(cells)@.len(),
    ensures
        *section == old(cells)@[i as int].section,
        final(cells)@.len() == old(cells)@.len(),
        final(cells)@[i as int].section == *final(section),
        forall|j: int| 0 <= j < old(cells)@.len() ==> (
            (#[trigger] final(cells)@[j]).name == old(cells)@[j].name
            && final(cells)@[j].section_data == old(cells)@[j].section_data
        ),
        forall|j: int|
            0 <= j < old(cells)@.len()
                && j != i ==> (#[trigger] final(cells)@[j]).section == old(cells)@[j].section,
    no_unwind
{
    &mut cells[i].section
}

/// Weechat configuration file
pub struct Config {
    inner: Conf,
    config_data: CallbackContext<ConfigPointers>,
    sections: Vec<SectionCell>,
}

impl Config {
    #[verifier::type_invariant]
    spec fn well_formed(self) -> bool {
        &&& self.inner.ptr != 0
        &&& self.inner.weechat_ptr != 0
        &&& distinct_cells(self.sections@)
        &&& live_cells(self.sections@, self.inner.weechat_ptr)
        &&& self.config_data.state() != ContextState::Allocated
        &&& self.config_data.state() == ContextState::Reclaimed ==> self.sections@.len() == 0
        &&& self.config_data.state() == ContextState::Registered
            ==> self.config_data.record() is Some
            && self.config_data.record()->0.plugin_address() == self.inner.weechat_ptr
    }

    /// The address of the native configuration file.
    pub closed spec fn address(&self) -> Address {
        self.inner.ptr
    }

    /// The address of the native plugin record.
    pub closed spec fn plugin_address(&self) -> Address {
        self.inner.weechat_ptr
    }

    /// Whether the configuration file has been freed.
    pub closed spec fn is_freed(&self) -> bool {
        self.config_data.state() == ContextState::Reclaimed
    }

    /// Whether the file has a reload callback.
    pub closed spec fn has_reload(&self) -> bool {
        self.config_data.record() is Some && self.config_data.record()->0.has_reload()
    }

    /// The names of the sections, in the order in which they were created.
    pub closed spec fn section_names(&self) -> Seq<Seq<char>> {
        cell_names(self.sections@)
    }

    /// The section in the place `i` of the order of creation.
    pub closed spec fn section_at(&self, i: int) -> ConfigSection {
        self.sections@[i].section
    }

    /// The callback record of the section in the place `i`.
    pub closed spec fn section_data_at(&self, i: int) -> ConfigSectionPointers {
        self.sections@[i].section_data.record()->0
    }

    /// The addresses of the native sections, in the order of creation.
    pub open spec fn section_addresses(&self) -> Seq<Address> {
        Seq::new(self.section_names().len(), |i: int| self.section_at(i).address())
    }

    /// Whether a section is kept under that name.
    pub open spec fn keeps_section(&self, name: Seq<char>) -> bool {
        self.section_names().contains(name)
    }

    /// Whether the file has a section of that name: one is kept under the
    /// name, and it bears the name.
    pub open spec fn has_section(&self, name: Seq<char>) -> bool {
        self.keeps_section(name) && self.section_at(self.index_of(name)).name_text() == name
    }

    /// The place of the section of that name.
    pub open spec fn index_of(&self, name: Seq<char>) -> int {
        self.section_names().index_of(name)
    }

    /// Same native file, same sections in the same places; what the
    /// sections hold may differ.
    pub open spec fn same_file(&self, before: &Config) -> bool {
        &&& self.address() == before.address()
        &&& self.plugin_address() == before.plugin_address()
        &&& self.is_freed() == before.is_freed()
        &&& self.has_reload() == before.has_reload()
        &&& self.section_names() =~= before.section_names()
    }

    /// Every section but the one in the place `i` is as it was.
    pub open spec fn others_unchanged(&self, before: &Config, i: int) -> bool {
        forall|j: int|
            0 <= j < before.section_names().len() && j != i ==> self.section_at(j)
                == before.section_at(j)
    }

    /// The call that creates the configuration file `name`, with a reload
    /// callback if `reload` says so. Only the owning thread may make it.
    pub fn new_call(
        runtime: &Runtime,
        current: ThreadId,
        name: &str,
        reload: bool,
    ) -> (call: Result<NativeCall, Fault>)
        ensures
            call is Ok <==> runtime.admits(current),
            call matches Ok(c) ==> (c matches NativeCall::ConfigNew { plugin, name: n, reload: r }
                && plugin == runtime.plugin() && n@ == native_string(name@) && r == reload),
            call matches Err(fault) ==> Some(fault) == runtime.refusal(current),
    {
        match Weechat::check_thread(runtime, current) {
            Err(fault) => Err(fault),
            Ok(()) => match Weechat::weechat(runtime) {
                Err(fault) => Err(fault),
                Ok(weechat) => Ok(
                    NativeCall::ConfigNew {
                        plugin: weechat.ptr(),
                        name: LossyCString::new(name),
                        reload,
                    },
                ),
            },
        }
    }

    /// Create a new Weechat configuration file, from the host's answer to
    /// [`Self::new_call`]. The configuration file is freed with
    /// [`Self::free`].
    ///
    /// Fails if the host answered with a null address, e.g. because a file
    /// of that name exists.
    pub fn new(weechat: &Weechat, config_ptr: Address) -> (created: Result<Config, ()>)
        ensures
            created is Ok <==> config_ptr != 0,
            created matches Ok(config) ==> (
                config.address() == config_ptr
                && config.plugin_address() == weechat.address()
                && !config.has_reload()
                && !config.is_freed()
                && config.section_names() == Seq::<Seq<char>>::empty()
            ),
    {
        Config::config_new_helper(weechat, config_ptr, None)
    }

    /// Create a new Weechat configuration file with a callback that runs
    /// when the file is reloaded, from the host's answer to
    /// [`Self::new_call`].
    pub fn new_with_callback<C: ConfigReloadCallback + 'static>(
        weechat: &Weechat,
        config_ptr: Address,
        reload_callback: C,
    ) -> (created: Result<Config, ()>)
        ensures
            created is Ok <==> config_ptr != 0,
            created matches Ok(config) ==> (
                config.address() == config_ptr
                && config.plugin_address() == weechat.address()
                && config.has_reload()
                && !config.is_freed()
                && config.section_names() == Seq::<Seq<char>>::empty()
            ),
    {
        let callback: Box<dyn ConfigReloadCallback> = Box::new(reload_callback);
        Config::config_new_helper(weechat, config_ptr, Some(callback))
    }

    /// Makes the callback record and, if the host created the file, the
    /// configuration. If the host refused, the record is reclaimed at once.
    fn config_new_helper(
        weechat: &Weechat,
        config_ptr: Address,
        callback: Option<Box<dyn ConfigReloadCallback>>,
    ) -> (created: Result<Config, ()>)
        ensures
            created is Ok <==> config_ptr != 0,
            created matches Ok(config) ==> (
                config.address() == config_ptr
                && config.plugin_address() == weechat.address()
                && config.has_reload() == callback is Some
                && !config.is_freed()
                && config.section_names() == Seq::<Seq<char>>::empty()
            ),
    {
        let weechat_ptr = weechat.ptr();
        let config_pointers = ConfigPointers { reload_cb: callback, weechat_ptr };
        let mut config_data = CallbackContext::allocate(config_pointers);
        if config_ptr == 0 {
            config_data.reclaim();
            return Err(());
        }
        config_data.register();
        let config = Config {
            inner: Conf { ptr: config_ptr, weechat_ptr },
            config_data,
            sections: Vec::new(),
        };
        proof {
            assert(config.section_names() =~= Seq::<Seq<char>>::empty());
        }
        Ok(config)
    }

    /// Wraps the native option at `option_ptr` in the handle of the type
    /// that the host names. A name that is none of the five is a defect of
    /// the host and is not read.
    pub fn option_from_type_and_ptr<'a>(
        weechat_ptr: Address,
        option_ptr: Address,
        option_type: &str,
    ) -> (option: ConfigOption<'a>)
        requires
            weechat_ptr != 0,
            option_ptr != 0,
            OptionType::is_native_name(option_type@),
        ensures
            Some(option.type_tag()) == OptionType::from_native_name(option_type@),
            option.type_tag().native_name() == option_type@,
            option.option_address() == option_ptr,
            option.plugin_address() == weechat_ptr,
    {
        let option_type = match OptionType::try_from(option_type) {
            Ok(option_type) => option_type,
            Err(_) => OptionType::String,
        };
        ConfigOption::from_ptrs(option_type, option_ptr, weechat_ptr)
    }

    /// Reads the host's status for reading a file.
    pub fn return_value_to_error(return_value: i32) -> (result: Result<(), ConfigError>)
        requires
            -2 <= return_value <= 0,
        ensures
            result is Ok <==> return_value == 0,
            result matches Err(error) ==> error == (if return_value == -2 {
                ConfigError::NotFound
            } else {
                ConfigError::OutOfMemory
            }),
    {
        if return_value == 0 {
            Ok(())
        } else if return_value == -2 {
            Err(ConfigError::NotFound)
        } else {
            Err(ConfigError::OutOfMemory)
        }
    }

    /// The call that reads the configuration file from the disk.
    pub fn read_call(
        &self,
        runtime: &Runtime,
        current: ThreadId,
    ) -> (call: Result<NativeCall, Fault>)
        ensures
            call is Ok <==> runtime.admits(current),
            call matches Ok(built) ==> (
                built == (NativeCall::ConfigRead { config: self.address() })
            ),
            call matches Err(fault) ==> Some(fault) == runtime.refusal(current),
    {
        runtime.clear_call(current, NativeCall::ConfigRead { config: self.inner.ptr })
    }

    /// Read the configuration file from the disk: the host's answer.
    pub fn read(&self, answer: i32) -> (result: Result<(), ConfigError>)
        requires
            -2 <= answer <= 0,
        ensures
            result is Ok <==> answer == 0,
            result matches Err(error) ==> error == (if answer == -2 {
                ConfigError::NotFound
            } else {
                ConfigError::OutOfMemory
            }),
    {
        Config::return_value_to_error(answer)
    }

    /// The call that writes the configuration file to the disk.
    pub fn write_call(
        &self,
        runtime: &Runtime,
        current: ThreadId,
    ) -> (call: Result<NativeCall, Fault>)
        ensures
            call is Ok <==> runtime.admits(current),
            call matches Ok(built) ==> (
                built == (NativeCall::ConfigWrite { config: self.address() })
            ),
            call matches Err(fault) ==> Some(fault) == runtime.refusal(current),
    {
        runtime.clear_call(current, NativeCall::ConfigWrite { config: self.inner.ptr })
    }

    /// Write the configuration file to the disk: the host's answer. The
    /// host has statuses of their own for writing: -1 when the file could
    /// not be written, -2 when memory ran out.
    pub fn write(&self, answer: i32) -> (result: Result<(), ConfigError>)
        requires
            -2 <= answer <= 0,
        ensures
            result is Ok <==> answer == 0,
            result matches Err(error) ==> error == (if answer == -2 {
                ConfigError::OutOfMemory
            } else {
                ConfigError::WriteFailed
            }),
    {
        if answer == 0 {
            Ok(())
        } else if answer == -2 {
            Err(ConfigError::OutOfMemory)
        } else {
            Err(ConfigError::WriteFailed)
        }
    }

    /// Returns the address of the native configuration file, which is never
    /// null.
    pub fn get_ptr(&self) -> (ptr: Address)
        ensures
            ptr == self.address(),
            ptr != 0,
    {
        proof {
            use_type_invariant(self);
        }
        self.inner.ptr
    }

    /// Tells whether the configuration file has been freed.
    pub fn freed(&self) -> (freed: bool)
        ensures
            freed == self.is_freed(),
    {
        self.config_data.is_reclaimed()
    }

    /// Where the section of that name is kept, if there is one.
    fn position(&self, section_name: &str) -> (found: Option<usize>)
        ensures
            found is Some <==> self.keeps_section(section_name@),
            found matches Some(i) ==> (
                i < self.section_names().len()
                && i == self.index_of(section_name@)
                && self.section_names()[i as int] == section_name@
            ),
    {
        proof {
            use_type_invariant(self);
        }
        let mut i: usize = 0;
        while i < self.sections.len()
            invariant
                0 <= i <= self.sections@.len(),
                distinct_cells(self.sections@),
                forall|j: int| 0 <= j < i ==> (#[trigger] self.sections@[j]).name@ != section_name@,
            decreases self.sections@.len() - i,
        {
            if same_text(self.sections[i].name.as_str(), section_name) {
                proof {
                    let names = self.section_names();
                    assert(names[i as int] == section_name@);
                    assert(names.contains(section_name@));
                    let k = names.index_of(section_name@);
                    assert(0 <= k < names.len() && names[k] == section_name@);
                    if k != i {
                        if k < i {
                            assert(self.sections@[k].name@ != self.sections@[i as int].name@);
                        } else {
                            assert(self.sections@[i as int].name@ != self.sections@[k].name@);
                        }
                    }
                }
                return Some(i);
            }
            i += 1;
        }
        proof {
            let names = self.section_names();
            if names.contains(section_name@) {
                let k = choose|k: int| 0 <= k < names.len() && names[k] == section_name@;
                assert(self.sections@[k].name@ != section_name@);
            }
        }
        None
    }

    /// Returns how many sections the file has.
    pub fn len(&self) -> (count: usize)
        ensures
            count == self.section_names().len(),
    {
        self.sections.len()
    }

    /// The call that creates a section as `section_settings` describe it.
    pub fn new_section_call(
        &self,
        runtime: &Runtime,
        current: ThreadId,
        section_settings: &ConfigSectionSettings,
    ) -> (call: Result<NativeCall, Fault>)
        ensures
            call is Ok <==> runtime.admits(current),
            call matches Ok(built) ==> (
                built matches NativeCall::ConfigNewSection { config, name, read, write,
                    write_default }
                    && config == self.address()
                    && name@ == native_string(section_settings.name_text())
                    && read == section_settings.has_read()
                    && write == section_settings.has_write()
                    && write_default == section_settings.has_write_default()
            ),
            call matches Err(fault) ==> Some(fault) == runtime.refusal(current),
    {
        let call = {
            proof {
                section_settings.lemma_fields();
            }
            NativeCall::ConfigNewSection {
                config: self.inner.ptr,
                name: LossyCString::new(section_settings.name.as_str()),
                read: section_settings.read_callback.is_some(),
                write: section_settings.write_callback.is_some(),
                write_default: section_settings.write_default_callback.is_some(),
            }
        };
        runtime.clear_call(current, call)
    }

    /// Create a new section in the configuration file, from the host's
    /// answer to [`Self::new_section_call`].
    ///
    /// Fails if the host answered with a null address, if the file already
    /// has a section of that name, and if the file has been freed. The
    /// callbacks of the settings are then dropped at once and the file stays
    /// as it was.
    pub fn new_section(
        &mut self,
        section_settings: ConfigSectionSettings,
        section_ptr: Address,
    ) -> (created: Result<SectionHandleMut, ()>)
        ensures
            created is Ok <==> section_ptr != 0
                && !old(self).is_freed()
                && !old(self).keeps_section(section_settings.name_text()),
            created matches Ok(section) ==> (
                section.address() == section_ptr
                && section.config_address() == old(self).address()
                && section.plugin_address() == old(self).plugin_address()
                && section.name_text() == section_settings.name_text()
                && section.option_types() == Map::<Seq<char>, OptionType>::empty()
            ),
            created is Ok ==> ({
                let names = old(self).section_names().push(section_settings.name_text());
                &&& final(self).section_names() == names
                &&& names.contains(section_settings.name_text())
                &&& names.index_of(section_settings.name_text()) == old(self).section_names().len()
            }),
            created matches Ok(section) ==> (
                final(self).section_at(old(self).section_names().len() as int) == *final(section)
                && final(self).section_data_at(old(self).section_names().len() as int).has_read()
                    == section_settings.has_read()
                && final(self).section_data_at(old(self).section_names().len() as int).has_write()
                    == section_settings.has_write()
                && final(self).section_data_at(
                    old(self).section_names().len() as int,
                ).has_write_default() == section_settings.has_write_default()
            ),
            created is Err ==> final(self).section_names() == old(self).section_names(),
            final(self).section_names().no_duplicates(),
            forall|j: int| 0 <= j < old(self).section_names().len() ==> (
                final(self).section_at(j) == old(self).section_at(j)
                && final(self).section_data_at(j) == old(self).section_data_at(j)
            ),
            final(self).address() == old(self).address(),
            final(self).plugin_address() == old(self).plugin_address(),
            final(self).is_freed() == old(self).is_freed(),
            final(self).has_reload() == old(self).has_reload(),
    {
        proof {
            use_type_invariant(&*self);
            section_settings.lemma_fields();
        }
        let taken = self.position(section_settings.name.as_str()).is_some();
        let section_pointers = ConfigSectionPointers::new(
            self.inner.weechat_ptr,
            section_settings.read_callback,
            section_settings.write_callback,
            section_settings.write_default_callback,
        );
        let mut section_data = CallbackContext::allocate(section_pointers);
        proof {
            lemma_distinct_cells(self.sections@);
        }
        if section_ptr == 0 || taken || self.config_data.is_reclaimed() {
            section_data.reclaim();
            return Err(());
        }
        section_data.register();
        let section = ConfigSection::from_ptrs(
            section_ptr,
            self.inner.ptr,
            self.inner.weechat_ptr,
            section_settings.name.clone(),
        );
        let cell = SectionCell { name: section_settings.name, section, section_data };
        let mut cells: Vec<SectionCell> = Vec::new();
        std::mem::swap(&mut cells, &mut self.sections);
        let ghost before = cells@;
        cells.push(cell);
        proof {
            assert(cell_names(cells@) =~= cell_names(before).push(cell.name@));
            assert(distinct_cells(cells@)) by {
                assert forall|a: int, b: int| 0 <= a < b < cells@.len() implies (
                #[trigger] cells@[a]).name@ != (#[trigger] cells@[b]).name@ by {
                    if b < before.len() {
                        assert(before[a].name@ != before[b].name@);
                    } else {
                        if before[a].name@ == cell.name@ {
                            assert(cell_names(before)[a] == cell.name@);
                            assert(cell_names(before).contains(cell.name@));
                        }
                    }
                }
            }
        }
        proof {
            lemma_distinct_cells(cells@);
            let names = cell_names(before).push(cell.name@);
            let at = before.len() as int;
            assert(names =~= cell_names(cells@));
            assert(names[at] == cell.name@);
            assert(cell_names(cells@)[at] == cell.name@);
            assert(names.contains(cell.name@));
            let k = names.index_of(cell.name@);
            assert(0 <= k < names.len() && names[k] == cell.name@);
            assert(k == at);
        }
        self.sections = cells;
        let last = self.sections.len() - 1;
        Ok(lend_section(&mut self.sections, last))
    }

    /// Search the configuration object for a section and borrow it.
    ///
    /// Returns a handle to a section if one is found, None otherwise. The
    /// section that is found bears the name that was asked for.
    pub fn search_section(&self, section_name: &str) -> (found: Option<SectionHandle>)
        ensures
            found is Some <==> self.has_section(section_name@),
            found matches Some(section) ==> (
                *section == self.section_at(self.index_of(section_name@))
                && section.name_text() == section_name@
            ),
    {
        match self.position(section_name) {
            Some(i) => {
                let section = &self.sections[i].section;
                if same_text(section.name(), section_name) {
                    Some(section)
                } else {
                    None
                }
            },
            None => None,
        }
    }

    /// Search the configuration object for a section and borrow it mutably.
    ///
    /// Returns a handle to a section if one is found, None otherwise. The
    /// section that is found bears the name that was asked for.
    pub fn search_section_mut(&mut self, section_name: &str) -> (found: Option<SectionHandleMut>)
        ensures
            found is Some <==> old(self).has_section(section_name@),
            found matches Some(section) ==> (
                *section == old(self).section_at(old(self).index_of(section_name@))
                && section.name_text() == section_name@
                && final(self).section_at(old(self).index_of(section_name@)) == *final(section)
            ),
            final(self).same_file(old(self)),
            final(self).others_unchanged(old(self), old(self).index_of(section_name@)),
            found is None ==> forall|j: int|
                0 <= j < old(self).section_names().len()
                    ==> final(self).section_at(j) == old(self).section_at(j),
    {
        proof {
            use_type_invariant(&*self);
        }
        match self.position(section_name) {
            Some(i) => {
                if same_text(self.sections[i].section.name(), section_name) {
                    Some(lend_section(&mut self.sections, i))
                } else {
                    None
                }
            },
            None => None,
        }
    }

    /// The host read the line `option_name = value` of the section of that
    /// name in the file at `config_pointer`. The section's read callback
    /// says what became of the line, and the answer is its status for the
    /// host. A section without a read callback, or one that is not there any
    /// more, is a defect.
    pub fn on_section_read(
        &mut self,
        section_name: &str,
        config_pointer: Address,
        option_name: &[u8],
        value: &[u8],
    ) -> (status: Result<i32, Fault>)
        requires
            config_pointer != 0,
        ensures
            status is Ok <==> old(self).keeps_section(section_name@)
                && old(self).section_data_at(old(self).index_of(section_name@)).has_read(),
            status matches Ok(code) ==> OptionChanged::is_code(code as int),
            status matches Err(fault) ==> fault == (if old(self).keeps_section(section_name@) {
                Fault::MissingCallback
            } else {
                Fault::StaleContext
            }),
            old(self).is_freed() ==> status == Err::<i32, Fault>(Fault::StaleContext),
            final(self).same_file(old(self)),
            final(self).others_unchanged(old(self), old(self).index_of(section_name@)),
            forall|j: int|
                0 <= j < old(self).section_names().len() ==> final(self).section_data_at(
                    j,
                ).same_record(&old(self).section_data_at(j)),
    {
        proof {
            use_type_invariant(&*self);
        }
        match self.position(section_name) {
            None => {
                proof {
                    assert(self.is_freed() ==> self.sections@.len() == 0);
                }
                Err(Fault::StaleContext)
            },
            Some(i) => {
                let mut cells: Vec<SectionCell> = Vec::new();
                std::mem::swap(&mut cells, &mut self.sections);
                let ghost before = cells@;
                let cell = &mut cells[i];
                let answer = match cell.section_data.invoke() {
                    Some(pointers) => pointers.read(config_pointer, &mut cell.section, option_name,
                        value),
                    None => None,
                };
                proof {
                    assert(cell_names(cells@) =~= cell_names(before));
                }
                self.sections = cells;
                match answer {
                    Some(code) => Ok(code),
                    None => Err(Fault::MissingCallback),
                }
            },
        }
    }

    /// The host asks for the section of that name to be written, in the
    /// file at `config_pointer`. The section's callback runs if it has one.
    /// The answer is the status for the host, which is always 0, with
    /// whether a callback ran.
    pub fn on_section_write(
        &mut self,
        section_name: &str,
        config_pointer: Address,
    ) -> (status: Result<(i32, bool), Fault>)
        requires
            config_pointer != 0,
        ensures
            status is Ok <==> old(self).keeps_section(section_name@),
            status matches Ok(answer) ==> answer.0 == 0 && answer.1 == old(self).section_data_at(
                old(self).index_of(section_name@),
            ).has_write(),
            status matches Err(fault) ==> fault == Fault::StaleContext,
            final(self).same_file(old(self)),
            final(self).others_unchanged(old(self), old(self).index_of(section_name@)),
            forall|j: int|
                0 <= j < old(self).section_names().len() ==> final(self).section_data_at(
                    j,
                ).same_record(&old(self).section_data_at(j)),
    {
        proof {
            use_type_invariant(&*self);
        }
        match self.position(section_name) {
            None => Err(Fault::StaleContext),
            Some(i) => {
                let mut cells: Vec<SectionCell> = Vec::new();
                std::mem::swap(&mut cells, &mut self.sections);
                let ghost before = cells@;
                let cell = &mut cells[i];
                let answer = match cell.section_data.invoke() {
                    Some(pointers) => Some(pointers.write(config_pointer, &mut cell.section)),
                    None => None,
                };
                proof {
                    assert(cell_names(cells@) =~= cell_names(before));
                }
                self.sections = cells;
                match answer {
                    Some(ran) => Ok((0, ran)),
                    None => Err(Fault::StaleContext),
                }
            },
        }
    }

    /// The host asks for the section of that name to be populated with default values, in the
    /// file at `config_pointer`. The section's callback runs if it has one.
    /// The answer is the status for the host, which is always 0, with
    /// whether a callback ran.
    pub fn on_section_write_default(
        &mut self,
        section_name: &str,
        config_pointer: Address,
    ) -> (status: Result<(i32, bool), Fault>)
        requires
            config_pointer != 0,
        ensures
            status is Ok <==> old(self).keeps_section(section_name@),
            status matches Ok(answer) ==> answer.0 == 0 && answer.1 == old(self).section_data_at(
                old(self).index_of(section_name@),
            ).has_write_default(),
            status matches Err(fault) ==> fault == Fault::StaleContext,
            final(self).same_file(old(self)),
            final(self).others_unchanged(old(self), old(self).index_of(section_name@)),
            forall|j: int|
                0 <= j < old(self).section_names().len() ==> final(self).section_data_at(
                    j,
                ).same_record(&old(self).section_data_at(j)),
    {
        proof {
            use_type_invariant(&*self);
        }
        match self.position(section_name) {
            None => Err(Fault::StaleContext),
            Some(i) => {
                let mut cells: Vec<SectionCell> = Vec::new();
                std::mem::swap(&mut cells, &mut self.sections);
                let ghost before = cells@;
                let cell = &mut cells[i];
                let answer = match cell.section_data.invoke() {
                    Some(pointers) => Some(pointers.write_default(config_pointer,
                        &mut cell.section)),
                    None => None,
                };
                proof {
                    assert(cell_names(cells@) =~= cell_names(before));
                }
                self.sections = cells;
                match answer {
                    Some(ran) => Ok((0, ran)),
                    None => Err(Fault::StaleContext),
                }
            },
        }
    }

    /// The host reloaded the file, which it has at `config_pointer`. The
    /// reload callback runs, and the answer is the status for the host,
    /// which is 0. A file without a reload callback, or one that has been
    /// freed, is a defect.
    pub fn on_reload(&mut self, config_pointer: Address) -> (status: Result<i32, Fault>)
        requires
            config_pointer != 0,
        ensures
            status is Ok <==> !old(self).is_freed() && old(self).has_reload(),
            status matches Ok(code) ==> code == 0,
            status matches Err(fault) ==> fault == (if old(self).is_freed() {
                Fault::StaleContext
            } else {
                Fault::MissingCallback
            }),
            final(self).same_file(old(self)),
            forall|j: int| 0 <= j < old(self).section_names().len() ==> (
                final(self).section_at(j) == old(self).section_at(j)
                && final(self).section_data_at(j) == old(self).section_data_at(j)
            ),
    {
        proof {
            use_type_invariant(&*self);
        }
        let mut cells: Vec<SectionCell> = Vec::new();
        std::mem::swap(&mut cells, &mut self.sections);
        let mut config_data: CallbackContext<ConfigPointers> = CallbackContext::spent();
        std::mem::swap(&mut config_data, &mut self.config_data);
        let answer = match config_data.invoke() {
            Some(pointers) => Some(pointers.reload(config_pointer)),
            None => None,
        };
        self.config_data = config_data;
        self.sections = cells;
        match answer {
            Some(true) => Ok(0),
            Some(false) => Err(Fault::MissingCallback),
            None => Err(Fault::StaleContext),
        }
    }

    /// Frees the configuration file. From the first moment nothing can be
    /// called back any more; then every section gives back the callback
    /// records of its options and its own, and last the file gives back its
    /// own. Returns the calls that free the native objects in that order:
    /// for each section its options and the section, then the file.
    ///
    /// Freeing a file that has been freed does nothing and returns no
    /// calls: nothing is freed twice. Only the owning thread can free a
    /// file: for any other nothing happens.
    pub fn free(
        &mut self,
        runtime: &Runtime,
        current: ThreadId,
    ) -> (freed: Result<Vec<NativeCall>, Fault>)
        ensures
            freed is Ok <==> runtime.admits(current),
            freed matches Ok(calls) ==> (
                final(self).is_freed()
                && final(self).section_names() == Seq::<Seq<char>>::empty()
                && calls@ == (if old(self).is_freed() {
                    Seq::<NativeCall>::empty()
                } else {
                    release_plan(old(self).section_addresses(), old(self).address())
                })
            ),
            freed matches Err(fault) ==> (
                Some(fault) == runtime.refusal(current)
                && final(self).same_file(old(self))
                && forall|j: int| 0 <= j < old(self).section_names().len() ==> (
                    final(self).section_at(j) == old(self).section_at(j)
                    && final(self).section_data_at(j) == old(self).section_data_at(j)
                )
            ),
            final(self).address() == old(self).address(),
            final(self).plugin_address() == old(self).plugin_address(),
    {
        proof {
            use_type_invariant(&*self);
        }
        let config_free = NativeCall::ConfigFree { config: self.inner.ptr };
        let last = match runtime.clear_call(current, config_free) {
            Ok(call) => call,
            Err(fault) => {
                return Err(fault);
            },
        };
        let mut calls: Vec<NativeCall> = Vec::new();
        if self.config_data.is_reclaimed() {
            proof {
                assert(self.section_names() =~= Seq::<Seq<char>>::empty());
            }
            return Ok(calls);
        }
        let mut cells: Vec<SectionCell> = Vec::new();
        std::mem::swap(&mut cells, &mut self.sections);
        let mut config_data: CallbackContext<ConfigPointers> = CallbackContext::spent();
        std::mem::swap(&mut config_data, &mut self.config_data);
        proof {
            assert(self.section_names() =~= Seq::<Seq<char>>::empty());
        }
        let ghost all = cell_addresses(cells@);
        let ghost config = self.inner.ptr;
        proof {
            assert(all =~= old(self).section_addresses());
        }
        while cells.len() > 0
            invariant
                calls@ + release_plan(cell_addresses(cells@), config) == release_plan(all, config),
            decreases cells@.len(),
        {
            let ghost rest_before = cell_addresses(cells@);
            let ghost calls_before = calls@;
            let mut cell = cells.remove(0);
            proof {
                assert(cell_addresses(cells@) =~= rest_before.drop_first());
                assert(cell.section.address() == rest_before[0]);
            }
            cell.section_data.reclaim();
            let (mut released, _) = cell.section.free();
            calls.append(&mut released);
            proof {
                assert(calls@ + release_plan(cell_addresses(cells@), config) =~= calls_before
                    + release_plan(rest_before, config));
            }
        }
        config_data.reclaim();
        calls.push(last);
        proof {
            assert(cell_addresses(cells@) =~= Seq::<Address>::empty());
            assert(calls@ =~= release_plan(all, config));
        }
        Ok(calls)
    }
}

impl Weechat {
    /// The call that searches an option with a full name.
    pub fn config_get_call(
        &self,
        runtime: &Runtime,
        current: ThreadId,
        option_name: &str,
    ) -> (call: Result<NativeCall, Fault>)
        ensures
            call is Ok <==> runtime.admits(current),
            call matches Ok(built) ==> (
                built matches NativeCall::ConfigGet { name } && name@ == native_string(option_name@)
            ),
            call matches Err(fault) ==> Some(fault) == runtime.refusal(current),
    {
        runtime.clear_call(current, NativeCall::ConfigGet { name: LossyCString::new(option_name) })
    }

    /// Search an option with a full name, from the host's answers: the
    /// address it found, and the name of the type of the option at that
    /// address. Nothing was found if the address is null.
    pub fn config_get<'a>(
        &'a self,
        option_ptr: Address,
        option_type: &str,
    ) -> (found: Option<ConfigOption<'a>>)
        requires
            option_ptr != 0 ==> OptionType::is_native_name(option_type@),
        ensures
            found is Some <==> option_ptr != 0,
            found matches Some(option) ==> (
                option.option_address() == option_ptr
                && option.plugin_address() == self.address()
                && Some(option.type_tag()) == OptionType::from_native_name(option_type@)
            ),
    {
        if option_ptr == 0 {
            return None;
        }
        Some(Config::option_from_type_and_ptr(self.ptr(), option_ptr, option_type))
    }

    /// The call that asks for the value of a plugin option.
    pub fn get_plugin_option_call(
        &self,
        runtime: &Runtime,
        current: ThreadId,
        option: &str,
    ) -> (call: Result<NativeCall, Fault>)
        ensures
            call is Ok <==> runtime.admits(current),
            call matches Ok(built) ==> (
                built matches NativeCall::ConfigGetPlugin { plugin, name }
                    && plugin == self.address()
                    && name@ == native_string(option@)
            ),
            call matches Err(fault) ==> Some(fault) == runtime.refusal(current),
    {
        runtime.clear_call(
            current,
            NativeCall::ConfigGetPlugin { plugin: self.ptr(), name: LossyCString::new(option) },
        )
    }

    /// Get value of a plugin option, from the host's answer: nothing for a
    /// null pointer.
    pub fn get_plugin_option(&self, answer: Option<&[u8]>) -> (value: Option<String>)
        ensures
            value is Some <==> answer is Some,
            value is Some ==> value->0@ == decoded(answer->0@),
    {
        match answer {
            Some(bytes) => Some(decode_lossy(bytes)),
            None => None,
        }
    }

    /// The call that sets the value of a plugin option.
    pub fn set_plugin_option_call(
        &self,
        runtime: &Runtime,
        current: ThreadId,
        option: &str,
        value: &str,
    ) -> (call: Result<NativeCall, Fault>)
        ensures
            call is Ok <==> runtime.admits(current),
            call matches Ok(built) ==> (
                built matches NativeCall::ConfigSetPlugin { plugin, name, value: v }
                    && plugin == self.address()
                    && name@ == native_string(option@)
                    && v@ == native_string(value@)
            ),
            call matches Err(fault) ==> Some(fault) == runtime.refusal(current),
    {
        runtime.clear_call(
            current,
            NativeCall::ConfigSetPlugin {
                plugin: self.ptr(),
                name: LossyCString::new(option),
                value: LossyCString::new(value),
            },
        )
    }

    /// Set the value of a plugin option: the host's answer.
    pub fn set_plugin_option(&self, answer: i32) -> (outcome: OptionChanged)
        requires
            OptionChanged::is_code(answer as int),
        ensures
            outcome.code() == answer,
    {
        OptionChanged::from_int(answer)
    }
}

} // verus!

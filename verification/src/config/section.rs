//! Sections of a configuration file and the options they hold.

use vstd::prelude::*;

use crate::callback::{CallbackContext, ContextState};
use crate::config::boolean::{BooleanOption, BooleanOptionSettings};
use crate::config::color::{ColorOption, ColorOptionSettings};
use crate::config::config::{Conf, Config, OptionChanged};
use crate::config::config_options::{
    BaseConfigOption, ConfigOptions, OptionCallbacks, FromPtrs, HiddenConfigOptionT, OptionCallback,
        OptionCheckCallback,
    OptionPointers, OptionType,
};
use crate::config::enums::{EnumOption, EnumOptionSettings};
use crate::config::integer::{IntegerOption, IntegerOptionSettings};
use crate::config::string::{StringOption, StringOptionSettings};
use crate::native::{Address, Fault, NativeCall, ThreadId};
use crate::text::{
    decimal, decimal_bytes, decode_lossy, native_string, same_text, LossyCString,
};
use crate::weechat::{Runtime, Weechat};

verus! {

/// What the host is told about a new option.
pub struct OptionDescription<'a> {
    pub name: &'a str,
    pub option_type: OptionType,
    pub description: &'a str,
    pub string_values: &'a str,
    pub min: i32,
    pub max: i32,
    pub default_value: Vec<u8>,
    pub value: Vec<u8>,
    pub null_allowed: bool,
}

/// A handle to an option of any of the five types.
pub enum ConfigOption<'a> {
    Boolean(BooleanOption<'a>),
    Integer(IntegerOption<'a>),
    String(StringOption<'a>),
    Color(ColorOption<'a>),
    Enum(EnumOption<'a>),
}

impl<'a> ConfigOption<'a> {
    /// The type of the option behind the handle.
    pub open spec fn type_tag(&self) -> OptionType {
        match self {
            ConfigOption::Boolean(_) => OptionType::Boolean,
            ConfigOption::Integer(_) => OptionType::Integer,
            ConfigOption::String(_) => OptionType::String,
            ConfigOption::Color(_) => OptionType::Color,
            ConfigOption::Enum(_) => OptionType::Enum,
        }
    }

    /// Returns the type of the option behind the handle.
    pub fn kind(&self) -> (option_type: OptionType)
        ensures
            option_type == self.type_tag(),
    {
        match self {
            ConfigOption::Boolean(_) => OptionType::Boolean,
            ConfigOption::Integer(_) => OptionType::Integer,
            ConfigOption::String(_) => OptionType::String,
            ConfigOption::Color(_) => OptionType::Color,
            ConfigOption::Enum(_) => OptionType::Enum,
        }
    }

}

impl<'a> HiddenConfigOptionT for ConfigOption<'a> {
    open spec fn option_address(&self) -> Address {
        match self {
            ConfigOption::Boolean(o) => o.option_address(),
            ConfigOption::Integer(o) => o.option_address(),
            ConfigOption::String(o) => o.option_address(),
            ConfigOption::Color(o) => o.option_address(),
            ConfigOption::Enum(o) => o.option_address(),
        }
    }

    open spec fn plugin_address(&self) -> Address {
        match self {
            ConfigOption::Boolean(o) => o.plugin_address(),
            ConfigOption::Integer(o) => o.plugin_address(),
            ConfigOption::String(o) => o.plugin_address(),
            ConfigOption::Color(o) => o.plugin_address(),
            ConfigOption::Enum(o) => o.plugin_address(),
        }
    }

    fn get_ptr(&self) -> (ptr: Address) {
        match self {
            ConfigOption::Boolean(o) => o.get_ptr(),
            ConfigOption::Integer(o) => o.get_ptr(),
            ConfigOption::String(o) => o.get_ptr(),
            ConfigOption::Color(o) => o.get_ptr(),
            ConfigOption::Enum(o) => o.get_ptr(),
        }
    }

    fn get_weechat(&self) -> (weechat: Weechat) {
        match self {
            ConfigOption::Boolean(o) => o.get_weechat(),
            ConfigOption::Integer(o) => o.get_weechat(),
            ConfigOption::String(o) => o.get_weechat(),
            ConfigOption::Color(o) => o.get_weechat(),
            ConfigOption::Enum(o) => o.get_weechat(),
        }
    }
}

impl<'a> BaseConfigOption for ConfigOption<'a> {
}

/// The callback record of an option, tagged with the option's type.
pub enum ConfigOptionPointers {
    Boolean(CallbackContext<OptionPointers<BooleanOption<'static>>>),
    Integer(CallbackContext<OptionPointers<IntegerOption<'static>>>),
    String(CallbackContext<OptionPointers<StringOption<'static>>>),
    Color(CallbackContext<OptionPointers<ColorOption<'static>>>),
    Enum(CallbackContext<OptionPointers<EnumOption<'static>>>),
}

impl ConfigOptionPointers {
    /// The type of the option that the record belongs to.
    pub open spec fn type_tag(&self) -> OptionType {
        match self {
            ConfigOptionPointers::Boolean(_) => OptionType::Boolean,
            ConfigOptionPointers::Integer(_) => OptionType::Integer,
            ConfigOptionPointers::String(_) => OptionType::String,
            ConfigOptionPointers::Color(_) => OptionType::Color,
            ConfigOptionPointers::Enum(_) => OptionType::Enum,
        }
    }

    /// Where the record stands in its life.
    pub open spec fn state(&self) -> ContextState {
        match self {
            ConfigOptionPointers::Boolean(c) => c.state(),
            ConfigOptionPointers::Integer(c) => c.state(),
            ConfigOptionPointers::String(c) => c.state(),
            ConfigOptionPointers::Color(c) => c.state(),
            ConfigOptionPointers::Enum(c) => c.state(),
        }
    }

    /// The address of the native plugin record that the callbacks are given.
    pub open spec fn plugin_address(&self) -> Address {
        match self {
            ConfigOptionPointers::Boolean(c) => c.record()->0.plugin_address(),
            ConfigOptionPointers::Integer(c) => c.record()->0.plugin_address(),
            ConfigOptionPointers::String(c) => c.record()->0.plugin_address(),
            ConfigOptionPointers::Color(c) => c.record()->0.plugin_address(),
            ConfigOptionPointers::Enum(c) => c.record()->0.plugin_address(),
        }
    }

    /// Which callbacks the record holds.
    pub open spec fn callbacks(&self) -> OptionCallbacks {
        match self {
            ConfigOptionPointers::Boolean(c) => c.record()->0.callbacks(),
            ConfigOptionPointers::Integer(c) => c.record()->0.callbacks(),
            ConfigOptionPointers::String(c) => c.record()->0.callbacks(),
            ConfigOptionPointers::Color(c) => c.record()->0.callbacks(),
            ConfigOptionPointers::Enum(c) => c.record()->0.callbacks(),
        }
    }

    /// A record that the host may call back through, for a plugin that
    /// exists.
    pub open spec fn live(&self) -> bool {
        self.state() == ContextState::Registered && self.plugin_address() != 0
    }

    /// Returns the type of the option that the record belongs to.
    pub fn kind(&self) -> (option_type: OptionType)
        ensures
            option_type == self.type_tag(),
    {
        match self {
            ConfigOptionPointers::Boolean(_) => OptionType::Boolean,
            ConfigOptionPointers::Integer(_) => OptionType::Integer,
            ConfigOptionPointers::String(_) => OptionType::String,
            ConfigOptionPointers::Color(_) => OptionType::Color,
            ConfigOptionPointers::Enum(_) => OptionType::Enum,
        }
    }

    /// Ends the record's life. Returns whether the callbacks were given back
    /// by this call.
    pub fn reclaim(&mut self) -> (released: bool)
        ensures
            released == old(self).state().releases(),
            final(self).state() == ContextState::Reclaimed,
            final(self).type_tag() == old(self).type_tag(),
    {
        match self {
            ConfigOptionPointers::Boolean(c) => c.reclaim().is_some(),
            ConfigOptionPointers::Integer(c) => c.reclaim().is_some(),
            ConfigOptionPointers::String(c) => c.reclaim().is_some(),
            ConfigOptionPointers::Color(c) => c.reclaim().is_some(),
            ConfigOptionPointers::Enum(c) => c.reclaim().is_some(),
        }
    }
}

/// The callback that runs for each line of a section that is read.
///
/// What the callback answers goes to the host as it is. The answer for a
/// name that the section does not know is [`OptionChanged::NotFound`], and
/// the answer for a value that cannot be used is [`OptionChanged::Error`].
pub trait SectionReadCallback {
    /// Called with the name and the value of the option that was read.
    /// Returns what became of it.
    fn callback(
        &mut self,
        weechat: &Weechat,
        config: &Conf,
        section: &mut ConfigSection,
        option_name: &str,
        option_value: &str,
    ) -> OptionChanged;
}

/// The callback that runs when a section has to be written out.
pub trait SectionWriteCallback {
    /// Called with the section that is being written.
    fn callback(&mut self, weechat: &Weechat, config: &Conf, section: &mut ConfigSection);
}

/// The callback that runs when the default values of a section have to be
/// written out.
pub trait SectionWriteDefaultCallback {
    /// Called with the section that is being populated with default values.
    fn callback(&mut self, weechat: &Weechat, config: &Conf, section: &mut ConfigSection);
}

/// The callback record of one section.
pub struct ConfigSectionPointers {
    pub(crate) read_cb: Option<Box<dyn SectionReadCallback>>,
    pub(crate) write_cb: Option<Box<dyn SectionWriteCallback>>,
    pub(crate) write_default_cb: Option<Box<dyn SectionWriteDefaultCallback>>,
    pub(crate) weechat_ptr: Address,
}

impl ConfigSectionPointers {
    /// The address of the native plugin record.
    pub closed spec fn plugin_address(&self) -> Address {
        self.weechat_ptr
    }

    /// Whether the record holds a read callback.
    pub closed spec fn has_read(&self) -> bool {
        self.read_cb is Some
    }

    /// Whether the record holds a write callback.
    pub closed spec fn has_write(&self) -> bool {
        self.write_cb is Some
    }

    /// Whether the record holds a write-default callback.
    pub closed spec fn has_write_default(&self) -> bool {
        self.write_default_cb is Some
    }
}

impl ConfigSectionPointers {
    /// Makes the record for the callbacks of a section of the plugin at
    /// `weechat_ptr`.
    pub fn new(
        weechat_ptr: Address,
        read_cb: Option<Box<dyn SectionReadCallback>>,
        write_cb: Option<Box<dyn SectionWriteCallback>>,
        write_default_cb: Option<Box<dyn SectionWriteDefaultCallback>>,
    ) -> (pointers: Self)
        ensures
            pointers.plugin_address() == weechat_ptr,
            pointers.has_read() == read_cb is Some,
            pointers.has_write() == write_cb is Some,
            pointers.has_write_default() == write_default_cb is Some,
    {
        ConfigSectionPointers { read_cb, write_cb, write_default_cb, weechat_ptr }
    }

    /// Nothing but what the callbacks hold has changed.
    pub open spec fn same_record(&self, before: &ConfigSectionPointers) -> bool {
        &&& self.plugin_address() == before.plugin_address()
        &&& self.has_read() == before.has_read()
        &&& self.has_write() == before.has_write()
        &&& self.has_write_default() == before.has_write_default()
    }

    /// The host read the line `option_name = value` of `section` in the
    /// file at `config_pointer`. The read callback says what became of it,
    /// and the answer is its status for the host; there is no answer
    /// without a read callback.
    pub fn read(
        &mut self,
        config_pointer: Address,
        section: &mut ConfigSection,
        option_name: &[u8],
        value: &[u8],
    ) -> (status: Option<i32>)
        requires
            config_pointer != 0,
            old(self).plugin_address() != 0,
        ensures
            status is Some <==> old(self).has_read(),
            status is Some ==> OptionChanged::is_code(status->0 as int),
            final(self).same_record(old(self)),
    {
        let option_name = decode_lossy(option_name);
        let value = decode_lossy(value);
        let conf = Conf::from_ptrs(config_pointer, self.weechat_ptr);
        let weechat = Weechat::from_ptr(self.weechat_ptr);
        match &mut self.read_cb {
            Some(callback) => {
                let outcome = callback.callback(
                    &weechat,
                    &conf,
                    section,
                    option_name.as_str(),
                    value.as_str(),
                );
                Some(outcome.as_int())
            },
            None => None,
        }
    }

    /// The host asks for `section` to be written to the file at
    /// `config_pointer`. Returns whether a write callback ran.
    pub fn write(&mut self, config_pointer: Address, section: &mut ConfigSection) -> (ran: bool)
        requires
            config_pointer != 0,
            old(self).plugin_address() != 0,
        ensures
            ran == old(self).has_write(),
            final(self).same_record(old(self)),
    {
        let conf = Conf::from_ptrs(config_pointer, self.weechat_ptr);
        let weechat = Weechat::from_ptr(self.weechat_ptr);
        match &mut self.write_cb {
            Some(callback) => {
                callback.callback(&weechat, &conf, section);
                true
            },
            None => false,
        }
    }

    /// The host asks for the default values of `section` to be written to
    /// the file at `config_pointer`. Returns whether a write-default
    /// callback ran.
    pub fn write_default(
        &mut self,
        config_pointer: Address,
        section: &mut ConfigSection,
    ) -> (ran: bool)
        requires
            config_pointer != 0,
            old(self).plugin_address() != 0,
        ensures
            ran == old(self).has_write_default(),
            final(self).same_record(old(self)),
    {
        let conf = Conf::from_ptrs(config_pointer, self.weechat_ptr);
        let weechat = Weechat::from_ptr(self.weechat_ptr);
        match &mut self.write_default_cb {
            Some(callback) => {
                callback.callback(&weechat, &conf, section);
                true
            },
            None => false,
        }
    }
}

/// Represents the options when creating a new config section.
pub struct ConfigSectionSettings {
    pub(crate) name: String,
    pub(crate) read_callback: Option<Box<dyn SectionReadCallback>>,
    pub(crate) write_callback: Option<Box<dyn SectionWriteCallback>>,
    pub(crate) write_default_callback: Option<Box<dyn SectionWriteDefaultCallback>>,
}

impl ConfigSectionSettings {
    /// The name of the new section.
    pub closed spec fn name_text(&self) -> Seq<char> {
        self.name@
    }

    /// Whether a read callback is set.
    pub closed spec fn has_read(&self) -> bool {
        self.read_callback is Some
    }

    /// Whether a write callback is set.
    pub closed spec fn has_write(&self) -> bool {
        self.write_callback is Some
    }

    /// Whether a write-default callback is set.
    pub closed spec fn has_write_default(&self) -> bool {
        self.write_default_callback is Some
    }

    /// The fields hold what the settings say.
    pub(crate) proof fn lemma_fields(&self)
        ensures
            self.name@ == self.name_text(),
            self.read_callback is Some == self.has_read(),
            self.write_callback is Some == self.has_write(),
            self.write_default_callback is Some == self.has_write_default(),
    {
    }

    /// Returns the name of the new section.
    pub fn name(&self) -> (name: &str)
        ensures
            name@ == self.name_text(),
    {
        self.name.as_str()
    }

    /// Create a new config section info.
    /// This can be passed to a config which will create a new ConfigSection.
    pub fn new(name: &str) -> (settings: Self)
        ensures
            settings.name_text() == name@,
            !settings.has_read(),
            !settings.has_write(),
            !settings.has_write_default(),
    {
        ConfigSectionSettings {
            name: name.to_owned(),
            read_callback: None,
            write_callback: None,
            write_default_callback: None,
        }
    }

    /// Set the function that will be called when an option from the section
    /// is read from the disk.
    pub fn set_read_callback<C: SectionReadCallback + 'static>(
        self,
        callback: C,
    ) -> (settings: Self)
        ensures
            settings.has_read(),
            settings.name_text() == self.name_text(),
            settings.has_write() == self.has_write(),
            settings.has_write_default() == self.has_write_default(),
    {
        let callback: Box<dyn SectionReadCallback> = Box::new(callback);
        ConfigSectionSettings {
            name: self.name,
            read_callback: Some(callback),
            write_callback: self.write_callback,
            write_default_callback: self.write_default_callback,
        }
    }

    /// Set the function that will be called when the section is being
    /// written to the file.
    pub fn set_write_callback<C: SectionWriteCallback + 'static>(
        self,
        callback: C,
    ) -> (settings: Self)
        ensures
            settings.has_write(),
            settings.name_text() == self.name_text(),
            settings.has_read() == self.has_read(),
            settings.has_write_default() == self.has_write_default(),
    {
        let callback: Box<dyn SectionWriteCallback> = Box::new(callback);
        ConfigSectionSettings {
            name: self.name,
            read_callback: self.read_callback,
            write_callback: Some(callback),
            write_default_callback: self.write_default_callback,
        }
    }

    /// Set the function that will be called when default values will need to
    /// be written to to the file.
    pub fn set_write_default_callback<C: SectionWriteDefaultCallback + 'static>(
        self,
        callback: C,
    ) -> (settings: Self)
        ensures
            settings.has_write_default(),
            settings.name_text() == self.name_text(),
            settings.has_read() == self.has_read(),
            settings.has_write() == self.has_write(),
    {
        let callback: Box<dyn SectionWriteDefaultCallback> = Box::new(callback);
        ConfigSectionSettings {
            name: self.name,
            read_callback: self.read_callback,
            write_callback: self.write_callback,
            write_default_callback: Some(callback),
        }
    }
}

/// One option of a section: its name and its callback record.
pub(crate) struct OptionEntry {
    pub(crate) name: String,
    pub(crate) pointers: ConfigOptionPointers,
}

/// The options of `entries` by name, a later entry winning over an earlier
/// one of the same name.
spec fn option_map(entries: Seq<OptionEntry>) -> Map<Seq<char>, OptionType>
    decreases entries.len(),
{
    if entries.len() == 0 {
        Map::empty()
    } else {
        option_map(entries.drop_last()).insert(
            entries.last().name@,
            entries.last().pointers.type_tag(),
        )
    }
}

/// No two of `entries` have the same name.
spec fn distinct_names(entries: Seq<OptionEntry>) -> bool {
    forall|i: int, j: int|
        0 <= i < j < entries.len() ==> #[trigger] entries[i].name@ != #[trigger] entries[j].name@
}

/// A name is a key of the map exactly if an entry has it.
proof fn lemma_option_map_keys(entries: Seq<OptionEntry>, name: Seq<char>)
    ensures
        option_map(entries).contains_key(name) <==> exists|i: int| 0 <= i < entries.len()
            && #[trigger] entries[i].name@ == name,
    decreases entries.len(),
{
    if entries.len() > 0 {
        let front = entries.drop_last();
        lemma_option_map_keys(front, name);
        if option_map(entries).contains_key(name) {
            if entries.last().name@ == name {
                assert(entries[entries.len() - 1].name@ == name);
            } else {
                let i = choose|i: int| 0 <= i < front.len() && #[trigger] front[i].name@ == name;
                assert(entries[i].name@ == name);
            }
        }
        if exists|i: int| 0 <= i < entries.len() && #[trigger] entries[i].name@ == name {
            let i = choose|i: int| 0 <= i < entries.len() && #[trigger] entries[i].name@ == name;
            if i < entries.len() - 1 {
                assert(front[i].name@ == name);
            }
        }
    }
}

/// Where names are distinct, each entry is found under its name.
proof fn lemma_option_map_entry(entries: Seq<OptionEntry>, i: int)
    requires
        distinct_names(entries),
        0 <= i < entries.len(),
    ensures
        option_map(entries).contains_key(entries[i].name@),
        option_map(entries)[entries[i].name@] == entries[i].pointers.type_tag(),
    decreases entries.len(),
{
    let front = entries.drop_last();
    if i < entries.len() - 1 {
        assert(distinct_names(front)) by {
            assert forall|a: int, b: int| 0 <= a < b < front.len() implies #[trigger] front[a].name@
                != #[trigger] front[b].name@ by {
                assert(entries[a].name@ != entries[b].name@);
            }
        }
        lemma_option_map_entry(front, i);
        assert(entries[i].name@ != entries[entries.len() - 1].name@);
    }
}

/// Where names are distinct, taking an entry out takes its name out of the
/// map and leaves the rest.
proof fn lemma_option_map_remove(entries: Seq<OptionEntry>, i: int)
    requires
        distinct_names(entries),
        0 <= i < entries.len(),
    ensures
        distinct_names(entries.remove(i)),
        option_map(entries.remove(i)) == option_map(entries).remove(entries[i].name@),
    decreases entries.len(),
{
    let rest = entries.remove(i);
    assert(distinct_names(rest)) by {
        assert forall|a: int, b: int| 0 <= a < b < rest.len() implies #[trigger] rest[a].name@
            != #[trigger] rest[b].name@ by {
            let a2 = if a < i { a } else { a + 1 };
            let b2 = if b < i { b } else { b + 1 };
            assert(entries[a2].name@ != entries[b2].name@);
        }
    }
    let front = entries.drop_last();
    if i == entries.len() - 1 {
        assert(rest =~= front);
        lemma_option_map_keys(front, entries[i].name@);
        if option_map(front).contains_key(entries[i].name@) {
            let k = choose|k: int| 0 <= k < front.len()
                && #[trigger] front[k].name@ == entries[i].name@;
            assert(entries[k].name@ != entries[i].name@);
        }
        assert(option_map(front) =~= option_map(entries).remove(entries[i].name@));
    } else {
        assert(distinct_names(front)) by {
            assert forall|a: int, b: int| 0 <= a < b < front.len() implies #[trigger] front[a].name@
                != #[trigger] front[b].name@ by {
                assert(entries[a].name@ != entries[b].name@);
            }
        }
        lemma_option_map_remove(front, i);
        assert(rest.drop_last() =~= front.remove(i));
        assert(rest.last() == entries.last());
        assert(entries[i].name@ != entries[entries.len() - 1].name@);
        assert(option_map(rest) =~= option_map(entries).remove(entries[i].name@));
    }
}


impl ConfigOptionPointers {
    /// The host asks whether the option may take `value`. Answers with the
    /// status for the host, or with nothing if the record is not registered.
    pub fn check(&mut self, option_pointer: Address, value: &[u8]) -> (status: Option<i32>)
        requires
            option_pointer != 0,
            old(self).state().fires() ==> old(self).plugin_address() != 0,
        ensures
            status is Some <==> old(self).state().fires(),
            status is Some ==> status->0 == 0 || status->0 == 1,
            status is Some && !old(self).callbacks().check ==> status->0 == 1,
            final(self).type_tag() == old(self).type_tag(),
            final(self).state() == old(self).state(),
            old(self).state().fires()
                ==> final(self).plugin_address() == old(self).plugin_address(),
            old(self).state().fires() ==> final(self).callbacks() == old(self).callbacks(),
    {
        match self {
            ConfigOptionPointers::Boolean(c) => match c.invoke() {
                Some(p) => Some(p.check(option_pointer, value)),
                None => None,
            },
            ConfigOptionPointers::Integer(c) => match c.invoke() {
                Some(p) => Some(p.check(option_pointer, value)),
                None => None,
            },
            ConfigOptionPointers::String(c) => match c.invoke() {
                Some(p) => Some(p.check(option_pointer, value)),
                None => None,
            },
            ConfigOptionPointers::Color(c) => match c.invoke() {
                Some(p) => Some(p.check(option_pointer, value)),
                None => None,
            },
            ConfigOptionPointers::Enum(c) => match c.invoke() {
                Some(p) => Some(p.check(option_pointer, value)),
                None => None,
            },
        }
    }

    /// The host reports that the option changed. Answers whether a callback
    /// ran, or with nothing if the record is not registered.
    pub fn change(&mut self, option_pointer: Address) -> (ran: Option<bool>)
        requires
            option_pointer != 0,
            old(self).state().fires() ==> old(self).plugin_address() != 0,
        ensures
            ran is Some <==> old(self).state().fires(),
            ran is Some ==> ran->0 == old(self).callbacks().change,
            old(self).state().fires() ==> final(self).callbacks() == old(self).callbacks(),
            final(self).type_tag() == old(self).type_tag(),
            final(self).state() == old(self).state(),
            old(self).state().fires()
                ==> final(self).plugin_address() == old(self).plugin_address(),
    {
        match self {
            ConfigOptionPointers::Boolean(c) => match c.invoke() {
                Some(p) => Some(p.change(option_pointer)),
                None => None,
            },
            ConfigOptionPointers::Integer(c) => match c.invoke() {
                Some(p) => Some(p.change(option_pointer)),
                None => None,
            },
            ConfigOptionPointers::String(c) => match c.invoke() {
                Some(p) => Some(p.change(option_pointer)),
                None => None,
            },
            ConfigOptionPointers::Color(c) => match c.invoke() {
                Some(p) => Some(p.change(option_pointer)),
                None => None,
            },
            ConfigOptionPointers::Enum(c) => match c.invoke() {
                Some(p) => Some(p.change(option_pointer)),
                None => None,
            },
        }
    }

    /// The host reports that it is deleting the option. Answers whether a
    /// callback ran, or with nothing if the record is not registered.
    pub fn delete(&mut self, option_pointer: Address) -> (ran: Option<bool>)
        requires
            option_pointer != 0,
            old(self).state().fires() ==> old(self).plugin_address() != 0,
        ensures
            ran is Some <==> old(self).state().fires(),
            ran is Some ==> ran->0 == old(self).callbacks().delete,
            old(self).state().fires() ==> final(self).callbacks() == old(self).callbacks(),
            final(self).type_tag() == old(self).type_tag(),
            final(self).state() == old(self).state(),
            old(self).state().fires()
                ==> final(self).plugin_address() == old(self).plugin_address(),
    {
        match self {
            ConfigOptionPointers::Boolean(c) => match c.invoke() {
                Some(p) => Some(p.delete(option_pointer)),
                None => None,
            },
            ConfigOptionPointers::Integer(c) => match c.invoke() {
                Some(p) => Some(p.delete(option_pointer)),
                None => None,
            },
            ConfigOptionPointers::String(c) => match c.invoke() {
                Some(p) => Some(p.delete(option_pointer)),
                None => None,
            },
            ConfigOptionPointers::Color(c) => match c.invoke() {
                Some(p) => Some(p.delete(option_pointer)),
                None => None,
            },
            ConfigOptionPointers::Enum(c) => match c.invoke() {
                Some(p) => Some(p.delete(option_pointer)),
                None => None,
            },
        }
    }
}

/// Whether `call` creates an option as described, with the default value
/// as its first value and no delete callback.
pub open spec fn is_new_option(
    call: NativeCall,
    config: Address,
    section: Address,
    name: Seq<char>,
    option_type: OptionType,
    description: Seq<char>,
    string_values: Seq<char>,
    bounds: (i32, i32),
    default_value: Seq<u8>,
    callbacks: (bool, bool),
) -> bool {
    call matches NativeCall::ConfigNewOption {
        config: c,
        section: s,
        name: n,
        option_type: t,
        description: d,
        string_values: sv,
        min: lo,
        max: hi,
        default_value: dv,
        value: v,
        null_allowed: na,
        check: ck,
        change: ch,
        delete: del,
    } && c == config && s == section && n@ == native_string(name) && t@ == native_string(
        option_type.native_name(),
    ) && d@ == native_string(description) && sv@ == native_string(string_values) && lo == bounds.0
        && hi == bounds.1 && dv@ == default_value && v@ == default_value && !na && ck
        == callbacks.0 && ch == callbacks.1 && !del
}

/// How a boolean is written for the host.
pub open spec fn boolean_text(value: bool) -> Seq<char> {
    if value {
        "on"@
    } else {
        "off"@
    }
}

/// A handle to a Weechat config section.
pub type SectionHandle<'a> = &'a ConfigSection;

/// A mutable handle to a Weechat config section. While it is held, nothing
/// else can reach the section.
pub type SectionHandleMut<'a> = &'a mut ConfigSection;

/// Weechat Configuration section
pub struct ConfigSection {
    ptr: Address,
    config_ptr: Address,
    weechat_ptr: Address,
    name: String,
    option_pointers: Vec<OptionEntry>,
}

impl ConfigSection {
    #[verifier::type_invariant]
    spec fn well_formed(self) -> bool {
        &&& self.ptr != 0
        &&& self.config_ptr != 0
        &&& self.weechat_ptr != 0
        &&& distinct_names(self.option_pointers@)
        &&& forall|i: int|
            0 <= i < self.option_pointers@.len()
                ==> (#[trigger] self.option_pointers@[i]).pointers.live()
                && self.option_pointers@[i].pointers.plugin_address() == self.weechat_ptr
    }

    /// The address of the native section.
    pub closed spec fn address(&self) -> Address {
        self.ptr
    }

    /// The address of the native configuration file.
    pub closed spec fn config_address(&self) -> Address {
        self.config_ptr
    }

    /// The address of the native plugin record.
    pub closed spec fn plugin_address(&self) -> Address {
        self.weechat_ptr
    }

    /// The name of the section.
    pub closed spec fn name_text(&self) -> Seq<char> {
        self.name@
    }

    /// The options of the section: their names and their types.
    pub closed spec fn option_types(&self) -> Map<Seq<char>, OptionType> {
        option_map(self.option_pointers@)
    }

    /// Which callbacks each option of the section has.
    pub closed spec fn option_callbacks(&self) -> Map<Seq<char>, OptionCallbacks> {
        callback_map(self.option_pointers@)
    }

    /// The names of the options, in the order in which they are kept.
    pub closed spec fn names(&self) -> Seq<Seq<char>> {
        Seq::new(self.option_pointers@.len(), |i: int| self.option_pointers@[i].name@)
    }

    /// Whether the section holds an option of that name.
    pub open spec fn has_option(&self, name: Seq<char>) -> bool {
        self.option_types().contains_key(name)
    }

    /// Same native section, same name; the options may differ.
    pub open spec fn same_section(&self, other: &ConfigSection) -> bool {
        &&& self.address() == other.address()
        &&& self.config_address() == other.config_address()
        &&& self.plugin_address() == other.plugin_address()
        &&& self.name_text() == other.name_text()
    }

    /// Wraps the native section at `ptr`, which has no options yet.
    pub(crate) fn from_ptrs(
        ptr: Address,
        config_ptr: Address,
        weechat_ptr: Address,
        name: String,
    ) -> (section: ConfigSection)
        requires
            ptr != 0,
            config_ptr != 0,
            weechat_ptr != 0,
        ensures
            section.address() == ptr,
            section.config_address() == config_ptr,
            section.plugin_address() == weechat_ptr,
            section.name_text() == name@,
            section.option_types() == Map::<Seq<char>, OptionType>::empty(),
            section.option_callbacks() == Map::<Seq<char>, OptionCallbacks>::empty(),
            section.names() == Seq::<Seq<char>>::empty(),
    {
        let section = ConfigSection {
            ptr,
            config_ptr,
            weechat_ptr,
            name,
            option_pointers: Vec::new(),
        };
        assert(section.names() =~= Seq::<Seq<char>>::empty());
        section
    }

    /// Get the name of the section.
    pub fn name(&self) -> (name: &str)
        ensures
            name@ == self.name_text(),
    {
        self.name.as_str()
    }

    /// Returns the address of the native section, which is never null.
    pub fn get_ptr(&self) -> (ptr: Address)
        ensures
            ptr == self.address(),
            ptr != 0,
    {
        proof {
            use_type_invariant(self);
        }
        self.ptr
    }

    /// Where the option of that name is kept, if there is one.
    fn position(&self, option_name: &str) -> (found: Option<usize>)
        ensures
            found matches Some(i) ==> (
                i < self.option_pointers@.len()
                && self.option_pointers@[i as int].name@ == option_name@
            ),
            found is None ==> forall|i: int|
                0 <= i < self.option_pointers@.len() ==> (#[trigger] self.option_pointers@[i]).name@
                    != option_name@,
            found is Some <==> self.has_option(option_name@),
    {
        let mut i: usize = 0;
        while i < self.option_pointers.len()
            invariant
                0 <= i <= self.option_pointers@.len(),
                forall|j: int|
                    0 <= j < i ==> (#[trigger] self.option_pointers@[j]).name@ != option_name@,
            decreases self.option_pointers@.len() - i,
        {
            if same_text(self.option_pointers[i].name.as_str(), option_name) {
                proof {
                    lemma_option_map_keys(self.option_pointers@, option_name@);
                }
                return Some(i);
            }
            i += 1;
        }
        proof {
            lemma_option_map_keys(self.option_pointers@, option_name@);
        }
        None
    }

    /// Tells whether the section holds an option of that name.
    pub fn contains(&self, option_name: &str) -> (found: bool)
        ensures
            found == self.has_option(option_name@),
    {
        self.position(option_name).is_some()
    }

    /// Returns the type under which the option of that name was created.
    pub fn option_type(&self, option_name: &str) -> (option_type: Option<OptionType>)
        ensures
            option_type is Some <==> self.has_option(option_name@),
            option_type is Some ==> option_type->0 == self.option_types()[option_name@],
    {
        proof {
            use_type_invariant(self);
        }
        match self.position(option_name) {
            Some(i) => {
                proof {
                    lemma_option_map_entry(self.option_pointers@, i as int);
                }
                Some(self.option_pointers[i].pointers.kind())
            },
            None => None,
        }
    }

    /// Returns how many options the section holds.
    pub fn len(&self) -> (count: usize)
        ensures
            count == self.names().len(),
    {
        self.option_pointers.len()
    }

    /// Returns the names of the options of the section.
    pub fn option_names(&self) -> (names: Vec<String>)
        ensures
            names.deep_view() == self.names(),
            self.names().no_duplicates(),
            forall|name: Seq<char>| self.names().contains(name) <==> self.has_option(name),
    {
        proof {
            use_type_invariant(self);
            let entries = self.option_pointers@;
            assert forall|name: Seq<char>| self.names().contains(name) <==> self.has_option(
                name,
            ) by {
                lemma_option_map_keys(entries, name);
                if self.names().contains(name) {
                    let i = choose|i: int| 0 <= i < self.names().len() && self.names()[i] == name;
                    assert(entries[i].name@ == name);
                }
                if self.has_option(name) {
                    let i = choose|i: int| 0 <= i < entries.len()
                        && #[trigger] entries[i].name@ == name;
                    assert(self.names()[i] == name);
                }
            }
            assert forall|i: int, j: int|
                0 <= i < self.names().len() && 0 <= j < self.names().len()
                    && i != j implies self.names()[i]
                != self.names()[j] by {
                if i < j {
                    assert(entries[i].name@ != entries[j].name@);
                } else {
                    assert(entries[j].name@ != entries[i].name@);
                }
            }
        }
        let mut names: Vec<String> = Vec::new();
        let mut i: usize = 0;
        while i < self.option_pointers.len()
            invariant
                0 <= i <= self.option_pointers@.len(),
                names@.len() == i,
                forall|j: int| 0 <= j < i
                    ==> (#[trigger] names@[j])@ == self.option_pointers@[j].name@,
            decreases self.option_pointers@.len() - i,
        {
            names.push(self.option_pointers[i].name.clone());
            i += 1;
        }
        assert(names.deep_view() =~= self.names());
        names
    }

    /// Takes in the record of an option that the host created. A record
    /// that was kept under the same name is reclaimed.
    fn insert(&mut self, name: String, pointers: ConfigOptionPointers)
        requires
            pointers.live(),
            pointers.plugin_address() == old(self).plugin_address(),
        ensures
            final(self).option_types() == old(self).option_types().insert(
                name@,
                pointers.type_tag(),
            ),
            final(self).option_callbacks() == old(self).option_callbacks().insert(
                name@,
                pointers.callbacks(),
            ),
            final(self).same_section(old(self)),
    {
        proof {
            use_type_invariant(&*self);
        }
        let found = self.position(name.as_str());
        let mut entries: Vec<OptionEntry> = Vec::new();
        std::mem::swap(&mut entries, &mut self.option_pointers);
        let ghost before = entries@;
        match found {
            Some(i) => {
                proof {
                    lemma_option_map_remove(before, i as int);
                    lemma_callback_map_remove(before, i as int);
                }
                let mut replaced = entries.remove(i);
                replaced.pointers.reclaim();
            },
            None => {},
        }
        let ghost kept = entries@;
        let entry = OptionEntry { name, pointers };
        proof {
            assert(option_map(kept) =~= option_map(before).remove(entry.name@));
            lemma_callback_map_keys(before, entry.name@);
            assert(callback_map(kept) =~= callback_map(before).remove(entry.name@));
            lemma_option_map_keys(kept, entry.name@);
            lemma_callback_map_keys(kept, entry.name@);
            assert(kept.push(entry).drop_last() =~= kept);
            assert(callback_map(kept.push(entry)) =~= callback_map(before).insert(
                entry.name@,
                entry.pointers.callbacks(),
            ));
            assert(kept.push(entry).drop_last() =~= kept);
            assert(option_map(kept.push(entry)) =~= option_map(before).insert(
                entry.name@,
                entry.pointers.type_tag(),
            ));
            assert(distinct_names(kept.push(entry))) by {
                assert forall|a: int, b: int| 0 <= a < b < kept.push(entry).len() implies (
                #[trigger] kept.push(entry)[a]).name@ != (#[trigger] kept.push(entry)[b]).name@ by {
                    if b < kept.len() {
                        assert(kept[a].name@ != kept[b].name@);
                    } else {
                        assert(kept[a].name@ != entry.name@);
                    }
                }
            }
        }
        entries.push(entry);
        self.option_pointers = entries;
    }
}


/// Two lists of entries with the same names and types, place by place, hold
/// the same options.
proof fn lemma_option_map_same(a: Seq<OptionEntry>, b: Seq<OptionEntry>)
    requires
        a.len() == b.len(),
        forall|i: int| 0 <= i < a.len() ==> (
            (#[trigger] a[i]).name@ == b[i].name@
            && a[i].pointers.type_tag() == b[i].pointers.type_tag()
        ),
    ensures
        option_map(a) == option_map(b),
        distinct_names(a) ==> distinct_names(b),
    decreases a.len(),
{
    if a.len() > 0 {
        assert(a[a.len() - 1].name@ == b[a.len() - 1].name@);
        lemma_option_map_same(a.drop_last(), b.drop_last());
    }
    if distinct_names(a) {
        assert forall|i: int, j: int| 0 <= i < j < b.len() implies (#[trigger] b[i]).name@ != (
        #[trigger] b[j]).name@ by {
            assert(a[i].name@ == b[i].name@);
            assert(a[j].name@ == b[j].name@);
        }
    }
}

/// Which callbacks the options of `entries` have, by name.
spec fn callback_map(entries: Seq<OptionEntry>) -> Map<Seq<char>, OptionCallbacks>
    decreases entries.len(),
{
    if entries.len() == 0 {
        Map::empty()
    } else {
        callback_map(entries.drop_last()).insert(
            entries.last().name@,
            entries.last().pointers.callbacks(),
        )
    }
}

/// A name has callbacks on record exactly if an entry has it.
proof fn lemma_callback_map_keys(entries: Seq<OptionEntry>, name: Seq<char>)
    ensures
        callback_map(entries).contains_key(name) <==> exists|i: int| 0 <= i < entries.len()
            && #[trigger] entries[i].name@ == name,
    decreases entries.len(),
{
    if entries.len() > 0 {
        let front = entries.drop_last();
        lemma_callback_map_keys(front, name);
        if callback_map(entries).contains_key(name) {
            if entries.last().name@ == name {
                assert(entries[entries.len() - 1].name@ == name);
            } else {
                let i = choose|i: int| 0 <= i < front.len() && #[trigger] front[i].name@ == name;
                assert(entries[i].name@ == name);
            }
        }
        if exists|i: int| 0 <= i < entries.len() && #[trigger] entries[i].name@ == name {
            let i = choose|i: int| 0 <= i < entries.len() && #[trigger] entries[i].name@ == name;
            if i < entries.len() - 1 {
                assert(front[i].name@ == name);
            }
        }
    }
}

/// Where names are distinct, the callbacks of each entry are found under
/// its name.
proof fn lemma_callback_map_entry(entries: Seq<OptionEntry>, i: int)
    requires
        distinct_names(entries),
        0 <= i < entries.len(),
    ensures
        callback_map(entries).contains_key(entries[i].name@),
        callback_map(entries)[entries[i].name@] == entries[i].pointers.callbacks(),
    decreases entries.len(),
{
    let front = entries.drop_last();
    if i < entries.len() - 1 {
        assert(distinct_names(front)) by {
            assert forall|a: int, b: int| 0 <= a < b < front.len() implies #[trigger] front[a].name@
                != #[trigger] front[b].name@ by {
                assert(entries[a].name@ != entries[b].name@);
            }
        }
        lemma_callback_map_entry(front, i);
        assert(entries[i].name@ != entries[entries.len() - 1].name@);
    }
}

/// Where names are distinct, taking an entry out takes its callbacks off
/// the record and leaves the rest.
proof fn lemma_callback_map_remove(entries: Seq<OptionEntry>, i: int)
    requires
        distinct_names(entries),
        0 <= i < entries.len(),
    ensures
        distinct_names(entries.remove(i)),
        callback_map(entries.remove(i)) == callback_map(entries).remove(entries[i].name@),
    decreases entries.len(),
{
    let rest = entries.remove(i);
    assert(distinct_names(rest)) by {
        assert forall|a: int, b: int| 0 <= a < b < rest.len() implies #[trigger] rest[a].name@
            != #[trigger] rest[b].name@ by {
            let a2 = if a < i { a } else { a + 1 };
            let b2 = if b < i { b } else { b + 1 };
            assert(entries[a2].name@ != entries[b2].name@);
        }
    }
    let front = entries.drop_last();
    if i == entries.len() - 1 {
        assert(rest =~= front);
        lemma_callback_map_keys(front, entries[i].name@);
        if callback_map(front).contains_key(entries[i].name@) {
            let k = choose|k: int| 0 <= k < front.len()
                && #[trigger] front[k].name@ == entries[i].name@;
            assert(entries[k].name@ != entries[i].name@);
        }
        assert(callback_map(front) =~= callback_map(entries).remove(entries[i].name@));
    } else {
        assert(distinct_names(front)) by {
            assert forall|a: int, b: int| 0 <= a < b < front.len() implies #[trigger] front[a].name@
                != #[trigger] front[b].name@ by {
                assert(entries[a].name@ != entries[b].name@);
            }
        }
        lemma_callback_map_remove(front, i);
        assert(rest.drop_last() =~= front.remove(i));
        assert(rest.last() == entries.last());
        assert(entries[i].name@ != entries[entries.len() - 1].name@);
        assert(callback_map(rest) =~= callback_map(entries).remove(entries[i].name@));
    }
}

/// Two lists of entries with the same names and callbacks, place by place,
/// have the same callbacks on record.
proof fn lemma_callback_map_same(a: Seq<OptionEntry>, b: Seq<OptionEntry>)
    requires
        a.len() == b.len(),
        forall|i: int| 0 <= i < a.len() ==> (
            (#[trigger] a[i]).name@ == b[i].name@
            && a[i].pointers.callbacks() == b[i].pointers.callbacks()
        ),
    ensures
        callback_map(a) == callback_map(b),
    decreases a.len(),
{
    if a.len() > 0 {
        assert(a[a.len() - 1].name@ == b[a.len() - 1].name@);
        lemma_callback_map_same(a.drop_last(), b.drop_last());
    }
}

impl<'a> ConfigOption<'a> {
    /// Wraps the native option at `option_ptr` in the handle of its type.
    pub fn from_ptrs(
        option_type: OptionType,
        option_ptr: Address,
        weechat_ptr: Address,
    ) -> (option: ConfigOption<'a>)
        requires
            option_ptr != 0,
            weechat_ptr != 0,
        ensures
            option.type_tag() == option_type,
            option.option_address() == option_ptr,
            option.plugin_address() == weechat_ptr,
    {
        match option_type {
            OptionType::Boolean => ConfigOption::Boolean(
                BooleanOption::from_ptrs(option_ptr, weechat_ptr),
            ),
            OptionType::Integer => ConfigOption::Integer(
                IntegerOption::from_ptrs(option_ptr, weechat_ptr),
            ),
            OptionType::String => ConfigOption::String(
                StringOption::from_ptrs(option_ptr, weechat_ptr),
            ),
            OptionType::Color => ConfigOption::Color(
                ColorOption::from_ptrs(option_ptr, weechat_ptr),
            ),
            OptionType::Enum => ConfigOption::Enum(EnumOption::from_ptrs(option_ptr, weechat_ptr)),
        }
    }
}

impl ConfigSection {
    /// The call that looks an option of this section up by its name.
    pub fn search_option_call(
        &self,
        runtime: &Runtime,
        current: ThreadId,
        option_name: &str,
    ) -> (call: Result<NativeCall, Fault>)
        ensures
            call is Ok <==> runtime.admits(current),
            call matches Ok(built) ==> (
                built matches NativeCall::ConfigSearchOption { config, section, name }
                    && config == self.config_address()
                    && section == self.address()
                    && name@ == native_string(option_name@)
            ),
            call matches Err(fault) ==> Some(fault) == runtime.refusal(current),
    {
        runtime.clear_call(
            current,
            NativeCall::ConfigSearchOption {
                config: self.config_ptr,
                section: self.ptr,
                name: LossyCString::new(option_name),
            },
        )
    }

    /// Search for an option in this section, from the host's answers: the
    /// address it found, and the name of the type of the option at that
    /// address. Nothing was found if the address is null.
    pub fn search_option(
        &self,
        option_ptr: Address,
        option_type: &str,
    ) -> (found: Option<ConfigOption<'_>>)
        requires
            option_ptr != 0 ==> OptionType::is_native_name(option_type@),
        ensures
            found is Some <==> option_ptr != 0,
            found matches Some(option) ==> (
                option.option_address() == option_ptr
                && option.plugin_address() == self.plugin_address()
                && Some(option.type_tag()) == OptionType::from_native_name(option_type@)
            ),
    {
        proof {
            use_type_invariant(self);
        }
        if option_ptr == 0 {
            return None;
        }
        Some(Config::option_from_type_and_ptr(self.weechat_ptr, option_ptr, option_type))
    }

    /// Get the config options of this section, from the host's answers to
    /// the lookup of each name of [`Self::option_names`], in that order.
    pub fn options(&self, answers: &Vec<(Address, String)>) -> (options: Vec<ConfigOption<'_>>)
        requires
            answers@.len() == self.names().len(),
            forall|i: int| 0 <= i < answers@.len() ==> (
                (#[trigger] answers@[i]).0 != 0
                && OptionType::is_native_name(answers@[i].1@)
            ),
        ensures
            options@.len() == answers@.len(),
            forall|i: int| 0 <= i < options@.len() ==> (
                (#[trigger] options@[i]).option_address() == answers@[i].0
                && options@[i].plugin_address() == self.plugin_address()
                && Some(options@[i].type_tag()) == OptionType::from_native_name(answers@[i].1@)
            ),
    {
        proof {
            use_type_invariant(self);
        }
        let mut options: Vec<ConfigOption<'_>> = Vec::new();
        let mut i: usize = 0;
        while i < answers.len()
            invariant
                0 <= i <= answers@.len(),
                options@.len() == i,
                self.weechat_ptr != 0,
                self.weechat_ptr == self.plugin_address(),
                forall|j: int|
                    0 <= j < answers@.len() ==> (#[trigger] answers@[j]).0 != 0
                        && OptionType::is_native_name(answers@[j].1@),
                forall|j: int|
                    0 <= j < i ==> (#[trigger] options@[j]).option_address() == answers@[j].0
                        && options@[j].plugin_address() == self.plugin_address() && Some(
                        options@[j].type_tag(),
                    ) == OptionType::from_native_name(answers@[j].1@),
            decreases answers@.len() - i,
        {
            let option = Config::option_from_type_and_ptr(
                self.weechat_ptr,
                answers[i].0,
                answers[i].1.as_str(),
            );
            options.push(option);
            i += 1;
        }
        options
    }

    /// Free a config option that belongs to this section: gives back its
    /// callback record and returns the call that frees the native option,
    /// which the host found at `option_ptr`. Only the owning thread can free
    /// an option: for any other nothing happens.
    ///
    /// Returns an Err if the option can't be found in this section.
    pub fn free_option(
        &mut self,
        runtime: &Runtime,
        current: ThreadId,
        option_name: &str,
        option_ptr: Address,
    ) -> (freed: Result<Result<NativeCall, ()>, Fault>)
        requires
            old(self).has_option(option_name@) ==> option_ptr != 0,
        ensures
            freed is Ok <==> runtime.admits(current),
            freed matches Ok(found) ==> (found is Ok <==> old(self).has_option(option_name@)),
            freed matches Ok(Ok(call)) ==> (
                call == (NativeCall::ConfigOptionFree { option: option_ptr })
                && final(self).option_types() == old(self).option_types().remove(option_name@)
                && final(self).option_callbacks() == old(self).option_callbacks().remove(
                    option_name@,
                )
            ),
            !(freed matches Ok(Ok(_))) ==> (
                final(self).option_types() == old(self).option_types()
                && final(self).option_callbacks() == old(self).option_callbacks()
            ),
            freed matches Err(fault) ==> Some(fault) == runtime.refusal(current),
            freed is Ok ==> !final(self).has_option(option_name@),
            final(self).same_section(old(self)),
    {
        proof {
            use_type_invariant(&*self);
        }
        let call = match runtime.clear_call(
            current,
            NativeCall::ConfigOptionFree { option: option_ptr },
        ) {
            Ok(call) => call,
            Err(fault) => {
                return Err(fault);
            },
        };
        match self.position(option_name) {
            None => Ok(Err(())),
            Some(i) => {
                let mut entries: Vec<OptionEntry> = Vec::new();
                std::mem::swap(&mut entries, &mut self.option_pointers);
                proof {
                    lemma_option_map_remove(entries@, i as int);
                    lemma_callback_map_remove(entries@, i as int);
                }
                let mut removed = entries.remove(i);
                removed.pointers.reclaim();
                self.option_pointers = entries;
                Ok(Ok(call))
            },
        }
    }

    /// The call that creates an option as described. A trampoline is
    /// registered for each callback that is there, and for no other.
    pub fn new_option_call<T: ConfigOptions>(
        &self,
        runtime: &Runtime,
        current: ThreadId,
        option_description: &OptionDescription,
        check_cb: &Option<Box<dyn OptionCheckCallback<T>>>,
        change_cb: &Option<Box<dyn OptionCallback<T>>>,
        delete_cb: &Option<Box<dyn OptionCallback<T>>>,
    ) -> (call: Result<NativeCall, Fault>)
        ensures
            call is Ok <==> runtime.admits(current),
            call matches Ok(built) ==> (
                built matches NativeCall::ConfigNewOption {
                    config: c,
                    section: s,
                    name: n,
                    option_type: t,
                    description: d,
                    string_values: sv,
                    min: lo,
                    max: hi,
                    default_value: dv,
                    value: v,
                    null_allowed: na,
                    check: ck,
                    change: ch,
                    delete: del,
                }
                    && c == self.config_address()
                    && s == self.address()
                    && n@ == native_string(option_description.name@)
                    && t@ == native_string(option_description.option_type.native_name())
                    && d@ == native_string(option_description.description@)
                    && sv@ == native_string(option_description.string_values@)
                    && lo == option_description.min
                    && hi == option_description.max
                    && dv@ == option_description.default_value@
                    && v@ == option_description.value@
                    && na == option_description.null_allowed
                    && ck == check_cb is Some
                    && ch == change_cb is Some
                    && del == delete_cb is Some
            ),
            call matches Err(fault) ==> Some(fault) == runtime.refusal(current),
    {
        runtime.clear_call(
            current,
            NativeCall::ConfigNewOption {
                config: self.config_ptr,
                section: self.ptr,
                name: LossyCString::new(option_description.name),
                option_type: LossyCString::new(option_description.option_type.as_str()),
                description: LossyCString::new(option_description.description),
                string_values: LossyCString::new(option_description.string_values),
                min: option_description.min,
                max: option_description.max,
                default_value: option_description.default_value.clone(),
                value: option_description.value.clone(),
                null_allowed: option_description.null_allowed,
                check: check_cb.is_some(),
                change: change_cb.is_some(),
                delete: delete_cb.is_some(),
            },
        )
    }

    /// Makes the callback record of an option that the host was asked to
    /// create, from the host's answer. If the host refused (a null
    /// address), the record is reclaimed at once; otherwise it is
    /// registered.
    pub fn new_option<T: ConfigOptions>(
        &self,
        option_ptr: Address,
        check_cb: Option<Box<dyn OptionCheckCallback<T>>>,
        change_cb: Option<Box<dyn OptionCallback<T>>>,
        delete_cb: Option<Box<dyn OptionCallback<T>>>,
    ) -> (created: Option<(Address, CallbackContext<OptionPointers<T>>)>)
        ensures
            created is Some <==> option_ptr != 0,
            created matches Some(pair) ==> (
                pair.0 == option_ptr
                && pair.1.state() == ContextState::Registered
                && pair.1.record() is Some
                && pair.1.record()->0.plugin_address() == self.plugin_address()
                && self.plugin_address() != 0
                && pair.1.record()->0.has_check() == check_cb is Some
                && pair.1.record()->0.has_change() == change_cb is Some
                && pair.1.record()->0.has_delete() == delete_cb is Some
            ),
    {
        proof {
            use_type_invariant(self);
        }
        let option_pointers = OptionPointers::new(self.weechat_ptr, check_cb, change_cb, delete_cb);
        let mut context = CallbackContext::allocate(option_pointers);
        if option_ptr == 0 {
            context.reclaim();
            None
        } else {
            context.register();
            Some((option_ptr, context))
        }
    }
}


impl ConfigSection {
    /// The call that creates a boolean option as `settings` describe it.
    pub fn new_boolean_option_call(
        &self,
        runtime: &Runtime,
        current: ThreadId,
        settings: &BooleanOptionSettings,
    ) -> (call: Result<NativeCall, Fault>)
        ensures
            call is Ok <==> runtime.admits(current),
            call matches Ok(built) ==> (
                is_new_option(
                    built,
                    self.config_address(),
                    self.address(),
                    settings.name_text(),
                    OptionType::Boolean,
                    settings.description_text(),
                    ""@,
                    (0i32, 0i32),
                    native_string(boolean_text(settings.default())),
                    (false, settings.has_change()),
                )
            ),
            call matches Err(fault) ==> Some(fault) == runtime.refusal(current),
    {
        proof {
            settings.lemma_fields();
            reveal_strlit("");
            reveal_strlit("on");
            reveal_strlit("off");
        }
        let value = if settings.default_value {
            "on"
        } else {
            "off"
        };
        let no_check: Option<Box<dyn OptionCheckCallback<BooleanOption<'static>>>> = None;
        let no_delete: Option<Box<dyn OptionCallback<BooleanOption<'static>>>> = None;
        let default_value = LossyCString::new(value);
        let value = default_value.clone();
        self.new_option_call(
            runtime,
            current,
            &OptionDescription {
                name: settings.name.as_str(),
                option_type: OptionType::Boolean,
                description: settings.description.as_str(),
                string_values: "",
                min: 0,
                max: 0,
                default_value,
                value,
                null_allowed: false,
            },
            &no_check,
            &settings.change_cb,
            &no_delete,
        )
    }

    /// Create a new boolean Weechat configuration option, from the host's
    /// answer to [`Self::new_boolean_option_call`].
    ///
    /// Returns an error if the option couldn't be created, e.g. if a option
    /// with the same name already exists: the host then answers with a null
    /// address, the callbacks of `settings` are dropped and the section stays
    /// as it was.
    pub fn new_boolean_option(
        &mut self,
        settings: BooleanOptionSettings,
        option_ptr: Address,
    ) -> (created: Result<BooleanOption<'_>, ()>)
        ensures
            created is Ok <==> option_ptr != 0,
            created matches Ok(option) ==> (
                option.option_address() == option_ptr
                && option.plugin_address() == old(self).plugin_address()
                && final(self).option_types() == old(self).option_types().insert(
                    settings.name_text(),
                    OptionType::Boolean,
                )
                && final(self).option_callbacks() == old(self).option_callbacks().insert(
                    settings.name_text(),
                    (OptionCallbacks {
                        check: false,
                        change: settings.has_change(),
                        delete: false,
                    }),
                )
            ),
            created is Err ==> (
                final(self).option_types() == old(self).option_types()
                && final(self).option_callbacks() == old(self).option_callbacks()
            ),
            final(self).same_section(old(self)),
    {
        proof {
            settings.lemma_fields();
        }
        let ret = self.new_option::<BooleanOption<'static>>(
            option_ptr,
            None,
            settings.change_cb,
            None,
        );
        let (ptr, option_pointers) = match ret {
            Some(created) => created,
            None => {
                return Err(());
            },
        };
        let weechat_ptr = self.weechat_ptr;
        proof {
            use_type_invariant(&*self);
        }
        self.insert(settings.name, ConfigOptionPointers::Boolean(option_pointers));
        Ok(BooleanOption::from_ptrs(ptr, weechat_ptr))
    }

    /// The call that creates an integer option as `settings` describe it.
    pub fn new_integer_option_call(
        &self,
        runtime: &Runtime,
        current: ThreadId,
        settings: &IntegerOptionSettings,
    ) -> (call: Result<NativeCall, Fault>)
        ensures
            call is Ok <==> runtime.admits(current),
            call matches Ok(built) ==> (
                is_new_option(
                    built,
                    self.config_address(),
                    self.address(),
                    settings.name_text(),
                    OptionType::Integer,
                    settings.description_text(),
                    ""@,
                    (settings.minimum(), settings.maximum()),
                    decimal(settings.default() as int),
                    (settings.has_check(), settings.has_change()),
                )
            ),
            call matches Err(fault) ==> Some(fault) == runtime.refusal(current),
    {
        proof {
            settings.lemma_fields();
        }
        let no_delete: Option<Box<dyn OptionCallback<IntegerOption<'static>>>> = None;
        let default_value = decimal_bytes(settings.default_value);
        let value = default_value.clone();
        self.new_option_call(
            runtime,
            current,
            &OptionDescription {
                name: settings.name.as_str(),
                option_type: OptionType::Integer,
                description: settings.description.as_str(),
                string_values: "",
                min: settings.min,
                max: settings.max,
                default_value,
                value,
                null_allowed: false,
            },
            &settings.check_cb,
            &settings.change_cb,
            &no_delete,
        )
    }

    /// Create a new integer Weechat configuration option, from the host's
    /// answer to [`Self::new_integer_option_call`].
    ///
    /// Returns an error if the option couldn't be created, e.g. if a option
    /// with the same name already exists: the host then answers with a null
    /// address, the callbacks of `settings` are dropped and the section stays
    /// as it was.
    pub fn new_integer_option(
        &mut self,
        settings: IntegerOptionSettings,
        option_ptr: Address,
    ) -> (created: Result<IntegerOption<'_>, ()>)
        ensures
            created is Ok <==> option_ptr != 0,
            created matches Ok(option) ==> (
                option.option_address() == option_ptr
                && option.plugin_address() == old(self).plugin_address()
                && final(self).option_types() == old(self).option_types().insert(
                    settings.name_text(),
                    OptionType::Integer,
                )
                && final(self).option_callbacks() == old(self).option_callbacks().insert(
                    settings.name_text(),
                    (OptionCallbacks {
                        check: settings.has_check(),
                        change: settings.has_change(),
                        delete: false,
                    }),
                )
            ),
            created is Err ==> (
                final(self).option_types() == old(self).option_types()
                && final(self).option_callbacks() == old(self).option_callbacks()
            ),
            final(self).same_section(old(self)),
    {
        proof {
            settings.lemma_fields();
        }
        let ret = self.new_option::<IntegerOption<'static>>(
            option_ptr,
            settings.check_cb,
            settings.change_cb,
            None,
        );
        let (ptr, option_pointers) = match ret {
            Some(created) => created,
            None => {
                return Err(());
            },
        };
        let weechat_ptr = self.weechat_ptr;
        proof {
            use_type_invariant(&*self);
        }
        self.insert(settings.name, ConfigOptionPointers::Integer(option_pointers));
        Ok(IntegerOption::from_ptrs(ptr, weechat_ptr))
    }

    /// The call that creates a string option as `settings` describe it.
    pub fn new_string_option_call(
        &self,
        runtime: &Runtime,
        current: ThreadId,
        settings: &StringOptionSettings,
    ) -> (call: Result<NativeCall, Fault>)
        ensures
            call is Ok <==> runtime.admits(current),
            call matches Ok(built) ==> (
                is_new_option(
                    built,
                    self.config_address(),
                    self.address(),
                    settings.name_text(),
                    OptionType::String,
                    settings.description_text(),
                    ""@,
                    (0i32, 0i32),
                    native_string(settings.default()),
                    (settings.has_check(), settings.has_change()),
                )
            ),
            call matches Err(fault) ==> Some(fault) == runtime.refusal(current),
    {
        proof {
            settings.lemma_fields();
        }
        let no_delete: Option<Box<dyn OptionCallback<StringOption<'static>>>> = None;
        let default_value = LossyCString::new(settings.default_value.as_str());
        let value = default_value.clone();
        self.new_option_call(
            runtime,
            current,
            &OptionDescription {
                name: settings.name.as_str(),
                option_type: OptionType::String,
                description: settings.description.as_str(),
                string_values: "",
                min: 0,
                max: 0,
                default_value,
                value,
                null_allowed: false,
            },
            &settings.check_cb,
            &settings.change_cb,
            &no_delete,
        )
    }

    /// Create a new string Weechat configuration option, from the host's
    /// answer to [`Self::new_string_option_call`].
    ///
    /// Returns an error if the option couldn't be created, e.g. if a option
    /// with the same name already exists: the host then answers with a null
    /// address, the callbacks of `settings` are dropped and the section stays
    /// as it was.
    pub fn new_string_option(
        &mut self,
        settings: StringOptionSettings,
        option_ptr: Address,
    ) -> (created: Result<StringOption<'_>, ()>)
        ensures
            created is Ok <==> option_ptr != 0,
            created matches Ok(option) ==> (
                option.option_address() == option_ptr
                && option.plugin_address() == old(self).plugin_address()
                && final(self).option_types() == old(self).option_types().insert(
                    settings.name_text(),
                    OptionType::String,
                )
                && final(self).option_callbacks() == old(self).option_callbacks().insert(
                    settings.name_text(),
                    (OptionCallbacks {
                        check: settings.has_check(),
                        change: settings.has_change(),
                        delete: false,
                    }),
                )
            ),
            created is Err ==> (
                final(self).option_types() == old(self).option_types()
                && final(self).option_callbacks() == old(self).option_callbacks()
            ),
            final(self).same_section(old(self)),
    {
        proof {
            settings.lemma_fields();
        }
        let ret = self.new_option::<StringOption<'static>>(
            option_ptr,
            settings.check_cb,
            settings.change_cb,
            None,
        );
        let (ptr, option_pointers) = match ret {
            Some(created) => created,
            None => {
                return Err(());
            },
        };
        let weechat_ptr = self.weechat_ptr;
        proof {
            use_type_invariant(&*self);
        }
        self.insert(settings.name, ConfigOptionPointers::String(option_pointers));
        Ok(StringOption::from_ptrs(ptr, weechat_ptr))
    }

    /// The call that creates a color option as `settings` describe it.
    pub fn new_color_option_call(
        &self,
        runtime: &Runtime,
        current: ThreadId,
        settings: &ColorOptionSettings,
    ) -> (call: Result<NativeCall, Fault>)
        ensures
            call is Ok <==> runtime.admits(current),
            call matches Ok(built) ==> (
                is_new_option(
                    built,
                    self.config_address(),
                    self.address(),
                    settings.name_text(),
                    OptionType::Color,
                    settings.description_text(),
                    ""@,
                    (0i32, 0i32),
                    native_string(settings.default()),
                    (settings.has_check(), settings.has_change()),
                )
            ),
            call matches Err(fault) ==> Some(fault) == runtime.refusal(current),
    {
        proof {
            settings.lemma_fields();
        }
        let no_delete: Option<Box<dyn OptionCallback<ColorOption<'static>>>> = None;
        let default_value = LossyCString::new(settings.default_value.as_str());
        let value = default_value.clone();
        self.new_option_call(
            runtime,
            current,
            &OptionDescription {
                name: settings.name.as_str(),
                option_type: OptionType::Color,
                description: settings.description.as_str(),
                string_values: "",
                min: 0,
                max: 0,
                default_value,
                value,
                null_allowed: false,
            },
            &settings.check_cb,
            &settings.change_cb,
            &no_delete,
        )
    }

    /// Create a new color Weechat configuration option, from the host's
    /// answer to [`Self::new_color_option_call`].
    ///
    /// Returns an error if the option couldn't be created, e.g. if a option
    /// with the same name already exists: the host then answers with a null
    /// address, the callbacks of `settings` are dropped and the section stays
    /// as it was.
    pub fn new_color_option(
        &mut self,
        settings: ColorOptionSettings,
        option_ptr: Address,
    ) -> (created: Result<ColorOption<'_>, ()>)
        ensures
            created is Ok <==> option_ptr != 0,
            created matches Ok(option) ==> (
                option.option_address() == option_ptr
                && option.plugin_address() == old(self).plugin_address()
                && final(self).option_types() == old(self).option_types().insert(
                    settings.name_text(),
                    OptionType::Color,
                )
                && final(self).option_callbacks() == old(self).option_callbacks().insert(
                    settings.name_text(),
                    (OptionCallbacks {
                        check: settings.has_check(),
                        change: settings.has_change(),
                        delete: false,
                    }),
                )
            ),
            created is Err ==> (
                final(self).option_types() == old(self).option_types()
                && final(self).option_callbacks() == old(self).option_callbacks()
            ),
            final(self).same_section(old(self)),
    {
        proof {
            settings.lemma_fields();
        }
        let ret = self.new_option::<ColorOption<'static>>(
            option_ptr,
            settings.check_cb,
            settings.change_cb,
            None,
        );
        let (ptr, option_pointers) = match ret {
            Some(created) => created,
            None => {
                return Err(());
            },
        };
        let weechat_ptr = self.weechat_ptr;
        proof {
            use_type_invariant(&*self);
        }
        self.insert(settings.name, ConfigOptionPointers::Color(option_pointers));
        Ok(ColorOption::from_ptrs(ptr, weechat_ptr))
    }

    /// The call that creates an enum option as `settings` describe it.
    pub fn new_enum_option_call(
        &self,
        runtime: &Runtime,
        current: ThreadId,
        settings: &EnumOptionSettings,
    ) -> (call: Result<NativeCall, Fault>)
        ensures
            call is Ok <==> runtime.admits(current),
            call matches Ok(built) ==> (
                is_new_option(
                    built,
                    self.config_address(),
                    self.address(),
                    settings.name_text(),
                    OptionType::Enum,
                    settings.description_text(),
                    settings.values_text(),
                    (settings.minimum(), settings.maximum()),
                    decimal(settings.default() as int),
                    (settings.has_check(), settings.has_change()),
                )
            ),
            call matches Err(fault) ==> Some(fault) == runtime.refusal(current),
    {
        proof {
            settings.lemma_fields();
        }
        let no_delete: Option<Box<dyn OptionCallback<EnumOption<'static>>>> = None;
        let default_value = decimal_bytes(settings.default_value);
        let value = default_value.clone();
        self.new_option_call(
            runtime,
            current,
            &OptionDescription {
                name: settings.name.as_str(),
                option_type: OptionType::Enum,
                description: settings.description.as_str(),
                string_values: settings.string_values.as_str(),
                min: settings.min,
                max: settings.max,
                default_value,
                value,
                null_allowed: false,
            },
            &settings.check_cb,
            &settings.change_cb,
            &no_delete,
        )
    }

    /// Create a new enum Weechat configuration option, from the host's
    /// answer to [`Self::new_enum_option_call`].
    ///
    /// Returns an error if the option couldn't be created, e.g. if a option
    /// with the same name already exists: the host then answers with a null
    /// address, the callbacks of `settings` are dropped and the section stays
    /// as it was.
    pub fn new_enum_option(
        &mut self,
        settings: EnumOptionSettings,
        option_ptr: Address,
    ) -> (created: Result<EnumOption<'_>, ()>)
        ensures
            created is Ok <==> option_ptr != 0,
            created matches Ok(option) ==> (
                option.option_address() == option_ptr
                && option.plugin_address() == old(self).plugin_address()
                && final(self).option_types() == old(self).option_types().insert(
                    settings.name_text(),
                    OptionType::Enum,
                )
                && final(self).option_callbacks() == old(self).option_callbacks().insert(
                    settings.name_text(),
                    (OptionCallbacks {
                        check: settings.has_check(),
                        change: settings.has_change(),
                        delete: false,
                    }),
                )
            ),
            created is Err ==> (
                final(self).option_types() == old(self).option_types()
                && final(self).option_callbacks() == old(self).option_callbacks()
            ),
            final(self).same_section(old(self)),
    {
        proof {
            settings.lemma_fields();
        }
        let ret = self.new_option::<EnumOption<'static>>(
            option_ptr,
            settings.check_cb,
            settings.change_cb,
            None,
        );
        let (ptr, option_pointers) = match ret {
            Some(created) => created,
            None => {
                return Err(());
            },
        };
        let weechat_ptr = self.weechat_ptr;
        proof {
            use_type_invariant(&*self);
        }
        self.insert(settings.name, ConfigOptionPointers::Enum(option_pointers));
        Ok(EnumOption::from_ptrs(ptr, weechat_ptr))
    }

    /// The host asks whether the option of that name, which it has at
    /// `option_pointer`, may take `value`. The option's check callback decides;
    /// without one the value is accepted. The answer is the status for the
    /// host: 1 to accept, 0 to refuse.
    pub fn on_option_check(
        &mut self,
        option_name: &str,
        option_pointer: Address,
        value: &[u8],
    ) -> (status: Result<i32, Fault>)
        requires
            option_pointer != 0,
        ensures
            status is Ok <==> old(self).has_option(option_name@),
            status matches Ok(code) ==> code == 0 || code == 1,
            status matches Ok(code) ==> (
                !old(self).option_callbacks()[option_name@].check ==> code == 1
            ),
            status matches Err(fault) ==> fault == Fault::StaleContext,
            final(self).option_types() == old(self).option_types(),
            final(self).option_callbacks() == old(self).option_callbacks(),
            final(self).same_section(old(self)),
    {
        proof {
            use_type_invariant(&*self);
        }
        match self.position(option_name) {
            None => Err(Fault::StaleContext),
            Some(i) => {
                let mut entries: Vec<OptionEntry> = Vec::new();
                std::mem::swap(&mut entries, &mut self.option_pointers);
                let ghost before = entries@;
                proof {
                    lemma_callback_map_entry(before, i as int);
                }
                let answer = entries[i].pointers.check(option_pointer, value);
                proof {
                    lemma_option_map_same(before, entries@);
                    lemma_callback_map_same(before, entries@);
                }
                self.option_pointers = entries;
                match answer {
                    Some(code) => Ok(code),
                    None => Err(Fault::StaleContext),
                }
            },
        }
    }

    /// The host reports that the option of that name, which it has at
    /// `option_pointer`, changed. Answers whether a change callback ran.
    pub fn on_option_change(
        &mut self,
        option_name: &str,
        option_pointer: Address,
    ) -> (ran: Result<bool, Fault>)
        requires
            option_pointer != 0,
        ensures
            ran is Ok <==> old(self).has_option(option_name@),
            ran matches Ok(r) ==> r == old(self).option_callbacks()[option_name@].change,
            ran matches Err(fault) ==> fault == Fault::StaleContext,
            final(self).option_types() == old(self).option_types(),
            final(self).option_callbacks() == old(self).option_callbacks(),
            final(self).same_section(old(self)),
    {
        proof {
            use_type_invariant(&*self);
        }
        match self.position(option_name) {
            None => Err(Fault::StaleContext),
            Some(i) => {
                let mut entries: Vec<OptionEntry> = Vec::new();
                std::mem::swap(&mut entries, &mut self.option_pointers);
                let ghost before = entries@;
                proof {
                    lemma_callback_map_entry(before, i as int);
                }
                let answer = entries[i].pointers.change(option_pointer);
                proof {
                    lemma_option_map_same(before, entries@);
                    lemma_callback_map_same(before, entries@);
                }
                self.option_pointers = entries;
                match answer {
                    Some(ran) => Ok(ran),
                    None => Err(Fault::StaleContext),
                }
            },
        }
    }

    /// The host reports that it is deleting the option of that name, which
    /// it has at `option_pointer`. The delete callback runs if there is one,
    /// and the callback record is given back: nothing can be called through
    /// it afterwards. Answers whether a delete callback ran.
    pub fn on_option_delete(
        &mut self,
        option_name: &str,
        option_pointer: Address,
    ) -> (ran: Result<bool, Fault>)
        requires
            option_pointer != 0,
        ensures
            ran is Ok <==> old(self).has_option(option_name@),
            ran matches Ok(r) ==> r == old(self).option_callbacks()[option_name@].delete,
            ran matches Err(fault) ==> fault == Fault::StaleContext,
            final(self).option_types() == old(self).option_types().remove(option_name@),
            final(self).option_callbacks() == old(self).option_callbacks().remove(option_name@),
            !final(self).has_option(option_name@),
            final(self).same_section(old(self)),
    {
        proof {
            use_type_invariant(&*self);
        }
        match self.position(option_name) {
            None => {
                proof {
                    lemma_callback_map_keys(self.option_pointers@, option_name@);
                }
                assert(self.option_types().remove(option_name@) =~= self.option_types());
                assert(self.option_callbacks().remove(option_name@) =~= self.option_callbacks());
                Err(Fault::StaleContext)
            },
            Some(i) => {
                let mut entries: Vec<OptionEntry> = Vec::new();
                std::mem::swap(&mut entries, &mut self.option_pointers);
                proof {
                    lemma_option_map_remove(entries@, i as int);
                    lemma_callback_map_remove(entries@, i as int);
                    lemma_callback_map_entry(entries@, i as int);
                }
                let mut removed = entries.remove(i);
                let answer = removed.pointers.delete(option_pointer);
                removed.pointers.reclaim();
                self.option_pointers = entries;
                match answer {
                    Some(ran) => Ok(ran),
                    None => Err(Fault::StaleContext),
                }
            },
        }
    }

    /// Frees the section: gives back the callback record of every option,
    /// each exactly once, and returns the calls that free the options and
    /// then the section on the host's side, with the number of records that
    /// were given back.
    pub(crate) fn free(self) -> (released: (Vec<NativeCall>, usize))
        ensures
            released.0@ == seq![
                NativeCall::ConfigSectionFreeOptions { section: self.address() },
                NativeCall::ConfigSectionFree { section: self.address() },
            ],
            released.1 == self.names().len(),
    {
        proof {
            use_type_invariant(&self);
        }
        let mut section = self;
        let mut entries: Vec<OptionEntry> = Vec::new();
        std::mem::swap(&mut entries, &mut section.option_pointers);
        let total: usize = entries.len();
        let mut records: usize = 0;
        while entries.len() > 0
            invariant
                entries@.len() + records == total,
                forall|i: int| 0 <= i < entries@.len() ==> (#[trigger] entries@[i]).pointers.live(),
            decreases entries@.len(),
        {
            let popped = entries.pop();
            match popped {
                Some(mut entry) => {
                    let released = entry.pointers.reclaim();
                    assert(released);
                    records += 1;
                },
                None => {},
            }
        }
        let mut calls: Vec<NativeCall> = Vec::new();
        calls.push(NativeCall::ConfigSectionFreeOptions { section: section.ptr });
        calls.push(NativeCall::ConfigSectionFree { section: section.ptr });
        assert(calls@ =~= seq![
            NativeCall::ConfigSectionFreeOptions { section: self.address() },
            NativeCall::ConfigSectionFree { section: self.address() },
        ]);
        (calls, records)
    }
}

} // verus!

//! What every configuration option has in common: its type tag, the calls
//! that do not depend on the type, and the record of its callbacks.

use vstd::prelude::*;

use crate::config::config::OptionChanged;
use crate::native::{Address, Fault, NativeCall, ThreadId};
use crate::text::{
    decode_lossy, decoded, lemma_plain_text_round_trip, native_string, same_text, LossyCString,
};
use vstd::utf8::is_ascii_chars;
use crate::weechat::{Runtime, Weechat};

verus! {

/// The type of a configuration option.
#[derive(Debug, PartialEq, Eq, Clone, Copy, Structural)]
pub enum OptionType {
    Boolean,
    Integer,
    String,
    Color,
    Enum,
}

impl OptionType {
    /// The name under which the host knows this option type.
    pub open spec fn native_name(self) -> Seq<char> {
        match self {
            OptionType::Boolean => "boolean"@,
            OptionType::Integer => "integer"@,
            OptionType::String => "string"@,
            OptionType::Color => "color"@,
            OptionType::Enum => "enum"@,
        }
    }

    /// The option type that the host knows under `name`, if there is one.
    pub open spec fn from_native_name(name: Seq<char>) -> Option<OptionType> {
        if name == "boolean"@ {
            Some(OptionType::Boolean)
        } else if name == "integer"@ {
            Some(OptionType::Integer)
        } else if name == "string"@ {
            Some(OptionType::String)
        } else if name == "color"@ {
            Some(OptionType::Color)
        } else if name == "enum"@ {
            Some(OptionType::Enum)
        } else {
            None
        }
    }

    /// Whether the host knows an option type under `name`.
    pub open spec fn is_native_name(name: Seq<char>) -> bool {
        Self::from_native_name(name) is Some
    }

    /// Returns the name under which the host knows this option type.
    pub fn as_str(&self) -> (name: &'static str)
        ensures
            name@ == self.native_name(),
    {
        match self {
            OptionType::Boolean => "boolean",
            OptionType::Integer => "integer",
            OptionType::String => "string",
            OptionType::Color => "color",
            OptionType::Enum => "enum",
        }
    }

    /// Reads the name of an option type as the host reports it. This is the
    /// one place where a string decides the type of an option.
    pub fn try_from(value: &str) -> (parsed: Result<OptionType, &'static str>)
        ensures
            parsed is Ok <==> Self::is_native_name(value@),
            parsed is Ok ==> Some(parsed->Ok_0) == Self::from_native_name(value@),
            parsed is Ok ==> parsed->Ok_0.native_name() == value@,
            parsed is Err ==> parsed->Err_0@ == "Invalid option type"@,
    {
        if same_text(value, "boolean") {
            Ok(OptionType::Boolean)
        } else if same_text(value, "integer") {
            Ok(OptionType::Integer)
        } else if same_text(value, "string") {
            Ok(OptionType::String)
        } else if same_text(value, "color") {
            Ok(OptionType::Color)
        } else if same_text(value, "enum") {
            Ok(OptionType::Enum)
        } else {
            Err("Invalid option type")
        }
    }
}

/// The names of the five option types are five different strings.
pub proof fn lemma_native_names_differ(a: OptionType, b: OptionType)
    ensures
        a.native_name() == b.native_name() <==> a == b,
{
    reveal_strlit("boolean");
    reveal_strlit("integer");
    reveal_strlit("string");
    reveal_strlit("color");
    reveal_strlit("enum");
    if a != b && a.native_name() == b.native_name() {
        assert(a.native_name().len() == b.native_name().len());
        assert(a.native_name()[0] == b.native_name()[0]);
    }
}

/// Reading the name that a type is written as gives the type back.
pub proof fn lemma_option_type_round_trip(option_type: OptionType)
    ensures
        OptionType::from_native_name(option_type.native_name()) == Some(option_type),
{
    lemma_native_names_differ(option_type, OptionType::Boolean);
    lemma_native_names_differ(option_type, OptionType::Integer);
    lemma_native_names_differ(option_type, OptionType::String);
    lemma_native_names_differ(option_type, OptionType::Color);
    lemma_native_names_differ(option_type, OptionType::Enum);
}

/// The type that an option is created with is the type that a lookup finds:
/// the name of the type goes to the host and comes back as it went, and
/// reading it gives the type.
pub proof fn lemma_created_type_is_found(option_type: OptionType)
    ensures
        decoded(native_string(option_type.native_name())) == option_type.native_name(),
        OptionType::from_native_name(decoded(native_string(option_type.native_name()))) == Some(
            option_type,
        ),
{
    reveal_strlit("boolean");
    reveal_strlit("integer");
    reveal_strlit("string");
    reveal_strlit("color");
    reveal_strlit("enum");
    let name = option_type.native_name();
    assert(is_ascii_chars(name) && forall|i: int| 0 <= i < name.len() ==> name[i] != '\0') by {
        assert forall|i: int| 0 <= i < name.len() implies '\0' < #[trigger] name[i] <= '\u{7f}' by {
            if i == 0 {
            } else if i == 1 {
            } else if i == 2 {
            } else if i == 3 {
            } else if i == 4 {
            } else if i == 5 {
            } else if i == 6 {
            }
        }
    }
    lemma_plain_text_round_trip(name);
    lemma_option_type_round_trip(option_type);
}

/// Whether `call` asks the host for the string property `property` of the
/// option at `option`.
pub open spec fn is_get_string(call: NativeCall, option: Address, property: Seq<char>) -> bool {
    call matches NativeCall::ConfigOptionGetString { option: o, property: p }
        && o == option && p@ == native_string(property)
}

/// Access to the two addresses that an option handle wraps.
pub trait HiddenConfigOptionT {
    /// The address of the native option.
    spec fn option_address(&self) -> Address;

    /// The address of the native plugin record.
    spec fn plugin_address(&self) -> Address;

    /// Returns the address of the native option, which is never null.
    fn get_ptr(&self) -> (ptr: Address)
        ensures
            ptr == self.option_address(),
            ptr != 0,
    ;

    /// Returns the plugin that the option belongs to.
    fn get_weechat(&self) -> (weechat: Weechat)
        ensures
            weechat.address() == self.plugin_address(),
            weechat.address() != 0,
    ;

    /// The call that asks the host for a string property of the option.
    fn get_string_call(
        &self,
        runtime: &Runtime,
        current: ThreadId,
        property: &str,
    ) -> (call: Result<NativeCall, Fault>)
        ensures
            call is Ok <==> runtime.admits(current),
            call matches Ok(built) ==> (
                is_get_string(built, self.option_address(), property@)
            ),
            call matches Err(fault) ==> Some(fault) == runtime.refusal(current),
    {
        runtime.clear_call(
            current,
            NativeCall::ConfigOptionGetString {
                option: self.get_ptr(),
                property: LossyCString::new(property),
            },
        )
    }

    /// Reads the host's answer to [`Self::get_string_call`]: nothing for a
    /// null pointer, and otherwise the text behind it.
    fn get_string(&self, answer: Option<&[u8]>) -> (value: Option<String>)
        ensures
            value is Some <==> answer is Some,
            value is Some ==> value->0@ == decoded(answer->0@),
    {
        match answer {
            Some(bytes) => Some(decode_lossy(bytes)),
            None => None,
        }
    }
}

/// Construction of an option handle from the two addresses it wraps.
pub trait FromPtrs: HiddenConfigOptionT + Sized {
    /// Wraps the native option at `option_ptr` of the plugin at
    /// `weechat_ptr`.
    fn from_ptrs(option_ptr: Address, weechat_ptr: Address) -> (option: Self)
        requires
            option_ptr != 0,
            weechat_ptr != 0,
        ensures
            option.option_address() == option_ptr,
            option.plugin_address() == weechat_ptr,
    ;
}

/// Base configuration option methods.
///
/// These methods are implemented for every option and don't depend on the
/// option type. A method whose name ends in `_call` builds the call for the
/// host, for the owning thread and for no other; the method without that
/// ending reads the host's answer to it.
pub trait BaseConfigOption: HiddenConfigOptionT {
    /// The call that asks for the name of the option.
    fn name_call(&self, runtime: &Runtime, current: ThreadId) -> (call: Result<NativeCall, Fault>)
        ensures
            call is Ok <==> runtime.admits(current),
            call matches Ok(built) ==> (
                is_get_string(built, self.option_address(), "name"@)
            ),
            call matches Err(fault) ==> Some(fault) == runtime.refusal(current),
    {
        self.get_string_call(runtime, current, "name")
    }

    /// The call that asks for the description of the option.
    fn description_call(
        &self,
        runtime: &Runtime,
        current: ThreadId,
    ) -> (call: Result<NativeCall, Fault>)
        ensures
            call is Ok <==> runtime.admits(current),
            call matches Ok(built) ==> (
                is_get_string(built, self.option_address(), "description"@)
            ),
            call matches Err(fault) ==> Some(fault) == runtime.refusal(current),
    {
        self.get_string_call(runtime, current, "description")
    }

    /// The call that asks for the name of the section the option belongs to.
    fn section_name_call(
        &self,
        runtime: &Runtime,
        current: ThreadId,
    ) -> (call: Result<NativeCall, Fault>)
        ensures
            call is Ok <==> runtime.admits(current),
            call matches Ok(built) ==> (
                is_get_string(built, self.option_address(), "section_name"@)
            ),
            call matches Err(fault) ==> Some(fault) == runtime.refusal(current),
    {
        self.get_string_call(runtime, current, "section_name")
    }

    /// The call that asks for the name of the config the option belongs to.
    fn config_name_call(
        &self,
        runtime: &Runtime,
        current: ThreadId,
    ) -> (call: Result<NativeCall, Fault>)
        ensures
            call is Ok <==> runtime.admits(current),
            call matches Ok(built) ==> (
                is_get_string(built, self.option_address(), "config_name"@)
            ),
            call matches Err(fault) ==> Some(fault) == runtime.refusal(current),
    {
        self.get_string_call(runtime, current, "config_name")
    }

    /// The call that asks for the type of the option.
    fn option_type_call(
        &self,
        runtime: &Runtime,
        current: ThreadId,
    ) -> (call: Result<NativeCall, Fault>)
        ensures
            call is Ok <==> runtime.admits(current),
            call matches Ok(built) ==> (
                is_get_string(built, self.option_address(), "type"@)
            ),
            call matches Err(fault) ==> Some(fault) == runtime.refusal(current),
    {
        self.get_string_call(runtime, current, "type")
    }

    /// Get the name of the option, from the host's answer.
    fn name(&self, answer: &[u8]) -> (name: String)
        ensures
            name@ == decoded(answer@),
    {
        decode_lossy(answer)
    }

    /// Get the description of the option, from the host's answer.
    fn description(&self, answer: &[u8]) -> (description: String)
        ensures
            description@ == decoded(answer@),
    {
        decode_lossy(answer)
    }

    /// Get the section name of the section the option belongs to, from the
    /// host's answer.
    fn section_name(&self, answer: &[u8]) -> (name: String)
        ensures
            name@ == decoded(answer@),
    {
        decode_lossy(answer)
    }

    /// Get the config name the option belongs to, from the host's answer.
    fn config_name(&self, answer: &[u8]) -> (name: String)
        ensures
            name@ == decoded(answer@),
    {
        decode_lossy(answer)
    }

    /// Get the type of the config option, from the host's answer. A name
    /// that is none of the five is a defect of the host and is not read.
    fn option_type(&self, answer: &str) -> (option_type: OptionType)
        requires
            OptionType::is_native_name(answer@),
        ensures
            Some(option_type) == OptionType::from_native_name(answer@),
            option_type.native_name() == answer@,
    {
        match OptionType::try_from(answer) {
            Ok(option_type) => option_type,
            Err(_) => OptionType::String,
        }
    }

    /// The call that resets the option to its default value.
    fn reset_call(
        &self,
        runtime: &Runtime,
        current: ThreadId,
        run_callback: bool,
    ) -> (call: Result<NativeCall, Fault>)
        ensures
            call is Ok <==> runtime.admits(current),
            call matches Ok(built) ==> (
                built matches NativeCall::ConfigOptionReset { option, run_callback: flag }
                    && option == self.option_address()
                    && flag == (if run_callback { 1i32 } else { 0i32 })
            ),
            call matches Err(fault) ==> Some(fault) == runtime.refusal(current),
    {
        runtime.clear_call(
            current,
            NativeCall::ConfigOptionReset {
                option: self.get_ptr(),
                run_callback: if run_callback { 1 } else { 0 },
            },
        )
    }

    /// Reads the host's answer to [`Self::reset_call`].
    fn reset(&self, answer: i32) -> (outcome: OptionChanged)
        requires
            OptionChanged::is_code(answer as int),
        ensures
            outcome.code() == answer,
    {
        OptionChanged::from_int(answer)
    }

    /// The call that sets the option using a string. The host parses the
    /// string and turns it into a value of the option's type.
    fn set_call(
        &self,
        runtime: &Runtime,
        current: ThreadId,
        value: &str,
        run_callback: bool,
    ) -> (call: Result<NativeCall, Fault>)
        ensures
            call is Ok <==> runtime.admits(current),
            call matches Ok(built) ==> (
                built matches NativeCall::ConfigOptionSet { option, value: v, run_callback: flag }
                    && option == self.option_address()
                    && v@ == native_string(value@)
                    && flag == (if run_callback { 1i32 } else { 0i32 })
            ),
            call matches Err(fault) ==> Some(fault) == runtime.refusal(current),
    {
        runtime.clear_call(
            current,
            NativeCall::ConfigOptionSet {
                option: self.get_ptr(),
                value: LossyCString::new(value),
                run_callback: if run_callback { 1 } else { 0 },
            },
        )
    }

    /// Reads the host's answer to [`Self::set_call`].
    fn set(&self, answer: i32) -> (outcome: OptionChanged)
        requires
            OptionChanged::is_code(answer as int),
        ensures
            outcome.code() == answer,
    {
        OptionChanged::from_int(answer)
    }

    /// The call that asks whether the option is undefined.
    fn is_null_call(
        &self,
        runtime: &Runtime,
        current: ThreadId,
    ) -> (call: Result<NativeCall, Fault>)
        ensures
            call is Ok <==> runtime.admits(current),
            call matches Ok(built) ==> (
                built matches NativeCall::ConfigOptionIsNull { option }
                    && option == self.option_address()
            ),
            call matches Err(fault) ==> Some(fault) == runtime.refusal(current),
    {
        runtime.clear_call(current, NativeCall::ConfigOptionIsNull { option: self.get_ptr() })
    }

    /// Is the option undefined/null, from the host's answer.
    fn is_null(&self, answer: i32) -> (null: bool)
        ensures
            null == (answer != 0),
    {
        answer != 0
    }
}

/// Marker trait for config options.
pub trait ConfigOptions: BaseConfigOption + FromPtrs {
}

/// A callback that runs when an option changed or is about to be deleted.
pub trait OptionCallback<T> {
    /// Called with the plugin and the option concerned.
    fn callback(&mut self, weechat: &Weechat, option: &T);
}

/// A callback that vets a value before the option takes it.
pub trait OptionCheckCallback<T> {
    /// Called with the plugin, the option and the candidate value. Returns
    /// whether the value is acceptable.
    fn callback(&mut self, weechat: &Weechat, option: &T, value: &str) -> bool;
}

/// What the host is told after a check: 1 to accept the value, 0 to refuse
/// it. An option without a check callback accepts every value.
pub open spec fn check_code(verdict: Option<bool>) -> int {
    match verdict {
        Some(false) => 0,
        _ => 1,
    }
}

/// Turns the verdict of a check callback, if there was one to ask, into the status
/// for the host.
pub fn check_status(verdict: Option<bool>) -> (status: i32)
    ensures
        status == check_code(verdict),
{
    match verdict {
        Some(false) => 0,
        _ => 1,
    }
}

/// Which callbacks an option has.
#[derive(Debug, PartialEq, Eq, Clone, Copy, Structural)]
pub struct OptionCallbacks {
    /// A callback vets each value before the option takes it.
    pub check: bool,
    /// A callback runs when the value of the option changed.
    pub change: bool,
    /// A callback runs when the host deletes the option.
    pub delete: bool,
}

/// The callback record of one option.
#[verifier::reject_recursive_types(T)]
pub struct OptionPointers<T> {
    pub(crate) weechat_ptr: Address,
    pub(crate) check_cb: Option<Box<dyn OptionCheckCallback<T>>>,
    pub(crate) change_cb: Option<Box<dyn OptionCallback<T>>>,
    pub(crate) delete_cb: Option<Box<dyn OptionCallback<T>>>,
}

impl<T: ConfigOptions> OptionPointers<T> {
    /// The address of the native plugin record.
    pub closed spec fn plugin_address(&self) -> Address {
        self.weechat_ptr
    }

    /// Whether the record holds a check callback.
    pub closed spec fn has_check(&self) -> bool {
        self.check_cb is Some
    }

    /// Whether the record holds a change callback.
    pub closed spec fn has_change(&self) -> bool {
        self.change_cb is Some
    }

    /// Whether the record holds a delete callback.
    pub closed spec fn has_delete(&self) -> bool {
        self.delete_cb is Some
    }

    /// Which callbacks the record holds.
    pub open spec fn callbacks(&self) -> OptionCallbacks {
        OptionCallbacks {
            check: self.has_check(),
            change: self.has_change(),
            delete: self.has_delete(),
        }
    }

    /// Makes the record for the callbacks of an option of the plugin at
    /// `weechat_ptr`.
    pub fn new(
        weechat_ptr: Address,
        check_cb: Option<Box<dyn OptionCheckCallback<T>>>,
        change_cb: Option<Box<dyn OptionCallback<T>>>,
        delete_cb: Option<Box<dyn OptionCallback<T>>>,
    ) -> (pointers: Self)
        ensures
            pointers.plugin_address() == weechat_ptr,
            pointers.has_check() == check_cb is Some,
            pointers.has_change() == change_cb is Some,
            pointers.has_delete() == delete_cb is Some,
    {
        OptionPointers { weechat_ptr, check_cb, change_cb, delete_cb }
    }

    /// The host asks whether the option at `option_pointer` may take
    /// `value`. The check callback decides; without one the value is accepted.
    pub fn check(&mut self, option_pointer: Address, value: &[u8]) -> (status: i32)
        requires
            option_pointer != 0,
            old(self).plugin_address() != 0,
        ensures
            status == 0 || status == 1,
            !old(self).has_check() ==> status == 1,
            final(self).plugin_address() == old(self).plugin_address(),
            final(self).has_check() == old(self).has_check(),
            final(self).has_change() == old(self).has_change(),
            final(self).has_delete() == old(self).has_delete(),
    {
        let value = decode_lossy(value);
        let weechat = Weechat::from_ptr(self.weechat_ptr);
        let option = T::from_ptrs(option_pointer, self.weechat_ptr);
        let verdict = match &mut self.check_cb {
            Some(callback) => Some(callback.callback(&weechat, &option, value.as_str())),
            None => None,
        };
        check_status(verdict)
    }

    /// The host reports that the option at `option_pointer` changed.
    /// Returns whether a callback ran.
    pub fn change(&mut self, option_pointer: Address) -> (ran: bool)
        requires
            option_pointer != 0,
            old(self).plugin_address() != 0,
        ensures
            ran == old(self).has_change(),
            final(self).plugin_address() == old(self).plugin_address(),
            final(self).has_check() == old(self).has_check(),
            final(self).has_change() == old(self).has_change(),
            final(self).has_delete() == old(self).has_delete(),
    {
        let weechat = Weechat::from_ptr(self.weechat_ptr);
        let option = T::from_ptrs(option_pointer, self.weechat_ptr);
        match &mut self.change_cb {
            Some(callback) => {
                callback.callback(&weechat, &option);
                true
            },
            None => false,
        }
    }

    /// The host reports that it is about to delete the option at
    /// `option_pointer`. Returns whether a callback ran.
    pub fn delete(&mut self, option_pointer: Address) -> (ran: bool)
        requires
            option_pointer != 0,
            old(self).plugin_address() != 0,
        ensures
            ran == old(self).has_delete(),
            final(self).plugin_address() == old(self).plugin_address(),
            final(self).has_check() == old(self).has_check(),
            final(self).has_change() == old(self).has_change(),
            final(self).has_delete() == old(self).has_delete(),
    {
        let weechat = Weechat::from_ptr(self.weechat_ptr);
        let option = T::from_ptrs(option_pointer, self.weechat_ptr);
        match &mut self.delete_cb {
            Some(callback) => {
                callback.callback(&weechat, &option);
                true
            },
            None => false,
        }
    }
}

} // verus!

//! Options with a string value.

use std::marker::PhantomData;
use vstd::prelude::*;

use crate::config::config_options::{
    BaseConfigOption, ConfigOptions, FromPtrs, HiddenConfigOptionT, OptionCallback,
    OptionCheckCallback,
};
use crate::native::{Address, Fault, NativeCall, ThreadId};
use crate::text::{decode_lossy, decoded};
use crate::weechat::{Runtime, Weechat};

verus! {

/// Settings for a new string option.
pub struct StringOptionSettings {
    pub(crate) name: String,
    pub(crate) description: String,
    pub(crate) default_value: String,
    pub(crate) check_cb: Option<Box<dyn OptionCheckCallback<StringOption<'static>>>>,
    pub(crate) change_cb: Option<Box<dyn OptionCallback<StringOption<'static>>>>,
}

impl StringOptionSettings {
    /// The name of the new option.
    pub closed spec fn name_text(&self) -> Seq<char> {
        self.name@
    }

    /// The description of the new option.
    pub closed spec fn description_text(&self) -> Seq<char> {
        self.description@
    }

    /// The value that the option takes when it is created or reset.
    pub closed spec fn default(&self) -> Seq<char> {
        self.default_value@
    }

    /// Whether a check callback is set.
    pub closed spec fn has_check(&self) -> bool {
        self.check_cb is Some
    }

    /// Whether a change callback is set.
    pub closed spec fn has_change(&self) -> bool {
        self.change_cb is Some
    }

    /// The fields hold what the settings say.
    pub(crate) proof fn lemma_fields(&self)
        ensures
            self.name@ == self.name_text(),
            self.description@ == self.description_text(),
            self.default_value@ == self.default(),
            self.check_cb is Some == self.has_check(),
            self.change_cb is Some == self.has_change(),
    {
    }

    /// Returns the name of the new option.
    pub fn name(&self) -> (name: &str)
        ensures
            name@ == self.name_text(),
    {
        self.name.as_str()
    }

    /// Create new settings that can be used to create a new string option.
    pub fn new(name: &str) -> (settings: Self)
        ensures
            settings.name_text() == name@,
            settings.description_text() == Seq::<char>::empty(),
            settings.default() == Seq::<char>::empty(),
            !settings.has_check(),
            !settings.has_change(),
    {
        StringOptionSettings {
            name: name.to_owned(),
            description: String::new(),
            default_value: String::new(),
            check_cb: None,
            change_cb: None,
        }
    }

    /// Set the description of the option.
    pub fn description(self, description: &str) -> (settings: Self)
        ensures
            settings.description_text() == description@,
            settings.name_text() == self.name_text(),
            settings.default() == self.default(),
            settings.has_check() == self.has_check(),
            settings.has_change() == self.has_change(),
    {
        StringOptionSettings {
            name: self.name,
            description: description.to_owned(),
            default_value: self.default_value,
            check_cb: self.check_cb,
            change_cb: self.change_cb,
        }
    }

    /// Set the default value of the option.
    ///
    /// This is the value the option will have if it isn't set by the user. If
    /// the option is reset, the option will take this value.
    pub fn default_value(self, value: &str) -> (settings: Self)
        ensures
            settings.default() == value@,
            settings.name_text() == self.name_text(),
            settings.description_text() == self.description_text(),
            settings.has_check() == self.has_check(),
            settings.has_change() == self.has_change(),
    {
        StringOptionSettings {
            name: self.name,
            description: self.description,
            default_value: value.to_owned(),
            check_cb: self.check_cb,
            change_cb: self.change_cb,
        }
    }

    /// Set the callback that vets a value before the option takes it.
    pub fn set_check_callback<C: OptionCheckCallback<StringOption<'static>> + 'static>(
        self,
        callback: C,
    ) -> (settings: Self)
        ensures
            settings.has_check(),
            settings.name_text() == self.name_text(),
            settings.description_text() == self.description_text(),
            settings.default() == self.default(),
            settings.has_change() == self.has_change(),
    {
        let callback: Box<dyn OptionCheckCallback<StringOption<'static>>> = Box::new(callback);
        StringOptionSettings {
            name: self.name,
            description: self.description,
            default_value: self.default_value,
            check_cb: Some(callback),
            change_cb: self.change_cb,
        }
    }

    /// Set the callback that will run when the value of the option changes.
    pub fn set_change_callback<C: OptionCallback<StringOption<'static>> + 'static>(
        self,
        callback: C,
    ) -> (settings: Self)
        ensures
            settings.has_change(),
            settings.name_text() == self.name_text(),
            settings.description_text() == self.description_text(),
            settings.default() == self.default(),
            settings.has_check() == self.has_check(),
    {
        let callback: Box<dyn OptionCallback<StringOption<'static>>> = Box::new(callback);
        StringOptionSettings {
            name: self.name,
            description: self.description,
            default_value: self.default_value,
            check_cb: self.check_cb,
            change_cb: Some(callback),
        }
    }
}

/// A config option with a string value. The handle cannot outlive the
/// borrow of the section that it was made from.
pub struct StringOption<'a> {
    ptr: Address,
    weechat_ptr: Address,
    _phantom: PhantomData<&'a ()>,
}

impl<'a> StringOption<'a> {
    #[verifier::type_invariant]
    spec fn never_null(self) -> bool {
        self.ptr != 0 && self.weechat_ptr != 0
    }

    /// The call that asks for the value of the option.
    pub fn value_call(
        &self,
        runtime: &Runtime,
        current: ThreadId,
    ) -> (call: Result<NativeCall, Fault>)
        ensures
            call is Ok <==> runtime.admits(current),
            call matches Ok(built) ==> (
                built matches NativeCall::ConfigString { option } && option == self.option_address()
            ),
            call matches Err(fault) ==> Some(fault) == runtime.refusal(current),
    {
        runtime.clear_call(current, NativeCall::ConfigString { option: self.ptr })
    }

    /// Get the value of the option, from the host's answer. Bytes that are
    /// not valid UTF-8 are replaced, never refused.
    pub fn value(&self, answer: &[u8]) -> (value: String)
        ensures
            value@ == decoded(answer@),
    {
        decode_lossy(answer)
    }
}

impl<'a> HiddenConfigOptionT for StringOption<'a> {
    closed spec fn option_address(&self) -> Address {
        self.ptr
    }

    closed spec fn plugin_address(&self) -> Address {
        self.weechat_ptr
    }

    fn get_ptr(&self) -> (ptr: Address) {
        proof {
            use_type_invariant(self);
        }
        self.ptr
    }

    fn get_weechat(&self) -> (weechat: Weechat) {
        proof {
            use_type_invariant(self);
        }
        Weechat::from_ptr(self.weechat_ptr)
    }
}

impl<'a> FromPtrs for StringOption<'a> {
    fn from_ptrs(option_ptr: Address, weechat_ptr: Address) -> (option: Self) {
        StringOption { ptr: option_ptr, weechat_ptr, _phantom: PhantomData }
    }
}

impl<'a> BaseConfigOption for StringOption<'a> {
}

impl<'a> ConfigOptions for StringOption<'a> {
}

} // verus!

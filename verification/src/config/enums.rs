//! Options whose value is one of a list of names.

use std::marker::PhantomData;
use vstd::prelude::*;
use vstd::string::StringExecFns;

use crate::config::config_options::{
    BaseConfigOption, ConfigOptions, FromPtrs, HiddenConfigOptionT, OptionCallback,
    OptionCheckCallback,
};
use crate::native::{Address, Fault, NativeCall, ThreadId};
use crate::weechat::{Runtime, Weechat};

verus! {

/// The names of `values`, in their order, with a `|` between each two.
pub open spec fn joined(values: Seq<Seq<char>>) -> Seq<char>
    decreases values.len(),
{
    if values.len() == 0 {
        Seq::<char>::empty()
    } else if values.len() == 1 {
        values[0]
    } else {
        joined(values.drop_last()) + "|"@ + values.last()
    }
}

/// Joins `values` with a `|` between each two.
pub fn join(values: &Vec<String>) -> (text: String)
    ensures
        text@ == joined(values.deep_view()),
{
    let mut text = String::new();
    let mut i: usize = 0;
    while i < values.len()
        invariant
            0 <= i <= values.len(),
            text@ == joined(values.deep_view().take(i as int)),
        decreases values.len() - i,
    {
        proof {
            let before = values.deep_view().take(i as int);
            let after = values.deep_view().take(i + 1);
            assert(after.drop_last() =~= before);
            assert(after.last() == values[i as int]@);
            assert(before.len() == 0 ==> joined(before) + values[i as int]@ =~= values[i as int]@);
        }
        if i > 0 {
            text.append("|");
        }
        text.append(values[i].as_str());
        i += 1;
    }
    proof {
        assert(values.deep_view().take(i as int) =~= values.deep_view());
    }
    text
}

/// Settings for a new enum option.
pub struct EnumOptionSettings {
    pub(crate) name: String,
    pub(crate) description: String,
    pub(crate) default_value: i32,
    pub(crate) min: i32,
    pub(crate) max: i32,
    pub(crate) string_values: String,
    pub(crate) check_cb: Option<Box<dyn OptionCheckCallback<EnumOption<'static>>>>,
    pub(crate) change_cb: Option<Box<dyn OptionCallback<EnumOption<'static>>>>,
}

impl EnumOptionSettings {
    /// The name of the new option.
    pub closed spec fn name_text(&self) -> Seq<char> {
        self.name@
    }

    /// The description of the new option.
    pub closed spec fn description_text(&self) -> Seq<char> {
        self.description@
    }

    /// The value that the option takes when it is created or reset.
    pub closed spec fn default(&self) -> i32 {
        self.default_value
    }

    /// The smallest value that the option accepts.
    pub closed spec fn minimum(&self) -> i32 {
        self.min
    }

    /// The largest value that the option accepts.
    pub closed spec fn maximum(&self) -> i32 {
        self.max
    }

    /// The names that the option can take, joined by `|`.
    pub closed spec fn values_text(&self) -> Seq<char> {
        self.string_values@
    }

    /// Whether a check callback is set.
    pub closed spec fn has_check(&self) -> bool {
        self.check_cb is Some
    }

    /// Whether a change callback is set.
    pub closed spec fn has_change(&self) -> bool {
        self.change_cb is Some
    }

    /// The fields hold what the settings say.
    pub(crate) proof fn lemma_fields(&self)
        ensures
            self.name@ == self.name_text(),
            self.description@ == self.description_text(),
            self.default_value == self.default(),
            self.min == self.minimum(),
            self.max == self.maximum(),
            self.string_values@ == self.values_text(),
            self.check_cb is Some == self.has_check(),
            self.change_cb is Some == self.has_change(),
    {
    }

    /// Returns the name of the new option.
    pub fn name(&self) -> (name: &str)
        ensures
            name@ == self.name_text(),
    {
        self.name.as_str()
    }

    /// Create new settings that can be used to create a new enum option.
    pub fn new(name: &str) -> (settings: Self)
        ensures
            settings.name_text() == name@,
            settings.description_text() == Seq::<char>::empty(),
            settings.default() == 0,
            settings.minimum() == 0,
            settings.maximum() == 0,
            settings.values_text() == Seq::<char>::empty(),
            !settings.has_check(),
            !settings.has_change(),
    {
        EnumOptionSettings {
            name: name.to_owned(),
            description: String::new(),
            default_value: 0,
            min: 0,
            max: 0,
            string_values: String::new(),
            check_cb: None,
            change_cb: None,
        }
    }

    /// Set the description of the option.
    pub fn description(self, description: &str) -> (settings: Self)
        ensures
            settings.description_text() == description@,
            settings.name_text() == self.name_text(),
            settings.default() == self.default(),
            settings.minimum() == self.minimum(),
            settings.maximum() == self.maximum(),
            settings.values_text() == self.values_text(),
            settings.has_check() == self.has_check(),
            settings.has_change() == self.has_change(),
    {
        EnumOptionSettings {
            name: self.name,
            description: description.to_owned(),
            default_value: self.default_value,
            min: self.min,
            max: self.max,
            string_values: self.string_values,
            check_cb: self.check_cb,
            change_cb: self.change_cb,
        }
    }

    /// Set the default value of the option.
    ///
    /// This is the value the option will have if it isn't set by the user. If
    /// the option is reset, the option will take this value.
    pub fn default_value(self, value: i32) -> (settings: Self)
        ensures
            settings.default() == value,
            settings.name_text() == self.name_text(),
            settings.description_text() == self.description_text(),
            settings.minimum() == self.minimum(),
            settings.maximum() == self.maximum(),
            settings.values_text() == self.values_text(),
            settings.has_check() == self.has_check(),
            settings.has_change() == self.has_change(),
    {
        EnumOptionSettings {
            name: self.name,
            description: self.description,
            default_value: value,
            min: self.min,
            max: self.max,
            string_values: self.string_values,
            check_cb: self.check_cb,
            change_cb: self.change_cb,
        }
    }

    /// Set the minimal value of the option.
    pub fn min(self, value: i32) -> (settings: Self)
        ensures
            settings.minimum() == value,
            settings.name_text() == self.name_text(),
            settings.description_text() == self.description_text(),
            settings.default() == self.default(),
            settings.maximum() == self.maximum(),
            settings.values_text() == self.values_text(),
            settings.has_check() == self.has_check(),
            settings.has_change() == self.has_change(),
    {
        EnumOptionSettings {
            name: self.name,
            description: self.description,
            default_value: self.default_value,
            min: value,
            max: self.max,
            string_values: self.string_values,
            check_cb: self.check_cb,
            change_cb: self.change_cb,
        }
    }

    /// Set the maximum value of the option.
    pub fn max(self, value: i32) -> (settings: Self)
        ensures
            settings.maximum() == value,
            settings.name_text() == self.name_text(),
            settings.description_text() == self.description_text(),
            settings.default() == self.default(),
            settings.minimum() == self.minimum(),
            settings.values_text() == self.values_text(),
            settings.has_check() == self.has_check(),
            settings.has_change() == self.has_change(),
    {
        EnumOptionSettings {
            name: self.name,
            description: self.description,
            default_value: self.default_value,
            min: self.min,
            max: value,
            string_values: self.string_values,
            check_cb: self.check_cb,
            change_cb: self.change_cb,
        }
    }

    /// Set the names that the option can take. The host is given them as
    /// one string, joined by `|`.
    pub fn string_values(self, values: &Vec<String>) -> (settings: Self)
        ensures
            settings.values_text() == joined(values.deep_view()),
            settings.name_text() == self.name_text(),
            settings.description_text() == self.description_text(),
            settings.default() == self.default(),
            settings.minimum() == self.minimum(),
            settings.maximum() == self.maximum(),
            settings.has_check() == self.has_check(),
            settings.has_change() == self.has_change(),
    {
        EnumOptionSettings {
            name: self.name,
            description: self.description,
            default_value: self.default_value,
            min: self.min,
            max: self.max,
            string_values: join(values),
            check_cb: self.check_cb,
            change_cb: self.change_cb,
        }
    }

    /// Set the callback that vets a value before the option takes it.
    pub fn set_check_callback<C: OptionCheckCallback<EnumOption<'static>> + 'static>(
        self,
        callback: C,
    ) -> (settings: Self)
        ensures
            settings.has_check(),
            settings.name_text() == self.name_text(),
            settings.description_text() == self.description_text(),
            settings.default() == self.default(),
            settings.minimum() == self.minimum(),
            settings.maximum() == self.maximum(),
            settings.values_text() == self.values_text(),
            settings.has_change() == self.has_change(),
    {
        let callback: Box<dyn OptionCheckCallback<EnumOption<'static>>> = Box::new(callback);
        EnumOptionSettings {
            name: self.name,
            description: self.description,
            default_value: self.default_value,
            min: self.min,
            max: self.max,
            string_values: self.string_values,
            check_cb: Some(callback),
            change_cb: self.change_cb,
        }
    }

    /// Set the callback that will run when the value of the option changes.
    pub fn set_change_callback<C: OptionCallback<EnumOption<'static>> + 'static>(
        self,
        callback: C,
    ) -> (settings: Self)
        ensures
            settings.has_change(),
            settings.name_text() == self.name_text(),
            settings.description_text() == self.description_text(),
            settings.default() == self.default(),
            settings.minimum() == self.minimum(),
            settings.maximum() == self.maximum(),
            settings.values_text() == self.values_text(),
            settings.has_check() == self.has_check(),
    {
        let callback: Box<dyn OptionCallback<EnumOption<'static>>> = Box::new(callback);
        EnumOptionSettings {
            name: self.name,
            description: self.description,
            default_value: self.default_value,
            min: self.min,
            max: self.max,
            string_values: self.string_values,
            check_cb: self.check_cb,
            change_cb: Some(callback),
        }
    }
}

/// A config option with an enum value. The handle cannot outlive the
/// borrow of the section that it was made from.
pub struct EnumOption<'a> {
    ptr: Address,
    weechat_ptr: Address,
    _phantom: PhantomData<&'a ()>,
}

impl<'a> EnumOption<'a> {
    #[verifier::type_invariant]
    spec fn never_null(self) -> bool {
        self.ptr != 0 && self.weechat_ptr != 0
    }

    /// The call that asks for the value of the option.
    pub fn value_call(
        &self,
        runtime: &Runtime,
        current: ThreadId,
    ) -> (call: Result<NativeCall, Fault>)
        ensures
            call is Ok <==> runtime.admits(current),
            call matches Ok(built) ==> (
                built matches NativeCall::ConfigEnum { option } && option == self.option_address()
            ),
            call matches Err(fault) ==> Some(fault) == runtime.refusal(current),
    {
        runtime.clear_call(current, NativeCall::ConfigEnum { option: self.ptr })
    }

    /// Get the value of the option, from the host's answer: the index of the
    /// chosen name in the list of names.
    pub fn value(&self, answer: i32) -> (value: i32)
        ensures
            value == answer,
    {
        answer
    }
}

impl<'a> HiddenConfigOptionT for EnumOption<'a> {
    closed spec fn option_address(&self) -> Address {
        self.ptr
    }

    closed spec fn plugin_address(&self) -> Address {
        self.weechat_ptr
    }

    fn get_ptr(&self) -> (ptr: Address) {
        proof {
            use_type_invariant(self);
        }
        self.ptr
    }

    fn get_weechat(&self) -> (weechat: Weechat) {
        proof {
            use_type_invariant(self);
        }
        Weechat::from_ptr(self.weechat_ptr)
    }
}

impl<'a> FromPtrs for EnumOption<'a> {
    fn from_ptrs(option_ptr: Address, weechat_ptr: Address) -> (option: Self) {
        EnumOption { ptr: option_ptr, weechat_ptr, _phantom: PhantomData }
    }
}

impl<'a> BaseConfigOption for EnumOption<'a> {
}

impl<'a> ConfigOptions for EnumOption<'a> {
}

} // verus!

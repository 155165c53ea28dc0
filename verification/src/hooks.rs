//! Hooks: commands of the plugin that the host runs.

use vstd::prelude::*;

use crate::buffer::Buffer;
use crate::callback::{CallbackContext, ContextState};
use crate::native::{Address, Fault, NativeCall, ThreadId};
use crate::text::{native_string, LossyCString};
use crate::weechat::{Runtime, Weechat};

verus! {

/// The description of a command.
pub struct CommandInfo {
    pub name: String,
    pub description: String,
    pub args: String,
    pub args_description: String,
    pub completion: String,
}

/// The callback that runs when the command of a hook is entered.
pub trait CommandCallback {
    /// Called with the buffer in which the command was entered.
    fn callback(&mut self, buffer: &Buffer);
}

/// The callback record of a hook.
pub struct HookData {
    pub(crate) callback: Box<dyn CommandCallback>,
    pub(crate) weechat_ptr: Address,
}

impl HookData {
    /// The address of the native plugin record.
    pub closed spec fn plugin_address(&self) -> Address {
        self.weechat_ptr
    }
}

/// A command of the plugin, hooked into the host until it is unhooked.
pub struct Hook {
    ptr: Address,
    weechat_ptr: Address,
    hook_data: CallbackContext<HookData>,
}

impl Hook {
    #[verifier::type_invariant]
    spec fn well_formed(self) -> bool {
        &&& self.ptr != 0
        &&& self.weechat_ptr != 0
        &&& self.hook_data.state() != ContextState::Allocated
        &&& self.hook_data.state() == ContextState::Registered ==> self.hook_data.record() is Some
            && self.hook_data.record()->0.plugin_address() == self.weechat_ptr
    }

    /// The address of the native hook.
    pub closed spec fn address(&self) -> Address {
        self.ptr
    }

    /// The address of the native plugin record.
    pub closed spec fn plugin_address(&self) -> Address {
        self.weechat_ptr
    }

    /// Whether the command is still hooked.
    pub closed spec fn is_hooked(&self) -> bool {
        self.hook_data.state() == ContextState::Registered
    }

    /// Tells whether the command is still hooked.
    pub fn hooked(&self) -> (hooked: bool)
        ensures
            hooked == self.is_hooked(),
    {
        proof {
            use_type_invariant(self);
        }
        self.hook_data.is_registered()
    }

    /// The host reports that the command was entered in the buffer at
    /// `buffer`. The callback runs and the status for the host is 0. A
    /// command that was unhooked is a defect: nothing runs.
    pub fn on_command(&mut self, buffer: Address) -> (status: Result<i32, Fault>)
        requires
            buffer != 0,
        ensures
            status is Ok <==> old(self).is_hooked(),
            status matches Ok(code) ==> code == 0,
            status matches Err(fault) ==> fault == Fault::StaleContext,
            final(self).is_hooked() == old(self).is_hooked(),
            final(self).address() == old(self).address(),
            final(self).plugin_address() == old(self).plugin_address(),
    {
        proof {
            use_type_invariant(&*self);
        }
        let weechat_ptr = self.weechat_ptr;
        let mut hook_data: CallbackContext<HookData> = CallbackContext::spent();
        std::mem::swap(&mut hook_data, &mut self.hook_data);
        let status = match hook_data.invoke() {
            Some(data) => {
                let buffer = Buffer::from_ptr(weechat_ptr, buffer);
                data.callback.callback(&buffer);
                Ok(0)
            },
            None => Err(Fault::StaleContext),
        };
        self.hook_data = hook_data;
        status
    }

    /// Unhooks the command: the callback record is given back and the call
    /// that removes the hook on the host's side is returned. A second
    /// unhooking does nothing and returns no call. Only the owning thread
    /// can unhook: for any other nothing happens.
    pub fn unhook(
        &mut self,
        runtime: &Runtime,
        current: ThreadId,
    ) -> (unhooked: Result<Option<NativeCall>, Fault>)
        ensures
            unhooked is Ok <==> runtime.admits(current),
            unhooked matches Ok(call) ==> (
                (call is Some <==> old(self).is_hooked())
                && (call matches Some(c) ==> c == (NativeCall::Unhook {
                    hook: old(self).address(),
                }))
                && !final(self).is_hooked()
            ),
            unhooked matches Err(fault) ==> (
                Some(fault) == runtime.refusal(current)
                && final(self).is_hooked() == old(self).is_hooked()
            ),
            final(self).address() == old(self).address(),
            final(self).plugin_address() == old(self).plugin_address(),
    {
        proof {
            use_type_invariant(&*self);
        }
        let call = match runtime.clear_call(current, NativeCall::Unhook { hook: self.ptr }) {
            Ok(call) => call,
            Err(fault) => {
                return Err(fault);
            },
        };
        let mut hook_data: CallbackContext<HookData> = CallbackContext::spent();
        std::mem::swap(&mut hook_data, &mut self.hook_data);
        match hook_data.reclaim() {
            Some(_) => Ok(Some(call)),
            None => Ok(None),
        }
    }
}

impl Weechat {
    /// The call that creates the command that `command_info` describes.
    pub fn hook_command_call(
        &self,
        runtime: &Runtime,
        current: ThreadId,
        command_info: &CommandInfo,
    ) -> (call: Result<NativeCall, Fault>)
        ensures
            call is Ok <==> runtime.admits(current),
            call matches Ok(built) ==> (
                built matches NativeCall::HookCommand {
                    plugin,
                    name,
                    description,
                    args,
                    args_description,
                    completion,
                } && plugin == self.address() && name@ == native_string(command_info.name@)
                    && description@ == native_string(command_info.description@) && args@
                    == native_string(command_info.args@) && args_description@ == native_string(
                    command_info.args_description@,
                ) && completion@ == native_string(command_info.completion@)
            ),
            call matches Err(fault) ==> Some(fault) == runtime.refusal(current),
    {
        runtime.clear_call(
            current,
            NativeCall::HookCommand {
                plugin: self.ptr(),
                name: LossyCString::new(command_info.name.as_str()),
                description: LossyCString::new(command_info.description.as_str()),
                args: LossyCString::new(command_info.args.as_str()),
                args_description: LossyCString::new(command_info.args_description.as_str()),
                completion: LossyCString::new(command_info.completion.as_str()),
            },
        )
    }

    /// Create a new weechat command, from the host's answer to
    /// [`Self::hook_command_call`]. Returns the hook of the command.
    ///
    /// Fails if the host answered with a null address: the callback is then
    /// dropped at once.
    pub fn hook_command(
        &self,
        hook_ptr: Address,
        callback: Box<dyn CommandCallback>,
    ) -> (hook: Result<Hook, ()>)
        ensures
            hook is Ok <==> hook_ptr != 0,
            hook matches Ok(h) ==> (
                h.address() == hook_ptr
                && h.plugin_address() == self.address()
                && h.is_hooked()
            ),
    {
        let weechat_ptr = self.ptr();
        let mut hook_data = CallbackContext::allocate(HookData { callback, weechat_ptr });
        if hook_ptr == 0 {
            hook_data.reclaim();
            return Err(());
        }
        hook_data.register();
        Ok(Hook { ptr: hook_ptr, weechat_ptr, hook_data })
    }
}

} // verus!

//! Buffers and the groups of their nicklists.

use std::marker::PhantomData;
use vstd::prelude::*;

use crate::callback::{CallbackContext, ContextState};
use crate::native::{Address, Fault, NativeCall, ThreadId};
use crate::text::{decode_lossy, decode_strict, decoded, native_string, LossyCString};
use crate::weechat::{Runtime, Weechat};
use vstd::utf8::valid_utf8;

verus! {

/// A handle to a buffer of the host.
pub struct Buffer {
    weechat: Address,
    ptr: Address,
}

impl Buffer {
    #[verifier::type_invariant]
    spec fn never_null(self) -> bool {
        self.ptr != 0 && self.weechat != 0
    }

    /// The address of the native buffer.
    pub closed spec fn address(&self) -> Address {
        self.ptr
    }

    /// The address of the native plugin record.
    pub closed spec fn plugin_address(&self) -> Address {
        self.weechat
    }

    /// Wraps the native buffer at `ptr` of the plugin at `weechat`.
    pub fn from_ptr(weechat: Address, ptr: Address) -> (buffer: Buffer)
        requires
            weechat != 0,
            ptr != 0,
        ensures
            buffer.address() == ptr,
            buffer.plugin_address() == weechat,
    {
        Buffer { weechat, ptr }
    }

    /// Returns the address of the native buffer, which is never null.
    pub fn get_ptr(&self) -> (ptr: Address)
        ensures
            ptr == self.address(),
            ptr != 0,
    {
        proof {
            use_type_invariant(self);
        }
        self.ptr
    }

    /// The call that switches the nicklist of the buffer on.
    pub fn nicklist_call(
        &self,
        runtime: &Runtime,
        current: ThreadId,
    ) -> (call: Result<NativeCall, Fault>)
        ensures
            call is Ok <==> runtime.admits(current),
            call matches Ok(built) ==> (
                built matches NativeCall::BufferSet { buffer, property, value }
                    && buffer == self.address()
                    && property@ == native_string("nicklist"@)
                    && value@ == native_string("1"@)
            ),
            call matches Err(fault) ==> Some(fault) == runtime.refusal(current),
    {
        runtime.clear_call(
            current,
            NativeCall::BufferSet {
                buffer: self.ptr,
                property: LossyCString::new("nicklist"),
                value: LossyCString::new("1"),
            },
        )
    }
}

/// The callback that runs when something is entered into the input bar of a
/// buffer.
pub trait BufferInputCallback {
    /// Called with the buffer and what was entered.
    fn callback(&mut self, buffer: &Buffer, input: &str);
}

/// The callback that runs when a buffer is closed.
pub trait BufferCloseCallback {
    /// Called with the buffer that is being closed.
    fn callback(&mut self, buffer: &Buffer);
}

/// The callback record of a buffer. The host holds it from the creation of
/// the buffer until it closes the buffer.
pub struct BufferPointers {
    pub(crate) weechat: Address,
    pub(crate) input_cb: Option<Box<dyn BufferInputCallback>>,
    pub(crate) close_cb: Option<Box<dyn BufferCloseCallback>>,
}

impl BufferPointers {
    /// The address of the native plugin record.
    pub closed spec fn plugin_address(&self) -> Address {
        self.weechat
    }

    /// Whether the record holds an input callback.
    pub closed spec fn has_input(&self) -> bool {
        self.input_cb is Some
    }

    /// Whether the record holds a close callback.
    pub closed spec fn has_close(&self) -> bool {
        self.close_cb is Some
    }

    /// Something was entered into the buffer at `buffer`. Returns whether
    /// an input callback ran.
    pub fn input(&mut self, buffer: Address, input: &str) -> (ran: bool)
        requires
            buffer != 0,
            old(self).plugin_address() != 0,
        ensures
            ran == old(self).has_input(),
            final(self).plugin_address() == old(self).plugin_address(),
            final(self).has_input() == old(self).has_input(),
            final(self).has_close() == old(self).has_close(),
    {
        let buffer = Buffer::from_ptr(self.weechat, buffer);
        match &mut self.input_cb {
            Some(callback) => {
                callback.callback(&buffer, input);
                true
            },
            None => false,
        }
    }

    /// The buffer at `buffer` is being closed. Returns whether a close
    /// callback ran.
    pub fn close(&mut self, buffer: Address) -> (ran: bool)
        requires
            buffer != 0,
            old(self).plugin_address() != 0,
        ensures
            ran == old(self).has_close(),
    {
        let buffer = Buffer::from_ptr(self.weechat, buffer);
        match &mut self.close_cb {
            Some(callback) => {
                callback.callback(&buffer);
                true
            },
            None => false,
        }
    }
}

/// The status that the host is given for an input: 0 when the input was
/// handed on, -1 when it could not be read as text.
pub open spec fn input_code(input: Seq<u8>) -> int {
    if valid_utf8(input) {
        0
    } else {
        -1
    }
}

impl Weechat {
    /// The call that creates the buffer `name`. The close callback is always
    /// registered, the input callback if `input` says so.
    pub fn buffer_new_call(
        &self,
        runtime: &Runtime,
        current: ThreadId,
        name: &str,
        input: bool,
    ) -> (call: Result<NativeCall, Fault>)
        ensures
            call is Ok <==> runtime.admits(current),
            call matches Ok(built) ==> (
                built matches NativeCall::BufferNew { plugin, name: n, input: i, close }
                    && plugin == self.address()
                    && n@ == native_string(name@)
                    && i == input
                    && close
            ),
            call matches Err(fault) ==> Some(fault) == runtime.refusal(current),
    {
        runtime.clear_call(
            current,
            NativeCall::BufferNew {
                plugin: self.ptr(),
                name: LossyCString::new(name),
                input,
                close: true,
            },
        )
    }

    /// Create a new Weechat buffer, from the host's answer to
    /// [`Self::buffer_new_call`]. Returns the buffer and the callback record
    /// that the host now holds. The nicklist of the buffer is switched on
    /// with [`Buffer::nicklist_call`].
    ///
    /// Fails if the host answered with a null address: the callbacks are
    /// then dropped at once.
    pub fn buffer_new(
        &self,
        buffer_ptr: Address,
        input_cb: Option<Box<dyn BufferInputCallback>>,
        close_cb: Option<Box<dyn BufferCloseCallback>>,
    ) -> (created: Result<(Buffer, CallbackContext<BufferPointers>), ()>)
        ensures
            created is Ok <==> buffer_ptr != 0,
            created matches Ok(pair) ==> (
                pair.0.address() == buffer_ptr
                && pair.0.plugin_address() == self.address()
                && pair.1.state() == ContextState::Registered
                && pair.1.record() is Some
                && pair.1.record()->0.plugin_address() == self.address()
                && pair.1.record()->0.has_input() == input_cb is Some
                && pair.1.record()->0.has_close() == close_cb is Some
            ),
    {
        let weechat = self.ptr();
        let mut context = CallbackContext::allocate(BufferPointers { weechat, input_cb, close_cb });
        if buffer_ptr == 0 {
            context.reclaim();
            return Err(());
        }
        context.register();
        Ok((Buffer::from_ptr(weechat, buffer_ptr), context))
    }

    /// The host reports that `input` was entered into the buffer at
    /// `buffer`. Input that is not valid UTF-8 is refused with the status
    /// -1 and no callback runs; otherwise the input callback runs if there
    /// is one, and the status is 0. A record that is not registered is a
    /// defect.
    pub fn on_buffer_input(
        context: &mut CallbackContext<BufferPointers>,
        buffer: Address,
        input: &[u8],
    ) -> (status: Result<i32, Fault>)
        requires
            buffer != 0,
            old(context).state().fires() ==> old(context).record()->0.plugin_address() != 0,
        ensures
            status is Ok <==> old(context).state().fires(),
            status matches Ok(code) ==> code == input_code(input@),
            status matches Err(fault) ==> fault == Fault::StaleContext,
            final(context).state() == old(context).state(),
    {
        let text = decode_strict(input);
        match context.invoke() {
            None => Err(Fault::StaleContext),
            Some(pointers) => match text {
                None => Ok(-1),
                Some(text) => {
                    pointers.input(buffer, text.as_str());
                    Ok(0)
                },
            },
        }
    }

    /// The host reports that it closes the buffer at `buffer`. The callback
    /// record is given back, which ends its life, and the close callback
    /// runs if there is one. The status for the host is 0. A record that
    /// was given back before is a defect: nothing runs a second time.
    pub fn on_buffer_close(
        context: &mut CallbackContext<BufferPointers>,
        buffer: Address,
    ) -> (status: Result<i32, Fault>)
        requires
            buffer != 0,
            old(context).record() is Some ==> old(context).record()->0.plugin_address() != 0,
        ensures
            status is Ok <==> old(context).state().releases(),
            status matches Ok(code) ==> code == 0,
            status matches Err(fault) ==> fault == Fault::StaleContext,
            final(context).state() == ContextState::Reclaimed,
    {
        match context.reclaim() {
            None => Err(Fault::StaleContext),
            Some(mut pointers) => {
                pointers.close(buffer);
                Ok(0)
            },
        }
    }
}

/// Weechat nicklist Group type. The handle cannot outlive the borrow of the
/// buffer that it was made from.
pub struct NickGroup<'a> {
    ptr: Address,
    buf_ptr: Address,
    weechat_ptr: Address,
    buffer: PhantomData<&'a Buffer>,
}

/// Whether `call` asks the host for the string property `property` of the
/// group at `group` in the buffer at `buffer`.
pub open spec fn is_group_string(
    call: NativeCall,
    buffer: Address,
    group: Address,
    property: Seq<char>,
) -> bool {
    call matches NativeCall::NicklistGroupGetString { buffer: b, group: g, property: p } && b
        == buffer && g == group && p@ == native_string(property)
}

/// Whether `call` asks the host for the integer property `property` of the
/// group at `group` in the buffer at `buffer`.
pub open spec fn is_group_integer(
    call: NativeCall,
    buffer: Address,
    group: Address,
    property: Seq<char>,
) -> bool {
    call matches NativeCall::NicklistGroupGetInteger { buffer: b, group: g, property: p } && b
        == buffer && g == group && p@ == native_string(property)
}

impl<'a> NickGroup<'a> {
    #[verifier::type_invariant]
    spec fn never_null(self) -> bool {
        self.ptr != 0 && self.buf_ptr != 0 && self.weechat_ptr != 0
    }

    /// The address of the native group.
    pub closed spec fn address(&self) -> Address {
        self.ptr
    }

    /// The address of the native buffer that the group belongs to.
    pub closed spec fn buffer_address(&self) -> Address {
        self.buf_ptr
    }

    /// The address of the native plugin record.
    pub closed spec fn plugin_address(&self) -> Address {
        self.weechat_ptr
    }

    /// Wraps the native group at `ptr` of the buffer at `buf_ptr`.
    pub fn from_ptrs(ptr: Address, buf_ptr: Address, weechat_ptr: Address) -> (group: NickGroup<'a>)
        requires
            ptr != 0,
            buf_ptr != 0,
            weechat_ptr != 0,
        ensures
            group.address() == ptr,
            group.buffer_address() == buf_ptr,
            group.plugin_address() == weechat_ptr,
    {
        NickGroup { ptr, buf_ptr, weechat_ptr, buffer: PhantomData }
    }

    /// Returns the plugin that the group belongs to.
    pub fn get_weechat(&self) -> (weechat: Weechat)
        ensures
            weechat.address() == self.plugin_address(),
    {
        proof {
            use_type_invariant(self);
        }
        Weechat::from_ptr(self.weechat_ptr)
    }

    /// The call that asks for a string property of the group.
    pub fn get_string_call(
        &self,
        runtime: &Runtime,
        current: ThreadId,
        property: &str,
    ) -> (call: Result<NativeCall, Fault>)
        ensures
            call is Ok <==> runtime.admits(current),
            call matches Ok(built) ==> (
                is_group_string(built, self.buffer_address(), self.address(), property@)
            ),
            call matches Err(fault) ==> Some(fault) == runtime.refusal(current),
    {
        runtime.clear_call(
            current,
            NativeCall::NicklistGroupGetString {
                buffer: self.buf_ptr,
                group: self.ptr,
                property: LossyCString::new(property),
            },
        )
    }

    /// Get a string property of the group, from the host's answer: nothing
    /// for a null pointer.
    pub fn get_string(&self, answer: Option<&[u8]>) -> (value: Option<String>)
        ensures
            value is Some <==> answer is Some,
            value is Some ==> value->0@ == decoded(answer->0@),
    {
        match answer {
            Some(bytes) => Some(decode_lossy(bytes)),
            None => None,
        }
    }

    /// The call that asks for an integer property of the group.
    pub fn get_integer_call(
        &self,
        runtime: &Runtime,
        current: ThreadId,
        property: &str,
    ) -> (call: Result<NativeCall, Fault>)
        ensures
            call is Ok <==> runtime.admits(current),
            call matches Ok(built) ==> (
                is_group_integer(built, self.buffer_address(), self.address(), property@)
            ),
            call matches Err(fault) ==> Some(fault) == runtime.refusal(current),
    {
        runtime.clear_call(
            current,
            NativeCall::NicklistGroupGetInteger {
                buffer: self.buf_ptr,
                group: self.ptr,
                property: LossyCString::new(property),
            },
        )
    }

    /// The call that asks for the name of the group.
    pub fn name_call(
        &self,
        runtime: &Runtime,
        current: ThreadId,
    ) -> (call: Result<NativeCall, Fault>)
        ensures
            call is Ok <==> runtime.admits(current),
            call matches Ok(built) ==> (
                is_group_string(built, self.buffer_address(), self.address(), "name"@)
            ),
            call matches Err(fault) ==> Some(fault) == runtime.refusal(current),
    {
        self.get_string_call(runtime, current, "name")
    }

    /// Get the name of the group, from the host's answer.
    pub fn name(&self, answer: &[u8]) -> (name: String)
        ensures
            name@ == decoded(answer@),
    {
        decode_lossy(answer)
    }

    /// The call that asks for the color of the group.
    pub fn color_call(
        &self,
        runtime: &Runtime,
        current: ThreadId,
    ) -> (call: Result<NativeCall, Fault>)
        ensures
            call is Ok <==> runtime.admits(current),
            call matches Ok(built) ==> (
                is_group_string(built, self.buffer_address(), self.address(), "color"@)
            ),
            call matches Err(fault) ==> Some(fault) == runtime.refusal(current),
    {
        self.get_string_call(runtime, current, "color")
    }

    /// Get the color of the group, from the host's answer.
    pub fn color(&self, answer: &[u8]) -> (color: String)
        ensures
            color@ == decoded(answer@),
    {
        decode_lossy(answer)
    }

    /// The call that asks whether the group is visible.
    pub fn visible_call(
        &self,
        runtime: &Runtime,
        current: ThreadId,
    ) -> (call: Result<NativeCall, Fault>)
        ensures
            call is Ok <==> runtime.admits(current),
            call matches Ok(built) ==> (
                is_group_integer(built, self.buffer_address(), self.address(), "visible"@)
            ),
            call matches Err(fault) ==> Some(fault) == runtime.refusal(current),
    {
        self.get_integer_call(runtime, current, "visible")
    }

    /// Is the nick group visible, from the host's answer.
    pub fn visible(&self, answer: i32) -> (visible: bool)
        ensures
            visible == (answer != 0),
    {
        answer != 0
    }

    /// The call that asks for the nesting level of the group.
    pub fn level_call(
        &self,
        runtime: &Runtime,
        current: ThreadId,
    ) -> (call: Result<NativeCall, Fault>)
        ensures
            call is Ok <==> runtime.admits(current),
            call matches Ok(built) ==> (
                is_group_integer(built, self.buffer_address(), self.address(), "level"@)
            ),
            call matches Err(fault) ==> Some(fault) == runtime.refusal(current),
    {
        self.get_integer_call(runtime, current, "level")
    }

    /// Get the group nesting level, from the host's answer.
    ///
    /// Returns 0 if this is the root group, 1 if it's a child of the root
    /// group. A negative answer wraps around.
    pub fn level(&self, answer: i32) -> (level: u32)
        ensures
            level == (if answer >= 0 { answer as int } else { answer + 0x1_0000_0000 }),
    {
        let wide: i64 = answer as i64;
        if wide >= 0 {
            wide as u32
        } else {
            (wide + 0x1_0000_0000) as u32
        }
    }
}

} // verus!

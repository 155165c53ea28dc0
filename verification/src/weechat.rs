//! The runtime handle and what plugins ask of the host through it.
//!
//! There is one runtime per process. It is set up when the host loads the
//! plugin, on the thread that owns every call to the host from then on, and
//! torn down when the host unloads the plugin.

use std::collections::VecDeque;
use vstd::prelude::*;
use vstd::string::StringExecFns;
use vstd::utf8::{decode_utf8, valid_utf8};

use crate::executor::{Executor, TaskId};
use crate::native::{Address, Fault, NativeCall, ThreadId};
use crate::text::{decode_lossy, decode_strict, decoded, native_string, same_text, LossyCString};

verus! {

/// A category of message, which the host marks with a prefix of its own.
#[derive(Debug, PartialEq, Eq, Clone, Copy, Structural)]
pub enum Prefix {
    /// Prefix for an error message.
    Error,
    /// Prefix for a networking related message.
    Network,
    /// Prefix for a `/me` action type of message.
    Action,
    /// Prefix for a message notifying that an user has joined the chat.
    Join,
    /// Prefix for a message notifying that an user has left the chat.
    Quit,
}

impl Prefix {
    /// The name under which the host knows the prefix.
    pub open spec fn native_name(self) -> Seq<char> {
        match self {
            Prefix::Error => "error"@,
            Prefix::Network => "network"@,
            Prefix::Action => "action"@,
            Prefix::Join => "join"@,
            Prefix::Quit => "quit"@,
        }
    }

    /// Returns the name under which the host knows the prefix.
    pub fn as_str(&self) -> (name: &'static str)
        ensures
            name@ == self.native_name(),
    {
        match self {
            Prefix::Error => "error",
            Prefix::Network => "network",
            Prefix::Action => "action",
            Prefix::Join => "join",
            Prefix::Quit => "quit",
        }
    }
}

/// The arguments that the plugin was loaded with, handed out one by one
/// from either end.
pub struct Args {
    iter: VecDeque<String>,
}

impl Args {
    /// The arguments that are left, the first one first.
    pub closed spec fn remaining(&self) -> Seq<Seq<char>> {
        self.iter.deep_view()
    }

    /// Reads the arguments as the host passes them. An argument that is not
    /// valid UTF-8 is not refused: its invalid sequences are replaced.
    pub fn new(argv: &Vec<Vec<u8>>) -> (args: Args)
        ensures
            args.remaining().len() == argv@.len(),
            forall|i: int|
                0 <= i < argv@.len() ==> #[trigger] args.remaining()[i] == decoded(argv@[i]@),
    {
        let mut iter: VecDeque<String> = VecDeque::new();
        let mut i: usize = 0;
        while i < argv.len()
            invariant
                0 <= i <= argv@.len(),
                iter@.len() == i,
                forall|j: int| 0 <= j < i ==> (#[trigger] iter@[j])@ == decoded(argv@[j]@),
            decreases argv@.len() - i,
        {
            iter.push_back(decode_lossy(argv[i].as_slice()));
            i += 1;
        }
        Args { iter }
    }

    /// Takes the first of the arguments that are left.
    pub fn next(&mut self) -> (argument: Option<String>)
        ensures
            argument is Some <==> old(self).remaining().len() > 0,
            argument matches Some(text) ==> (
                text@ == old(self).remaining()[0]
                && final(self).remaining() == old(self).remaining().drop_first()
            ),
            argument is None ==> final(self).remaining() == old(self).remaining(),
    {
        let ghost before = self.iter@;
        let argument = self.iter.pop_front();
        proof {
            if before.len() > 0 {
                assert(self.iter.deep_view() =~= before.map_values(|s: String| s@).drop_first());
                assert(before.map_values(|s: String| s@) =~= old(self).remaining());
            } else {
                assert(self.iter.deep_view() =~= old(self).remaining());
            }
        }
        argument
    }

    /// Takes the last of the arguments that are left.
    pub fn next_back(&mut self) -> (argument: Option<String>)
        ensures
            argument is Some <==> old(self).remaining().len() > 0,
            argument matches Some(text) ==> (
                text@ == old(self).remaining().last()
                && final(self).remaining() == old(self).remaining().drop_last()
            ),
            argument is None ==> final(self).remaining() == old(self).remaining(),
    {
        let ghost before = self.iter@;
        let argument = self.iter.pop_back();
        proof {
            if before.len() > 0 {
                assert(self.iter.deep_view() =~= before.map_values(|s: String| s@).drop_last());
                assert(before.map_values(|s: String| s@) =~= old(self).remaining());
            } else {
                assert(self.iter.deep_view() =~= old(self).remaining());
            }
        }
        argument
    }

    /// Returns how many arguments are left.
    pub fn len(&self) -> (count: usize)
        ensures
            count == self.remaining().len(),
    {
        self.iter.len()
    }

    /// Returns the bounds on how many arguments are left, which are exact.
    pub fn size_hint(&self) -> (bounds: (usize, Option<usize>))
        ensures
            bounds.0 == self.remaining().len(),
            bounds.1 == Some(bounds.0),
    {
        let count = self.iter.len();
        (count, Some(count))
    }
}

/// The plugin as the host knows it: the address of its native plugin record.
///
/// Handles carry a copy of this address, never the runtime itself.
pub struct Weechat {
    ptr: Address,
}

/// The state of the plugin's runtime.
pub struct Runtime {
    weechat: Option<Weechat>,
    thread_id: Option<ThreadId>,
    executor: Option<Executor>,
}

/// What is to be done about a panic.
#[derive(Debug, PartialEq, Eq, Clone, Copy, Structural)]
pub enum PanicReport {
    /// The owning thread panicked: print the report through the host,
    /// with a backtrace if asked for.
    MainThread { backtrace: bool },
    /// Another thread panicked while the executor runs: hand the report
    /// over to the owning thread, which prints it through the host.
    OtherThread { backtrace: bool },
    /// Another thread panicked and there is no executor to take the
    /// report: print it to the standard output.
    Local,
}

impl Runtime {
    /// Whether the runtime is set up and not torn down.
    pub closed spec fn is_initialized(&self) -> bool {
        self.weechat is Some
    }

    /// The address of the native plugin record of a runtime that is set up.
    pub closed spec fn plugin(&self) -> Address {
        self.weechat->0.ptr
    }

    /// The owning thread, from the time the runtime was first set up.
    pub closed spec fn owner(&self) -> Option<ThreadId> {
        self.thread_id
    }

    /// Whether the executor takes tasks in.
    pub open spec fn executor_runs(&self) -> bool {
        self.tasks() is Some && self.tasks()->0.is_running()
    }

    /// The executor of a runtime that was set up.
    pub closed spec fn tasks(&self) -> Option<Executor> {
        self.executor
    }

    /// Whether `current` may call the host.
    pub open spec fn admits(&self, current: ThreadId) -> bool {
        self.is_initialized() && self.owner() == Some(current)
    }

    /// The fault that stands in the way of a call to the host from
    /// `current`, if there is one. The thread is looked at first.
    pub open spec fn refusal(&self, current: ThreadId) -> Option<Fault> {
        if self.owner() is None {
            Some(Fault::NotInitialized)
        } else if self.owner() != Some(current) {
            Some(Fault::WrongThread)
        } else if !self.is_initialized() {
            Some(Fault::NotInitialized)
        } else {
            None
        }
    }

    /// The state of a process in which no plugin is loaded.
    pub fn new() -> (runtime: Runtime)
        ensures
            !runtime.is_initialized(),
            runtime.owner() is None,
            !runtime.executor_runs(),
    {
        Runtime { weechat: None, thread_id: None, executor: None }
    }

    /// Gives access to the executor, if the runtime was ever set up.
    pub fn executor(&mut self) -> (executor: Option<&mut Executor>)
        ensures
            executor is Some <==> old(self).tasks() is Some,
            executor matches Some(e) ==> (
                Some(*e) == old(self).tasks()
                && final(self).tasks() == Some(*final(e))
            ),
            executor is None ==> final(self).tasks() == old(self).tasks(),
            final(self).is_initialized() == old(self).is_initialized(),
            final(self).is_initialized() ==> final(self).plugin() == old(self).plugin(),
            final(self).owner() == old(self).owner(),
    {
        self.executor.as_mut()
    }

    /// Clears `call` for the thread `current`, which is about to make it.
    /// Every call to the host goes through here, whatever built it: only
    /// the owning thread gets its call back, and only while the runtime is
    /// set up.
    pub fn clear_call(
        &self,
        current: ThreadId,
        call: NativeCall,
    ) -> (cleared: Result<NativeCall, Fault>)
        ensures
            cleared is Ok <==> self.admits(current),
            cleared matches Ok(c) ==> c == call,
            cleared matches Err(fault) ==> Some(fault) == self.refusal(current),
    {
        match self.gate(current) {
            Ok(_) => Ok(call),
            Err(fault) => Err(fault),
        }
    }

    /// Decides whether a call to the host can go on: the runtime has to be
    /// set up, and the caller has to be on the owning thread.
    fn gate(&self, current: ThreadId) -> (plugin: Result<Address, Fault>)
        ensures
            plugin is Ok <==> self.admits(current),
            plugin matches Ok(ptr) ==> ptr == self.plugin() && ptr != 0,
            plugin matches Err(fault) ==> Some(fault) == self.refusal(current),
    {
        match Weechat::check_thread(self, current) {
            Err(fault) => Err(fault),
            Ok(()) => match &self.weechat {
                Some(weechat) => Ok(weechat.ptr()),
                None => Err(Fault::NotInitialized),
            },
        }
    }
}

/// Calls `backtrace::Backtrace::new` and writes the trace out with `{:?}`.
///
/// Trusted: nothing is claimed of the text, which depends on where and when
/// the call is made.
#[verifier::external_body]
fn capture_backtrace() -> (trace: String) {
    format!("{:?}", backtrace::Backtrace::new())
}

/// A thread other than the owning thread is never admitted: whatever it
/// wants of the host, it is refused, and the fault names the thread.
pub proof fn lemma_off_thread_is_refused(runtime: Runtime, current: ThreadId)
    requires
        runtime.owner() is Some,
        runtime.owner() != Some(current),
    ensures
        !runtime.admits(current),
        runtime.refusal(current) == Some(Fault::WrongThread),
{
}

/// Before the runtime was ever set up no thread is admitted.
pub proof fn lemma_uninitialized_is_refused(runtime: Runtime, current: ThreadId)
    requires
        !runtime.is_initialized(),
    ensures
        !runtime.admits(current),
        runtime.refusal(current) == Some(Fault::NotInitialized) || runtime.refusal(current) == Some(
            Fault::WrongThread,
        ),
{
}

impl Weechat {
    #[verifier::type_invariant]
    spec fn never_null(self) -> bool {
        self.ptr != 0
    }

    /// The address of the native plugin record.
    pub closed spec fn address(&self) -> Address {
        self.ptr
    }

    /// Wraps the address of the native plugin record.
    pub fn from_ptr(ptr: Address) -> (weechat: Weechat)
        requires
            ptr != 0,
        ensures
            weechat.address() == ptr,
    {
        Weechat { ptr }
    }

    /// Returns the address of the native plugin record, which is never null.
    pub fn ptr(&self) -> (ptr: Address)
        ensures
            ptr == self.address(),
            ptr != 0,
    {
        proof {
            use_type_invariant(self);
        }
        self.ptr
    }

    /// Sets the runtime up for the plugin whose native record is at `ptr`,
    /// on the thread `current`, which owns every call to the host from now
    /// on. A fresh executor is started.
    pub fn init_from_ptr(
        runtime: &mut Runtime,
        ptr: Address,
        current: ThreadId,
    ) -> (weechat: Weechat)
        requires
            ptr != 0,
        ensures
            weechat.address() == ptr,
            final(runtime).is_initialized(),
            final(runtime).plugin() == ptr,
            final(runtime).owner() == Some(current),
            final(runtime).executor_runs(),
            final(runtime).tasks() is Some,
            final(runtime).tasks()->0.count() == 0,
            final(runtime).tasks()->0.ready() == Seq::<TaskId>::empty(),
            final(runtime).admits(current),
    {
        runtime.weechat = Some(Weechat { ptr });
        runtime.thread_id = Some(current);
        runtime.executor = Some(Executor::start());
        Weechat { ptr }
    }

    /// Tears the runtime down: the executor is stopped and the plugin is
    /// forgotten. The owning thread stays on record. Tearing down twice is
    /// the same as tearing down once, and the runtime can be set up again.
    pub fn free(runtime: &mut Runtime)
        ensures
            !final(runtime).is_initialized(),
            !final(runtime).executor_runs(),
            final(runtime).owner() == old(runtime).owner(),
            final(runtime).tasks() is Some <==> old(runtime).tasks() is Some,
            old(runtime).tasks() matches Some(before) ==> final(runtime).tasks()->0.stopped(
                &before,
            ),
    {
        runtime.weechat = None;
        match &mut runtime.executor {
            Some(executor) => executor.free(),
            None => {},
        }
    }

    /// Get the Weechat plugin, if the runtime is set up.
    pub fn weechat(runtime: &Runtime) -> (weechat: Result<Weechat, Fault>)
        ensures
            weechat is Ok <==> runtime.is_initialized(),
            weechat matches Ok(w) ==> w.address() == runtime.plugin(),
            weechat matches Err(fault) ==> fault == Fault::NotInitialized,
    {
        match &runtime.weechat {
            Some(weechat) => Ok(Weechat::from_ptr(weechat.ptr())),
            None => Err(Fault::NotInitialized),
        }
    }

    /// Returns the owning thread, if the runtime was ever set up.
    pub fn thread_id(runtime: &Runtime) -> (thread: Result<ThreadId, Fault>)
        ensures
            thread is Ok <==> runtime.owner() is Some,
            thread matches Ok(id) ==> Some(id) == runtime.owner(),
            thread matches Err(fault) ==> fault == Fault::NotInitialized,
    {
        match runtime.thread_id {
            Some(id) => Ok(id),
            None => Err(Fault::NotInitialized),
        }
    }

    /// Decides whether the thread `current` may call the host: only the
    /// owning thread may, and no thread before the runtime was set up.
    pub fn check_thread(runtime: &Runtime, current: ThreadId) -> (admitted: Result<(), Fault>)
        ensures
            admitted is Ok <==> runtime.owner() == Some(current),
            admitted matches Err(fault) ==> fault == (if runtime.owner() is None {
                Fault::NotInitialized
            } else {
                Fault::WrongThread
            }),
    {
        match runtime.thread_id {
            None => Err(Fault::NotInitialized),
            Some(owner) => if owner.0 == current.0 {
                Ok(())
            } else {
                Err(Fault::WrongThread)
            },
        }
    }
}

impl Weechat {
    /// Write a message in WeeChat log file (weechat.log): the call that does it.
    pub fn log(runtime: &Runtime, current: ThreadId, msg: &str) -> (call: Result<NativeCall, Fault>)
        ensures
            call is Ok <==> runtime.admits(current),
            call matches Ok(c) ==> (c matches NativeCall::LogPrintf { message: message_bytes }
                && message_bytes@ == native_string(msg@)),
            call matches Err(fault) ==> Some(fault) == runtime.refusal(current),
    {
        match runtime.gate(current) {
            Err(fault) => Err(fault),
            Ok(plugin) => Ok(
                NativeCall::LogPrintf {
                    message: LossyCString::new(msg),
                },
            ),
        }
    }

    /// Display a message on the core weechat buffer: the call that does it.
    pub fn print(
        runtime: &Runtime,
        current: ThreadId,
        msg: &str,
    ) -> (call: Result<NativeCall, Fault>)
        ensures
            call is Ok <==> runtime.admits(current),
            call matches Ok(c) ==> (c matches NativeCall::Print { message: message_bytes }
                && message_bytes@ == native_string(msg@)),
            call matches Err(fault) ==> Some(fault) == runtime.refusal(current),
    {
        match runtime.gate(current) {
            Err(fault) => Err(fault),
            Ok(plugin) => Ok(
                NativeCall::Print {
                    message: LossyCString::new(msg),
                },
            ),
        }
    }

    /// The call that asks for the code that displays the color `color_name`.
    pub fn color_call(
        runtime: &Runtime,
        current: ThreadId,
        color_name: &str,
    ) -> (call: Result<NativeCall, Fault>)
        ensures
            call is Ok <==> runtime.admits(current),
            call matches Ok(c) ==> (c matches NativeCall::Color { name: name_bytes }
                && name_bytes@ == native_string(color_name@)),
            call matches Err(fault) ==> Some(fault) == runtime.refusal(current),
    {
        match runtime.gate(current) {
            Err(fault) => Err(fault),
            Ok(plugin) => Ok(
                NativeCall::Color {
                    name: LossyCString::new(color_name),
                },
            ),
        }
    }

    /// Return a string color code for display, from the host's answer. The
    /// host answers in UTF-8; anything else is a defect and is not read.
    pub fn color(answer: &[u8]) -> (code: String)
        requires
            valid_utf8(answer@),
        ensures
            code@ == decode_utf8(answer@),
    {
        match decode_strict(answer) {
            Some(code) => code,
            None => String::new(),
        }
    }

    /// The call that asks for the code that displays `foreground_color` on
    /// `background_color`: the color named by the two names with a comma
    /// between them.
    pub fn color_pair_call(
        runtime: &Runtime,
        current: ThreadId,
        foreground_color: &str,
        background_color: &str,
    ) -> (call: Result<NativeCall, Fault>)
        ensures
            call is Ok <==> runtime.admits(current),
            call matches Ok(c) ==> (c matches NativeCall::Color { name } && name@ == native_string(
                foreground_color@ + ","@ + background_color@,
            )),
            call matches Err(fault) ==> Some(fault) == runtime.refusal(current),
    {
        let mut name = String::from_str(foreground_color);
        name.append(",");
        name.append(background_color);
        Weechat::color_call(runtime, current, name.as_str())
    }

    /// Return a string color pair for display, from the host's answer.
    pub fn color_pair(answer: &[u8]) -> (code: String)
        requires
            valid_utf8(answer@),
        ensures
            code@ == decode_utf8(answer@),
    {
        Weechat::color(answer)
    }

    /// The call that asks for the value of a prefix.
    pub fn prefix_call(
        runtime: &Runtime,
        current: ThreadId,
        prefix: Prefix,
    ) -> (call: Result<NativeCall, Fault>)
        ensures
            call is Ok <==> runtime.admits(current),
            call matches Ok(c) ==> (c matches NativeCall::Prefix { name } && name@ == native_string(
                prefix.native_name(),
            )),
            call matches Err(fault) ==> Some(fault) == runtime.refusal(current),
    {
        match runtime.gate(current) {
            Err(fault) => Err(fault),
            Ok(_) => Ok(NativeCall::Prefix { name: LossyCString::new(prefix.as_str()) }),
        }
    }

    /// Retrieve a prefix value, from the host's answer. An empty string is
    /// the answer for a prefix that the host does not know.
    pub fn prefix(answer: &[u8]) -> (value: String)
        requires
            valid_utf8(answer@),
        ensures
            value@ == decode_utf8(answer@),
    {
        match decode_strict(answer) {
            Some(value) => value,
            None => String::new(),
        }
    }

    /// The call that asks for some info from Weechat or a plugin.
    pub fn info_get_call(
        runtime: &Runtime,
        current: ThreadId,
        name: &str,
        arguments: &str,
    ) -> (call: Result<NativeCall, Fault>)
        ensures
            call is Ok <==> runtime.admits(current),
            call matches Ok(c)
                ==> (c matches NativeCall::InfoGet { plugin: p, name: name_bytes,
                    arguments: arguments_bytes }
                && p == runtime.plugin()
                && name_bytes@ == native_string(name@)
                && arguments_bytes@ == native_string(arguments@)),
            call matches Err(fault) ==> Some(fault) == runtime.refusal(current),
    {
        match runtime.gate(current) {
            Err(fault) => Err(fault),
            Ok(plugin) => Ok(
                NativeCall::InfoGet {
                    plugin: plugin,
                    name: LossyCString::new(name),
                    arguments: LossyCString::new(arguments),
                },
            ),
        }
    }

    /// Get some info from Weechat or a plugin, from the host's answer:
    /// nothing for a null pointer.
    pub fn info_get(answer: Option<&[u8]>) -> (info: Option<String>)
        ensures
            info is Some <==> answer is Some,
            info is Some ==> info->0@ == decoded(answer->0@),
    {
        match answer {
            Some(bytes) => Some(decode_lossy(bytes)),
            None => None,
        }
    }

    /// The call that removes WeeChat colors from a string.
    pub fn remove_color_call(
        runtime: &Runtime,
        current: ThreadId,
        string: &str,
    ) -> (call: Result<NativeCall, Fault>)
        ensures
            call is Ok <==> runtime.admits(current),
            call matches Ok(c) ==> (c matches NativeCall::StringRemoveColor { string: string_bytes }
                && string_bytes@ == native_string(string@)),
            call matches Err(fault) ==> Some(fault) == runtime.refusal(current),
    {
        match runtime.gate(current) {
            Err(fault) => Err(fault),
            Ok(plugin) => Ok(
                NativeCall::StringRemoveColor {
                    string: LossyCString::new(string),
                },
            ),
        }
    }

    /// Remove WeeChat colors from a string: the host's answer as text.
    pub fn remove_color(answer: &[u8]) -> (stripped: String)
        ensures
            stripped@ == decoded(answer@),
    {
        decode_lossy(answer)
    }

    /// The call that evaluates a Weechat expression.
    pub fn eval_string_expression_call(
        runtime: &Runtime,
        current: ThreadId,
        expression: &str,
    ) -> (call: Result<NativeCall, Fault>)
        ensures
            call is Ok <==> runtime.admits(current),
            call matches Ok(c)
                ==> (c matches NativeCall::StringEvalExpression { expression: expression_bytes }
                && expression_bytes@ == native_string(expression@)),
            call matches Err(fault) ==> Some(fault) == runtime.refusal(current),
    {
        match runtime.gate(current) {
            Err(fault) => Err(fault),
            Ok(plugin) => Ok(
                NativeCall::StringEvalExpression {
                    expression: LossyCString::new(expression),
                },
            ),
        }
    }

    /// Evaluate a Weechat expression and return the result, from the host's
    /// answer: an error for a null pointer.
    pub fn eval_string_expression(answer: Option<&[u8]>) -> (result: Result<String, ()>)
        ensures
            result is Ok <==> answer is Some,
            result is Ok ==> result->Ok_0@ == decoded(answer->0@),
    {
        match answer {
            Some(bytes) => Ok(decode_lossy(bytes)),
            None => Err(()),
        }
    }

    /// The call that asks for the Weechat homedir.
    pub fn home_dir_call(runtime: &Runtime, current: ThreadId) -> (call: Result<NativeCall, Fault>)
        ensures
            call is Ok <==> runtime.admits(current),
            call matches Ok(c) ==> (c matches NativeCall::StringEvalPathHome { path } && path@
                == native_string("%h"@)),
            call matches Err(fault) ==> Some(fault) == runtime.refusal(current),
    {
        match runtime.gate(current) {
            Err(fault) => Err(fault),
            Ok(_) => Ok(NativeCall::StringEvalPathHome { path: LossyCString::new("%h") }),
        }
    }

    /// Get the Weechat homedir, from the host's answer.
    pub fn home_dir(answer: &[u8]) -> (path: String)
        ensures
            path@ == decoded(answer@),
    {
        decode_lossy(answer)
    }

    /// The call that replaces a leading `~` with the home directory.
    pub fn expand_home_call(
        runtime: &Runtime,
        current: ThreadId,
        string: &str,
    ) -> (call: Result<NativeCall, Fault>)
        ensures
            call is Ok <==> runtime.admits(current),
            call matches Ok(c) ==> (c matches NativeCall::StringExpandHome { path: path_bytes }
                && path_bytes@ == native_string(string@)),
            call matches Err(fault) ==> Some(fault) == runtime.refusal(current),
    {
        match runtime.gate(current) {
            Err(fault) => Err(fault),
            Ok(plugin) => Ok(
                NativeCall::StringExpandHome {
                    path: LossyCString::new(string),
                },
            ),
        }
    }

    /// Replace a leading `~` with the home directory: the host's answer as
    /// text.
    pub fn expand_home(answer: &[u8]) -> (path: String)
        ensures
            path@ == decoded(answer@),
    {
        decode_lossy(answer)
    }

    /// The call that executes a modifier on `input_string`.
    pub fn execute_modifier_call(
        runtime: &Runtime,
        current: ThreadId,
        modifier: &str,
        modifier_data: &str,
        input_string: &str,
    ) -> (call: Result<NativeCall, Fault>)
        ensures
            call is Ok <==> runtime.admits(current),
            call matches Ok(c)
                ==> (c matches NativeCall::HookModifierExec { plugin: p, modifier: modifier_bytes,
                    modifier_data: modifier_data_bytes, string: string_bytes }
                && p == runtime.plugin()
                && modifier_bytes@ == native_string(modifier@)
                && modifier_data_bytes@ == native_string(modifier_data@)
                && string_bytes@ == native_string(input_string@)),
            call matches Err(fault) ==> Some(fault) == runtime.refusal(current),
    {
        match runtime.gate(current) {
            Err(fault) => Err(fault),
            Ok(plugin) => Ok(
                NativeCall::HookModifierExec {
                    plugin: plugin,
                    modifier: LossyCString::new(modifier),
                    modifier_data: LossyCString::new(modifier_data),
                    string: LossyCString::new(input_string),
                },
            ),
        }
    }

    /// Execute a modifier: the modified string from the host's answer, or an
    /// error for a null pointer, when the string couldn't be modified.
    pub fn execute_modifier(answer: Option<&[u8]>) -> (result: Result<String, ()>)
        ensures
            result is Ok <==> answer is Some,
            result is Ok ==> result->Ok_0@ == decoded(answer->0@),
    {
        match answer {
            Some(bytes) => Ok(decode_lossy(bytes)),
            None => Err(()),
        }
    }

    /// Update the content of a bar item, by calling its build callback: the call that does it.
    pub fn bar_item_update(
        runtime: &Runtime,
        current: ThreadId,
        name: &str,
    ) -> (call: Result<NativeCall, Fault>)
        ensures
            call is Ok <==> runtime.admits(current),
            call matches Ok(c) ==> (c matches NativeCall::BarItemUpdate { name: name_bytes }
                && name_bytes@ == native_string(name@)),
            call matches Err(fault) ==> Some(fault) == runtime.refusal(current),
    {
        match runtime.gate(current) {
            Err(fault) => Err(fault),
            Ok(plugin) => Ok(
                NativeCall::BarItemUpdate {
                    name: LossyCString::new(name),
                },
            ),
        }
    }

    /// Spawn a new task on the main Weechat thread. Fails where the caller
    /// is not on that thread, and where the executor is not running any
    /// more.
    pub fn spawn(runtime: &mut Runtime, current: ThreadId) -> (task: Result<TaskId, Fault>)
        requires
            old(runtime).tasks() is Some ==> old(runtime).tasks()->0.count() < usize::MAX,
        ensures
            task is Ok <==> old(runtime).owner() == Some(current) && old(runtime).executor_runs(),
            task matches Ok(id) ==> (
                final(runtime).tasks() is Some
                && final(runtime).tasks()->0.spawned(&old(runtime).tasks()->0, id)
            ),
            task matches Err(fault) ==> fault == (if old(runtime).owner() is None {
                Fault::NotInitialized
            } else if old(runtime).owner() != Some(current) {
                Fault::WrongThread
            } else {
                Fault::ExecutorStopped
            }),
            task is Err ==> final(runtime).tasks() == old(runtime).tasks(),
            final(runtime).owner() == old(runtime).owner(),
            final(runtime).is_initialized() == old(runtime).is_initialized(),
            final(runtime).executor_runs() == old(runtime).executor_runs(),
    {
        match Weechat::spawn_checked(runtime, current) {
            Err(fault) => Err(fault),
            Ok(Some(id)) => Ok(id),
            Ok(None) => Err(Fault::ExecutorStopped),
        }
    }

    /// Spawn a new task on the main Weechat thread, checking if the
    /// executor is running: there is no handle if it is not. Fails where the
    /// caller is not on that thread.
    pub fn spawn_checked(
        runtime: &mut Runtime,
        current: ThreadId,
    ) -> (task: Result<Option<TaskId>, Fault>)
        requires
            old(runtime).tasks() is Some ==> old(runtime).tasks()->0.count() < usize::MAX,
        ensures
            task is Ok <==> old(runtime).owner() == Some(current),
            task matches Ok(handle) ==> (handle is Some <==> old(runtime).executor_runs()),
            task matches Ok(Some(id)) ==> (
                final(runtime).tasks() is Some
                && final(runtime).tasks()->0.spawned(&old(runtime).tasks()->0, id)
            ),
            task matches Err(fault) ==> fault == (if old(runtime).owner() is None {
                Fault::NotInitialized
            } else {
                Fault::WrongThread
            }),
            !(task matches Ok(Some(_))) ==> final(runtime).tasks() == old(runtime).tasks(),
            final(runtime).owner() == old(runtime).owner(),
            final(runtime).is_initialized() == old(runtime).is_initialized(),
            final(runtime).executor_runs() == old(runtime).executor_runs(),
    {
        match Weechat::check_thread(runtime, current) {
            Err(fault) => Err(fault),
            Ok(()) => Ok(Weechat::spawn_from_thread(runtime)),
        }
    }

    /// Puts a new task in the queue of the main Weechat thread, from any
    /// thread. This only enqueues: nothing of the host is called. There is
    /// no handle if the executor is not running.
    pub fn spawn_from_thread(runtime: &mut Runtime) -> (task: Option<TaskId>)
        requires
            old(runtime).tasks() is Some ==> old(runtime).tasks()->0.count() < usize::MAX,
        ensures
            task is Some <==> old(runtime).executor_runs(),
            task matches Some(id) ==> (
                final(runtime).tasks() is Some
                && final(runtime).tasks()->0.spawned(&old(runtime).tasks()->0, id)
            ),
            task is None ==> final(runtime).tasks() == old(runtime).tasks(),
            final(runtime).owner() == old(runtime).owner(),
            final(runtime).is_initialized() == old(runtime).is_initialized(),
            final(runtime).executor_runs() == old(runtime).executor_runs(),
    {
        match &mut runtime.executor {
            Some(executor) => {
                if executor.running() {
                    executor.spawn()
                } else {
                    None
                }
            },
            None => None,
        }
    }

    /// Whether the environment asks for a backtrace: the variable is set to
    /// `1`.
    pub fn backtrace_enabled(variable: Option<&str>) -> (enabled: bool)
        ensures
            enabled == (variable is Some && variable->0@ == "1"@),
    {
        match variable {
            Some(value) => same_text(value, "1"),
            None => false,
        }
    }

    /// The backtrace of the calling thread, written out for a reader, if one
    /// is asked for.
    pub fn backtrace(enabled: bool) -> (trace: Option<String>)
        ensures
            trace is Some <==> enabled,
    {
        if enabled {
            Some(capture_backtrace())
        } else {
            None
        }
    }

    /// Decides what is to be done about a panic on the thread `current`,
    /// given what the environment says about backtraces.
    pub fn panic_hook(
        runtime: &Runtime,
        current: ThreadId,
        variable: Option<&str>,
    ) -> (report: Result<PanicReport, Fault>)
        ensures
            report is Ok <==> runtime.owner() is Some,
            report matches Err(fault) ==> fault == Fault::NotInitialized,
            report matches Ok(r) ==> r == (if runtime.owner() == Some(current) {
                PanicReport::MainThread {
                    backtrace: variable is Some && variable->0@ == "1"@,
                }
            } else if runtime.executor_runs() {
                PanicReport::OtherThread {
                    backtrace: variable is Some && variable->0@ == "1"@,
                }
            } else {
                PanicReport::Local
            }),
    {
        let weechat_thread = match Weechat::thread_id(runtime) {
            Ok(thread) => thread,
            Err(fault) => {
                return Err(fault);
            },
        };
        let backtrace = Weechat::backtrace_enabled(variable);
        if current.0 == weechat_thread.0 {
            Ok(PanicReport::MainThread { backtrace })
        } else {
            let active = match &runtime.executor {
                Some(executor) => executor.running(),
                None => false,
            };
            if active {
                Ok(PanicReport::OtherThread { backtrace })
            } else {
                Ok(PanicReport::Local)
            }
        }
    }

    /// The report of a panic on the main thread: the host's error prefix,
    /// the panic, and the backtrace on a line of its own if there is one.
    pub fn main_panic(prefix: &str, info: &str, backtrace: Option<&str>) -> (report: String)
        ensures
            report@ == prefix@ + "Panic in the main Weechat thread: "@ + info@ + (match backtrace {
                Some(trace) => "\n"@ + trace@,
                None => Seq::<char>::empty(),
            }),
    {
        let mut report = String::from_str(prefix);
        report.append("Panic in the main Weechat thread: ");
        report.append(info);
        match backtrace {
            Some(trace) => {
                report.append("\n");
                report.append(trace);
                proof {
                    assert(report@ =~= prefix@ + "Panic in the main Weechat thread: "@ + info@ + (
                    "\n"@ + trace@));
                }
            },
            None => {
                proof {
                    assert(report@ =~= prefix@ + "Panic in the main Weechat thread: "@ + info@
                        + Seq::<char>::empty());
                }
            },
        }
        report
    }

    /// The report of a panic on another thread: the host's error prefix,
    /// the name of the thread between the codes that color it, the panic,
    /// and then the backtrace on a line of its own, or a full stop.
    pub fn thread_panic(
        prefix: &str,
        red: &str,
        thread_name: &str,
        reset: &str,
        message: &str,
        backtrace: Option<&str>,
    ) -> (report: String)
        ensures
            report@ == prefix@ + "Thread '"@ + red@ + thread_name@ + reset@ + "' "@ + message@ + (
            match backtrace {
                Some(trace) => "\n"@ + trace@,
                None => "."@,
            }),
    {
        let mut report = String::from_str(prefix);
        report.append("Thread '");
        report.append(red);
        report.append(thread_name);
        report.append(reset);
        report.append("' ");
        report.append(message);
        let ghost head = report@;
        match backtrace {
            Some(trace) => {
                report.append("\n");
                report.append(trace);
                proof {
                    assert(report@ =~= head + ("\n"@ + trace@));
                }
            },
            None => {
                report.append(".");
            },
        }
        report
    }
}

} // verus!

//! Verified core of a WeeChat plugin runtime.
//!
//! The host process owns every native object and is reached only through its
//! call table. This crate holds the bookkeeping that has to be right on the
//! plugin's side of that boundary: which thread may call, which callback
//! records are alive, what the configuration tree contains, and how native
//! status codes, type names and strings are read.
//!
//! Nothing here touches a native pointer. A call for the host is described by
//! a [`NativeCall`] value, which is built for the owning thread only; the
//! embedding layer performs it and hands the answer back as plain values.

pub mod buffer;
pub mod callback;
pub mod config;
pub mod executor;
pub mod hooks;
pub mod native;
pub mod plugin;
pub mod text;
pub mod weechat;

pub use executor::{Executor, TaskEvent, TaskId, TaskState};
pub use native::{Address, Fault, NativeCall, ThreadId};
pub use plugin::{Plugin, ReturnCode};
pub use text::LossyCString;
pub use weechat::{Args, PanicReport, Prefix, Runtime, Weechat};

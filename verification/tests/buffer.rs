use std::cell::{Cell, RefCell};
use std::rc::Rc;

use weechat::buffer::{Buffer, BufferCloseCallback, BufferInputCallback, NickGroup};
use weechat::callback::CallbackContext;
use weechat::hooks::{CommandCallback, CommandInfo};
use weechat::{Fault, NativeCall, Runtime, ThreadId, Weechat};

const MAIN: ThreadId = ThreadId(1);

/// A runtime that is set up on the thread `MAIN`.
fn rt() -> Runtime {
    let mut runtime = Runtime::new();
    Weechat::init_from_ptr(&mut runtime, 0x77, MAIN);
    runtime
}

struct Record(Rc<RefCell<Vec<String>>>);

impl BufferInputCallback for Record {
    fn callback(&mut self, buffer: &Buffer, input: &str) {
        self.0.borrow_mut().push(format!("{:x}:{}", buffer.get_ptr(), input));
    }
}

struct Closed {
    closed: Rc<Cell<usize>>,
    dropped: Rc<Cell<usize>>,
}

impl BufferCloseCallback for Closed {
    fn callback(&mut self, _: &Buffer) {
        self.closed.set(self.closed.get() + 1);
    }
}

impl Drop for Closed {
    fn drop(&mut self) {
        self.dropped.set(self.dropped.get() + 1);
    }
}

#[test]
fn buffer_callbacks_live_until_the_host_closes_the_buffer() {
    let weechat = Weechat::from_ptr(0x77);
    let lines = Rc::new(RefCell::new(Vec::new()));
    let closed = Rc::new(Cell::new(0));
    let dropped = Rc::new(Cell::new(0));

    assert_eq!(
        weechat.buffer_new_call(&rt(), MAIN, "cha\0t", true).unwrap(),
        NativeCall::BufferNew { plugin: 0x77, name: b"chat".to_vec(), input: true, close: true }
    );
    let (buffer, mut context) = weechat
        .buffer_new(
            0xb0,
            Some(Box::new(Record(lines.clone()))),
            Some(Box::new(Closed { closed: closed.clone(), dropped: dropped.clone() })),
        )
        .ok()
        .unwrap();
    assert_eq!(buffer.get_ptr(), 0xb0);
    assert_eq!(
        buffer.nicklist_call(&rt(), MAIN),
        Ok(NativeCall::BufferSet {
            buffer: 0xb0,
            property: b"nicklist".to_vec(),
            value: b"1".to_vec(),
        })
    );
    assert_eq!(buffer.nicklist_call(&rt(), ThreadId(9)), Err(Fault::WrongThread));
    assert!(context.is_registered());

    assert_eq!(Weechat::on_buffer_input(&mut context, 0xb0, b"hello"), Ok(0));
    // Input that is not text is refused and the callback does not run.
    assert_eq!(Weechat::on_buffer_input(&mut context, 0xb0, b"\xff"), Ok(-1));
    assert_eq!(*lines.borrow(), vec![String::from("b0:hello")]);

    assert_eq!(Weechat::on_buffer_close(&mut context, 0xb0), Ok(0));
    assert_eq!(closed.get(), 1);
    assert_eq!(dropped.get(), 1);
    assert!(context.is_reclaimed());

    // The record is gone: nothing runs and nothing is given back twice.
    assert_eq!(Weechat::on_buffer_close(&mut context, 0xb0), Err(Fault::StaleContext));
    assert_eq!(Weechat::on_buffer_input(&mut context, 0xb0, b"late"), Err(Fault::StaleContext));
    assert_eq!(closed.get(), 1);
    assert_eq!(dropped.get(), 1);
    assert_eq!(lines.borrow().len(), 1);
}

#[test]
fn refused_buffer_drops_its_callbacks() {
    let weechat = Weechat::from_ptr(0x77);
    let closed = Rc::new(Cell::new(0));
    let dropped = Rc::new(Cell::new(0));
    let created = weechat.buffer_new(
        0,
        None,
        Some(Box::new(Closed { closed: closed.clone(), dropped: dropped.clone() })),
    );
    assert!(created.is_err());
    assert_eq!(dropped.get(), 1);
    assert_eq!(closed.get(), 0);
}

#[test]
fn nick_group_properties() {
    let group = NickGroup::from_ptrs(0x10, 0xb0, 0x77);
    assert_eq!(group.get_weechat().ptr(), 0x77);
    assert_eq!(
        group.name_call(&rt(), MAIN).unwrap(),
        NativeCall::NicklistGroupGetString { buffer: 0xb0, group: 0x10, property: b"name".to_vec() }
    );
    assert_eq!(
        group.color_call(&rt(), MAIN).unwrap(),
        NativeCall::NicklistGroupGetString {
            buffer: 0xb0,
            group: 0x10,
            property: b"color".to_vec(),
        }
    );
    assert_eq!(
        group.visible_call(&rt(), MAIN).unwrap(),
        NativeCall::NicklistGroupGetInteger {
            buffer: 0xb0,
            group: 0x10,
            property: b"visible".to_vec(),
        }
    );
    assert_eq!(
        group.level_call(&rt(), MAIN).unwrap(),
        NativeCall::NicklistGroupGetInteger {
            buffer: 0xb0,
            group: 0x10,
            property: b"level".to_vec(),
        }
    );
    assert_eq!(group.name(b"ops"), "ops");
    assert_eq!(group.color(b"weechat.color.nicklist_group"), "weechat.color.nicklist_group");
    assert_eq!(group.get_string(None), None);
    assert_eq!(group.get_string(Some(b"x")), Some(String::from("x")));
    assert!(group.visible(1));
    assert!(!group.visible(0));
    assert_eq!(group.level(0), 0);
    assert_eq!(group.level(1), 1);
    assert_eq!(group.level(-1), u32::MAX);
}

struct Count(Rc<Cell<usize>>);

impl CommandCallback for Count {
    fn callback(&mut self, _: &Buffer) {
        self.0.set(self.0.get() + 1);
    }
}

#[test]
fn hooked_command_runs_until_it_is_unhooked() {
    let weechat = Weechat::from_ptr(0x77);
    let info = CommandInfo {
        name: String::from("greet"),
        description: String::from("Say hello"),
        args: String::from("[name]"),
        args_description: String::from("name: who to greet"),
        completion: String::from("%(nicks)"),
    };
    assert_eq!(
        weechat.hook_command_call(&rt(), MAIN, &info).unwrap(),
        NativeCall::HookCommand {
            plugin: 0x77,
            name: b"greet".to_vec(),
            description: b"Say hello".to_vec(),
            args: b"[name]".to_vec(),
            args_description: b"name: who to greet".to_vec(),
            completion: b"%(nicks)".to_vec(),
        }
    );
    let runs = Rc::new(Cell::new(0));
    assert!(weechat.hook_command(0, Box::new(Count(runs.clone()))).is_err());
    let mut hook = weechat.hook_command(0x40, Box::new(Count(runs.clone()))).ok().unwrap();
    assert!(hook.hooked());
    assert_eq!(hook.on_command(0xb0), Ok(0));
    assert_eq!(hook.on_command(0xb0), Ok(0));
    assert_eq!(runs.get(), 2);

    // Another thread cannot unhook: the command stays hooked.
    assert_eq!(hook.unhook(&rt(), ThreadId(9)), Err(Fault::WrongThread));
    assert!(hook.hooked());
    assert_eq!(hook.unhook(&rt(), MAIN), Ok(Some(NativeCall::Unhook { hook: 0x40 })));
    assert!(!hook.hooked());
    assert_eq!(hook.unhook(&rt(), MAIN), Ok(None));
    assert_eq!(hook.on_command(0xb0), Err(Fault::StaleContext));
    assert_eq!(runs.get(), 2);
}

#[test]
fn callback_record_is_reclaimed_exactly_once() {
    let mut context = CallbackContext::allocate(String::from("callbacks"));
    assert!(!context.is_registered());
    assert!(context.invoke().is_none());
    context.register();
    assert!(context.is_registered());
    assert_eq!(context.invoke().map(|c| c.clone()), Some(String::from("callbacks")));
    assert_eq!(context.reclaim(), Some(String::from("callbacks")));
    assert!(context.is_reclaimed());
    assert_eq!(context.reclaim(), None);
    assert!(context.invoke().is_none());
    context.register();
    assert!(!context.is_registered());
    assert!(context.is_reclaimed());

    let mut spent: CallbackContext<String> = CallbackContext::spent();
    assert!(spent.is_reclaimed());
    assert_eq!(spent.reclaim(), None);

    // A record can be given up before the host ever heard of it.
    let mut early = CallbackContext::allocate(1u8);
    assert_eq!(early.reclaim(), Some(1));
    assert_eq!(early.reclaim(), None);
}

#[test]
fn buffer_and_hook_calls_are_built_on_the_owning_thread_only() {
    let weechat = Weechat::from_ptr(0x77);
    let runtime = rt();
    assert_eq!(weechat.buffer_new_call(&runtime, ThreadId(9), "chat", false), Err(Fault::WrongThread));
    let info = CommandInfo {
        name: String::from("greet"),
        description: String::new(),
        args: String::new(),
        args_description: String::new(),
        completion: String::new(),
    };
    assert_eq!(weechat.hook_command_call(&runtime, ThreadId(9), &info), Err(Fault::WrongThread));
    let group = NickGroup::from_ptrs(0x10, 0xb0, 0x77);
    assert_eq!(group.name_call(&runtime, ThreadId(9)), Err(Fault::WrongThread));
    assert_eq!(group.level_call(&Runtime::new(), MAIN), Err(Fault::NotInitialized));
}

use weechat::{
    Args, Fault, NativeCall, PanicReport, Prefix, Runtime, TaskId, TaskState, ThreadId, Weechat,
};

const MAIN: ThreadId = ThreadId(1);
const OTHER: ThreadId = ThreadId(2);

fn running() -> Runtime {
    let mut runtime = Runtime::new();
    let weechat = Weechat::init_from_ptr(&mut runtime, 0x77, MAIN);
    assert_eq!(weechat.ptr(), 0x77);
    runtime
}

#[test]
fn calls_from_another_thread_are_refused() {
    let runtime = running();
    assert_eq!(Weechat::log(&runtime, OTHER, "m"), Err(Fault::WrongThread));
    assert_eq!(Weechat::print(&runtime, OTHER, "m"), Err(Fault::WrongThread));
    assert_eq!(Weechat::color_call(&runtime, OTHER, "red"), Err(Fault::WrongThread));
    assert_eq!(Weechat::color_pair_call(&runtime, OTHER, "red", "blue"), Err(Fault::WrongThread));
    assert_eq!(Weechat::prefix_call(&runtime, OTHER, Prefix::Error), Err(Fault::WrongThread));
    assert_eq!(Weechat::info_get_call(&runtime, OTHER, "n", "a"), Err(Fault::WrongThread));
    assert_eq!(Weechat::remove_color_call(&runtime, OTHER, "s"), Err(Fault::WrongThread));
    assert_eq!(
        Weechat::eval_string_expression_call(&runtime, OTHER, "e"),
        Err(Fault::WrongThread)
    );
    assert_eq!(Weechat::home_dir_call(&runtime, OTHER), Err(Fault::WrongThread));
    assert_eq!(Weechat::expand_home_call(&runtime, OTHER, "~"), Err(Fault::WrongThread));
    assert_eq!(
        Weechat::execute_modifier_call(&runtime, OTHER, "m", "d", "s"),
        Err(Fault::WrongThread)
    );
    assert_eq!(Weechat::bar_item_update(&runtime, OTHER, "bar"), Err(Fault::WrongThread));
    assert_eq!(
        weechat::config::Config::new_call(&runtime, OTHER, "test", false),
        Err(Fault::WrongThread)
    );
    assert_eq!(Weechat::check_thread(&runtime, OTHER), Err(Fault::WrongThread));
    assert_eq!(Weechat::check_thread(&runtime, MAIN), Ok(()));

    // Whatever built a call, it is cleared for the owning thread only.
    let call = NativeCall::ConfigOptionIsNull { option: 0x300 };
    assert_eq!(runtime.clear_call(OTHER, call), Err(Fault::WrongThread));
    let call = NativeCall::ConfigOptionIsNull { option: 0x300 };
    assert_eq!(
        runtime.clear_call(MAIN, call),
        Ok(NativeCall::ConfigOptionIsNull { option: 0x300 })
    );
}

#[test]
fn nothing_is_admitted_before_init_or_after_teardown() {
    let mut runtime = Runtime::new();
    assert_eq!(Weechat::check_thread(&runtime, MAIN), Err(Fault::NotInitialized));
    assert_eq!(Weechat::log(&runtime, MAIN, "m"), Err(Fault::NotInitialized));
    assert!(matches!(Weechat::weechat(&runtime), Err(Fault::NotInitialized)));
    assert_eq!(Weechat::thread_id(&runtime), Err(Fault::NotInitialized));
    assert_eq!(Weechat::spawn(&mut runtime, MAIN), Err(Fault::NotInitialized));
    assert_eq!(Weechat::panic_hook(&runtime, MAIN, None), Err(Fault::NotInitialized));

    Weechat::init_from_ptr(&mut runtime, 0x77, MAIN);
    assert_eq!(Weechat::weechat(&runtime).ok().map(|w| w.ptr()), Some(0x77));
    assert_eq!(Weechat::thread_id(&runtime), Ok(MAIN));
    assert!(Weechat::log(&runtime, MAIN, "m").is_ok());

    Weechat::free(&mut runtime);
    assert!(matches!(Weechat::weechat(&runtime), Err(Fault::NotInitialized)));
    assert_eq!(Weechat::log(&runtime, MAIN, "m"), Err(Fault::NotInitialized));
    assert_eq!(Weechat::log(&runtime, OTHER, "m"), Err(Fault::WrongThread));
    // The owning thread stays on record.
    assert_eq!(Weechat::check_thread(&runtime, MAIN), Ok(()));
    // Tearing down twice is harmless, and the runtime can be set up again.
    Weechat::free(&mut runtime);
    Weechat::init_from_ptr(&mut runtime, 0x78, OTHER);
    assert_eq!(
        Weechat::info_get_call(&runtime, OTHER, "version", ""),
        Ok(NativeCall::InfoGet { plugin: 0x78, name: b"version".to_vec(), arguments: Vec::new() })
    );
}

#[test]
fn calls_carry_their_arguments_without_nul_bytes() {
    let runtime = running();
    assert_eq!(
        Weechat::log(&runtime, MAIN, "he\0llo"),
        Ok(NativeCall::LogPrintf { message: b"hello".to_vec() })
    );
    assert_eq!(
        Weechat::print(&runtime, MAIN, "\0\0"),
        Ok(NativeCall::Print { message: Vec::new() })
    );
    assert_eq!(
        Weechat::color_call(&runtime, MAIN, "red"),
        Ok(NativeCall::Color { name: b"red".to_vec() })
    );
    assert_eq!(
        Weechat::color_pair_call(&runtime, MAIN, "white", "blue"),
        Ok(NativeCall::Color { name: b"white,blue".to_vec() })
    );
    assert_eq!(
        Weechat::remove_color_call(&runtime, MAIN, "text"),
        Ok(NativeCall::StringRemoveColor { string: b"text".to_vec() })
    );
    assert_eq!(
        Weechat::eval_string_expression_call(&runtime, MAIN, "${info:version}"),
        Ok(NativeCall::StringEvalExpression { expression: b"${info:version}".to_vec() })
    );
    assert_eq!(
        Weechat::home_dir_call(&runtime, MAIN),
        Ok(NativeCall::StringEvalPathHome { path: b"%h".to_vec() })
    );
    assert_eq!(
        Weechat::expand_home_call(&runtime, MAIN, "~/x"),
        Ok(NativeCall::StringExpandHome { path: b"~/x".to_vec() })
    );
    assert_eq!(
        Weechat::execute_modifier_call(&runtime, MAIN, "color_decode_ansi", "1", "in"),
        Ok(NativeCall::HookModifierExec {
            plugin: 0x77,
            modifier: b"color_decode_ansi".to_vec(),
            modifier_data: b"1".to_vec(),
            string: b"in".to_vec(),
        })
    );
    assert_eq!(
        Weechat::bar_item_update(&runtime, MAIN, "buffer_plugin"),
        Ok(NativeCall::BarItemUpdate { name: b"buffer_plugin".to_vec() })
    );
    assert_eq!(
        weechat::config::Config::new_call(&runtime, MAIN, "te\0st", true),
        Ok(NativeCall::ConfigNew { plugin: 0x77, name: b"test".to_vec(), reload: true })
    );
}

#[test]
fn prefix_names() {
    let runtime = running();
    let expected = [
        (Prefix::Error, "error"),
        (Prefix::Network, "network"),
        (Prefix::Action, "action"),
        (Prefix::Join, "join"),
        (Prefix::Quit, "quit"),
    ];
    for (prefix, name) in expected {
        assert_eq!(prefix.as_str(), name);
        assert_eq!(
            Weechat::prefix_call(&runtime, MAIN, prefix),
            Ok(NativeCall::Prefix { name: name.as_bytes().to_vec() })
        );
    }
}

#[test]
fn answers_are_read_as_text() {
    assert_eq!(Weechat::color(b"\x19F05"), "\u{19}F05");
    assert_eq!(Weechat::color_pair(b"\x19F05,01"), "\u{19}F05,01");
    assert_eq!(Weechat::prefix(b"=!=\t"), "=!=\t");
    assert_eq!(Weechat::prefix(b""), "");
    assert_eq!(Weechat::info_get(Some(b"4.1.0")), Some(String::from("4.1.0")));
    assert_eq!(Weechat::info_get(None), None);
    assert_eq!(Weechat::remove_color(b"plain \xff"), "plain \u{fffd}");
    assert_eq!(Weechat::eval_string_expression(Some(b"x")), Ok(String::from("x")));
    assert_eq!(Weechat::eval_string_expression(None), Err(()));
    assert_eq!(Weechat::home_dir(b"/home/u/.weechat"), "/home/u/.weechat");
    assert_eq!(Weechat::expand_home(b"/home/u/x"), "/home/u/x");
    assert_eq!(Weechat::execute_modifier(Some(b"out")), Ok(String::from("out")));
    assert_eq!(Weechat::execute_modifier(None), Err(()));
}

#[test]
fn args_are_handed_out_from_both_ends() {
    let argv = vec![b"-a".to_vec(), b"caf\xc3\xa9".to_vec(), b"\xff".to_vec(), b"last".to_vec()];
    let mut args = Args::new(&argv);
    assert_eq!(args.len(), 4);
    assert_eq!(args.size_hint(), (4, Some(4)));
    assert_eq!(args.next(), Some(String::from("-a")));
    assert_eq!(args.next_back(), Some(String::from("last")));
    assert_eq!(args.len(), 2);
    assert_eq!(args.next(), Some(String::from("caf\u{e9}")));
    assert_eq!(args.next(), Some(String::from("\u{fffd}")));
    assert_eq!(args.next(), None);
    assert_eq!(args.next_back(), None);
    assert_eq!(args.size_hint(), (0, Some(0)));
    assert_eq!(Args::new(&Vec::new()).len(), 0);
}

#[test]
fn panics_are_reported_where_they_can_be() {
    let mut runtime = running();
    assert!(Weechat::backtrace_enabled(Some("1")));
    assert!(!Weechat::backtrace_enabled(Some("0")));
    assert!(!Weechat::backtrace_enabled(Some("full")));
    assert!(!Weechat::backtrace_enabled(None));

    assert_eq!(
        Weechat::panic_hook(&runtime, MAIN, Some("1")),
        Ok(PanicReport::MainThread { backtrace: true })
    );
    assert_eq!(
        Weechat::panic_hook(&runtime, MAIN, None),
        Ok(PanicReport::MainThread { backtrace: false })
    );
    assert_eq!(
        Weechat::panic_hook(&runtime, OTHER, Some("1")),
        Ok(PanicReport::OtherThread { backtrace: true })
    );
    Weechat::free(&mut runtime);
    assert_eq!(Weechat::panic_hook(&runtime, OTHER, Some("1")), Ok(PanicReport::Local));
    assert_eq!(
        Weechat::panic_hook(&runtime, MAIN, Some("0")),
        Ok(PanicReport::MainThread { backtrace: false })
    );
}

#[test]
fn backtrace_is_taken_only_when_asked_for() {
    assert_eq!(Weechat::backtrace(false), None);
    let trace = Weechat::backtrace(true).unwrap();
    let report = Weechat::main_panic("E ", "boom", Some(&trace));
    assert_eq!(report, format!("E Panic in the main Weechat thread: boom\n{}", trace));
}

#[test]
fn panic_reports_are_worded() {
    assert_eq!(
        Weechat::main_panic("=!=\t", "panicked at src/lib.rs:1:1", None),
        "=!=\tPanic in the main Weechat thread: panicked at src/lib.rs:1:1"
    );
    assert_eq!(
        Weechat::main_panic("E ", "boom", Some("0: main")),
        "E Panic in the main Weechat thread: boom\n0: main"
    );
    assert_eq!(
        Weechat::thread_panic("E ", "<r>", "worker", "</r>", "boom", None),
        "E Thread '<r>worker</r>' boom."
    );
    assert_eq!(
        Weechat::thread_panic("E ", "<r>", "worker", "</r>", "boom", Some("0: main")),
        "E Thread '<r>worker</r>' boom\n0: main"
    );
}

#[test]
fn fault_messages() {
    assert_eq!(Fault::NotInitialized.message(), "Plugin wasn't initialized correctly");
    assert_eq!(
        Fault::WrongThread.message(),
        "Weechat methods can be only called from the main Weechat thread."
    );
    assert_eq!(Fault::ExecutorStopped.message(), "Executor isn't running anymore");
    assert_eq!(
        Fault::StaleContext.message(),
        "Callback ran for an object that has been destroyed"
    );
    assert_eq!(Fault::MissingCallback.message(), "C callback was set while no rust callback");
}

#[test]
fn spawning_needs_the_owning_thread_and_a_running_executor() {
    let mut runtime = running();
    assert_eq!(Weechat::spawn(&mut runtime, OTHER), Err(Fault::WrongThread));
    assert_eq!(Weechat::spawn_checked(&mut runtime, OTHER), Err(Fault::WrongThread));
    assert_eq!(Weechat::spawn(&mut runtime, MAIN), Ok(TaskId(0)));
    assert_eq!(Weechat::spawn_checked(&mut runtime, MAIN), Ok(Some(TaskId(1))));
    // Any thread may enqueue.
    assert_eq!(Weechat::spawn_from_thread(&mut runtime), Some(TaskId(2)));
    {
        let executor = runtime.executor().unwrap();
        assert_eq!(executor.next(), Some(TaskId(0)));
        assert_eq!(executor.next(), Some(TaskId(1)));
        assert_eq!(executor.next(), Some(TaskId(2)));
        assert_eq!(executor.next(), None);
    }

    Weechat::free(&mut runtime);
    assert_eq!(Weechat::spawn(&mut runtime, MAIN), Err(Fault::ExecutorStopped));
    assert_eq!(Weechat::spawn_checked(&mut runtime, MAIN), Ok(None));
    assert_eq!(Weechat::spawn_from_thread(&mut runtime), None);
    let executor = runtime.executor().unwrap();
    assert!(!executor.running());
    assert_eq!(executor.state(TaskId(0)), Some(TaskState::Cancelled));
    assert_eq!(executor.next(), None);
}

use callback_demo::demo::{
    base_use, direct_callback, generic_callback, mut_callback, once_callback, thread_callback,
    thread_mut_callback, thread_once_callback,
};
use callback_demo::invoke::{parameter_is_callback, parameter_is_callback_t, parameter_is_callback_thread};
use callback_demo::record::{FnTest, FnThreadTest};
use callback_demo::text::{callback_function, labelled_line, message, push_decimal};
use std::cell::Cell;
use std::sync::atomic::{AtomicU32, Ordering};
use std::sync::Arc;

fn position(lines: &[String], line: &str) -> usize {
    lines.iter().position(|l| l == line).expect("line missing")
}

fn assert_send<T: Send>(_: &T) {}

#[test]
fn decimal_of_bytes() {
    assert_eq!(labelled_line("v=", 0), "v=0");
    assert_eq!(labelled_line("v=", 7), "v=7");
    assert_eq!(labelled_line("v=", 10), "v=10");
    assert_eq!(labelled_line("v=", 42), "v=42");
    assert_eq!(labelled_line("v=", 100), "v=100");
    assert_eq!(labelled_line("v=", 255), "v=255");
    let mut s = String::from("ab");
    push_decimal(&mut s, 209);
    assert_eq!(s, "ab209");
}

#[test]
fn function_callback_line() {
    assert_eq!(callback_function(1), vec!["Fn callback_function: 1".to_string()]);
    assert_eq!(callback_function(2), vec!["Fn callback_function: 2".to_string()]);
    assert_eq!(message("Thread FnMut: ", 1), vec!["Thread FnMut: 1".to_string()]);
}

#[test]
fn direct_invoker_calls_once_between_markers() {
    let calls = Cell::new(0u32);
    let lines = parameter_is_callback(|| {
        calls.set(calls.get() + 1);
        vec!["inside".to_string()]
    });
    assert_eq!(calls.get(), 1);
    assert_eq!(lines, vec!["parameter_is_callback start", "inside", "parameter_is_callback end"]);
}

#[test]
fn generic_invoker_calls_once_between_markers() {
    let calls = Cell::new(0u32);
    let lines = parameter_is_callback_t(Box::new(|| {
        calls.set(calls.get() + 1);
        vec!["a".to_string(), "b".to_string()]
    }));
    assert_eq!(calls.get(), 1);
    assert_eq!(lines, vec!["parameter_is_callback_t start", "a", "b", "parameter_is_callback_t end"]);
}

#[test]
fn invokers_with_silent_callback() {
    assert_eq!(
        parameter_is_callback(Vec::new),
        vec!["parameter_is_callback start", "parameter_is_callback end"]
    );
    assert_eq!(
        parameter_is_callback_t(Box::new(Vec::new)),
        vec!["parameter_is_callback_t start", "parameter_is_callback_t end"]
    );
}

#[test]
fn named_callbacks() {
    assert_eq!(direct_callback(), vec!["回调 parameter_is_callback"]);
    assert_eq!(generic_callback(), vec!["回调 parameter_is_callback_t"]);
    assert_eq!(mut_callback(2), vec!["FnMut: 2"]);
    assert_eq!(once_callback(1), vec!["FnOnce: 1"]);
    assert_eq!(thread_callback(), vec!["回调 parameter_is_callback_thread"]);
    assert_eq!(thread_mut_callback(1), vec!["Thread FnMut: 1"]);
    assert_eq!(thread_once_callback(12), vec!["Thread FnOnce: 12"]);
}

#[test]
fn base_use_writes_every_line_in_order() {
    assert_eq!(
        base_use(),
        vec![
            "parameter_is_callback start",
            "回调 parameter_is_callback",
            "parameter_is_callback end",
            "parameter_is_callback_t start",
            "回调 parameter_is_callback_t",
            "parameter_is_callback_t end",
            "Fn callback_function: 1",
            "Fn callback_function: 2",
            "FnMut: 1",
            "FnMut: 2",
            "FnOnce: 1",
        ]
    );
}

#[test]
fn mutable_callback_sees_one_then_two() {
    let lines = base_use();
    assert!(position(&lines, "FnMut: 1") < position(&lines, "FnMut: 2"));
}

#[test]
fn mutable_callback_keeps_state_between_calls() {
    let mut total: u32 = 0;
    let once_calls = Cell::new(0u32);
    let t = FnTest {
        data: 9,
        callback: |v: u8| vec![format!("read {}", v)],
        callback_mut: move |v: u8| {
            total += v as u32;
            vec![format!("got {} total {}", v, total)]
        },
        callback_once: |v: u8| {
            once_calls.set(once_calls.get() + 1);
            vec![format!("once {}", v)]
        },
    };
    assert_eq!(t.data, 9);
    let lines = t.run();
    assert_eq!(once_calls.get(), 1);
    assert_eq!(
        lines,
        vec!["read 1", "read 2", "got 1 total 1", "got 2 total 3", "once 1"]
    );
}

#[test]
fn deferred_invoker_returns_before_callback_runs() {
    let (lines, task) = parameter_is_callback_thread(Box::new(thread_callback));
    assert_eq!(lines, vec!["parameter_is_callback_thread start", "parameter_is_callback_thread end"]);
    assert_send(&task);
    assert_eq!(
        task.run(),
        vec![
            "parameter_is_callback_thread thread start",
            "回调 parameter_is_callback_thread",
            "parameter_is_callback_thread thread end",
        ]
    );
}

#[test]
fn deferred_callback_not_called_by_caller() {
    let calls = Arc::new(AtomicU32::new(0));
    let seen = Arc::clone(&calls);
    let (lines, task) = parameter_is_callback_thread(Box::new(move || {
        seen.fetch_add(1, Ordering::SeqCst);
        Vec::new()
    }));
    assert_eq!(lines.len(), 2);
    assert_eq!(calls.load(Ordering::SeqCst), 0);
    let worker = task.run();
    assert_eq!(calls.load(Ordering::SeqCst), 1);
    assert_eq!(
        worker,
        vec!["parameter_is_callback_thread thread start", "parameter_is_callback_thread thread end"]
    );
}

#[test]
fn thread_record_runs_in_fixed_order() {
    let record = FnThreadTest {
        callback: callback_function,
        callback_mut: thread_mut_callback,
        callback_once: thread_once_callback,
    };
    assert_send(&record);
    let lines = record.run(1);
    assert_eq!(
        lines,
        vec![
            "thread start",
            "Fn callback_function: 1",
            "Thread FnMut: 1",
            "Thread FnOnce: 1",
            "thread end",
        ]
    );
    let a = position(&lines, "Fn callback_function: 1");
    let m = position(&lines, "Thread FnMut: 1");
    let o = position(&lines, "Thread FnOnce: 1");
    assert!(a < m && m < o);
}

#[test]
fn thread_record_passes_value_to_each() {
    let record = FnThreadTest {
        callback: |v: u8| message("a", v),
        callback_mut: |v: u8| message("m", v),
        callback_once: |v: u8| message("o", v),
    };
    assert_eq!(record.run(200), vec!["thread start", "a200", "m200", "o200", "thread end"]);
}

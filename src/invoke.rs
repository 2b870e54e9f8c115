//! Invokers that take a single-use callback as a parameter. A callback
//! returns the lines it writes; each invoker returns the lines of its whole
//! run, its own markers around the callback's lines.

use vstd::prelude::*;
use vstd::string::StringExecFns;
use crate::text::texts;

verus! {

/// Puts `start` before the callback's lines and `end` after them.
fn frame(start: &str, middle: Vec<String>, end: &str) -> (r: Vec<String>)
    ensures
        texts(r@) == seq![start@] + texts(middle@) + seq![end@],
{
    let mut r: Vec<String> = Vec::new();
    r.push(String::from_str(start));
    let ghost given = middle@;
    let mut middle = middle;
    r.append(&mut middle);
    r.push(String::from_str(end));
    proof {
        assert(texts(r@) =~= seq![start@] + texts(given) + seq![end@]);
    }
    r
}

/// Runs the callback once, between its start and end markers.
pub fn parameter_is_callback(callback: impl FnOnce() -> Vec<String>) -> (lines: Vec<String>)
    requires
        callback.requires(()),
    ensures
        exists|out: Vec<String>|
            callback.ensures((), out) && texts(lines@) == seq!["parameter_is_callback start"@]
                + texts(out@) + seq!["parameter_is_callback end"@],
{
    let out = callback();
    frame("parameter_is_callback start", out, "parameter_is_callback end")
}

/// Runs the boxed callback once, between its start and end markers.
pub fn parameter_is_callback_t<T>(callback: Box<T>) -> (lines: Vec<String>) where
    T: FnOnce() -> Vec<String>,
    requires
        (*callback).requires(()),
    ensures
        exists|out: Vec<String>|
            (*callback).ensures((), out) && texts(lines@) == seq!["parameter_is_callback_t start"@]
                + texts(out@) + seq!["parameter_is_callback_t end"@],
{
    let callback = *callback;
    let out = callback();
    frame("parameter_is_callback_t start", out, "parameter_is_callback_t end")
}

/// A single-use callback handed over to a worker, not yet run. It owns the
/// callback and everything the callback captured, so it can move to another
/// thread with nothing left behind on the side that made it.
pub struct WorkerTask<T> where T: FnOnce() -> Vec<String> + Send + 'static {
    callback: Box<T>,
}

impl<T> WorkerTask<T> where T: FnOnce() -> Vec<String> + Send + 'static {
    /// The callback that the task will run.
    pub closed spec fn callback(&self) -> T {
        *self.callback
    }

    /// The worker's part: runs the callback once, between the worker's
    /// start and end markers. Consumes the task, so it runs at most once.
    pub fn run(self) -> (lines: Vec<String>)
        requires
            self.callback().requires(()),
        ensures
            exists|out: Vec<String>|
                self.callback().ensures((), out) && texts(lines@) == seq![
                    "parameter_is_callback_thread thread start"@,
                ] + texts(out@) + seq!["parameter_is_callback_thread thread end"@],
    {
        let callback = *self.callback;
        let out = callback();
        frame(
            "parameter_is_callback_thread thread start",
            out,
            "parameter_is_callback_thread thread end",
        )
    }
}

/// Hands the callback over to a worker instead of running it. Returns the
/// caller's own lines, which are only its start and end markers, and the
/// task that the worker runs afterwards: none of the callback's lines can
/// come before the caller's end marker, since the callback has not run yet.
pub fn parameter_is_callback_thread<T>(callback: Box<T>) -> (r: (Vec<String>, WorkerTask<T>)) where
    T: FnOnce() -> Vec<String> + Send + 'static,
    ensures
        texts(r.0@) == seq![
            "parameter_is_callback_thread start"@,
            "parameter_is_callback_thread end"@,
        ],
        r.1.callback() == *callback,
{
    let mut lines: Vec<String> = Vec::new();
    lines.push(String::from_str("parameter_is_callback_thread start"));
    let task = WorkerTask { callback };
    lines.push(String::from_str("parameter_is_callback_thread end"));
    proof {
        assert(texts(lines@) =~= seq![
            "parameter_is_callback_thread start"@,
            "parameter_is_callback_thread end"@,
        ]);
    }
    (lines, task)
}

} // verus!

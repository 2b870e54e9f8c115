//! The walk through the callback kinds: a callback as a parameter, in both
//! forms, then a record of the three kinds; and the callbacks that the
//! threaded part of the walk hands over to workers.

use vstd::prelude::*;
use vstd::string::StringExecFns;
use crate::invoke::{parameter_is_callback, parameter_is_callback_t};
use crate::record::FnTest;
use crate::text::{callback_function, labelled, message, one_line, texts};

verus! {

/// Every line of the single-threaded walk, in order.
pub open spec fn base_use_lines() -> Seq<Seq<char>> {
    seq![
        "parameter_is_callback start"@,
        "回调 parameter_is_callback"@,
        "parameter_is_callback end"@,
        "parameter_is_callback_t start"@,
        "回调 parameter_is_callback_t"@,
        "parameter_is_callback_t end"@,
        labelled("Fn callback_function: "@, 1),
        labelled("Fn callback_function: "@, 2),
        labelled("FnMut: "@, 1),
        labelled("FnMut: "@, 2),
        labelled("FnOnce: "@, 1),
    ]
}

/// Output of a callback that writes one fixed line.
fn note(text: &str) -> (lines: Vec<String>)
    ensures
        texts(lines@) == one_line(text@),
{
    let mut lines: Vec<String> = Vec::new();
    lines.push(String::from_str(text));
    proof {
        assert(texts(lines@) =~= one_line(text@));
    }
    lines
}

/// The callback handed to the direct invoker.
pub fn direct_callback() -> (lines: Vec<String>)
    ensures
        texts(lines@) == one_line("回调 parameter_is_callback"@),
{
    note("回调 parameter_is_callback")
}

/// The callback handed, boxed, to the generic invoker.
pub fn generic_callback() -> (lines: Vec<String>)
    ensures
        texts(lines@) == one_line("回调 parameter_is_callback_t"@),
{
    note("回调 parameter_is_callback_t")
}

/// The record's mutable callback.
pub fn mut_callback(v: u8) -> (lines: Vec<String>)
    ensures
        texts(lines@) == one_line(labelled("FnMut: "@, v)),
{
    message("FnMut: ", v)
}

/// The record's single-use callback.
pub fn once_callback(v: u8) -> (lines: Vec<String>)
    ensures
        texts(lines@) == one_line(labelled("FnOnce: "@, v)),
{
    message("FnOnce: ", v)
}

/// The callback handed to the deferred-worker invoker.
pub fn thread_callback() -> (lines: Vec<String>)
    ensures
        texts(lines@) == one_line("回调 parameter_is_callback_thread"@),
{
    note("回调 parameter_is_callback_thread")
}

/// The mutable callback of the record that moves to a worker.
pub fn thread_mut_callback(v: u8) -> (lines: Vec<String>)
    ensures
        texts(lines@) == one_line(labelled("Thread FnMut: "@, v)),
{
    message("Thread FnMut: ", v)
}

/// The single-use callback of the record that moves to a worker.
pub fn thread_once_callback(v: u8) -> (lines: Vec<String>)
    ensures
        texts(lines@) == one_line(labelled("Thread FnOnce: "@, v)),
{
    message("Thread FnOnce: ", v)
}

/// Runs the single-threaded walk and returns the lines it writes.
pub fn base_use() -> (lines: Vec<String>)
    ensures
        texts(lines@) == base_use_lines(),
{
    let mut lines = parameter_is_callback(direct_callback);
    let mut generic = parameter_is_callback_t(Box::new(generic_callback));
    let t = FnTest {
        data: 0,
        callback: callback_function,
        callback_mut: mut_callback,
        callback_once: once_callback,
    };
    let mut record = t.run();
    let ghost (g1, g2, g3) = (lines@, generic@, record@);
    lines.append(&mut generic);
    lines.append(&mut record);
    proof {
        assert(texts(lines@) =~= texts(g1) + texts(g2) + texts(g3));
        assert(texts(lines@) =~= base_use_lines());
    }
    lines
}

} // verus!

//! Records that keep one callback of each kind: one that may run any number
//! of times and reads what it captured, one that may run any number of times
//! and may change what it captured, and one that runs at most once.

use vstd::prelude::*;
use crate::text::texts;
use vstd::string::StringExecFns;

verus! {

/// A record of callbacks used where it was made.
pub struct FnTest<A, B, C> where
    A: Fn(u8) -> Vec<String>,
    B: FnMut(u8) -> Vec<String>,
    C: FnOnce(u8) -> Vec<String>,
 {
    /// Data kept beside the callbacks; nothing reads it.
    pub data: u8,
    /// May run any number of times; reads what it captured.
    pub callback: A,
    /// May run any number of times; may change what it captured.
    pub callback_mut: B,
    /// Runs at most once.
    pub callback_once: C,
}

impl<A, B, C> FnTest<A, B, C> where
    A: Fn(u8) -> Vec<String>,
    B: FnMut(u8) -> Vec<String>,
    C: FnOnce(u8) -> Vec<String>,
 {
    /// Runs the read-only callback with 1 then 2, the mutable one with 1
    /// then 2, and the single-use one with 1, in that order, and returns
    /// their lines in the order they were written. Consumes the record, so
    /// its single-use callback cannot run again.
    pub fn run(self) -> (lines: Vec<String>)
        requires
            self.callback.requires((1u8,)),
            self.callback.requires((2u8,)),
            self.callback_mut.requires((1u8,)),
            self.callback_mut.requires((2u8,)),
            self.callback_once.requires((1u8,)),
        ensures
            exists|a1: Vec<String>, a2: Vec<String>, m1: Vec<String>, m2: Vec<String>, o: Vec<String>|
                {
                    &&& self.callback.ensures((1u8,), a1)
                    &&& self.callback.ensures((2u8,), a2)
                    &&& self.callback_mut.ensures((1u8,), m1)
                    &&& self.callback_mut.ensures((2u8,), m2)
                    &&& self.callback_once.ensures((1u8,), o)
                    &&& texts(lines@) == texts(a1@) + texts(a2@) + texts(m1@) + texts(m2@) + texts(o@)
                },
    {
        let FnTest { data: _, callback, callback_mut, callback_once } = self;
        let mut callback_mut = callback_mut;
        let mut lines = callback(1);
        let mut a2 = callback(2);
        let mut m1 = callback_mut(1);
        let mut m2 = callback_mut(2);
        let mut o = callback_once(1);
        let ghost (g1, g2, g3, g4, g5) = (lines@, a2@, m1@, m2@, o@);
        lines.append(&mut a2);
        lines.append(&mut m1);
        lines.append(&mut m2);
        lines.append(&mut o);
        proof {
            assert(texts(lines@) =~= texts(g1) + texts(g2) + texts(g3) + texts(g4) + texts(g5));
        }
        lines
    }
}

/// A record of callbacks that can be moved to another thread: each callback,
/// with everything it captured, is safe to send there.
pub struct FnThreadTest<A, B, C> where
    A: Fn(u8) -> Vec<String> + Send,
    B: FnMut(u8) -> Vec<String> + Send,
    C: FnOnce(u8) -> Vec<String> + Send,
 {
    pub callback: A,
    pub callback_mut: B,
    pub callback_once: C,
}

impl<A, B, C> FnThreadTest<A, B, C> where
    A: Fn(u8) -> Vec<String> + Send,
    B: FnMut(u8) -> Vec<String> + Send,
    C: FnOnce(u8) -> Vec<String> + Send,
 {
    /// The worker's part: between its start and end markers, runs the
    /// read-only, the mutable and the single-use callback once each, in that
    /// order, all with `value`. Consumes the record.
    pub fn run(self, value: u8) -> (lines: Vec<String>)
        requires
            self.callback.requires((value,)),
            self.callback_mut.requires((value,)),
            self.callback_once.requires((value,)),
        ensures
            exists|a: Vec<String>, m: Vec<String>, o: Vec<String>|
                {
                    &&& self.callback.ensures((value,), a)
                    &&& self.callback_mut.ensures((value,), m)
                    &&& self.callback_once.ensures((value,), o)
                    &&& texts(lines@) == seq!["thread start"@] + texts(a@) + texts(m@) + texts(o@)
                        + seq!["thread end"@]
                },
    {
        let FnThreadTest { callback, callback_mut, callback_once } = self;
        let mut callback_mut = callback_mut;
        let mut lines: Vec<String> = Vec::new();
        lines.push(String::from_str("thread start"));
        let mut a = callback(value);
        let mut m = callback_mut(value);
        let mut o = callback_once(value);
        let ghost (ga, gm, go) = (a@, m@, o@);
        lines.append(&mut a);
        lines.append(&mut m);
        lines.append(&mut o);
        lines.push(String::from_str("thread end"));
        proof {
            assert(texts(lines@) =~= seq!["thread start"@] + texts(ga) + texts(gm) + texts(go)
                + seq!["thread end"@]);
        }
        lines
    }
}

} // verus!

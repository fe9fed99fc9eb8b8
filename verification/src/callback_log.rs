//! A record of the side effects a transaction hands to its caller's
//! callbacks: which callback ran, in what order, and what it returned.
//! Transactions state their ordering rules over this record.

use vstd::prelude::*;

verus! {

/// A callback a transaction may run.
#[derive(Debug, Clone, Copy, PartialEq, Eq, Structural)]
pub enum Callback {
    /// Put the saved system DNS back.
    RestoreSnapshot,
    /// Delete the saved system DNS.
    ClearSnapshot,
    /// Save the kill switch's ownership metadata.
    SaveMetadata,
    /// Delete the kill switch's ownership metadata.
    ClearMetadata,
    /// Forget the applied configuration.
    ClearApplied,
}

/// The callbacks that ran, in order, each with what it returned (a
/// callback that returns nothing is recorded with `Ok`).
pub struct CallbackLog {
    calls: Ghost<Seq<(Callback, Result<(), String>)>>,
}

impl CallbackLog {
    pub closed spec fn calls(&self) -> Seq<(Callback, Result<(), String>)> {
        self.calls@
    }

    /// An empty record.
    pub fn new() -> (l: Self)
        ensures
            l.calls() == Seq::<(Callback, Result<(), String>)>::empty(),
    {
        CallbackLog { calls: Ghost(Seq::empty()) }
    }

    /// Runs `f` as the callback `which` and records it with its result.
    pub(crate) fn run<F: FnOnce() -> Result<(), String>>(&mut self, which: Callback, f: F) -> (r: Result<(), String>)
        requires
            f.requires(()),
        ensures
            f.ensures((), r),
            final(self).calls() == old(self).calls().push((which, r)),
    {
        let r = f();
        self.calls = Ghost(self.calls@.push((which, r)));
        r
    }

    /// Runs `f` on `arg` as the callback `which` and records it with its
    /// result.
    pub(crate) fn run_with<A, F: FnOnce(A) -> Result<(), String>>(&mut self, which: Callback, f: F, arg: A) -> (r: Result<
        (),
        String,
    >)
        requires
            f.requires((arg,)),
        ensures
            f.ensures((arg,), r),
            final(self).calls() == old(self).calls().push((which, r)),
    {
        let r = f(arg);
        self.calls = Ghost(self.calls@.push((which, r)));
        r
    }

    /// Runs `f`, which returns nothing, as the callback `which` and records
    /// it.
    pub(crate) fn run_unit<F: FnOnce()>(&mut self, which: Callback, f: F)
        requires
            f.requires(()),
        ensures
            final(self).calls() == old(self).calls().push((which, Ok::<(), String>(()))),
    {
        f();
        self.calls = Ghost(self.calls@.push((which, Ok(()))));
    }
}

} // verus!

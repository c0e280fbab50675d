//! A callback to run when the program ends.

use vstd::prelude::*;

verus! {

/// Holds a callback that is run when the hook goes away, and when the
/// program is interrupted once the hook has been registered for that.
pub struct ExitHook<F> {
    func: F,
}

impl<F: Fn()> ExitHook<F> {
    /// The callback.
    pub closed spec fn callback(&self) -> F {
        self.func
    }

    /// The hook that runs `f`.
    pub fn new(f: F) -> (hook: ExitHook<F>)
        ensures
            hook.callback() == f,
    {
        ExitHook { func: f }
    }

    /// Runs the callback.
    pub fn run(&self)
        requires
            self.callback().requires(()),
        ensures
            self.callback().ensures((), ()),
    {
        (self.func)()
    }

    /// Gives the callback up, for whoever arranges that it runs.
    pub fn into_inner(self) -> (f: F)
        ensures
            f == self.callback(),
    {
        self.func
    }
}

} // verus!

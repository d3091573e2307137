//! The hook that runs when the kernel finds one of its own invariants broken.

use vstd::prelude::*;

verus! {

/// The hooks of the application: set once, early, and called from anywhere.
pub struct FreeRtosHooks<C> {
    on_assert: Option<C>,
}

impl<C> View for FreeRtosHooks<C> {
    type V = Option<C>;

    /// The callback set for a failed kernel assertion, if one is set.
    closed spec fn view(&self) -> Option<C> {
        self.on_assert
    }
}

impl<C> FreeRtosHooks<C> {
    /// Hooks with no callback set.
    pub fn new() -> (hooks: Self)
        ensures
            hooks@ is None,
    {
        FreeRtosHooks { on_assert: None }
    }

    /// Sets the callback for a failed kernel assertion. The slot takes one
    /// callback for good: a second one comes back as the error.
    pub fn set_on_assert(&mut self, c: C) -> (r: Result<(), C>)
        ensures
            old(self)@ is None ==> r == Ok::<(), C>(()) && final(self)@ == Some(c),
            old(self)@ is Some ==> r == Err::<(), C>(c) && final(self)@ == old(self)@,
    {
        if self.on_assert.is_none() {
            self.on_assert = Some(c);
            Ok(())
        } else {
            Err(c)
        }
    }

    /// The callback that is set, if one is.
    pub fn on_assert(&self) -> (c: Option<&C>)
        ensures
            c == (match self@ {
                Some(cb) => Some(&cb),
                None => None,
            }),
    {
        self.on_assert.as_ref()
    }

    /// Calls the callback, if one is set.
    pub fn do_on_assert(&self) where C: Fn() -> ()
        requires
            self@ matches Some(cb) ==> call_requires(cb, ()),
        ensures
            self@ matches Some(cb) ==> call_ensures(cb, (), ()),
    {
        if let Some(cb) = &self.on_assert {
            cb()
        }
    }
}

} // verus!

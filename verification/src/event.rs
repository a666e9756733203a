//! A synchronous event: an ordered registry of handlers.
//!
//! Handlers are invoked on the calling thread, in registration order; no
//! concurrency semantics beyond that.

use vstd::prelude::*;

verus! {

/// An event with handlers of one closure type `H`.
pub struct Event<H> {
    handlers: Vec<H>,
}

impl<H: Fn()> Event<H> {
    /// The registered handlers, in registration order.
    pub closed spec fn handlers_seq(&self) -> Seq<H> {
        self.handlers@
    }

    /// An event with no handlers.
    pub fn new() -> (r: Self)
        ensures
            r.handlers_seq() =~= Seq::<H>::empty(),
    {
        Event { handlers: Vec::new() }
    }

    /// Invoke every handler, in registration order.
    pub fn invoke(&self)
        requires
            forall|i: int|
                0 <= i < self.handlers_seq().len() ==> call_requires(
                    #[trigger] self.handlers_seq()[i],
                    (),
                ),
    {
        let n = self.handlers.len();
        let mut i: usize = 0;
        while i < n
            invariant
                n == self.handlers_seq().len(),
                0 <= i <= n,
                forall|k: int|
                    0 <= k < n ==> call_requires(#[trigger] self.handlers_seq()[k], ()),
            decreases n - i,
        {
            let h = &self.handlers[i];
            h();
            i += 1;
        }
    }

    /// Register a handler; it will run after all already registered ones.
    pub fn add_handler(&mut self, handler: H)
        ensures
            final(self).handlers_seq() =~= old(self).handlers_seq().push(handler),
    {
        self.handlers.push(handler);
    }
}

} // verus!

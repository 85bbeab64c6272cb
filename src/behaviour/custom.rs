use crate::behaviour::Behaviour;
use crate::event::Event;
use vstd::prelude::*;

verus! {

/// A simple custom behaviour for quick-fixes and testing: it answers each
/// event with what its handler returns for it.
pub struct Custom<F: Fn(Event) -> Event> {
    handler: F,
}

impl<F: Fn(Event) -> Event> Custom<F> {
    /// The handler of this behaviour
    pub closed spec fn handler(&self) -> F {
        self.handler
    }

    #[verifier::type_invariant]
    closed spec fn total(&self) -> bool {
        forall|e: Event| call_requires(self.handler, (e,))
    }

    /// Creates a new instance of `Custom`
    pub fn new(handler: F) -> (r: Custom<F>)
        requires
            forall|e: Event| call_requires(handler, (e,)),
        ensures
            r.handler() == handler,
            forall|event: Event, out: Event|
                #[trigger] r.handles(event, out) == call_ensures(handler, (event,), out),
    {
        Custom { handler }
    }
}

impl<F: Fn(Event) -> Event> Behaviour for Custom<F> {
    open spec fn handles(&self, event: Event, out: Event) -> bool {
        call_ensures(self.handler(), (event,), out)
    }

    fn handle_event(&self, event: Event) -> (out: Event) {
        proof {
            use_type_invariant(self);
        }
        (self.handler)(event)
    }
}

} // verus!

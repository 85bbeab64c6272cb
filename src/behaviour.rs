use crate::event::Event;
use vstd::prelude::*;

pub mod custom;
pub mod default_response;

pub use self::custom::Custom;
pub use self::default_response::DefaultResponse;

verus! {

/// A behaviour defining how entities react to certain events
pub trait Behaviour {
    /// `out` is an event that this behaviour may answer to `event`.
    spec fn handles(&self, event: Event, out: Event) -> bool;

    /// Handle an event
    fn handle_event(&self, event: Event) -> (out: Event)
        ensures
            self.handles(event, out),
    ;
}

impl<T: Behaviour> Behaviour for Box<T> {
    open spec fn handles(&self, event: Event, out: Event) -> bool {
        (**self).handles(event, out)
    }

    fn handle_event(&self, event: Event) -> (out: Event) {
        (**self).handle_event(event)
    }
}

/// A boxed behaviour answers as the behaviour in the box.
pub proof fn lemma_boxed_handles<T: Behaviour>(b: Box<T>, event: Event, out: Event)
    ensures
        b.handles(event, out) == (*b).handles(event, out),
{
}

} // verus!

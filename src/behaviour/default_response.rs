use crate::behaviour::Behaviour;
use crate::event::Event;
use vstd::prelude::*;

verus! {

/// A default response when a character is talking to an entity
#[derive(Clone)]
pub struct DefaultResponse {
    response: String,
}

impl DefaultResponse {
    /// The text of the response
    pub closed spec fn text(&self) -> String {
        self.response
    }

    /// Creates a new instance of `DefaultResponse`
    pub fn new(response: &str) -> (r: DefaultResponse)
        ensures
            r.text()@ == response@,
    {
        DefaultResponse { response: response.to_string() }
    }
}

impl Behaviour for DefaultResponse {
    open spec fn handles(&self, event: Event, out: Event) -> bool {
        out == Event::Tell(self.text())
    }

    fn handle_event(&self, event: Event) -> (out: Event) {
        Event::Tell(self.response.clone())
    }
}

} // verus!

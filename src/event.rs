use crate::item::Item;
use vstd::prelude::*;

verus! {

/// A primitive event type
#[derive(PartialEq, Debug)]
pub enum Event {
    /// Talk to an entity
    Tell(String),
    /// Give an item to an entity
    Give(Item),
    /// Show a list events an entity can handle
    Options(Vec<Event>),
    /// Push an entity
    Push,
    /// Pull an entity
    Pull,
    /// Open an entity
    Open,
    /// Close an entity
    Close,
    /// Do nothing
    Nothing,
}

impl Clone for Event {
    fn clone(&self) -> (r: Event)
        decreases self,
    {
        match self {
            Event::Tell(text) => Event::Tell(text.clone()),
            Event::Give(item) => Event::Give(item.clone()),
            Event::Options(options) => {
                let mut copies: Vec<Event> = Vec::new();
                let mut i: usize = 0;
                while i < options.len()
                    invariant
                        i <= options@.len(),
                        *self == Event::Options(*options),
                    decreases options@.len() - i,
                {
                    proof {
                        assert(decreases_to!(*self => self->Options_0));
                        assert(self->Options_0 == *options);
                        assert(decreases_to!(options => options@[i as int]));
                    }
                    copies.push(options[i].clone());
                    i = i + 1;
                }
                Event::Options(copies)
            },
            Event::Push => Event::Push,
            Event::Pull => Event::Pull,
            Event::Open => Event::Open,
            Event::Close => Event::Close,
            Event::Nothing => Event::Nothing,
        }
    }
}

} // verus!

use crate::behaviour::{Behaviour, Custom, DefaultResponse};
use crate::event::Event;
use std::rc::Rc;
use vstd::prelude::*;

pub mod traits;

verus! {

broadcast use vstd::seq::axiom_seq_index_decreases, vstd::std_specs::vec::axiom_vec_decreases_to_view;

/// One link of an entity's behaviour chain. Links never change once
/// attached, so a clone of an entity shares them with the entity it was
/// made from.
#[derive(Clone)]
pub enum Reaction<F: Fn(Event) -> Event> {
    /// Answers every event with a fixed text
    Respond(DefaultResponse),
    /// Answers with what a handler returns
    Custom(Rc<Custom<F>>),
    /// Answers with what a whole entity answers
    Nested(Rc<Entity<F>>),
}

/// Any non-character element. `F` is the type of the handlers of its custom
/// behaviours.
#[derive(Clone)]
pub struct Entity<F: Fn(Event) -> Event> {
    name: String,
    behaviour: Vec<Reaction<F>>,
}

/// `out` is an answer that link `r` may give to `event`.
pub open spec fn reaction_handles<F: Fn(Event) -> Event>(
    r: Reaction<F>,
    event: Event,
    out: Event,
) -> bool
    decreases r,
{
    match r {
        Reaction::Respond(d) => out == Event::Tell(d.text()),
        Reaction::Custom(c) => call_ensures(c.handler(), (event,), out),
        Reaction::Nested(n) => chain_handles(n.behaviours(), event, out),
    }
}

/// The events that a chain of behaviours may answer to `event`: `Nothing`
/// for an empty chain; otherwise the end of a run of answers that starts at
/// `event`, in which each link answers what the link before it answered, so
/// that only the first link sees `event`.
pub open spec fn chain_handles<F: Fn(Event) -> Event>(
    chain: Seq<Reaction<F>>,
    event: Event,
    out: Event,
) -> bool
    decreases chain,
{
    if chain.len() == 0 {
        out == Event::Nothing
    } else {
        exists|mids: Seq<Event>|
            {
                &&& #[trigger] mids.len() == chain.len() + 1
                &&& mids[0] == event
                &&& mids[chain.len() as int] == out
                &&& forall|i: int|
                    0 <= i < chain.len() ==> reaction_handles(
                        #[trigger] chain[i],
                        mids[i],
                        mids[i + 1],
                    )
            }
    }
}

/// A value that can be attached to an entity's behaviour chain, as a link
/// that answers as the value does.
pub trait IntoReaction<F: Fn(Event) -> Event>: Behaviour {
    /// The link for this value
    fn into_reaction(self) -> (r: Reaction<F>)
        ensures
            forall|event: Event, out: Event|
                reaction_handles(r, event, out) == self.handles(event, out),
    ;
}

impl<F: Fn(Event) -> Event> IntoReaction<F> for DefaultResponse {
    fn into_reaction(self) -> (r: Reaction<F>) {
        Reaction::Respond(self)
    }
}

impl<F: Fn(Event) -> Event> IntoReaction<F> for Custom<F> {
    fn into_reaction(self) -> (r: Reaction<F>) {
        Reaction::Custom(Rc::new(self))
    }
}

impl<F: Fn(Event) -> Event> IntoReaction<F> for Entity<F> {
    fn into_reaction(self) -> (r: Reaction<F>) {
        Reaction::Nested(Rc::new(self))
    }
}

impl<F: Fn(Event) -> Event, T: IntoReaction<F>> IntoReaction<F> for Box<T> {
    fn into_reaction(self) -> (r: Reaction<F>) {
        (*self).into_reaction()
    }
}

impl<F: Fn(Event) -> Event> Reaction<F> {
    /// Answers `event` as this link does
    pub fn react(&self, event: Event) -> (out: Event)
        ensures
            reaction_handles(*self, event, out),
        decreases self,
    {
        match self {
            Reaction::Respond(d) => d.handle_event(event),
            Reaction::Custom(c) => c.handle_event(event),
            Reaction::Nested(n) => n.dispatch(event),
        }
    }
}

impl<F: Fn(Event) -> Event> Entity<F> {
    /// The name of the entity
    pub closed spec fn spec_name(&self) -> Seq<char> {
        self.name@
    }

    /// The behaviours of the entity, in the order they were attached
    pub closed spec fn behaviours(&self) -> Seq<Reaction<F>> {
        self.behaviour@
    }

    /// Creates a new instance of `Entity`
    pub fn new(name: &str) -> (r: Entity<F>)
        ensures
            r.spec_name() == name@,
            r.behaviours() == Seq::<Reaction<F>>::empty(),
    {
        Entity { name: name.to_owned(), behaviour: Vec::new() }
    }

    /// The name of the entity
    pub fn name(&self) -> (r: &str)
        ensures
            r@ == self.spec_name(),
    {
        self.name.as_str()
    }

    /// Adds a behaviour to the end of the behaviour chain of the entity
    pub fn append_behaviour<T: IntoReaction<F>>(&mut self, behaviour: T)
        ensures
            final(self).spec_name() == old(self).spec_name(),
            final(self).behaviours().len() == old(self).behaviours().len() + 1,
            final(self).behaviours().drop_last() == old(self).behaviours(),
            forall|event: Event, out: Event|
                #[trigger] reaction_handles(final(self).behaviours().last(), event, out)
                    == behaviour.handles(event, out),
            forall|event: Event, out: Event|
                #[trigger] chain_handles(final(self).behaviours(), event, out) == if old(
                    self,
                ).behaviours().len() == 0 {
                    behaviour.handles(event, out)
                } else {
                    exists|mid: Event|
                        chain_handles(old(self).behaviours(), event, mid) && behaviour.handles(
                            mid,
                            out,
                        )
                },
    {
        let link = behaviour.into_reaction();
        self.behaviour.push(link);
        proof {
            assert(self.behaviour@.drop_last() =~= old(self).behaviour@);
            assert(self.behaviour@ == old(self).behaviour@.push(link));
            assert forall|event: Event, out: Event|
                #[trigger] chain_handles(self.behaviour@, event, out) == if old(
                    self,
                ).behaviour@.len() == 0 {
                    behaviour.handles(event, out)
                } else {
                    exists|mid: Event|
                        chain_handles(old(self).behaviour@, event, mid) && behaviour.handles(
                            mid,
                            out,
                        )
                } by {
                lemma_push_runs_after_chain(old(self).behaviour@, link, event, out);
            }
        }
    }

    /// Sends an event to the entity and returns its answer
    pub fn send_event(&self, event: Event) -> (out: Event)
        ensures
            chain_handles(self.behaviours(), event, out),
    {
        self.dispatch(event)
    }

    /// Folds `event` through the behaviour chain
    fn dispatch(&self, event: Event) -> (out: Event)
        ensures
            chain_handles(self.behaviours(), event, out),
        decreases self,
    {
        let n = self.behaviour.len();
        if n == 0 {
            return Event::Nothing;
        }
        let ghost first = event;
        proof {
            assert(decreases_to!(self.behaviour => self.behaviour@[0]));
        }
        let mut last_event = self.behaviour[0].react(event);
        let ghost mut mids: Seq<Event> = seq![first, last_event];
        let mut i: usize = 1;
        while i < n
            invariant
                n == self.behaviour@.len(),
                1 <= i <= n,
                mids.len() == i + 1,
                mids[0] == first,
                mids[i as int] == last_event,
                forall|j: int|
                    0 <= j < i ==> reaction_handles(#[trigger] self.behaviour@[j], mids[j], mids[j + 1]),
            decreases n - i,
        {
            proof {
                assert(decreases_to!(self.behaviour => self.behaviour@[i as int]));
            }
            last_event = self.behaviour[i].react(last_event);
            proof {
                mids = mids.push(last_event);
            }
            i = i + 1;
        }
        proof {
            assert(mids.len() == self.behaviour@.len() + 1);
        }
        last_event
    }
}

impl<F: Fn(Event) -> Event> Behaviour for Entity<F> {
    open spec fn handles(&self, event: Event, out: Event) -> bool {
        chain_handles(self.behaviours(), event, out)
    }

    fn handle_event(&self, event: Event) -> (out: Event) {
        self.dispatch(event)
    }
}

/// What a chain with link `r` added at its end answers: what `r` answers to
/// the event when the chain was empty, else what `r` answers to an answer of
/// the chain before it.
pub open spec fn pushed_handles<F: Fn(Event) -> Event>(
    chain: Seq<Reaction<F>>,
    r: Reaction<F>,
    event: Event,
    out: Event,
) -> bool {
    if chain.len() == 0 {
        reaction_handles(r, event, out)
    } else {
        exists|mid: Event| chain_handles(chain, event, mid) && reaction_handles(r, mid, out)
    }
}

/// Adding a link at the end of a chain makes the chain answer by running the
/// old chain and then the new link on its answer.
pub proof fn lemma_push_runs_after_chain<F: Fn(Event) -> Event>(
    chain: Seq<Reaction<F>>,
    r: Reaction<F>,
    event: Event,
    out: Event,
)
    ensures
        chain_handles(chain.push(r), event, out) == pushed_handles(chain, r, event, out),
{
    let long = chain.push(r);
    let n = chain.len();
    assert forall|i: int| 0 <= i < n implies #[trigger] long[i] == chain[i] by {}
    assert(long[n as int] == r);
    if chain_handles(long, event, out) {
        let mids = choose|mids: Seq<Event>|
            {
                &&& #[trigger] mids.len() == long.len() + 1
                &&& mids[0] == event
                &&& mids[long.len() as int] == out
                &&& forall|i: int|
                    0 <= i < long.len() ==> reaction_handles(#[trigger] long[i], mids[i], mids[i + 1])
            };
        assert(reaction_handles(long[n as int], mids[n as int], mids[n as int + 1]));
        if n > 0 {
            let front = mids.subrange(0, n as int + 1);
            assert(front.len() == chain.len() + 1);
            assert forall|i: int| 0 <= i < n implies reaction_handles(
                #[trigger] chain[i],
                front[i],
                front[i + 1],
            ) by {
                assert(reaction_handles(long[i], mids[i], mids[i + 1]));
            }
            assert(chain_handles(chain, event, mids[n as int]));
        }
    }
    if pushed_handles(chain, r, event, out) {
        if n == 0 {
            let mids = seq![event, out];
            assert(mids.len() == long.len() + 1);
            assert(chain_handles(long, event, out));
        } else {
            let mid = choose|mid: Event|
                chain_handles(chain, event, mid) && reaction_handles(r, mid, out);
            let front = choose|mids: Seq<Event>|
                {
                    &&& #[trigger] mids.len() == chain.len() + 1
                    &&& mids[0] == event
                    &&& mids[chain.len() as int] == mid
                    &&& forall|i: int|
                        0 <= i < chain.len() ==> reaction_handles(
                            #[trigger] chain[i],
                            mids[i],
                            mids[i + 1],
                        )
                };
            let mids = front.push(out);
            assert(mids.len() == long.len() + 1);
            assert forall|i: int| 0 <= i < long.len() implies reaction_handles(
                #[trigger] long[i],
                mids[i],
                mids[i + 1],
            ) by {
                if i < n {
                    assert(long[i] == chain[i]);
                }
            }
            assert(chain_handles(long, event, out));
        }
    }
}

/// An entity without behaviours answers `Nothing` to every event.
pub proof fn lemma_no_behaviour_answers_nothing<F: Fn(Event) -> Event>(
    entity: Entity<F>,
    event: Event,
    out: Event,
)
    requires
        entity.behaviours().len() == 0,
        chain_handles(entity.behaviours(), event, out),
    ensures
        out == Event::Nothing,
{
}

/// An entity whose one behaviour answers `Nothing` to every event answers
/// `Nothing` to every event.
pub proof fn lemma_single_silent_behaviour_answers_nothing<F: Fn(Event) -> Event>(
    entity: Entity<F>,
    event: Event,
    out: Event,
)
    requires
        entity.behaviours().len() == 1,
        forall|e: Event, o: Event|
            #[trigger] reaction_handles(entity.behaviours()[0], e, o) ==> o == Event::Nothing,
        chain_handles(entity.behaviours(), event, out),
    ensures
        out == Event::Nothing,
{
    let chain = entity.behaviours();
    let mids = choose|mids: Seq<Event>|
        {
            &&& #[trigger] mids.len() == chain.len() + 1
            &&& mids[0] == event
            &&& mids[chain.len() as int] == out
            &&& forall|i: int|
                0 <= i < chain.len() ==> reaction_handles(#[trigger] chain[i], mids[i], mids[i + 1])
        };
    assert(reaction_handles(chain[0], mids[0], mids[1]));
}

} // verus!

use vstd::prelude::*;

verus! {

/// The state of the whole game
pub struct EngineContext {
    pub maps: Vec<u32>,
    pub running: bool,
    pub invalid: bool,
}

impl EngineContext {
    /// Create a new EngineContext
    pub fn new() -> (r: EngineContext)
        ensures
            r.maps@ == Seq::<u32>::empty(),
            !r.running,
            !r.invalid,
    {
        EngineContext { maps: Vec::new(), running: false, invalid: false }
    }
}

/// Where a run of the engine stands: the callback to call next, or the end.
#[derive(Clone, Copy, PartialEq, Eq, Debug, Structural)]
pub enum EnginePhase {
    Setup,
    Update,
    Draw,
    Stopped,
}

/// The phase after `phase` has produced `context`: the game goes on with an
/// update while the context is running, and an update that leaves the
/// context invalid is followed by a draw.
pub open spec fn next_phase(phase: EnginePhase, context: EngineContext) -> EnginePhase {
    match phase {
        EnginePhase::Update => if context.invalid {
            EnginePhase::Draw
        } else if context.running {
            EnginePhase::Update
        } else {
            EnginePhase::Stopped
        },
        EnginePhase::Setup | EnginePhase::Draw => if context.running {
            EnginePhase::Update
        } else {
            EnginePhase::Stopped
        },
        EnginePhase::Stopped => EnginePhase::Stopped,
    }
}

/// The engine to run the game
pub struct Engine<S, U, D> where
    S: Fn(EngineContext) -> EngineContext,
    U: Fn(EngineContext) -> EngineContext,
    D: Fn(EngineContext) -> EngineContext,
 {
    setup: Option<S>,
    update: Option<U>,
    draw: Option<D>,
}

/// `f` can be called on every context.
pub open spec fn is_total<F: Fn(EngineContext) -> EngineContext>(f: F) -> bool {
    forall|c: EngineContext| call_requires(f, (c,))
}

impl<S, U, D> Engine<S, U, D> where
    S: Fn(EngineContext) -> EngineContext,
    U: Fn(EngineContext) -> EngineContext,
    D: Fn(EngineContext) -> EngineContext,
 {
    #[verifier::type_invariant]
    closed spec fn callbacks_total(&self) -> bool {
        &&& self.setup matches Some(f) ==> is_total(f)
        &&& self.update matches Some(f) ==> is_total(f)
        &&& self.draw matches Some(f) ==> is_total(f)
    }

    /// The setup behavior, once defined
    pub closed spec fn setup_fn(&self) -> Option<S> {
        self.setup
    }

    /// The update behavior, once defined
    pub closed spec fn update_fn(&self) -> Option<U> {
        self.update
    }

    /// The draw behavior, once defined
    pub closed spec fn draw_fn(&self) -> Option<D> {
        self.draw
    }

    /// All three behaviors are defined
    pub open spec fn spec_is_ready(&self) -> bool {
        self.setup_fn() is Some && self.update_fn() is Some && self.draw_fn() is Some
    }

    /// Creates a new engine
    pub fn new() -> (r: Engine<S, U, D>)
        ensures
            r.setup_fn() is None,
            r.update_fn() is None,
            r.draw_fn() is None,
    {
        Engine { setup: None, update: None, draw: None }
    }

    /// A method to define the setup behavior
    pub fn setup(&mut self, setup: S)
        requires
            is_total(setup),
        ensures
            final(self).setup_fn() == Some(setup),
            final(self).update_fn() == old(self).update_fn(),
            final(self).draw_fn() == old(self).draw_fn(),
    {
        proof {
            use_type_invariant(&*self);
        }
        self.setup = Some(setup);
    }

    /// A method to define the update behavior
    pub fn update(&mut self, update: U)
        requires
            is_total(update),
        ensures
            final(self).setup_fn() == old(self).setup_fn(),
            final(self).update_fn() == Some(update),
            final(self).draw_fn() == old(self).draw_fn(),
    {
        proof {
            use_type_invariant(&*self);
        }
        self.update = Some(update);
    }

    /// A method to define the draw behavior
    pub fn draw(&mut self, draw: D)
        requires
            is_total(draw),
        ensures
            final(self).setup_fn() == old(self).setup_fn(),
            final(self).update_fn() == old(self).update_fn(),
            final(self).draw_fn() == Some(draw),
    {
        proof {
            use_type_invariant(&*self);
        }
        self.draw = Some(draw);
    }

    /// Returns `true` when all three behaviors are defined, so that the engine
    /// can start
    pub fn is_ready(&self) -> (r: bool)
        ensures
            r == self.spec_is_ready(),
    {
        self.setup.is_some() && self.update.is_some() && self.draw.is_some()
    }

    /// Runs one phase of the game on `context`: the callback of that phase
    /// gives the new context, from which the next phase follows.
    pub fn step(&self, phase: EnginePhase, context: EngineContext) -> (r: (EnginePhase, EngineContext))
        requires
            self.spec_is_ready(),
            phase != EnginePhase::Stopped,
        ensures
            phase == EnginePhase::Setup ==> call_ensures(self.setup_fn()->0, (context,), r.1),
            phase == EnginePhase::Update ==> call_ensures(self.update_fn()->0, (context,), r.1),
            phase == EnginePhase::Draw ==> call_ensures(self.draw_fn()->0, (context,), r.1),
            r.0 == next_phase(phase, r.1),
    {
        proof {
            use_type_invariant(self);
        }
        let next = match phase {
            EnginePhase::Setup => match &self.setup {
                Some(f) => f(context),
                None => context,
            },
            EnginePhase::Update => match &self.update {
                Some(f) => f(context),
                None => context,
            },
            _ => match &self.draw {
                Some(f) => f(context),
                None => context,
            },
        };
        let after = match phase {
            EnginePhase::Update => if next.invalid {
                EnginePhase::Draw
            } else if next.running {
                EnginePhase::Update
            } else {
                EnginePhase::Stopped
            },
            _ => if next.running {
                EnginePhase::Update
            } else {
                EnginePhase::Stopped
            },
        };
        (after, next)
    }
}

} // verus!

//! The life of a callback record that the host holds a token for.
//!
//! A record is allocated on the plugin's side, handed to the host together
//! with the registration of a native object, called back through any number
//! of times, and reclaimed exactly once: either when the plugin frees the
//! object or when the host reports that it destroyed it.

use vstd::prelude::*;

verus! {

/// Where a callback record stands.
#[derive(Debug, PartialEq, Eq, Clone, Copy, Structural)]
pub enum ContextState {
    /// Created, the host does not know it yet.
    Allocated,
    /// The host holds its token and may call back through it.
    Registered,
    /// Given back. Nothing may be called through it again.
    Reclaimed,
}

/// What can happen to a callback record.
#[derive(Debug, PartialEq, Eq, Clone, Copy, Structural)]
pub enum ContextEvent {
    /// The host accepted the registration.
    Register,
    /// The host calls back through the token.
    Invoke,
    /// The plugin or the host ends the record's life.
    Reclaim,
}

impl ContextState {
    /// The state after `event`.
    pub open spec fn step(self, event: ContextEvent) -> ContextState {
        match (self, event) {
            (ContextState::Allocated, ContextEvent::Register) => ContextState::Registered,
            (_, ContextEvent::Reclaim) => ContextState::Reclaimed,
            (state, _) => state,
        }
    }

    /// Whether a call from the host reaches the callbacks in this state.
    pub open spec fn fires(self) -> bool {
        self == ContextState::Registered
    }

    /// Whether reclaiming in this state gives the callbacks back.
    pub open spec fn releases(self) -> bool {
        self != ContextState::Reclaimed
    }
}

/// The state after a sequence of events.
pub open spec fn run(state: ContextState, events: Seq<ContextEvent>) -> ContextState
    decreases events.len(),
{
    if events.len() == 0 {
        state
    } else {
        run(state, events.drop_last()).step(events.last())
    }
}

/// How many of the events, applied in order from `state`, give the callbacks
/// back.
pub open spec fn releases_in(state: ContextState, events: Seq<ContextEvent>) -> nat
    decreases events.len(),
{
    if events.len() == 0 {
        0
    } else {
        let before = run(state, events.drop_last());
        let here: nat = if events.last() == ContextEvent::Reclaim && before.releases() {
            1
        } else {
            0
        };
        releases_in(state, events.drop_last()) + here
    }
}

/// Once a record is reclaimed it stays reclaimed, whatever follows.
pub proof fn lemma_reclaimed_is_terminal(events: Seq<ContextEvent>)
    ensures
        run(ContextState::Reclaimed, events) == ContextState::Reclaimed,
    decreases events.len(),
{
    if events.len() > 0 {
        lemma_reclaimed_is_terminal(events.drop_last());
    }
}

/// Whatever the plugin and the host do, and in whatever order, the callbacks
/// of a record are given back at most once, and exactly once if the record
/// ends up reclaimed.
pub proof fn lemma_released_exactly_once(state: ContextState, events: Seq<ContextEvent>)
    requires
        state != ContextState::Reclaimed,
    ensures
        releases_in(state, events) <= 1,
        releases_in(state, events) == 1 <==> run(state, events) == ContextState::Reclaimed,
    decreases events.len(),
{
    if events.len() > 0 {
        lemma_released_exactly_once(state, events.drop_last());
    }
}

/// No call from the host reaches the callbacks after the record was
/// reclaimed.
pub proof fn lemma_nothing_fires_after_reclaim(
    state: ContextState,
    before: Seq<ContextEvent>,
    after: Seq<ContextEvent>,
)
    ensures
        run(state, before.push(ContextEvent::Reclaim) + after) == ContextState::Reclaimed,
        !run(state, before.push(ContextEvent::Reclaim) + after).fires(),
    decreases after.len(),
{
    let all = before.push(ContextEvent::Reclaim) + after;
    if after.len() == 0 {
        assert(all =~= before.push(ContextEvent::Reclaim));
        assert(all.drop_last() =~= before);
    } else {
        lemma_nothing_fires_after_reclaim(state, before, after.drop_last());
        assert(all.drop_last() =~= before.push(ContextEvent::Reclaim) + after.drop_last());
    }
}

/// A callback record together with its place in its life.
pub struct CallbackContext<C> {
    callbacks: Option<C>,
    registered: bool,
}

impl<C> CallbackContext<C> {
    /// The record's state.
    pub closed spec fn state(&self) -> ContextState {
        if self.callbacks is None {
            ContextState::Reclaimed
        } else if self.registered {
            ContextState::Registered
        } else {
            ContextState::Allocated
        }
    }

    /// The callbacks, as long as they have not been given back.
    pub closed spec fn record(&self) -> Option<C> {
        self.callbacks
    }

    /// Creates the record for `callbacks`.
    pub fn allocate(callbacks: C) -> (context: Self)
        ensures
            context.state() == ContextState::Allocated,
            context.record() == Some(callbacks),
    {
        CallbackContext { callbacks: Some(callbacks), registered: false }
    }

    /// A record whose life is over: there are no callbacks behind it.
    pub fn spent() -> (context: Self)
        ensures
            context.state() == ContextState::Reclaimed,
            context.record() is None,
    {
        CallbackContext { callbacks: None, registered: false }
    }

    /// Notes that the host accepted the registration.
    pub fn register(&mut self)
        ensures
            final(self).state() == old(self).state().step(ContextEvent::Register),
            final(self).record() == old(self).record(),
    {
        if self.callbacks.is_some() {
            self.registered = true;
        }
    }

    /// Tells whether a call from the host may reach the callbacks.
    pub fn is_registered(&self) -> (registered: bool)
        ensures
            registered == self.state().fires(),
    {
        self.callbacks.is_some() && self.registered
    }

    /// Tells whether the record has been given back.
    pub fn is_reclaimed(&self) -> (reclaimed: bool)
        ensures
            reclaimed == (self.state() == ContextState::Reclaimed),
    {
        self.callbacks.is_none()
    }

    /// The callbacks for a call from the host: there while the record is
    /// registered, and not before or after.
    pub fn invoke(&mut self) -> (callbacks: Option<&mut C>)
        ensures
            callbacks is Some <==> old(self).state().fires(),
            callbacks matches Some(c) ==> (
                Some(*c) == old(self).record()
                && final(self).record() == Some(*final(c))
            ),
            final(self).state() == old(self).state(),
            callbacks is None ==> final(self).record() == old(self).record(),
    {
        if self.registered {
            self.callbacks.as_mut()
        } else {
            None
        }
    }

    /// Ends the record's life. The callbacks come back the first time and
    /// never again.
    pub fn reclaim(&mut self) -> (callbacks: Option<C>)
        ensures
            callbacks == old(self).record(),
            callbacks is Some <==> old(self).state().releases(),
            final(self).state() == ContextState::Reclaimed,
            final(self).record() is None,
    {
        self.callbacks.take()
    }
}

} // verus!

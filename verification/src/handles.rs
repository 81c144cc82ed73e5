//! Exactly-once ownership of native resources. Every native handle a session
//! acquires is recorded in a [`HandleRegistry`] and bound to a move-only
//! [`HandleGuard`]; releasing the guard consumes it and flips the recorded
//! state from live to released. A guard cannot be copied or rebuilt outside
//! this module, so no handle can be released twice, and the registry remembers
//! every release so that teardown can be audited.

use vstd::prelude::*;

verus! {

/// The lifecycle state of one recorded native handle.
#[derive(Clone, Copy, Debug, PartialEq, Eq, Structural)]
pub enum HandleState {
    /// The native resource is allocated and not yet destroyed.
    Live,
    /// The native destroy call has fired, exactly once.
    Released,
}

/// A move-only guard over one recorded native handle. There is no way to
/// duplicate a guard or to forge one for an arbitrary identifier, so the one
/// release call a guard allows is the only release its handle can ever see.
pub struct HandleGuard {
    id: usize,
}

impl HandleGuard {
    /// The identifier of the handle this guard owns.
    pub closed spec fn id(self) -> int {
        self.id as int
    }

    /// A guard's identifier is a machine word.
    pub broadcast proof fn lemma_id_bounds(g: HandleGuard)
        ensures
            0 <= #[trigger] g.id() <= usize::MAX,
    {
    }

    /// Reads the identifier of the handle this guard owns.
    pub fn handle_id(&self) -> (id: usize)
        ensures
            id == self.id(),
    {
        self.id
    }
}

/// The record of every native handle ever acquired, by identifier, with its
/// current lifecycle state. The registry only ever appends new live handles
/// or flips one live handle to released; a released handle never comes back.
pub struct HandleRegistry {
    states: Vec<HandleState>,
}

impl View for HandleRegistry {
    type V = Seq<HandleState>;

    closed spec fn view(&self) -> Seq<HandleState> {
        self.states@
    }
}

impl HandleRegistry {
    /// The handle is recorded and its destroy call has not fired.
    pub open spec fn is_live(self, id: int) -> bool {
        0 <= id < self@.len() && self@[id] is Live
    }

    /// The handle is recorded and its destroy call has fired, exactly once.
    pub open spec fn is_released(self, id: int) -> bool {
        0 <= id < self@.len() && self@[id] is Released
    }

    /// An empty registry: no handle has ever been acquired.
    pub fn new() -> (r: HandleRegistry)
        ensures
            r@ == Seq::<HandleState>::empty(),
    {
        HandleRegistry { states: Vec::new() }
    }

    /// Records a freshly acquired native handle and hands out the one guard
    /// that can release it. Every handle recorded earlier keeps its state.
    pub fn create_handle(&mut self) -> (g: HandleGuard)
        ensures
            final(self)@ == old(self)@.push(HandleState::Live),
            g.id() == old(self)@.len(),
    {
        let id = self.states.len();
        self.states.push(HandleState::Live);
        HandleGuard { id }
    }

    /// Fires the destroy call for the guarded handle. The guard is consumed,
    /// so the call cannot be repeated; every other handle keeps its state.
    pub fn release(&mut self, g: HandleGuard)
        requires
            old(self).is_live(g.id()),
        ensures
            final(self)@ == old(self)@.update(g.id(), HandleState::Released),
    {
        let id = g.id;
        self.states.set(id, HandleState::Released);
    }

    /// How many native handles have ever been acquired.
    pub fn handle_count(&self) -> (n: usize)
        ensures
            n == self@.len(),
    {
        self.states.len()
    }

    /// Whether the handle with this identifier is still live.
    pub fn is_live_at(&self, id: usize) -> (b: bool)
        ensures
            b == self.is_live(id as int),
    {
        id < self.states.len() && matches!(self.states[id], HandleState::Live)
    }

    /// Whether the destroy call for this identifier has fired.
    pub fn is_released_at(&self, id: usize) -> (b: bool)
        ensures
            b == self.is_released(id as int),
    {
        id < self.states.len() && matches!(self.states[id], HandleState::Released)
    }

    /// How often the destroy call for this identifier has fired: once if the
    /// handle was released, never otherwise. No second firing is possible,
    /// because the one guard over the handle is consumed by its release.
    pub fn release_count(&self, id: usize) -> (n: u32)
        ensures
            n == 1 <==> self.is_released(id as int),
            n == 0 <==> !self.is_released(id as int),
    {
        if self.is_released_at(id) {
            1
        } else {
            0
        }
    }
}

} // verus!

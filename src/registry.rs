use std::collections::HashMap;
use vstd::prelude::*;
use vstd::std_specs::hash::group_hash_axioms;

verus! {

broadcast use group_hash_axioms;

/// How many random identifiers `allocate` draws before it gives up.
pub const MAX_DRAWS: usize = 64;

/// Why a registry operation failed.
#[derive(PartialEq, Eq, Structural, Clone, Copy, Debug)]
pub enum RegistryError {
    NotFound,
    AllocationExhausted,
}

/// Relies on `rand::random::<u64>`: some 64-bit value from the thread's generator.
#[verifier::external_body]
fn draw_id() -> (r: u64) {
    rand::random::<u64>()
}

/// The map from session identifiers to handles of live sessions.
pub struct Registry<H> {
    sessions: HashMap<u64, H>,
}

impl<H> View for Registry<H> {
    type V = Map<u64, H>;

    closed spec fn view(&self) -> Map<u64, H> {
        self.sessions@
    }
}

impl<H> Registry<H> {
    /// An empty registry.
    pub fn new() -> (r: Registry<H>)
        ensures
            r@ == Map::<u64, H>::empty(),
    {
        Registry { sessions: HashMap::new() }
    }

    /// How many sessions are registered.
    pub fn len(&self) -> (r: usize)
        ensures
            r == self@.len(),
    {
        self.sessions.len()
    }

    /// Whether `id` is registered.
    pub fn contains_id(&self, id: u64) -> (r: bool)
        ensures
            r == self@.contains_key(id),
    {
        self.sessions.contains_key(&id)
    }

    /// The first of `draws` that is not registered, or `AllocationExhausted` when
    /// every one of them is.
    pub fn first_free(&self, draws: &Vec<u64>) -> (r: Result<u64, RegistryError>)
        ensures
            match r {
                Ok(id) => exists|i: int|
                    0 <= i < draws@.len() && draws@[i] == id && !self@.contains_key(id) && forall|j: int|
                        0 <= j < i ==> self@.contains_key(#[trigger] draws@[j]),
                Err(e) => e == RegistryError::AllocationExhausted,
            },
            r is Err <==> forall|i: int| 0 <= i < draws@.len() ==> self@.contains_key(#[trigger] draws@[i]),
    {
        let mut i: usize = 0;
        while i < draws.len()
            invariant
                0 <= i <= draws@.len(),
                forall|j: int| 0 <= j < i ==> self@.contains_key(#[trigger] draws@[j]),
            decreases draws@.len() - i,
        {
            let id = draws[i];
            if !self.contains_id(id) {
                return Ok(id);
            }
            i += 1;
        }
        Err(RegistryError::AllocationExhausted)
    }

    /// Draws `MAX_DRAWS` random identifiers and takes the first that is not registered.
    /// On an empty registry this always succeeds.
    pub fn allocate(&self) -> (r: Result<u64, RegistryError>)
        ensures
            match r {
                Ok(id) => !self@.contains_key(id),
                Err(e) => e == RegistryError::AllocationExhausted,
            },
            self@.dom().is_empty() ==> r is Ok,
    {
        let mut draws: Vec<u64> = Vec::new();
        while draws.len() < MAX_DRAWS
            invariant
                draws@.len() <= MAX_DRAWS,
            decreases MAX_DRAWS - draws@.len(),
        {
            draws.push(draw_id());
        }
        let r = self.first_free(&draws);
        proof {
            if self@.dom().is_empty() {
                assert(!self@.contains_key(draws@[0]));
            }
        }
        r
    }

    /// Registers `handle` under the unregistered identifier `id`.
    pub fn insert(&mut self, id: u64, handle: H)
        requires
            !old(self)@.contains_key(id),
        ensures
            final(self)@ == old(self)@.insert(id, handle),
    {
        self.sessions.insert(id, handle);
    }

    /// The handle registered under `id`.
    pub fn lookup(&self, id: u64) -> (r: Result<&H, RegistryError>)
        ensures
            r is Err <==> !self@.contains_key(id),
            match r {
                Ok(h) => self@[id] == *h,
                Err(e) => e == RegistryError::NotFound,
            },
    {
        match self.sessions.get(&id) {
            Some(h) => Ok(h),
            None => Err(RegistryError::NotFound),
        }
    }

    /// Removes the session `id`; a second removal reports `NotFound` and changes nothing.
    pub fn delete(&mut self, id: u64) -> (r: Result<(), RegistryError>)
        ensures
            r is Ok <==> old(self)@.contains_key(id),
            r matches Err(e) ==> e == RegistryError::NotFound,
            final(self)@ == old(self)@.remove(id),
    {
        match self.sessions.remove(&id) {
            Some(_) => Ok(()),
            None => Err(RegistryError::NotFound),
        }
    }
}

} // verus!

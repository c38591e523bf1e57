use vstd::prelude::*;
use std::collections::HashMap;
use crate::error::WindowError;
use crate::instruction::WindowMode;

verus! {

broadcast use vstd::std_specs::hash::group_hash_axioms;

/// What the owner thread records about one live window: the plain values of
/// the creation request and the mode it was resolved to. It stands in for the
/// native window object and its event source, which only the unverified
/// runtime on the owner thread may hold.
#[derive(Debug)]
pub struct WindowRecord {
    pub width: u32,
    pub height: u32,
    pub title: String,
    pub mode: WindowMode,
}

/// The abstract state of a [`WindowRegistry`]: the live windows keyed by
/// identifier, and the next identifier the monotone counter will hand out.
#[verifier::ext_equal]
pub struct RegistryView {
    pub windows: Map<i32, WindowRecord>,
    pub next_id: int,
}

impl RegistryView {
    /// Well-formedness: the identifier counter has not run out, every live
    /// identifier was handed out by it, and the map is finite. Together these
    /// guarantee that the counter's next value is fresh.
    pub open spec fn wf(self) -> bool {
        &&& 0 <= self.next_id <= i32::MAX
        &&& self.windows.dom().finite()
        &&& forall|k: i32| self.windows.contains_key(k) ==> 0 <= k < self.next_id
    }
}

/// The sole owner of all live window records, keyed by an integer identifier
/// that starts at 0, increases by 1 on every insertion, and is never reused
/// within one run. Only the thread that owns the native context may mutate
/// it, and only while executing a queued instruction.
pub struct WindowRegistry {
    next_id: i32,
    windows: HashMap<i32, WindowRecord>,
}

impl View for WindowRegistry {
    type V = RegistryView;

    closed spec fn view(&self) -> RegistryView {
        RegistryView { windows: self.windows@, next_id: self.next_id as int }
    }
}

impl WindowRegistry {
    /// An empty registry whose counter starts at 0.
    pub fn new() -> (registry: Self)
        ensures
            registry@.windows == Map::<i32, WindowRecord>::empty(),
            registry@.next_id == 0,
            registry@.wf(),
    {
        WindowRegistry { next_id: 0, windows: HashMap::new() }
    }

    /// Store a record under the next unused identifier and return that
    /// identifier. The identifier is fresh: it was never a key before, and
    /// the counter moves past it so it never will be again.
    pub fn insert(&mut self, record: WindowRecord) -> (id: i32)
        requires
            old(self)@.wf(),
            old(self)@.next_id < i32::MAX,
        ensures
            final(self)@.wf(),
            id == old(self)@.next_id,
            !old(self)@.windows.contains_key(id),
            final(self)@.windows == old(self)@.windows.insert(id, record),
            final(self)@.next_id == old(self)@.next_id + 1,
    {
        let id = self.next_id;
        self.next_id = self.next_id + 1;
        self.windows.insert(id, record);
        id
    }

    /// Delete the entry for `id` if it is present; calling with an unknown or
    /// already-removed identifier is a no-op, so destruction is idempotent.
    pub fn remove(&mut self, id: i32)
        ensures
            final(self)@.windows == old(self)@.windows.remove(id),
            final(self)@.next_id == old(self)@.next_id,
            old(self)@.wf() ==> final(self)@.wf(),
    {
        self.windows.remove(&id);
    }

    /// Look the identifier up; an absent identifier is the recoverable
    /// `UnknownWindow` error, the one place a use-after-destroy surfaces.
    pub fn get(&self, id: i32) -> (result: Result<&WindowRecord, WindowError>)
        ensures
            match result {
                Ok(record) => self@.windows.contains_key(id) && *record == self@.windows[id],
                Err(e) => e == WindowError::UnknownWindow && !self@.windows.contains_key(id),
            },
    {
        match self.windows.get(&id) {
            Some(record) => Ok(record),
            None => Err(WindowError::UnknownWindow),
        }
    }

    /// Whether `id` names a live entry.
    pub fn contains(&self, id: i32) -> (present: bool)
        ensures
            present == self@.windows.contains_key(id),
    {
        self.windows.contains_key(&id)
    }

    /// The number of live entries.
    pub fn len(&self) -> (n: usize)
        ensures
            n == self@.windows.len(),
    {
        self.windows.len()
    }

    /// The identifier the next insertion will return.
    pub fn next_id(&self) -> (id: i32)
        ensures
            id == self@.next_id,
    {
        self.next_id
    }

    /// Drop every entry at once, as the native teardown does when the context
    /// is released with windows still registered. The counter keeps its
    /// value: identifiers are never reused, even across a teardown.
    pub fn clear(&mut self)
        ensures
            final(self)@.windows == Map::<i32, WindowRecord>::empty(),
            final(self)@.next_id == old(self)@.next_id,
            old(self)@.wf() ==> final(self)@.wf(),
    {
        self.windows.clear();
    }
}

} // verus!

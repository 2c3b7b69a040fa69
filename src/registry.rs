use crate::error::FsError;
use std::collections::HashMap;
use vstd::prelude::*;

verus! {

broadcast use vstd::std_specs::hash::group_hash_axioms;

/// The table of live sessions, keyed by the handle each was given.
///
/// Handles are handed out in increasing order and never twice, so a handle
/// that was taken out stays unknown for good.
pub struct WatchRegistry<S> {
    sessions: HashMap<u64, S>,
    next: u64,
}

impl<S> View for WatchRegistry<S> {
    type V = Map<u64, S>;

    closed spec fn view(&self) -> Map<u64, S> {
        self.sessions@
    }
}

impl<S> WatchRegistry<S> {
    /// The first handle not yet given out.
    pub closed spec fn next_handle(&self) -> u64 {
        self.next
    }

    /// Every live handle was given out before `next_handle`.
    pub open spec fn wf(&self) -> bool {
        forall|h: u64| #[trigger] self@.contains_key(h) ==> h < self.next_handle()
    }

    /// An empty table.
    pub fn new() -> (r: Self)
        ensures
            r.wf(),
            r@ == Map::<u64, S>::empty(),
            r.next_handle() == 0,
    {
        WatchRegistry { sessions: HashMap::new(), next: 0 }
    }

    /// Number of live sessions.
    pub fn len(&self) -> (r: usize)
        ensures
            r == self@.len(),
    {
        self.sessions.len()
    }

    /// Whether `handle` names a live session.
    pub fn contains(&self, handle: u64) -> (r: bool)
        ensures
            r == self@.contains_key(handle),
    {
        self.sessions.contains_key(&handle)
    }

    /// Whether every handle has been given out.
    pub fn is_full(&self) -> (r: bool)
        ensures
            r == (self.next_handle() == u64::MAX),
    {
        self.next == u64::MAX
    }

    /// Stores `session` under a fresh handle and returns the handle; fails
    /// only once every handle has been given out.
    pub fn insert(&mut self, session: S) -> (r: Result<u64, FsError>)
        requires
            old(self).wf(),
        ensures
            final(self).wf(),
            old(self).next_handle() < u64::MAX ==> r is Ok,
            match r {
                Ok(h) => {
                    &&& h == old(self).next_handle()
                    &&& !old(self)@.contains_key(h)
                    &&& final(self)@ == old(self)@.insert(h, session)
                    &&& final(self).next_handle() == h + 1
                },
                Err(e) => {
                    &&& e == FsError::HandlesExhausted
                    &&& old(self).next_handle() == u64::MAX
                    &&& *final(self) == *old(self)
                },
            },
    {
        if self.next == u64::MAX {
            return Err(FsError::HandlesExhausted);
        }
        let h = self.next;
        self.sessions.insert(h, session);
        self.next = h + 1;
        assert forall|k: u64| #[trigger] self@.contains_key(k) implies k < self.next_handle() by {
            if k != h {
                assert(old(self)@.contains_key(k));
            }
        }
        Ok(h)
    }

    /// Removes the session under `handle` and hands it over; fails with
    /// `HandleNotFound` where no live session has that handle.
    pub fn take(&mut self, handle: u64) -> (r: Result<S, FsError>)
        requires
            old(self).wf(),
        ensures
            final(self).wf(),
            final(self)@ == old(self)@.remove(handle),
            final(self).next_handle() == old(self).next_handle(),
            r is Ok <==> old(self)@.contains_key(handle),
            match r {
                Ok(s) => s == old(self)@[handle],
                Err(e) => e == FsError::HandleNotFound,
            },
    {
        let r = self.sessions.remove(&handle);
        assert forall|k: u64| #[trigger] self@.contains_key(k) implies k < self.next_handle() by {
            assert(old(self)@.contains_key(k));
        }
        match r {
            Some(s) => Ok(s),
            None => Err(FsError::HandleNotFound),
        }
    }
}

} // verus!

//! The shared handle slot: the single place a live backend handle may live.
//!
//! Every shutdown trigger -- the quit command, the window-close handler, the
//! crash path -- goes through one slot that holds at most one live handle.
//! Whichever caller takes the handle first becomes solely responsible for
//! its shutdown; everyone after observes an empty slot and treats shutdown
//! as already handled. The caller serializes access to the slot (in the
//! application a mutex guards it); the slot itself guarantees the take-once
//! semantics.

use vstd::prelude::*;

use crate::supervisor::PythonBackend;

verus! {

/// A single optional backend handle with take semantics.
pub struct BackendSlot {
    pub inner: Option<PythonBackend>,
}

/// What `take` leaves behind and hands out: the emptied slot and whatever
/// the slot held.
pub open spec fn spec_take(s: BackendSlot) -> (BackendSlot, Option<PythonBackend>) {
    (BackendSlot { inner: None }, s.inner)
}

impl BackendSlot {
    /// An empty slot: no backend is running.
    pub fn new() -> (s: Self)
        ensures
            s.inner is None,
    {
        BackendSlot { inner: None }
    }

    /// Store a freshly launched handle, if the slot is free. Returns whether
    /// the handle was stored; an occupied slot is left untouched and the
    /// caller keeps the handle, so at most one live backend exists at a
    /// time.
    pub fn try_occupy(&mut self, backend: PythonBackend) -> (stored: bool)
        ensures
            old(self).inner is None ==> stored && final(self).inner == Some(backend),
            old(self).inner is Some ==> !stored && final(self).inner == old(self).inner,
    {
        match &self.inner {
            None => {
                self.inner = Some(backend);
                true
            },
            Some(_) => false,
        }
    }

    /// Remove and return whatever the slot holds, leaving it empty. The
    /// caller that receives the handle owns its shutdown; a caller that
    /// receives nothing has nothing to do.
    pub fn take(&mut self) -> (r: Option<PythonBackend>)
        ensures
            (*final(self), r) == spec_take(*old(self)),
            final(self).inner is None,
            r == old(self).inner,
    {
        self.inner.take()
    }

    /// Whether a backend handle is currently stored.
    pub fn is_occupied(&self) -> (r: bool)
        ensures
            r == (self.inner is Some),
    {
        match &self.inner {
            Some(_) => true,
            None => false,
        }
    }

    /// The port of the stored backend, if one is stored.
    pub fn peek_port(&self) -> (r: Option<u16>)
        ensures
            match self.inner {
                Some(b) => r == Some(b.port),
                None => r is None,
            },
    {
        match &self.inner {
            Some(b) => Some(b.port()),
            None => None,
        }
    }
}

/// Law: two takes in a row -- sequential, or concurrent and serialized by
/// the guarding mutex -- hand the handle to at most one caller. The second
/// take always observes the emptied slot and receives nothing, so only the
/// first caller performs the actual kill sequence and the second call is a
/// side-effect-free success.
pub proof fn lemma_second_take_receives_nothing(s: BackendSlot)
    ensures
        ({
            let (s1, first) = spec_take(s);
            let (s2, second) = spec_take(s1);
            &&& second is None
            &&& first == s.inner
            &&& s2.inner is None
        }),
{
}

} // verus!

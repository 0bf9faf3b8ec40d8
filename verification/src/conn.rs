//! The connection manager's core: a process-wide slot for the single store
//! handle. The slot is filled lazily, at most once, and never replaced or
//! torn down afterwards; every later reader sees the one installed handle.
//!
//! Mutual exclusion between racing first users is the caller's lock; what is
//! proved here is the slot's transition discipline: `install` lets the first
//! offer win and leaves an occupied slot exactly as it was, so even a caller
//! that raced past a stale emptiness check cannot overwrite the winner.

use vstd::prelude::*;

verus! {

/// Holds the single store handle for the process, once one exists.
pub struct ConnManager<H> {
    handle: Option<H>,
}

impl<H> ConnManager<H> {
    /// The installed handle, if any.
    pub closed spec fn spec_handle(&self) -> Option<H> {
        self.handle
    }

    /// Whether a handle has been installed.
    pub open spec fn connected(&self) -> bool {
        self.spec_handle() is Some
    }

    /// The slot's transition on an offered handle: a first offer fills the
    /// slot; an occupied slot is left exactly as it was.
    pub closed spec fn after_install(m: ConnManager<H>, h: H) -> ConnManager<H> {
        if m.connected() {
            m
        } else {
            ConnManager { handle: Some(h) }
        }
    }

    /// An empty slot: no connection attempt has succeeded yet.
    pub fn new() -> (r: Self)
        ensures
            !r.connected(),
    {
        ConnManager { handle: None }
    }

    /// Whether the connect transition already happened.
    pub fn is_connected(&self) -> (b: bool)
        ensures
            b == self.connected(),
    {
        self.handle.is_some()
    }

    /// Read-only access to the installed handle.
    pub fn handle(&self) -> (r: Option<&H>)
        ensures
            r is Some <==> self.connected(),
            r matches Some(x) ==> self.spec_handle() == Some(*x),
    {
        self.handle.as_ref()
    }

    /// Offers a freshly established handle. The first offer wins and is
    /// installed; against an occupied slot the offer changes nothing, and the
    /// result says which happened.
    pub fn install(&mut self, h: H) -> (won: bool)
        ensures
            *final(self) == Self::after_install(*old(self), h),
            won == !old(self).connected(),
            final(self).connected(),
            old(self).connected() ==> *final(self) == *old(self),
            !old(self).connected() ==> final(self).spec_handle() == Some(h),
    {
        if self.handle.is_some() {
            false
        } else {
            self.handle = Some(h);
            true
        }
    }
}

/// Law: establishing the connection is one-shot. Offering a handle to an
/// already-filled slot returns it unchanged, so whatever later offers arrive
/// and in whatever order, the slot holds the first installed handle forever,
/// and every reader observes that same handle.
pub proof fn lemma_install_once<H>(m: ConnManager<H>, h1: H, h2: H)
    ensures
        ConnManager::after_install(ConnManager::after_install(m, h1), h2)
            == ConnManager::after_install(m, h1),
        ConnManager::after_install(m, h1).connected(),
        !m.connected() ==> ConnManager::after_install(m, h1).spec_handle() == Some(h1),
        m.connected() ==> ConnManager::after_install(m, h1) == m,
{
}

} // verus!

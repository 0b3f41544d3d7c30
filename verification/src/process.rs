//! Ownership of the supervised process.
//!
//! The supervisor owns at most one child process, and only one that it
//! spawned itself. Whatever ends the owning scope asks for the teardown; the
//! first request hands the child out to be terminated and reaped, and every
//! later one finds nothing left to do.

use vstd::prelude::*;

verus! {

/// What the owner has to do when its scope ends.
#[derive(Debug, PartialEq, Eq)]
pub enum Teardown<C> {
    /// No process is owned: do nothing.
    Nothing,
    /// Send the process a termination signal, then wait for it to exit.
    KillAndReap(C),
}

/// The supervised process, if this instance spawned one. `C` is the
/// caller's handle to a child process.
#[derive(Debug)]
pub struct ServerProcess<C> {
    child: Option<C>,
}

/// The action that tearing down `owned` calls for.
pub open spec fn teardown_of<C>(owned: Option<C>) -> Teardown<C> {
    match owned {
        Some(child) => Teardown::KillAndReap(child),
        None => Teardown::Nothing,
    }
}

/// The owned process is handed out to be terminated and reaped exactly
/// once: the first teardown hands out the child that was owned, and a
/// teardown that follows another has nothing to do. Without a process of its
/// own the first teardown has nothing to do either.
///
/// `owned` is what is owned before the first teardown, `left` what a
/// teardown leaves behind.
pub proof fn lemma_teardown_happens_once<C>(owned: Option<C>, left: Option<C>)
    requires
        left is None,
    ensures
        owned matches Some(child) ==> teardown_of(owned) == Teardown::KillAndReap(child),
        owned is None ==> teardown_of(owned) is Nothing,
        teardown_of(left) is Nothing,
{
}

impl<C> View for ServerProcess<C> {
    type V = Option<C>;

    /// The child that is owned, if any.
    closed spec fn view(&self) -> Option<C> {
        self.child
    }
}

impl<C> ServerProcess<C> {
    /// The state when a server was found running: nothing was spawned, so
    /// nothing is owned.
    pub fn external() -> (process: ServerProcess<C>)
        ensures
            process@ is None,
    {
        ServerProcess { child: None }
    }

    /// Takes ownership of a child that was just spawned.
    pub fn spawned(child: C) -> (process: ServerProcess<C>)
        ensures
            process@ == Some(child),
    {
        ServerProcess { child: Some(child) }
    }

    /// Whether a process is owned.
    pub fn owns_process(&self) -> (owned: bool)
        ensures
            owned == (self@ is Some),
    {
        self.child.is_some()
    }

    /// Gives up ownership and says what to do with what was owned.
    pub fn teardown(&mut self) -> (action: Teardown<C>)
        ensures
            action == teardown_of(old(self)@),
            final(self)@ is None,
    {
        match self.child.take() {
            Some(child) => Teardown::KillAndReap(child),
            None => Teardown::Nothing,
        }
    }
}

} // verus!

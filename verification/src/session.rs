use vstd::prelude::*;

verus! {

/// The lock on a community's shared voice session. A cycle of join, play and
/// leave holds it from the moment it may join until it has left; a watcher
/// is named by its index.
#[derive(Clone, Copy, Debug, PartialEq, Eq)]
pub struct SessionLock {
    pub holder: Option<usize>,
}

impl SessionLock {
    /// Whether no cycle holds the session.
    pub open spec fn free(self) -> bool {
        self.holder is None
    }

    /// A lock that nobody holds.
    pub fn new() -> (lock: SessionLock)
        ensures
            lock.holder is None,
    {
        SessionLock { holder: None }
    }

    /// Executable form of [`SessionLock::free`].
    pub fn is_free(&self) -> (r: bool)
        ensures
            r == self.free(),
    {
        match self.holder {
            None => true,
            Some(_) => false,
        }
    }

    /// Whether `who` holds the session.
    pub fn held_by(&self, who: usize) -> (r: bool)
        ensures
            r == (self.holder == Some(who)),
    {
        match self.holder {
            Some(h) => h == who,
            None => false,
        }
    }

    /// Takes the session for `who`. It is granted where the session is free
    /// and where `who` holds it already; otherwise the first requester keeps
    /// it and nothing changes.
    pub fn acquire(&mut self, who: usize) -> (granted: bool)
        ensures
            granted == (old(self).holder is None || old(self).holder == Some(who)),
            granted ==> final(self).holder == Some(who),
            !granted ==> *final(self) == *old(self),
    {
        match self.holder {
            None => {
                self.holder = Some(who);
                true
            },
            Some(h) => h == who,
        }
    }

    /// Gives the session back. Only its holder can do so: for anyone else
    /// nothing changes.
    pub fn release(&mut self, who: usize) -> (released: bool)
        ensures
            released == (old(self).holder == Some(who)),
            released ==> final(self).holder is None,
            !released ==> *final(self) == *old(self),
    {
        if self.held_by(who) {
            self.holder = None;
            true
        } else {
            false
        }
    }
}

} // verus!

//! Admission control: a counter that caps how many sockets are open.
//!
//! The accept loop asks before it serves a connection and releases when
//! the connection's task ends.  Asking never waits: when the cap is
//! reached the connection is refused on the spot.

use vstd::prelude::*;

verus! {

/// Whether a further connection is admitted at this occupancy and cap.
pub open spec fn spec_admit(open_sockets: nat, max_open_sockets: nat) -> bool {
    open_sockets < max_open_sockets
}

/// The admission counter of one server.
pub struct Admission {
    open_sockets: usize,
    max_open_sockets: usize,
}

impl Admission {
    /// How many connections are admitted right now.
    pub closed spec fn open_count(&self) -> nat {
        self.open_sockets as nat
    }

    /// The configured cap.
    pub closed spec fn capacity(&self) -> nat {
        self.max_open_sockets as nat
    }

    /// Admitted connections never exceed the cap.
    pub open spec fn wf(&self) -> bool {
        self.open_count() <= self.capacity()
    }

    pub fn new(max_open_sockets: usize) -> (r: Admission)
        ensures
            r.wf(),
            r.open_count() == 0,
            r.capacity() == max_open_sockets,
    {
        Admission { open_sockets: 0, max_open_sockets }
    }

    /// Admit one more connection if the cap allows, without waiting.
    pub fn try_admit(&mut self) -> (r: bool)
        requires
            old(self).wf(),
        ensures
            final(self).wf(),
            r == spec_admit(old(self).open_count(), old(self).capacity()),
            final(self).capacity() == old(self).capacity(),
            r ==> final(self).open_count() == old(self).open_count() + 1,
            !r ==> final(self).open_count() == old(self).open_count(),
    {
        if self.open_sockets < self.max_open_sockets {
            self.open_sockets = self.open_sockets + 1;
            true
        } else {
            false
        }
    }

    /// Give an admitted connection's place back when its task ends.
    pub fn release(&mut self)
        requires
            old(self).wf(),
            old(self).open_count() > 0,
        ensures
            final(self).wf(),
            final(self).capacity() == old(self).capacity(),
            final(self).open_count() == old(self).open_count() - 1,
    {
        self.open_sockets = self.open_sockets - 1;
    }
}

/// Once as many connections are open as the cap names, the next one is
/// refused; below the cap, every attempt is admitted.
pub proof fn law_admission_cap(open_sockets: nat, max_open_sockets: nat)
    ensures
        open_sockets >= max_open_sockets ==> !spec_admit(open_sockets, max_open_sockets),
        open_sockets < max_open_sockets ==> spec_admit(open_sockets, max_open_sockets),
{
}

/// A connection's end makes room: when a held place is given back, the
/// next attempt is admitted, however full the server was.
pub proof fn law_freed_place_readmits(open_sockets: nat, max_open_sockets: nat)
    requires
        0 < open_sockets <= max_open_sockets,
    ensures
        spec_admit((open_sockets - 1) as nat, max_open_sockets),
{
}

} // verus!

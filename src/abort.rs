use vstd::prelude::*;

verus! {

/// Holds the cleanup action of a call whose result may never be seen. `fire`
/// runs it unless that result was seen ready first, and at most once; the
/// handle that owns the guard calls `fire` from its destructor.
pub struct RequestAbort<F: FnOnce()> {
    active: bool,
    abort: Option<F>,
}

impl<F: FnOnce()> RequestAbort<F> {
    /// The guard still owes its cleanup.
    pub closed spec fn active(&self) -> bool {
        self.active
    }

    /// The cleanup action, while it has not been consumed.
    pub closed spec fn action(&self) -> Option<F> {
        self.abort
    }

    /// An active guard holds an action that can be run.
    #[verifier::type_invariant]
    pub closed spec fn wf(&self) -> bool {
        &&& self.active ==> self.abort is Some
        &&& self.abort matches Some(f) ==> f.requires(())
    }

    /// An active guard around `abort`.
    pub fn new(abort: F) -> (r: Self)
        requires
            abort.requires(()),
        ensures
            r.active(),
            r.action() == Some(abort),
    {
        RequestAbort { active: true, abort: Some(abort) }
    }

    /// Whether the guard still owes its cleanup.
    pub fn is_active(&self) -> (r: bool)
        ensures
            r == self.active(),
    {
        self.active
    }

    /// Marks the guarded result as seen: the cleanup will not run. Idempotent.
    pub fn deactivate(&mut self)
        ensures
            !final(self).active(),
            final(self).action() == old(self).action(),
    {
        proof {
            use_type_invariant(&*self);
        }
        self.active = false;
    }

    /// Passes on what a poll of the guarded result gave: a value deactivates
    /// the guard, nothing leaves it as it was.
    pub fn settle<T>(&mut self, polled: Option<T>) -> (r: Option<T>)
        ensures
            r == polled,
            final(self).action() == old(self).action(),
            final(self).active() == (old(self).active() && polled is None),
    {
        if polled.is_some() {
            self.deactivate();
        }
        polled
    }

    /// Runs the cleanup if the guard is still active, and returns whether it
    /// ran. Afterwards the guard is inactive, so the cleanup never runs twice.
    pub fn fire(&mut self) -> (ran: bool)
        ensures
            ran == old(self).active(),
            !final(self).active(),
            ran ==> final(self).action() is None,
            ran ==> (old(self).action() matches Some(f) && call_ensures(f, (), ())),
            !ran ==> final(self).action() == old(self).action(),
    {
        proof {
            use_type_invariant(&*self);
        }
        if self.active {
            self.active = false;
            let mut taken: Option<F> = None;
            core::mem::swap(&mut self.abort, &mut taken);
            match taken {
                Some(f) => {
                    f();
                },
                None => {},
            }
            true
        } else {
            false
        }
    }
}

} // verus!

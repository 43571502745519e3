//! Admission control: a fixed number of slots, one reserved before a job is
//! serviced and returned when the job completes.

use vstd::prelude::*;

verus! {

/// The abstract state of an admission controller.
pub struct AdmissionState {
    /// Slots currently reserved.
    pub active: nat,
    /// The concurrency limit.
    pub limit: nat,
}

impl AdmissionState {
    /// No more slots are reserved than the limit allows.
    pub open spec fn wf(self) -> bool {
        self.active <= self.limit
    }

    /// A slot is free.
    pub open spec fn has_capacity(self) -> bool {
        self.active < self.limit
    }

    /// The state after an attempt to reserve a slot.
    pub open spec fn reserve(self) -> AdmissionState {
        if self.has_capacity() {
            AdmissionState { active: self.active + 1, limit: self.limit }
        } else {
            self
        }
    }

    /// The state after an attempt to return a slot.
    pub open spec fn release(self) -> AdmissionState {
        if self.active > 0 {
            AdmissionState { active: (self.active - 1) as nat, limit: self.limit }
        } else {
            self
        }
    }
}

/// One call on an admission controller.
pub enum GateEvent {
    /// An attempt to reserve a slot.
    TryAdmit,
    /// The return of a slot.
    Release,
}

impl AdmissionState {
    /// The state after one call.
    pub open spec fn step(self, event: GateEvent) -> AdmissionState {
        match event {
            GateEvent::TryAdmit => self.reserve(),
            GateEvent::Release => self.release(),
        }
    }

    /// The state after a sequence of calls.
    pub open spec fn run(self, events: Seq<GateEvent>) -> AdmissionState
        decreases events.len(),
    {
        if events.len() == 0 {
            self
        } else {
            self.run(events.drop_last()).step(events.last())
        }
    }

    /// The number of attempts, in a sequence of calls, that got a slot.
    pub open spec fn granted(self, events: Seq<GateEvent>) -> nat
        decreases events.len(),
    {
        if events.len() == 0 {
            0
        } else {
            let earlier = self.granted(events.drop_last());
            if events.last() is TryAdmit && self.run(events.drop_last()).has_capacity() {
                earlier + 1
            } else {
                earlier
            }
        }
    }
}

/// The number of slots returned in a sequence of calls.
pub open spec fn releases(events: Seq<GateEvent>) -> nat
    decreases events.len(),
{
    if events.len() == 0 {
        0
    } else if events.last() is Release {
        releases(events.drop_last()) + 1
    } else {
        releases(events.drop_last())
    }
}

/// Whatever the calls, no more slots are reserved than the limit allows,
/// and the limit stays what it was.
pub proof fn lemma_reserved_never_over_limit(state: AdmissionState, events: Seq<GateEvent>)
    requires
        state.wf(),
    ensures
        state.run(events).wf(),
        state.run(events).limit == state.limit,
    decreases events.len(),
{
    if events.len() > 0 {
        lemma_reserved_never_over_limit(state, events.drop_last());
    }
}

/// A slot is granted only if it was free at the start or has been returned
/// since: with every slot taken, the next attempt fails until a release.
pub proof fn lemma_grants_wait_for_releases(state: AdmissionState, events: Seq<GateEvent>)
    requires
        state.wf(),
    ensures
        state.granted(events) + state.active <= state.run(events).active + releases(events),
        state.granted(events) + state.active <= state.limit + releases(events),
    decreases events.len(),
{
    lemma_reserved_never_over_limit(state, events);
    if events.len() > 0 {
        lemma_grants_wait_for_releases(state, events.drop_last());
        lemma_reserved_never_over_limit(state, events.drop_last());
    }
}

/// Bounds how many jobs may be in flight at once.
pub struct AdmissionController {
    limit: usize,
    active: usize,
}

impl View for AdmissionController {
    type V = AdmissionState;

    closed spec fn view(&self) -> AdmissionState {
        AdmissionState { active: self.active as nat, limit: self.limit as nat }
    }
}

impl AdmissionController {
    #[verifier::type_invariant]
    spec fn inv(self) -> bool {
        self.active <= self.limit
    }

    /// A controller with `limit` slots, none of them reserved.
    pub fn new(limit: usize) -> (gate: AdmissionController)
        ensures
            gate@ == (AdmissionState { active: 0, limit: limit as nat }),
            gate@.wf(),
    {
        AdmissionController { limit, active: 0 }
    }

    /// The concurrency limit.
    pub fn limit(&self) -> (limit: usize)
        ensures
            limit == self@.limit,
    {
        self.limit
    }

    /// The number of slots reserved, never more than the limit.
    pub fn active(&self) -> (active: usize)
        ensures
            active == self@.active,
            self@.wf(),
    {
        proof {
            use_type_invariant(self);
        }
        self.active
    }

    /// Reserves a slot if one is free, and says whether it did. It never
    /// waits.
    pub fn try_admit(&mut self) -> (admitted: bool)
        ensures
            admitted == old(self)@.has_capacity(),
            final(self)@ == old(self)@.reserve(),
            final(self)@.wf(),
    {
        proof {
            use_type_invariant(&*self);
        }
        if self.active < self.limit {
            self.active = self.active + 1;
            true
        } else {
            false
        }
    }

    /// Returns a slot, and says whether one was reserved. With none
    /// reserved nothing changes.
    pub fn release(&mut self) -> (released: bool)
        ensures
            released == (old(self)@.active > 0),
            final(self)@ == old(self)@.release(),
            final(self)@.wf(),
    {
        proof {
            use_type_invariant(&*self);
        }
        if self.active > 0 {
            self.active = self.active - 1;
            true
        } else {
            false
        }
    }
}

} // verus!

use vstd::prelude::*;

verus! {

/// What the trajectory driver does in one iteration.
#[derive(Clone, Copy, Debug, PartialEq, Eq, Structural)]
pub enum Action {
    /// The time or step budget is spent: record nothing more.
    Stop,
    /// Record a sample of the current state, then stop (ground impact).
    RecordThenStop,
    /// Record a sample of the current state, then advance one step.
    RecordThenStep,
}

/// What the host observes of the current state before an iteration: whether
/// the elapsed time is still within the time budget, and whether the
/// altitude is at or below the ground threshold.
#[derive(Clone, Copy, Debug, PartialEq, Eq, Structural)]
pub struct Observation {
    pub within_time: bool,
    pub at_ground: bool,
}

/// The decision of one iteration after `steps` completed steps out of a budget
/// of `max_steps`. Ground impact ends the flight only once it has started, so
/// that a launch point at or below the ground still yields its first sample.
pub open spec fn action_for(steps: nat, max_steps: nat, obs: Observation) -> Action {
    if !(obs.within_time && steps < max_steps) {
        Action::Stop
    } else if obs.at_ground && steps > 0 {
        Action::RecordThenStop
    } else {
        Action::RecordThenStep
    }
}

/// Termination and step-budget logic of the fixed-step trajectory driver.
/// The host integrates the state; this decides when a sample is recorded and
/// when the flight ends.
#[derive(Clone, Copy, Debug)]
pub struct FlightControl {
    steps: usize,
    max_steps: usize,
}

impl FlightControl {
    /// Steps completed so far.
    pub closed spec fn spec_steps(&self) -> nat {
        self.steps as nat
    }

    /// The step budget.
    pub closed spec fn spec_max_steps(&self) -> nat {
        self.max_steps as nat
    }

    /// No more steps are taken than the budget allows.
    pub open spec fn wf(&self) -> bool {
        self.spec_steps() <= self.spec_max_steps()
    }

    /// Starts a flight with a budget of `max_steps` steps; a budget of zero
    /// is rejected.
    pub fn new(max_steps: usize) -> (r: Option<FlightControl>)
        ensures
            r is None <==> max_steps == 0,
            r matches Some(c) ==> c.wf() && c.spec_steps() == 0 && c.spec_max_steps()
                == max_steps,
    {
        if max_steps == 0 {
            None
        } else {
            Some(FlightControl { steps: 0, max_steps })
        }
    }

    /// Steps completed so far; this is the index of the next sample.
    pub fn steps(&self) -> (r: usize)
        ensures
            r == self.spec_steps(),
    {
        self.steps
    }

    /// The step budget.
    pub fn max_steps(&self) -> (r: usize)
        ensures
            r == self.spec_max_steps(),
    {
        self.max_steps
    }

    /// Decides the current iteration from what the host observed.
    pub fn decide(&self, obs: Observation) -> (r: Action)
        ensures
            r == action_for(self.spec_steps(), self.spec_max_steps(), obs),
    {
        if !(obs.within_time && self.steps < self.max_steps) {
            Action::Stop
        } else if obs.at_ground && self.steps > 0 {
            Action::RecordThenStop
        } else {
            Action::RecordThenStep
        }
    }

    /// Counts one completed step; allowed only where the last decision was
    /// to record and step.
    pub fn advance(&mut self)
        requires
            old(self).spec_steps() < old(self).spec_max_steps(),
        ensures
            final(self).spec_steps() == old(self).spec_steps() + 1,
            final(self).spec_max_steps() == old(self).spec_max_steps(),
    {
        self.steps = self.steps + 1;
    }
}

/// Step indices of the samples recorded by a flight that has completed
/// `steps` steps of `max_steps` and then observes `obs`, one observation per
/// iteration until it stops (or the observations run out).
pub open spec fn recorded_from(steps: nat, max_steps: nat, obs: Seq<Observation>) -> Seq<nat>
    decreases obs.len(),
{
    if obs.len() == 0 {
        Seq::empty()
    } else {
        match action_for(steps, max_steps, obs[0]) {
            Action::Stop => Seq::empty(),
            Action::RecordThenStop => seq![steps],
            Action::RecordThenStep => seq![steps].add(
                recorded_from(steps + 1, max_steps, obs.drop_first()),
            ),
        }
    }
}

/// Step indices of the samples that a whole flight records.
pub open spec fn recorded(max_steps: nat, obs: Seq<Observation>) -> Seq<nat> {
    recorded_from(0, max_steps, obs)
}

/// Samples of a flight resumed after `steps` steps: the i-th carries step
/// index `steps + i`, each was taken within the time budget, no more are
/// taken than steps remain in the budget or observations were made, and only
/// the last may have been taken at or below the ground after the start.
pub proof fn lemma_recorded_from(steps: nat, max_steps: nat, obs: Seq<Observation>)
    requires
        steps <= max_steps,
    ensures
        ({
            let r = recorded_from(steps, max_steps, obs);
            &&& r.len() <= max_steps - steps
            &&& r.len() <= obs.len()
            &&& forall|i: int| 0 <= i < r.len() ==> r[i] == steps + i
            &&& forall|i: int| 0 <= i < r.len() ==> (#[trigger] obs[i]).within_time
            &&& forall|i: int|
                0 <= i < r.len() - 1 && steps + i > 0 ==> !(#[trigger] obs[i]).at_ground
        }),
    decreases obs.len(),
{
    if obs.len() > 0 && action_for(steps, max_steps, obs[0]) == Action::RecordThenStep {
        let tail = obs.drop_first();
        lemma_recorded_from(steps + 1, max_steps, tail);
        let r = recorded_from(steps, max_steps, obs);
        let rt = recorded_from(steps + 1, max_steps, tail);
        assert(r == seq![steps].add(rt));
        assert forall|i: int| 0 <= i < r.len() implies r[i] == steps + i by {
            if i > 0 {
                assert(r[i] == rt[i - 1]);
            }
        }
        assert forall|i: int| 0 <= i < r.len() implies (#[trigger] obs[i]).within_time by {
            if i > 0 {
                assert(obs[i] == tail[i - 1]);
            }
        }
        assert forall|i: int|
            0 <= i < r.len() - 1 && steps + i > 0 implies !(#[trigger] obs[i]).at_ground by {
            if i > 0 {
                assert(obs[i] == tail[i - 1]);
            }
        }
    }
}

/// A whole flight records its samples at step indices 0, 1, 2, ... in order,
/// never more than the step budget, each within the time budget; once the
/// flight has started, a sample at or below the ground is the last one.
pub proof fn lemma_recorded_flight(max_steps: nat, obs: Seq<Observation>)
    ensures
        ({
            let r = recorded(max_steps, obs);
            &&& r.len() <= max_steps
            &&& forall|i: int| 0 <= i < r.len() ==> r[i] == i
            &&& forall|i: int, j: int| 0 <= i < j < r.len() ==> r[i] < r[j]
            &&& forall|i: int| 0 <= i < r.len() ==> (#[trigger] obs[i]).within_time
            &&& forall|i: int| 0 < i < r.len() && (#[trigger] obs[i]).at_ground ==> i == r.len() - 1
        }),
{
    lemma_recorded_from(0, max_steps, obs);
}

/// The initial condition is always sampled: a flight with a nonzero step
/// budget whose first observation is within the time budget records a
/// sample at step 0, even when the launch point is at or below the ground.
pub proof fn lemma_first_sample_recorded(max_steps: nat, obs: Seq<Observation>)
    requires
        max_steps > 0,
        obs.len() > 0,
        obs[0].within_time,
    ensures
        recorded(max_steps, obs).len() >= 1,
        recorded(max_steps, obs)[0] == 0,
{
}

/// Ground termination: if, within the time and step budgets, the first
/// observation at or below the ground after the start comes at step `k`, the
/// flight records exactly the samples of steps 0 to `k`, and that of `k` last.
pub proof fn lemma_ground_ends_flight(max_steps: nat, obs: Seq<Observation>, k: nat)
    requires
        0 < k < max_steps,
        k < obs.len(),
        forall|i: int| 0 <= i <= k ==> (#[trigger] obs[i]).within_time,
        forall|i: int| 0 < i < k ==> !(#[trigger] obs[i]).at_ground,
        obs[k as int].at_ground,
    ensures
        recorded(max_steps, obs).len() == k + 1,
        recorded(max_steps, obs)[k as int] == k,
{
    lemma_recorded_from(0, max_steps, obs);
    lemma_ground_ends_flight_from(0, max_steps, obs, k);
}

proof fn lemma_ground_ends_flight_from(steps: nat, max_steps: nat, obs: Seq<Observation>, k: nat)
    requires
        steps < k < max_steps,
        k - steps < obs.len(),
        forall|i: int| 0 <= i <= k - steps ==> (#[trigger] obs[i]).within_time,
        forall|i: int| 0 <= i < k - steps && steps + i > 0 ==> !(#[trigger] obs[i]).at_ground,
        obs[k - steps].at_ground,
    ensures
        recorded_from(steps, max_steps, obs).len() == k - steps + 1,
    decreases k - steps,
{
    let tail = obs.drop_first();
    assert(obs[0].within_time);
    assert(action_for(steps, max_steps, obs[0]) == Action::RecordThenStep);
    assert forall|i: int| 0 <= i <= k - (steps + 1) implies (#[trigger] tail[i]).within_time by {
        assert(tail[i] == obs[i + 1]);
    }
    assert forall|i: int| 0 <= i < k - (steps + 1) && steps + 1 + i > 0 implies !(
    #[trigger] tail[i]).at_ground by {
        assert(tail[i] == obs[i + 1]);
    }
    assert(tail[k - (steps + 1)] == obs[k - steps]);
    if steps + 1 < k {
        lemma_ground_ends_flight_from(steps + 1, max_steps, tail, k);
    } else {
        assert(action_for(k, max_steps, tail[0]) == Action::RecordThenStop);
        assert(recorded_from(k, max_steps, tail) == seq![k]);
    }
    assert(recorded_from(steps, max_steps, obs) == seq![steps].add(
        recorded_from(steps + 1, max_steps, tail),
    ));
}

} // verus!

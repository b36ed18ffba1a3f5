//! Bounded busy-polling of a hardware status word whose bit 0 signals completion.
use vstd::prelude::*;

verus! {

/// Whether bit 0 of a status word is set.
pub open spec fn bit0(word: u32) -> bool {
    word % 2 == 1
}

/// What a poller decides after one observation.
#[derive(Clone, Copy, Debug, PartialEq, Eq, Structural)]
pub enum PollStatus {
    /// Bit 0 was set: the condition holds.
    Ready,
    /// Not yet, and the budget allows another observation.
    Retry,
    /// Not set, and this was the last observation the budget allows.
    Exhausted,
}

/// Counts observations against a fixed budget.
#[derive(Clone, Copy, Debug, PartialEq, Eq, Structural)]
pub struct Poller {
    pub polls: u32,
    pub budget: u32,
}

/// The poller after observing `word`, and its decision.
pub open spec fn poll_step(p: Poller, word: u32) -> (Poller, PollStatus) {
    let q = Poller { polls: (p.polls + 1) as u32, budget: p.budget };
    if bit0(word) {
        (q, PollStatus::Ready)
    } else if p.polls + 1 >= p.budget {
        (q, PollStatus::Exhausted)
    } else {
        (q, PollStatus::Retry)
    }
}

/// Observing the words of `obs` in turn until the poller decides or they run out.
pub open spec fn poll_run(p: Poller, obs: Seq<u32>) -> (Poller, PollStatus)
    decreases obs.len(),
{
    if obs.len() == 0 {
        (p, PollStatus::Retry)
    } else {
        let (q, st) = poll_step(p, obs[0]);
        if st == PollStatus::Retry {
            poll_run(q, obs.drop_first())
        } else {
            (q, st)
        }
    }
}

impl Poller {
    /// Observations remain.
    pub open spec fn wf(&self) -> bool {
        self.polls < self.budget
    }

    /// A poller that has observed nothing yet.
    pub fn new(budget: u32) -> (r: Poller)
        requires
            budget > 0,
        ensures
            r == (Poller { polls: 0, budget }),
            r.wf(),
    {
        Poller { polls: 0, budget }
    }

    /// Records one observation of a status word.
    pub fn observe(&mut self, word: u32) -> (r: PollStatus)
        requires
            old(self).wf(),
        ensures
            (*final(self), r) == poll_step(*old(self), word),
            r == PollStatus::Retry ==> final(self).wf(),
    {
        self.polls = self.polls + 1;
        assert(word & 1 == 1 <==> word % 2 == 1) by (bit_vector);
        if word & 1 == 1 {
            PollStatus::Ready
        } else if self.polls >= self.budget {
            PollStatus::Exhausted
        } else {
            PollStatus::Retry
        }
    }
}

proof fn lemma_run_ready(p: Poller, obs: Seq<u32>, k: int)
    requires
        p.polls < p.budget,
        0 <= k < obs.len(),
        p.polls + k < p.budget,
        bit0(obs[k]),
        forall|j: int| 0 <= j < k ==> !bit0(#[trigger] obs[j]),
    ensures
        poll_run(p, obs) == (Poller { polls: (p.polls + k + 1) as u32, budget: p.budget }, PollStatus::Ready),
    decreases k,
{
    if k > 0 {
        let q = poll_step(p, obs[0]).0;
        assert(!bit0(obs[0]));
        let rest = obs.drop_first();
        assert forall|j: int| 0 <= j < k - 1 implies !bit0(#[trigger] rest[j]) by {
            assert(rest[j] == obs[j + 1]);
        }
        lemma_run_ready(q, rest, k - 1);
    }
}

proof fn lemma_run_exhausted(p: Poller, obs: Seq<u32>)
    requires
        p.polls < p.budget,
        obs.len() >= p.budget - p.polls,
        forall|j: int| 0 <= j < p.budget - p.polls ==> !bit0(#[trigger] obs[j]),
    ensures
        poll_run(p, obs) == (Poller { polls: p.budget, budget: p.budget }, PollStatus::Exhausted),
    decreases p.budget - p.polls,
{
    let q = poll_step(p, obs[0]).0;
    assert(!bit0(obs[0]));
    if q.polls < p.budget {
        let rest = obs.drop_first();
        assert forall|j: int| 0 <= j < q.budget - q.polls implies !bit0(#[trigger] rest[j]) by {
            assert(rest[j] == obs[j + 1]);
        }
        lemma_run_exhausted(q, rest);
    }
}

/// A fresh poller fed a stream of status words stops at the first word whose
/// bit 0 is set, having made exactly that many observations, when that word
/// comes within the budget; when none of the first `budget` words has it, the
/// poller gives up after exactly `budget` observations and never runs on.
pub proof fn lemma_poll_outcome(budget: u32, obs: Seq<u32>)
    requires
        budget > 0,
        obs.len() >= budget,
    ensures
        forall|k: int|
            0 <= k < budget && bit0(#[trigger] obs[k]) && (forall|j: int| 0 <= j < k ==> !bit0(#[trigger] obs[j]))
                ==> poll_run(Poller { polls: 0, budget }, obs)
                == (Poller { polls: (k + 1) as u32, budget }, PollStatus::Ready),
        (forall|j: int| 0 <= j < budget ==> !bit0(#[trigger] obs[j])) ==> poll_run(
            Poller { polls: 0, budget },
            obs,
        ) == (Poller { polls: budget, budget }, PollStatus::Exhausted),
{
    let p = Poller { polls: 0, budget };
    assert forall|k: int|
        0 <= k < budget && bit0(#[trigger] obs[k]) && (forall|j: int| 0 <= j < k ==> !bit0(#[trigger] obs[j]))
            implies poll_run(p, obs) == (Poller { polls: (k + 1) as u32, budget }, PollStatus::Ready) by {
        lemma_run_ready(p, obs, k);
    }
    if forall|j: int| 0 <= j < budget ==> !bit0(#[trigger] obs[j]) {
        lemma_run_exhausted(p, obs);
    }
}

} // verus!

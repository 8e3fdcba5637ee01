//! Self-update decisions and the one-shot `did_update` flag.
//!
//! An `update` call checks the current release and, when asked and not up to
//! date, performs the self-update at most once per process: the flag is a
//! compare-and-set latch, so of any number of concurrent `update` calls only
//! the one that flips it performs the download, and every other caller that
//! finds the latch set — whether at entry or at the compare-and-set — is told
//! `{up_to_date: true, did_update: true}`: the update did happen this
//! session, just under another call. Once set the flag never reverts; the
//! connection that set it asks for a respawn when it completes.

use vstd::prelude::*;

use crate::errors::RpcError;
use crate::protocol::{UpdateParams, UpdateResult};

verus! {

/// The one-shot update latch. The only mutation is `try_set`, which leaves
/// the flag set, so a set flag never reverts.
pub struct DidUpdateFlag {
    value: bool,
}

impl DidUpdateFlag {
    /// Whether the update already ran this session.
    pub closed spec fn is_set(self) -> bool {
        self.value
    }

    /// A fresh, unset flag.
    pub fn new() -> (r: DidUpdateFlag)
        ensures
            !r.is_set(),
    {
        DidUpdateFlag { value: false }
    }

    /// Reads the flag.
    pub fn load(&self) -> (r: bool)
        ensures
            r == self.is_set(),
    {
        self.value
    }

    /// Compare-and-set: wins (returns true) exactly when the flag was unset;
    /// the flag is set afterwards either way.
    pub fn try_set(&mut self) -> (r: bool)
        ensures
            r == !old(self).is_set(),
            final(self).is_set(),
    {
        let r = !self.value;
        self.value = true;
        r
    }
}

/// What an `update` call does next after the cheap checks.
#[derive(PartialEq, Eq, Structural, Debug, Clone, Copy)]
pub enum UpdateStep {
    /// Reply immediately.
    Done(UpdateResult),
    /// Ask the update service for the current release, then decide.
    CheckRelease,
}

/// What an `update` call does next once the release is known.
#[derive(PartialEq, Eq, Structural, Debug, Clone, Copy)]
pub enum UpdatePlan {
    /// Reply immediately.
    Done(UpdateResult),
    /// This call won the latch: perform the update, then reply.
    PerformUpdate,
}

/// First step of `update`: inside an integrated product the binary must not
/// update itself, so the reply is current-and-untouched; a session whose
/// latch is already set reports the update that ran — current, and
/// `did_update` — exactly as a call that loses the compare-and-set does.
/// Either way no release check is made.
pub fn handle_update_begin(is_integrated: bool, did_update: &DidUpdateFlag) -> (r: UpdateStep)
    ensures
        is_integrated ==> r == UpdateStep::Done(
            UpdateResult { up_to_date: true, did_update: false },
        ),
        !is_integrated && did_update.is_set() ==> r == UpdateStep::Done(
            UpdateResult { up_to_date: true, did_update: true },
        ),
        !is_integrated && !did_update.is_set() ==> r == UpdateStep::CheckRelease,
{
    if is_integrated {
        UpdateStep::Done(UpdateResult { up_to_date: true, did_update: false })
    } else if did_update.load() {
        UpdateStep::Done(UpdateResult { up_to_date: true, did_update: true })
    } else {
        UpdateStep::CheckRelease
    }
}

/// The decision made once the release is known, as a function of the latch.
pub open spec fn spec_update_plan(flag: bool, do_update: bool, up_to_date: bool) -> UpdatePlan {
    if !do_update || up_to_date {
        UpdatePlan::Done(UpdateResult { up_to_date, did_update: false })
    } else if flag {
        UpdatePlan::Done(UpdateResult { up_to_date: true, did_update: true })
    } else {
        UpdatePlan::PerformUpdate
    }
}

/// The latch after that decision: it flips exactly when an update is wanted.
pub open spec fn spec_flag_after(flag: bool, do_update: bool, up_to_date: bool) -> bool {
    flag || (do_update && !up_to_date)
}

/// Second step of `update`, with the release known: not asked to update, or
/// already current, replies as is; otherwise the latch decides. A call that
/// loses the compare-and-set replies `{up_to_date: true, did_update: true}` —
/// another call did the work. Only the winner goes on to perform the update.
pub fn handle_update_checked(
    did_update: &mut DidUpdateFlag,
    params: &UpdateParams,
    up_to_date: bool,
) -> (r: UpdatePlan)
    ensures
        r == spec_update_plan(old(did_update).is_set(), params.do_update, up_to_date),
        final(did_update).is_set() == spec_flag_after(
            old(did_update).is_set(),
            params.do_update,
            up_to_date,
        ),
{
    if !params.do_update || up_to_date {
        UpdatePlan::Done(UpdateResult { up_to_date, did_update: false })
    } else if !did_update.try_set() {
        UpdatePlan::Done(UpdateResult { up_to_date: true, did_update: true })
    } else {
        UpdatePlan::PerformUpdate
    }
}

/// Last step of `update` for the winning call: the outcome of the download
/// and install, turned into the reply.
pub fn handle_update_performed(outcome: Result<(), String>) -> (r: Result<UpdateResult, RpcError>)
    ensures
        outcome is Ok ==> r == Result::<UpdateResult, RpcError>::Ok(
            UpdateResult { up_to_date: true, did_update: true },
        ),
        outcome matches Err(m) ==> r == Result::<UpdateResult, RpcError>::Err(
            RpcError::UpdateFailed(m),
        ),
{
    match outcome {
        Ok(()) => Ok(UpdateResult { up_to_date: true, did_update: true }),
        Err(m) => Err(RpcError::UpdateFailed(m)),
    }
}

/// The latch after a sequence of post-check decisions, each a pair
/// `(do_update, up_to_date)`, applied in the order the compare-and-sets
/// landed. The session starts with the latch unset.
pub open spec fn flag_after_calls(calls: Seq<(bool, bool)>) -> bool
    decreases calls.len(),
{
    if calls.len() == 0 {
        false
    } else {
        spec_flag_after(flag_after_calls(calls.drop_last()), calls.last().0, calls.last().1)
    }
}

/// The plan the `k`-th call in that order is handed.
pub open spec fn plan_at(calls: Seq<(bool, bool)>, k: int) -> UpdatePlan
    recommends
        0 <= k < calls.len(),
{
    spec_update_plan(flag_after_calls(calls.take(k)), calls[k].0, calls[k].1)
}

/// The latch never reverts across calls.
proof fn lemma_flag_monotonic(calls: Seq<(bool, bool)>, a: int, b: int)
    requires
        0 <= a <= b <= calls.len(),
        flag_after_calls(calls.take(a)),
    ensures
        flag_after_calls(calls.take(b)),
    decreases b - a,
{
    if a < b {
        assert(calls.take(a + 1).drop_last() =~= calls.take(a));
        lemma_flag_monotonic(calls, a + 1, b);
    } else {
        assert(calls.take(a) =~= calls.take(b));
    }
}

/// `update` is idempotent under concurrency: in any ordering of concurrent
/// post-check decisions, once one call is told to perform the update, no
/// later call is; a later call that also wanted the update is told
/// `{up_to_date: true, did_update: true}` instead.
pub proof fn lemma_update_idempotent(calls: Seq<(bool, bool)>, k1: int, k2: int)
    requires
        0 <= k1 < k2 < calls.len(),
        plan_at(calls, k1) == UpdatePlan::PerformUpdate,
    ensures
        plan_at(calls, k2) != UpdatePlan::PerformUpdate,
        calls[k2].0 && !calls[k2].1 ==> plan_at(calls, k2) == UpdatePlan::Done(
            UpdateResult { up_to_date: true, did_update: true },
        ),
{
    assert(calls[k1].0 && !calls[k1].1);
    assert(calls.take(k1 + 1).drop_last() =~= calls.take(k1));
    assert(flag_after_calls(calls.take(k1 + 1)));
    lemma_flag_monotonic(calls, k1 + 1, k2);
}

} // verus!

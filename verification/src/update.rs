//! The best-effort update walk over existing competitors.
//!
//! Unlike the strict run/watch pipeline, updating is per-item: the
//! scaffolding refresh of each competitor is attempted exactly once, in
//! order, and an individual failure is recorded without aborting the walk.
//! The external refresh operation itself is performed by the driver; this
//! machine decides which competitor is next and guarantees that every one
//! gets its attempt.

use vstd::prelude::*;

verus! {

/// Mathematical image of the update walk.
pub struct UpdateView {
    /// The competitor directories to refresh, in order.
    pub projects: Seq<Seq<char>>,
    /// How many refreshes have been attempted so far.
    pub attempted: nat,
    /// The directories whose refresh failed, in order of failure.
    pub failures: Seq<Seq<char>>,
}

/// The directories among `projects[..attempted]` whose refresh outcome in
/// `outcomes` was a failure, in order.
pub open spec fn failures_of(projects: Seq<Seq<char>>, outcomes: Seq<bool>) -> Seq<Seq<char>>
    decreases outcomes.len(),
{
    if outcomes.len() == 0 {
        Seq::empty()
    } else if outcomes.last() {
        failures_of(projects, outcomes.drop_last())
    } else {
        failures_of(projects, outcomes.drop_last()).push(
            projects[outcomes.len() - 1],
        )
    }
}

/// The update walk: one refresh attempt per selected competitor, failures
/// collected, never an early abort.
pub struct UpdateRun {
    /// The competitor directories to refresh, in order.
    pub projects: Vec<String>,
    /// Index of the next competitor to refresh.
    pub pos: usize,
    /// The directories whose refresh failed, in order of failure.
    pub failures: Vec<String>,
    /// Trace of the refresh outcomes reported so far.
    pub outcomes: Ghost<Seq<bool>>,
}

impl View for UpdateRun {
    type V = UpdateView;

    open spec fn view(&self) -> UpdateView {
        UpdateView {
            projects: self.projects.deep_view(),
            attempted: self.pos as nat,
            failures: self.failures.deep_view(),
        }
    }
}

impl UpdateRun {
    /// Well-formedness: exactly one attempt per outcome seen so far, and the
    /// recorded failures are exactly the failed attempts.
    pub open spec fn wf(self) -> bool {
        &&& self@.attempted == self.outcomes@.len()
        &&& self@.attempted <= self@.projects.len()
        &&& self@.failures == failures_of(self@.projects, self.outcomes@)
    }

    /// Start an update walk over the given competitors.  An empty list is
    /// fine: the walk is then already complete.
    pub fn new(projects: Vec<String>) -> (r: UpdateRun)
        ensures
            r.wf(),
            r@.projects == projects.deep_view(),
            r@.attempted == 0,
            r@.failures == Seq::<Seq<char>>::empty(),
    {
        let r = UpdateRun { projects, pos: 0, failures: Vec::new(), outcomes: Ghost(Seq::empty()) };
        proof {
            assert(r@.failures =~= failures_of(r@.projects, r.outcomes@));
        }
        r
    }

    /// The directory whose refresh must be attempted next, or `None` when
    /// every competitor has had its attempt.
    pub fn current(&self) -> (r: Option<String>)
        requires
            self.wf(),
        ensures
            self@.attempted < self@.projects.len() ==> (r matches Some(p) && p@
                == self@.projects[self@.attempted as int]),
            self@.attempted == self@.projects.len() ==> r is None,
    {
        if self.pos < self.projects.len() {
            Some(self.projects[self.pos].clone())
        } else {
            None
        }
    }

    /// Record the outcome of the refresh attempt for the current competitor.
    ///
    /// The walk advances by exactly one competitor whether the attempt
    /// succeeded or failed — a failure is recorded and the remaining
    /// competitors still get their attempts.
    pub fn record(&mut self, success: bool) -> (done: bool)
        requires
            old(self).wf(),
            old(self)@.attempted < old(self)@.projects.len(),
        ensures
            final(self).wf(),
            final(self)@.projects == old(self)@.projects,
            final(self)@.attempted == old(self)@.attempted + 1,
            success ==> final(self)@.failures == old(self)@.failures,
            !success ==> final(self)@.failures == old(self)@.failures.push(
                old(self)@.projects[old(self)@.attempted as int],
            ),
            done == (final(self)@.attempted == final(self)@.projects.len()),
    {
        let ghost pre = self@;
        if !success {
            let p = self.projects[self.pos].clone();
            self.failures.push(p);
        }
        proof {
            assert(pre.projects.len() == old(self).projects@.len());
            assert(self.pos < self.projects.len());
        }
        self.pos = self.pos + 1;
        self.outcomes = Ghost(self.outcomes@.push(success));
        proof {
            assert(self.outcomes@.drop_last() =~= old(self).outcomes@);
            if success {
                assert(self@.failures =~= failures_of(self@.projects, self.outcomes@));
            } else {
                assert(self@.failures =~= pre.failures.push(pre.projects[pre.attempted as int]));
                assert(failures_of(self@.projects, self.outcomes@) =~= failures_of(
                    pre.projects,
                    old(self).outcomes@,
                ).push(pre.projects[pre.attempted as int]));
            }
        }
        self.pos == self.projects.len()
    }
}

/// How many of the reported outcomes were failures.
pub open spec fn count_failures(outcomes: Seq<bool>) -> nat
    decreases outcomes.len(),
{
    if outcomes.len() == 0 {
        0
    } else {
        count_failures(outcomes.drop_last()) + if outcomes.last() {
            0nat
        } else {
            1nat
        }
    }
}

/// Law: the update walk never aborts early.  A well-formed walk has
/// attempted exactly one refresh per outcome reported — `N` outcomes mean
/// `N` attempts, however many of them failed — and its failure list holds
/// exactly the `M` failed attempts, so the other `N - M` competitors were
/// all attempted as well.
pub proof fn lemma_update_attempts_all(w: UpdateRun)
    requires
        w.wf(),
    ensures
        w@.attempted == w.outcomes@.len(),
        w@.failures.len() == count_failures(w.outcomes@),
        w@.failures.len() <= w@.attempted,
{
    lemma_failures_count(w@.projects, w.outcomes@);
}

proof fn lemma_failures_count(projects: Seq<Seq<char>>, outcomes: Seq<bool>)
    ensures
        failures_of(projects, outcomes).len() == count_failures(outcomes),
        count_failures(outcomes) <= outcomes.len(),
    decreases outcomes.len(),
{
    if outcomes.len() > 0 {
        lemma_failures_count(projects, outcomes.drop_last());
    }
}

} // verus!

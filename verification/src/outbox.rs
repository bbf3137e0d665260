//! The transactional outbox / lease-retry pattern shared by the
//! storage-deletion and email workers: the retry policy, the outcome of
//! processing one claimed batch, and the decisions of a drain pass.

use vstd::prelude::*;
use crate::config_error::{ConfigError, ConfigErrorView, dotted, dotted_name};
use crate::errors::{AppError, AppErrorView};

verus! {

/// Runtime view of one outbox's lease/retry policy.
///
/// Each owning configuration (storage deletion, upload-session cleanup, email
/// outbox) keeps its own flat fields with their own defaults and builds this
/// view; the drain loop and the claim queries consume it.
#[derive(Clone, Copy, Debug, PartialEq, Eq, Structural)]
pub struct OutboxRetryConfig {
    pub retry_seconds: i64,
    pub lease_seconds: i64,
    pub batch_size: i64,
    pub max_attempts: i32,
}

impl OutboxRetryConfig {
    /// The first knob that is not strictly positive, in the order retry,
    /// lease, batch size, attempts, named under `label`.
    pub open spec fn rejection(self, label: Seq<char>) -> Option<ConfigErrorView> {
        if self.retry_seconds <= 0 {
            Some(ConfigErrorView::NotPositive { field: dotted(label, "retry_seconds"@) })
        } else if self.lease_seconds <= 0 {
            Some(ConfigErrorView::NotPositive { field: dotted(label, "lease_seconds"@) })
        } else if self.batch_size <= 0 {
            Some(ConfigErrorView::NotPositive { field: dotted(label, "batch_size"@) })
        } else if self.max_attempts <= 0 {
            Some(ConfigErrorView::NotPositive { field: dotted(label, "max_attempts"@) })
        } else {
            None
        }
    }

    /// Validates that every knob is strictly positive, prefixing the field name
    /// with `label` (the owning group, e.g. `storage_deletion`).
    pub fn validate(&self, label: &str) -> (r: Result<(), ConfigError>)
        ensures
            r is Ok <==> self.rejection(label@) is None,
            r matches Err(e) ==> Some(e@) == self.rejection(label@),
    {
        if self.retry_seconds <= 0 {
            return Err(ConfigError::NotPositive { field: dotted_name(label, "retry_seconds") });
        }
        if self.lease_seconds <= 0 {
            return Err(ConfigError::NotPositive { field: dotted_name(label, "lease_seconds") });
        }
        if self.batch_size <= 0 {
            return Err(ConfigError::NotPositive { field: dotted_name(label, "batch_size") });
        }
        if self.max_attempts <= 0 {
            return Err(ConfigError::NotPositive { field: dotted_name(label, "max_attempts") });
        }
        Ok(())
    }
}


/// A claimed batch that failed processing, with the message to record and
/// surface.
pub struct FailedGroup<Item> {
    pub items: Vec<Item>,
    pub error: String,
}

/// The partition of one processed batch into items to clear (done) and groups
/// to mark failed (to retry later).
pub struct DrainOutcome<Item> {
    pub cleared: Vec<Item>,
    pub failed: Vec<FailedGroup<Item>>,
}

/// A failed group as plain values: its items and its error message.
pub open spec fn group_view<Item>(group: FailedGroup<Item>) -> (Seq<Item>, Seq<char>) {
    (group.items@, group.error@)
}

pub open spec fn groups_view<Item>(groups: Seq<FailedGroup<Item>>) -> Seq<(Seq<Item>, Seq<char>)> {
    groups.map_values(|g: FailedGroup<Item>| group_view(g))
}

impl<Item> DrainOutcome<Item> {
    /// Every item in the batch succeeded.
    pub fn all_cleared(items: Vec<Item>) -> (outcome: Self)
        ensures
            outcome.cleared@ == items@,
            outcome.failed@.len() == 0,
    {
        DrainOutcome { cleared: items, failed: Vec::new() }
    }

    /// The whole batch failed with a single error (the all-or-nothing case,
    /// e.g. one multi-object delete request).
    pub fn whole_batch_failed(items: Vec<Item>, error: String) -> (outcome: Self)
        ensures
            outcome.cleared@.len() == 0,
            groups_view(outcome.failed@) == seq![(items@, error@)],
    {
        let mut failed = Vec::new();
        failed.push(FailedGroup { items, error });
        let outcome = DrainOutcome { cleared: Vec::new(), failed };
        assert(groups_view(outcome.failed@) =~= seq![(outcome.failed@[0].items@, outcome.failed@[0].error@)]);
        outcome
    }
}

/// What the drain driver must do next.
pub enum DrainAction<Item> {
    /// Claim a batch under the retry policy, then call `on_claimed`.
    Claim,
    /// Process the claimed items, then call `on_processed`.
    Process(Vec<Item>),
    /// Clear the finished items, then call `on_cleared`.
    Clear(Vec<Item>),
    /// Record the failure of these items and reschedule them after
    /// `retry_after_seconds`, then call `on_marked`.
    MarkFailed { items: Vec<Item>, error_message: String, retry_after_seconds: i64 },
    /// The drain is over, with this result.
    Finish(Result<(), AppError>),
}

pub enum ActionView<Item> {
    Claim,
    Process(Seq<Item>),
    Clear(Seq<Item>),
    MarkFailed(Seq<Item>, Seq<char>, int),
    Finish(Result<(), AppErrorView>),
}

impl<Item> View for DrainAction<Item> {
    type V = ActionView<Item>;

    open spec fn view(&self) -> ActionView<Item> {
        match self {
            DrainAction::Claim => ActionView::Claim,
            DrainAction::Process(items) => ActionView::Process(items@),
            DrainAction::Clear(items) => ActionView::Clear(items@),
            DrainAction::MarkFailed { items, error_message, retry_after_seconds } =>
                ActionView::MarkFailed(items@, error_message@, *retry_after_seconds as int),
            DrainAction::Finish(r) => ActionView::Finish(
                match r {
                    Ok(()) => Ok(()),
                    Err(e) => Err(e@),
                },
            ),
        }
    }
}

/// Which report the drain is waiting for.
#[derive(Clone, Copy, PartialEq, Eq, Structural)]
pub enum Awaiting {
    Claimed,
    Processed,
    Cleared,
    Marked,
    Nothing,
}

/// The state of a drain pass, as plain values.
pub struct DrainModel<Item> {
    pub retry_seconds: int,
    pub awaiting: Awaiting,
    /// Failed groups of the current batch not yet marked, in order.
    pub pending: Seq<(Seq<Item>, Seq<char>)>,
    /// Message of the group whose marking is in flight.
    pub marking: Seq<char>,
    /// Messages of the groups marked failed so far in this pass, in order.
    pub history: Seq<Seq<char>>,
}

impl<Item> DrainModel<Item> {
    /// What the pass reports once the queue is empty: the first failure
    /// recorded during the pass, or success.
    pub open spec fn surfaced(self) -> Result<(), AppErrorView> {
        if self.history.len() == 0 {
            Ok(())
        } else {
            Err(AppErrorView::Internal(self.history[0]))
        }
    }

    pub open spec fn finished(self) -> DrainModel<Item> {
        DrainModel { awaiting: Awaiting::Nothing, ..self }
    }

    /// Marks the next pending group, or claims again when none is left.
    pub open spec fn next_failed(self) -> (DrainModel<Item>, ActionView<Item>) {
        if self.pending.len() > 0 {
            let g = self.pending[0];
            (
                DrainModel {
                    awaiting: Awaiting::Marked,
                    pending: self.pending.drop_first(),
                    marking: g.1,
                    ..self
                },
                ActionView::MarkFailed(g.0, g.1, self.retry_seconds),
            )
        } else {
            (DrainModel { awaiting: Awaiting::Claimed, ..self }, ActionView::Claim)
        }
    }

    pub open spec fn after_claimed(self, claimed: Result<Seq<Item>, AppErrorView>) -> (
        DrainModel<Item>,
        ActionView<Item>,
    ) {
        match claimed {
            Err(e) => (self.finished(), ActionView::Finish(Err(e))),
            Ok(items) => if items.len() == 0 {
                (self.finished(), ActionView::Finish(self.surfaced()))
            } else {
                (DrainModel { awaiting: Awaiting::Processed, ..self }, ActionView::Process(items))
            },
        }
    }

    pub open spec fn after_processed(
        self,
        cleared: Seq<Item>,
        failed: Seq<(Seq<Item>, Seq<char>)>,
    ) -> (DrainModel<Item>, ActionView<Item>) {
        let m = DrainModel { pending: failed, ..self };
        if cleared.len() > 0 {
            (DrainModel { awaiting: Awaiting::Cleared, ..m }, ActionView::Clear(cleared))
        } else {
            m.next_failed()
        }
    }

    pub open spec fn after_cleared(self, result: Result<(), AppErrorView>) -> (
        DrainModel<Item>,
        ActionView<Item>,
    ) {
        match result {
            Err(e) => (self.finished(), ActionView::Finish(Err(e))),
            Ok(()) => self.next_failed(),
        }
    }

    pub open spec fn after_marked(self, result: Result<(), AppErrorView>) -> (
        DrainModel<Item>,
        ActionView<Item>,
    ) {
        match result {
            Err(e) => (self.finished(), ActionView::Finish(Err(e))),
            Ok(()) => DrainModel { history: self.history.push(self.marking), ..self }.next_failed(),
        }
    }
}

/// The decisions of one drain pass over an outbox.
///
/// A driver starts with [`DrainAction::Claim`] and then repeatedly performs
/// the action the drain hands back and reports its result: claims a batch,
/// processes it, clears the successes, marks each failed group for retry, and
/// claims again. A failure does not stop the pass (rows just marked failed are
/// rescheduled, so they are not claimed again in the same pass); the first
/// failure is surfaced once the queue is empty. An error from the queue itself
/// ends the pass at once.
pub struct OutboxDrain<Item> {
    retry_seconds: i64,
    awaiting: Awaiting,
    pending: Vec<FailedGroup<Item>>,
    marking: String,
    first_error: Option<String>,
    history: Ghost<Seq<Seq<char>>>,
}

impl<Item> View for OutboxDrain<Item> {
    type V = DrainModel<Item>;

    closed spec fn view(&self) -> DrainModel<Item> {
        DrainModel {
            retry_seconds: self.retry_seconds as int,
            awaiting: self.awaiting,
            pending: groups_view(self.pending@),
            marking: self.marking@,
            history: self.history@,
        }
    }
}

impl<Item> OutboxDrain<Item> {
    /// The exec state agrees with its model: the remembered first error is
    /// the first recorded failure.
    pub closed spec fn well_formed(&self) -> bool {
        &&& self.history@.len() == 0 ==> self.first_error is None
        &&& self.history@.len() > 0 ==> (self.first_error matches Some(m) && m@
            == self.history@[0])
    }

    /// Begins a pass under `retry`; the first action is always a claim.
    pub fn start(retry: &OutboxRetryConfig) -> (r: (Self, DrainAction<Item>))
        ensures
            r.0.well_formed(),
            r.0@ == (DrainModel::<Item> {
                retry_seconds: retry.retry_seconds as int,
                awaiting: Awaiting::Claimed,
                pending: seq![],
                marking: r.0@.marking,
                history: seq![],
            }),
            r.1@ == ActionView::<Item>::Claim,
    {
        let drain = OutboxDrain {
            retry_seconds: retry.retry_seconds,
            awaiting: Awaiting::Claimed,
            pending: Vec::new(),
            marking: String::new(),
            first_error: None,
            history: Ghost(Seq::empty()),
        };
        assert(groups_view(drain.pending@) =~= seq![]);
        (drain, DrainAction::Claim)
    }

    fn surface(&self) -> (r: Result<(), AppError>)
        requires
            self.well_formed(),
        ensures
            match r {
                Ok(()) => self@.surfaced() == Ok::<(), AppErrorView>(()),
                Err(e) => self@.surfaced() == Err::<(), AppErrorView>(e@),
            },
    {
        match &self.first_error {
            Some(m) => Err(AppError::Internal(m.clone())),
            None => Ok(()),
        }
    }

    fn next_failed(&mut self) -> (action: DrainAction<Item>)
        requires
            old(self).well_formed(),
        ensures
            final(self).well_formed(),
            (final(self)@, action@) == old(self)@.next_failed(),
    {
        if self.pending.len() > 0 {
            let ghost before = self.pending@;
            let group = self.pending.remove(0);
            proof {
                assert(groups_view(self.pending@) =~= groups_view(before).drop_first());
            }
            self.awaiting = Awaiting::Marked;
            self.marking = group.error.clone();
            DrainAction::MarkFailed {
                items: group.items,
                error_message: group.error,
                retry_after_seconds: self.retry_seconds,
            }
        } else {
            self.awaiting = Awaiting::Claimed;
            DrainAction::Claim
        }
    }

    /// Reports the result of a claim.
    pub fn on_claimed(&mut self, claimed: Result<Vec<Item>, AppError>) -> (action: DrainAction<
        Item,
    >)
        requires
            old(self).well_formed(),
            old(self)@.awaiting == Awaiting::Claimed,
        ensures
            final(self).well_formed(),
            (final(self)@, action@) == old(self)@.after_claimed(
                match claimed {
                    Ok(items) => Ok(items@),
                    Err(e) => Err(e@),
                },
            ),
    {
        match claimed {
            Err(e) => {
                self.awaiting = Awaiting::Nothing;
                DrainAction::Finish(Err(e))
            },
            Ok(items) => {
                if items.len() == 0 {
                    let r = self.surface();
                    self.awaiting = Awaiting::Nothing;
                    DrainAction::Finish(r)
                } else {
                    self.awaiting = Awaiting::Processed;
                    DrainAction::Process(items)
                }
            },
        }
    }

    /// Reports how a claimed batch was processed.
    pub fn on_processed(&mut self, outcome: DrainOutcome<Item>) -> (action: DrainAction<Item>)
        requires
            old(self).well_formed(),
            old(self)@.awaiting == Awaiting::Processed,
        ensures
            final(self).well_formed(),
            (final(self)@, action@) == old(self)@.after_processed(
                outcome.cleared@,
                groups_view(outcome.failed@),
            ),
    {
        let DrainOutcome { cleared, failed } = outcome;
        self.pending = failed;
        if cleared.len() > 0 {
            self.awaiting = Awaiting::Cleared;
            DrainAction::Clear(cleared)
        } else {
            self.next_failed()
        }
    }

    /// Reports the result of clearing the finished items.
    pub fn on_cleared(&mut self, result: Result<(), AppError>) -> (action: DrainAction<Item>)
        requires
            old(self).well_formed(),
            old(self)@.awaiting == Awaiting::Cleared,
        ensures
            final(self).well_formed(),
            (final(self)@, action@) == old(self)@.after_cleared(
                match result {
                    Ok(()) => Ok(()),
                    Err(e) => Err(e@),
                },
            ),
    {
        match result {
            Err(e) => {
                self.awaiting = Awaiting::Nothing;
                DrainAction::Finish(Err(e))
            },
            Ok(()) => self.next_failed(),
        }
    }

    /// Reports the result of marking a failed group.
    pub fn on_marked(&mut self, result: Result<(), AppError>) -> (action: DrainAction<Item>)
        requires
            old(self).well_formed(),
            old(self)@.awaiting == Awaiting::Marked,
        ensures
            final(self).well_formed(),
            (final(self)@, action@) == old(self)@.after_marked(
                match result {
                    Ok(()) => Ok(()),
                    Err(e) => Err(e@),
                },
            ),
    {
        match result {
            Err(e) => {
                self.awaiting = Awaiting::Nothing;
                DrainAction::Finish(Err(e))
            },
            Ok(()) => {
                if self.first_error.is_none() {
                    self.first_error = Some(self.marking.clone());
                }
                self.history = Ghost(self.history@.push(self.marking@));
                self.next_failed()
            },
        }
    }
}

/// The actions a drain hands back, from a state waiting for a marking, when
/// every marking succeeds, up to (and including) the next claim; and the state
/// it is left in.
pub open spec fn ok_marking_run<Item>(m: DrainModel<Item>) -> (DrainModel<Item>, Seq<ActionView<Item>>)
    decreases m.pending.len(),
{
    if m.awaiting != Awaiting::Marked {
        (m, seq![])
    } else {
        let (m2, a) = m.after_marked(Ok(()));
        if m2.awaiting == Awaiting::Marked && m2.pending.len() < m.pending.len() {
            let (m3, rest) = ok_marking_run(m2);
            (m3, seq![a] + rest)
        } else {
            (m2, seq![a])
        }
    }
}

/// The actions a drain hands back after a batch was processed into
/// `cleared` and `failed`, when clearing and every marking succeed, up to the
/// next claim.
pub open spec fn ok_batch_run<Item>(
    m: DrainModel<Item>,
    cleared: Seq<Item>,
    failed: Seq<(Seq<Item>, Seq<char>)>,
) -> Seq<ActionView<Item>> {
    let (m1, a1) = m.after_processed(cleared, failed);
    if m1.awaiting == Awaiting::Cleared {
        let (m2, a2) = m1.after_cleared(Ok(()));
        seq![a1, a2] + ok_marking_run(m2).1
    } else {
        seq![a1] + ok_marking_run(m1).1
    }
}

pub open spec fn mark_actions<Item>(groups: Seq<(Seq<Item>, Seq<char>)>, retry_seconds: int) -> Seq<
    ActionView<Item>,
> {
    groups.map_values(
        |g: (Seq<Item>, Seq<char>)| ActionView::MarkFailed(g.0, g.1, retry_seconds),
    )
}

pub open spec fn group_messages<Item>(groups: Seq<(Seq<Item>, Seq<char>)>) -> Seq<Seq<char>> {
    groups.map_values(|g: (Seq<Item>, Seq<char>)| g.1)
}

/// From a state waiting for a marking, when every marking succeeds the drain
/// marks each pending group once, in order, with the policy's retry delay,
/// then claims again; the recorded failure messages are the earlier ones
/// followed by each marked group's message, in order.
pub proof fn law_markings_recorded_in_order<Item>(m: DrainModel<Item>)
    requires
        m.awaiting == Awaiting::Marked,
    ensures
        ok_marking_run(m).1 == mark_actions(m.pending, m.retry_seconds) + seq![
            ActionView::<Item>::Claim,
        ],
        ok_marking_run(m).0.history == m.history.push(m.marking) + group_messages(m.pending),
        ok_marking_run(m).0.awaiting == Awaiting::Claimed,
    decreases m.pending.len(),
{
    let (m2, a) = m.after_marked(Ok(()));
    if m.pending.len() > 0 {
        law_markings_recorded_in_order(m2);
        assert(mark_actions(m.pending, m.retry_seconds) =~= seq![a] + mark_actions(
            m2.pending,
            m.retry_seconds,
        ));
        assert(m.history.push(m.marking) + group_messages(m.pending) =~= m2.history.push(
            m2.marking,
        ) + group_messages(m2.pending));
    } else {
        assert(mark_actions(m.pending, m.retry_seconds) =~= seq![]);
        assert(group_messages(m.pending) =~= seq![]);
    }
}

/// Every item of a processed batch is acted on exactly once before the next
/// claim: the cleared items in one clear (when there are any), then each
/// failed group, in order, in one marking with the policy's retry delay.
pub proof fn law_batch_items_settled_once<Item>(
    m: DrainModel<Item>,
    cleared: Seq<Item>,
    failed: Seq<(Seq<Item>, Seq<char>)>,
)
    requires
        m.awaiting == Awaiting::Processed,
    ensures
        ok_batch_run(m, cleared, failed) == (if cleared.len() > 0 {
            seq![ActionView::Clear(cleared)]
        } else {
            seq![]
        }) + mark_actions(failed, m.retry_seconds) + seq![ActionView::<Item>::Claim],
{
    let m0 = DrainModel { pending: failed, ..m };
    if cleared.len() > 0 {
        let (m1, a1) = m.after_processed(cleared, failed);
        let (m2, a2) = m1.after_cleared(Ok(()));
        if failed.len() > 0 {
            law_markings_recorded_in_order(m2);
            assert(mark_actions(failed, m.retry_seconds) =~= seq![a2] + mark_actions(
                m2.pending,
                m.retry_seconds,
            ));
        } else {
            assert(mark_actions(failed, m.retry_seconds) =~= seq![]);
        }
    } else {
        let (m1, a1) = m.after_processed(cleared, failed);
        if failed.len() > 0 {
            law_markings_recorded_in_order(m1);
            assert(mark_actions(failed, m.retry_seconds) =~= seq![a1] + mark_actions(
                m1.pending,
                m.retry_seconds,
            ));
        } else {
            assert(mark_actions(failed, m.retry_seconds) =~= seq![]);
        }
    }
}

/// When a claim comes back empty the pass ends, reporting the first failure
/// recorded during the pass as an internal error, or success when none was.
pub proof fn law_empty_claim_surfaces_first_failure<Item>(m: DrainModel<Item>)
    requires
        m.awaiting == Awaiting::Claimed,
    ensures
        m.after_claimed(Ok(Seq::<Item>::empty())).1 == ActionView::<Item>::Finish(
            if m.history.len() == 0 {
                Ok(())
            } else {
                Err(AppErrorView::Internal(m.history[0]))
            },
        ),
        m.after_claimed(Ok(Seq::<Item>::empty())).0.awaiting == Awaiting::Nothing,
{
}

/// An error from the queue itself (claiming, clearing or marking) ends the
/// pass at once with that error.
pub proof fn law_queue_error_ends_pass<Item>(m: DrainModel<Item>, e: AppErrorView)
    ensures
        m.after_claimed(Err(e)).1 == ActionView::<Item>::Finish(Err(e)),
        m.after_cleared(Err(e)).1 == ActionView::<Item>::Finish(Err(e)),
        m.after_marked(Err(e)).1 == ActionView::<Item>::Finish(Err(e)),
        m.after_claimed(Err(e)).0.awaiting == Awaiting::Nothing,
        m.after_cleared(Err(e)).0.awaiting == Awaiting::Nothing,
        m.after_marked(Err(e)).0.awaiting == Awaiting::Nothing,
{
}

} // verus!

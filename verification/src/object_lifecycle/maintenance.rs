//! Storage maintenance: the pass that reconciles expired upload sessions with
//! storage, and how the results of the maintenance stages combine.

use vstd::prelude::*;
use crate::errors::{AppError, AppErrorView};

verus! {

/// What the reconcile driver must do next.
pub enum ReconcileAction<Item> {
    /// Claim a batch of expired upload sessions, then call `on_claimed`.
    Claim,
    /// Reconcile this session with storage, then call `on_reconciled`.
    Reconcile(Item),
    /// Record that this session's cleanup failed with `error_message`, so it
    /// is retried later, then call `on_marked`.
    MarkFailed { session: Item, error_message: String },
    /// The pass is over: the number of sessions reconciled, or the error to
    /// surface.
    Finish(Result<usize, AppError>),
}

pub enum ReconcileActionView<Item> {
    Claim,
    Reconcile(Item),
    MarkFailed(Item, Seq<char>),
    Finish(Result<usize, AppErrorView>),
}

impl<Item> View for ReconcileAction<Item> {
    type V = ReconcileActionView<Item>;

    open spec fn view(&self) -> ReconcileActionView<Item> {
        match self {
            ReconcileAction::Claim => ReconcileActionView::Claim,
            ReconcileAction::Reconcile(s) => ReconcileActionView::Reconcile(*s),
            ReconcileAction::MarkFailed { session, error_message } =>
                ReconcileActionView::MarkFailed(*session, error_message@),
            ReconcileAction::Finish(r) => ReconcileActionView::Finish(
                match r {
                    Ok(n) => Ok(*n),
                    Err(e) => Err(e@),
                },
            ),
        }
    }
}

/// Which report the pass is waiting for.
#[derive(Clone, Copy, PartialEq, Eq, Structural)]
pub enum ReconcileAwaiting {
    Claimed,
    Reconciled,
    Marked,
    Nothing,
}

/// The state of a reconcile pass, as plain values.
pub struct ReconcileModel<Item> {
    pub awaiting: ReconcileAwaiting,
    /// Sessions of the current batch not yet reconciled, in claim order.
    pub pending: Seq<Item>,
    /// Sessions reconciled so far (held at `usize::MAX`).
    pub reconciled: usize,
    /// The reconcile error whose recording is in flight.
    pub held: AppErrorView,
    /// Every error met so far in this pass, in order.
    pub errors: Seq<AppErrorView>,
}

pub open spec fn bumped(n: usize) -> usize {
    if n < usize::MAX {
        (n + 1) as usize
    } else {
        n
    }
}

impl<Item> ReconcileModel<Item> {
    /// What the pass reports once no expired session is left: the first error
    /// met, or the number of sessions reconciled.
    pub open spec fn surfaced(self) -> Result<usize, AppErrorView> {
        if self.errors.len() == 0 {
            Ok(self.reconciled)
        } else {
            Err(self.errors[0])
        }
    }

    pub open spec fn finished(self) -> ReconcileModel<Item> {
        ReconcileModel { awaiting: ReconcileAwaiting::Nothing, ..self }
    }

    /// Reconciles the next pending session, or claims again when none is left.
    pub open spec fn next_session(self) -> (ReconcileModel<Item>, ReconcileActionView<Item>) {
        if self.pending.len() > 0 {
            (
                ReconcileModel {
                    awaiting: ReconcileAwaiting::Reconciled,
                    pending: self.pending.drop_first(),
                    ..self
                },
                ReconcileActionView::Reconcile(self.pending[0]),
            )
        } else {
            (
                ReconcileModel { awaiting: ReconcileAwaiting::Claimed, ..self },
                ReconcileActionView::Claim,
            )
        }
    }

    pub open spec fn after_claimed(self, claimed: Result<Seq<Item>, AppErrorView>) -> (
        ReconcileModel<Item>,
        ReconcileActionView<Item>,
    ) {
        match claimed {
            Err(e) => (self.finished(), ReconcileActionView::Finish(Err(e))),
            Ok(sessions) => if sessions.len() == 0 {
                (self.finished(), ReconcileActionView::Finish(self.surfaced()))
            } else {
                ReconcileModel { pending: sessions, ..self }.next_session()
            },
        }
    }

    pub open spec fn after_reconciled(self, session: Item, result: Result<(), AppErrorView>) -> (
        ReconcileModel<Item>,
        ReconcileActionView<Item>,
    ) {
        match result {
            Ok(()) => ReconcileModel { reconciled: bumped(self.reconciled), ..self }.next_session(),
            Err(e) => (
                ReconcileModel { awaiting: ReconcileAwaiting::Marked, held: e, ..self },
                ReconcileActionView::MarkFailed(session, e.display()),
            ),
        }
    }

    /// A recorded failure keeps the reconcile error; a failure to record it
    /// keeps that error instead. Either way the pass goes on.
    pub open spec fn after_marked(self, result: Result<(), AppErrorView>) -> (
        ReconcileModel<Item>,
        ReconcileActionView<Item>,
    ) {
        let met = match result {
            Ok(()) => self.held,
            Err(e) => e,
        };
        ReconcileModel { errors: self.errors.push(met), ..self }.next_session()
    }
}

/// The decisions of one pass over expired upload sessions.
///
/// A driver starts with [`ReconcileAction::Claim`], then repeatedly performs
/// the action handed back and reports its result. Each claimed session is
/// reconciled with storage; a session that fails is recorded as failed (so it
/// is retried later) and the pass goes on, even when that recording fails. The
/// first error met is surfaced once no expired session is left; otherwise the
/// pass reports how many sessions it reconciled. An error from the claim
/// itself ends the pass at once.
pub struct ReconcilePass<Item> {
    awaiting: ReconcileAwaiting,
    pending: Vec<Item>,
    reconciled: usize,
    held: Option<AppError>,
    first_error: Option<AppError>,
    errors: Ghost<Seq<AppErrorView>>,
    held_view: Ghost<AppErrorView>,
}

impl<Item> View for ReconcilePass<Item> {
    type V = ReconcileModel<Item>;

    closed spec fn view(&self) -> ReconcileModel<Item> {
        ReconcileModel {
            awaiting: self.awaiting,
            pending: self.pending@,
            reconciled: self.reconciled,
            held: self.held_view@,
            errors: self.errors@,
        }
    }
}

impl<Item> ReconcilePass<Item> {
    /// The exec state agrees with its model: the remembered first error is
    /// the first one met, and the held error is the one being recorded.
    pub closed spec fn well_formed(&self) -> bool {
        &&& self.errors@.len() == 0 ==> self.first_error is None
        &&& self.errors@.len() > 0 ==> (self.first_error matches Some(e) && e@ == self.errors@[0])
        &&& self.awaiting == ReconcileAwaiting::Marked ==> (self.held matches Some(e) && e@
            == self.held_view@)
    }

    /// Begins a pass; the first action is always a claim.
    pub fn start() -> (r: (Self, ReconcileAction<Item>))
        ensures
            r.0.well_formed(),
            r.0@.awaiting == ReconcileAwaiting::Claimed,
            r.0@.pending == Seq::<Item>::empty(),
            r.0@.reconciled == 0,
            r.0@.errors == Seq::<AppErrorView>::empty(),
            r.1@ == ReconcileActionView::<Item>::Claim,
    {
        let pass = ReconcilePass {
            awaiting: ReconcileAwaiting::Claimed,
            pending: Vec::new(),
            reconciled: 0,
            held: None,
            first_error: None,
            errors: Ghost(Seq::empty()),
            held_view: Ghost(AppErrorView::Unauthorized),
        };
        (pass, ReconcileAction::Claim)
    }

    fn next_session(&mut self) -> (action: ReconcileAction<Item>)
        requires
            old(self).well_formed(),
        ensures
            final(self).well_formed(),
            (final(self)@, action@) == old(self)@.next_session(),
    {
        if self.pending.len() > 0 {
            let session = self.pending.remove(0);
            self.awaiting = ReconcileAwaiting::Reconciled;
            ReconcileAction::Reconcile(session)
        } else {
            self.awaiting = ReconcileAwaiting::Claimed;
            ReconcileAction::Claim
        }
    }

    fn surface(&mut self) -> (r: Result<usize, AppError>)
        requires
            old(self).well_formed(),
        ensures
            final(self)@ == old(self)@,
            match r {
                Ok(n) => old(self)@.surfaced() == Ok::<usize, AppErrorView>(n),
                Err(e) => old(self)@.surfaced() == Err::<usize, AppErrorView>(e@),
            },
    {
        match self.first_error.take() {
            Some(e) => Err(e),
            None => Ok(self.reconciled),
        }
    }

    /// Reports the result of a claim.
    pub fn on_claimed(&mut self, claimed: Result<Vec<Item>, AppError>) -> (action: ReconcileAction<
        Item,
    >)
        requires
            old(self).well_formed(),
            old(self)@.awaiting == ReconcileAwaiting::Claimed,
        ensures
            final(self)@.awaiting != ReconcileAwaiting::Nothing ==> final(self).well_formed(),
            (final(self)@, action@) == old(self)@.after_claimed(
                match claimed {
                    Ok(sessions) => Ok(sessions@),
                    Err(e) => Err(e@),
                },
            ),
    {
        match claimed {
            Err(e) => {
                self.awaiting = ReconcileAwaiting::Nothing;
                ReconcileAction::Finish(Err(e))
            },
            Ok(sessions) => {
                if sessions.len() == 0 {
                    let r = self.surface();
                    self.awaiting = ReconcileAwaiting::Nothing;
                    ReconcileAction::Finish(r)
                } else {
                    self.pending = sessions;
                    self.next_session()
                }
            },
        }
    }

    /// Reports how reconciling `session` went.
    pub fn on_reconciled(&mut self, session: Item, result: Result<(), AppError>) -> (action:
        ReconcileAction<Item>)
        requires
            old(self).well_formed(),
            old(self)@.awaiting == ReconcileAwaiting::Reconciled,
        ensures
            final(self).well_formed(),
            (final(self)@, action@) == old(self)@.after_reconciled(
                session,
                match result {
                    Ok(()) => Ok(()),
                    Err(e) => Err(e@),
                },
            ),
    {
        match result {
            Ok(()) => {
                if self.reconciled < usize::MAX {
                    self.reconciled = self.reconciled + 1;
                }
                self.next_session()
            },
            Err(e) => {
                let error_message = e.message();
                self.held_view = Ghost(e@);
                self.held = Some(e);
                self.awaiting = ReconcileAwaiting::Marked;
                ReconcileAction::MarkFailed { session, error_message }
            },
        }
    }

    /// Reports the result of recording a session's cleanup failure.
    pub fn on_marked(&mut self, result: Result<(), AppError>) -> (action: ReconcileAction<Item>)
        requires
            old(self).well_formed(),
            old(self)@.awaiting == ReconcileAwaiting::Marked,
        ensures
            final(self).well_formed(),
            (final(self)@, action@) == old(self)@.after_marked(
                match result {
                    Ok(()) => Ok(()),
                    Err(e) => Err(e@),
                },
            ),
    {
        let ghost met_view = match &result {
            Ok(()) => self.held_view@,
            Err(e) => e@,
        };
        let held = self.held.take();
        let met = match result {
            Ok(()) => held,
            Err(e) => Some(e),
        };
        if self.first_error.is_none() {
            self.first_error = met;
        }
        self.errors = Ghost(self.errors@.push(met_view));
        self.awaiting = ReconcileAwaiting::Claimed;
        self.next_session()
    }
}

/// A claim error ends the pass at once, with that error, whatever was met
/// before it.
pub proof fn law_claim_error_ends_pass<Item>(m: ReconcileModel<Item>, e: AppErrorView)
    ensures
        m.after_claimed(Err(e)).1 == ReconcileActionView::<Item>::Finish(Err(e)),
        m.after_claimed(Err(e)).0.awaiting == ReconcileAwaiting::Nothing,
{
}

/// Once a claim comes back empty the pass ends with the first error met, or,
/// when none was, with the number of sessions reconciled.
pub proof fn law_empty_claim_surfaces_first_error<Item>(m: ReconcileModel<Item>)
    ensures
        m.after_claimed(Ok(Seq::<Item>::empty())).1 == ReconcileActionView::<Item>::Finish(
            if m.errors.len() == 0 {
                Ok(m.reconciled)
            } else {
                Err(m.errors[0])
            },
        ),
{
}

/// A failure to reconcile, or to record that failure, never ends the pass:
/// the next pending session is reconciled, or the next batch claimed, and the
/// first error met stays the one to surface.
pub proof fn law_failures_do_not_stop_the_pass<Item>(
    m: ReconcileModel<Item>,
    marked: Result<(), AppErrorView>,
)
    requires
        m.awaiting == ReconcileAwaiting::Marked,
    ensures
        ({
            let (next, action) = m.after_marked(marked);
            &&& (action is Reconcile || action is Claim)
            &&& next.errors.len() == m.errors.len() + 1
            &&& next.errors[0] == (if m.errors.len() == 0 {
                match marked {
                    Ok(()) => m.held,
                    Err(e) => e,
                }
            } else {
                m.errors[0]
            })
        }),
{
}

/// The actions a pass hands back from `m`, which has just handed out `a`,
/// when every reconcile succeeds, up to (and including) the next claim; and
/// the state it is left in.
pub open spec fn ok_steps<Item>(m: ReconcileModel<Item>, a: ReconcileActionView<Item>) -> (
    ReconcileModel<Item>,
    Seq<ReconcileActionView<Item>>,
)
    decreases m.pending.len(),
{
    if a is Reconcile && m.awaiting == ReconcileAwaiting::Reconciled {
        let (m2, a2) = m.after_reconciled(a->Reconcile_0, Ok(()));
        if a2 is Reconcile && m2.pending.len() < m.pending.len() {
            let (m3, rest) = ok_steps(m2, a2);
            (m3, seq![a] + rest)
        } else {
            (m2, seq![a, a2])
        }
    } else {
        (m, seq![a])
    }
}

proof fn lemma_ok_steps<Item>(m: ReconcileModel<Item>, x: Item)
    requires
        m.awaiting == ReconcileAwaiting::Reconciled,
        m.reconciled + m.pending.len() + 1 <= usize::MAX,
    ensures
        ({
            let (end, actions) = ok_steps(m, ReconcileActionView::Reconcile(x));
            &&& actions == seq![ReconcileActionView::Reconcile(x)] + m.pending.map_values(
                |s: Item| ReconcileActionView::Reconcile(s),
            ) + seq![ReconcileActionView::<Item>::Claim]
            &&& end.reconciled == m.reconciled + m.pending.len() + 1
            &&& end.errors == m.errors
            &&& end.awaiting == ReconcileAwaiting::Claimed
            &&& end.pending.len() == 0
        }),
    decreases m.pending.len(),
{
    let (m2, a2) = m.after_reconciled(x, Ok(()));
    if m.pending.len() > 0 {
        lemma_ok_steps(m2, m.pending[0]);
        assert(m.pending.map_values(|s: Item| ReconcileActionView::Reconcile(s)) =~= seq![
            ReconcileActionView::Reconcile(m.pending[0]),
        ] + m2.pending.map_values(|s: Item| ReconcileActionView::Reconcile(s)));
    } else {
        assert(m.pending.map_values(|s: Item| ReconcileActionView::Reconcile(s)) =~= seq![]);
    }
}

/// A claimed batch in which every session is reconciled: each session is
/// reconciled once, in claim order, then the pass claims again; the count
/// grows by the batch's size (short of `usize::MAX`) and no error is added.
pub proof fn law_clean_batch_counts_every_session<Item>(
    m: ReconcileModel<Item>,
    batch: Seq<Item>,
)
    requires
        m.awaiting == ReconcileAwaiting::Claimed,
        batch.len() > 0,
        m.reconciled + batch.len() <= usize::MAX,
    ensures
        ({
            let (m1, a1) = m.after_claimed(Ok(batch));
            let (end, actions) = ok_steps(m1, a1);
            &&& actions == batch.map_values(|s: Item| ReconcileActionView::Reconcile(s)) + seq![
                ReconcileActionView::<Item>::Claim,
            ]
            &&& end.reconciled == m.reconciled + batch.len()
            &&& end.errors == m.errors
            &&& end.awaiting == ReconcileAwaiting::Claimed
        }),
{
    let (m1, a1) = m.after_claimed(Ok(batch));
    lemma_ok_steps(m1, batch[0]);
    assert(batch.map_values(|s: Item| ReconcileActionView::Reconcile(s)) =~= seq![
        ReconcileActionView::Reconcile(batch[0]),
    ] + m1.pending.map_values(|s: Item| ReconcileActionView::Reconcile(s)));
}

/// How the maintenance stages' results combine: the first failure among
/// reconcile, reap, drain and backlog report, in that order, or success.
pub open spec fn maintenance_outcome_of(
    reconcile: Result<(), AppErrorView>,
    reap: Result<(), AppErrorView>,
    drain: Result<(), AppErrorView>,
    backlog: Result<(), AppErrorView>,
) -> Result<(), AppErrorView> {
    if reconcile is Err {
        reconcile
    } else if reap is Err {
        reap
    } else if drain is Err {
        drain
    } else {
        backlog
    }
}

/// A maintenance run succeeds exactly when every stage succeeded, and a
/// failing stage is the run's result unless an earlier stage failed first:
/// the reconcile error wins over all others, then the reap error, then the
/// drain error, then the backlog report's.
pub proof fn law_first_failing_stage_is_the_result(
    reconcile: Result<(), AppErrorView>,
    reap: Result<(), AppErrorView>,
    drain: Result<(), AppErrorView>,
    backlog: Result<(), AppErrorView>,
)
    ensures
        maintenance_outcome_of(reconcile, reap, drain, backlog) is Ok <==> (reconcile is Ok
            && reap is Ok && drain is Ok && backlog is Ok),
        reconcile is Err ==> maintenance_outcome_of(reconcile, reap, drain, backlog) == reconcile,
        reconcile is Ok && reap is Err ==> maintenance_outcome_of(reconcile, reap, drain, backlog)
            == reap,
        reconcile is Ok && reap is Ok && drain is Err ==> maintenance_outcome_of(
            reconcile,
            reap,
            drain,
            backlog,
        ) == drain,
        reconcile is Ok && reap is Ok && drain is Ok ==> maintenance_outcome_of(
            reconcile,
            reap,
            drain,
            backlog,
        ) == backlog,
{
}

pub open spec fn unit_view<T>(r: Result<T, AppError>) -> Result<(), AppErrorView> {
    match r {
        Ok(_) => Ok(()),
        Err(e) => Err(e@),
    }
}

/// Combines the results of one maintenance run: every stage runs, and the
/// first failure, in stage order, is the run's result, so a later failure
/// never masks an earlier one.
pub fn maintenance_outcome<T, U>(
    reconcile: Result<T, AppError>,
    reap: Result<U, AppError>,
    drain: Result<(), AppError>,
    backlog: Result<(), AppError>,
) -> (r: Result<(), AppError>)
    ensures
        unit_view(r) == maintenance_outcome_of(
            unit_view(reconcile),
            unit_view(reap),
            unit_view(drain),
            unit_view(backlog),
        ),
        r is Ok <==> (reconcile is Ok && reap is Ok && drain is Ok && backlog is Ok),
        reconcile matches Err(e) ==> r == Err::<(), AppError>(e),
        reconcile is Ok ==> (reap matches Err(e) ==> r == Err::<(), AppError>(e)),
        reconcile is Ok && reap is Ok ==> (drain matches Err(e) ==> r == Err::<(), AppError>(e)),
        reconcile is Ok && reap is Ok && drain is Ok ==> r == backlog,
{
    match reconcile {
        Err(e) => return Err(e),
        Ok(_) => {},
    }
    match reap {
        Err(e) => return Err(e),
        Ok(_) => {},
    }
    match drain {
        Err(e) => return Err(e),
        Ok(_) => {},
    }
    backlog
}

} // verus!

//! The email outbox: its lease/retry policy, its message shapes, and the
//! decisions of a pass that delivers queued messages one by one.

use vstd::prelude::*;
use vstd::string::*;
use crate::config_error::{ConfigError, ConfigErrorView};
use crate::errors::{AppError, AppErrorView};
use crate::text::str_eq;

verus! {

/// The kind tag of password-reset messages in the outbox.
pub const PASSWORD_RESET_EMAIL_KIND: &'static str = "password_reset";

#[derive(Clone, Debug)]
pub struct EmailOutboxConfig {
    pub retry_seconds: i64,
    pub lease_seconds: i64,
    pub worker_interval_seconds: i64,
    pub batch_size: i64,
    pub max_attempts: i32,
}

impl EmailOutboxConfig {
    pub fn default_retry_seconds() -> (r: i64)
        ensures
            r == 60,
    {
        60
    }

    pub fn default_lease_seconds() -> (r: i64)
        ensures
            r == 300,
    {
        300
    }

    pub fn default_worker_interval_seconds() -> (r: i64)
        ensures
            r == 30,
    {
        30
    }

    pub fn default_batch_size() -> (r: i64)
        ensures
            r == 100,
    {
        100
    }

    pub fn default_max_attempts() -> (r: i32)
        ensures
            r == 10,
    {
        10
    }

    /// The first knob that is not strictly positive.
    pub open spec fn rejection(self) -> Option<ConfigErrorView> {
        if self.retry_seconds <= 0 {
            Some(ConfigErrorView::NotPositive { field: "email_outbox.retry_seconds"@ })
        } else if self.lease_seconds <= 0 {
            Some(ConfigErrorView::NotPositive { field: "email_outbox.lease_seconds"@ })
        } else if self.worker_interval_seconds <= 0 {
            Some(ConfigErrorView::NotPositive { field: "email_outbox.worker_interval_seconds"@ })
        } else if self.batch_size <= 0 {
            Some(ConfigErrorView::NotPositive { field: "email_outbox.batch_size"@ })
        } else if self.max_attempts <= 0 {
            Some(ConfigErrorView::NotPositive { field: "email_outbox.max_attempts"@ })
        } else {
            None
        }
    }

    pub fn validate(&self) -> (r: Result<(), ConfigError>)
        ensures
            r is Ok <==> self.rejection() is None,
            r matches Err(e) ==> Some(e@) == self.rejection(),
    {
        if self.retry_seconds <= 0 {
            return Err(
                ConfigError::NotPositive { field: String::from_str("email_outbox.retry_seconds") },
            );
        }
        if self.lease_seconds <= 0 {
            return Err(
                ConfigError::NotPositive { field: String::from_str("email_outbox.lease_seconds") },
            );
        }
        if self.worker_interval_seconds <= 0 {
            return Err(
                ConfigError::NotPositive {
                    field: String::from_str("email_outbox.worker_interval_seconds"),
                },
            );
        }
        if self.batch_size <= 0 {
            return Err(
                ConfigError::NotPositive { field: String::from_str("email_outbox.batch_size") },
            );
        }
        if self.max_attempts <= 0 {
            return Err(
                ConfigError::NotPositive { field: String::from_str("email_outbox.max_attempts") },
            );
        }
        Ok(())
    }

    /// Seconds between passes of the email worker.
    pub fn worker_interval_seconds(&self) -> (s: u64)
        ensures
            s == self.worker_interval_seconds as u64,
    {
        self.worker_interval_seconds as u64
    }
}

impl Default for EmailOutboxConfig {
    fn default() -> (c: Self)
        ensures
            c.retry_seconds == 60,
            c.lease_seconds == 300,
            c.worker_interval_seconds == 30,
            c.batch_size == 100,
            c.max_attempts == 10,
    {
        EmailOutboxConfig {
            retry_seconds: Self::default_retry_seconds(),
            lease_seconds: Self::default_lease_seconds(),
            worker_interval_seconds: Self::default_worker_interval_seconds(),
            batch_size: Self::default_batch_size(),
            max_attempts: Self::default_max_attempts(),
        }
    }
}

/// The payload of a password-reset message.
#[derive(Clone, Debug, PartialEq, Eq)]
pub struct PasswordResetEmailPayload {
    pub email: String,
    pub token: String,
}

/// One queued message: its row id, its kind tag, and its serialized payload.
#[derive(Clone, Debug, PartialEq, Eq)]
pub struct EmailOutboxMessage {
    pub id: i64,
    pub kind: String,
    pub payload: String,
}

/// The message kinds the worker knows how to deliver.
#[derive(Clone, Copy, Debug, PartialEq, Eq, Structural)]
pub enum EmailKind {
    PasswordReset,
}

pub open spec fn unsupported_kind_message(kind: Seq<char>) -> Seq<char> {
    "Unsupported email outbox kind: "@ + kind
}

/// The kind a message's tag names, or the message recorded for an unknown tag.
pub open spec fn kind_of(kind: Seq<char>) -> Result<EmailKind, Seq<char>> {
    if kind == "password_reset"@ {
        Ok(EmailKind::PasswordReset)
    } else {
        Err(unsupported_kind_message(kind))
    }
}

pub fn email_kind(kind: &str) -> (r: Result<EmailKind, String>)
    ensures
        match r {
            Ok(k) => kind_of(kind@) == Ok::<EmailKind, Seq<char>>(k),
            Err(m) => kind_of(kind@) == Err::<EmailKind, Seq<char>>(m@),
        },
{
    if str_eq(kind, "password_reset") {
        Ok(EmailKind::PasswordReset)
    } else {
        Err(String::from_str("Unsupported email outbox kind: ").concat(kind))
    }
}

/// What the email driver must do next.
pub enum EmailAction {
    /// Claim up to `limit` messages under the lease, then call `on_claimed`.
    Claim { limit: i64, lease_seconds: i64, max_attempts: i32 },
    /// Deliver this password-reset message (decode its payload and send it),
    /// then call `on_delivered`.
    Deliver(EmailOutboxMessage),
    /// Remove these delivered rows, then call `on_cleared`.
    Clear(Vec<i64>),
    /// Record the failure of these rows and reschedule them, then call
    /// `on_marked`.
    MarkFailed { ids: Vec<i64>, error_message: String, retry_after_seconds: i64 },
    /// The pass is over, with this result.
    Finish(Result<(), AppError>),
}

pub enum EmailActionView {
    Claim { limit: int, lease_seconds: int, max_attempts: int },
    Deliver(EmailOutboxMessage),
    Clear(Seq<i64>),
    MarkFailed(Seq<i64>, Seq<char>, int),
    Finish(Result<(), AppErrorView>),
}

impl View for EmailAction {
    type V = EmailActionView;

    open spec fn view(&self) -> EmailActionView {
        match self {
            EmailAction::Claim { limit, lease_seconds, max_attempts } => EmailActionView::Claim {
                limit: *limit as int,
                lease_seconds: *lease_seconds as int,
                max_attempts: *max_attempts as int,
            },
            EmailAction::Deliver(m) => EmailActionView::Deliver(*m),
            EmailAction::Clear(ids) => EmailActionView::Clear(ids@),
            EmailAction::MarkFailed { ids, error_message, retry_after_seconds } =>
                EmailActionView::MarkFailed(ids@, error_message@, *retry_after_seconds as int),
            EmailAction::Finish(r) => EmailActionView::Finish(
                match r {
                    Ok(()) => Ok(()),
                    Err(e) => Err(e@),
                },
            ),
        }
    }
}

#[derive(Clone, Copy, PartialEq, Eq, Structural)]
pub enum EmailAwaiting {
    Claimed,
    Delivered,
    Cleared,
    Marked,
    Nothing,
}

/// The state of an email pass, as plain values.
pub struct EmailDrainModel {
    pub batch_size: int,
    pub lease_seconds: int,
    pub max_attempts: int,
    pub retry_seconds: int,
    pub awaiting: EmailAwaiting,
    /// Messages of the current batch not yet handled, in order.
    pub queue: Seq<EmailOutboxMessage>,
    /// Row id of the message being handled.
    pub current: i64,
    /// Failure message of the message being marked failed.
    pub failing: Seq<char>,
    /// Failure messages recorded so far in this pass, in order.
    pub history: Seq<Seq<char>>,
}

impl EmailDrainModel {
    pub open spec fn claim_action(self) -> EmailActionView {
        EmailActionView::Claim {
            limit: self.batch_size,
            lease_seconds: self.lease_seconds,
            max_attempts: self.max_attempts,
        }
    }

    pub open spec fn surfaced(self) -> Result<(), AppErrorView> {
        if self.history.len() == 0 {
            Ok(())
        } else {
            Err(AppErrorView::Internal(self.history[0]))
        }
    }

    pub open spec fn finished(self) -> EmailDrainModel {
        EmailDrainModel { awaiting: EmailAwaiting::Nothing, ..self }
    }

    /// Handles the next queued message: delivers a password reset, marks a
    /// message of unknown kind failed, or claims again when the batch is done.
    pub open spec fn next_message(self) -> (EmailDrainModel, EmailActionView) {
        if self.queue.len() == 0 {
            (EmailDrainModel { awaiting: EmailAwaiting::Claimed, ..self }, self.claim_action())
        } else {
            let msg = self.queue[0];
            let rest = self.queue.drop_first();
            match kind_of(msg.kind@) {
                Ok(_) => (
                    EmailDrainModel {
                        awaiting: EmailAwaiting::Delivered,
                        queue: rest,
                        current: msg.id,
                        ..self
                    },
                    EmailActionView::Deliver(msg),
                ),
                Err(m) => (
                    EmailDrainModel {
                        awaiting: EmailAwaiting::Marked,
                        queue: rest,
                        current: msg.id,
                        failing: m,
                        ..self
                    },
                    EmailActionView::MarkFailed(seq![msg.id], m, self.retry_seconds),
                ),
            }
        }
    }

    pub open spec fn after_claimed(self, claimed: Result<Seq<EmailOutboxMessage>, AppErrorView>) -> (
        EmailDrainModel,
        EmailActionView,
    ) {
        match claimed {
            Err(e) => (self.finished(), EmailActionView::Finish(Err(e))),
            Ok(messages) => if messages.len() == 0 {
                (self.finished(), EmailActionView::Finish(self.surfaced()))
            } else {
                EmailDrainModel { queue: messages, ..self }.next_message()
            },
        }
    }

    pub open spec fn after_delivered(self, sent: Result<(), Seq<char>>) -> (
        EmailDrainModel,
        EmailActionView,
    ) {
        match sent {
            Ok(()) => (
                EmailDrainModel { awaiting: EmailAwaiting::Cleared, ..self },
                EmailActionView::Clear(seq![self.current]),
            ),
            Err(m) => (
                EmailDrainModel { awaiting: EmailAwaiting::Marked, failing: m, ..self },
                EmailActionView::MarkFailed(seq![self.current], m, self.retry_seconds),
            ),
        }
    }

    pub open spec fn after_cleared(self, result: Result<(), AppErrorView>) -> (
        EmailDrainModel,
        EmailActionView,
    ) {
        match result {
            Err(e) => (self.finished(), EmailActionView::Finish(Err(e))),
            Ok(()) => self.next_message(),
        }
    }

    pub open spec fn after_marked(self, result: Result<(), AppErrorView>) -> (
        EmailDrainModel,
        EmailActionView,
    ) {
        match result {
            Err(e) => (self.finished(), EmailActionView::Finish(Err(e))),
            Ok(()) => EmailDrainModel {
                history: self.history.push(self.failing),
                ..self
            }.next_message(),
        }
    }
}

/// The decisions of one email-outbox pass.
///
/// A driver starts with the claim the drain hands back and then repeatedly
/// performs the action and reports its result. Each claimed message is handled
/// in order: a password reset is delivered and then cleared, or marked failed
/// with the delivery error; a message of unknown kind is marked failed. A
/// failure does not stop the pass; the first one is surfaced when a claim comes
/// back empty. An error from the outbox itself ends the pass at once.
pub struct EmailDrain {
    batch_size: i64,
    lease_seconds: i64,
    max_attempts: i32,
    retry_seconds: i64,
    awaiting: EmailAwaiting,
    queue: Vec<EmailOutboxMessage>,
    current: i64,
    failing: String,
    first_error: Option<String>,
    history: Ghost<Seq<Seq<char>>>,
}

impl View for EmailDrain {
    type V = EmailDrainModel;

    closed spec fn view(&self) -> EmailDrainModel {
        EmailDrainModel {
            batch_size: self.batch_size as int,
            lease_seconds: self.lease_seconds as int,
            max_attempts: self.max_attempts as int,
            retry_seconds: self.retry_seconds as int,
            awaiting: self.awaiting,
            queue: self.queue@,
            current: self.current,
            failing: self.failing@,
            history: self.history@,
        }
    }
}

impl EmailDrain {
    pub closed spec fn well_formed(&self) -> bool {
        &&& self.history@.len() == 0 ==> self.first_error is None
        &&& self.history@.len() > 0 ==> (self.first_error matches Some(m) && m@
            == self.history@[0])
    }

    /// Begins a pass under `config`; the first action is a claim of up to
    /// `batch_size` messages.
    pub fn start(config: &EmailOutboxConfig) -> (r: (Self, EmailAction))
        ensures
            r.0.well_formed(),
            r.0@.batch_size == config.batch_size,
            r.0@.lease_seconds == config.lease_seconds,
            r.0@.max_attempts == config.max_attempts,
            r.0@.retry_seconds == config.retry_seconds,
            r.0@.awaiting == EmailAwaiting::Claimed,
            r.0@.queue.len() == 0,
            r.0@.history.len() == 0,
            r.1@ == r.0@.claim_action(),
            r.1@ == (EmailActionView::Claim {
                limit: config.batch_size as int,
                lease_seconds: config.lease_seconds as int,
                max_attempts: config.max_attempts as int,
            }),
    {
        let drain = EmailDrain {
            batch_size: config.batch_size,
            lease_seconds: config.lease_seconds,
            max_attempts: config.max_attempts,
            retry_seconds: config.retry_seconds,
            awaiting: EmailAwaiting::Claimed,
            queue: Vec::new(),
            current: 0,
            failing: String::new(),
            first_error: None,
            history: Ghost(Seq::empty()),
        };
        let action = EmailAction::Claim {
            limit: config.batch_size,
            lease_seconds: config.lease_seconds,
            max_attempts: config.max_attempts,
        };
        (drain, action)
    }

    fn next_message(&mut self) -> (action: EmailAction)
        requires
            old(self).well_formed(),
        ensures
            final(self).well_formed(),
            (final(self)@, action@) == old(self)@.next_message(),
    {
        if self.queue.len() == 0 {
            self.awaiting = EmailAwaiting::Claimed;
            return EmailAction::Claim {
                limit: self.batch_size,
                lease_seconds: self.lease_seconds,
                max_attempts: self.max_attempts,
            };
        }
        let msg = self.queue.remove(0);
        self.current = msg.id;
        match email_kind(msg.kind.as_str()) {
            Ok(_) => {
                self.awaiting = EmailAwaiting::Delivered;
                EmailAction::Deliver(msg)
            },
            Err(m) => {
                self.awaiting = EmailAwaiting::Marked;
                self.failing = m.clone();
                let mut ids = Vec::new();
                ids.push(msg.id);
                assert(ids@ =~= seq![msg.id]);
                EmailAction::MarkFailed { ids, error_message: m, retry_after_seconds: self.retry_seconds }
            },
        }
    }

    /// Reports the result of a claim.
    pub fn on_claimed(&mut self, claimed: Result<Vec<EmailOutboxMessage>, AppError>) -> (action:
        EmailAction)
        requires
            old(self).well_formed(),
            old(self)@.awaiting == EmailAwaiting::Claimed,
        ensures
            final(self).well_formed(),
            (final(self)@, action@) == old(self)@.after_claimed(
                match claimed {
                    Ok(messages) => Ok(messages@),
                    Err(e) => Err(e@),
                },
            ),
    {
        match claimed {
            Err(e) => {
                self.awaiting = EmailAwaiting::Nothing;
                EmailAction::Finish(Err(e))
            },
            Ok(messages) => {
                if messages.len() == 0 {
                    let r = match &self.first_error {
                        Some(m) => Err(AppError::Internal(m.clone())),
                        None => Ok(()),
                    };
                    self.awaiting = EmailAwaiting::Nothing;
                    EmailAction::Finish(r)
                } else {
                    self.queue = messages;
                    self.next_message()
                }
            },
        }
    }

    /// Reports whether delivering the current message succeeded, with the
    /// failure message when it did not.
    pub fn on_delivered(&mut self, sent: Result<(), String>) -> (action: EmailAction)
        requires
            old(self).well_formed(),
            old(self)@.awaiting == EmailAwaiting::Delivered,
        ensures
            final(self).well_formed(),
            (final(self)@, action@) == old(self)@.after_delivered(
                match sent {
                    Ok(()) => Ok(()),
                    Err(m) => Err(m@),
                },
            ),
    {
        let mut ids = Vec::new();
        ids.push(self.current);
        assert(ids@ =~= seq![self.current]);
        match sent {
            Ok(()) => {
                self.awaiting = EmailAwaiting::Cleared;
                EmailAction::Clear(ids)
            },
            Err(m) => {
                self.awaiting = EmailAwaiting::Marked;
                self.failing = m.clone();
                EmailAction::MarkFailed {
                    ids,
                    error_message: m,
                    retry_after_seconds: self.retry_seconds,
                }
            },
        }
    }

    /// Reports the result of clearing a delivered message.
    pub fn on_cleared(&mut self, result: Result<(), AppError>) -> (action: EmailAction)
        requires
            old(self).well_formed(),
            old(self)@.awaiting == EmailAwaiting::Cleared,
        ensures
            final(self).well_formed(),
            (final(self)@, action@) == old(self)@.after_cleared(
                match result {
                    Ok(()) => Ok(()),
                    Err(e) => Err(e@),
                },
            ),
    {
        match result {
            Err(e) => {
                self.awaiting = EmailAwaiting::Nothing;
                EmailAction::Finish(Err(e))
            },
            Ok(()) => self.next_message(),
        }
    }

    /// Reports the result of marking a message failed.
    pub fn on_marked(&mut self, result: Result<(), AppError>) -> (action: EmailAction)
        requires
            old(self).well_formed(),
            old(self)@.awaiting == EmailAwaiting::Marked,
        ensures
            final(self).well_formed(),
            (final(self)@, action@) == old(self)@.after_marked(
                match result {
                    Ok(()) => Ok(()),
                    Err(e) => Err(e@),
                },
            ),
    {
        match result {
            Err(e) => {
                self.awaiting = EmailAwaiting::Nothing;
                EmailAction::Finish(Err(e))
            },
            Ok(()) => {
                if self.first_error.is_none() {
                    self.first_error = Some(self.failing.clone());
                }
                self.history = Ghost(self.history@.push(self.failing@));
                self.next_message()
            },
        }
    }
}

/// An error from the outbox itself (claiming, clearing or recording a
/// failure) ends the pass at once with that error.
pub proof fn law_email_outbox_error_ends_pass(m: EmailDrainModel, e: AppErrorView)
    ensures
        m.after_claimed(Err(e)).1 == EmailActionView::Finish(Err(e)),
        m.after_cleared(Err(e)).1 == EmailActionView::Finish(Err(e)),
        m.after_marked(Err(e)).1 == EmailActionView::Finish(Err(e)),
{
}

/// Once a claim comes back empty the pass ends with the first delivery
/// failure recorded during it, or with success when there was none.
pub proof fn law_email_empty_claim_surfaces_first_failure(m: EmailDrainModel)
    ensures
        m.after_claimed(Ok(Seq::<EmailOutboxMessage>::empty())).1 == EmailActionView::Finish(
            if m.history.len() == 0 {
                Ok(())
            } else {
                Err(AppErrorView::Internal(m.history[0]))
            },
        ),
{
}

/// A delivered message is cleared, by its id alone; a failed delivery is
/// recorded for that id with the delivery error and the retry delay, and the
/// error joins the pass's failures once recorded.
pub proof fn law_delivery_settles_its_message(m: EmailDrainModel, error: Seq<char>)
    requires
        m.awaiting == EmailAwaiting::Delivered,
    ensures
        m.after_delivered(Ok(())).1 == EmailActionView::Clear(seq![m.current]),
        m.after_delivered(Err(error)).1 == EmailActionView::MarkFailed(
            seq![m.current],
            error,
            m.retry_seconds,
        ),
        m.after_delivered(Err(error)).0.after_marked(Ok(())).0.history == m.history.push(error),
{
}

/// Claimed messages are handled in claim order, and the message delivered is
/// the one whose row is cleared: with a password reset at the head of the
/// queue, the drain delivers exactly that message, keeps the rest of the batch
/// in order for later, and once the delivery succeeds clears that message's
/// row id and no other.
pub proof fn law_delivered_message_is_cleared_by_its_id(m: EmailDrainModel)
    requires
        m.queue.len() > 0,
        m.queue[0].kind@ == "password_reset"@,
    ensures
        m.next_message().1 == EmailActionView::Deliver(m.queue[0]),
        m.next_message().0.awaiting == EmailAwaiting::Delivered,
        m.next_message().0.current == m.queue[0].id,
        m.next_message().0.queue == m.queue.drop_first(),
        m.next_message().0.after_delivered(Ok(())).1 == EmailActionView::Clear(seq![m.queue[0].id]),
        m.next_message().0.after_delivered(Ok(())).0.queue == m.queue.drop_first(),
{
}

/// A claimed batch is handled from its first message: when the first claimed
/// message is a password reset it is the one delivered, and the rest of the
/// batch waits, in claim order.
pub proof fn law_claimed_batch_starts_with_its_first_message(
    m: EmailDrainModel,
    messages: Seq<EmailOutboxMessage>,
)
    requires
        messages.len() > 0,
        messages[0].kind@ == "password_reset"@,
    ensures
        m.after_claimed(Ok(messages)).1 == EmailActionView::Deliver(messages[0]),
        m.after_claimed(Ok(messages)).0.current == messages[0].id,
        m.after_claimed(Ok(messages)).0.queue == messages.drop_first(),
{
}

/// Settling a message never ends the pass early: once a delivered row is
/// cleared, or a failure is recorded, the drain moves on to the next claimed
/// message (delivering it when it is a password reset), and when the batch is
/// used up it claims again, with the pass's batch size, lease and attempt
/// limit.
pub proof fn law_pass_moves_on_after_each_message(m: EmailDrainModel)
    ensures
        m.queue.len() > 0 && m.queue[0].kind@ == "password_reset"@ ==> {
            &&& m.after_cleared(Ok(())).1 == EmailActionView::Deliver(m.queue[0])
            &&& m.after_cleared(Ok(())).0.current == m.queue[0].id
            &&& m.after_cleared(Ok(())).0.queue == m.queue.drop_first()
            &&& m.after_marked(Ok(())).1 == EmailActionView::Deliver(m.queue[0])
            &&& m.after_marked(Ok(())).0.current == m.queue[0].id
            &&& m.after_marked(Ok(())).0.queue == m.queue.drop_first()
        },
        m.queue.len() == 0 ==> {
            &&& m.after_cleared(Ok(())).1 == (EmailActionView::Claim {
                limit: m.batch_size,
                lease_seconds: m.lease_seconds,
                max_attempts: m.max_attempts,
            })
            &&& m.after_marked(Ok(())).1 == (EmailActionView::Claim {
                limit: m.batch_size,
                lease_seconds: m.lease_seconds,
                max_attempts: m.max_attempts,
            })
            &&& m.after_cleared(Ok(())).0.awaiting == EmailAwaiting::Claimed
            &&& m.after_marked(Ok(())).0.awaiting == EmailAwaiting::Claimed
        },
        m.after_marked(Ok(())).0.history == m.history.push(m.failing),
        m.after_cleared(Ok(())).0.history == m.history,
{
}

/// A message of a kind the worker does not know is never delivered: it is
/// recorded as failed with `Unsupported email outbox kind: <kind>`.
pub proof fn law_unknown_kind_is_never_delivered(m: EmailDrainModel)
    requires
        m.queue.len() > 0,
        m.queue[0].kind@ != "password_reset"@,
    ensures
        m.next_message().1 == EmailActionView::MarkFailed(
            seq![m.queue[0].id],
            unsupported_kind_message(m.queue[0].kind@),
            m.retry_seconds,
        ),
{
}

/// The subject line of password-reset emails.
pub const PASSWORD_RESET_EMAIL_SUBJECT: &'static str = "Password Reset Request";

/// The plain-text body of a password-reset email: a link to the frontend's
/// reset page carrying the token.
pub open spec fn password_reset_body(frontend_url: Seq<char>, token: Seq<char>) -> Seq<char> {
    "Click the link below to reset your password:\n\n"@ + frontend_url + "/reset-password?token="@
        + token + "\n\nThis link expires in 10 minutes."@
}

pub fn password_reset_email_body(frontend_url: &str, token: &str) -> (body: String)
    ensures
        body@ == password_reset_body(frontend_url@, token@),
{
    String::from_str("Click the link below to reset your password:\n\n").concat(frontend_url).concat(
        "/reset-password?token=",
    ).concat(token).concat("\n\nThis link expires in 10 minutes.")
}

} // verus!

use std::collections::VecDeque;

use memory_map::email_worker::{
    email_kind, password_reset_email_body, EmailAction, EmailDrain, EmailKind,
    EmailOutboxConfig, EmailOutboxMessage, PasswordResetEmailPayload,
    PASSWORD_RESET_EMAIL_KIND,
};
use memory_map::errors::AppError;
use memory_map::object_lifecycle::maintenance::{
    maintenance_outcome, ReconcileAction, ReconcilePass,
};
use memory_map::outbox::{DrainAction, DrainOutcome, FailedGroup, OutboxDrain, OutboxRetryConfig};

fn retry() -> OutboxRetryConfig {
    OutboxRetryConfig { retry_seconds: 17, lease_seconds: 300, batch_size: 1000, max_attempts: 10 }
}

#[derive(Default)]
struct FakeQueue {
    pending: VecDeque<Vec<String>>,
    claims: Vec<OutboxRetryConfig>,
    cleared: Vec<Vec<String>>,
    failed: Vec<(Vec<String>, String, i64)>,
    fail_claims: bool,
}

/// Runs a drain to completion against the fake queue, processing each batch
/// with `process`.
fn drain(
    queue: &mut FakeQueue,
    retry: &OutboxRetryConfig,
    process: impl Fn(Vec<String>) -> DrainOutcome<String>,
) -> Result<(), AppError> {
    let (mut drain, mut action) = OutboxDrain::<String>::start(retry);
    loop {
        action = match action {
            DrainAction::Claim => {
                queue.claims.push(*retry);
                if queue.fail_claims {
                    drain.on_claimed(Err(AppError::Internal("claim failed".to_string())))
                } else {
                    drain.on_claimed(Ok(queue.pending.pop_front().unwrap_or_default()))
                }
            },
            DrainAction::Process(items) => drain.on_processed(process(items)),
            DrainAction::Clear(items) => {
                queue.cleared.push(items);
                drain.on_cleared(Ok(()))
            },
            DrainAction::MarkFailed { items, error_message, retry_after_seconds } => {
                queue.failed.push((items, error_message, retry_after_seconds));
                drain.on_marked(Ok(()))
            },
            DrainAction::Finish(result) => return result,
        };
    }
}

#[test]
fn drain_outbox_clears_all_pending_batches() {
    let mut queue = FakeQueue {
        pending: vec![vec!["a".to_string(), "b".to_string()], vec!["c".to_string()]].into(),
        ..FakeQueue::default()
    };

    assert!(drain(&mut queue, &retry(), DrainOutcome::all_cleared).is_ok());

    assert_eq!(queue.cleared, vec![vec!["a".to_string(), "b".to_string()], vec!["c".to_string()]]);
    assert!(queue.failed.is_empty());
    assert_eq!(queue.claims, vec![retry(), retry(), retry()]);
}

#[test]
fn drain_outbox_marks_failures_and_surfaces_first_error() {
    let mut queue = FakeQueue {
        pending: vec![vec!["x".to_string(), "y".to_string()]].into(),
        ..FakeQueue::default()
    };

    let result =
        drain(&mut queue, &retry(), |items| DrainOutcome::whole_batch_failed(items, "boom".to_string()));
    let Err(error) = result else {
        panic!("a processing failure should surface as an error");
    };

    assert!(matches!(error, AppError::Internal(_)));
    assert!(queue.cleared.is_empty());
    assert_eq!(queue.failed, vec![(vec!["x".to_string(), "y".to_string()], "boom".to_string(), 17)]);
    assert_eq!(queue.claims.len(), 2);
}

#[test]
fn drain_outbox_surfaces_the_first_of_several_failures() {
    let mut queue = FakeQueue {
        pending: vec![vec!["p".to_string(), "q".to_string()], vec!["r".to_string()]].into(),
        ..FakeQueue::default()
    };
    let result = drain(&mut queue, &retry(), |items| {
        let first = items[0].clone();
        DrainOutcome {
            cleared: items[1..].to_vec(),
            failed: vec![FailedGroup { items: vec![first.clone()], error: format!("bad {first}") }],
        }
    });
    assert!(matches!(result, Err(AppError::Internal(ref m)) if m == "bad p"));
    assert_eq!(queue.cleared, vec![vec!["q".to_string()]]);
    assert_eq!(queue.failed.len(), 2);
    assert_eq!(queue.failed[1].1, "bad r");
}

#[test]
fn drain_outbox_stops_on_a_queue_error() {
    let mut queue = FakeQueue { fail_claims: true, ..FakeQueue::default() };
    let result = drain(&mut queue, &retry(), DrainOutcome::all_cleared);
    assert!(matches!(result, Err(AppError::Internal(ref m)) if m == "claim failed"));
    assert_eq!(queue.claims.len(), 1);
}

#[derive(Default)]
struct FakeOutbox {
    claims: Vec<Vec<EmailOutboxMessage>>,
    claim_params: Vec<(i64, i64, i32)>,
    cleared: Vec<i64>,
    failed: Vec<(Vec<i64>, String, i64)>,
}

/// Runs an email pass; `send` delivers one decoded payload.
fn drain_email(
    outbox: &mut FakeOutbox,
    config: &EmailOutboxConfig,
    send: impl Fn(&PasswordResetEmailPayload) -> Result<(), String>,
) -> Result<(), AppError> {
    let (mut drain, mut action) = EmailDrain::start(config);
    loop {
        action = match action {
            EmailAction::Claim { limit, lease_seconds, max_attempts } => {
                outbox.claim_params.push((limit, lease_seconds, max_attempts));
                let batch = if outbox.claims.is_empty() { Vec::new() } else { outbox.claims.remove(0) };
                drain.on_claimed(Ok(batch))
            },
            EmailAction::Deliver(message) => {
                let sent = serde_json::from_str::<serde_json::Value>(&message.payload)
                    .ok()
                    .and_then(|v| {
                        let email = v.get("email")?.as_str()?.to_string();
                        let token = v.get("token")?.as_str()?.to_string();
                        Some(PasswordResetEmailPayload { email, token })
                    })
                    .ok_or_else(|| "Failed to deserialize password reset email payload".to_string())
                    .and_then(|payload| send(&payload));
                drain.on_delivered(sent)
            },
            EmailAction::Clear(ids) => {
                outbox.cleared.extend_from_slice(&ids);
                drain.on_cleared(Ok(()))
            },
            EmailAction::MarkFailed { ids, error_message, retry_after_seconds } => {
                outbox.failed.push((ids, error_message, retry_after_seconds));
                drain.on_marked(Ok(()))
            },
            EmailAction::Finish(result) => return result,
        };
    }
}

fn reset_message(id: i64) -> EmailOutboxMessage {
    EmailOutboxMessage {
        id,
        kind: PASSWORD_RESET_EMAIL_KIND.to_string(),
        payload: "{\"email\":\"person@example.test\",\"token\":\"reset-token\"}".to_string(),
    }
}

#[test]
fn drain_email_outbox_sends_and_clears_password_reset_rows() {
    let payload = PasswordResetEmailPayload {
        email: "person@example.test".to_string(),
        token: "reset-token".to_string(),
    };
    let mut outbox = FakeOutbox { claims: vec![vec![reset_message(42)]], ..FakeOutbox::default() };
    let sent = std::cell::RefCell::new(Vec::new());

    let result = drain_email(&mut outbox, &EmailOutboxConfig::default(), |p| {
        sent.borrow_mut().push(p.clone());
        Ok(())
    });

    assert!(result.is_ok());
    assert_eq!(sent.into_inner(), vec![payload]);
    assert_eq!(outbox.cleared, vec![42]);
    assert!(outbox.failed.is_empty());
}

#[test]
fn drain_email_outbox_records_send_failures() {
    let mut outbox = FakeOutbox { claims: vec![vec![reset_message(42)]], ..FakeOutbox::default() };
    let config = EmailOutboxConfig { retry_seconds: 17, ..EmailOutboxConfig::default() };

    let result = drain_email(&mut outbox, &config, |_| Err("smtp failed".to_string()));
    let Err(error) = result else {
        panic!("drain unexpectedly succeeded");
    };

    assert!(error.message().contains("smtp failed"));
    assert!(outbox.cleared.is_empty());
    assert_eq!(outbox.failed, vec![(vec![42], "smtp failed".to_string(), 17)]);
}

#[test]
fn drain_email_outbox_marks_unknown_kinds_and_keeps_going() {
    let unknown = EmailOutboxMessage { id: 7, kind: "welcome".to_string(), payload: "{}".to_string() };
    let mut outbox = FakeOutbox {
        claims: vec![vec![unknown, reset_message(8)]],
        ..FakeOutbox::default()
    };
    let config = EmailOutboxConfig::default();
    let result = drain_email(&mut outbox, &config, |_| Ok(()));
    assert!(
        matches!(result, Err(AppError::Internal(ref m)) if m == "Unsupported email outbox kind: welcome")
    );
    assert_eq!(outbox.cleared, vec![8]);
    assert_eq!(
        outbox.failed,
        vec![(vec![7], "Unsupported email outbox kind: welcome".to_string(), config.retry_seconds)]
    );
    assert_eq!(
        outbox.claim_params,
        vec![(config.batch_size, config.lease_seconds, config.max_attempts); 2]
    );
}

#[test]
fn email_kind_and_body() {
    assert_eq!(email_kind("password_reset").ok(), Some(EmailKind::PasswordReset));
    assert_eq!(email_kind("x").err(), Some("Unsupported email outbox kind: x".to_string()));
    assert_eq!(
        password_reset_email_body("https://app.test", "tok"),
        "Click the link below to reset your password:\n\nhttps://app.test/reset-password?token=tok\n\nThis link expires in 10 minutes."
    );
}

/// Runs a reconcile pass; `reconcile` decides each session's fate and
/// `mark_ok` whether recording a failure succeeds.
fn reconcile_pass(
    batches: Vec<Vec<i64>>,
    reconcile: impl Fn(i64) -> Result<(), AppError>,
    mark_ok: bool,
    marked: &mut Vec<(i64, String)>,
) -> Result<usize, AppError> {
    let mut batches: VecDeque<Vec<i64>> = batches.into();
    let (mut pass, mut action) = ReconcilePass::<i64>::start();
    loop {
        action = match action {
            ReconcileAction::Claim => pass.on_claimed(Ok(batches.pop_front().unwrap_or_default())),
            ReconcileAction::Reconcile(session) => {
                let result = reconcile(session);
                pass.on_reconciled(session, result)
            },
            ReconcileAction::MarkFailed { session, error_message } => {
                marked.push((session, error_message));
                if mark_ok {
                    pass.on_marked(Ok(()))
                } else {
                    pass.on_marked(Err(AppError::Internal("mark failed".to_string())))
                }
            },
            ReconcileAction::Finish(result) => return result,
        };
    }
}

#[test]
fn reconcile_counts_sessions_across_batches() {
    let mut marked = Vec::new();
    let result = reconcile_pass(vec![vec![1, 2], vec![3]], |_| Ok(()), true, &mut marked);
    assert!(matches!(result, Ok(3)));
    assert!(marked.is_empty());
}

#[test]
fn reconcile_records_failures_and_surfaces_the_first() {
    let mut marked = Vec::new();
    let result = reconcile_pass(
        vec![vec![1, 2, 3]],
        |id| if id == 1 { Ok(()) } else { Err(AppError::NotFound(format!("session {id}"))) },
        true,
        &mut marked,
    );
    assert!(matches!(result, Err(AppError::NotFound(ref m)) if m == "session 2"));
    assert_eq!(
        marked,
        vec![(2, "Not found: session 2".to_string()), (3, "Not found: session 3".to_string())]
    );
}

#[test]
fn reconcile_goes_on_when_recording_a_failure_fails() {
    let mut marked = Vec::new();
    let result =
        reconcile_pass(vec![vec![1, 2]], |_| Err(AppError::Forbidden), false, &mut marked);
    assert!(matches!(result, Err(AppError::Internal(ref m)) if m == "mark failed"));
    assert_eq!(marked.len(), 2);
}

#[test]
fn maintenance_surfaces_the_first_failing_stage() {
    let ok: Result<usize, AppError> = Ok(1);
    assert!(maintenance_outcome(ok, Ok::<Vec<i64>, AppError>(vec![]), Ok(()), Ok(())).is_ok());
    let r = maintenance_outcome(
        Ok::<usize, AppError>(0),
        Err::<(), AppError>(AppError::Internal("reap".to_string())),
        Err(AppError::Internal("drain".to_string())),
        Err(AppError::Internal("backlog".to_string())),
    );
    assert!(matches!(r, Err(AppError::Internal(ref m)) if m == "reap"));
    let r = maintenance_outcome(
        Ok::<usize, AppError>(0),
        Ok::<(), AppError>(()),
        Ok(()),
        Err(AppError::Internal("backlog".to_string())),
    );
    assert!(matches!(r, Err(AppError::Internal(ref m)) if m == "backlog"));
}

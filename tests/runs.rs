use interchannel_mover::guard::Overwrite;
use interchannel_mover::relocation::WebhookRecord;
use interchannel_mover::run::{RelocationRun, RunAction};

/// Drives a run against a destination with the given webhooks; returns the
/// actions taken and the webhooks created.
fn drive(run: &mut RelocationRun, mut hooks: Vec<WebhookRecord>, fail_at_send: Option<usize>) -> Vec<RunAction> {
    let mut actions = Vec::new();
    loop {
        let a = run.next_action();
        actions.push(a);
        match a {
            RunAction::ApplyOverwrite { .. } => run.on_overwrite_applied(),
            RunAction::ListWebhooks { .. } => run.on_webhooks_listed(std::mem::take(&mut hooks)),
            RunAction::CreateWebhook { .. } => run.on_webhook_created(WebhookRecord { id: 900, token: Some("tok".to_string()) }),
            RunAction::Send { index, .. } => {
                if fail_at_send == Some(index) {
                    run.on_failure();
                } else {
                    run.on_sent(true);
                }
            }
            RunAction::DeleteSource { .. } => run.on_source_deleted(),
            RunAction::Finish => break,
        }
    }
    actions
}

#[test]
fn webhook_created_once_then_reused() {
    let mut run = RelocationRun::new(20, 20, 3, None, false);
    let actions = drive(&mut run, Vec::new(), None);
    let creates = actions.iter().filter(|a| matches!(a, RunAction::CreateWebhook { .. })).count();
    let lists = actions.iter().filter(|a| matches!(a, RunAction::ListWebhooks { .. })).count();
    assert_eq!(creates, 1);
    assert_eq!(lists, 1);
    let sends: Vec<RunAction> = actions.iter().copied().filter(|a| matches!(a, RunAction::Send { .. })).collect();
    assert_eq!(
        sends,
        vec![
            RunAction::Send { index: 0, webhook_id: 900 },
            RunAction::Send { index: 1, webhook_id: 900 },
            RunAction::Send { index: 2, webhook_id: 900 },
        ]
    );
    assert_eq!(run.webhook_token().map(|t| t.as_str()), Some("tok"));
}

#[test]
fn existing_webhook_is_used() {
    let mut run = RelocationRun::new(20, 20, 1, None, false);
    let hooks = vec![WebhookRecord { id: 5, token: None }, WebhookRecord { id: 6, token: Some("k".to_string()) }];
    let actions = drive(&mut run, hooks, None);
    assert_eq!(
        actions,
        vec![
            RunAction::ListWebhooks { channel: 20 },
            RunAction::Send { index: 0, webhook_id: 6 },
            RunAction::Finish,
        ]
    );
}

#[test]
fn hidden_destination_is_shown_after_success() {
    let mut run = RelocationRun::new(20, 20, 2, Some(55), false);
    let actions = drive(&mut run, Vec::new(), None);
    let hide = Overwrite { role_id: 55, allow_view: false, deny_view: true };
    let show = Overwrite { role_id: 55, allow_view: true, deny_view: false };
    assert_eq!(actions.first(), Some(&RunAction::ApplyOverwrite { channel: 20, overwrite: hide }));
    assert_eq!(actions[actions.len() - 2], RunAction::ApplyOverwrite { channel: 20, overwrite: show });
    assert!(!run.failed());
    assert!(run.is_finished());
}

#[test]
fn hidden_destination_is_shown_after_failure() {
    let mut run = RelocationRun::new(20, 20, 3, Some(55), false);
    let actions = drive(&mut run, Vec::new(), Some(1));
    let show = Overwrite { role_id: 55, allow_view: true, deny_view: false };
    assert_eq!(actions[actions.len() - 2], RunAction::ApplyOverwrite { channel: 20, overwrite: show });
    assert!(run.failed());
    let sends = actions.iter().filter(|a| matches!(a, RunAction::Send { .. })).count();
    assert_eq!(sends, 2);
}

#[test]
fn sources_deleted_after_delivered_copies_only() {
    let mut run = RelocationRun::new(20, 19, 2, None, true);
    assert_eq!(run.next_action(), RunAction::ListWebhooks { channel: 19 });
    run.on_webhooks_listed(vec![WebhookRecord { id: 1, token: Some("t".to_string()) }]);
    assert_eq!(run.next_action(), RunAction::Send { index: 0, webhook_id: 1 });
    run.on_sent(true);
    assert_eq!(run.next_action(), RunAction::DeleteSource { index: 0 });
    run.on_source_deleted();
    assert_eq!(run.next_action(), RunAction::Send { index: 1, webhook_id: 1 });
    run.on_sent(false);
    assert_eq!(run.next_action(), RunAction::Finish);
}

#[test]
fn empty_run_with_hiding_hides_and_shows() {
    let mut run = RelocationRun::new(20, 20, 0, Some(9), false);
    let actions = drive(&mut run, Vec::new(), None);
    assert_eq!(actions.len(), 3);
    assert!(matches!(actions[2], RunAction::Finish));
}

#[test]
fn webhook_without_token_fails_the_run() {
    let mut run = RelocationRun::new(20, 20, 1, None, false);
    run.on_webhooks_listed(Vec::new());
    run.on_webhook_created(WebhookRecord { id: 4, token: None });
    assert!(run.failed());
    assert_eq!(run.next_action(), RunAction::Finish);
}

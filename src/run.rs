use vstd::prelude::*;
use crate::guard::{hide_for, hide_overwrite, reveal_for, reveal_overwrite, Overwrite};
use crate::relocation::WebhookRecord;

verus! {

/// Where a relocation run stands.
#[derive(Debug, Clone, Copy, PartialEq, Eq, Structural)]
pub enum Phase {
    Hiding,
    ResolvingWebhook,
    CreatingWebhook,
    Sending,
    DeletingSource,
    Revealing,
    Finished,
}

/// What the caller is to do next for a relocation run.
#[derive(Debug, Clone, Copy, PartialEq, Eq, Structural)]
pub enum RunAction {
    /// Apply this overwrite to the destination channel.
    ApplyOverwrite { channel: u64, overwrite: Overwrite },
    /// List the webhooks of this channel.
    ListWebhooks { channel: u64 },
    /// Create a webhook in this channel, named by `webhook_name`.
    CreateWebhook { channel: u64 },
    /// Send the copy of message `index` through the run's webhook.
    Send { index: usize, webhook_id: u64 },
    /// Delete the original of message `index`.
    DeleteSource { index: usize },
    /// The run is over.
    Finish,
}

/// The decisions of one relocation into a destination: hide it, find or create
/// its webhook once, copy each message, optionally delete each original, and
/// show the destination again on every way out.
pub struct RelocationRun {
    destination: u64,
    post_channel: u64,
    total: usize,
    next: usize,
    hide_role: Option<u64>,
    remove_source: bool,
    phase: Phase,
    webhook: Option<WebhookRecord>,
    created: usize,
    failed: bool,
    applied: Ghost<Seq<Overwrite>>,
}

impl RelocationRun {
    pub closed spec fn spec_phase(&self) -> Phase {
        self.phase
    }

    pub closed spec fn spec_next(&self) -> nat {
        self.next as nat
    }

    pub closed spec fn spec_total(&self) -> nat {
        self.total as nat
    }

    pub closed spec fn spec_hide_role(&self) -> Option<u64> {
        self.hide_role
    }

    pub closed spec fn spec_destination(&self) -> u64 {
        self.destination
    }

    pub closed spec fn spec_post_channel(&self) -> u64 {
        self.post_channel
    }

    pub closed spec fn spec_remove_source(&self) -> bool {
        self.remove_source
    }

    /// What a run is started with and keeps to its end: destination, posting
    /// channel, number of messages, hidden role and whether originals go.
    pub open spec fn spec_settings(&self) -> (u64, u64, nat, Option<u64>, bool) {
        (
            self.spec_destination(),
            self.spec_post_channel(),
            self.spec_total(),
            self.spec_hide_role(),
            self.spec_remove_source(),
        )
    }

    /// The webhook held for this run.
    pub closed spec fn spec_webhook_id(&self) -> Option<u64> {
        match self.webhook {
            Some(w) => Some(w.id),
            None => None,
        }
    }

    /// The token of the webhook held for this run.
    pub closed spec fn spec_webhook_token(&self) -> Option<Seq<char>> {
        match self.webhook {
            Some(w) => match w.token {
                Some(t) => Some(t@),
                None => None,
            },
            None => None,
        }
    }

    /// How many webhooks this run has had created.
    pub closed spec fn spec_created(&self) -> nat {
        self.created as nat
    }

    /// Whether a step failed.
    pub closed spec fn spec_failed(&self) -> bool {
        self.failed
    }

    /// The overwrites applied to the destination so far, in order.
    pub closed spec fn spec_applied(&self) -> Seq<Overwrite> {
        self.applied@
    }

    pub open spec fn wf(&self) -> bool {
        &&& self.spec_next() <= self.spec_total()
        &&& self.spec_created() <= 1
        &&& self.spec_phase() == Phase::DeletingSource ==> self.spec_remove_source()
        &&& (self.spec_webhook_id() is Some <==> self.spec_webhook_token() is Some)
        &&& (self.spec_phase() == Phase::Sending || self.spec_phase() == Phase::DeletingSource)
            ==> self.spec_webhook_id() is Some && self.spec_next() < self.spec_total()
        &&& (self.spec_phase() == Phase::ResolvingWebhook || self.spec_phase() == Phase::CreatingWebhook)
            ==> self.spec_next() < self.spec_total()
        &&& self.spec_failed() ==> self.spec_phase() == Phase::Revealing || self.spec_phase() == Phase::Finished
        &&& self.spec_webhook_id() is Some ==> self.spec_phase() != Phase::ResolvingWebhook
            && self.spec_phase() != Phase::CreatingWebhook
        &&& self.spec_created() == 1 ==> self.spec_webhook_id() is Some || self.spec_failed()
        &&& (self.spec_phase() == Phase::Hiding || self.spec_phase() == Phase::Revealing)
            ==> self.spec_hide_role() is Some
        &&& self.spec_hide_role() is None ==> self.spec_applied().len() == 0
        &&& !self.spec_failed() ==> match self.spec_hide_role() {
            Some(r) => if self.spec_phase() == Phase::Hiding {
                self.spec_applied().len() == 0
            } else if self.spec_phase() == Phase::Finished {
                self.spec_applied() == seq![hide_overwrite(r), reveal_overwrite(r)]
            } else {
                self.spec_applied() == seq![hide_overwrite(r)]
            },
            None => true,
        }
        &&& !self.spec_failed() && (self.spec_phase() == Phase::Finished || self.spec_phase() == Phase::Revealing)
            ==> self.spec_next() == self.spec_total()
        &&& self.spec_phase() == Phase::Hiding ==> self.spec_next() == 0 && self.spec_webhook_id() is None
    }

    /// The next action, read from the phase.
    pub open spec fn spec_action(&self) -> RunAction {
        match self.spec_phase() {
            Phase::Hiding => RunAction::ApplyOverwrite {
                channel: self.spec_destination(),
                overwrite: hide_overwrite(self.spec_hide_role().unwrap()),
            },
            Phase::ResolvingWebhook => RunAction::ListWebhooks { channel: self.spec_post_channel() },
            Phase::CreatingWebhook => RunAction::CreateWebhook { channel: self.spec_post_channel() },
            Phase::Sending => RunAction::Send {
                index: self.spec_next() as usize,
                webhook_id: self.spec_webhook_id().unwrap(),
            },
            Phase::DeletingSource => RunAction::DeleteSource { index: self.spec_next() as usize },
            Phase::Revealing => RunAction::ApplyOverwrite {
                channel: self.spec_destination(),
                overwrite: reveal_overwrite(self.spec_hide_role().unwrap()),
            },
            Phase::Finished => RunAction::Finish,
        }
    }

    /// The phase once message `next` has been handled and `total` exist.
    pub open spec fn phase_after_message(next: nat, total: nat, hide_role: Option<u64>) -> Phase {
        if next < total {
            Phase::Sending
        } else if hide_role is Some {
            Phase::Revealing
        } else {
            Phase::Finished
        }
    }

    /// Starts a run of `total` messages into `destination`, posting through
    /// `post_channel`; `hide_role` is the role hidden from, when there is one.
    pub fn new(destination: u64, post_channel: u64, total: usize, hide_role: Option<u64>, remove_source: bool) -> (r: RelocationRun)
        ensures
            r.wf(),
            !r.spec_failed(),
            r.spec_next() == 0,
            r.spec_total() == total,
            r.spec_hide_role() == hide_role,
            r.spec_destination() == destination,
            r.spec_post_channel() == post_channel,
            r.spec_remove_source() == remove_source,
            r.spec_webhook_id() is None,
            r.spec_created() == 0,
            r.spec_applied().len() == 0,
            r.spec_phase() == if hide_role is Some {
                Phase::Hiding
            } else if total > 0 {
                Phase::ResolvingWebhook
            } else {
                Phase::Finished
            },
    {
        let phase = if hide_role.is_some() {
            Phase::Hiding
        } else if total > 0 {
            Phase::ResolvingWebhook
        } else {
            Phase::Finished
        };
        RelocationRun {
            destination,
            post_channel,
            total,
            next: 0,
            hide_role,
            remove_source,
            phase,
            webhook: None,
            created: 0,
            failed: false,
            applied: Ghost(Seq::empty()),
        }
    }

    pub fn next_action(&self) -> (r: RunAction)
        requires
            self.wf(),
        ensures
            r == self.spec_action(),
    {
        match self.phase {
            Phase::Hiding => {
                let role = match self.hide_role {
                    Some(r) => r,
                    None => 0,
                };
                RunAction::ApplyOverwrite { channel: self.destination, overwrite: hide_for(role) }
            },
            Phase::ResolvingWebhook => RunAction::ListWebhooks { channel: self.post_channel },
            Phase::CreatingWebhook => RunAction::CreateWebhook { channel: self.post_channel },
            Phase::Sending => {
                let id = match &self.webhook {
                    Some(w) => w.id,
                    None => 0,
                };
                RunAction::Send { index: self.next, webhook_id: id }
            },
            Phase::DeletingSource => RunAction::DeleteSource { index: self.next },
            Phase::Revealing => {
                let role = match self.hide_role {
                    Some(r) => r,
                    None => 0,
                };
                RunAction::ApplyOverwrite { channel: self.destination, overwrite: reveal_for(role) }
            },
            Phase::Finished => RunAction::Finish,
        }
    }

    /// The token of the run's webhook, once it has one.
    pub fn webhook_token(&self) -> (r: Option<&String>)
        ensures
            match r {
                Some(t) => self.spec_webhook_token() == Some(t@),
                None => self.spec_webhook_token() is None,
            },
    {
        match &self.webhook {
            Some(w) => w.token.as_ref(),
            None => None,
        }
    }

    /// The overwrite asked for was applied.
    pub fn on_overwrite_applied(&mut self)
        requires
            old(self).wf(),
            old(self).spec_phase() == Phase::Hiding || old(self).spec_phase() == Phase::Revealing,
        ensures
            final(self).wf(),
            final(self).spec_settings() == old(self).spec_settings(),
            final(self).spec_applied() == old(self).spec_applied().push(if old(self).spec_phase() == Phase::Revealing {
                reveal_overwrite(old(self).spec_hide_role().unwrap())
            } else {
                hide_overwrite(old(self).spec_hide_role().unwrap())
            }),
            final(self).spec_phase() == if old(self).spec_phase() == Phase::Revealing {
                Phase::Finished
            } else if old(self).spec_total() > 0 {
                Phase::ResolvingWebhook
            } else {
                Phase::Revealing
            },
            final(self).spec_next() == old(self).spec_next(),
            final(self).spec_webhook_id() == old(self).spec_webhook_id(),
            final(self).spec_created() == old(self).spec_created(),
            final(self).spec_failed() == old(self).spec_failed(),
            final(self).spec_hide_role() == old(self).spec_hide_role(),
            final(self).spec_total() == old(self).spec_total(),
    {
        let role = match self.hide_role {
            Some(r) => r,
            None => 0,
        };
        if self.phase == Phase::Revealing {
            proof {
                self.applied@ = self.applied@.push(reveal_overwrite(role));
                assert(seq![hide_overwrite(role)].push(reveal_overwrite(role))
                    =~= seq![hide_overwrite(role), reveal_overwrite(role)]);
            }
            self.phase = Phase::Finished;
        } else {
            proof {
                assert(self.applied@ =~= Seq::<Overwrite>::empty());
                self.applied@ = self.applied@.push(hide_overwrite(role));
                assert(Seq::<Overwrite>::empty().push(hide_overwrite(role)) =~= seq![hide_overwrite(role)]);
            }
            if self.total > 0 {
                self.phase = Phase::ResolvingWebhook;
            } else {
                self.phase = Phase::Revealing;
            }
        }
    }

    /// The webhooks of the posting channel were listed: the first with a token
    /// is used, else one is to be created.
    pub fn on_webhooks_listed(&mut self, hooks: Vec<WebhookRecord>)
        requires
            old(self).wf(),
            old(self).spec_phase() == Phase::ResolvingWebhook,
        ensures
            final(self).wf(),
            final(self).spec_settings() == old(self).spec_settings(),
            (exists|i: int| 0 <= i < hooks@.len() && (#[trigger] hooks@[i]).token is Some) ==> {
                &&& final(self).spec_phase() == Phase::Sending
                &&& exists|i: int| 0 <= i < hooks@.len() && (#[trigger] hooks@[i]).token is Some
                    && final(self).spec_webhook_id() == Some(hooks@[i].id)
                    && forall|j: int| 0 <= j < i ==> (#[trigger] hooks@[j]).token is None
            },
            (forall|i: int| 0 <= i < hooks@.len() ==> (#[trigger] hooks@[i]).token is None) ==> {
                &&& final(self).spec_phase() == Phase::CreatingWebhook
                &&& final(self).spec_webhook_id() is None
            },
            final(self).spec_next() == old(self).spec_next(),
            final(self).spec_created() == old(self).spec_created(),
            final(self).spec_failed() == old(self).spec_failed(),
            final(self).spec_applied() == old(self).spec_applied(),
            final(self).spec_hide_role() == old(self).spec_hide_role(),
            final(self).spec_total() == old(self).spec_total(),
    {
        let mut hooks = hooks;
        let ghost orig = hooks@;
        let pick = crate::relocation::active_webhook(&hooks);
        match pick {
            Some(i) => {
                let w = hooks.swap_remove(i);
                assert(w == orig[i as int]);
                self.webhook = Some(w);
                self.phase = Phase::Sending;
            },
            None => {
                self.phase = Phase::CreatingWebhook;
            },
        }
    }

    /// A webhook was created; one without a token cannot be used and fails the run.
    pub fn on_webhook_created(&mut self, hook: WebhookRecord)
        requires
            old(self).wf(),
            old(self).spec_phase() == Phase::CreatingWebhook,
        ensures
            final(self).wf(),
            final(self).spec_settings() == old(self).spec_settings(),
            final(self).spec_created() == 1,
            hook.token is Some ==> final(self).spec_phase() == Phase::Sending
                && final(self).spec_webhook_id() == Some(hook.id) && !final(self).spec_failed(),
            hook.token is None ==> final(self).spec_failed() && final(self).spec_phase() == if old(self).spec_hide_role() is Some {
                Phase::Revealing
            } else {
                Phase::Finished
            },
            final(self).spec_next() == old(self).spec_next(),
            final(self).spec_applied() == old(self).spec_applied(),
            final(self).spec_hide_role() == old(self).spec_hide_role(),
            final(self).spec_total() == old(self).spec_total(),
    {
        self.created = 1;
        if hook.token.is_some() {
            self.webhook = Some(hook);
            self.phase = Phase::Sending;
        } else {
            self.fail();
        }
    }

    fn advance(&mut self)
        requires
            old(self).wf(),
            old(self).spec_phase() == Phase::Sending || old(self).spec_phase() == Phase::DeletingSource,
        ensures
            final(self).wf(),
            final(self).spec_settings() == old(self).spec_settings(),
            final(self).spec_next() == old(self).spec_next() + 1,
            final(self).spec_phase() == Self::phase_after_message(
                old(self).spec_next() + 1,
                old(self).spec_total(),
                old(self).spec_hide_role(),
            ),
            final(self).spec_webhook_id() == old(self).spec_webhook_id(),
            final(self).spec_created() == old(self).spec_created(),
            final(self).spec_failed() == old(self).spec_failed(),
            final(self).spec_applied() == old(self).spec_applied(),
            final(self).spec_hide_role() == old(self).spec_hide_role(),
            final(self).spec_total() == old(self).spec_total(),
    {
        self.next = self.next + 1;
        if self.next < self.total {
            self.phase = Phase::Sending;
        } else if self.hide_role.is_some() {
            self.phase = Phase::Revealing;
        } else {
            self.phase = Phase::Finished;
        }
    }

    /// The copy of the current message was sent, or its dispatch timed out
    /// (`delivered` false): a timed-out copy is skipped and its original kept.
    pub fn on_sent(&mut self, delivered: bool)
        requires
            old(self).wf(),
            old(self).spec_phase() == Phase::Sending,
        ensures
            final(self).wf(),
            final(self).spec_settings() == old(self).spec_settings(),
            delivered && old(self).spec_remove_source() ==> final(self).spec_phase() == Phase::DeletingSource
                && final(self).spec_next() == old(self).spec_next(),
            !(delivered && old(self).spec_remove_source()) ==> final(self).spec_next() == old(self).spec_next() + 1
                && final(self).spec_phase() == Self::phase_after_message(
                    old(self).spec_next() + 1,
                    old(self).spec_total(),
                    old(self).spec_hide_role(),
                ),
            final(self).spec_webhook_id() == old(self).spec_webhook_id(),
            final(self).spec_created() == old(self).spec_created(),
            final(self).spec_failed() == old(self).spec_failed(),
            final(self).spec_applied() == old(self).spec_applied(),
            final(self).spec_hide_role() == old(self).spec_hide_role(),
            final(self).spec_total() == old(self).spec_total(),
    {
        if delivered && self.remove_source {
            self.phase = Phase::DeletingSource;
        } else {
            self.advance();
        }
    }

    /// The original of the current message was deleted.
    pub fn on_source_deleted(&mut self)
        requires
            old(self).wf(),
            old(self).spec_phase() == Phase::DeletingSource,
        ensures
            final(self).wf(),
            final(self).spec_settings() == old(self).spec_settings(),
            final(self).spec_next() == old(self).spec_next() + 1,
            final(self).spec_phase() == Self::phase_after_message(
                old(self).spec_next() + 1,
                old(self).spec_total(),
                old(self).spec_hide_role(),
            ),
            final(self).spec_webhook_id() == old(self).spec_webhook_id(),
            final(self).spec_created() == old(self).spec_created(),
            final(self).spec_failed() == old(self).spec_failed(),
            final(self).spec_applied() == old(self).spec_applied(),
    {
        self.advance();
    }

    fn fail(&mut self)
        requires
            old(self).spec_next() <= old(self).spec_total(),
            old(self).spec_created() <= 1,
            old(self).spec_hide_role() is None ==> old(self).spec_applied().len() == 0,
            old(self).spec_created() == 1,
            old(self).spec_webhook_id() is Some <==> old(self).spec_webhook_token() is Some,
        ensures
            final(self).wf(),
            final(self).spec_settings() == old(self).spec_settings(),
            final(self).spec_failed(),
            final(self).spec_phase() == if old(self).spec_hide_role() is Some && old(self).spec_phase() != Phase::Revealing {
                Phase::Revealing
            } else {
                Phase::Finished
            },
            final(self).spec_next() == old(self).spec_next(),
            final(self).spec_webhook_id() == old(self).spec_webhook_id(),
            final(self).spec_created() == old(self).spec_created(),
            final(self).spec_applied() == old(self).spec_applied(),
            final(self).spec_hide_role() == old(self).spec_hide_role(),
            final(self).spec_total() == old(self).spec_total(),
    {
        self.failed = true;
        if self.hide_role.is_some() && self.phase != Phase::Revealing {
            self.phase = Phase::Revealing;
        } else {
            self.phase = Phase::Finished;
        }
    }

    /// The last action failed: the run goes on to show the destination again
    /// when it was hidden (unless that is what failed), then finishes.
    pub fn on_failure(&mut self)
        requires
            old(self).wf(),
        ensures
            final(self).wf(),
            final(self).spec_settings() == old(self).spec_settings(),
            final(self).spec_failed(),
            final(self).spec_phase() == if old(self).spec_hide_role() is Some && old(self).spec_phase() != Phase::Revealing
                && old(self).spec_phase() != Phase::Finished {
                Phase::Revealing
            } else {
                Phase::Finished
            },
            final(self).spec_applied() == old(self).spec_applied(),
            final(self).spec_next() == old(self).spec_next(),
            final(self).spec_webhook_id() == old(self).spec_webhook_id(),
            final(self).spec_created() == old(self).spec_created(),
    {
        if self.phase == Phase::Finished {
            self.failed = true;
            return;
        }
        self.failed = true;
        if self.hide_role.is_some() && self.phase != Phase::Revealing {
            self.phase = Phase::Revealing;
        } else {
            self.phase = Phase::Finished;
        }
    }

    /// Whether the run is over.
    pub fn is_finished(&self) -> (r: bool)
        ensures
            r == (self.spec_phase() == Phase::Finished),
    {
        self.phase == Phase::Finished
    }

    /// Whether a step failed.
    pub fn failed(&self) -> (r: bool)
        ensures
            r == self.spec_failed(),
    {
        self.failed
    }
}

/// Once a run holds a webhook it neither lists nor creates one again: every
/// later copy goes through it, and a run creates at most one webhook.
pub proof fn law_webhook_resolved_once(run: RelocationRun)
    requires
        run.wf(),
        run.spec_webhook_id() is Some,
    ensures
        !(run.spec_action() is ListWebhooks),
        !(run.spec_action() is CreateWebhook),
        run.spec_created() <= 1,
{
}

/// A run that hid its destination and finished without a failure has denied
/// view access to the hidden role first and allowed it last.
pub proof fn law_destination_shown_after_success(run: RelocationRun)
    requires
        run.wf(),
        !run.spec_failed(),
        run.spec_phase() == Phase::Finished,
        run.spec_hide_role() is Some,
    ensures
        run.spec_applied().len() == 2,
        run.spec_applied()[0] == hide_overwrite(run.spec_hide_role().unwrap()),
        run.spec_applied().last() == reveal_overwrite(run.spec_hide_role().unwrap()),
        run.spec_applied().last().allow_view && !run.spec_applied().last().deny_view,
        run.spec_next() == run.spec_total(),
{
}

/// Every action of a run is aimed where the run was started: overwrites at
/// the destination, webhook listing and creation at the posting channel (a
/// thread's parent), and each copy or deletion at a message of the run.
pub proof fn law_actions_follow_settings(run: RelocationRun)
    requires
        run.wf(),
    ensures
        run.spec_action() matches RunAction::ApplyOverwrite { channel, overwrite }
            ==> channel == run.spec_destination() && overwrite.role_id == run.spec_hide_role().unwrap(),
        run.spec_action() matches RunAction::ListWebhooks { channel } ==> channel == run.spec_post_channel(),
        run.spec_action() matches RunAction::CreateWebhook { channel } ==> channel == run.spec_post_channel(),
        run.spec_action() matches RunAction::Send { index, webhook_id }
            ==> index == run.spec_next() && index < run.spec_total() && Some(webhook_id) == run.spec_webhook_id(),
        run.spec_action() matches RunAction::DeleteSource { index }
            ==> index == run.spec_next() && index < run.spec_total() && run.spec_remove_source(),
{
}

} // verus!

use vstd::prelude::*;

verus! {

/// Messages this many seconds old (14 days) or older cannot be batch-deleted.
pub const BATCH_AGE_LIMIT_SECS: u64 = 1209600;

/// The most messages one batch-delete call takes.
pub const BATCH_MAX: usize = 100;

/// Delay after each single deletion, in milliseconds.
pub const SINGLE_DELETE_DELAY_MS: u64 = 200;

/// Age in seconds of a message created at `created`, seen at `now`; a creation
/// time in the future counts as age zero.
pub open spec fn age(now: u64, created: u64) -> nat {
    if now >= created { (now - created) as nat } else { 0 }
}

/// Whether a message is too old for a batch: 14 days or more.
pub open spec fn too_old(now: u64, created: u64) -> bool {
    age(now, created) >= BATCH_AGE_LIMIT_SECS
}

/// One deletion step over positions `start..end` of the sequence.
#[derive(Debug, Clone, Copy, PartialEq, Eq, Structural)]
pub enum DeleteStep {
    /// Delete these messages one call each, oldest first.
    OneByOne { start: usize, end: usize },
    /// Delete these messages with one batch-delete call.
    Batch { start: usize, end: usize },
    /// Nothing is left.
    Done,
}

pub open spec fn min_usize(a: int, b: int) -> int {
    if a <= b { a } else { b }
}

/// The end of the stretch of messages too old for a batch that starts at `pos`.
pub open spec fn old_run_end(created: Seq<u64>, pos: int, now: u64) -> int
    decreases created.len() - pos,
{
    if pos >= created.len() {
        created.len() as int
    } else if too_old(now, created[pos]) {
        old_run_end(created, pos + 1, now)
    } else {
        pos
    }
}

/// The step taken with the messages from `pos` on left: the stretch of
/// messages too old for a batch one by one, a lone last message alone, else a
/// batch of up to `BATCH_MAX`. What is left after a step is judged afresh.
pub open spec fn spec_step(created: Seq<u64>, pos: int, now: u64) -> DeleteStep {
    if pos >= created.len() {
        DeleteStep::Done
    } else if too_old(now, created[pos]) {
        DeleteStep::OneByOne { start: pos as usize, end: old_run_end(created, pos, now) as usize }
    } else if created.len() - pos == 1 {
        DeleteStep::OneByOne { start: pos as usize, end: created.len() as usize }
    } else {
        DeleteStep::Batch { start: pos as usize, end: min_usize(pos + BATCH_MAX, created.len() as int) as usize }
    }
}

/// Batch-delete calls made from `pos` on when every step sees the time `now`.
pub open spec fn batch_calls(created: Seq<u64>, pos: int, now: u64) -> nat
    decreases created.len() - pos,
{
    if pos >= created.len() {
        0
    } else if too_old(now, created[pos]) {
        batch_calls(created, pos + 1, now)
    } else if created.len() - pos == 1 {
        0
    } else {
        1 + batch_calls(created, min_usize(pos + BATCH_MAX, created.len() as int), now)
    }
}

/// Single-delete calls made from `pos` on when every step sees the time `now`.
pub open spec fn single_calls(created: Seq<u64>, pos: int, now: u64) -> nat
    decreases created.len() - pos,
{
    if pos >= created.len() {
        0
    } else if too_old(now, created[pos]) {
        1 + single_calls(created, pos + 1, now)
    } else if created.len() - pos == 1 {
        1
    } else {
        single_calls(created, min_usize(pos + BATCH_MAX, created.len() as int), now)
    }
}

/// Plans the deletion of a sequence of messages, given by their creation times
/// in seconds, oldest first.
pub struct DeletionPlanner {
    created: Vec<u64>,
    pos: usize,
}

impl DeletionPlanner {
    pub closed spec fn spec_created(&self) -> Seq<u64> {
        self.created@
    }

    pub closed spec fn spec_pos(&self) -> int {
        self.pos as int
    }

    pub open spec fn wf(&self) -> bool {
        self.spec_pos() <= self.spec_created().len()
    }

    pub fn new(created: Vec<u64>) -> (r: DeletionPlanner)
        ensures
            r.spec_created() == created@,
            r.spec_pos() == 0,
            r.wf(),
    {
        DeletionPlanner { created, pos: 0 }
    }

    /// The next step, judged by the time `now`, in seconds; the positions it
    /// covers count as handled afterward.
    pub fn next_step(&mut self, now: u64) -> (r: DeleteStep)
        requires
            old(self).wf(),
        ensures
            r == spec_step(old(self).spec_created(), old(self).spec_pos(), now),
            final(self).spec_created() == old(self).spec_created(),
            final(self).wf(),
            final(self).spec_pos() == match r {
                DeleteStep::OneByOne { start, end } => end as int,
                DeleteStep::Batch { start, end } => end as int,
                DeleteStep::Done => old(self).spec_pos(),
            },
    {
        let n = self.created.len();
        let start = self.pos;
        if start >= n {
            return DeleteStep::Done;
        }
        if now >= self.created[start] && now - self.created[start] >= BATCH_AGE_LIMIT_SECS {
            let mut end: usize = start + 1;
            while end < n && now >= self.created[end] && now - self.created[end] >= BATCH_AGE_LIMIT_SECS
                invariant
                    n == self.created@.len(),
                    start < end <= n,
                    old_run_end(self.created@, start as int, now) == old_run_end(self.created@, end as int, now),
                decreases n - end,
            {
                end = end + 1;
            }
            self.pos = end;
            DeleteStep::OneByOne { start, end }
        } else if n - start == 1 {
            self.pos = n;
            DeleteStep::OneByOne { start, end: n }
        } else {
            let end = if n - start <= BATCH_MAX { n } else { start + BATCH_MAX };
            self.pos = end;
            DeleteStep::Batch { start, end }
        }
    }

    /// Whether every message has been handled.
    pub fn is_finished(&self) -> (r: bool)
        ensures
            r == (self.spec_pos() >= self.spec_created().len()),
    {
        self.pos >= self.created.len()
    }
}

/// Whether a progress line is due after the single deletion at position `idx`:
/// every tenth one.
pub fn progress_line_due(idx: usize) -> (r: bool)
    ensures
        r == ((idx as int + 1) % 10 == 0),
{
    idx % 10 == 9
}

proof fn lemma_all_fresh_batches(created: Seq<u64>, pos: int, now: u64)
    requires
        0 <= pos <= created.len(),
        (created.len() - pos) % 100 != 1,
        forall|i: int| pos <= i < created.len() ==> !too_old(now, #[trigger] created[i]),
    ensures
        batch_calls(created, pos, now) == (created.len() - pos + 99) / 100,
        single_calls(created, pos, now) == 0,
    decreases created.len() - pos,
{
    if pos < created.len() {
        let next = min_usize(pos + BATCH_MAX, created.len() as int);
        lemma_all_fresh_batches(created, next, now);
    }
}

/// Messages all younger than the batch age limit, two or more of them, are
/// deleted by `ceil(N / 100)` batch calls and no single deletion, when the last
/// batch does not leave exactly one message behind (N mod 100 is not 1: that
/// message is then deleted on its own).
pub proof fn law_fresh_messages_batch_deleted(created: Seq<u64>, now: u64)
    requires
        created.len() >= 2,
        created.len() % 100 != 1,
        forall|i: int| 0 <= i < created.len() ==> !too_old(now, #[trigger] created[i]),
    ensures
        batch_calls(created, 0, now) == (created.len() + 99) / 100,
        single_calls(created, 0, now) == 0,
{
    lemma_all_fresh_batches(created, 0, now);
}

proof fn lemma_old_run(created: Seq<u64>, pos: int, now: u64)
    requires
        0 <= pos <= created.len(),
    ensures
        pos <= old_run_end(created, pos, now) <= created.len(),
        forall|i: int| pos <= i < old_run_end(created, pos, now) ==> too_old(now, #[trigger] created[i]),
        old_run_end(created, pos, now) < created.len() ==> !too_old(now, created[old_run_end(created, pos, now)]),
    decreases created.len() - pos,
{
    if pos < created.len() && too_old(now, created[pos]) {
        lemma_old_run(created, pos + 1, now);
    }
}

pub open spec fn chronological(created: Seq<u64>) -> bool {
    forall|i: int, j: int| 0 <= i <= j < created.len() ==> created[i] <= created[j]
}

/// When the oldest message left is too old for a batch, the stretch of
/// messages too old for a batch that starts there is deleted one by one, each
/// on its own, and the step ends at the first message young enough for a batch.
pub proof fn law_old_stretch_deleted_one_by_one(created: Seq<u64>, pos: int, now: u64)
    requires
        0 <= pos < created.len(),
        created.len() <= usize::MAX,
        too_old(now, created[pos]),
    ensures
        spec_step(created, pos, now) matches DeleteStep::OneByOne { start, end }
            && start == pos && pos < end <= created.len()
            && (forall|i: int| pos <= i < end ==> too_old(now, #[trigger] created[i]))
            && (end < created.len() ==> !too_old(now, created[end as int])),
{
    lemma_old_run(created, pos, now);
}

/// A lone message left is deleted on its own.
pub proof fn law_lone_message_deleted_alone(created: Seq<u64>, now: u64)
    requires
        created.len() >= 1,
        created.len() <= usize::MAX,
    ensures
        spec_step(created, created.len() - 1, now) == (DeleteStep::OneByOne {
            start: (created.len() - 1) as usize,
            end: created.len() as usize,
        }),
{
    if too_old(now, created[created.len() - 1]) {
        lemma_old_run(created, created.len() - 1, now);
        lemma_old_run(created, created.len() as int, now);
    }
}

/// In a chronological sequence holding a message 14 days old or more, the
/// first step deletes one by one exactly the messages that old.
pub proof fn law_old_messages_deleted_first(created: Seq<u64>, now: u64)
    requires
        chronological(created),
        created.len() <= usize::MAX,
        exists|i: int| 0 <= i < created.len() && too_old(now, #[trigger] created[i]),
    ensures
        spec_step(created, 0, now) matches DeleteStep::OneByOne { start, end }
            && start == 0
            && forall|i: int| 0 <= i < created.len() ==> (too_old(now, #[trigger] created[i]) <==> i < end),
{
    let k = choose|i: int| 0 <= i < created.len() && too_old(now, #[trigger] created[i]);
    assert(created[0] <= created[k]);
    lemma_old_run(created, 0, now);
    let e = old_run_end(created, 0, now);
    assert forall|i: int| 0 <= i < created.len() implies (too_old(now, #[trigger] created[i]) <==> i < e) by {
        if i >= e {
            assert(e < created.len());
            assert(created[e] <= created[i]);
        }
    }
}

/// In a chronological sequence no batch holds a message 14 days old or more.
pub proof fn law_batches_hold_no_old_message(created: Seq<u64>, pos: int, now: u64)
    requires
        chronological(created),
        created.len() <= usize::MAX,
        0 <= pos,
    ensures
        spec_step(created, pos, now) matches DeleteStep::Batch { start, end }
            ==> forall|i: int| start <= i < end ==> !too_old(now, #[trigger] created[i]),
{
    if spec_step(created, pos, now) is Batch {
        assert forall|i: int| pos <= i < min_usize(pos + BATCH_MAX, created.len() as int) implies !too_old(now, #[trigger] created[i]) by {
            assert(created[pos] <= created[i]);
        }
    }
}

} // verus!

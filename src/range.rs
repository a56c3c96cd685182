use vstd::prelude::*;

verus! {

/// Messages fetched per history page.
pub const PAGE_LIMIT: u16 = 100;

/// Delay between two history pages, in milliseconds.
pub const PAGE_DELAY_MS: u64 = 100;

/// Position of the first occurrence of `x` in `s`, or -1.
pub open spec fn first_pos(s: Seq<u64>, x: u64) -> int
    decreases s.len(),
{
    if s.len() == 0 {
        -1
    } else if s[0] == x {
        0
    } else {
        let p = first_pos(s.drop_first(), x);
        if p < 0 { -1 } else { p + 1 }
    }
}

/// The bounds in chronological order: identifiers ascend with time.
pub open spec fn normalized(from: u64, to: Option<u64>) -> (u64, Option<u64>) {
    match to {
        Some(t) => if from > t { (t, Some(from)) } else { (from, Some(t)) },
        None => (from, None),
    }
}

/// What the resolver knows: its bounds, the identifiers collected in
/// chronological order, and whether it has stopped.
pub struct RangeState {
    pub from: u64,
    pub to: Option<u64>,
    pub collected: Seq<u64>,
    pub done: bool,
    pub found_end: bool,
}

pub open spec fn spec_resolver_new(from: u64, to: Option<u64>) -> RangeState {
    RangeState {
        from: normalized(from, to).0,
        to: normalized(from, to).1,
        collected: Seq::empty(),
        done: false,
        found_end: false,
    }
}

/// After the first boundary was fetched: with equal bounds nothing more is needed.
pub open spec fn spec_on_first(s: RangeState, id: u64) -> RangeState {
    RangeState {
        collected: s.collected.push(id),
        done: s.to == Some(s.from),
        found_end: s.to == Some(s.from),
        ..s
    }
}

/// How many messages of a chronological page belong to the range.
pub open spec fn page_take(chrono: Seq<u64>, to: Option<u64>) -> int {
    match to {
        Some(t) => if first_pos(chrono, t) >= 0 { first_pos(chrono, t) + 1 } else { chrono.len() as int },
        None => chrono.len() as int,
    }
}

pub open spec fn page_has_end(chrono: Seq<u64>, to: Option<u64>) -> bool {
    match to {
        Some(t) => first_pos(chrono, t) >= 0,
        None => false,
    }
}

/// After a page, given newest first as the platform returns it: an empty page
/// ends the history; otherwise its messages are taken oldest first up to and
/// including the end boundary.
pub open spec fn spec_on_page(s: RangeState, page: Seq<u64>) -> RangeState {
    let chrono = page.reverse();
    if page.len() == 0 {
        RangeState { done: true, ..s }
    } else {
        RangeState {
            collected: s.collected + chrono.subrange(0, page_take(chrono, s.to)),
            done: page_has_end(chrono, s.to),
            found_end: page_has_end(chrono, s.to),
            ..s
        }
    }
}

/// Resolves a range of messages of one channel from its two boundaries, or from
/// one boundary to the end of the channel, page by page.
pub struct RangeResolver {
    from: u64,
    to: Option<u64>,
    collected: Vec<u64>,
    done: bool,
    found_end: bool,
}

impl View for RangeResolver {
    type V = RangeState;

    closed spec fn view(&self) -> RangeState {
        RangeState {
            from: self.from,
            to: self.to,
            collected: self.collected@,
            done: self.done,
            found_end: self.found_end,
        }
    }
}

proof fn lemma_first_pos_at(s: Seq<u64>, x: u64, i: int)
    requires
        0 <= i < s.len(),
        s[i] == x,
        forall|j: int| 0 <= j < i ==> s[j] != x,
    ensures
        first_pos(s, x) == i,
    decreases i,
{
    if i > 0 {
        lemma_first_pos_at(s.drop_first(), x, i - 1);
    }
}

proof fn lemma_first_pos_absent(s: Seq<u64>, x: u64)
    requires
        forall|j: int| 0 <= j < s.len() ==> s[j] != x,
    ensures
        first_pos(s, x) == -1,
    decreases s.len(),
{
    if s.len() > 0 {
        lemma_first_pos_absent(s.drop_first(), x);
    }
}

impl RangeResolver {
    /// Starts a resolution; the boundaries are put in chronological order.
    pub fn new(from: u64, to: Option<u64>) -> (r: RangeResolver)
        ensures
            r@ == spec_resolver_new(from, to),
    {
        let (f, t) = match to {
            Some(t) => if from > t { (t, Some(from)) } else { (from, Some(t)) },
            None => (from, None),
        };
        RangeResolver { from: f, to: t, collected: Vec::new(), done: false, found_end: false }
    }

    /// The message to fetch first: the earlier boundary.
    pub fn first_target(&self) -> (r: u64)
        ensures
            r == self@.from,
    {
        self.from
    }

    /// Records the first boundary once fetched.
    pub fn on_first(&mut self, id: u64)
        ensures
            final(self)@ == spec_on_first(old(self)@, id),
    {
        self.collected.push(id);
        let same = match self.to {
            Some(t) => t == self.from,
            None => false,
        };
        self.done = same;
        self.found_end = same;
    }

    /// The identifier after which to fetch the next page, or `None` once resolution has stopped.
    pub fn next_after(&self) -> (r: Option<u64>)
        ensures
            self@.done || self@.collected.len() == 0 ==> r is None,
            !self@.done && self@.collected.len() > 0 ==> r == Some(self@.collected.last()),
    {
        if self.done || self.collected.len() == 0 {
            None
        } else {
            Some(self.collected[self.collected.len() - 1])
        }
    }

    /// Takes in a page given newest first. The result holds the positions in the
    /// page of the messages that join the range, oldest first.
    pub fn on_page(&mut self, page: &Vec<u64>) -> (r: Vec<usize>)
        ensures
            final(self)@ == spec_on_page(old(self)@, page@),
            r@.len() == page_take(page@.reverse(), old(self)@.to),
            forall|k: int| 0 <= k < r@.len() ==> #[trigger] r@[k] == page@.len() - 1 - k,
    {
        let n = page.len();
        let ghost chrono = page@.reverse();
        let mut positions: Vec<usize> = Vec::new();
        if n == 0 {
            self.done = true;
            return positions;
        }
        let ghost start = self.collected@;
        let mut found = false;
        let mut k: usize = 0;
        while k < n && !found
            invariant
                n == page@.len(),
                chrono == page@.reverse(),
                0 <= k <= n,
                positions@.len() == k,
                forall|j: int| 0 <= j < k ==> #[trigger] positions@[j] == n - 1 - j,
                self.collected@ == start + chrono.subrange(0, k as int),
                self.to == old(self).to,
                self.from == old(self).from,
                self.done == old(self).done,
                self.found_end == old(self).found_end,
                start == old(self).collected@,
                !found ==> forall|j: int| 0 <= j < k ==> Some(#[trigger] chrono[j]) != self.to,
                found ==> k > 0 && Some(chrono[k - 1]) == self.to
                    && forall|j: int| 0 <= j < k - 1 ==> Some(#[trigger] chrono[j]) != self.to,
            decreases n - k,
        {
            let id = page[n - 1 - k];
            assert(id == chrono[k as int]);
            positions.push(n - 1 - k);
            self.collected.push(id);
            assert(chrono.subrange(0, k + 1) =~= chrono.subrange(0, k as int).push(id));
            match self.to {
                Some(t) => {
                    if id == t {
                        found = true;
                    }
                },
                None => {},
            }
            k = k + 1;
        }
        proof {
            if found {
                lemma_first_pos_at(chrono, self.to.unwrap(), k - 1);
            } else {
                assert(k == n);
                if let Some(t) = self.to {
                    lemma_first_pos_absent(chrono, t);
                }
            }
        }
        self.done = found;
        self.found_end = found;
        positions
    }

    /// Whether resolution has stopped.
    pub fn is_done(&self) -> (r: bool)
        ensures
            r == self@.done,
    {
        self.done
    }

    /// Whether the end boundary was met; when resolution stopped without it,
    /// the history ran out and the range holds what was collected.
    pub fn found_end(&self) -> (r: bool)
        ensures
            r == self@.found_end,
    {
        self.found_end
    }

    /// The identifiers collected so far, oldest first.
    pub fn collected(&self) -> (r: &Vec<u64>)
        ensures
            r@ == self@.collected,
    {
        &self.collected
    }
}

/// Swapping the two boundaries of a range changes nothing: resolution starts from
/// the same state, so every later step, and the sequence it yields, is the same.
pub proof fn law_boundary_order_irrelevant(a: u64, b: u64)
    ensures
        spec_resolver_new(a, Some(b)) == spec_resolver_new(b, Some(a)),
        spec_resolver_new(a, Some(b)).from <= spec_resolver_new(a, Some(b)).to.unwrap(),
{
}

/// A range whose two boundaries are the same message resolves to that message
/// alone, with no page fetched.
pub proof fn law_single_message_range(m: u64)
    ensures
        spec_on_first(spec_resolver_new(m, Some(m)), m).collected == seq![m],
        spec_on_first(spec_resolver_new(m, Some(m)), m).done,
{
    assert(Seq::<u64>::empty().push(m) =~= seq![m]);
}

/// Collects a channel's whole history, newest page first, walking backward.
pub struct HistoryCollector {
    oldest: Option<u64>,
    count: usize,
    done: bool,
}

/// The next page to ask for.
#[derive(Debug, Clone, Copy, PartialEq, Eq, Structural)]
pub enum HistoryRequest {
    /// The newest page of the channel.
    Latest,
    /// The page just before this message.
    Before(u64),
    /// The history is exhausted.
    Finished,
}

impl HistoryCollector {
    pub closed spec fn spec_oldest(&self) -> Option<u64> {
        self.oldest
    }

    pub closed spec fn spec_done(&self) -> bool {
        self.done
    }

    pub closed spec fn spec_count(&self) -> nat {
        self.count as nat
    }

    pub fn new() -> (r: HistoryCollector)
        ensures
            r.spec_oldest() is None,
            !r.spec_done(),
            r.spec_count() == 0,
    {
        HistoryCollector { oldest: None, count: 0, done: false }
    }

    pub fn next_request(&self) -> (r: HistoryRequest)
        ensures
            self.spec_done() ==> r == HistoryRequest::Finished,
            !self.spec_done() && self.spec_oldest() is None ==> r == HistoryRequest::Latest,
            !self.spec_done() && self.spec_oldest() is Some ==> r == HistoryRequest::Before(self.spec_oldest().unwrap()),
    {
        if self.done {
            HistoryRequest::Finished
        } else {
            match self.oldest {
                None => HistoryRequest::Latest,
                Some(id) => HistoryRequest::Before(id),
            }
        }
    }

    /// Takes in a page given newest first: an empty page ends the history,
    /// otherwise its last (oldest) message is where the next page ends.
    pub fn on_page(&mut self, page: &Vec<u64>)
        requires
            !old(self).spec_done(),
            old(self).spec_count() + page@.len() <= usize::MAX,
        ensures
            page@.len() == 0 ==> final(self).spec_done() && final(self).spec_oldest() == old(self).spec_oldest(),
            page@.len() > 0 ==> !final(self).spec_done() && final(self).spec_oldest() == Some(page@.last()),
            final(self).spec_count() == old(self).spec_count() + page@.len(),
    {
        if page.len() == 0 {
            self.done = true;
        } else {
            self.oldest = Some(page[page.len() - 1]);
            self.count = self.count + page.len();
        }
    }

    /// How many messages were collected.
    pub fn count(&self) -> (r: usize)
        ensures
            r == self.spec_count(),
    {
        self.count
    }
}

/// Puts messages gathered newest first into chronological order.
pub fn into_chronological<T>(v: Vec<T>) -> (r: Vec<T>)
    ensures
        r@ == v@.reverse(),
{
    let mut v = v;
    let ghost orig = v@;
    let mut r: Vec<T> = Vec::new();
    while v.len() > 0
        invariant
            v@ == orig.subrange(0, v@.len() as int),
            r@ == orig.subrange(v@.len() as int, orig.len() as int).reverse(),
            v@.len() <= orig.len(),
        decreases v@.len(),
    {
        let x = v.pop().unwrap();
        r.push(x);
        assert(r@ =~= orig.subrange(v@.len() as int, orig.len() as int).reverse());
    }
    assert(orig.subrange(0, orig.len() as int) =~= orig);
    r
}

} // verus!

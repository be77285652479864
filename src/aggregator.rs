//! The aggregator: counts the cameras in use and owns the one idle inhibitor.
use vstd::prelude::*;
use crate::activity::ActivityKind;

verus! {

/// The aggregator seen as numbers: how many cameras are open, and whether it
/// holds the inhibitor.
pub struct Usage {
    pub count: nat,
    pub inhibited: bool,
}

/// The state at start: nothing open, nothing held.
pub open spec fn idle() -> Usage {
    Usage { count: 0, inhibited: false }
}

/// The inhibitor is held exactly while some camera is open.
pub open spec fn consistent(s: Usage) -> bool {
    &&& s.inhibited <==> s.count > 0
    &&& s.count <= usize::MAX
}

/// Adds one to the count, stopping at the largest `usize`.
pub open spec fn count_up(c: nat) -> nat {
    if c < usize::MAX {
        c + 1
    } else {
        c
    }
}

/// Takes one from the count, stopping at zero.
pub open spec fn count_down(c: nat) -> nat {
    if c > 0 {
        (c - 1) as nat
    } else {
        0
    }
}

/// An event calls for a new inhibitor: an open while none is held.
pub open spec fn creates(s: Usage, k: ActivityKind) -> bool {
    k == ActivityKind::Opened && !s.inhibited
}

/// An event calls for the held inhibitor to be destroyed: a close that brings
/// the count to zero while one is held.
pub open spec fn destroys(s: Usage, k: ActivityKind) -> bool {
    k == ActivityKind::Closed && s.inhibited && count_down(s.count) == 0
}

/// The state after one event.
pub open spec fn next(s: Usage, k: ActivityKind) -> Usage {
    match k {
        ActivityKind::Opened => Usage { count: count_up(s.count), inhibited: true },
        ActivityKind::Closed => Usage {
            count: count_down(s.count),
            inhibited: s.inhibited && !destroys(s, k),
        },
    }
}

/// The state after a sequence of events, taken in order.
pub open spec fn run(s: Usage, ks: Seq<ActivityKind>) -> Usage
    decreases ks.len(),
{
    if ks.len() == 0 {
        s
    } else {
        run(next(s, ks[0]), ks.drop_first())
    }
}

/// How many inhibitors a sequence of events creates.
pub open spec fn create_count(s: Usage, ks: Seq<ActivityKind>) -> nat
    decreases ks.len(),
{
    if ks.len() == 0 {
        0
    } else {
        (if creates(s, ks[0]) { 1nat } else { 0nat }) + create_count(next(s, ks[0]), ks.drop_first())
    }
}

/// How many inhibitors a sequence of events destroys.
pub open spec fn destroy_count(s: Usage, ks: Seq<ActivityKind>) -> nat
    decreases ks.len(),
{
    if ks.len() == 0 {
        0
    } else {
        (if destroys(s, ks[0]) { 1nat } else { 0nat }) + destroy_count(next(s, ks[0]), ks.drop_first())
    }
}

/// How many times the count goes from zero to positive along a sequence.
pub open spec fn rise_count(s: Usage, ks: Seq<ActivityKind>) -> nat
    decreases ks.len(),
{
    if ks.len() == 0 {
        0
    } else {
        (if s.count == 0 && next(s, ks[0]).count > 0 { 1nat } else { 0nat })
            + rise_count(next(s, ks[0]), ks.drop_first())
    }
}

/// How many times the count goes from positive to zero along a sequence.
pub open spec fn fall_count(s: Usage, ks: Seq<ActivityKind>) -> nat
    decreases ks.len(),
{
    if ks.len() == 0 {
        0
    } else {
        (if s.count > 0 && next(s, ks[0]).count == 0 { 1nat } else { 0nat })
            + fall_count(next(s, ks[0]), ks.drop_first())
    }
}

/// `n` opens in a row.
pub open spec fn opens(n: nat) -> Seq<ActivityKind> {
    Seq::new(n, |i: int| ActivityKind::Opened)
}

/// One event keeps the inhibitor held exactly while some camera is open.
pub proof fn lemma_step_consistent(s: Usage, k: ActivityKind)
    requires
        consistent(s),
    ensures
        consistent(next(s, k)),
{
}

/// Every state reached from a consistent one is consistent.
pub proof fn lemma_run_consistent(s: Usage, ks: Seq<ActivityKind>)
    requires
        consistent(s),
    ensures
        consistent(run(s, ks)),
    decreases ks.len(),
{
    if ks.len() > 0 {
        lemma_run_consistent(next(s, ks[0]), ks.drop_first());
    }
}

/// In every state reachable from the start, the inhibitor is held if and only
/// if the count is positive.
pub proof fn lemma_reachable_consistent(ks: Seq<ActivityKind>)
    ensures
        run(idle(), ks).inhibited <==> run(idle(), ks).count > 0,
{
    lemma_run_consistent(idle(), ks);
}

/// A close while nothing is open leaves the count at zero and destroys nothing.
pub proof fn lemma_close_at_zero(s: Usage)
    requires
        consistent(s),
        s.count == 0,
    ensures
        next(s, ActivityKind::Closed).count == 0,
        !destroys(s, ActivityKind::Closed),
{
}

/// From a consistent state, inhibitors are created exactly when the count goes
/// from zero to positive and destroyed exactly when it goes back to zero.
pub proof fn lemma_transitions_from(s: Usage, ks: Seq<ActivityKind>)
    requires
        consistent(s),
    ensures
        create_count(s, ks) == rise_count(s, ks),
        destroy_count(s, ks) == fall_count(s, ks),
    decreases ks.len(),
{
    if ks.len() > 0 {
        lemma_transitions_from(next(s, ks[0]), ks.drop_first());
    }
}

/// Along any sequence of events from the start, the number of inhibitors
/// created equals the number of times the count leaves zero, and the number
/// destroyed equals the number of times it returns to zero.
pub proof fn lemma_exactly_once_transitions(ks: Seq<ActivityKind>)
    ensures
        create_count(idle(), ks) == rise_count(idle(), ks),
        destroy_count(idle(), ks) == fall_count(idle(), ks),
{
    lemma_transitions_from(idle(), ks);
}

/// Opens while the inhibitor is held only add to the count.
pub proof fn lemma_opens_while_held(s: Usage, n: nat)
    requires
        consistent(s),
        s.inhibited,
        s.count + n <= usize::MAX,
    ensures
        run(s, opens(n)).count == s.count + n,
        run(s, opens(n)).inhibited,
        create_count(s, opens(n)) == 0,
    decreases n,
{
    if n > 0 {
        assert(opens(n).drop_first() =~= opens((n - 1) as nat));
        lemma_opens_while_held(next(s, ActivityKind::Opened), (n - 1) as nat);
    }
}

/// `n` opens from the start, with no close between them, create exactly one
/// inhibitor and leave the count at `n` (as long as `n` fits in the count).
pub proof fn lemma_repeated_opens(n: nat)
    requires
        1 <= n <= usize::MAX,
    ensures
        run(idle(), opens(n)).count == n,
        run(idle(), opens(n)).inhibited,
        create_count(idle(), opens(n)) == 1,
{
    assert(opens(n)[0] == ActivityKind::Opened);
    assert(opens(n).drop_first() =~= opens((n - 1) as nat));
    lemma_opens_while_held(next(idle(), ActivityKind::Opened), (n - 1) as nat);
}

/// Two opens and one close from the start leave the inhibitor held with a count
/// of one and destroy nothing; the second close then destroys it exactly once.
/// The aggregator does not tell devices apart, so which device closes first
/// does not matter.
pub proof fn lemma_shared_inhibitor()
    ensures
        run(idle(), seq![ActivityKind::Opened, ActivityKind::Opened, ActivityKind::Closed]).count
            == 1,
        run(
            idle(),
            seq![ActivityKind::Opened, ActivityKind::Opened, ActivityKind::Closed],
        ).inhibited,
        destroy_count(
            idle(),
            seq![ActivityKind::Opened, ActivityKind::Opened, ActivityKind::Closed],
        ) == 0,
        destroy_count(
            idle(),
            seq![
                ActivityKind::Opened,
                ActivityKind::Opened,
                ActivityKind::Closed,
                ActivityKind::Closed,
            ],
        ) == 1,
        !run(
            idle(),
            seq![
                ActivityKind::Opened,
                ActivityKind::Opened,
                ActivityKind::Closed,
                ActivityKind::Closed,
            ],
        ).inhibited,
{
    let o = ActivityKind::Opened;
    let c = ActivityKind::Closed;
    let four = seq![o, o, c, c];
    let three = seq![o, o, c];
    assert(four.drop_first() =~= seq![o, c, c]);
    assert(seq![o, c, c].drop_first() =~= seq![c, c]);
    assert(seq![c, c].drop_first() =~= seq![c]);
    assert(seq![c].drop_first() =~= Seq::<ActivityKind>::empty());
    assert(three.drop_first() =~= seq![o, c]);
    assert(seq![o, c].drop_first() =~= seq![c]);
    let s1 = next(idle(), o);
    let s2 = next(s1, o);
    let s3 = next(s2, c);
    let s4 = next(s3, c);
    let e = Seq::<ActivityKind>::empty();
    assert(seq![c][0] == c);
    assert(seq![c, c][0] == c);
    assert(seq![o, c][0] == o);
    assert(seq![o, c, c][0] == o);
    assert(three[0] == o);
    assert(four[0] == o);
    assert(s3.count == 1 && s3.inhibited);
    assert(run(s4, e) == s4);
    assert(run(s3, seq![c]) == s4);
    assert(run(s3, e) == s3);
    assert(run(s2, seq![c]) == s3);
    assert(run(s1, seq![o, c]) == s3);
    assert(run(idle(), three) == s3);
    assert(run(s2, seq![c, c]) == s4);
    assert(run(s1, seq![o, c, c]) == s4);
    assert(run(idle(), four) == s4);
    assert(destroy_count(s4, e) == 0);
    assert(destroy_count(s3, e) == 0);
    assert(destroy_count(s3, seq![c]) == 1);
    assert(destroy_count(s2, seq![c]) == 0);
    assert(destroy_count(s1, seq![o, c]) == 0);
    assert(destroy_count(idle(), three) == 0);
    assert(destroy_count(s2, seq![c, c]) == 1);
    assert(destroy_count(s1, seq![o, c, c]) == 1);
    assert(destroy_count(idle(), four) == 1);
}

/// Counts the cameras in use and holds the single shared inhibitor `H` while
/// any is.
pub struct Aggregator<H> {
    count: usize,
    handle: Option<H>,
}

impl<H> View for Aggregator<H> {
    type V = Usage;

    closed spec fn view(&self) -> Usage {
        Usage { count: self.count as nat, inhibited: self.handle is Some }
    }
}

impl<H> Aggregator<H> {
    /// The inhibitor held, if any.
    pub closed spec fn held(&self) -> Option<H> {
        self.handle
    }

    /// An aggregator with nothing open and nothing held.
    pub fn new() -> (r: Self)
        ensures
            r@ == idle(),
            r.held() is None,
    {
        Aggregator { count: 0, handle: None }
    }

    /// How many cameras are open.
    pub fn count(&self) -> (r: usize)
        ensures
            r as nat == self@.count,
    {
        self.count
    }

    /// Whether the inhibitor is held.
    pub fn is_inhibited(&self) -> (r: bool)
        ensures
            r == self@.inhibited,
    {
        self.handle.is_some()
    }

    /// Whether an open now must first create an inhibitor.
    pub fn needs_inhibitor(&self) -> (r: bool)
        ensures
            r == creates(self@, ActivityKind::Opened),
    {
        self.handle.is_none()
    }

    /// Records that a camera was opened. `created` is the inhibitor made for
    /// this open: one exactly when `needs_inhibitor` said so.
    pub fn opened(&mut self, created: Option<H>)
        requires
            consistent(old(self)@),
            created is Some <==> creates(old(self)@, ActivityKind::Opened),
        ensures
            final(self)@ == next(old(self)@, ActivityKind::Opened),
            consistent(final(self)@),
            final(self).held() == (if old(self).held() is Some {
                old(self).held()
            } else {
                created
            }),
    {
        if self.handle.is_none() {
            self.handle = created;
        }
        if self.count < usize::MAX {
            self.count = self.count + 1;
        }
    }

    /// Records that a camera was closed. When that was the last user, the held
    /// inhibitor is handed back to be destroyed.
    pub fn closed(&mut self) -> (released: Option<H>)
        requires
            consistent(old(self)@),
        ensures
            final(self)@ == next(old(self)@, ActivityKind::Closed),
            consistent(final(self)@),
            released is Some <==> destroys(old(self)@, ActivityKind::Closed),
            released is Some ==> released == old(self).held(),
            final(self).held() == (if released is Some {
                None
            } else {
                old(self).held()
            }),
            old(self)@.count == 0 ==> final(self)@.count == 0 && released is None,
    {
        if self.count > 0 {
            self.count = self.count - 1;
        }
        if self.count == 0 {
            self.handle.take()
        } else {
            None
        }
    }
}

} // verus!

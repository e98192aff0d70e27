//! Sliding-window rate limiter for automatic reconnects.
//!
//! After an unexpected session drop the orchestrator may reconnect on its
//! own, but a persistently failing backend must not cause a reconnect storm:
//! at most [`MAX_ATTEMPTS`] automatic attempts are admitted within any
//! trailing window of [`WINDOW_SECS`] seconds. A discovery event is a
//! deliberate human action and resets the budget ([`ReconnectPolicy::clear`]).
//!
//! The verified invariant is stated over the whole log of attempts admitted
//! since the last reset (`PolicyView::admitted`, a ghost log): every trailing
//! window holds at most [`MAX_ATTEMPTS`] of them. The executable state keeps
//! only the suffix of that log that has not yet been pruned.

use vstd::prelude::*;

verus! {

/// Width of the rate-limit window, in seconds.
pub const WINDOW_SECS: u64 = 600;

/// Most automatic reconnect attempts admitted within one trailing window.
pub const MAX_ATTEMPTS: usize = 5;

/// `s` is ordered, oldest first.
pub open spec fn time_sorted(s: Seq<u64>) -> bool {
    forall|i: int, j: int| 0 <= i <= j < s.len() ==> s[i] <= s[j]
}

/// How many entries of `s` lie in the trailing window ending at `t`,
/// that is, in `[t - WINDOW_SECS, t]`.
pub open spec fn win_count(s: Seq<u64>, t: int) -> int
    decreases s.len(),
{
    if s.len() == 0 {
        0
    } else {
        win_count(s.drop_last(), t) + if t - WINDOW_SECS <= s.last() <= t {
            1int
        } else {
            0int
        }
    }
}

/// Abstract state of the rate limiter.
///
/// `admitted` is the full ordered log of attempts admitted since the last
/// reset; `pending` is the suffix of it still held by the executable state;
/// `clock` is the largest time the limiter has seen.
#[verifier::ext_equal]
pub ghost struct PolicyView {
    pub pending: Seq<u64>,
    pub admitted: Seq<u64>,
    pub clock: u64,
}

/// Index in `admitted` where the retained suffix `pending` starts.
pub open spec fn start_index(p: PolicyView) -> int {
    p.admitted.len() - p.pending.len()
}

/// Well-formedness of the limiter state. The last conjunct is the rate
/// bound itself: no trailing window holds more than `MAX_ATTEMPTS` admitted
/// attempts.
pub open spec fn policy_wf(p: PolicyView) -> bool {
    &&& time_sorted(p.admitted)
    &&& forall|i: int| 0 <= i < p.admitted.len() ==> p.admitted[i] <= p.clock
    &&& p.pending.len() <= p.admitted.len()
    &&& p.pending =~= p.admitted.skip(start_index(p))
    &&& forall|i: int| 0 <= i < start_index(p) ==> p.admitted[i] + WINDOW_SECS < p.clock
    &&& forall|t: int| win_count(p.admitted, t) <= MAX_ATTEMPTS
}

/// Lazy pruning: drops leading entries older than the window ending at `now`.
pub open spec fn spec_prune(ts: Seq<u64>, now: u64) -> Seq<u64>
    decreases ts.len(),
{
    if ts.len() > 0 && now - ts[0] > WINDOW_SECS {
        spec_prune(ts.drop_first(), now)
    } else {
        ts
    }
}

/// The limiter after pruning at `now` without admitting an attempt.
pub open spec fn pruned(p: PolicyView, now: u64) -> PolicyView {
    PolicyView { pending: spec_prune(p.pending, now), admitted: p.admitted, clock: now }
}

/// Whether an attempt at `now` is admitted: fewer than `MAX_ATTEMPTS`
/// entries survive pruning.
pub open spec fn allows(p: PolicyView, now: u64) -> bool {
    spec_prune(p.pending, now).len() < MAX_ATTEMPTS
}

/// The limiter after pruning at `now` and admitting an attempt at `now`.
pub open spec fn recorded(p: PolicyView, now: u64) -> PolicyView {
    PolicyView {
        pending: spec_prune(p.pending, now).push(now),
        admitted: p.admitted.push(now),
        clock: now,
    }
}

/// The limiter after a discovery reset: history and log are empty.
pub open spec fn cleared(p: PolicyView) -> PolicyView {
    PolicyView { pending: Seq::empty(), admitted: Seq::empty(), clock: p.clock }
}

proof fn lemma_win_count_concat(a: Seq<u64>, b: Seq<u64>, t: int)
    ensures
        win_count(a + b, t) == win_count(a, t) + win_count(b, t),
    decreases b.len(),
{
    if b.len() == 0 {
        assert(a + b =~= a);
    } else {
        lemma_win_count_concat(a, b.drop_last(), t);
        assert((a + b).drop_last() =~= a + b.drop_last());
        assert((a + b).last() == b.last());
    }
}

proof fn lemma_win_count_zero(s: Seq<u64>, t: int)
    requires
        forall|i: int| 0 <= i < s.len() ==> !(t - WINDOW_SECS <= #[trigger] s[i] <= t),
    ensures
        win_count(s, t) == 0,
    decreases s.len(),
{
    if s.len() > 0 {
        assert(forall|i: int|
            0 <= i < s.drop_last().len() ==> s.drop_last()[i] == s[i]);
        lemma_win_count_zero(s.drop_last(), t);
        assert(s.last() == s[s.len() - 1]);
    }
}

proof fn lemma_win_count_full(s: Seq<u64>, t: int)
    requires
        forall|i: int| 0 <= i < s.len() ==> t - WINDOW_SECS <= #[trigger] s[i] <= t,
    ensures
        win_count(s, t) == s.len(),
    decreases s.len(),
{
    if s.len() > 0 {
        assert(forall|i: int|
            0 <= i < s.drop_last().len() ==> s.drop_last()[i] == s[i]);
        lemma_win_count_full(s.drop_last(), t);
        assert(s.last() == s[s.len() - 1]);
    }
}

proof fn lemma_win_count_mono(s: Seq<u64>, t: int, u: int)
    requires
        u <= t,
        forall|i: int| 0 <= i < s.len() ==> #[trigger] s[i] <= u,
    ensures
        win_count(s, t) <= win_count(s, u),
    decreases s.len(),
{
    if s.len() > 0 {
        assert(forall|i: int|
            0 <= i < s.drop_last().len() ==> s.drop_last()[i] == s[i]);
        lemma_win_count_mono(s.drop_last(), t, u);
        assert(s.last() == s[s.len() - 1]);
    }
}

proof fn lemma_win_count_push(s: Seq<u64>, x: u64, t: int)
    ensures
        win_count(s.push(x), t) == win_count(s, t) + if t - WINDOW_SECS <= x <= t {
            1int
        } else {
            0int
        },
{
    assert(s.push(x).drop_last() =~= s);
    assert(s.push(x).last() == x);
}

/// Shape of lazy pruning: the result is a suffix of the input, every entry
/// dropped was older than the window, and the first surviving entry (if any)
/// is inside it.
proof fn lemma_prune_shape(ts: Seq<u64>, now: u64)
    ensures
        spec_prune(ts, now).len() <= ts.len(),
        spec_prune(ts, now) =~= ts.skip(ts.len() - spec_prune(ts, now).len()),
        forall|i: int|
            0 <= i < ts.len() - spec_prune(ts, now).len() ==> now - ts[i] > WINDOW_SECS,
        spec_prune(ts, now).len() > 0 ==> now - spec_prune(ts, now)[0] <= WINDOW_SECS,
    decreases ts.len(),
{
    if ts.len() > 0 && now - ts[0] > WINDOW_SECS {
        lemma_prune_shape(ts.drop_first(), now);
        let rest = ts.drop_first();
        let d = rest.len() - spec_prune(rest, now).len();
        assert(rest =~= ts.skip(1));
        assert(rest.skip(d) =~= ts.skip(1 + d));
        assert forall|i: int|
            0 <= i < ts.len() - spec_prune(ts, now).len() implies now - ts[i]
            > WINDOW_SECS by {
            if i > 0 {
                assert(rest[i - 1] == ts[i]);
                assert(now - rest[i - 1] > WINDOW_SECS);
            }
        }
    } else {
        assert(ts.skip(0) =~= ts);
    }
}

/// Pruning keeps the limiter well formed, and the number of surviving
/// entries is exactly the number of admitted attempts in the window ending
/// at `now`.
pub proof fn lemma_prune_wf(p: PolicyView, now: u64)
    requires
        policy_wf(p),
        p.clock <= now,
    ensures
        policy_wf(pruned(p, now)),
        win_count(p.admitted, now as int) == spec_prune(p.pending, now).len(),
        spec_prune(p.pending, now).len() <= MAX_ATTEMPTS,
{
    let k = start_index(p);
    let ts = p.pending;
    let pr = spec_prune(ts, now);
    lemma_prune_shape(ts, now);
    let j = ts.len() - pr.len();
    assert forall|i: int| 0 <= i < ts.len() implies ts[i] == p.admitted[k + i] by {
        assert(ts[i] == p.admitted.skip(k)[i]);
    }
    assert forall|i: int| 0 <= i < pr.len() implies pr[i] == p.admitted[k + j + i] by {
        assert(pr[i] == ts.skip(j)[i]);
    }
    assert(pr =~= p.admitted.skip(k + j));

    // Every admitted attempt before index k + j is out of the window ending
    // at `now`.
    assert forall|i: int| 0 <= i < k + j implies p.admitted[i] + WINDOW_SECS < now by {
        if i < k {
            assert(p.admitted[i] + WINDOW_SECS < p.clock);
        } else {
            assert(ts[i - k] == p.admitted[i]);
            assert(now - ts[i - k] > WINDOW_SECS);
        }
    }

    // Split the admitted log at k + j: everything before is out of the
    // window, everything after is inside it.
    let front = p.admitted.take(k + j);
    assert(p.admitted =~= front + pr);
    lemma_win_count_concat(front, pr, now as int);
    assert forall|i: int| 0 <= i < front.len() implies !(now - WINDOW_SECS <= #[trigger] front[i] <= now) by {
        assert(front[i] == p.admitted[i]);
        assert(p.admitted[i] + WINDOW_SECS < now);
    }
    lemma_win_count_zero(front, now as int);
    assert forall|i: int| 0 <= i < pr.len() implies now - WINDOW_SECS <= #[trigger] pr[i] <= now by {
        assert(pr[i] == p.admitted[k + j + i]);
        assert(pr[0] == p.admitted[k + j]);
        assert(p.admitted[k + j] <= p.admitted[k + j + i]);
        assert(now - pr[0] <= WINDOW_SECS);
        assert(pr[i] <= p.clock);
    }
    lemma_win_count_full(pr, now as int);
    assert(win_count(p.admitted, now as int) == pr.len());
    assert(policy_wf(pruned(p, now))) by {
        assert(pruned(p, now).pending =~= pruned(p, now).admitted.skip(
            start_index(pruned(p, now)),
        ));
    }
}

/// Admitting an attempt at `now` after pruning keeps the limiter well
/// formed; in particular no trailing window ever exceeds `MAX_ATTEMPTS`.
pub proof fn lemma_record_wf(p: PolicyView, now: u64)
    requires
        policy_wf(p),
        p.clock <= now,
        allows(p, now),
    ensures
        policy_wf(recorded(p, now)),
{
    lemma_prune_wf(p, now);
    let k = start_index(p);
    let ts = p.pending;
    let pr = spec_prune(ts, now);
    lemma_prune_shape(ts, now);
    let j = ts.len() - pr.len();
    let r = recorded(p, now);
    assert forall|i: int| 0 <= i < ts.len() implies ts[i] == p.admitted[k + i] by {
        assert(ts[i] == p.admitted.skip(k)[i]);
    }
    assert forall|i: int| 0 <= i < pr.len() implies pr[i] == p.admitted[k + j + i] by {
        assert(pr[i] == ts.skip(j)[i]);
    }
    assert(start_index(r) == k + j);
    assert(r.pending =~= r.admitted.skip(k + j));
    assert forall|a: int, b: int|
        0 <= a <= b < r.admitted.len() implies r.admitted[a] <= r.admitted[b] by {
        if b < p.admitted.len() {
            assert(p.admitted[a] <= p.admitted[b]);
        } else {
            assert(r.admitted[b] == now);
            if a < p.admitted.len() {
                assert(r.admitted[a] == p.admitted[a]);
                assert(p.admitted[a] <= p.clock);
            }
        }
    }
    assert(time_sorted(r.admitted));
    assert forall|i: int| 0 <= i < r.admitted.len() implies r.admitted[i] <= r.clock by {
        if i < p.admitted.len() {
            assert(p.admitted[i] <= p.clock);
        }
    }
    assert forall|i: int| 0 <= i < start_index(r) implies r.admitted[i] + WINDOW_SECS
        < r.clock by {
        assert(r.admitted[i] == p.admitted[i]);
        if i < k {
            assert(p.admitted[i] + WINDOW_SECS < p.clock);
        } else {
            assert(ts[i - k] == p.admitted[i]);
            assert(now - ts[i - k] > WINDOW_SECS);
        }
    }
    assert forall|t: int| win_count(r.admitted, t) <= MAX_ATTEMPTS by {
        lemma_win_count_push(p.admitted, now, t);
        if t - WINDOW_SECS <= now <= t {
            lemma_win_count_mono(p.admitted, t, now as int);
        }
    }
}

/// A reset limiter is well formed: both the history and the log are empty.
pub proof fn lemma_cleared_wf(p: PolicyView)
    ensures
        policy_wf(cleared(p)),
{
    assert(cleared(p).pending =~= cleared(p).admitted.skip(0));
}

/// LAW: for every instant `t`, the automatic reconnect attempts admitted
/// since the last discovery reset that lie in the trailing window
/// `[t - WINDOW_SECS, t]` number at most `MAX_ATTEMPTS`. This holds of every
/// well-formed limiter state, hence of every sequence of drops.
pub proof fn lemma_window_bound(p: PolicyView, t: int)
    requires
        policy_wf(p),
    ensures
        win_count(p.admitted, t) <= MAX_ATTEMPTS,
{
}

/// Bounded history of automatic reconnect attempts.
pub struct ReconnectPolicy {
    times: Vec<u64>,
    attempts: Ghost<Seq<u64>>,
    clock: Ghost<u64>,
}

impl View for ReconnectPolicy {
    type V = PolicyView;

    closed spec fn view(&self) -> PolicyView {
        PolicyView { pending: self.times@, admitted: self.attempts@, clock: self.clock@ }
    }
}

impl ReconnectPolicy {
    pub open spec fn wf(&self) -> bool {
        policy_wf(self@)
    }

    /// A fresh limiter with an empty history.
    pub fn new() -> (r: ReconnectPolicy)
        ensures
            r.wf(),
            r@ =~= (PolicyView { pending: Seq::empty(), admitted: Seq::empty(), clock: 0u64 }),
    {
        let r = ReconnectPolicy {
            times: Vec::new(),
            attempts: Ghost(Seq::empty()),
            clock: Ghost(0u64),
        };
        proof {
            assert(r@.pending =~= r@.admitted.skip(0));
        }
        r
    }

    /// Discovery reset: a human-initiated takeover restores the full
    /// automatic-reconnect budget.
    pub fn clear(&mut self)
        ensures
            final(self).wf(),
            final(self)@ =~= cleared(old(self)@),
    {
        self.times = Vec::new();
        self.attempts = Ghost(Seq::empty());
        proof {
            assert(self@.pending =~= self@.admitted.skip(0));
        }
    }

    /// Prunes entries older than the window ending at `now` and advances the
    /// limiter's clock, without recording an attempt.
    pub fn prune(&mut self, now: u64)
        requires
            old(self).wf(),
            old(self)@.clock <= now,
        ensures
            final(self).wf(),
            final(self)@ =~= pruned(old(self)@, now),
    {
        let ghost p0 = self@;
        while self.times.len() > 0 && now - self.times[0] > WINDOW_SECS
            invariant
                policy_wf(p0),
                p0.clock <= now,
                self.attempts@ == p0.admitted,
                self.clock@ == p0.clock,
                self.times@.len() <= p0.pending.len(),
                self.times@ =~= p0.pending.skip(p0.pending.len() - self.times@.len()),
                spec_prune(self.times@, now) =~= spec_prune(p0.pending, now),
            decreases self.times.len(),
        {
            proof {
                let off = p0.pending.len() - self.times@.len();
                assert(self.times@[0] == p0.pending[off]);
                assert(p0.pending[off] == p0.admitted[start_index(p0) + off]);
                assert(self.times@[0] <= p0.clock);
                assert(self.times@.drop_first() =~= p0.pending.skip(off + 1));
            }
            self.times.remove(0);
            proof {
                assert(self.times@ =~= p0.pending.skip(
                    p0.pending.len() - self.times@.len(),
                ));
            }
        }
        proof {
            if self.times@.len() > 0 {
                let off = p0.pending.len() - self.times@.len();
                assert(self.times@[0] == p0.pending[off]);
                assert(p0.pending[off] == p0.admitted[start_index(p0) + off]);
                assert(self.times@[0] <= p0.clock);
            }
            assert(spec_prune(self.times@, now) =~= self.times@);
            assert(self.times@ =~= spec_prune(p0.pending, now));
            lemma_prune_wf(p0, now);
        }
        self.clock = Ghost(now);
        proof {
            assert(self@ =~= pruned(p0, now));
        }
    }

    /// Handles one unexpected drop at time `now` (seconds, monotone): prunes
    /// entries older than the window, then records an attempt at `now` if
    /// fewer than `MAX_ATTEMPTS` remain. Returns whether the attempt was
    /// admitted.
    pub fn try_attempt(&mut self, now: u64) -> (r: bool)
        requires
            old(self).wf(),
            old(self)@.clock <= now,
        ensures
            final(self).wf(),
            r == allows(old(self)@, now),
            r ==> final(self)@ =~= recorded(old(self)@, now),
            !r ==> final(self)@ =~= pruned(old(self)@, now),
    {
        let ghost p0 = self@;
        self.prune(now);
        if self.times.len() >= MAX_ATTEMPTS {
            false
        } else {
            self.times.push(now);
            self.attempts = Ghost(self.attempts@.push(now));
            proof {
                lemma_record_wf(p0, now);
                assert(self@ =~= recorded(p0, now));
            }
            true
        }
    }

    /// How many attempts are currently held in the history.
    pub fn pending_len(&self) -> (r: usize)
        ensures
            r == self@.pending.len(),
    {
        self.times.len()
    }
}

} // verus!

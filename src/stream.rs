use vstd::prelude::*;

verus! {

/// The largest pulse count that a stream's running counter can hold.
pub const PULSE_MAX: usize = usize::MAX >> 3;

/// The ceiling is the counter's bound on a 32-bit target at the least, and
/// leaves room for one more step of the counter.
pub proof fn lemma_pulse_max_bounds()
    ensures
        0x1fff_ffff <= PULSE_MAX < usize::MAX,
{
    assert forall|m: usize| m >= 0xffff_ffff implies 0x1fff_ffff <= (m >> 3usize) && (m
        >> 3usize) < m by {
        assert(m >= 0xffff_ffff ==> 0x1fff_ffff <= (m >> 3usize) && (m >> 3usize) < m)
            by (bit_vector);
    }
    let m = usize::MAX;
    assert(0x1fff_ffff <= (m >> 3usize) < m);
}

/// Stream overflow: the counter could not absorb another pulse before the
/// consumer drained it.
#[derive(Clone, Copy, Debug, PartialEq, Eq, Structural)]
pub struct ExtiOverflow;

impl ExtiOverflow {
    /// The text that describes this error.
    pub fn message(&self) -> (r: String)
        ensures
            r@ == "EXTI stream overflow"@,
    {
        proof {
            reveal_strlit("EXTI stream overflow");
        }
        String::from_str("EXTI stream overflow")
    }
}

/// What a pulse stream holds between firings and polls.
pub ghost struct PulseState {
    /// Pulses accumulated since the last item was taken.
    pub count: nat,
    /// An overflow is waiting to be reported (fallible policy only).
    pub overflowed: bool,
    /// The stream still receives the fiber's reports.
    pub attached: bool,
}

/// A freshly attached stream with nothing accumulated.
pub open spec fn fresh_state() -> PulseState {
    PulseState { count: 0, overflowed: false, attached: true }
}

/// The saturating policy's reaction to one report of the fiber.
pub open spec fn saturating_deliver(s: PulseState, report: Option<usize>) -> PulseState {
    match report {
        Some(p) if s.attached => PulseState {
            count: if s.count + p <= PULSE_MAX { (s.count + p) as nat } else { PULSE_MAX as nat },
            ..s
        },
        _ => s,
    }
}

/// The item that a poll of a saturating stream yields, if any.
pub open spec fn saturating_item(s: PulseState) -> Option<usize> {
    if s.attached && s.count > 0 {
        Some(s.count as usize)
    } else {
        None
    }
}

/// The state of any stream after a poll: what was taken is gone.
pub open spec fn drained(s: PulseState) -> PulseState {
    PulseState { count: 0, overflowed: false, ..s }
}

/// The fallible policy's reaction to one report of the fiber: an increment
/// that would pass the ceiling drops the count and marks the overflow, and
/// pulses that arrive while an overflow waits are lost.
pub open spec fn try_deliver(s: PulseState, report: Option<usize>) -> PulseState {
    match report {
        Some(p) if s.attached && !s.overflowed => if s.count + p <= PULSE_MAX {
            PulseState { count: (s.count + p) as nat, ..s }
        } else {
            PulseState { count: 0, overflowed: true, ..s }
        },
        _ => s,
    }
}

/// The item that a poll of a fallible stream yields, if any.
pub open spec fn try_item(s: PulseState) -> Option<Result<usize, ExtiOverflow>> {
    if !s.attached {
        None
    } else if s.overflowed {
        Some(Err(ExtiOverflow))
    } else if s.count > 0 {
        Some(Ok(s.count as usize))
    } else {
        None
    }
}

/// A state that a stream can be in.
pub open spec fn state_wf(s: PulseState) -> bool {
    &&& s.count <= PULSE_MAX
    &&& s.overflowed ==> s.count == 0
}

/// The state after `n` edges are reported with no poll between them.
pub open spec fn saturating_edges(s: PulseState, n: nat) -> PulseState
    decreases n,
{
    if n == 0 {
        s
    } else {
        saturating_deliver(saturating_edges(s, (n - 1) as nat), Some(1))
    }
}

/// The state after `n` edges are reported with no poll between them.
pub open spec fn try_edges(s: PulseState, n: nat) -> PulseState
    decreases n,
{
    if n == 0 {
        s
    } else {
        try_deliver(try_edges(s, (n - 1) as nat), Some(1))
    }
}

/// The items yielded when each of `n` edges is followed by a poll.
pub open spec fn saturating_interleaved(s: PulseState, n: nat) -> Seq<Option<usize>>
    decreases n,
{
    if n == 0 {
        Seq::empty()
    } else {
        let t = saturating_deliver(s, Some(1));
        let next = if saturating_item(t) is Some { drained(t) } else { t };
        seq![saturating_item(t)] + saturating_interleaved(next, (n - 1) as nat)
    }
}

/// The items yielded when each of `n` edges is followed by a poll.
pub open spec fn try_interleaved(s: PulseState, n: nat) -> Seq<Option<Result<usize, ExtiOverflow>>>
    decreases n,
{
    if n == 0 {
        Seq::empty()
    } else {
        let t = try_deliver(s, Some(1));
        let next = if try_item(t) is Some { drained(t) } else { t };
        seq![try_item(t)] + try_interleaved(next, (n - 1) as nat)
    }
}

/// The state after a sequence of the fiber's reports, with no poll between them.
pub open spec fn saturating_run(s: PulseState, reports: Seq<Option<usize>>) -> PulseState
    decreases reports.len(),
{
    if reports.len() == 0 {
        s
    } else {
        saturating_deliver(saturating_run(s, reports.drop_last()), reports.last())
    }
}

/// The state after a sequence of the fiber's reports, with no poll between them.
pub open spec fn try_run(s: PulseState, reports: Seq<Option<usize>>) -> PulseState
    decreases reports.len(),
{
    if reports.len() == 0 {
        s
    } else {
        try_deliver(try_run(s, reports.drop_last()), reports.last())
    }
}

/// `n` edges reported to a fresh saturating stream with no poll between them
/// leave `min(n, PULSE_MAX)` pulses, which the next poll yields; with no edge
/// it yields nothing, never a zero count.
pub proof fn lemma_saturating_undrained(n: nat)
    ensures
        saturating_edges(fresh_state(), n) == (PulseState {
            count: if n <= PULSE_MAX { n } else { PULSE_MAX as nat },
            overflowed: false,
            attached: true,
        }),
        n == 0 ==> saturating_item(saturating_edges(fresh_state(), n)) is None,
        n > 0 ==> saturating_item(saturating_edges(fresh_state(), n)) == Some(
            (if n <= PULSE_MAX { n } else { PULSE_MAX as nat }) as usize,
        ),
    decreases n,
{
    lemma_pulse_max_bounds();
    if n > 0 {
        lemma_saturating_undrained((n - 1) as nat);
    }
}

/// `n` edges reported to a fresh fallible stream with no poll between them:
/// up to `PULSE_MAX` the next poll yields `Ok(n)`; past it the next poll
/// yields one overflow and the poll after that yields nothing.
pub proof fn lemma_try_undrained(n: nat)
    ensures
        n <= PULSE_MAX ==> try_edges(fresh_state(), n) == (PulseState {
            count: n,
            overflowed: false,
            attached: true,
        }),
        n > PULSE_MAX ==> try_edges(fresh_state(), n) == (PulseState {
            count: 0,
            overflowed: true,
            attached: true,
        }),
        0 < n <= PULSE_MAX ==> try_item(try_edges(fresh_state(), n)) == Some(
            Ok::<usize, ExtiOverflow>(n as usize),
        ),
        n > PULSE_MAX ==> try_item(try_edges(fresh_state(), n)) == Some(
            Err::<usize, ExtiOverflow>(ExtiOverflow),
        ),
        n > PULSE_MAX ==> try_item(drained(try_edges(fresh_state(), n))) is None,
    decreases n,
{
    lemma_pulse_max_bounds();
    if n > 0 {
        lemma_try_undrained((n - 1) as nat);
    }
}

/// A saturating stream polled after every edge yields one item per edge,
/// each a count of one.
pub proof fn lemma_saturating_interleaved(n: nat)
    ensures
        saturating_interleaved(fresh_state(), n) =~= Seq::new(n, |i: int| Some(1usize)),
    decreases n,
{
    lemma_pulse_max_bounds();
    if n > 0 {
        lemma_saturating_interleaved((n - 1) as nat);
        let t = saturating_deliver(fresh_state(), Some(1));
        assert(saturating_item(t) == Some(1usize));
        assert(drained(t) == fresh_state());
        assert(saturating_interleaved(fresh_state(), n) == seq![Some(1usize)]
            + saturating_interleaved(fresh_state(), (n - 1) as nat));
    }
}

/// A fallible stream polled after every edge yields one item per edge, each
/// a count of one.
pub proof fn lemma_try_interleaved(n: nat)
    ensures
        try_interleaved(fresh_state(), n) =~= Seq::new(
            n,
            |i: int| Some(Ok::<usize, ExtiOverflow>(1usize)),
        ),
    decreases n,
{
    lemma_pulse_max_bounds();
    if n > 0 {
        lemma_try_interleaved((n - 1) as nat);
        let t = try_deliver(fresh_state(), Some(1));
        assert(try_item(t) == Some(Ok::<usize, ExtiOverflow>(1usize)));
        assert(drained(t) == fresh_state());
        assert(try_interleaved(fresh_state(), n) == seq![Some(Ok::<usize, ExtiOverflow>(1usize))]
            + try_interleaved(fresh_state(), (n - 1) as nat));
    }
}

/// A detached stream is changed by no report of the fiber and yields nothing,
/// under either policy.
pub proof fn lemma_detached_stays_silent(s: PulseState, reports: Seq<Option<usize>>)
    requires
        !s.attached,
    ensures
        saturating_run(s, reports) == s,
        try_run(s, reports) == s,
        saturating_item(saturating_run(s, reports)) is None,
        try_item(try_run(s, reports)) is None,
    decreases reports.len(),
{
    if reports.len() > 0 {
        lemma_detached_stays_silent(s, reports.drop_last());
    }
}

/// A stream of pulse counts that caps its counter at [`PULSE_MAX`].
pub struct SaturatingStream {
    count: usize,
    attached: bool,
}

impl View for SaturatingStream {
    type V = PulseState;

    closed spec fn view(&self) -> PulseState {
        PulseState { count: self.count as nat, overflowed: false, attached: self.attached }
    }
}

impl SaturatingStream {
    /// The invariant of the stream.
    pub open spec fn wf(&self) -> bool {
        &&& state_wf(self@)
        &&& !self@.overflowed
    }

    /// A stream attached to a fiber, with nothing accumulated.
    pub fn new() -> (r: SaturatingStream)
        ensures
            r.wf(),
            r@ == fresh_state(),
    {
        SaturatingStream { count: 0, attached: true }
    }

    /// Takes one report of the fiber: a pulse count adds to the counter,
    /// which stops at [`PULSE_MAX`]; a detached stream ignores it.
    pub fn deliver(&mut self, report: Option<usize>)
        requires
            old(self).wf(),
        ensures
            final(self).wf(),
            final(self)@ == saturating_deliver(old(self)@, report),
    {
        if let Some(p) = report {
            if self.attached {
                if p <= PULSE_MAX - self.count {
                    self.count = self.count + p;
                } else {
                    self.count = PULSE_MAX;
                }
            }
        }
    }

    /// Polls the stream: the pulses accumulated since the last item, which
    /// are then taken, or `None` while there are none.
    pub fn poll_next(&mut self) -> (r: Option<usize>)
        requires
            old(self).wf(),
        ensures
            final(self).wf(),
            r matches Some(k) ==> 0 < k <= PULSE_MAX,
            r == saturating_item(old(self)@),
            final(self)@ == (if r is Some { drained(old(self)@) } else { old(self)@ }),
    {
        if self.attached && self.count > 0 {
            let k = self.count;
            self.count = 0;
            Some(k)
        } else {
            None
        }
    }

    /// Detaches the stream: it yields nothing from now on.
    pub fn close(&mut self)
        requires
            old(self).wf(),
        ensures
            final(self).wf(),
            final(self)@ == (PulseState { count: 0, overflowed: false, attached: false }),
    {
        self.count = 0;
        self.attached = false;
    }
}

/// A stream of pulse counts that reports one [`ExtiOverflow`] item in place
/// of a count when its counter would pass [`PULSE_MAX`].
pub struct TryStream {
    count: usize,
    overflowed: bool,
    attached: bool,
}

impl View for TryStream {
    type V = PulseState;

    closed spec fn view(&self) -> PulseState {
        PulseState { count: self.count as nat, overflowed: self.overflowed, attached: self.attached }
    }
}

impl TryStream {
    /// The invariant of the stream.
    pub open spec fn wf(&self) -> bool {
        state_wf(self@)
    }

    /// A stream attached to a fiber, with nothing accumulated.
    pub fn new() -> (r: TryStream)
        ensures
            r.wf(),
            r@ == fresh_state(),
    {
        TryStream { count: 0, overflowed: false, attached: true }
    }

    /// Takes one report of the fiber: a pulse count adds to the counter; one
    /// that would pass [`PULSE_MAX`] drops the count and marks the overflow,
    /// after which reports are ignored until the overflow is taken. A
    /// detached stream ignores every report.
    pub fn deliver(&mut self, report: Option<usize>)
        requires
            old(self).wf(),
        ensures
            final(self).wf(),
            final(self)@ == try_deliver(old(self)@, report),
    {
        if let Some(p) = report {
            if self.attached && !self.overflowed {
                if p <= PULSE_MAX - self.count {
                    self.count = self.count + p;
                } else {
                    self.count = 0;
                    self.overflowed = true;
                }
            }
        }
    }

    /// Polls the stream: the overflow, if one waits, else the pulses
    /// accumulated since the last item; what is yielded is then taken.
    /// `None` while there is nothing to yield.
    pub fn poll_next(&mut self) -> (r: Option<Result<usize, ExtiOverflow>>)
        requires
            old(self).wf(),
        ensures
            final(self).wf(),
            r matches Some(Ok(k)) ==> 0 < k <= PULSE_MAX,
            r == try_item(old(self)@),
            final(self)@ == (if r is Some { drained(old(self)@) } else { old(self)@ }),
    {
        if !self.attached {
            None
        } else if self.overflowed {
            self.overflowed = false;
            Some(Err(ExtiOverflow))
        } else if self.count > 0 {
            let k = self.count;
            self.count = 0;
            Some(Ok(k))
        } else {
            None
        }
    }

    /// Detaches the stream: it yields nothing from now on.
    pub fn close(&mut self)
        requires
            old(self).wf(),
        ensures
            final(self).wf(),
            final(self)@ == (PulseState { count: 0, overflowed: false, attached: false }),
    {
        self.count = 0;
        self.overflowed = false;
        self.attached = false;
    }
}

} // verus!

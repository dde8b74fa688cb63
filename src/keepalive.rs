//! Bookkeeping of a provider's connection keep-alive loop: which loop is
//! live, and which must be aborted. The caller runs the loops and pings.
use vstd::prelude::*;

verus! {

/// The keep-alive state of one adapter. Loops are named by the number they
/// were started under; `live` is the one loop allowed to run.
#[derive(Debug, Clone, Copy, PartialEq, Eq)]
pub struct KeepAlive {
    pub next_id: u64,
    pub live: Option<u64>,
    pub stopped: bool,
}

/// What starting a loop asks of the caller: run loop `start`, and abort loop
/// `abort` if there is one.
#[derive(Debug, Clone, Copy, PartialEq, Eq)]
pub struct Restart {
    pub start: u64,
    pub abort: Option<u64>,
}

impl KeepAlive {
    /// Every live loop was started before the next number was handed out.
    pub open spec fn wf(self) -> bool {
        self.live matches Some(id) ==> id < self.next_id
    }

    /// Whether loop `id` may still ping.
    pub open spec fn spec_may_ping(self, id: u64) -> bool {
        !self.stopped && self.live == Some(id)
    }

    /// The state after starting a loop.
    pub open spec fn spec_start(self) -> (KeepAlive, Restart) {
        (
            KeepAlive { next_id: (self.next_id + 1) as u64, live: Some(self.next_id), stopped: false },
            Restart { start: self.next_id, abort: self.live },
        )
    }

    /// The state after teardown.
    pub open spec fn spec_stop(self) -> (KeepAlive, Option<u64>) {
        (KeepAlive { next_id: self.next_id, live: None, stopped: true }, self.live)
    }

    pub fn new() -> (r: Self)
        ensures
            r.wf(),
            r.live is None,
            !r.stopped,
            r.next_id == 0,
    {
        KeepAlive { next_id: 0, live: None, stopped: false }
    }

    /// Starts a new loop; the loop that was live, if any, is to be aborted.
    pub fn start(&mut self) -> (r: Restart)
        requires
            old(self).wf(),
            old(self).next_id < u64::MAX,
        ensures
            final(self).wf(),
            (*final(self), r) == old(self).spec_start(),
    {
        let r = Restart { start: self.next_id, abort: self.live };
        self.live = Some(self.next_id);
        self.next_id = self.next_id + 1;
        self.stopped = false;
        r
    }

    /// Stops keep-alive for good; the loop that was live, if any, is to be aborted.
    pub fn stop(&mut self) -> (r: Option<u64>)
        requires
            old(self).wf(),
        ensures
            final(self).wf(),
            (*final(self), r) == old(self).spec_stop(),
    {
        let r = self.live;
        self.live = None;
        self.stopped = true;
        r
    }

    /// Whether loop `id` may still ping; a loop that may not ends itself.
    pub fn may_ping(&self, id: u64) -> (r: bool)
        ensures
            r == self.spec_may_ping(id),
    {
        !self.stopped && self.live == Some(id)
    }
}

/// Starting a second loop aborts the first, and afterwards only the second
/// may run.
pub proof fn lemma_second_start_aborts_first(s: KeepAlive)
    requires
        s.wf(),
        s.next_id < u64::MAX - 1,
    ensures
        ({
            let (s1, first) = s.spec_start();
            let (s2, second) = s1.spec_start();
            &&& second.abort == Some(first.start)
            &&& first.start != second.start
            &&& s2.spec_may_ping(second.start)
            &&& forall|id: u64| #[trigger] s2.spec_may_ping(id) ==> id == second.start
        }),
{
}

/// At most one loop may run in any state.
pub proof fn lemma_at_most_one_live(s: KeepAlive, a: u64, b: u64)
    requires
        s.spec_may_ping(a),
        s.spec_may_ping(b),
    ensures
        a == b,
{
}

/// After teardown no loop may run.
pub proof fn lemma_stop_silences_all(s: KeepAlive, id: u64)
    ensures
        !s.spec_stop().0.spec_may_ping(id),
{
}

} // verus!

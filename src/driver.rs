//! The decisions of a paginated query run. The caller performs each action
//! (a request, a pause) and hands back what happened; the run decides what to
//! do next, so the whole walk over a block range is stated here without I/O.

use vstd::prelude::*;

verus! {

/// The longest pause between two attempts, in time units.
pub const MAX_BACKOFF: u64 = 5;

/// Why a run ended without reaching its end.
#[derive(Debug, Clone, Copy, PartialEq, Eq, Structural)]
pub enum RunError {
    /// The transport failed for good: a malformed request, a refused token.
    TransportFatal,
    /// The transport failed for now, and the run does not retry.
    TransportTransient,
    /// The caller cancelled the run.
    Cancelled,
}

/// What happened to the last action.
#[derive(Debug, Clone, Copy, PartialEq, Eq, Structural)]
pub enum Event {
    /// A page came back with its cursor and its number of rows; `stop` is
    /// set when the caller wants no further page.
    Page { next_block: u64, num_rows: u64, stop: bool },
    /// The request failed in a way that may pass (network, timeout).
    TransientFailure,
    /// The request failed in a way that will not pass.
    FatalFailure,
    /// The caller cancelled the run.
    Cancelled,
}

/// What the caller is to do next.
#[derive(Debug, Clone, Copy, PartialEq, Eq, Structural)]
pub enum Action {
    /// Request the page that starts at `from_block`.
    Request { from_block: u64 },
    /// Pause for `delay` time units, then request the page at `from_block`.
    Retry { delay: u64, from_block: u64 },
    /// The run is complete; `cursor` is where a later run would resume.
    Finish { cursor: u64 },
    /// The run failed; `cursor` is the last cursor that a page confirmed.
    Fail { cursor: u64, error: RunError },
}

/// The state of a run over `[cursor, to_block)`.
#[derive(Debug, Clone, Copy, PartialEq, Eq, Structural)]
pub struct PageRun {
    /// Where the next page starts.
    pub cursor: u64,
    /// Where the run ends, exclusive; `None` runs to the head of the chain.
    pub to_block: Option<u64>,
    /// Failed attempts since the last page, counted up to `MAX_BACKOFF`.
    pub failures: u64,
    /// Whether transient failures are retried.
    pub retry: bool,
}

/// Whether a cursor has reached the end of the range.
pub open spec fn reached_end(to_block: Option<u64>, cursor: u64) -> bool {
    match to_block {
        Some(t) => cursor >= t,
        None => false,
    }
}

/// The pause before the attempt that follows the `k`-th consecutive failure.
pub open spec fn backoff(k: int) -> int {
    if k < MAX_BACKOFF {
        k
    } else {
        MAX_BACKOFF as int
    }
}

impl PageRun {
    /// Whether a page ends the run: the range is covered, the caller has
    /// stopped, or the service sent nothing and did not move the cursor.
    pub open spec fn page_ends(self, next_block: u64, num_rows: u64, stop: bool) -> bool {
        reached_end(self.to_block, next_block) || stop || (num_rows == 0 && next_block
            <= self.cursor)
    }

    /// The state and action that follow an event.
    pub open spec fn step_spec(self, event: Event) -> (PageRun, Action) {
        match event {
            Event::Page { next_block, num_rows, stop } => {
                let next = PageRun { cursor: next_block, failures: 0, ..self };
                if self.page_ends(next_block, num_rows, stop) {
                    (next, Action::Finish { cursor: next_block })
                } else {
                    (next, Action::Request { from_block: next_block })
                }
            },
            Event::TransientFailure => {
                if self.retry {
                    let k = backoff(self.failures + 1) as u64;
                    (
                        PageRun { failures: k, ..self },
                        Action::Retry { delay: k, from_block: self.cursor },
                    )
                } else {
                    (
                        self,
                        Action::Fail { cursor: self.cursor, error: RunError::TransportTransient },
                    )
                }
            },
            Event::FatalFailure => (
                self,
                Action::Fail { cursor: self.cursor, error: RunError::TransportFatal },
            ),
            Event::Cancelled => (
                self,
                Action::Fail { cursor: self.cursor, error: RunError::Cancelled },
            ),
        }
    }

    /// The actions that a run takes on a sequence of events, one per event.
    pub open spec fn actions(self, events: Seq<Event>) -> Seq<Action>
        decreases events.len(),
    {
        if events.len() == 0 {
            Seq::empty()
        } else {
            let (next, a) = self.step_spec(events[0]);
            seq![a] + next.actions(events.drop_first())
        }
    }

    /// A run over `[from_block, to_block)`; `retry` chooses whether transient
    /// failures are retried with backoff or end the run.
    pub fn new(from_block: u64, to_block: Option<u64>, retry: bool) -> (r: PageRun)
        ensures
            r == (PageRun { cursor: from_block, to_block, failures: 0, retry }),
    {
        PageRun { cursor: from_block, to_block, failures: 0, retry }
    }

    /// The first action: the first request, or nothing to do when the range
    /// is already empty.
    pub fn start(&self) -> (r: Action)
        ensures
            reached_end(self.to_block, self.cursor) ==> r == (Action::Finish { cursor: self.cursor }),
            !reached_end(self.to_block, self.cursor) ==> r == (Action::Request {
                from_block: self.cursor,
            }),
    {
        let ends = match self.to_block {
            Some(t) => self.cursor >= t,
            None => false,
        };
        if ends {
            Action::Finish { cursor: self.cursor }
        } else {
            Action::Request { from_block: self.cursor }
        }
    }

    /// Takes in what happened to the last action and decides the next one.
    pub fn step(&mut self, event: Event) -> (r: Action)
        ensures
            (*final(self), r) == old(self).step_spec(event),
    {
        match event {
            Event::Page { next_block, num_rows, stop } => {
                let reached = match self.to_block {
                    Some(t) => next_block >= t,
                    None => false,
                };
                let ends = reached || stop || (num_rows == 0 && next_block <= self.cursor);
                self.cursor = next_block;
                self.failures = 0;
                if ends {
                    Action::Finish { cursor: next_block }
                } else {
                    Action::Request { from_block: next_block }
                }
            },
            Event::TransientFailure => {
                if self.retry {
                    let k = if self.failures < MAX_BACKOFF {
                        self.failures + 1
                    } else {
                        MAX_BACKOFF
                    };
                    self.failures = k;
                    Action::Retry { delay: k, from_block: self.cursor }
                } else {
                    Action::Fail { cursor: self.cursor, error: RunError::TransportTransient }
                }
            },
            Event::FatalFailure => Action::Fail {
                cursor: self.cursor,
                error: RunError::TransportFatal,
            },
            Event::Cancelled => Action::Fail { cursor: self.cursor, error: RunError::Cancelled },
        }
    }
}

/// A run whose pages move the cursor strictly forward, stay short of
/// `to_block` and then reach it, asks for each next page at the cursor just
/// returned and finishes at the cursor of the last page.
pub proof fn lemma_pagination_terminates(run: PageRun, events: Seq<Event>)
    requires
        run.to_block.is_some(),
        events.len() > 0,
        forall|i: int| 0 <= i < events.len() ==> ((#[trigger] events[i]) is Page),
        forall|i: int| 0 <= i < events.len() ==> !(#[trigger] events[i])->Page_stop,
        events[0]->Page_next_block > run.cursor,
        forall|i: int|
            0 < i < events.len() ==> (#[trigger] events[i])->Page_next_block > events[i
                - 1]->Page_next_block,
        forall|i: int|
            0 <= i < events.len() - 1 ==> !reached_end(
                run.to_block,
                (#[trigger] events[i])->Page_next_block,
            ),
        reached_end(run.to_block, events.last()->Page_next_block),
    ensures
        run.actions(events).len() == events.len(),
        forall|i: int|
            0 <= i < events.len() - 1 ==> run.actions(events)[i] == (Action::Request {
                from_block: (#[trigger] events[i])->Page_next_block,
            }),
        run.actions(events).last() == (Action::Finish { cursor: events.last()->Page_next_block }),
    decreases events.len(),
{
    let e = events[0];
    let (next, a) = run.step_spec(e);
    let rest = events.drop_first();
    if events.len() == 1 {
        assert(run.actions(events) =~= seq![a] + next.actions(rest));
    } else {
        assert forall|i: int| 0 < i < rest.len() implies (#[trigger] rest[i])->Page_next_block
            > rest[i - 1]->Page_next_block by {
            assert(rest[i] == events[i + 1]);
            assert(rest[i - 1] == events[i]);
        }
        assert forall|i: int| 0 <= i < rest.len() - 1 implies !reached_end(
            next.to_block,
            (#[trigger] rest[i])->Page_next_block,
        ) by {
            assert(rest[i] == events[i + 1]);
        }
        assert(rest[0] == events[1]);
        assert(rest.last() == events.last());
        lemma_pagination_terminates(next, rest);
        let acts = run.actions(events);
        assert(acts =~= seq![a] + next.actions(rest));
        assert forall|i: int| 0 <= i < events.len() - 1 implies acts[i] == Action::Request {
            from_block: (#[trigger] events[i])->Page_next_block,
        } by {
            if i > 0 {
                assert(rest[i - 1] == events[i]);
            }
        }
    }
}

/// From a fresh attempt, `k` transient failures in a row are each followed by
/// a retry of the same page after pauses of 1, 2, 3, ... time units, never
/// more than `MAX_BACKOFF`; a page that then comes back is taken as usual.
pub proof fn lemma_retry_backoff(run: PageRun, k: nat, page: Event)
    requires
        run.retry,
        run.failures == 0,
        (page is Page),
    ensures
        ({
            let events = Seq::new(k, |i: int| Event::TransientFailure).push(page);
            let acts = run.actions(events);
            &&& acts.len() == k + 1
            &&& forall|i: int|
                0 <= i < k ==> #[trigger] acts[i] == Action::Retry {
                    delay: backoff(i + 1) as u64,
                    from_block: run.cursor,
                }
            &&& acts[k as int] == run.step_spec(page).1
        }),
{
    lemma_retry_backoff_from(run, k, page, 0);
}

proof fn lemma_retry_backoff_from(run: PageRun, k: nat, page: Event, done: nat)
    requires
        run.retry,
        run.failures == backoff(done as int),
        (page is Page),
    ensures
        ({
            let events = Seq::new(k, |i: int| Event::TransientFailure).push(page);
            let acts = run.actions(events);
            &&& acts.len() == k + 1
            &&& forall|i: int|
                0 <= i < k ==> #[trigger] acts[i] == Action::Retry {
                    delay: backoff(done + i + 1) as u64,
                    from_block: run.cursor,
                }
            &&& acts[k as int] == (PageRun { failures: 0, ..run }).step_spec(page).1
        }),
    decreases k,
{
    let events = Seq::new(k, |i: int| Event::TransientFailure).push(page);
    if k == 0 {
        let (next, a) = run.step_spec(page);
        assert(events =~= seq![page]);
        assert(run.actions(events) =~= seq![a] + next.actions(events.drop_first()));
        assert(events.drop_first().len() == 0);
    } else {
        let (next, a) = run.step_spec(Event::TransientFailure);
        let rest = Seq::new((k - 1) as nat, |i: int| Event::TransientFailure).push(page);
        assert(events.drop_first() =~= rest);
        assert(events[0] == Event::TransientFailure);
        lemma_retry_backoff_from(next, (k - 1) as nat, page, done + 1);
        let acts = run.actions(events);
        assert(acts =~= seq![a] + next.actions(rest));
        assert(PageRun { failures: 0, ..next } == PageRun { failures: 0, ..run });
        assert forall|i: int| 0 <= i < k implies #[trigger] acts[i] == Action::Retry {
            delay: backoff(done + i + 1) as u64,
            from_block: run.cursor,
        } by {
            if i > 0 {
                assert(acts[i] == next.actions(rest)[i - 1]);
            }
        }
    }
}

} // verus!

//! The exporter: one turn primitive and the loops that repeat it.

use crate::interfaces::{Builder, Observable, Renderable, Sink, Ticker};
use crate::level::{ConfigError, Level};
use vstd::prelude::*;

verus! {

/// Periodically snapshots a metrics controller and emits a textual
/// rendering of it as one structured log event per cycle.
///
/// The severity level and the snapshot interval are fixed at construction;
/// the interval is strictly positive.
pub struct TracingExporter<C, R, S> {
    /// Supplies the current metric values on demand.
    pub controller: C,
    /// Accumulates observations and drains them to text, reused across
    /// every turn.
    pub observer: R,
    /// Receives one log event per turn.
    pub sink: S,
    /// Severity of every emitted event.
    pub level: Level,
    /// Milliseconds between turns; strictly positive.
    pub interval_ms: u64,
}

impl<C, R, S> TracingExporter<C, R, S> where C: Observable<R>, R: Renderable, S: Sink {
    /// The exporter's invariant: the snapshot interval is strictly
    /// positive. Construction establishes it, and no operation changes
    /// the interval afterwards.
    pub open spec fn wf(&self) -> bool {
        self.interval_ms > 0
    }

    /// Creates an exporter that logs at the given level every
    /// `interval_ms` milliseconds.
    ///
    /// The renderer is freshly built from the factory, exactly once. A
    /// zero interval is a configuration error, reported here rather than
    /// deferred to run time.
    pub fn new<B: Builder<R>>(
        controller: C,
        builder: B,
        sink: S,
        level: Level,
        interval_ms: u64,
    ) -> (r: Result<Self, ConfigError>)
        ensures
            interval_ms == 0 ==> (r matches Err(e) && e == ConfigError::NonPositiveInterval),
            interval_ms > 0 ==> (r matches Ok(ex)
                && ex.wf()
                && ex.controller == controller
                && ex.sink == sink
                && ex.level == level
                && ex.interval_ms == interval_ms
                && ex.observer.contents() == Seq::<char>::empty()),
    {
        if interval_ms == 0 {
            Err(ConfigError::NonPositiveInterval)
        } else {
            Ok(TracingExporter {
                controller,
                observer: builder.build(),
                sink,
                level,
                interval_ms,
            })
        }
    }

    /// Runs one snapshot cycle: observe, drain, emit.
    ///
    /// Exactly one event reaches the sink, carrying the exporter's level
    /// and, as its single payload, precisely the text the renderer drained
    /// at that moment; the renderer is left empty for the next turn.
    pub fn turn(&mut self)
        ensures
            final(self).sink.events() == old(self).sink.events().push(
                (old(self).level, old(self).controller.merged(old(self).observer.contents())),
            ),
            final(self).observer.contents() == Seq::<char>::empty(),
            final(self).controller == old(self).controller,
            final(self).level == old(self).level,
            final(self).interval_ms == old(self).interval_ms,
    {
        self.controller.observe(&mut self.observer);
        let output = self.observer.drain();
        self.sink.emit(self.level, output);
    }

    /// Runs the exporter for exactly `n` sleep-then-turn cycles.
    ///
    /// Each cycle waits one full period and then takes one turn, so `n`
    /// completed periods yield exactly `n` events, and no event is emitted
    /// before the first period has elapsed. The unbounded run modes — a
    /// blocking thread or a cooperatively scheduled task — repeat these
    /// cycles until the host tears the thread or task down; the host owns
    /// that lifecycle, and between two waits its loop does exactly what
    /// one cycle here does.
    pub fn run<T: Ticker>(&mut self, ticker: &mut T, n: usize)
        ensures
            final(self).sink.events() == old(self).sink.events() + turn_events::<C, R>(
                old(self).controller,
                old(self).level,
                old(self).observer.contents(),
                n as nat,
            ),
            final(self).sink.events().len() == old(self).sink.events().len() + n,
            final(ticker).ticks() == old(ticker).ticks() + n,
            final(self).controller == old(self).controller,
            final(self).level == old(self).level,
            final(self).interval_ms == old(self).interval_ms,
            n > 0 ==> final(self).observer.contents() == Seq::<char>::empty(),
            n == 0 ==> *final(self) == *old(self),
    {
        let ghost ctrl0 = self.controller;
        let ghost lvl0 = self.level;
        let ghost c0 = self.observer.contents();
        let ghost base_events = self.sink.events();
        let ghost base_ticks = ticker.ticks();
        let ghost self0 = *self;
        let ghost ticker0 = *ticker;
        let mut i: usize = 0;
        while i < n
            invariant
                i <= n,
                self.controller == ctrl0,
                self.level == lvl0,
                self.interval_ms == self0.interval_ms,
                ticker.ticks() == base_ticks + i,
                self.sink.events() == base_events + turn_events::<C, R>(ctrl0, lvl0, c0, i as nat),
                i > 0 ==> self.observer.contents() == Seq::<char>::empty(),
                i == 0 ==> self.observer.contents() == c0,
                i == 0 ==> *self == self0 && *ticker == ticker0,
            decreases n - i,
        {
            let ghost i0 = i as nat;
            proof {
                lemma_turn_events_snoc::<C, R>(ctrl0, lvl0, c0, i0);
            }
            ticker.wait();
            self.turn();
            proof {
                assert(self.sink.events() =~= base_events + turn_events::<C, R>(
                    ctrl0,
                    lvl0,
                    c0,
                    i0 + 1,
                ));
            }
            i = i + 1;
        }
        proof {
            lemma_turn_events_len::<C, R>(ctrl0, lvl0, c0, n as nat);
            if n == 0 {
                assert(self.sink.events() =~= base_events);
            }
        }
    }

}

/// The events that `n` turns emit, given the controller, the level and the
/// contents `c0` the renderer held before the first turn.
///
/// The first turn drains `merged(c0)`; every later turn starts from the
/// empty accumulation the previous drain left behind, and so drains
/// `merged(empty)`.
pub open spec fn turn_events<C: Observable<R>, R: Renderable>(
    c: C,
    level: Level,
    c0: Seq<char>,
    n: nat,
) -> Seq<(Level, Seq<char>)>
    decreases n,
{
    if n == 0 {
        Seq::empty()
    } else {
        seq![(level, c.merged(c0))] + turn_events::<C, R>(c, level, Seq::empty(), (n - 1) as nat)
    }
}

/// `n` turns emit exactly `n` events: none before the first period has
/// elapsed, and exactly one per period thereafter.
pub proof fn lemma_turn_events_len<C: Observable<R>, R: Renderable>(
    c: C,
    level: Level,
    c0: Seq<char>,
    n: nat,
)
    ensures
        turn_events::<C, R>(c, level, c0, n).len() == n,
    decreases n,
{
    if n > 0 {
        lemma_turn_events_len::<C, R>(c, level, Seq::empty(), (n - 1) as nat);
    }
}

/// Running one more turn appends one event: the first turn's payload is
/// `merged(c0)`, every later one's is `merged(empty)`.
pub proof fn lemma_turn_events_snoc<C: Observable<R>, R: Renderable>(
    c: C,
    level: Level,
    c0: Seq<char>,
    n: nat,
)
    ensures
        turn_events::<C, R>(c, level, c0, n + 1) == turn_events::<C, R>(c, level, c0, n).push(
            (level, c.merged(if n == 0 { c0 } else { Seq::<char>::empty() })),
        ),
    decreases n,
{
    if n == 0 {
        assert(turn_events::<C, R>(c, level, Seq::<char>::empty(), 0)
            == Seq::<(Level, Seq<char>)>::empty());
        assert(turn_events::<C, R>(c, level, c0, 1) =~= turn_events::<C, R>(c, level, c0, 0).push(
            (level, c.merged(c0)),
        ));
    } else {
        lemma_turn_events_snoc::<C, R>(c, level, Seq::empty(), (n - 1) as nat);
        assert(turn_events::<C, R>(c, level, c0, n + 1) =~= turn_events::<C, R>(
            c,
            level,
            c0,
            n,
        ).push((level, c.merged(Seq::<char>::empty()))));
    }
}

/// What each of the `n` events holds: every event carries the configured
/// level, the first payload is `merged(c0)`, and each later payload is
/// `merged(empty)` — the renderer is drained empty between turns, so
/// nothing accumulated earlier leaks into a later event.
pub proof fn lemma_turn_events_index<C: Observable<R>, R: Renderable>(
    c: C,
    level: Level,
    c0: Seq<char>,
    n: nat,
    i: int,
)
    requires
        0 <= i < n,
    ensures
        turn_events::<C, R>(c, level, c0, n)[i] == (
            level,
            c.merged(if i == 0 { c0 } else { Seq::<char>::empty() }),
        ),
    decreases n,
{
    lemma_turn_events_len::<C, R>(c, level, c0, n);
    lemma_turn_events_len::<C, R>(c, level, Seq::empty(), (n - 1) as nat);
    if i == 0 {
        assert(turn_events::<C, R>(c, level, c0, n)[0] == (level, c.merged(c0)));
    } else {
        lemma_turn_events_index::<C, R>(c, level, Seq::empty(), (n - 1) as nat, i - 1);
        assert(turn_events::<C, R>(c, level, c0, n)[i] == turn_events::<C, R>(
            c,
            level,
            Seq::empty(),
            (n - 1) as nat,
        )[i - 1]);
    }
}

/// After a drain has cleared the renderer, consecutive turns cannot
/// duplicate or retain earlier values: starting from an empty
/// accumulation, all `n` emitted events are identical — each is exactly
/// what the controller re-supplies, nothing more.
pub proof fn lemma_consecutive_turns_identical<C: Observable<R>, R: Renderable>(
    c: C,
    level: Level,
    n: nat,
    i: int,
    j: int,
)
    requires
        0 <= i < n,
        0 <= j < n,
    ensures
        turn_events::<C, R>(c, level, Seq::<char>::empty(), n)[i] == turn_events::<C, R>(
            c,
            level,
            Seq::<char>::empty(),
            n,
        )[j],
{
    lemma_turn_events_index::<C, R>(c, level, Seq::<char>::empty(), n, i);
    lemma_turn_events_index::<C, R>(c, level, Seq::<char>::empty(), n, j);
}

} // verus!

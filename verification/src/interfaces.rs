//! Capability interfaces the exporter is built against.
//!
//! The exporter itself owns no metrics, produces no text and performs no
//! waiting: it composes a controller (supplies metric values), a renderer
//! (accumulates values and drains them to text), a sink (receives one log
//! event per turn) and a ticker (marks the end of each waiting period).
//! Each interface carries the contract the exporter's proofs rely on, and
//! implementers prove their types meet it.

use crate::level::Level;
use vstd::prelude::*;

verus! {

/// A renderer accumulates metric observations as text and hands the
/// accumulated snapshot out on demand.
///
/// Draining is both a read and a reset: the returned text is the full
/// accumulation, and afterwards the accumulation is empty, so the next
/// turn starts from a clean slate.
pub trait Renderable: Sized {
    /// The text accumulated so far.
    ///
    /// The default — no accumulation — is for implementations outside the
    /// verified world, of which nothing is proved; implementations here
    /// override it with their real accumulation.
    open spec fn contents(&self) -> Seq<char> {
        Seq::<char>::empty()
    }

    /// Produce the accumulated snapshot and clear the accumulation.
    fn drain(&mut self) -> (out: String)
        ensures
            out@ == old(self).contents(),
            final(self).contents() == Seq::<char>::empty(),
    ;
}

/// A factory that builds a fresh renderer, invoked exactly once at
/// exporter construction.
pub trait Builder<R: Renderable>: Sized {
    /// Build a renderer whose accumulation starts out empty.
    fn build(&self) -> (r: R)
        ensures
            r.contents() == Seq::<char>::empty(),
    ;
}

/// A metrics controller pushes the current metric values into a renderer.
///
/// How the controller combines its values with whatever the renderer has
/// already accumulated (overwrite, append, merge) is controller-defined;
/// the implementer states it once, as `merged`, and proves `observe`
/// against it.
pub trait Observable<R: Renderable>: Sized {
    /// The renderer contents that one observation produces, given the
    /// contents the renderer held before.
    ///
    /// The default — leave the renderer as it is — is for implementations
    /// outside the verified world; implementations here override it with
    /// the combination `observe` really performs.
    open spec fn merged(&self, prior: Seq<char>) -> Seq<char> {
        prior
    }

    /// Push the current metric values into the renderer, synchronously.
    fn observe(&self, renderer: &mut R)
        ensures
            final(renderer).contents() == self.merged(old(renderer).contents()),
    ;
}

/// A structured logging sink. Each call appends exactly one event — a
/// severity level and a single textual payload — to the sink's history.
pub trait Sink: Sized {
    /// Every event the sink has received, oldest first.
    ///
    /// The default — no history — is for implementations outside the
    /// verified world, such as a sink that only forwards each event;
    /// implementations here override it with what they record.
    open spec fn events(&self) -> Seq<(Level, Seq<char>)> {
        Seq::<(Level, Seq<char>)>::empty()
    }

    /// Emit one event at the given level with the given payload.
    fn emit(&mut self, level: Level, text: String)
        ensures
            final(self).events() == old(self).events().push((level, text@)),
    ;
}

/// One waiting period between turns.
///
/// A ticker stands for whatever suspends the loop — a thread sleep, a
/// periodic timer — and `wait` returns only when one full period has
/// elapsed. The tick count records how many periods have completed.
pub trait Ticker: Sized {
    /// How many waiting periods have completed.
    ///
    /// The default is for implementations outside the verified world,
    /// which keep no count; implementations here override it.
    open spec fn ticks(&self) -> nat {
        0
    }

    /// Block or suspend until the next period has elapsed.
    fn wait(&mut self)
        ensures
            final(self).ticks() == old(self).ticks() + 1,
    ;
}

} // verus!

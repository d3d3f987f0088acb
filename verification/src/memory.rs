//! In-memory implementations of the capability interfaces.
//!
//! These are the reference implementations: a renderer that accumulates
//! plain text, a controller that supplies a fixed line, a sink that records
//! events in a vector, and a ticker that only counts. They exercise every
//! contract in `interfaces` without any I/O, clock or logging backend.

use crate::interfaces::{Builder, Observable, Renderable, Sink, Ticker};
use crate::level::Level;
use vstd::prelude::*;
use vstd::string::StringExecFns;

verus! {

/// A renderer that accumulates observations as one growing string.
pub struct TextRenderer {
    /// The text accumulated so far.
    pub text: String,
}

impl TextRenderer {
    /// Append a fragment to the accumulated text.
    pub fn append_text(&mut self, fragment: &str)
        ensures
            final(self).contents() == old(self).contents() + fragment@,
    {
        self.text.append(fragment);
    }
}

impl Renderable for TextRenderer {
    open spec fn contents(&self) -> Seq<char> {
        self.text@
    }

    fn drain(&mut self) -> (out: String) {
        let out = self.text.clone();
        self.text = String::new();
        out
    }
}

/// Builds a [`TextRenderer`] with an empty accumulation.
pub struct TextBuilder;

impl Builder<TextRenderer> for TextBuilder {
    fn build(&self) -> (r: TextRenderer) {
        TextRenderer { text: String::new() }
    }
}

/// A controller that supplies one fixed line of text, appending it to
/// whatever the renderer already holds.
pub struct FixedController {
    /// The line each observation appends.
    pub line: String,
}

impl Observable<TextRenderer> for FixedController {
    open spec fn merged(&self, prior: Seq<char>) -> Seq<char> {
        prior + self.line@
    }

    fn observe(&self, renderer: &mut TextRenderer) {
        renderer.append_text(self.line.as_str());
    }
}

/// A sink that records every event in a vector, oldest first.
pub struct VecSink {
    /// The recorded events.
    pub entries: Vec<(Level, String)>,
}

impl VecSink {
    /// An empty sink.
    pub fn new() -> (r: Self)
        ensures
            r.events() == Seq::<(Level, Seq<char>)>::empty(),
    {
        let r = VecSink { entries: Vec::new() };
        proof {
            assert(r.events() =~= Seq::<(Level, Seq<char>)>::empty());
        }
        r
    }
}

impl Sink for VecSink {
    open spec fn events(&self) -> Seq<(Level, Seq<char>)> {
        self.entries@.map(|i: int, e: (Level, String)| (e.0, e.1@))
    }

    fn emit(&mut self, level: Level, text: String) {
        let ghost prior = *self;
        self.entries.push((level, text));
        proof {
            assert(self.events() =~= prior.events().push((level, text@)));
        }
    }
}

/// A ticker that waits for nothing and only counts the periods asked of it.
pub struct CountingTicker {
    /// How many periods have completed.
    pub count: Ghost<nat>,
}

impl CountingTicker {
    /// A ticker that has completed no periods yet.
    pub fn new() -> (r: Self)
        ensures
            r.ticks() == 0,
    {
        CountingTicker { count: Ghost(0) }
    }
}

impl Ticker for CountingTicker {
    open spec fn ticks(&self) -> nat {
        self.count@
    }

    fn wait(&mut self) {
        proof {
            self.count@ = self.count@ + 1;
        }
    }
}

} // verus!


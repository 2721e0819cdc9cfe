//! A helper to build an instance of [`Layer`] step by step, one struct per
//! combination of options already chosen.

use vstd::prelude::*;

use crate::layer::Layer;
use crate::layer::SpanInfoV;
use crate::output::Output;

verus! {

/// A helper to build an instance of [`Layer`].
pub struct Builder<O: Output>(pub O);

/// A helper to build an instance of [`Layer`] with multiline fields chosen.
///
/// This type is only for type-safe building and not directly instantiable.
pub struct BuilderMultiline<O: Output>(pub O);

/// A helper to build an instance of [`Layer`] with span logging chosen.
///
/// This type is only for type-safe building and not directly instantiable.
pub struct BuilderWithSpans<O: Output>(pub O);

/// A helper to build an instance of [`Layer`] with both multiline fields and
/// span logging chosen.
///
/// This type is only for type-safe building and not directly instantiable.
pub struct BuilderMultilineWithSpans<O: Output>(pub O);

impl<O: Output> Builder<O> {
    /// Creates a new builder with the given output.
    pub fn new(output: O) -> (b: Builder<O>)
        ensures
            b.0 == output,
    {
        Builder(output)
    }

    /// Enables printing each field in a separate line.
    pub fn multiline(self) -> (b: BuilderMultiline<O>)
        ensures
            b.0 == self.0,
    {
        BuilderMultiline(self.0)
    }

    /// Prints each span as soon as it is entered.
    pub fn log_spans(self) -> (b: BuilderWithSpans<O>)
        ensures
            b.0 == self.0,
    {
        BuilderWithSpans(self.0)
    }

    /// Consumes this builder and instantiates a [`Layer`].
    pub fn build(self) -> (l: Layer<O>)
        ensures
            l.output == self.0,
            l.log_spans == false,
            l.multiline == false,
            l.timestamp == true,
            l.last_span == 0,
            l.infos() == Map::<u64, SpanInfoV>::empty(),
    {
        Layer::new(self.0, false, false)
    }
}

impl<O: Output> BuilderMultiline<O> {
    /// Prints each span as soon as it is entered.
    pub fn log_spans(self) -> (b: BuilderMultilineWithSpans<O>)
        ensures
            b.0 == self.0,
    {
        BuilderMultilineWithSpans(self.0)
    }

    /// Consumes this builder and instantiates a [`Layer`].
    pub fn build(self) -> (l: Layer<O>)
        ensures
            l.output == self.0,
            l.log_spans == false,
            l.multiline == true,
            l.timestamp == true,
            l.last_span == 0,
            l.infos() == Map::<u64, SpanInfoV>::empty(),
    {
        Layer::new(self.0, false, true)
    }
}

impl<O: Output> BuilderWithSpans<O> {
    /// Enables printing each field in a separate line.
    pub fn multiline(self) -> (b: BuilderMultilineWithSpans<O>)
        ensures
            b.0 == self.0,
    {
        BuilderMultilineWithSpans(self.0)
    }

    /// Consumes this builder and instantiates a [`Layer`].
    pub fn build(self) -> (l: Layer<O>)
        ensures
            l.output == self.0,
            l.log_spans == true,
            l.multiline == false,
            l.timestamp == true,
            l.last_span == 0,
            l.infos() == Map::<u64, SpanInfoV>::empty(),
    {
        Layer::new(self.0, true, false)
    }
}

impl<O: Output> BuilderMultilineWithSpans<O> {
    /// Consumes this builder and instantiates a [`Layer`].
    pub fn build(self) -> (l: Layer<O>)
        ensures
            l.output == self.0,
            l.log_spans == true,
            l.multiline == true,
            l.timestamp == true,
            l.last_span == 0,
            l.infos() == Map::<u64, SpanInfoV>::empty(),
    {
        Layer::new(self.0, true, true)
    }
}

} // verus!

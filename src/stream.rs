//! The two-channel outcome of a production step, and the life cycle of a
//! streaming source.
use vstd::prelude::*;
use vstd::std_specs::convert::FromSpec;
use crate::errors::{adapt_stream_result, adapted_result, SomeHowStreamResult, SomeSyntaxError};

verus! {

/// The failure of a production step: either the source could not produce
/// (the document is malformed), or the sink rejected what was produced.
#[derive(Debug)]
pub enum StreamError<SourceErr, SinkErr> {
    /// The source failed.
    SourceError(SourceErr),
    /// The sink failed.
    SinkError(SinkErr),
}

/// The outcome of a production step.
pub type StreamResult<T, SourceErr, SinkErr> = Result<T, StreamError<SourceErr, SinkErr>>;

/// Where a streaming source stands between two production steps.
#[derive(Debug, Clone, Copy, PartialEq, Eq, Structural)]
pub enum SourceState {
    /// More statements may come.
    Active,
    /// The end of the document was reached.
    Exhausted,
    /// A step failed, in the source or in the sink; the source is spent.
    Failed,
}

/// The state that an active source moves to after a step with this outcome.
pub open spec fn state_after<S, K>(outcome: StreamResult<bool, S, K>) -> SourceState {
    match outcome {
        Ok(true) => SourceState::Active,
        Ok(false) => SourceState::Exhausted,
        Err(_) => SourceState::Failed,
    }
}

impl SourceState {
    /// The state that an active source moves to after a step with this
    /// outcome: it stays active while more may come, is exhausted at the end,
    /// and fails for good on any error.
    pub fn after<S, K>(outcome: &StreamResult<bool, S, K>) -> (r: SourceState)
        ensures
            r == state_after(*outcome),
    {
        match outcome {
            Ok(true) => SourceState::Active,
            Ok(false) => SourceState::Exhausted,
            Err(_) => SourceState::Failed,
        }
    }

    /// Whether a production step may still ask the engine for statements.
    /// A step on a source that is exhausted or has failed asks nothing of the
    /// engine and reports the end: `Ok(false)`.
    pub fn is_active(&self) -> (r: bool)
        ensures
            r == (*self == SourceState::Active),
    {
        match self {
            SourceState::Active => true,
            _ => false,
        }
    }

    /// Concludes a production step of an active source, from what the engine
    /// returned: the engine's error is adapted into a [`SomeSyntaxError`] that
    /// keeps it as its cause, the consumer's error passes through untouched,
    /// and the source moves to the state that the outcome calls for.
    pub fn conclude<SourceErr, SinkErr>(
        &mut self,
        outcome: StreamResult<bool, SourceErr, SinkErr>,
    ) -> (r: SomeHowStreamResult<bool, SinkErr>) where SomeSyntaxError: From<SourceErr>
        requires
            *old(self) == SourceState::Active,
            <SomeSyntaxError as FromSpec<SourceErr>>::obeys_from_spec(),
        ensures
            r == adapted_result(outcome),
            *final(self) == state_after(outcome),
    {
        *self = SourceState::after(&outcome);
        adapt_stream_result(outcome)
    }

    /// One production step of a source in this state. While the source is
    /// active, `engine_step` is run once, and the step is concluded from its
    /// outcome as [`SourceState::conclude`] does. Once the source is
    /// exhausted or has failed, `engine_step` is not run: the state stays as it
    /// is and the step reports the end, `Ok(false)`.
    pub fn step<G, SourceErr, SinkErr>(&mut self, engine_step: G) -> (r: SomeHowStreamResult<
        bool,
        SinkErr,
    >) where
        G: FnOnce() -> StreamResult<bool, SourceErr, SinkErr>,
        SomeSyntaxError: From<SourceErr>,

        requires
            *old(self) == SourceState::Active ==> call_requires(engine_step, ()),
            <SomeSyntaxError as FromSpec<SourceErr>>::obeys_from_spec(),
        ensures
            *old(self) != SourceState::Active ==> (r matches Ok(more) && !more) && *final(self) == *old(self),
            *old(self) == SourceState::Active ==> exists|outcome: StreamResult<bool, SourceErr, SinkErr>|
                #![trigger adapted_result(outcome)]
                {
                    &&& call_ensures(engine_step, (), outcome)
                    &&& r == adapted_result(outcome)
                    &&& *final(self) == state_after(outcome)
                },
    {
        if !self.is_active() {
            return Ok(false);
        }
        let outcome = engine_step();
        let ghost o = outcome;
        let r = self.conclude(outcome);
        assert(call_ensures(engine_step, (), o) && r == adapted_result(o));
        r
    }
}

} // verus!

//! One error identity for the errors of every parsing engine.
use vstd::prelude::*;
use vstd::std_specs::convert::FromSpec;
use rio_turtle::TurtleError;
use rio_xml::RdfXmlError;
use crate::stream::{StreamError, StreamResult};

verus! {

#[verifier::external_type_specification]
#[verifier::external_body]
pub struct ExTurtleError(rio_turtle::TurtleError);

#[verifier::external_type_specification]
#[verifier::external_body]
pub struct ExRdfXmlError(rio_xml::RdfXmlError);

/// A syntax error from one of the parsing engines. The engine's own error is
/// kept as it is, as the cause.
#[derive(Debug)]
pub enum SomeSyntaxError {
    /// An error of the Turtle-family engine (N-Triples, N-Quads, Turtle, TriG).
    TurtleError(TurtleError),
    /// An error of the RDF/XML engine.
    RdfXmlError(RdfXmlError),
}

impl From<TurtleError> for SomeSyntaxError {
    fn from(e: TurtleError) -> (r: SomeSyntaxError) {
        SomeSyntaxError::TurtleError(e)
    }
}

impl vstd::std_specs::convert::FromSpecImpl<TurtleError> for SomeSyntaxError {
    open spec fn obeys_from_spec() -> bool {
        true
    }

    open spec fn from_spec(e: TurtleError) -> SomeSyntaxError {
        SomeSyntaxError::TurtleError(e)
    }
}

impl From<RdfXmlError> for SomeSyntaxError {
    fn from(e: RdfXmlError) -> (r: SomeSyntaxError) {
        SomeSyntaxError::RdfXmlError(e)
    }
}

impl vstd::std_specs::convert::FromSpecImpl<RdfXmlError> for SomeSyntaxError {
    open spec fn obeys_from_spec() -> bool {
        true
    }

    open spec fn from_spec(e: RdfXmlError) -> SomeSyntaxError {
        SomeSyntaxError::RdfXmlError(e)
    }
}

/// A stream error whose source side is a [`SomeSyntaxError`].
pub type SomeHowStreamError<SinkErr> = StreamError<SomeSyntaxError, SinkErr>;

/// A stream result whose source side is a [`SomeSyntaxError`].
pub type SomeHowStreamResult<T, SinkErr> = StreamResult<T, SomeSyntaxError, SinkErr>;

/// The adapted form of a stream error: the source side is converted into a
/// [`SomeSyntaxError`], the sink side is left as it is.
pub open spec fn adapted_error<SourceErr, SinkErr>(
    e: StreamError<SourceErr, SinkErr>,
) -> StreamError<SomeSyntaxError, SinkErr> where SomeSyntaxError: From<SourceErr> {
    match e {
        StreamError::SourceError(x) => StreamError::SourceError(
            <SomeSyntaxError as FromSpec<SourceErr>>::from_spec(x),
        ),
        StreamError::SinkError(k) => StreamError::SinkError(k),
    }
}

/// The adapted form of a stream result.
pub open spec fn adapted_result<T, SourceErr, SinkErr>(
    r: StreamResult<T, SourceErr, SinkErr>,
) -> SomeHowStreamResult<T, SinkErr> where SomeSyntaxError: From<SourceErr> {
    match r {
        Ok(v) => Ok(v),
        Err(e) => Err(adapted_error(e)),
    }
}

/// Converts the source side of a stream error into a [`SomeSyntaxError`],
/// which keeps the engine's error as its cause. The sink side passes through
/// untouched, so that a caller still tells a malformed document from a
/// rejecting consumer.
pub fn adapt_stream_error<SourceErr, SinkErr>(
    e: StreamError<SourceErr, SinkErr>,
) -> (r: SomeHowStreamError<SinkErr>) where SomeSyntaxError: From<SourceErr>
    requires
        <SomeSyntaxError as FromSpec<SourceErr>>::obeys_from_spec(),
    ensures
        r == adapted_error(e),
{
    match e {
        StreamError::SourceError(x) => StreamError::SourceError(SomeSyntaxError::from(x)),
        StreamError::SinkError(k) => StreamError::SinkError(k),
    }
}

/// Adapts the error of a stream result as [`adapt_stream_error`] does; a
/// success passes through.
pub fn adapt_stream_result<T, SourceErr, SinkErr>(
    r: StreamResult<T, SourceErr, SinkErr>,
) -> (out: SomeHowStreamResult<T, SinkErr>) where SomeSyntaxError: From<SourceErr>
    requires
        <SomeSyntaxError as FromSpec<SourceErr>>::obeys_from_spec(),
    ensures
        out == adapted_result(r),
{
    match r {
        Ok(v) => Ok(v),
        Err(e) => Err(adapt_stream_error(e)),
    }
}

/// Adapting keeps each outcome on its channel: a success is unchanged, a
/// source error stays a source error, and a sink error comes out exactly as it
/// went in.
pub proof fn lemma_channels_kept<T, SourceErr, SinkErr>(
    r: StreamResult<T, SourceErr, SinkErr>,
) where SomeSyntaxError: From<SourceErr>
    ensures
        r matches Ok(v) ==> adapted_result(r) == Ok::<T, SomeHowStreamError<SinkErr>>(v),
        (adapted_result(r) matches Err(StreamError::SourceError(_))) <==> (r matches Err(StreamError::SourceError(_))),
        r matches Err(StreamError::SinkError(k)) ==> adapted_result(r) == Err::<T, SomeHowStreamError<SinkErr>>(StreamError::SinkError(k)),
{
}

} // verus!

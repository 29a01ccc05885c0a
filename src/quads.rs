//! Choosing a quad parser from a syntax.
use vstd::prelude::*;
use crate::syntax::{Syntax, N_QUADS, TRIG};

verus! {

/// The syntaxes whose documents can be parsed into quads.
pub open spec fn supports_quads(s: Syntax) -> bool {
    s == N_QUADS || s == TRIG
}

/// The error of a syntax that cannot be parsed into quads. It carries the
/// syntax.
#[derive(Debug, Clone, Copy, PartialEq, Eq)]
pub struct UnSupportedQuadSyntaxError(Syntax);

impl View for UnSupportedQuadSyntaxError {
    type V = Syntax;

    closed spec fn view(&self) -> Syntax {
        self.0
    }
}

impl UnSupportedQuadSyntaxError {
    /// The syntax that was asked for.
    pub fn syntax(&self) -> (r: Syntax)
        ensures
            r == self@,
    {
        self.0
    }

    /// A message that names the syntax.
    pub fn to_string(&self) -> (r: String)
        ensures
            r@ == "Un supported quad syntax: "@ + crate::syntax::syntax_iri(self@),
    {
        String::from_str("Un supported quad syntax: ").concat(self.0.iri())
    }
}

/// The engine that a quad parser runs, with what that engine is given.
#[derive(Debug, Clone)]
pub enum QuadParserVariant {
    /// The N-Quads engine.
    NQuadsParser,
    /// The TriG engine, which resolves relative IRIs against `base`.
    TriGParser {
        /// The base IRI, if any.
        base: Option<String>,
    },
}

impl QuadParserVariant {
    /// The syntax that this engine parses.
    pub open spec fn syntax(&self) -> Syntax {
        match self {
            QuadParserVariant::NQuadsParser => Syntax::NQuads,
            QuadParserVariant::TriGParser { .. } => Syntax::TriG,
        }
    }
}

/// A parser of quads from documents in one of the syntaxes that
/// [`supports_quads`] names, chosen at run time.
#[derive(Debug, Clone)]
pub struct SomeSyntaxQuadParser(QuadParserVariant);

impl View for SomeSyntaxQuadParser {
    type V = QuadParserVariant;

    closed spec fn view(&self) -> QuadParserVariant {
        self.0
    }
}

impl SomeSyntaxQuadParser {
    /// A parser for documents in `syntax_`, or an error that carries the
    /// syntax if it cannot be parsed into quads. The base IRI is handed as it
    /// is to the engines that resolve relative IRIs (TriG) and dropped by the
    /// others.
    pub fn try_new(syntax_: Syntax, base_iri: Option<String>) -> (r: Result<
        SomeSyntaxQuadParser,
        UnSupportedQuadSyntaxError,
    >)
        ensures
            r is Ok <==> supports_quads(syntax_),
            r matches Ok(p) ==> p@.syntax() == syntax_,
            syntax_ == TRIG ==> (r matches Ok(p) && p@ == (QuadParserVariant::TriGParser { base: base_iri })),
            r matches Err(e) ==> e@ == syntax_,
    {
        if syntax_ == N_QUADS {
            Ok(SomeSyntaxQuadParser(QuadParserVariant::NQuadsParser))
        } else if syntax_ == TRIG {
            Ok(SomeSyntaxQuadParser(QuadParserVariant::TriGParser { base: base_iri }))
        } else {
            Err(UnSupportedQuadSyntaxError(syntax_))
        }
    }

    /// The engine that this parser runs.
    pub fn variant(&self) -> (r: &QuadParserVariant)
        ensures
            *r == self@,
    {
        &self.0
    }

    /// The syntax that this parser reads.
    pub fn syntax(&self) -> (r: Syntax)
        ensures
            r == self@.syntax(),
    {
        match &self.0 {
            QuadParserVariant::NQuadsParser => N_QUADS,
            QuadParserVariant::TriGParser { .. } => TRIG,
        }
    }
}

} // verus!

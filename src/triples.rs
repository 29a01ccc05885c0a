//! Choosing a triple parser from a syntax.
use vstd::prelude::*;
use crate::syntax::{Syntax, N_TRIPLES, RDF_XML, TURTLE};

verus! {

/// The syntaxes whose documents can be parsed into triples.
pub open spec fn supports_triples(s: Syntax) -> bool {
    s == N_TRIPLES || s == TURTLE || s == RDF_XML
}

/// The error of a syntax that cannot be parsed into triples. It carries the
/// syntax.
#[derive(Debug, Clone, Copy, PartialEq, Eq)]
pub struct UnSupportedTripleSyntaxError(Syntax);

impl View for UnSupportedTripleSyntaxError {
    type V = Syntax;

    closed spec fn view(&self) -> Syntax {
        self.0
    }
}

impl UnSupportedTripleSyntaxError {
    /// The syntax that was asked for.
    pub fn syntax(&self) -> (r: Syntax)
        ensures
            r == self@,
    {
        self.0
    }

    /// A message that names the syntax.
    pub fn to_string(&self) -> (r: String)
        ensures
            r@ == "Un supported triple syntax: "@ + crate::syntax::syntax_iri(self@),
    {
        String::from_str("Un supported triple syntax: ").concat(self.0.iri())
    }
}

/// The engine that a triple parser runs, with what that engine is given.
#[derive(Debug, Clone)]
pub enum TripleParserVariant {
    /// The RDF/XML engine, which resolves relative IRIs against `base`.
    RdfXmlParser {
        /// The base IRI, if any.
        base: Option<String>,
    },
    /// The Turtle engine, which resolves relative IRIs against `base`.
    TurtleParser {
        /// The base IRI, if any.
        base: Option<String>,
    },
    /// The N-Triples engine.
    NTripleParser,
}

impl TripleParserVariant {
    /// The syntax that this engine parses.
    pub open spec fn syntax(&self) -> Syntax {
        match self {
            TripleParserVariant::RdfXmlParser { .. } => Syntax::RdfXml,
            TripleParserVariant::TurtleParser { .. } => Syntax::Turtle,
            TripleParserVariant::NTripleParser => Syntax::NTriples,
        }
    }
}

/// A parser of triples from documents in one of the syntaxes that
/// [`supports_triples`] names, chosen at run time.
#[derive(Debug, Clone)]
pub struct SomeSyntaxTripleParser(TripleParserVariant);

impl View for SomeSyntaxTripleParser {
    type V = TripleParserVariant;

    closed spec fn view(&self) -> TripleParserVariant {
        self.0
    }
}

impl SomeSyntaxTripleParser {
    /// A parser for documents in `syntax_`, or an error that carries the
    /// syntax if it cannot be parsed into triples. The base IRI is handed as
    /// it is to the engines that resolve relative IRIs (Turtle, RDF/XML) and
    /// dropped by the others.
    pub fn try_new(syntax_: Syntax, base_iri: Option<String>) -> (r: Result<
        SomeSyntaxTripleParser,
        UnSupportedTripleSyntaxError,
    >)
        ensures
            r is Ok <==> supports_triples(syntax_),
            r matches Ok(p) ==> p@.syntax() == syntax_,
            syntax_ == TURTLE ==> (r matches Ok(p) && p@ == (TripleParserVariant::TurtleParser { base: base_iri })),
            syntax_ == RDF_XML ==> (r matches Ok(p) && p@ == (TripleParserVariant::RdfXmlParser { base: base_iri })),
            r matches Err(e) ==> e@ == syntax_,
    {
        if syntax_ == N_TRIPLES {
            Ok(SomeSyntaxTripleParser(TripleParserVariant::NTripleParser))
        } else if syntax_ == TURTLE {
            Ok(SomeSyntaxTripleParser(TripleParserVariant::TurtleParser { base: base_iri }))
        } else if syntax_ == RDF_XML {
            Ok(SomeSyntaxTripleParser(TripleParserVariant::RdfXmlParser { base: base_iri }))
        } else {
            Err(UnSupportedTripleSyntaxError(syntax_))
        }
    }

    /// The engine that this parser runs.
    pub fn variant(&self) -> (r: &TripleParserVariant)
        ensures
            *r == self@,
    {
        &self.0
    }

    /// The syntax that this parser reads.
    pub fn syntax(&self) -> (r: Syntax)
        ensures
            r == self@.syntax(),
    {
        match &self.0 {
            TripleParserVariant::RdfXmlParser { .. } => RDF_XML,
            TripleParserVariant::TurtleParser { .. } => TURTLE,
            TripleParserVariant::NTripleParser => N_TRIPLES,
        }
    }
}

} // verus!

//! Identities of concrete RDF syntaxes.
use vstd::prelude::*;

verus! {

/// A concrete RDF syntax: one serialization in which RDF graphs or datasets
/// can be written unambiguously.
///
/// Two values are the same syntax exactly when they are the same variant; the
/// canonical name of each is given by [`Syntax::iri`].
#[derive(Debug, Clone, Copy, PartialEq, Eq, Hash, Structural)]
pub enum Syntax {
    /// RDF 1.1 Turtle: Terse RDF Triple Language.
    Turtle,
    /// RDF 1.1 XML Syntax.
    RdfXml,
    /// Notation3 (N3): A readable RDF syntax.
    N3,
    /// RDF 1.1 N-Triples: A line-based syntax for an RDF graph.
    NTriples,
    /// RDF 1.1 N-Quads: A line-based syntax for RDF datasets.
    NQuads,
    /// OWL 2 Web Ontology Language XML Serialization.
    Owl2Xml,
    /// OWL 2 Web Ontology Language Manchester Syntax.
    Owl2Manchester,
    /// RDF 1.1 TriG: RDF Dataset Language.
    TriG,
    /// JSON-LD 1.1: A JSON-based Serialization for Linked Data.
    JsonLd,
    /// XHTML+RDFa 1.1: Support for RDFa via XHTML Modularization.
    XhtmlRdfa,
    /// HTML+RDFa 1.1: Support for RDFa in HTML4 and HTML5.
    HtmlRdfa,
}

/// RDF 1.1 Turtle.
pub const TURTLE: Syntax = Syntax::Turtle;

/// RDF 1.1 XML Syntax.
pub const RDF_XML: Syntax = Syntax::RdfXml;

/// Notation3.
pub const N3: Syntax = Syntax::N3;

/// RDF 1.1 N-Triples.
pub const N_TRIPLES: Syntax = Syntax::NTriples;

/// RDF 1.1 N-Quads.
pub const N_QUADS: Syntax = Syntax::NQuads;

/// OWL 2 XML Serialization.
pub const OWL2_XML: Syntax = Syntax::Owl2Xml;

/// OWL 2 Manchester Syntax.
pub const OWL2_MANCHESTER: Syntax = Syntax::Owl2Manchester;

/// RDF 1.1 TriG.
pub const TRIG: Syntax = Syntax::TriG;

/// JSON-LD 1.1.
pub const JSON_LD: Syntax = Syntax::JsonLd;

/// XHTML+RDFa 1.1.
pub const XHTML_RDFA: Syntax = Syntax::XhtmlRdfa;

/// HTML+RDFa 1.1.
pub const HTML_RDFA: Syntax = Syntax::HtmlRdfa;

/// The canonical IRI that names a syntax: the address of its specification.
pub open spec fn syntax_iri(s: Syntax) -> Seq<char> {
    match s {
        Syntax::Turtle => "http://www.w3.org/TR/turtle/"@,
        Syntax::RdfXml => "http://www.w3.org/TR/rdf-syntax-grammar/"@,
        Syntax::N3 => "http://www.w3.org/TeamSubmission/n3/"@,
        Syntax::NTriples => "http://www.w3.org/TR/n-triples/"@,
        Syntax::NQuads => "http://www.w3.org/TR/n-quads/"@,
        Syntax::Owl2Xml => "https://www.w3.org/TR/owl2-xml-serialization/"@,
        Syntax::Owl2Manchester => "https://www.w3.org/TR/owl2-manchester-syntax/"@,
        Syntax::TriG => "https://www.w3.org/TR/trig/"@,
        Syntax::JsonLd => "https://www.w3.org/TR/json-ld/"@,
        Syntax::XhtmlRdfa => "https://www.w3.org/TR/xhtml-rdfa/"@,
        Syntax::HtmlRdfa => "https://www.w3.org/TR/html-rdfa/"@,
    }
}

impl Syntax {
    /// The canonical IRI of this syntax.
    pub fn iri(&self) -> (r: &'static str)
        ensures
            r@ == syntax_iri(*self),
    {
        match self {
            Syntax::Turtle => "http://www.w3.org/TR/turtle/",
            Syntax::RdfXml => "http://www.w3.org/TR/rdf-syntax-grammar/",
            Syntax::N3 => "http://www.w3.org/TeamSubmission/n3/",
            Syntax::NTriples => "http://www.w3.org/TR/n-triples/",
            Syntax::NQuads => "http://www.w3.org/TR/n-quads/",
            Syntax::Owl2Xml => "https://www.w3.org/TR/owl2-xml-serialization/",
            Syntax::Owl2Manchester => "https://www.w3.org/TR/owl2-manchester-syntax/",
            Syntax::TriG => "https://www.w3.org/TR/trig/",
            Syntax::JsonLd => "https://www.w3.org/TR/json-ld/",
            Syntax::XhtmlRdfa => "https://www.w3.org/TR/xhtml-rdfa/",
            Syntax::HtmlRdfa => "https://www.w3.org/TR/html-rdfa/",
        }
    }

    /// The canonical IRI of this syntax, as an owned string.
    pub fn to_string(&self) -> (r: String)
        ensures
            r@ == syntax_iri(*self),
    {
        String::from_str(self.iri())
    }
}

} // verus!

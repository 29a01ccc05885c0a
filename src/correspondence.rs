//! The fixed correspondence between syntaxes, file extensions and media types.
//!
//! Four mappings are kept: from a syntax to its preferred file extension and
//! media type, and from a file extension or media type back to a syntax. The
//! reverse mappings also hold informal entries, for extensions and media types
//! that only suggest RDF content; those are marked as not total.
use vstd::prelude::*;
use crate::file_extension::FileExtension;
use crate::media_type::MediaType;
use crate::syntax::Syntax;

verus! {

/// A value that corresponds to some other entity, together with whether the
/// correspondence is total: `is_total` is false where the value is only a
/// likely guess, because the entity is shared with non-RDF uses.
#[derive(Debug, Clone, Copy, PartialEq, Eq, Hash)]
pub struct Correspondent<T> {
    /// The corresponding value.
    pub value: T,
    /// Whether the correspondence is total.
    pub is_total: bool,
}

/// Whether two strings hold the same characters, compared by their UTF-8 bytes.
fn same_chars(a: &str, b: &str) -> (r: bool)
    ensures
        r == (a@ == b@),
{
    let x = a.as_bytes();
    let y = b.as_bytes();
    proof {
        vstd::utf8::encode_utf8_decode_utf8(a@);
        vstd::utf8::encode_utf8_decode_utf8(b@);
    }
    if x.len() != y.len() {
        return false;
    }
    let mut i: usize = 0;
    while i < x.len()
        invariant
            x@ == vstd::utf8::encode_utf8(a@),
            y@ == vstd::utf8::encode_utf8(b@),
            x@.len() == y@.len(),
            0 <= i <= x@.len(),
            forall|j: int| 0 <= j < i ==> x@[j] == y@[j],
        decreases x@.len() - i,
    {
        if x[i] != y[i] {
            return false;
        }
        i = i + 1;
    }
    assert(x@ =~= y@);
    true
}

/// The syntax that a file extension stands for, if the extension is known.
pub open spec fn extension_correspondent(e: Seq<char>) -> Option<Correspondent<Syntax>> {
    if e == "html"@ {
        Some(Correspondent { value: Syntax::HtmlRdfa, is_total: false })
    } else if e == "jsonld"@ {
        Some(Correspondent { value: Syntax::JsonLd, is_total: true })
    } else if e == "json"@ {
        Some(Correspondent { value: Syntax::JsonLd, is_total: false })
    } else if e == "n3"@ {
        Some(Correspondent { value: Syntax::N3, is_total: true })
    } else if e == "nq"@ {
        Some(Correspondent { value: Syntax::NQuads, is_total: true })
    } else if e == "nquads"@ {
        Some(Correspondent { value: Syntax::NQuads, is_total: true })
    } else if e == "nt"@ {
        Some(Correspondent { value: Syntax::NTriples, is_total: true })
    } else if e == "ntriples"@ {
        Some(Correspondent { value: Syntax::NTriples, is_total: true })
    } else if e == "omn"@ {
        Some(Correspondent { value: Syntax::Owl2Manchester, is_total: true })
    } else if e == "owl"@ {
        Some(Correspondent { value: Syntax::Owl2Xml, is_total: true })
    } else if e == "owx"@ {
        Some(Correspondent { value: Syntax::Owl2Xml, is_total: true })
    } else if e == "rdf"@ {
        Some(Correspondent { value: Syntax::RdfXml, is_total: true })
    } else if e == "rdfxml"@ {
        Some(Correspondent { value: Syntax::RdfXml, is_total: true })
    } else if e == "trig"@ {
        Some(Correspondent { value: Syntax::TriG, is_total: true })
    } else if e == "ttl"@ {
        Some(Correspondent { value: Syntax::Turtle, is_total: true })
    } else if e == "turtle"@ {
        Some(Correspondent { value: Syntax::Turtle, is_total: true })
    } else if e == "xhtml"@ {
        Some(Correspondent { value: Syntax::XhtmlRdfa, is_total: false })
    } else {
        None
    }
}

/// The syntax that a media-type essence stands for, if it is known.
pub open spec fn media_type_correspondent(m: Seq<char>) -> Option<Correspondent<Syntax>> {
    if m == "text/html"@ {
        Some(Correspondent { value: Syntax::HtmlRdfa, is_total: false })
    } else if m == "application/ld+json"@ {
        Some(Correspondent { value: Syntax::JsonLd, is_total: true })
    } else if m == "text/n3"@ {
        Some(Correspondent { value: Syntax::N3, is_total: true })
    } else if m == "application/n-quads"@ {
        Some(Correspondent { value: Syntax::NQuads, is_total: true })
    } else if m == "application/n-triples"@ {
        Some(Correspondent { value: Syntax::NTriples, is_total: true })
    } else if m == "text/owl-manchester"@ {
        Some(Correspondent { value: Syntax::Owl2Manchester, is_total: true })
    } else if m == "application/rdf+xml"@ {
        Some(Correspondent { value: Syntax::RdfXml, is_total: true })
    } else if m == "application/owl+xml"@ {
        Some(Correspondent { value: Syntax::Owl2Xml, is_total: true })
    } else if m == "application/trig"@ {
        Some(Correspondent { value: Syntax::TriG, is_total: true })
    } else if m == "text/turtle"@ {
        Some(Correspondent { value: Syntax::Turtle, is_total: true })
    } else if m == "application/xhtml+xml"@ {
        Some(Correspondent { value: Syntax::XhtmlRdfa, is_total: false })
    } else {
        None
    }
}

/// The preferred file extension of a syntax.
pub open spec fn preferred_extension(s: Syntax) -> Seq<char> {
    match s {
        Syntax::HtmlRdfa => "html"@,
        Syntax::JsonLd => "jsonld"@,
        Syntax::N3 => "n3"@,
        Syntax::NQuads => "nq"@,
        Syntax::NTriples => "nt"@,
        Syntax::Owl2Manchester => "omn"@,
        Syntax::Owl2Xml => "owl"@,
        Syntax::RdfXml => "rdf"@,
        Syntax::TriG => "trig"@,
        Syntax::Turtle => "ttl"@,
        Syntax::XhtmlRdfa => "xhtml"@,
    }
}

/// The preferred media type of a syntax.
pub open spec fn preferred_media_type(s: Syntax) -> Seq<char> {
    match s {
        Syntax::HtmlRdfa => "text/html"@,
        Syntax::JsonLd => "application/ld+json"@,
        Syntax::N3 => "text/n3"@,
        Syntax::NQuads => "application/n-quads"@,
        Syntax::NTriples => "application/n-triples"@,
        Syntax::Owl2Manchester => "text/owl-manchester"@,
        Syntax::Owl2Xml => "application/owl+xml"@,
        Syntax::RdfXml => "application/rdf+xml"@,
        Syntax::TriG => "application/trig"@,
        Syntax::Turtle => "text/turtle"@,
        Syntax::XhtmlRdfa => "application/xhtml+xml"@,
    }
}

/// The syntax that a file extension stands for, with the totality of that
/// correspondence; nothing for an extension that is not known.
pub fn extension_to_syntax(extension: &FileExtension) -> (r: Option<Correspondent<Syntax>>)
    ensures
        r == extension_correspondent(extension@),
{
    let e = extension.as_str();
    if same_chars(e, "html") {
        Some(Correspondent { value: Syntax::HtmlRdfa, is_total: false })
    } else if same_chars(e, "jsonld") {
        Some(Correspondent { value: Syntax::JsonLd, is_total: true })
    } else if same_chars(e, "json") {
        Some(Correspondent { value: Syntax::JsonLd, is_total: false })
    } else if same_chars(e, "n3") {
        Some(Correspondent { value: Syntax::N3, is_total: true })
    } else if same_chars(e, "nq") {
        Some(Correspondent { value: Syntax::NQuads, is_total: true })
    } else if same_chars(e, "nquads") {
        Some(Correspondent { value: Syntax::NQuads, is_total: true })
    } else if same_chars(e, "nt") {
        Some(Correspondent { value: Syntax::NTriples, is_total: true })
    } else if same_chars(e, "ntriples") {
        Some(Correspondent { value: Syntax::NTriples, is_total: true })
    } else if same_chars(e, "omn") {
        Some(Correspondent { value: Syntax::Owl2Manchester, is_total: true })
    } else if same_chars(e, "owl") {
        Some(Correspondent { value: Syntax::Owl2Xml, is_total: true })
    } else if same_chars(e, "owx") {
        Some(Correspondent { value: Syntax::Owl2Xml, is_total: true })
    } else if same_chars(e, "rdf") {
        Some(Correspondent { value: Syntax::RdfXml, is_total: true })
    } else if same_chars(e, "rdfxml") {
        Some(Correspondent { value: Syntax::RdfXml, is_total: true })
    } else if same_chars(e, "trig") {
        Some(Correspondent { value: Syntax::TriG, is_total: true })
    } else if same_chars(e, "ttl") {
        Some(Correspondent { value: Syntax::Turtle, is_total: true })
    } else if same_chars(e, "turtle") {
        Some(Correspondent { value: Syntax::Turtle, is_total: true })
    } else if same_chars(e, "xhtml") {
        Some(Correspondent { value: Syntax::XhtmlRdfa, is_total: false })
    } else {
        None
    }
}

/// The syntax that a media type stands for, with the totality of that
/// correspondence; nothing for a media type that is not known.
pub fn media_type_to_syntax(media_type: &MediaType) -> (r: Option<Correspondent<Syntax>>)
    ensures
        r == media_type_correspondent(media_type@),
{
    let m = media_type.essence();
    if same_chars(m, "text/html") {
        Some(Correspondent { value: Syntax::HtmlRdfa, is_total: false })
    } else if same_chars(m, "application/ld+json") {
        Some(Correspondent { value: Syntax::JsonLd, is_total: true })
    } else if same_chars(m, "text/n3") {
        Some(Correspondent { value: Syntax::N3, is_total: true })
    } else if same_chars(m, "application/n-quads") {
        Some(Correspondent { value: Syntax::NQuads, is_total: true })
    } else if same_chars(m, "application/n-triples") {
        Some(Correspondent { value: Syntax::NTriples, is_total: true })
    } else if same_chars(m, "text/owl-manchester") {
        Some(Correspondent { value: Syntax::Owl2Manchester, is_total: true })
    } else if same_chars(m, "application/rdf+xml") {
        Some(Correspondent { value: Syntax::RdfXml, is_total: true })
    } else if same_chars(m, "application/owl+xml") {
        Some(Correspondent { value: Syntax::Owl2Xml, is_total: true })
    } else if same_chars(m, "application/trig") {
        Some(Correspondent { value: Syntax::TriG, is_total: true })
    } else if same_chars(m, "text/turtle") {
        Some(Correspondent { value: Syntax::Turtle, is_total: true })
    } else if same_chars(m, "application/xhtml+xml") {
        Some(Correspondent { value: Syntax::XhtmlRdfa, is_total: false })
    } else {
        None
    }
}

/// The preferred file extension of a syntax. Every syntax has one, and the
/// correspondence is total.
pub fn syntax_to_extension(syntax: Syntax) -> (r: Correspondent<FileExtension>)
    ensures
        r.value@ == preferred_extension(syntax),
        r.is_total,
{
    let e = match syntax {
        Syntax::HtmlRdfa => "html",
        Syntax::JsonLd => "jsonld",
        Syntax::N3 => "n3",
        Syntax::NQuads => "nq",
        Syntax::NTriples => "nt",
        Syntax::Owl2Manchester => "omn",
        Syntax::Owl2Xml => "owl",
        Syntax::RdfXml => "rdf",
        Syntax::TriG => "trig",
        Syntax::Turtle => "ttl",
        Syntax::XhtmlRdfa => "xhtml",
    };
    Correspondent { value: FileExtension::new(e), is_total: true }
}

/// The preferred media type of a syntax. Every syntax has one, and the
/// correspondence is total.
pub fn syntax_to_media_type(syntax: Syntax) -> (r: Correspondent<MediaType>)
    ensures
        r.value@ == preferred_media_type(syntax),
        r.is_total,
{
    let m = match syntax {
        Syntax::HtmlRdfa => "text/html",
        Syntax::JsonLd => "application/ld+json",
        Syntax::N3 => "text/n3",
        Syntax::NQuads => "application/n-quads",
        Syntax::NTriples => "application/n-triples",
        Syntax::Owl2Manchester => "text/owl-manchester",
        Syntax::Owl2Xml => "application/owl+xml",
        Syntax::RdfXml => "application/rdf+xml",
        Syntax::TriG => "application/trig",
        Syntax::Turtle => "text/turtle",
        Syntax::XhtmlRdfa => "application/xhtml+xml",
    };
    Correspondent { value: MediaType::from_essence(m), is_total: true }
}

/// The file extensions that the correspondence knows.
pub open spec fn known_extensions() -> Set<Seq<char>> {
    set!["html"@, "jsonld"@, "json"@, "n3"@, "nq"@, "nquads"@, "nt"@, "ntriples"@, "omn"@, "owl"@, "owx"@, "rdf"@, "rdfxml"@, "trig"@, "ttl"@, "turtle"@, "xhtml"@]
}

/// The media-type essences that the correspondence knows.
pub open spec fn known_media_types() -> Set<Seq<char>> {
    set!["text/html"@, "application/ld+json"@, "text/n3"@, "application/n-quads"@, "application/n-triples"@, "text/owl-manchester"@, "application/rdf+xml"@, "application/owl+xml"@, "application/trig"@, "text/turtle"@, "application/xhtml+xml"@]
}

/// The file extensions that only suggest RDF content.
pub open spec fn informal_extensions() -> Set<Seq<char>> {
    set!["html"@, "json"@, "xhtml"@]
}

/// The media types that only suggest RDF content.
pub open spec fn informal_media_types() -> Set<Seq<char>> {
    set!["text/html"@, "application/xhtml+xml"@]
}

/// A file extension or media type resolves to a syntax exactly when it is
/// known: any other one, such as `png` or `application/pdf`, resolves to
/// nothing.
pub proof fn lemma_known_keys_resolve(e: Seq<char>, m: Seq<char>)
    ensures
        extension_correspondent(e) is Some <==> known_extensions().contains(e),
        media_type_correspondent(m) is Some <==> known_media_types().contains(m),
{
}

/// The correspondence of a known file extension or media type is total
/// exactly when it is not one of the informal ones (`html`, `json`, `xhtml`,
/// `text/html`, `application/xhtml+xml`), which resolve with `is_total` false.
pub proof fn lemma_totality(e: Seq<char>, m: Seq<char>)
    ensures
        extension_correspondent(e) matches Some(c) ==> (c.is_total <==> !informal_extensions().contains(e)),
        media_type_correspondent(m) matches Some(c) ==> (c.is_total <==> !informal_media_types().contains(m)),
        informal_extensions().contains(e) ==> (extension_correspondent(e) matches Some(c) && !c.is_total),
        informal_media_types().contains(m) ==> (media_type_correspondent(m) matches Some(c) && !c.is_total),
{
    reveal_strlit("html");
    assert("html"@.len() == 4);
    reveal_strlit("jsonld");
    assert("jsonld"@.len() == 6);
    reveal_strlit("json");
    assert("json"@.len() == 4);
    reveal_strlit("n3");
    assert("n3"@.len() == 2);
    reveal_strlit("nq");
    assert("nq"@.len() == 2);
    reveal_strlit("nquads");
    assert("nquads"@.len() == 6);
    reveal_strlit("nt");
    assert("nt"@.len() == 2);
    reveal_strlit("ntriples");
    assert("ntriples"@.len() == 8);
    reveal_strlit("omn");
    assert("omn"@.len() == 3);
    reveal_strlit("owl");
    assert("owl"@.len() == 3);
    reveal_strlit("owx");
    assert("owx"@.len() == 3);
    reveal_strlit("rdf");
    assert("rdf"@.len() == 3);
    reveal_strlit("rdfxml");
    assert("rdfxml"@.len() == 6);
    reveal_strlit("trig");
    assert("trig"@.len() == 4);
    reveal_strlit("ttl");
    assert("ttl"@.len() == 3);
    reveal_strlit("turtle");
    assert("turtle"@.len() == 6);
    reveal_strlit("xhtml");
    assert("xhtml"@.len() == 5);
    reveal_strlit("text/html");
    assert("text/html"@.len() == 9);
    reveal_strlit("application/ld+json");
    assert("application/ld+json"@.len() == 19);
    reveal_strlit("text/n3");
    assert("text/n3"@.len() == 7);
    reveal_strlit("application/n-quads");
    assert("application/n-quads"@.len() == 19);
    reveal_strlit("application/n-triples");
    assert("application/n-triples"@.len() == 21);
    reveal_strlit("text/owl-manchester");
    assert("text/owl-manchester"@.len() == 19);
    reveal_strlit("application/rdf+xml");
    assert("application/rdf+xml"@.len() == 19);
    reveal_strlit("application/owl+xml");
    assert("application/owl+xml"@.len() == 19);
    reveal_strlit("application/trig");
    assert("application/trig"@.len() == 16);
    reveal_strlit("text/turtle");
    assert("text/turtle"@.len() == 11);
    reveal_strlit("application/xhtml+xml");
    assert("application/xhtml+xml"@.len() == 21);
    assert("trig"@[0] != "html"@[0] && "trig"@[0] != "json"@[0]);
    assert("application/n-triples"@[12] != "application/xhtml+xml"@[12]);
}

/// The documented vocabulary: each known file extension and media type
/// resolves to its syntax, totally except for the informal ones.
pub proof fn lemma_documented_vocabulary()
    ensures
        extension_correspondent("html"@) == Some(Correspondent { value: Syntax::HtmlRdfa, is_total: false }),
        extension_correspondent("jsonld"@) == Some(Correspondent { value: Syntax::JsonLd, is_total: true }),
        extension_correspondent("json"@) == Some(Correspondent { value: Syntax::JsonLd, is_total: false }),
        extension_correspondent("n3"@) == Some(Correspondent { value: Syntax::N3, is_total: true }),
        extension_correspondent("nq"@) == Some(Correspondent { value: Syntax::NQuads, is_total: true }),
        extension_correspondent("nquads"@) == Some(Correspondent { value: Syntax::NQuads, is_total: true }),
        extension_correspondent("nt"@) == Some(Correspondent { value: Syntax::NTriples, is_total: true }),
        extension_correspondent("ntriples"@) == Some(Correspondent { value: Syntax::NTriples, is_total: true }),
        extension_correspondent("omn"@) == Some(Correspondent { value: Syntax::Owl2Manchester, is_total: true }),
        extension_correspondent("owl"@) == Some(Correspondent { value: Syntax::Owl2Xml, is_total: true }),
        extension_correspondent("owx"@) == Some(Correspondent { value: Syntax::Owl2Xml, is_total: true }),
        extension_correspondent("rdf"@) == Some(Correspondent { value: Syntax::RdfXml, is_total: true }),
        extension_correspondent("rdfxml"@) == Some(Correspondent { value: Syntax::RdfXml, is_total: true }),
        extension_correspondent("trig"@) == Some(Correspondent { value: Syntax::TriG, is_total: true }),
        extension_correspondent("ttl"@) == Some(Correspondent { value: Syntax::Turtle, is_total: true }),
        extension_correspondent("turtle"@) == Some(Correspondent { value: Syntax::Turtle, is_total: true }),
        extension_correspondent("xhtml"@) == Some(Correspondent { value: Syntax::XhtmlRdfa, is_total: false }),
        media_type_correspondent("text/html"@) == Some(Correspondent { value: Syntax::HtmlRdfa, is_total: false }),
        media_type_correspondent("application/ld+json"@) == Some(Correspondent { value: Syntax::JsonLd, is_total: true }),
        media_type_correspondent("text/n3"@) == Some(Correspondent { value: Syntax::N3, is_total: true }),
        media_type_correspondent("application/n-quads"@) == Some(Correspondent { value: Syntax::NQuads, is_total: true }),
        media_type_correspondent("application/n-triples"@) == Some(Correspondent { value: Syntax::NTriples, is_total: true }),
        media_type_correspondent("text/owl-manchester"@) == Some(Correspondent { value: Syntax::Owl2Manchester, is_total: true }),
        media_type_correspondent("application/rdf+xml"@) == Some(Correspondent { value: Syntax::RdfXml, is_total: true }),
        media_type_correspondent("application/owl+xml"@) == Some(Correspondent { value: Syntax::Owl2Xml, is_total: true }),
        media_type_correspondent("application/trig"@) == Some(Correspondent { value: Syntax::TriG, is_total: true }),
        media_type_correspondent("text/turtle"@) == Some(Correspondent { value: Syntax::Turtle, is_total: true }),
        media_type_correspondent("application/xhtml+xml"@) == Some(Correspondent { value: Syntax::XhtmlRdfa, is_total: false }),
{
    reveal_strlit("html");
    assert("html"@.len() == 4);
    reveal_strlit("jsonld");
    assert("jsonld"@.len() == 6);
    reveal_strlit("json");
    assert("json"@.len() == 4);
    reveal_strlit("n3");
    assert("n3"@.len() == 2);
    reveal_strlit("nq");
    assert("nq"@.len() == 2);
    reveal_strlit("nquads");
    assert("nquads"@.len() == 6);
    reveal_strlit("nt");
    assert("nt"@.len() == 2);
    reveal_strlit("ntriples");
    assert("ntriples"@.len() == 8);
    reveal_strlit("omn");
    assert("omn"@.len() == 3);
    reveal_strlit("owl");
    assert("owl"@.len() == 3);
    reveal_strlit("owx");
    assert("owx"@.len() == 3);
    reveal_strlit("rdf");
    assert("rdf"@.len() == 3);
    reveal_strlit("rdfxml");
    assert("rdfxml"@.len() == 6);
    reveal_strlit("trig");
    assert("trig"@.len() == 4);
    reveal_strlit("ttl");
    assert("ttl"@.len() == 3);
    reveal_strlit("turtle");
    assert("turtle"@.len() == 6);
    reveal_strlit("xhtml");
    assert("xhtml"@.len() == 5);
    reveal_strlit("text/html");
    assert("text/html"@.len() == 9);
    reveal_strlit("application/ld+json");
    assert("application/ld+json"@.len() == 19);
    reveal_strlit("text/n3");
    assert("text/n3"@.len() == 7);
    reveal_strlit("application/n-quads");
    assert("application/n-quads"@.len() == 19);
    reveal_strlit("application/n-triples");
    assert("application/n-triples"@.len() == 21);
    reveal_strlit("text/owl-manchester");
    assert("text/owl-manchester"@.len() == 19);
    reveal_strlit("application/rdf+xml");
    assert("application/rdf+xml"@.len() == 19);
    reveal_strlit("application/owl+xml");
    assert("application/owl+xml"@.len() == 19);
    reveal_strlit("application/trig");
    assert("application/trig"@.len() == 16);
    reveal_strlit("text/turtle");
    assert("text/turtle"@.len() == 11);
    reveal_strlit("application/xhtml+xml");
    assert("application/xhtml+xml"@.len() == 21);
    assert("json"@[0] != "html"@[0]);
    assert("nq"@[1] != "n3"@[1]);
    assert("nquads"@[0] != "jsonld"@[0]);
    assert("nt"@[1] != "n3"@[1]);
    assert("nt"@[1] != "nq"@[1]);
    assert("owl"@[1] != "omn"@[1]);
    assert("owx"@[1] != "omn"@[1]);
    assert("owx"@[2] != "owl"@[2]);
    assert("rdf"@[0] != "omn"@[0]);
    assert("rdf"@[0] != "owl"@[0]);
    assert("rdf"@[0] != "owx"@[0]);
    assert("rdfxml"@[0] != "jsonld"@[0]);
    assert("rdfxml"@[0] != "nquads"@[0]);
    assert("trig"@[0] != "html"@[0]);
    assert("trig"@[0] != "json"@[0]);
    assert("ttl"@[0] != "omn"@[0]);
    assert("ttl"@[0] != "owl"@[0]);
    assert("ttl"@[0] != "owx"@[0]);
    assert("ttl"@[0] != "rdf"@[0]);
    assert("turtle"@[0] != "jsonld"@[0]);
    assert("turtle"@[0] != "nquads"@[0]);
    assert("turtle"@[0] != "rdfxml"@[0]);
    assert("application/n-quads"@[12] != "application/ld+json"@[12]);
    assert("text/owl-manchester"@[0] != "application/ld+json"@[0]);
    assert("text/owl-manchester"@[0] != "application/n-quads"@[0]);
    assert("application/rdf+xml"@[12] != "application/ld+json"@[12]);
    assert("application/rdf+xml"@[12] != "application/n-quads"@[12]);
    assert("application/rdf+xml"@[0] != "text/owl-manchester"@[0]);
    assert("application/owl+xml"@[12] != "application/ld+json"@[12]);
    assert("application/owl+xml"@[12] != "application/n-quads"@[12]);
    assert("application/owl+xml"@[0] != "text/owl-manchester"@[0]);
    assert("application/owl+xml"@[12] != "application/rdf+xml"@[12]);
    assert("application/xhtml+xml"@[12] != "application/n-triples"@[12]);
}

/// The preferred file extension and the preferred media type of every syntax
/// resolve back to that syntax.
pub proof fn lemma_preferred_round_trip(s: Syntax)
    ensures
        extension_correspondent(preferred_extension(s)) matches Some(c) && c.value == s,
        media_type_correspondent(preferred_media_type(s)) matches Some(c) && c.value == s,
{
    lemma_documented_vocabulary();
}

} // verus!

use rdf_dynsyn::quads::{QuadParserVariant, SomeSyntaxQuadParser};
use rdf_dynsyn::syntax;
use rdf_dynsyn::triples::{SomeSyntaxTripleParser, TripleParserVariant};

#[test]
fn quad_parser_rejects_triple_syntaxes() {
    for s in [syntax::TURTLE, syntax::N_TRIPLES, syntax::RDF_XML, syntax::JSON_LD, syntax::N3] {
        let err = SomeSyntaxQuadParser::try_new(s, None).unwrap_err();
        assert_eq!(err.syntax(), s);
    }
    let err = SomeSyntaxQuadParser::try_new(syntax::TURTLE, None).unwrap_err();
    assert_eq!(err.to_string(), "Un supported quad syntax: http://www.w3.org/TR/turtle/");
}

#[test]
fn quad_parser_accepts_nquads_and_trig() {
    let p = SomeSyntaxQuadParser::try_new(syntax::N_QUADS, Some("http://x.org/".to_string())).unwrap();
    assert_eq!(p.syntax(), syntax::N_QUADS);
    assert!(matches!(p.variant(), QuadParserVariant::NQuadsParser));
    let p = SomeSyntaxQuadParser::try_new(syntax::TRIG, Some("http://x.org/".to_string())).unwrap();
    assert_eq!(p.syntax(), syntax::TRIG);
    match p.variant() {
        QuadParserVariant::TriGParser { base } => assert_eq!(base.as_deref(), Some("http://x.org/")),
        other => panic!("unexpected variant {:?}", other),
    }
}

#[test]
fn triple_parser_rejects_quad_syntaxes() {
    for s in [syntax::N_QUADS, syntax::TRIG, syntax::JSON_LD, syntax::OWL2_XML] {
        let err = SomeSyntaxTripleParser::try_new(s, None).unwrap_err();
        assert_eq!(err.syntax(), s);
    }
    let err = SomeSyntaxTripleParser::try_new(syntax::N_QUADS, None).unwrap_err();
    assert_eq!(err.to_string(), "Un supported triple syntax: http://www.w3.org/TR/n-quads/");
}

#[test]
fn triple_parser_keeps_the_base_for_rdf_xml_and_turtle() {
    let base = "http://example.org/doc".to_string();
    let p = SomeSyntaxTripleParser::try_new(syntax::RDF_XML, Some(base.clone())).unwrap();
    assert_eq!(p.syntax(), syntax::RDF_XML);
    match p.variant() {
        TripleParserVariant::RdfXmlParser { base: b } => assert_eq!(b.as_ref(), Some(&base)),
        other => panic!("unexpected variant {:?}", other),
    }
    let p = SomeSyntaxTripleParser::try_new(syntax::TURTLE, Some(base.clone())).unwrap();
    match p.variant() {
        TripleParserVariant::TurtleParser { base: b } => assert_eq!(b.as_ref(), Some(&base)),
        other => panic!("unexpected variant {:?}", other),
    }
    let p = SomeSyntaxTripleParser::try_new(syntax::N_TRIPLES, Some(base)).unwrap();
    assert!(matches!(p.variant(), TripleParserVariant::NTripleParser));
}

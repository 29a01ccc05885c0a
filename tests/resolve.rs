use rdf_dynsyn::correspondence::{
    extension_to_syntax, media_type_to_syntax, syntax_to_extension, syntax_to_media_type,
    Correspondent,
};
use rdf_dynsyn::file_extension::{self, FileExtension};
use rdf_dynsyn::media_type::{self, MediaType};
use rdf_dynsyn::syntax::{self, Syntax};
use rdf_dynsyn::syntax_hint::SyntaxHint;

fn all_syntaxes() -> Vec<Syntax> {
    vec![
        syntax::TURTLE,
        syntax::RDF_XML,
        syntax::N3,
        syntax::N_TRIPLES,
        syntax::N_QUADS,
        syntax::OWL2_XML,
        syntax::OWL2_MANCHESTER,
        syntax::TRIG,
        syntax::JSON_LD,
        syntax::XHTML_RDFA,
        syntax::HTML_RDFA,
    ]
}

fn resolve_extension(s: &str) -> Result<Correspondent<Syntax>, String> {
    let extn = FileExtension::new(s);
    let hint = SyntaxHint::FileExtension(&extn);
    hint.resolve().map_err(|e| e.to_string())
}

fn resolve_media_type(s: &str) -> Result<Correspondent<Syntax>, String> {
    let mt = MediaType::parse(s).expect("a well-formed media type");
    let hint = SyntaxHint::MediaType(&mt);
    hint.resolve().map_err(|e| e.to_string())
}

#[test]
fn rdf_specific_extensions_should_have_total_correspondence() {
    let cases = [
        ("ttl", syntax::TURTLE),
        ("turtle", syntax::TURTLE),
        ("nt", syntax::N_TRIPLES),
        ("ntriples", syntax::N_TRIPLES),
        ("nq", syntax::N_QUADS),
        ("nquads", syntax::N_QUADS),
        ("trig", syntax::TRIG),
        ("rdf", syntax::RDF_XML),
        ("rdfxml", syntax::RDF_XML),
        ("omn", syntax::OWL2_MANCHESTER),
        ("owl", syntax::OWL2_XML),
        ("owx", syntax::OWL2_XML),
        ("jsonld", syntax::JSON_LD),
        ("n3", syntax::N3),
    ];
    for (extn, expected) in cases {
        let c = resolve_extension(extn).unwrap();
        assert_eq!(c.value, expected, "extension {}", extn);
        assert!(c.is_total, "extension {}", extn);
    }
}

#[test]
fn rdf_specific_media_types_should_have_total_correspondence() {
    let cases = [
        ("text/turtle", syntax::TURTLE),
        ("application/n-quads", syntax::N_QUADS),
        ("application/n-triples", syntax::N_TRIPLES),
        ("application/trig", syntax::TRIG),
        ("application/rdf+xml", syntax::RDF_XML),
        ("application/ld+json", syntax::JSON_LD),
        ("text/n3", syntax::N3),
        ("text/owl-manchester", syntax::OWL2_MANCHESTER),
        ("application/owl+xml", syntax::OWL2_XML),
    ];
    for (mt, expected) in cases {
        let c = resolve_media_type(mt).unwrap();
        assert_eq!(c.value, expected, "media type {}", mt);
        assert!(c.is_total, "media type {}", mt);
    }
}

#[test]
fn general_extension_hints_should_have_non_total_correspondence() {
    let cases = [
        ("html", syntax::HTML_RDFA),
        ("json", syntax::JSON_LD),
        ("xhtml", syntax::XHTML_RDFA),
    ];
    for (extn, expected) in cases {
        let c = resolve_extension(extn).unwrap();
        assert_eq!(c.value, expected, "extension {}", extn);
        assert!(!c.is_total, "extension {}", extn);
    }
}

#[test]
fn general_media_types_should_have_non_total_correspondence() {
    let cases = [
        ("text/html", syntax::HTML_RDFA),
        ("application/xhtml+xml", syntax::XHTML_RDFA),
    ];
    for (mt, expected) in cases {
        let c = resolve_media_type(mt).unwrap();
        assert_eq!(c.value, expected, "media type {}", mt);
        assert!(!c.is_total, "media type {}", mt);
    }
}

#[test]
fn non_rdf_extn_syntax_hints_should_be_rejected() {
    for extn in ["png", "pdf", "mp3", "avf", "c", "rs"] {
        let msg = resolve_extension(extn).unwrap_err();
        assert_eq!(msg, format!("Unknown SyntaxHint FileExtension: {}", extn));
    }
}

#[test]
fn non_rdf_media_type_syntax_hints_should_be_rejected() {
    for mt in ["application/pdf", "application/javascript", "font/woff", "image/*", "text/csv"] {
        let msg = resolve_media_type(mt).unwrap_err();
        assert_eq!(msg, format!("Unknown SyntaxHint MediaType: {}", mt));
    }
}

#[test]
fn unknown_hint_error_carries_the_hint() {
    let extn = FileExtension::new("png");
    let hint = SyntaxHint::FileExtension(&extn);
    let err = hint.resolve().unwrap_err();
    match err.hint() {
        SyntaxHint::FileExtension(e) => assert_eq!(e.as_str(), "png"),
        other => panic!("unexpected hint {:?}", other),
    }
}

#[test]
fn extensions_are_case_sensitive_tokens() {
    assert!(resolve_extension("TTL").is_err());
    assert!(resolve_extension(".ttl").is_err());
    assert!(resolve_extension("").is_err());
}

#[test]
fn explicit_syntax_hints_resolve_totally() {
    for s in all_syntaxes() {
        let hint = SyntaxHint::Syntax(&s);
        let c = hint.resolve().unwrap();
        assert_eq!(c.value, s);
        assert!(c.is_total);
        assert_eq!(hint.resolve_syntax().unwrap(), s);
    }
}

#[test]
fn media_type_parameters_are_ignored_for_lookup() {
    let c = resolve_media_type("text/turtle; charset=utf-8").unwrap();
    assert_eq!(c.value, syntax::TURTLE);
    assert!(c.is_total);
    let c = resolve_media_type("Application/N-Quads").unwrap();
    assert_eq!(c.value, syntax::N_QUADS);
}

#[test]
fn malformed_media_types_do_not_parse() {
    assert!(MediaType::parse("turtle").is_none());
    assert!(MediaType::parse("").is_none());
    assert_eq!(MediaType::parse("text/turtle;q=1").unwrap().essence(), "text/turtle");
}

#[test]
fn resolve_syntax_reports_unknown_hints() {
    let mt = MediaType::parse("application/pdf").unwrap();
    let hint = SyntaxHint::MediaType(&mt);
    assert!(hint.resolve_syntax().is_err());
}

#[test]
fn every_syntax_has_a_total_preferred_extension_and_media_type() {
    let expected = [
        (syntax::HTML_RDFA, "html", "text/html"),
        (syntax::JSON_LD, "jsonld", "application/ld+json"),
        (syntax::N3, "n3", "text/n3"),
        (syntax::N_QUADS, "nq", "application/n-quads"),
        (syntax::N_TRIPLES, "nt", "application/n-triples"),
        (syntax::OWL2_MANCHESTER, "omn", "text/owl-manchester"),
        (syntax::OWL2_XML, "owl", "application/owl+xml"),
        (syntax::RDF_XML, "rdf", "application/rdf+xml"),
        (syntax::TRIG, "trig", "application/trig"),
        (syntax::TURTLE, "ttl", "text/turtle"),
        (syntax::XHTML_RDFA, "xhtml", "application/xhtml+xml"),
    ];
    for (s, extn, mt) in expected {
        let e = syntax_to_extension(s);
        assert!(e.is_total);
        assert_eq!(e.value.as_str(), extn);
        let m = syntax_to_media_type(s);
        assert!(m.is_total);
        assert_eq!(m.value.essence(), mt);
    }
}

#[test]
fn preferred_extension_and_media_type_resolve_back() {
    for s in all_syntaxes() {
        let e = syntax_to_extension(s).value;
        assert_eq!(extension_to_syntax(&e).unwrap().value, s);
        let m = syntax_to_media_type(s).value;
        assert_eq!(media_type_to_syntax(&m).unwrap().value, s);
    }
}

#[test]
fn known_extension_constructors_resolve() {
    let all = [
        file_extension::turtle(),
        file_extension::ttl(),
        file_extension::nt(),
        file_extension::ntriples(),
        file_extension::nq(),
        file_extension::nquads(),
        file_extension::rdf(),
        file_extension::rdfxml(),
        file_extension::omn(),
        file_extension::owl(),
        file_extension::owx(),
        file_extension::n3(),
        file_extension::trig(),
        file_extension::jsonld(),
        file_extension::json(),
        file_extension::xhtml(),
        file_extension::html(),
    ];
    for e in all.iter() {
        assert!(extension_to_syntax(e).is_some(), "extension {}", e.as_str());
    }
    assert_eq!(file_extension::ntriples().as_str(), "ntriples");
    assert_eq!(extension_to_syntax(&file_extension::ntriples()).unwrap().value, syntax::N_TRIPLES);
}

#[test]
fn known_media_type_constructors_resolve() {
    let all = [
        media_type::application_json_ld(),
        media_type::application_n_quads(),
        media_type::application_n_triples(),
        media_type::application_owl_xml(),
        media_type::application_rdf_xml(),
        media_type::application_trig(),
        media_type::application_xhtml_xml(),
        media_type::text_html(),
        media_type::text_n3(),
        media_type::text_owl_manchester(),
        media_type::text_turtle(),
    ];
    for m in all.iter() {
        assert!(media_type_to_syntax(m).is_some(), "media type {}", m.essence());
        assert_eq!(MediaType::parse(m.essence()).as_ref(), Some(m));
    }
}

#[test]
fn syntax_iris_and_hint_messages() {
    assert_eq!(syntax::TURTLE.iri(), "http://www.w3.org/TR/turtle/");
    assert_eq!(syntax::TRIG.to_string(), "https://www.w3.org/TR/trig/");
    let s = syntax::N3;
    assert_eq!(SyntaxHint::Syntax(&s).to_string(), "Syntax: http://www.w3.org/TeamSubmission/n3/");
    let m = media_type::text_turtle();
    assert_eq!(SyntaxHint::MediaType(&m).to_string(), "MediaType: text/turtle");
    assert_eq!(m.to_string(), "text/turtle");
    let e = FileExtension::new("ttl");
    assert_eq!(SyntaxHint::FileExtension(&e).to_string(), "FileExtension: ttl");
    assert_eq!(e.to_string(), "ttl");
    assert_ne!(syntax::TURTLE, syntax::TRIG);
}

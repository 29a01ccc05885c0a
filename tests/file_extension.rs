use rdf_dynsyn::file_extension::FileExtension;

fn ext(p: &str) -> Option<String> {
    FileExtension::from_path_str(p).map(|e| e.as_str().to_string())
}

#[test]
fn from_path_str_takes_what_follows_the_last_dot() {
    assert_eq!(ext("data/graph.ttl"), Some("ttl".to_string()));
    assert_eq!(ext("graph.nq"), Some("nq".to_string()));
    assert_eq!(ext("/abs/archive.tar.gz"), Some("gz".to_string()));
    assert_eq!(ext("dir.d/graph.rdf"), Some("rdf".to_string()));
}

#[test]
fn from_path_str_without_extension() {
    assert_eq!(ext("README"), None);
    assert_eq!(ext("dir.d/file"), None);
    assert_eq!(ext(".bashrc"), None);
    assert_eq!(ext(""), None);
    assert_eq!(ext("/"), None);
}

#[test]
fn from_path_str_edge_components() {
    assert_eq!(ext("graph."), Some(String::new()));
    assert_eq!(ext("..."), Some(String::new()));
    assert_eq!(ext("a/graph.ttl/"), Some("ttl".to_string()));
    assert_eq!(ext("a/graph.ttl//"), Some("ttl".to_string()));
    assert_eq!(ext("a/graph.ttl/."), Some("ttl".to_string()));
    assert_eq!(ext("x/.."), None);
    assert_eq!(ext(".."), None);
    assert_eq!(ext("."), None);
    assert_eq!(ext("./"), None);
    assert_eq!(ext("a.b/."), Some("b".to_string()));
}

#[test]
fn from_path_str_agrees_with_std_path() {
    let paths = [
        "a/b.ttl", "b.", ".x", ".x.y", "a/..", "a/.", "a//b.c//", "./q.nt", "../r.trig", "n\u{e9}.owl",
        "\u{e9}t\u{e9}/\u{e9}.\u{e9}",
    ];
    for p in paths {
        let expected = std::path::Path::new(p)
            .extension()
            .and_then(|e| e.to_str())
            .map(|e| e.to_string());
        assert_eq!(ext(p), expected, "path {:?}", p);
    }
}

#[test]
fn file_extensions_compare_by_characters() {
    assert_eq!(FileExtension::new("ttl"), FileExtension::new("ttl"));
    assert_ne!(FileExtension::new("ttl"), FileExtension::new("nt"));
    assert_eq!(FileExtension::from_path_str("x.ttl").unwrap(), FileExtension::new("ttl"));
}

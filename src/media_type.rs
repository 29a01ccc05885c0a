//! Media types, as lookup keys for syntaxes.
use vstd::prelude::*;

verus! {

/// What `mime` makes of a media-type string: its essence (`type/subtype`,
/// with any `+suffix`, lower-cased and without parameters), or nothing when the
/// string is not a media type.
pub uninterp spec fn mime_essence(s: Seq<char>) -> Option<Seq<char>>;

/// Relies on `<mime::Mime as FromStr>::from_str` and `Mime::essence_str`: the
/// string is parsed by the media-type grammar, and what comes back depends on
/// the string alone.
#[verifier::external_body]
fn parse_essence(s: &str) -> (r: Option<String>)
    ensures
        match r {
            Some(e) => mime_essence(s@) == Some(e@),
            None => mime_essence(s@) is None,
        },
{
    match s.parse::<mime::Mime>() {
        Ok(m) => Some(m.essence_str().to_string()),
        Err(_) => None,
    }
}

/// A media type, such as `text/turtle`, reduced to its essence.
///
/// Parameters take no part in lookups, so they are not kept: two media types
/// are equal when their essences are.
#[derive(Debug, Clone, Eq, Hash)]
pub struct MediaType {
    essence: String,
}

impl View for MediaType {
    type V = Seq<char>;

    closed spec fn view(&self) -> Seq<char> {
        self.essence@
    }
}

impl PartialEq for MediaType {
    fn eq(&self, other: &MediaType) -> (r: bool) {
        self.essence == other.essence
    }
}

impl vstd::std_specs::cmp::PartialEqSpecImpl for MediaType {
    open spec fn obeys_eq_spec() -> bool {
        true
    }

    open spec fn eq_spec(&self, other: &MediaType) -> bool {
        self@ == other@
    }
}

impl MediaType {
    /// Parses a media-type string such as `text/turtle; charset=utf-8`.
    /// There is no result when the string does not follow the media-type
    /// grammar.
    pub fn parse(s: &str) -> (r: Option<MediaType>)
        ensures
            match r {
                Some(m) => mime_essence(s@) == Some(m@),
                None => mime_essence(s@) is None,
            },
    {
        match parse_essence(s) {
            Some(essence) => Some(MediaType { essence }),
            None => None,
        }
    }

    /// A media type whose essence is `essence`, taken as it is: for the
    /// well-known media types of this library, whose essences are lower-case
    /// `type/subtype` tokens.
    pub(crate) fn from_essence(essence: &str) -> (r: MediaType)
        ensures
            r@ == essence@,
    {
        MediaType { essence: String::from_str(essence) }
    }

    /// The essence of this media type: `type/subtype`.
    pub fn essence(&self) -> (r: &str)
        ensures
            r@ == self@,
    {
        self.essence.as_str()
    }

    /// The essence of this media type, as an owned string.
    pub fn to_string(&self) -> (r: String)
        ensures
            r@ == self@,
    {
        self.essence.clone()
    }
}

/// The media type `application/ld+json`.
pub fn application_json_ld() -> (r: MediaType)
    ensures
        r@ == "application/ld+json"@,
{
    MediaType::from_essence("application/ld+json")
}

/// The media type `application/n-quads`.
pub fn application_n_quads() -> (r: MediaType)
    ensures
        r@ == "application/n-quads"@,
{
    MediaType::from_essence("application/n-quads")
}

/// The media type `application/n-triples`.
pub fn application_n_triples() -> (r: MediaType)
    ensures
        r@ == "application/n-triples"@,
{
    MediaType::from_essence("application/n-triples")
}

/// The media type `application/owl+xml`.
pub fn application_owl_xml() -> (r: MediaType)
    ensures
        r@ == "application/owl+xml"@,
{
    MediaType::from_essence("application/owl+xml")
}

/// The media type `application/rdf+xml`.
pub fn application_rdf_xml() -> (r: MediaType)
    ensures
        r@ == "application/rdf+xml"@,
{
    MediaType::from_essence("application/rdf+xml")
}

/// The media type `application/trig`.
pub fn application_trig() -> (r: MediaType)
    ensures
        r@ == "application/trig"@,
{
    MediaType::from_essence("application/trig")
}

/// The media type `application/xhtml+xml`.
pub fn application_xhtml_xml() -> (r: MediaType)
    ensures
        r@ == "application/xhtml+xml"@,
{
    MediaType::from_essence("application/xhtml+xml")
}

/// The media type `text/html`.
pub fn text_html() -> (r: MediaType)
    ensures
        r@ == "text/html"@,
{
    MediaType::from_essence("text/html")
}

/// The media type `text/n3`.
pub fn text_n3() -> (r: MediaType)
    ensures
        r@ == "text/n3"@,
{
    MediaType::from_essence("text/n3")
}

/// The media type `text/owl-manchester`.
pub fn text_owl_manchester() -> (r: MediaType)
    ensures
        r@ == "text/owl-manchester"@,
{
    MediaType::from_essence("text/owl-manchester")
}

/// The media type `text/turtle`.
pub fn text_turtle() -> (r: MediaType)
    ensures
        r@ == "text/turtle"@,
{
    MediaType::from_essence("text/turtle")
}

} // verus!

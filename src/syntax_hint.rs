//! Hints at the syntax of a document, and their resolution.
use vstd::prelude::*;
use crate::correspondence::{
    extension_correspondent, extension_to_syntax, media_type_correspondent, media_type_to_syntax,
    Correspondent,
};
use crate::file_extension::FileExtension;
use crate::media_type::MediaType;
use crate::syntax::Syntax;

verus! {

/// Evidence of the concrete syntax of an RDF document: the syntax itself, a
/// media type or a file extension. The hint borrows what it points at.
#[derive(Debug, Clone, Copy)]
pub enum SyntaxHint<'a> {
    /// The syntax itself.
    Syntax(&'a Syntax),
    /// The media type that the document was served with.
    MediaType(&'a MediaType),
    /// The extension of the file that holds the document.
    FileExtension(&'a FileExtension),
}

/// The syntax that a hint resolves to, with the totality of that resolution,
/// or nothing when the hint is not known.
pub open spec fn hint_correspondent(hint: SyntaxHint) -> Option<Correspondent<Syntax>> {
    match hint {
        SyntaxHint::Syntax(s) => Some(Correspondent { value: *s, is_total: true }),
        SyntaxHint::MediaType(m) => media_type_correspondent(m@),
        SyntaxHint::FileExtension(e) => extension_correspondent(e@),
    }
}

/// The error of a hint that resolves to no known syntax. It carries the hint.
#[derive(Debug, Clone, Copy)]
pub struct UnknownSyntaxHintError<'a>(SyntaxHint<'a>);

impl<'a> View for UnknownSyntaxHintError<'a> {
    type V = SyntaxHint<'a>;

    closed spec fn view(&self) -> SyntaxHint<'a> {
        self.0
    }
}

impl<'a> UnknownSyntaxHintError<'a> {
    /// The error for the given hint.
    pub fn new(hint: &SyntaxHint<'a>) -> (r: UnknownSyntaxHintError<'a>)
        ensures
            r@ == *hint,
    {
        UnknownSyntaxHintError(*hint)
    }

    /// The hint that could not be resolved.
    pub fn hint(&self) -> (r: SyntaxHint<'a>)
        ensures
            r == self@,
    {
        self.0
    }

    /// A message that names the hint.
    pub fn to_string(&self) -> (r: String)
        ensures
            r@ == "Unknown SyntaxHint "@ + hint_text(self@),
    {
        String::from_str("Unknown SyntaxHint ").concat(self.0.to_string().as_str())
    }
}

/// How a hint reads in messages.
pub open spec fn hint_text(hint: SyntaxHint) -> Seq<char> {
    match hint {
        SyntaxHint::Syntax(s) => "Syntax: "@ + crate::syntax::syntax_iri(*s),
        SyntaxHint::MediaType(m) => "MediaType: "@ + m@,
        SyntaxHint::FileExtension(e) => "FileExtension: "@ + e@,
    }
}

impl<'a> SyntaxHint<'a> {
    /// Resolves the syntax that this hint designates.
    ///
    /// An explicit syntax resolves to itself, totally. A media type or a file
    /// extension resolves to the registered correspondent, with the totality it
    /// was registered with. Anything else is an error that carries the hint:
    /// there is no fallback syntax.
    pub fn resolve(self) -> (r: Result<Correspondent<Syntax>, UnknownSyntaxHintError<'a>>)
        ensures
            r is Ok <==> hint_correspondent(self) is Some,
            r matches Ok(c) ==> hint_correspondent(self) == Some(c),
            r matches Err(e) ==> e@ == self,
            self matches SyntaxHint::Syntax(s) ==> r matches Ok(c) && c.value == *s && c.is_total,
    {
        let found = match self {
            SyntaxHint::Syntax(s) => Some(Correspondent { value: *s, is_total: true }),
            SyntaxHint::MediaType(m) => media_type_to_syntax(m),
            SyntaxHint::FileExtension(e) => extension_to_syntax(e),
        };
        match found {
            Some(c) => Ok(c),
            None => Err(UnknownSyntaxHintError::new(&self)),
        }
    }

    /// Resolves the syntax that this hint designates, without its totality.
    pub fn resolve_syntax(self) -> (r: Result<Syntax, UnknownSyntaxHintError<'a>>)
        ensures
            r is Ok <==> hint_correspondent(self) is Some,
            r matches Ok(s) ==> hint_correspondent(self)->0.value == s,
            r matches Err(e) ==> e@ == self,
    {
        match self.resolve() {
            Ok(c) => Ok(c.value),
            Err(e) => Err(e),
        }
    }

    /// How this hint reads in messages: the kind of hint, then its value.
    pub fn to_string(&self) -> (r: String)
        ensures
            r@ == hint_text(*self),
    {
        match self {
            SyntaxHint::Syntax(s) => String::from_str("Syntax: ").concat(s.iri()),
            SyntaxHint::MediaType(m) => String::from_str("MediaType: ").concat(m.essence()),
            SyntaxHint::FileExtension(e) => String::from_str("FileExtension: ").concat(e.as_str()),
        }
    }
}

} // verus!

use vstd::prelude::*;

verus! {

/// The validation errors that the URL validators raise.
#[derive(Debug, Clone, PartialEq, Eq)]
pub enum UrlError {
    /// The input could not be parsed as a URL (`url_parsing`), with the parser's message.
    Parsing(String),
    /// Strict mode met a syntax violation (`url_syntax_violation`), with its description.
    SyntaxViolation(String),
    /// The URL's scheme is not one of the allowed ones (`url_scheme`), with their repr.
    Scheme(String),
    /// The URL is longer than `max_length` bytes (`url_too_long`).
    TooLong(usize),
    /// The input is neither a string nor a URL object (`url_type`).
    Type,
}

/// A `UrlError` with its strings taken by their views.
pub enum UrlErrorView {
    Parsing(Seq<char>),
    SyntaxViolation(Seq<char>),
    Scheme(Seq<char>),
    TooLong(usize),
    Type,
}

impl View for UrlError {
    type V = UrlErrorView;

    open spec fn view(&self) -> UrlErrorView {
        match self {
            UrlError::Parsing(m) => UrlErrorView::Parsing(m@),
            UrlError::SyntaxViolation(m) => UrlErrorView::SyntaxViolation(m@),
            UrlError::Scheme(m) => UrlErrorView::Scheme(m@),
            UrlError::TooLong(n) => UrlErrorView::TooLong(*n),
            UrlError::Type => UrlErrorView::Type,
        }
    }
}

/// An invalid validator schema, with its message.
#[derive(Debug, Clone, PartialEq, Eq)]
pub struct SchemaError {
    pub message: String,
}

} // verus!

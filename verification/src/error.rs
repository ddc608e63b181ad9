use vstd::prelude::*;

verus! {

/// Why a route pattern was refused at registration.
#[derive(Debug)]
pub enum RouteError {
    /// The pattern conflicts with a route registered before it.
    Conflict {
        /// The route already registered that the pattern conflicts with.
        with: String,
    },
    /// A path segment holds more than one parameter.
    InvalidParamSegment,
    /// A parameter has no valid name, or its braces do not match.
    InvalidParam,
    /// A catch-all parameter stands before the end of the pattern.
    InvalidCatchAll,
    /// The pattern opens more parameters than the matcher can take.
    TooManyParams,
    /// The matcher refused the pattern for a reason that this library does
    /// not know.
    Unrecognized,
}

/// The mathematical value of a [`RouteError`].
pub enum RouteErrorView {
    Conflict { with: Seq<char> },
    InvalidParamSegment,
    InvalidParam,
    InvalidCatchAll,
    TooManyParams,
    Unrecognized,
}

impl View for RouteError {
    type V = RouteErrorView;

    open spec fn view(&self) -> RouteErrorView {
        match self {
            RouteError::Conflict { with } => RouteErrorView::Conflict { with: with@ },
            RouteError::InvalidParamSegment => RouteErrorView::InvalidParamSegment,
            RouteError::InvalidParam => RouteErrorView::InvalidParam,
            RouteError::InvalidCatchAll => RouteErrorView::InvalidCatchAll,
            RouteError::TooManyParams => RouteErrorView::TooManyParams,
            RouteError::Unrecognized => RouteErrorView::Unrecognized,
        }
    }
}

/// An error whose concrete type has been erased. What is kept of the error
/// is its description and its debug rendering.
#[derive(Debug)]
pub struct DynError {
    /// What the error displayed as before it was erased.
    pub description: String,
    /// The debug rendering of the error before it was erased.
    pub debug: String,
}

/// The mathematical value of a [`DynError`].
pub struct DynErrorView {
    pub description: Seq<char>,
    pub debug: Seq<char>,
}

impl View for DynError {
    type V = DynErrorView;

    open spec fn view(&self) -> DynErrorView {
        DynErrorView { description: self.description@, debug: self.debug@ }
    }
}

/// The debug rendering of a value, as `format!` gives it with `{:?}`.
/// Nothing is claimed of the text.
#[verifier::external_body]
fn debug_text<E: core::fmt::Debug>(error: &E) -> String {
    format!("{:?}", error)
}

impl DynError {
    /// Erases the type of `error`, keeping its description and its debug
    /// rendering.
    pub fn erase<E: core::fmt::Display + core::fmt::Debug>(error: E) -> (erased: DynError)
        ensures
            vstd::string::to_string_from_display_ensures::<E>(&error, erased.description),
    {
        let description = error.to_string();
        let debug = debug_text(&error);
        DynError { description, debug }
    }

    /// An error with the given description, which is also its debug rendering.
    pub fn msg(description: &str) -> (error: DynError)
        ensures
            error@.description == description@,
            error@.debug == description@,
    {
        DynError { description: description.to_owned(), debug: description.to_owned() }
    }
}

} // verus!

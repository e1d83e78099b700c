//! Converting an absent value, or an error, into an `AnalysisError` that
//! says what was expected.
use vstd::prelude::*;
use vstd::string::to_string_from_display_ensures;
use crate::text::push_str;

verus! {

/// An analysis error with its category.
#[derive(Debug)]
pub enum AnalysisError {
    /// Invalid data or a violated invariant.
    Validation(String),
    /// A failure of an analysis algorithm.
    Analysis(String),
    /// Any other error.
    Other(String),
}

/// Category name of an error.
pub open spec fn category_name(e: AnalysisError) -> Seq<char> {
    match e {
        AnalysisError::Validation(_) => "Validation"@,
        AnalysisError::Analysis(_) => "Analysis"@,
        AnalysisError::Other(_) => "Error"@,
    }
}

/// Message of an error.
pub open spec fn message_of(e: AnalysisError) -> Seq<char> {
    match e {
        AnalysisError::Validation(m) => m@,
        AnalysisError::Analysis(m) => m@,
        AnalysisError::Other(m) => m@,
    }
}

/// A string holding `s`.
fn owned(s: &str) -> (r: String)
    ensures
        r@ == s@,
{
    let mut r = String::new();
    push_str(&mut r, s);
    r
}

impl AnalysisError {
    /// The error's category: "Validation", "Analysis", or "Error" for others.
    pub fn category(&self) -> (r: &'static str)
        ensures
            r@ == category_name(*self),
    {
        match self {
            AnalysisError::Validation(_) => "Validation",
            AnalysisError::Analysis(_) => "Analysis",
            AnalysisError::Other(_) => "Error",
        }
    }

    /// The error's message.
    pub fn to_string(&self) -> (r: String)
        ensures
            r@ == message_of(*self),
    {
        match self {
            AnalysisError::Validation(m) => owned(m.as_str()),
            AnalysisError::Analysis(m) => owned(m.as_str()),
            AnalysisError::Other(m) => owned(m.as_str()),
        }
    }
}

/// Converting `Option<T>` into `Result<T, AnalysisError>` with a message.
pub trait OptionExt<T>: Sized {
    /// A validation error when absent.
    fn ok_or_validation(self, msg: &str) -> Result<T, AnalysisError>;

    /// A validation error when absent, its message built only then.
    fn ok_or_validation_with<F: FnOnce() -> String>(self, f: F) -> Result<T, AnalysisError>
        requires
            f.requires(()),
    ;

    /// A general error when absent.
    fn ok_or_context(self, msg: &str) -> Result<T, AnalysisError>;

    /// A general error when absent, its message built only then.
    fn ok_or_context_with<F: FnOnce() -> String>(self, f: F) -> Result<T, AnalysisError>
        requires
            f.requires(()),
    ;

    /// An analysis error when absent.
    fn ok_or_analysis(self, msg: &str) -> Result<T, AnalysisError>;

    /// An analysis error when absent, its message built only then.
    fn ok_or_analysis_with<F: FnOnce() -> String>(self, f: F) -> Result<T, AnalysisError>
        requires
            f.requires(()),
    ;
}

/// `r` is the present value, or the error `err` with one of the messages `f`
/// can build when the value is absent.
pub open spec fn lazily<T, F: FnOnce() -> String>(
    o: Option<T>,
    f: F,
    r: Result<T, AnalysisError>,
    kind: spec_fn(String) -> AnalysisError,
) -> bool {
    match o {
        Some(v) => r == Ok::<T, AnalysisError>(v),
        None => exists|s: String| f.ensures((), s) && r == Err::<T, AnalysisError>(kind(s)),
    }
}

impl<T> OptionExt<T> for Option<T> {
    fn ok_or_validation(self, msg: &str) -> (r: Result<T, AnalysisError>)
        ensures
            self matches Some(v) ==> r == Ok::<T, AnalysisError>(v),
            self is None ==> (r matches Err(AnalysisError::Validation(m)) && m@ == msg@),
    {
        match self {
            Some(v) => Ok(v),
            None => Err(AnalysisError::Validation(owned(msg))),
        }
    }

    fn ok_or_validation_with<F: FnOnce() -> String>(self, f: F) -> (r: Result<T, AnalysisError>)
        ensures
            lazily(self, f, r, |s: String| AnalysisError::Validation(s)),
    {
        match self {
            Some(v) => Ok(v),
            None => Err(AnalysisError::Validation(f())),
        }
    }

    fn ok_or_context(self, msg: &str) -> (r: Result<T, AnalysisError>)
        ensures
            self matches Some(v) ==> r == Ok::<T, AnalysisError>(v),
            self is None ==> (r matches Err(AnalysisError::Other(m)) && m@ == msg@),
    {
        match self {
            Some(v) => Ok(v),
            None => Err(AnalysisError::Other(owned(msg))),
        }
    }

    fn ok_or_context_with<F: FnOnce() -> String>(self, f: F) -> (r: Result<T, AnalysisError>)
        ensures
            lazily(self, f, r, |s: String| AnalysisError::Other(s)),
    {
        match self {
            Some(v) => Ok(v),
            None => Err(AnalysisError::Other(f())),
        }
    }

    fn ok_or_analysis(self, msg: &str) -> (r: Result<T, AnalysisError>)
        ensures
            self matches Some(v) ==> r == Ok::<T, AnalysisError>(v),
            self is None ==> (r matches Err(AnalysisError::Analysis(m)) && m@ == msg@),
    {
        match self {
            Some(v) => Ok(v),
            None => Err(AnalysisError::Analysis(owned(msg))),
        }
    }

    fn ok_or_analysis_with<F: FnOnce() -> String>(self, f: F) -> (r: Result<T, AnalysisError>)
        ensures
            lazily(self, f, r, |s: String| AnalysisError::Analysis(s)),
    {
        match self {
            Some(v) => Ok(v),
            None => Err(AnalysisError::Analysis(f())),
        }
    }
}

/// Adding context to the error of a `Result`.
pub trait ResultExt<T, E>: Sized {
    /// Wraps an error in a general `AnalysisError` whose message is the
    /// context, a colon and a space, and the error's text.
    fn with_context<F: FnOnce() -> String>(self, f: F) -> Result<T, AnalysisError>
        requires
            f.requires(()),
    ;
}

impl<T, E: std::fmt::Display> ResultExt<T, E> for Result<T, E> {
    fn with_context<F: FnOnce() -> String>(self, f: F) -> (r: Result<T, AnalysisError>)
        ensures
            self matches Ok(v) ==> r == Ok::<T, AnalysisError>(v),
            self matches Err(e) ==> exists|c: String, d: String|
                {
                    &&& f.ensures((), c)
                    &&& to_string_from_display_ensures::<E>(&e, d)
                    &&& r matches Err(AnalysisError::Other(m))
                    &&& m@ == c@ + ": "@ + d@
                },
    {
        match self {
            Ok(v) => Ok(v),
            Err(e) => {
                let c = f();
                let d = e.to_string();
                let mut m = String::new();
                push_str(&mut m, c.as_str());
                push_str(&mut m, ": ");
                push_str(&mut m, d.as_str());
                Err(AnalysisError::Other(m))
            },
        }
    }
}

} // verus!

//! The error that every operation of this library reports: a message, an
//! optional description of the cause, whether trying again may help, and
//! whether the error came out of the cache.

use std::fmt::Display;
use vstd::prelude::*;
use vstd::std_specs::cmp::PartialEqSpecImpl;
use vstd::string::to_string_from_display_ensures;

verus! {

/// Error which makes it easy to know whether the error is also preserved in
/// the cache, and whether trying again might not give an error.
#[derive(Debug)]
pub struct SRCError {
    error: String,
    cause: Option<String>,
    retriable: bool,
    cached: bool,
}

/// The mathematical content of an [`SRCError`].
pub struct SRCErrorView {
    pub error: Seq<char>,
    pub cause: Option<Seq<char>>,
    pub retriable: bool,
    pub cached: bool,
}

/// How a flag is written in an error's description.
pub open spec fn flag_text(flag: bool) -> Seq<char> {
    if flag {
        "true"@
    } else {
        "false"@
    }
}

impl SRCErrorView {
    /// The error that a constructor makes: it is never cached yet.
    pub open spec fn fresh(error: Seq<char>, cause: Option<Seq<char>>, retriable: bool) -> Self {
        SRCErrorView { error, cause, retriable, cached: false }
    }

    /// The same error as it is kept in the cache.
    pub open spec fn into_cache(self) -> Self {
        SRCErrorView { cached: true, ..self }
    }

    /// The readable form of the error.
    pub open spec fn description(self) -> Seq<char> {
        "Error: "@ + self.error + (match self.cause {
            Some(cause) => ", was cause by "@ + cause,
            None => " had no other cause"@,
        }) + ", it's retriable: "@ + flag_text(self.retriable) + ", it's cached: "@ + flag_text(
            self.cached,
        )
    }
}

impl View for SRCError {
    type V = SRCErrorView;

    closed spec fn view(&self) -> SRCErrorView {
        SRCErrorView {
            error: self.error@,
            cause: match self.cause {
                Some(cause) => Some(cause@),
                None => None,
            },
            retriable: self.retriable,
            cached: self.cached,
        }
    }
}

/// The content of an optional text.
pub open spec fn optional_text(text: Option<String>) -> Option<Seq<char>> {
    match text {
        Some(t) => Some(t@),
        None => None,
    }
}

fn flag_str(flag: bool) -> (text: &'static str)
    ensures
        text@ == flag_text(flag),
{
    if flag {
        "true"
    } else {
        "false"
    }
}

impl SRCError {
    /// An error that is not in the cache.
    pub fn new(error: &str, cause: Option<String>, retriable: bool) -> (result: SRCError)
        ensures
            result@ == SRCErrorView::fresh(error@, optional_text(cause), retriable),
    {
        SRCError { error: error.to_owned(), cause, retriable, cached: false }
    }

    /// An error for which trying again may help, caused by `cause`, whose
    /// printed form becomes the description of the cause.
    pub fn retryable_with_cause<T: Display>(cause: T, error: &str) -> (result: SRCError)
        ensures
            result@.error == error@,
            result@.retriable,
            !result@.cached,
            exists|text: String|
                to_string_from_display_ensures::<T>(&cause, text) && result@.cause == Some(text@),
    {
        SRCError::new(error, Some(cause.to_string()), true)
    }

    /// An error for which trying again will not help, caused by `cause`, whose
    /// printed form becomes the description of the cause.
    pub fn non_retryable_with_cause<T: Display>(cause: T, error: &str) -> (result: SRCError)
        ensures
            result@.error == error@,
            !result@.retriable,
            !result@.cached,
            exists|text: String|
                to_string_from_display_ensures::<T>(&cause, text) && result@.cause == Some(text@),
    {
        SRCError::new(error, Some(cause.to_string()), false)
    }

    /// An error for which trying again will not help and that has no other
    /// cause.
    pub fn non_retryable_without_cause(error: &str) -> (result: SRCError)
        ensures
            result@ == SRCErrorView::fresh(error@, None, false),
    {
        SRCError::new(error, None, false)
    }

    /// Should be called before the error is put in the cache: the result is
    /// the same error, marked as cached.
    pub fn into_cache(self) -> (result: SRCError)
        ensures
            result@ == self@.into_cache(),
    {
        SRCError { error: self.error, cause: self.cause, retriable: self.retriable, cached: true }
    }

    /// The message.
    pub fn error(&self) -> (text: &str)
        ensures
            text@ == self@.error,
    {
        self.error.as_str()
    }

    /// The description of the cause, if there is one.
    pub fn cause(&self) -> (text: Option<&str>)
        ensures
            match text {
                Some(t) => self@.cause == Some(t@),
                None => self@.cause is None,
            },
    {
        match &self.cause {
            Some(cause) => Some(cause.as_str()),
            None => None,
        }
    }

    /// Whether trying again may help.
    pub fn retriable(&self) -> (flag: bool)
        ensures
            flag == self@.retriable,
    {
        self.retriable
    }

    /// Whether the error came out of the cache.
    pub fn cached(&self) -> (flag: bool)
        ensures
            flag == self@.cached,
    {
        self.cached
    }

    /// The error in a readable form.
    pub fn to_string(&self) -> (text: String)
        ensures
            text@ == self@.description(),
    {
        let mut text = String::from_str("Error: ");
        text.append(self.error.as_str());
        match &self.cause {
            Some(cause) => {
                text.append(", was cause by ");
                text.append(cause.as_str());
            },
            None => {
                text.append(" had no other cause");
            },
        }
        text.append(", it's retriable: ");
        text.append(flag_str(self.retriable));
        text.append(", it's cached: ");
        text.append(flag_str(self.cached));
        text
    }
}

/// A copy of an error has the same content; in particular the copy is marked
/// as cached if and only if the error itself is.
impl Clone for SRCError {
    fn clone(&self) -> (result: SRCError)
        ensures
            result@ == self@,
    {
        let cause = match &self.cause {
            Some(cause) => Some(cause.clone()),
            None => None,
        };
        SRCError {
            error: self.error.clone(),
            cause,
            retriable: self.retriable,
            cached: self.cached,
        }
    }
}

impl PartialEq for SRCError {
    fn eq(&self, other: &SRCError) -> (result: bool) {
        let same_error = self.error == other.error;
        let same_cause = match &self.cause {
            Some(mine) => match &other.cause {
                Some(theirs) => *mine == *theirs,
                None => false,
            },
            None => other.cause.is_none(),
        };
        same_error && same_cause && self.retriable == other.retriable && self.cached
            == other.cached
    }
}

/// Two errors are equal when all four parts are.
impl PartialEqSpecImpl for SRCError {
    open spec fn obeys_eq_spec() -> bool {
        true
    }

    open spec fn eq_spec(&self, other: &SRCError) -> bool {
        self@ == other@
    }
}

/// An error that was made by a constructor and then admitted into the cache is
/// cached, and in its other three parts it is what the constructor was given.
pub proof fn lemma_into_cache_of_fresh(error: Seq<char>, cause: Option<Seq<char>>, retriable: bool)
    ensures
        SRCErrorView::fresh(error, cause, retriable).into_cache() == (SRCErrorView {
            error,
            cause,
            retriable,
            cached: true,
        }),
        !SRCErrorView::fresh(error, cause, retriable).cached,
{
}

/// Admission into the cache never clears the mark, never changes whether the
/// error is retriable, and admitting twice is admitting once.
pub proof fn lemma_into_cache_keeps(error: SRCErrorView)
    ensures
        error.into_cache().cached,
        error.into_cache().retriable == error.retriable,
        error.into_cache().error == error.error,
        error.into_cache().cause == error.cause,
        error.into_cache().into_cache() == error.into_cache(),
{
}

} // verus!

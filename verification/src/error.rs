//! Process-wide error values.
//!
//! Every failure carries a class from the error taxonomy, a short name, a
//! description and an optional rendered cause.  Nothing is recovered
//! internally: errors propagate to the top level, where the surrounding
//! program writes the rendered message and exits.

use vstd::prelude::*;
use crate::text::str_eq;

verus! {

/// The classes of failure the system distinguishes.
#[derive(Clone, Copy, Debug, PartialEq, Eq, Structural)]
pub enum ErrorKind {
    /// Missing or unreadable configuration, or an empty feature set.
    Configuration,
    /// Unknown feature name or malformed configuration entry.
    FeatureConstruction,
    /// A feature's timer or event subscription could not be armed.
    NotifierSetup,
    /// The external source failed during a refresh.
    Refresh,
    /// A refresh message referenced an id absent from the feature table.
    Protocol,
    /// A wrapped failure from outside the engine.
    Custom,
}

/// An error with a rendered, human-readable cause chain.
#[derive(Debug)]
pub struct Error {
    pub kind: ErrorKind,
    pub name: String,
    pub description: String,
    pub cause: Option<String>,
}

impl Error {
    /// The text of the message, `Error in <name>: <description>`, with the
    /// cause appended in parentheses when one is present.
    pub open spec fn spec_message(&self) -> Seq<char> {
        let base = "Error in "@ + self.name@ + ": "@ + self.description@;
        match self.cause {
            Some(c) => base + " ("@ + c@ + ")"@,
            None => base,
        }
    }

    /// A failure wrapping an underlying error, already rendered to text.
    pub fn new(name: &str, description: &str, cause: String) -> (r: Error)
        ensures
            r.kind == ErrorKind::Custom,
            r.name@ == name@,
            r.description@ == description@,
            r.cause matches Some(c) && c@ == cause@,
    {
        Error {
            kind: ErrorKind::Custom,
            name: String::from_str(name),
            description: String::from_str(description),
            cause: Some(cause),
        }
    }

    /// `new`, under the name tests use for it.
    pub fn new_test(name: &str, description: &str, cause: String) -> (r: Error)
        ensures
            r.kind == ErrorKind::Custom,
            r.name@ == name@,
            r.description@ == description@,
            r.cause matches Some(c) && c@ == cause@,
    {
        Error::new(name, description, cause)
    }

    /// A failure with no underlying cause.
    pub fn new_custom(name: &str, description: &str) -> (r: Error)
        ensures
            r.kind == ErrorKind::Custom,
            r.name@ == name@,
            r.description@ == description@,
            r.cause is None,
    {
        Error {
            kind: ErrorKind::Custom,
            name: String::from_str(name),
            description: String::from_str(description),
            cause: None,
        }
    }

    /// A configuration failure.
    pub fn configuration(name: &str, description: &str) -> (r: Error)
        ensures
            r.kind == ErrorKind::Configuration,
            r.name@ == name@,
            r.description@ == description@,
            r.cause is None,
    {
        Error {
            kind: ErrorKind::Configuration,
            name: String::from_str(name),
            description: String::from_str(description),
            cause: None,
        }
    }

    /// A failure to construct a feature from a configuration entry.
    pub fn feature_construction(description: &str) -> (r: Error)
        ensures
            r.kind == ErrorKind::FeatureConstruction,
            r.name@ == "invalid feature"@,
            r.description@ == description@,
            r.cause is None,
    {
        Error {
            kind: ErrorKind::FeatureConstruction,
            name: String::from_str("invalid feature"),
            description: String::from_str(description),
            cause: None,
        }
    }

    /// A failure to arm a feature's timer or event subscription.
    pub fn notifier_setup(name: &str, cause: String) -> (r: Error)
        ensures
            r.kind == ErrorKind::NotifierSetup,
            r.name@ == name@,
            r.description@ == "failed to arm notifier"@,
            r.cause matches Some(c) && c@ == cause@,
    {
        Error {
            kind: ErrorKind::NotifierSetup,
            name: String::from_str(name),
            description: String::from_str("failed to arm notifier"),
            cause: Some(cause),
        }
    }

    /// A refresh failure of the named feature.
    pub fn refresh(name: &str, cause: String) -> (r: Error)
        ensures
            r.kind == ErrorKind::Refresh,
            r.name@ == name@,
            r.description@ == "could not refresh feature"@,
            r.cause matches Some(c) && c@ == cause@,
    {
        Error {
            kind: ErrorKind::Refresh,
            name: String::from_str(name),
            description: String::from_str("could not refresh feature"),
            cause: Some(cause),
        }
    }

    /// The protocol failure: a refresh message named an id that is not in
    /// the feature table.
    pub fn protocol(id: &str) -> (r: Error)
        ensures
            r.kind == ErrorKind::Protocol,
            r.name@ == "invalid message"@,
            r.description@ == "message id "@ + id@ + " does not exist"@,
            r.cause is None,
    {
        let mut description = String::from_str("message id ");
        description.append(id);
        description.append(" does not exist");
        Error {
            kind: ErrorKind::Protocol,
            name: String::from_str("invalid message"),
            description,
        cause: None,
        }
    }

    /// The rendered message, in the shape `spec_message` gives.
    pub fn message(&self) -> (r: String)
        ensures
            r@ == self.spec_message(),
    {
        let mut r = String::from_str("Error in ");
        r.append(self.name.as_str());
        r.append(": ");
        r.append(self.description.as_str());
        match &self.cause {
            Some(cause) => {
                r.append(" (");
                r.append(cause.as_str());
                r.append(")");
            },
            None => {},
        }
        proof {
            assert(r@ =~= self.spec_message());
        }
        r
    }

    /// Consumes the error and hands back the line a logger would show.
    pub fn show_error(self) -> (r: String)
        ensures
            r@ == self.spec_message(),
    {
        self.message()
    }
}

impl PartialEq for Error {
    /// Two errors are equal when their classes and texts are.
    fn eq(&self, other: &Error) -> (r: bool) {
        self.kind == other.kind && str_eq(self.name.as_str(), other.name.as_str()) && str_eq(
            self.description.as_str(),
            other.description.as_str(),
        ) && (match (&self.cause, &other.cause) {
            (Option::None, Option::None) => true,
            (Some(a), Some(b)) => str_eq(a.as_str(), b.as_str()),
            _ => false,
        })
    }
}

impl vstd::std_specs::cmp::PartialEqSpecImpl for Error {
    open spec fn obeys_eq_spec() -> bool {
        true
    }

    open spec fn eq_spec(&self, other: &Error) -> bool {
        self.kind == other.kind && self.name@ == other.name@ && self.description@
            == other.description@ && (match (self.cause, other.cause) {
            (Option::None, Option::None) => true,
            (Some(a), Some(b)) => a@ == b@,
            _ => false,
        })
    }
}

/// Turns any failure into an [`Error`] under a name and description.
pub trait WrapErrorExt<T>: Sized {
    fn wrap_error(self, name: &str, description: &str) -> Result<T, Error>;
}

/// The underlying failure, already rendered to text, becomes the cause.
impl<T> WrapErrorExt<T> for Result<T, String> {
    fn wrap_error(self, name: &str, description: &str) -> (r: Result<T, Error>)
        ensures
            self matches Ok(v) ==> r matches Ok(w) && w == v,
            self matches Err(c) ==> (r matches Err(e) && e.kind == ErrorKind::Custom && e.name@
                == name@ && e.description@ == description@ && (e.cause matches Some(s) && s@
                == c@)),
    {
        match self {
            Ok(v) => Ok(v),
            Err(cause) => Err(Error::new(name, description, cause)),
        }
    }
}

/// The inner error's rendered message becomes the cause.
impl<T> WrapErrorExt<T> for Result<T, Error> {
    fn wrap_error(self, name: &str, description: &str) -> (r: Result<T, Error>)
        ensures
            self matches Ok(v) ==> r matches Ok(w) && w == v,
            self matches Err(inner) ==> (r matches Err(e) && e.kind == ErrorKind::Custom && e.name@
                == name@ && e.description@ == description@ && (e.cause matches Some(s) && s@
                == inner.spec_message())),
    {
        match self {
            Ok(v) => Ok(v),
            Err(inner) => Err(Error::new(name, description, inner.message())),
        }
    }
}

/// An absent value becomes an [`Error`] with no cause.
impl<T> WrapErrorExt<T> for Option<T> {
    fn wrap_error(self, name: &str, description: &str) -> (r: Result<T, Error>)
        ensures
            self matches Some(v) ==> r matches Ok(w) && w == v,
            self is None ==> (r matches Err(e) && e.kind == ErrorKind::Custom && e.name@ == name@
                && e.description@ == description@ && e.cause is None),
    {
        match self {
            Some(v) => Ok(v),
            None => Err(Error::new_custom(name, description)),
        }
    }
}

/// Renders the error of a result, handing the message out for display.
pub trait ResultExt<T>: Sized {
    fn show_error(self) -> Result<T, String>;
}

impl<T> ResultExt<T> for Result<T, Error> {
    /// On failure, the value the caller gets is the rendered message.
    fn show_error(self) -> (r: Result<T, String>)
        ensures
            self matches Ok(v) ==> r matches Ok(w) && w == v,
            self matches Err(e) ==> r matches Err(m) && m@ == e.spec_message(),
    {
        match self {
            Ok(v) => Ok(v),
            Err(e) => Err(e.show_error()),
        }
    }
}

} // verus!

//! The values the construction core works on.
//!
//! A caller hands in one of two shapes of data: a plain displayable message
//! ([`Message`]), or a value of the structured error interface
//! ([`ErrorObject`]) — its display and debug text, its optional chained
//! cause, and its optional backtrace. An already type-erased error object is
//! a boxed [`ErrorObject`].
//!
//! The output is the opaque [`UnifiedError`]. Its three associated
//! constructors `build`, `build_from_cause` and `build_from_boxed` are the
//! error-sink operations; each construction strategy calls exactly one of
//! them.

use vstd::prelude::*;
use crate::site::Backtrace;
use crate::site::Location;

verus! {

/// A plain failure description: display and debug text and nothing else.
/// It is adhoc-eligible only — it reports no cause and no backtrace.
#[derive(Clone, Debug, PartialEq, Eq)]
pub struct Message {
    pub display: String,
    pub debug: String,
}

/// A value of the structured error interface: display and debug text, an
/// optional chained cause, and an optional backtrace. A boxed polymorphic
/// error object is a `Box<ErrorObject>`.
#[derive(Debug, PartialEq, Eq)]
pub struct ErrorObject {
    pub display: String,
    pub debug: String,
    pub cause: Option<Box<ErrorObject>>,
    pub backtrace: Option<Backtrace>,
}

impl ErrorObject {
    /// An error object is well formed when every backtrace along its cause
    /// chain is.
    pub open spec fn wf(&self) -> bool
        decreases self,
    {
        &&& (self.backtrace matches Some(b) ==> b.wf())
        &&& (self.cause matches Some(c) ==> c.wf())
    }

    /// The number of causes below this object.
    pub open spec fn chain_len(&self) -> nat
        decreases self,
    {
        match self.cause {
            None => 0,
            Some(c) => 1 + c.chain_len(),
        }
    }

    /// Whether the object reports a backtrace of its own.
    pub fn has_backtrace(&self) -> (r: bool)
        ensures
            r == (self.backtrace is Some),
    {
        self.backtrace.is_some()
    }

    /// The object's reported cause, one level down.
    pub fn source(&self) -> (r: Option<&ErrorObject>)
        ensures
            (r is Some) == (self.cause is Some),
            r matches Some(c) ==> self.cause matches Some(b) && *c == *b,
    {
        match &self.cause {
            Some(b) => Some(&**b),
            None => None,
        }
    }
}

/// The one opaque error value every construction strategy produces. Exactly
/// one of the three sink operations populated it; from outside, only its
/// general interface is observable: display text, optional cause, optional
/// backtrace, optional recorded call site.
#[derive(Debug, PartialEq, Eq)]
pub struct UnifiedError {
    pub message: String,
    pub debug: String,
    pub cause: Option<Box<ErrorObject>>,
    pub backtrace: Option<Backtrace>,
    pub location: Option<Location>,
}

impl UnifiedError {
    /// A unified error is well formed when every backtrace it holds or
    /// reaches through its cause chain is.
    pub open spec fn wf(&self) -> bool {
        &&& (self.backtrace matches Some(b) ==> b.wf())
        &&& (self.cause matches Some(c) ==> c.wf())
    }

    /// The length of the error's cause chain.
    pub open spec fn chain_len(&self) -> nat {
        match self.cause {
            None => 0,
            Some(c) => 1 + c.chain_len(),
        }
    }

    /// The backtrace the error reports through its general interface: the one
    /// stored at construction, or failing that, the one its direct cause
    /// carries.
    pub open spec fn visible_backtrace(&self) -> Option<Backtrace> {
        if self.backtrace is Some {
            self.backtrace
        } else {
            match self.cause {
                Some(c) => c.backtrace,
                None => None,
            }
        }
    }

    /// Sink operation for the adhoc strategy: the message's display and debug
    /// text become the error's own, with no cause.
    pub fn build(message: Message, backtrace: Option<Backtrace>, location: Option<Location>) -> (r: UnifiedError)
        ensures
            r.message == message.display,
            r.debug == message.debug,
            r.cause is None,
            r.backtrace == backtrace,
            r.location == location,
    {
        UnifiedError {
            message: message.display,
            debug: message.debug,
            cause: None,
            backtrace,
            location,
        }
    }

    /// Sink operation for the structured strategy: the direct conversion of a
    /// structured error, keeping its display text, cause chain and backtrace.
    /// The conversion itself is not call-site aware: it records no location.
    pub fn build_from_cause(error: ErrorObject) -> (r: UnifiedError)
        ensures
            r.message == error.display,
            r.debug == error.debug,
            r.cause == error.cause,
            r.backtrace == error.backtrace,
            r.location is None,
    {
        UnifiedError {
            message: error.display,
            debug: error.debug,
            cause: error.cause,
            backtrace: error.backtrace,
            location: None,
        }
    }

    /// Sink operation for the boxed strategy: the boxed object becomes the
    /// error's direct cause, untouched, so its own chain stays reachable.
    pub fn build_from_boxed(error: Box<ErrorObject>, backtrace: Option<Backtrace>, location: Option<Location>) -> (r: UnifiedError)
        ensures
            r.message == error.display,
            r.debug == error.debug,
            r.cause == Some(error),
            r.backtrace == backtrace,
            r.location == location,
    {
        let message = error.display.clone();
        let debug = error.debug.clone();
        UnifiedError {
            message,
            debug,
            cause: Some(error),
            backtrace,
            location,
        }
    }

    /// What converting a structured error yields: [`UnifiedError::from`]
    /// returns exactly this value.
    pub open spec fn converted_from(error: ErrorObject) -> UnifiedError {
        UnifiedError {
            message: error.display,
            debug: error.debug,
            cause: error.cause,
            backtrace: error.backtrace,
            location: None,
        }
    }

    /// Stamps the recorded call site, leaving everything else unchanged.
    pub fn set_location(&mut self, location: Option<Location>)
        ensures
            final(self).location == location,
            final(self).message == old(self).message,
            final(self).debug == old(self).debug,
            final(self).cause == old(self).cause,
            final(self).backtrace == old(self).backtrace,
    {
        self.location = location;
    }

    /// The error's display text.
    pub fn display_text(&self) -> (r: &String)
        ensures
            *r == self.message,
    {
        &self.message
    }

    /// The error's debug text.
    pub fn debug_text(&self) -> (r: &String)
        ensures
            *r == self.debug,
    {
        &self.debug
    }

    /// The error's cause, one level down.
    pub fn cause(&self) -> (r: Option<&ErrorObject>)
        ensures
            (r is Some) == (self.cause is Some),
            r matches Some(c) ==> self.cause matches Some(b) && *c == *b,
    {
        match &self.cause {
            Some(b) => Some(&**b),
            None => None,
        }
    }

    /// The backtrace the error reports: the stored one, or its direct
    /// cause's.
    pub fn backtrace(&self) -> (r: Option<&Backtrace>)
        ensures
            (r is Some) == (self.visible_backtrace() is Some),
            r matches Some(b) ==> self.visible_backtrace() == Some(*b),
    {
        match &self.backtrace {
            Some(b) => Some(b),
            None => match &self.cause {
                Some(c) => match &c.backtrace {
                    Some(b) => Some(b),
                    None => None,
                },
                None => None,
            },
        }
    }

    /// The recorded call site, if tracking was available.
    pub fn location(&self) -> (r: Option<&Location>)
        ensures
            (r is Some) == (self.location is Some),
            r matches Some(l) ==> self.location == Some(*l),
    {
        match &self.location {
            Some(l) => Some(l),
            None => None,
        }
    }
}

/// Structured-eligibility is convertibility into the unified error: this is
/// the conversion. It is deliberately not call-site aware; a caller that
/// wants the construction site recorded must stamp it afterwards.
impl From<ErrorObject> for UnifiedError {
    fn from(error: ErrorObject) -> (r: UnifiedError) {
        UnifiedError::build_from_cause(error)
    }
}

impl vstd::std_specs::convert::FromSpecImpl<ErrorObject> for UnifiedError {
    open spec fn obeys_from_spec() -> bool {
        true
    }

    open spec fn from_spec(error: ErrorObject) -> UnifiedError {
        UnifiedError::converted_from(error)
    }
}

} // verus!

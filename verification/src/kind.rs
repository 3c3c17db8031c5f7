//! Capability-based construction dispatch.
//!
//! Three overlapping capability predicates classify a caller's input: every
//! modelled input is adhoc-eligible (displayable, debuggable, shareable), a
//! structured error or a boxed error object is also structured-eligible
//! (convertible into the unified error), and a boxed error object alone is
//! boxed-eligible. When several predicates hold of one value, the resolver
//! picks the single strategy of highest precedence — boxed over structured
//! over adhoc — so the path that preserves the most existing metadata always
//! wins. Resolution is total and deterministic and never inspects a value
//! beyond its capabilities.
//!
//! Each strategy is carried by a zero-sized tag ([`Adhoc`], [`Trait`],
//! [`Boxed`]) whose `new` builds the unified error through exactly one sink
//! operation, capturing a backtrace and the call-site location as the
//! strategy demands.

use vstd::prelude::*;
use crate::error::ErrorObject;
use crate::error::Message;
use crate::error::UnifiedError;
use crate::site::Backtrace;
use crate::site::CallSite;

verus! {

/// One caller input, classified by shape: a plain message, a value of the
/// structured error interface, or an already-boxed error object.
#[derive(Debug, PartialEq, Eq)]
pub enum Input {
    Message(Message),
    Structured(ErrorObject),
    Boxed(Box<ErrorObject>),
}

/// Every modelled input is displayable, debuggable and freely shareable, so
/// every input qualifies for the adhoc fallback.
pub open spec fn adhoc_eligible(input: Input) -> bool {
    true
}

/// An input is structured-eligible when it is convertible into the unified
/// error: anything of the structured error interface qualifies, a boxed
/// error object included; a plain message does not.
pub open spec fn structured_eligible(input: Input) -> bool {
    input is Structured || input is Boxed
}

/// An input is boxed-eligible when it is already an owned, type-erased error
/// object.
pub open spec fn boxed_eligible(input: Input) -> bool {
    input is Boxed
}

/// An input is well formed when every backtrace it carries is.
pub open spec fn input_wf(input: Input) -> bool {
    match input {
        Input::Message(_) => true,
        Input::Structured(e) => e.wf(),
        Input::Boxed(b) => b.wf(),
    }
}

/// The construction strategy the resolver selected: one of the three
/// capability tags, as a plain enumeration.
#[derive(Clone, Copy, Debug, PartialEq, Eq)]
pub enum Strategy {
    Adhoc,
    Trait,
    Boxed,
}

/// The strategy the precedence rule selects for an input: boxed over
/// structured over adhoc.
pub open spec fn selected(input: Input) -> Strategy {
    if boxed_eligible(input) {
        Strategy::Boxed
    } else if structured_eligible(input) {
        Strategy::Trait
    } else {
        Strategy::Adhoc
    }
}

/// The precedence rule on the three capability predicates, taken as plain
/// truth values: boxed wins over structured, structured over adhoc. A value
/// satisfying no predicate has no strategy and is never handed to the
/// resolver.
pub fn resolve(adhoc: bool, structured: bool, boxed: bool) -> (r: Strategy)
    requires
        adhoc || structured || boxed,
    ensures
        (r is Boxed) == boxed,
        (r is Trait) == (!boxed && structured),
        (r is Adhoc) == (!boxed && !structured && adhoc),
{
    if boxed {
        Strategy::Boxed
    } else if structured {
        Strategy::Trait
    } else {
        Strategy::Adhoc
    }
}

/// Whether the input is adhoc-eligible.
pub fn is_adhoc_eligible(input: &Input) -> (r: bool)
    ensures
        r == adhoc_eligible(*input),
{
    true
}

/// Whether the input is structured-eligible.
pub fn is_structured_eligible(input: &Input) -> (r: bool)
    ensures
        r == structured_eligible(*input),
{
    match input {
        Input::Message(_) => false,
        Input::Structured(_) => true,
        Input::Boxed(_) => true,
    }
}

/// Whether the input is boxed-eligible.
pub fn is_boxed_eligible(input: &Input) -> (r: bool)
    ensures
        r == boxed_eligible(*input),
{
    match input {
        Input::Message(_) => false,
        Input::Structured(_) => false,
        Input::Boxed(_) => true,
    }
}

/// The capability resolver: evaluates the three predicates on the input and
/// applies the precedence rule.
pub fn classify(input: &Input) -> (r: Strategy)
    ensures
        r == selected(*input),
{
    let adhoc = is_adhoc_eligible(input);
    let structured = is_structured_eligible(input);
    let boxed = is_boxed_eligible(input);
    resolve(adhoc, structured, boxed)
}

/// What the adhoc strategy builds: the message's text, no cause, the fresh
/// backtrace and the location captured at the call site.
pub open spec fn built_adhoc(message: Message, site: CallSite) -> UnifiedError {
    UnifiedError {
        message: message.display,
        debug: message.debug,
        cause: None,
        backtrace: site.backtrace,
        location: site.location,
    }
}

/// What the structured strategy builds: the direct conversion of the error —
/// its text, its cause chain, its own backtrace — with the call-site
/// location stamped on afterwards.
pub open spec fn built_structured(error: ErrorObject, site: CallSite) -> UnifiedError {
    UnifiedError {
        message: error.display,
        debug: error.debug,
        cause: error.cause,
        backtrace: error.backtrace,
        location: site.location,
    }
}

/// What the boxed strategy builds: the boxed object itself as the direct
/// cause, a fresh backtrace only when the object reports none of its own,
/// and the location captured at the call site.
pub open spec fn built_boxed(error: Box<ErrorObject>, site: CallSite) -> UnifiedError {
    UnifiedError {
        message: error.display,
        debug: error.debug,
        cause: Some(error),
        backtrace: if error.backtrace is Some {
            None
        } else {
            site.backtrace
        },
        location: site.location,
    }
}

/// What constructing an input at a call site yields, by the selected
/// strategy.
pub open spec fn constructed(input: Input, site: CallSite) -> UnifiedError {
    match input {
        Input::Message(m) => built_adhoc(m, site),
        Input::Structured(e) => built_structured(e, site),
        Input::Boxed(b) => built_boxed(b, site),
    }
}

/// The capability tag of the adhoc strategy.
#[derive(Clone, Copy, Debug, PartialEq, Eq)]
pub struct Adhoc;

/// Adhoc eligibility as a capability: held by every modelled input shape.
pub trait AdhocKind: Sized {
    /// Yields the adhoc tag.
    fn anyhow_kind(&self) -> Adhoc {
        Adhoc
    }
}

impl AdhocKind for Message {
}

impl AdhocKind for ErrorObject {
}

impl AdhocKind for Box<ErrorObject> {
}

impl Adhoc {
    /// The adhoc constructor: wraps the message's display and debug text as
    /// the sole content, with no cause, taking the call site's fresh
    /// backtrace and location unconditionally.
    pub fn new(self, message: Message, site: CallSite) -> (r: UnifiedError)
        ensures
            r == built_adhoc(message, site),
    {
        UnifiedError::build(message, site.backtrace, site.location)
    }
}

/// The capability tag of the structured-cause strategy.
#[derive(Clone, Copy, Debug, PartialEq, Eq)]
pub struct Trait;

/// Structured eligibility as a capability: held by anything convertible into
/// the unified error, which is anything of the structured error interface.
pub trait TraitKind: Sized {
    /// Yields the structured-cause tag.
    fn anyhow_kind(&self) -> Trait {
        Trait
    }
}

impl TraitKind for ErrorObject {
}

impl TraitKind for Box<ErrorObject> {
}

impl Trait {
    /// The structured-cause constructor: converts the error directly, losing
    /// nothing of its cause chain or backtrace, then stamps the call-site
    /// location on the result — the conversion itself is not call-site aware,
    /// so the correct site must be set afterwards. No backtrace is captured;
    /// whatever the error already carries is kept.
    pub fn new(self, error: ErrorObject, site: CallSite) -> (r: UnifiedError)
        ensures
            r == built_structured(error, site),
    {
        let mut unified: UnifiedError = UnifiedError::from(error);
        unified.set_location(site.location);
        unified
    }
}

/// The capability tag of the boxed strategy.
#[derive(Clone, Copy, Debug, PartialEq, Eq)]
pub struct Boxed;

/// Boxed eligibility as a capability: held by an owned, type-erased error
/// object.
pub trait BoxedKind: Sized {
    /// Yields the boxed tag.
    fn anyhow_kind(&self) -> Boxed {
        Boxed
    }
}

impl BoxedKind for Box<ErrorObject> {
}

impl Boxed {
    /// The boxed constructor: wraps the object untouched as the error's
    /// direct cause, so its whole reported chain stays reachable, and
    /// captures a fresh backtrace only when the object reports none of its
    /// own.
    pub fn new(self, error: Box<ErrorObject>, site: CallSite) -> (r: UnifiedError)
        ensures
            r == built_boxed(error, site),
    {
        let backtrace = backtrace_if_absent(&error, site.backtrace);
        UnifiedError::build_from_boxed(error, backtrace, site.location)
    }
}

/// The fresh capture to store beside a structured error: none when the error
/// already reports a backtrace, the call site's otherwise.
fn backtrace_if_absent(error: &ErrorObject, fresh: Option<Backtrace>) -> (r: Option<Backtrace>)
    ensures
        error.backtrace is Some ==> r is None,
        error.backtrace is None ==> r == fresh,
{
    if error.has_backtrace() {
        None
    } else {
        fresh
    }
}

/// Builds the unified error for an arbitrary input: resolves the input's
/// capabilities to the single highest-precedence strategy and invokes that
/// strategy's constructor — exactly one sink operation per input.
pub fn construct(input: Input, site: CallSite) -> (r: UnifiedError)
    ensures
        r == constructed(input, site),
{
    match input {
        Input::Message(m) => AdhocKind::anyhow_kind(&m).new(m, site),
        Input::Structured(e) => TraitKind::anyhow_kind(&e).new(e, site),
        Input::Boxed(b) => BoxedKind::anyhow_kind(&b).new(b, site),
    }
}

} // verus!

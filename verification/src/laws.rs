//! The guarantees the construction core gives, stated over all inputs.

use vstd::prelude::*;
use crate::error::ErrorObject;
use crate::error::Message;
use crate::site::CallSite;
use crate::site::Host;
use crate::kind::Input;
use crate::kind::Strategy;
use crate::kind::boxed_eligible;
use crate::kind::constructed;
use crate::kind::input_wf;
use crate::kind::selected;
use crate::kind::structured_eligible;

verus! {

/// An adhoc-eligible input with no structured error interface — a plain
/// message — yields an error whose display text is the message's own and
/// whose cause chain is empty.
pub proof fn lemma_adhoc_text_and_empty_chain(m: Message, site: CallSite)
    ensures
        constructed(Input::Message(m), site).message == m.display,
        constructed(Input::Message(m), site).cause is None,
        constructed(Input::Message(m), site).chain_len() == 0,
{
}

/// A structured-eligible input yields an error whose cause chain, walked one
/// level, is exactly the input's own reported cause.
pub proof fn lemma_structured_cause_round_trip(e: ErrorObject, site: CallSite)
    ensures
        constructed(Input::Structured(e), site).cause == e.cause,
{
}

/// A boxed input that already reports a backtrace keeps it: the constructed
/// error's visible backtrace is the original one, with no second capture
/// stored beside it.
pub proof fn lemma_boxed_keeps_backtrace(b: Box<ErrorObject>, site: CallSite)
    requires
        b.backtrace is Some,
    ensures
        constructed(Input::Boxed(b), site).visible_backtrace() == b.backtrace,
        constructed(Input::Boxed(b), site).backtrace is None,
{
}

/// A boxed input that reports no backtrace gets the call site's fresh one:
/// non-empty when the host's backtrace facility is enabled, and absent when
/// it is disabled.
pub proof fn lemma_boxed_fresh_backtrace(b: Box<ErrorObject>, site: CallSite, host: Host)
    requires
        site.from_host(host),
        b.backtrace is None,
    ensures
        constructed(Input::Boxed(b), site).visible_backtrace() == site.backtrace,
        host.backtrace_enabled ==> (constructed(Input::Boxed(b), site).visible_backtrace()
            matches Some(t) && t.frames@.len() > 0),
        !host.backtrace_enabled ==> constructed(Input::Boxed(b), site).visible_backtrace() is None,
{
}

/// The tie-break is deterministic: a boxed input satisfies both the
/// structured and the boxed predicate, yet is always constructed through the
/// boxed path, which preserves its identity — the object itself, untouched,
/// is the constructed error's direct cause.
pub proof fn lemma_boxed_precedence(b: Box<ErrorObject>, site: CallSite)
    ensures
        structured_eligible(Input::Boxed(b)),
        boxed_eligible(Input::Boxed(b)),
        selected(Input::Boxed(b)) == Strategy::Boxed,
        constructed(Input::Boxed(b), site).cause == Some(b),
{
}

/// Construction preserves well-formedness: from a well-formed input and a
/// well-formed call site, every strategy yields a well-formed error.
pub proof fn lemma_construct_well_formed(input: Input, site: CallSite)
    requires
        input_wf(input),
        site.wf(),
    ensures
        constructed(input, site).wf(),
{
}

/// Every strategy records the call site it was invoked at: the constructed
/// error's location is always the site's.
pub proof fn lemma_location_stamped(input: Input, site: CallSite)
    ensures
        constructed(input, site).location == site.location,
{
}

/// With call-site tracking enabled, constructions at distinct source lines
/// record distinct locations; with it disabled, the location is absent from
/// both results.
pub proof fn lemma_distinct_locations(i1: Input, s1: CallSite, i2: Input, s2: CallSite, host: Host)
    requires
        s1.from_host(host),
        s2.from_host(host),
    ensures
        host.location_enabled && s1.location->Some_0.line != s2.location->Some_0.line
            ==> constructed(i1, s1).location != constructed(i2, s2).location,
        !host.location_enabled ==> constructed(i1, s1).location is None
            && constructed(i2, s2).location is None,
{
    lemma_location_stamped(i1, s1);
    lemma_location_stamped(i2, s2);
}

} // verus!

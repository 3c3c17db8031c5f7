//! Construction core of an error-unification library.
//!
//! A caller-supplied failure description — a plain displayable message, a
//! value implementing the structured error interface, or an already-boxed
//! polymorphic error object — is turned into one uniform error value. The
//! core selects exactly one of three construction strategies for each input,
//! with the precedence boxed > structured > adhoc, and preserves whatever
//! metadata (display text, causal chain, backtrace, call-site location) the
//! input can supply.

pub mod error;
pub mod kind;
pub mod laws;
pub mod site;

pub use error::ErrorObject;
pub use error::Message;
pub use error::UnifiedError;
pub use site::Backtrace;
pub use site::CallSite;
pub use site::Host;
pub use site::Location;

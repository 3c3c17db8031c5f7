//! Call-site data: captured backtraces, source locations, and the host's
//! capability flags.
//!
//! Whether backtrace capture and call-site tracking exist at all is a
//! property of the host, fixed once for a whole build and never varying per
//! call. The two flags live in [`Host`]; what the host actually captured for
//! one construction call lives in [`CallSite`].

use vstd::prelude::*;

verus! {

/// A captured stack trace, modelled as the sequence of its frame addresses.
/// A capture that succeeded always holds at least one frame.
#[derive(Clone, Debug, PartialEq, Eq)]
pub struct Backtrace {
    pub frames: Vec<u64>,
}

impl Backtrace {
    /// A backtrace is well formed when it records at least one frame:
    /// an empty capture is represented as no backtrace at all.
    pub open spec fn wf(&self) -> bool {
        self.frames@.len() > 0
    }

    /// How many frames the capture recorded.
    pub fn frame_count(&self) -> (n: usize)
        ensures
            n == self.frames@.len(),
    {
        self.frames.len()
    }
}

/// The source position (file, line, column) at which a construction call was
/// invoked.
#[derive(Clone, Debug, PartialEq, Eq)]
pub struct Location {
    pub file: String,
    pub line: u32,
    pub column: u32,
}

/// The host's two capability flags: whether a backtrace facility exists and
/// whether call-site tracking is available. Both are fixed at build time and
/// must not vary from one construction call to the next.
#[derive(Clone, Copy, Debug, PartialEq, Eq)]
pub struct Host {
    pub backtrace_enabled: bool,
    pub location_enabled: bool,
}

/// What the host captured at one construction call site: a fresh backtrace
/// when the backtrace facility exists, and the source position when call-site
/// tracking is available.
#[derive(Clone, Debug, PartialEq, Eq)]
pub struct CallSite {
    pub backtrace: Option<Backtrace>,
    pub location: Option<Location>,
}

impl CallSite {
    /// A call site is well formed when any backtrace it carries is.
    pub open spec fn wf(&self) -> bool {
        self.backtrace matches Some(b) ==> b.wf()
    }

    /// The site was captured under the given host flags: each optional field
    /// is present exactly when the host supports it.
    pub open spec fn from_host(&self, host: Host) -> bool {
        &&& self.wf()
        &&& (self.backtrace is Some <==> host.backtrace_enabled)
        &&& (self.location is Some <==> host.location_enabled)
    }

    /// Assembles the record of one construction call site from what the host
    /// observed there, keeping each piece exactly when the matching host
    /// facility is enabled. A host with a working backtrace facility always
    /// observes at least one frame.
    pub fn capture(host: &Host, file: String, line: u32, column: u32, frames: Vec<u64>) -> (r: CallSite)
        requires
            host.backtrace_enabled ==> frames@.len() > 0,
        ensures
            r.from_host(*host),
            host.backtrace_enabled ==> (r.backtrace matches Some(b) && b.frames == frames),
            host.location_enabled ==> (r.location matches Some(l) && l.file == file && l.line == line
                && l.column == column),
    {
        let backtrace = if host.backtrace_enabled {
            Some(Backtrace { frames })
        } else {
            None
        };
        let location = if host.location_enabled {
            Some(Location { file, line, column })
        } else {
            None
        };
        CallSite { backtrace, location }
    }
}

} // verus!

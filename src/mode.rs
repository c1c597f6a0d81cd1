//! The process-wide capture mode and the control surface that changes it.
use vstd::prelude::*;
use crate::text::{lower_of, lowercase, str_eq};

verus! {

/// How a device monitor holds its device: exclusively, re-emitting every
/// event (`Grab`), or as a plain observer (`Passive`).
#[derive(Clone, Copy, PartialEq, Eq, Structural, Debug)]
pub enum CaptureMode {
    Grab,
    Passive,
}

/// The external name of a mode.
pub open spec fn mode_name(m: CaptureMode) -> Seq<char> {
    match m {
        CaptureMode::Grab => "grab"@,
        CaptureMode::Passive => "passive"@,
    }
}

/// The mode a lowercased name denotes, if any.
pub open spec fn mode_of_name(s: Seq<char>) -> Option<CaptureMode> {
    if s == "passive"@ {
        Some(CaptureMode::Passive)
    } else if s == "grab"@ {
        Some(CaptureMode::Grab)
    } else {
        None
    }
}

/// The other mode.
pub open spec fn flipped(m: CaptureMode) -> CaptureMode {
    match m {
        CaptureMode::Grab => CaptureMode::Passive,
        CaptureMode::Passive => CaptureMode::Grab,
    }
}

/// Reads an already lowercased mode name.
pub fn mode_from_lowercase(s: &str) -> (r: Option<CaptureMode>)
    ensures
        r == mode_of_name(s@),
{
    if str_eq(s, "passive") {
        Some(CaptureMode::Passive)
    } else if str_eq(s, "grab") {
        Some(CaptureMode::Grab)
    } else {
        None
    }
}

/// The mode to start in, from the configured mode string: passive when it
/// reads "passive" in any case, grab otherwise.
pub fn initial_mode(configured: &str) -> (r: CaptureMode)
    ensures
        r == (if lower_of(configured@) == "passive"@ { CaptureMode::Passive } else { CaptureMode::Grab }),
{
    let lowered = lowercase(configured);
    if str_eq(lowered.as_str(), "passive") {
        CaptureMode::Passive
    } else {
        CaptureMode::Grab
    }
}

/// The control surface over the shared capture mode.
pub struct DaemonControl {
    mode: CaptureMode,
}

impl DaemonControl {
    /// A control surface starting in `mode`.
    pub fn new(mode: CaptureMode) -> (r: DaemonControl)
        ensures
            r.spec_mode() == mode,
    {
        DaemonControl { mode }
    }

    /// The mode currently in force.
    pub closed spec fn spec_mode(&self) -> CaptureMode {
        self.mode
    }

    /// The mode currently in force.
    pub fn mode(&self) -> (r: CaptureMode)
        ensures
            r == self.spec_mode(),
    {
        self.mode
    }

    /// The current mode's name: "grab" or "passive".
    pub fn get_mode(&self) -> (r: &'static str)
        ensures
            r@ == mode_name(self.spec_mode()),
    {
        match self.mode {
            CaptureMode::Grab => "grab",
            CaptureMode::Passive => "passive",
        }
    }

    /// Sets the mode from its name, in any case. Returns whether the name was
    /// recognised; an unrecognised name leaves the mode as it was.
    pub fn set_mode(&mut self, mode: &str) -> (r: bool)
        ensures
            r == (mode_of_name(lower_of(mode@)) is Some),
            final(self).spec_mode() == (match mode_of_name(lower_of(mode@)) {
                Some(m) => m,
                None => old(self).spec_mode(),
            }),
    {
        let lowered = lowercase(mode);
        match mode_from_lowercase(lowered.as_str()) {
            Some(m) => {
                self.mode = m;
                true
            },
            None => false,
        }
    }

    /// Switches to the other mode and returns the new mode's name.
    pub fn toggle_mode(&mut self) -> (r: &'static str)
        ensures
            final(self).spec_mode() == flipped(old(self).spec_mode()),
            r@ == mode_name(final(self).spec_mode()),
    {
        self.mode = match self.mode {
            CaptureMode::Grab => CaptureMode::Passive,
            CaptureMode::Passive => CaptureMode::Grab,
        };
        self.get_mode()
    }
}

} // verus!

//! The three operations, each as a step on a window that the caller holds.

use crate::clock::spec_timestamp;
use crate::clock::timestamp;
use crate::config::Config;
use crate::entry::WindowEntry;
use crate::submit::Submission;
use crate::submit::SubmitError;
use crate::window::filled;
use crate::window::shifted;
use crate::window::Window;
use vstd::prelude::*;

verus! {

/// The text that answers a submit or a reset that was carried out.
pub const ACKNOWLEDGEMENT: &'static str = "OK";

/// What a service in debug mode reports of an operation it carried out.
#[derive(Clone, Debug, PartialEq, Eq)]
pub enum Diagnostic {
    /// A reading was stored; `window` is the window that resulted.
    Submitted { reading: u32, window: Vec<WindowEntry> },
    /// The window was reset.
    Reset,
}

/// The entry that the reading `value` becomes when the clock reads `elapsed`.
pub open spec fn stamped(value: u32, elapsed: Option<u64>) -> WindowEntry {
    WindowEntry { value, timestamp: spec_timestamp(elapsed) }
}

/// The window that a submit request leaves behind: shifted by the stamped
/// reading where the request is taken, untouched where it is turned away.
pub open spec fn after_submit(
    w: Seq<WindowEntry>,
    request: Submission,
    elapsed: Option<u64>,
) -> Seq<WindowEntry> {
    match request.spec_check() {
        Ok(value) => shifted(w, stamped(value, elapsed)),
        Err(_) => w,
    }
}

/// The window that a reset leaves behind.
pub open spec fn after_reset(w: Seq<WindowEntry>, config: Config) -> Seq<WindowEntry> {
    filled(w.len(), config.value_default)
}

/// What `submit` reports of a reading `value` that left the window `w`
/// behind: the reading and `w` in debug mode, nothing otherwise.
pub open spec fn reports_submit(
    report: Option<Diagnostic>,
    debug: bool,
    value: u32,
    w: Seq<WindowEntry>,
) -> bool {
    if debug {
        report matches Some(Diagnostic::Submitted { reading, window }) && reading == value
            && window@ == w
    } else {
        report is None
    }
}

/// What `reset` reports: that it ran in debug mode, nothing otherwise.
pub open spec fn reports_reset(report: Option<Diagnostic>, debug: bool) -> bool {
    if debug {
        report matches Some(Diagnostic::Reset)
    } else {
        report is None
    }
}

/// Handles a submit request. A request that `Submission::check` turns away
/// leaves the window as it was. The reading of one that it takes is stamped
/// with the clock reading `elapsed` and pushed.
pub fn submit(
    window: &mut Window,
    config: &Config,
    request: Submission,
    elapsed: Option<u64>,
) -> (r: Result<Option<Diagnostic>, SubmitError>)
    ensures
        final(window)@ == after_submit(old(window)@, request, elapsed),
        final(window)@.len() == old(window)@.len(),
        match request.spec_check() {
            Ok(value) => r matches Ok(report) && reports_submit(
                report,
                config.debug,
                value,
                final(window)@,
            ),
            Err(e) => r == Err::<Option<Diagnostic>, SubmitError>(e),
        },
{
    match request.check() {
        Err(e) => Err(e),
        Ok(value) => {
            window.push(WindowEntry { value, timestamp: timestamp(elapsed) });
            if config.debug {
                Ok(Some(Diagnostic::Submitted { reading: value, window: window.snapshot() }))
            } else {
                Ok(None)
            }
        },
    }
}

/// Handles a reset: every entry becomes the placeholder for the configured
/// default.
pub fn reset(window: &mut Window, config: &Config) -> (report: Option<Diagnostic>)
    ensures
        final(window)@ == after_reset(old(window)@, *config),
        final(window)@.len() == old(window)@.len(),
        reports_reset(report, config.debug),
{
    window.reset_all(config.value_default);
    if config.debug {
        Some(Diagnostic::Reset)
    } else {
        None
    }
}

/// Handles a request for the data: a copy of the window, oldest entry first.
pub fn get_data(window: &Window) -> (entries: Vec<WindowEntry>)
    ensures
        entries@ == window@,
        entries@.len() == window@.len(),
{
    window.snapshot()
}

} // verus!

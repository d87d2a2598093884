//! The window and the settings, shared among concurrent requests.

use crate::clock::seconds_since_epoch;
use crate::config::Config;
use crate::config::ConfigError;
use crate::entry::WindowEntry;
use crate::handler;
use crate::handler::Diagnostic;
use crate::submit::Submission;
use crate::submit::SubmitError;
use crate::window::Window;
use vstd::prelude::*;
use vstd::rwlock::RwLock;

verus! {

/// What a submit that was taken reports, if it reports: the reading `value`,
/// and a window of `count` entries whose newest holds that reading.
pub open spec fn reports_reading(report: Option<Diagnostic>, value: u32, count: usize) -> bool {
    report matches Some(d) ==> {
        &&& d matches Diagnostic::Submitted { reading, window }
        &&& reading == value
        &&& window@.len() == count
        &&& window@.last().value == value
    }
}

/// The settings `loaded`, with the debug flag `debug` in place of theirs.
pub open spec fn with_debug(loaded: Config, debug: bool) -> Config {
    Config {
        debug,
        port: loaded.port,
        value_count: loaded.value_count,
        value_default: loaded.value_default,
    }
}

/// One window and its settings. The window and the debug flag can change
/// while requests are served, so each stands behind a lock of its own; the
/// other settings stay as they were loaded.
///
/// The window's lock admits only windows of as many entries as the settings
/// name, so whoever takes it finds such a window and has to give one back.
/// The flag's lock admits either value, so that the flag can be switched
/// while the service runs.
///
/// Every operation holds one lock at a time. Under the flag's lock it copies
/// the flag; under the window's lock it takes one step of `handler`. Both
/// are verified not to panic, and nothing else runs while a lock is held:
/// no holder fails with a lock in hand, so the window stays in reach of the
/// requests that follow.
pub struct Service {
    window: RwLock<Window, spec_fn(Window) -> bool>,
    loaded: Config,
    debug: RwLock<bool, spec_fn(bool) -> bool>,
}

impl Service {
    #[verifier::type_invariant]
    spec fn well_formed(self) -> bool {
        &&& self.loaded.value_count >= 1
        &&& forall|w: Window| #[trigger]
            self.window.inv(w) <==> w@.len() == self.loaded.value_count
        &&& forall|flag: bool| #[trigger] self.debug.inv(flag)
    }

    /// The settings that the service was made with. The debug flag in force
    /// and the window change under their locks and have no value here; of
    /// the window, its lock keeps the length at `value_count`.
    pub closed spec fn loaded(&self) -> Config {
        self.loaded
    }

    /// A service with a window of placeholders, for settings that
    /// `Config::validate` accepts.
    pub fn new(config: Config) -> (r: Result<Service, ConfigError>)
        ensures
            match config.spec_validate() {
                Ok(()) => r matches Ok(service) && service.loaded() == config,
                Err(e) => r matches Err(x) && x == e,
            },
    {
        match config.validate() {
            Err(e) => Err(e),
            Ok(()) => {
                let window = Window::new(config.value_count, config.value_default);
                let ghost admitted = |w: Window| w@.len() == config.value_count;
                let ghost either = |flag: bool| true;
                Ok(
                    Service {
                        window: RwLock::new(window, Ghost(admitted)),
                        loaded: config,
                        debug: RwLock::new(config.debug, Ghost(either)),
                    },
                )
            },
        }
    }

    /// The settings as they stand: those that were loaded, with the debug
    /// flag that its lock holds now.
    fn config(&self) -> (config: Config)
        ensures
            config == with_debug(self.loaded(), config.debug),
    {
        let handle = self.debug.acquire_read();
        let debug = *handle.borrow();
        handle.release_read();
        Config {
            debug,
            port: self.loaded.port,
            value_count: self.loaded.value_count,
            value_default: self.loaded.value_default,
        }
    }

    /// Handles a submit request: `handler::submit` on the shared window, at
    /// the second that the clock reads when the request is taken, before
    /// the window's lock is. A request that is turned away never reaches the
    /// window.
    pub fn submit(&self, request: Submission) -> (r: Result<Option<Diagnostic>, SubmitError>)
        ensures
            match request.spec_check() {
                Ok(value) => r matches Ok(report) && reports_reading(
                    report,
                    value,
                    self.loaded().value_count,
                ),
                Err(e) => r == Err::<Option<Diagnostic>, SubmitError>(e),
            },
    {
        proof {
            use_type_invariant(self);
        }
        match request.check() {
            Err(e) => Err(e),
            Ok(_) => {
                let config = self.config();
                let elapsed = seconds_since_epoch();
                let (mut window, handle) = self.window.acquire_write();
                let r = handler::submit(&mut window, &config, request, elapsed);
                handle.release_write(window);
                r
            },
        }
    }

    /// Handles a reset: `handler::reset` on the shared window.
    pub fn reset(&self) -> (report: Option<Diagnostic>)
        ensures
            report matches Some(d) ==> d is Reset,
    {
        proof {
            use_type_invariant(self);
        }
        let config = self.config();
        let (mut window, handle) = self.window.acquire_write();
        let report = handler::reset(&mut window, &config);
        handle.release_write(window);
        report
    }

    /// Handles a request for the data: `handler::get_data` on the shared
    /// window. The copy has as many entries as the settings name.
    pub fn get_data(&self) -> (entries: Vec<WindowEntry>)
        ensures
            entries@.len() == self.loaded().value_count,
    {
        proof {
            use_type_invariant(self);
        }
        let handle = self.window.acquire_read();
        let entries = handler::get_data(handle.borrow());
        handle.release_read();
        entries
    }
}

} // verus!

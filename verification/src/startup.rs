//! Startup: plugin registration and single-shot initialization.
//!
//! Startup registers three capability plugins in a fixed order (opener,
//! dialog, filesystem) and only then declares the menu. A plugin that fails
//! to register aborts startup fatally before any menu is constructed: a
//! missing capability would silently break the menu actions that depend on
//! it. Initialization is single-shot: a second call on the same bootstrap is
//! rejected.

use vstd::prelude::*;

use crate::menu::Menu;
use crate::menu::build_menu;
use crate::menu::expected_menu;

verus! {

/// The capability plugins registered at startup, in registration order:
/// the external-opener utility, file dialogs, filesystem access.
#[derive(Clone, Copy, Debug, PartialEq, Eq, Structural)]
pub enum Plugin {
    Opener,
    Dialog,
    Fs,
}

/// Why startup aborted. Every variant is fatal: nothing is retried and no
/// degraded mode exists.
#[derive(Clone, Copy, Debug, PartialEq, Eq, Structural)]
pub enum StartupError {
    /// The named plugin failed to register.
    PluginFailed(Plugin),
    /// Initialization was invoked a second time on the same bootstrap.
    AlreadyStarted,
}

/// The bootstrap's whole state: not started, or running. There is no
/// intermediate state and no way back.
pub struct Bootstrap {
    started: bool,
}

impl Bootstrap {
    /// Whether initialization has already succeeded on this bootstrap.
    pub closed spec fn spec_started(&self) -> bool {
        self.started
    }

    /// A fresh bootstrap, not yet started.
    pub fn new() -> (b: Bootstrap)
        ensures
            !b.spec_started(),
    {
        Bootstrap { started: false }
    }

    /// Initialize the application shell once: register the three plugins in
    /// order, fail fast on the first that does not register, and only when
    /// all three are in place declare the menu. Each `*_ok` argument is the
    /// host's outcome for that plugin's registration.
    ///
    /// Exactly one of these holds:
    /// - a second call is rejected with `AlreadyStarted` and changes nothing;
    /// - the first plugin (in registration order) whose registration failed
    ///   is reported, and no menu is constructed;
    /// - all three registered, the bootstrap is now started, and the result
    ///   is exactly the declared menu.
    pub fn initialize(&mut self, opener_ok: bool, dialog_ok: bool, fs_ok: bool) -> (r: Result<
        Menu,
        StartupError,
    >)
        ensures
            final(self).spec_started() == (old(self).spec_started() || (opener_ok && dialog_ok
                && fs_ok)),
            old(self).spec_started() ==> (r matches Err(e) && e == StartupError::AlreadyStarted),
            !old(self).spec_started() && !opener_ok ==> (r matches Err(e) && e
                == StartupError::PluginFailed(Plugin::Opener)),
            !old(self).spec_started() && opener_ok && !dialog_ok ==> (r matches Err(e) && e
                == StartupError::PluginFailed(Plugin::Dialog)),
            !old(self).spec_started() && opener_ok && dialog_ok && !fs_ok ==> (r matches Err(e)
                && e == StartupError::PluginFailed(Plugin::Fs)),
            !old(self).spec_started() && opener_ok && dialog_ok && fs_ok ==> (r matches Ok(m)
                && m@ == expected_menu()),
    {
        if self.started {
            return Err(StartupError::AlreadyStarted);
        }
        if !opener_ok {
            return Err(StartupError::PluginFailed(Plugin::Opener));
        }
        if !dialog_ok {
            return Err(StartupError::PluginFailed(Plugin::Dialog));
        }
        if !fs_ok {
            return Err(StartupError::PluginFailed(Plugin::Fs));
        }
        self.started = true;
        Ok(build_menu())
    }
}

} // verus!

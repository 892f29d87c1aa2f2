//! Routing of menu activations to the main window.
//!
//! When the user activates a menu item the host hands its string id to a
//! callback. The callback's whole decision is here: if a window named
//! `"main"` exists, exactly one window event named `"menu-event"` is emitted
//! whose payload is the activated id; if not, nothing is emitted and no
//! error is raised.

use vstd::prelude::*;

verus! {

/// One window event to be emitted by the host: the event name and its
/// string payload.
pub struct Emission {
    pub event: String,
    pub payload: String,
}

/// The name under which every menu activation is re-emitted.
pub open spec fn menu_event_name() -> Seq<char> {
    "menu-event"@
}

/// Decide what a menu activation with id `id` does. `main_window_exists`
/// says whether a window named `"main"` is currently registered with the
/// host.
///
/// With a main window present, the result is exactly one `"menu-event"`
/// emission whose payload is the activated id, and nothing else; with none,
/// the activation is silently dropped.
pub fn route_menu_event(id: &str, main_window_exists: bool) -> (r: Option<Emission>)
    ensures
        main_window_exists ==> (r matches Some(e)
            && e.event@ == menu_event_name()
            && e.payload@ == id@),
        !main_window_exists ==> r is None,
{
    if main_window_exists {
        Some(Emission { event: "menu-event".to_owned(), payload: id.to_owned() })
    } else {
        None
    }
}

} // verus!

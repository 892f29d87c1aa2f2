use binblock_shell::events::route_menu_event;
use binblock_shell::menu::build_menu;
use binblock_shell::menu::Menu;
use binblock_shell::menu::MenuEntry;
use binblock_shell::menu::TopEntry;
use binblock_shell::startup::Bootstrap;
use binblock_shell::startup::Plugin;
use binblock_shell::startup::StartupError;

fn item_ids(m: &Menu) -> Vec<String> {
    let mut ids: Vec<String> = Vec::new();
    for top in &m.entries {
        if let TopEntry::Sub(sm) = top {
            for e in &sm.entries {
                if let MenuEntry::Item(i) = e {
                    ids.push(i.id.clone());
                }
            }
        }
    }
    ids
}

#[test]
fn menu_exposes_exactly_the_four_ids_in_order() {
    let m = build_menu();
    assert_eq!(
        item_ids(&m),
        vec![
            "edit:undo".to_string(),
            "edit:redo".to_string(),
            "edit:clear".to_string(),
            "view:reset".to_string(),
        ]
    );
}

#[test]
fn menu_structure_is_about_then_edit_then_view() {
    let m = build_menu();
    assert_eq!(m.entries.len(), 3);
    match &m.entries[0] {
        TopEntry::About(name) => assert_eq!(name, "binblock++"),
        TopEntry::Sub(_) => panic!("first entry must be the About entry"),
    }
    match &m.entries[1] {
        TopEntry::Sub(sm) => {
            assert_eq!(sm.title, "Edit");
            assert_eq!(sm.entries.len(), 4);
            assert!(matches!(&sm.entries[0], MenuEntry::Item(i) if i.label == "Undo"));
            assert!(matches!(&sm.entries[1], MenuEntry::Item(i) if i.label == "Redo"));
            assert!(matches!(&sm.entries[2], MenuEntry::Separator));
            assert!(matches!(&sm.entries[3], MenuEntry::Item(i) if i.label == "Clear Grid"));
        }
        TopEntry::About(_) => panic!("second entry must be the Edit submenu"),
    }
    match &m.entries[2] {
        TopEntry::Sub(sm) => {
            assert_eq!(sm.title, "View");
            assert_eq!(sm.entries.len(), 1);
            assert!(matches!(&sm.entries[0], MenuEntry::Item(i) if i.label == "Reset View"));
        }
        TopEntry::About(_) => panic!("third entry must be the View submenu"),
    }
}

#[test]
fn accelerators_match_declared_bindings() {
    let m = build_menu();
    let mut seen: Vec<(String, Option<String>)> = Vec::new();
    for top in &m.entries {
        if let TopEntry::Sub(sm) = top {
            for e in &sm.entries {
                if let MenuEntry::Item(i) = e {
                    seen.push((i.id.clone(), i.accelerator.clone()));
                }
            }
        }
    }
    assert_eq!(
        seen,
        vec![
            ("edit:undo".to_string(), Some("CmdOrCtrl+Z".to_string())),
            ("edit:redo".to_string(), Some("CmdOrCtrl+Shift+Z".to_string())),
            ("edit:clear".to_string(), None),
            ("view:reset".to_string(), Some("CmdOrCtrl+0".to_string())),
        ]
    );
}

#[test]
fn activation_with_main_window_emits_exactly_one_menu_event() {
    for id in ["edit:undo", "edit:redo", "edit:clear", "view:reset"] {
        let r = route_menu_event(id, true);
        match r {
            Some(e) => {
                assert_eq!(e.event, "menu-event");
                assert_eq!(e.payload, id);
            }
            None => panic!("an activation with a main window must emit"),
        }
    }
}

#[test]
fn activation_without_main_window_emits_nothing() {
    assert!(route_menu_event("edit:undo", false).is_none());
    assert!(route_menu_event("view:reset", false).is_none());
    assert!(route_menu_event("unknown:id", false).is_none());
}

#[test]
fn successful_startup_returns_the_declared_menu() {
    let mut b = Bootstrap::new();
    let m = b.initialize(true, true, true).expect("startup with all plugins must succeed");
    assert_eq!(
        item_ids(&m),
        vec![
            "edit:undo".to_string(),
            "edit:redo".to_string(),
            "edit:clear".to_string(),
            "view:reset".to_string(),
        ]
    );
}

#[test]
fn opener_failure_aborts_startup() {
    let mut b = Bootstrap::new();
    let r = b.initialize(false, true, true);
    assert!(matches!(r, Err(StartupError::PluginFailed(Plugin::Opener))));
}

#[test]
fn dialog_failure_aborts_startup() {
    let mut b = Bootstrap::new();
    let r = b.initialize(true, false, true);
    assert!(matches!(r, Err(StartupError::PluginFailed(Plugin::Dialog))));
}

#[test]
fn fs_failure_aborts_startup() {
    let mut b = Bootstrap::new();
    let r = b.initialize(true, true, false);
    assert!(matches!(r, Err(StartupError::PluginFailed(Plugin::Fs))));
}

#[test]
fn first_failing_plugin_in_registration_order_is_reported() {
    let mut b = Bootstrap::new();
    let r = b.initialize(false, false, false);
    assert!(matches!(r, Err(StartupError::PluginFailed(Plugin::Opener))));
    let mut b2 = Bootstrap::new();
    let r2 = b2.initialize(true, false, false);
    assert!(matches!(r2, Err(StartupError::PluginFailed(Plugin::Dialog))));
}

#[test]
fn second_initialization_is_rejected() {
    let mut b = Bootstrap::new();
    assert!(b.initialize(true, true, true).is_ok());
    let r = b.initialize(true, true, true);
    assert!(matches!(r, Err(StartupError::AlreadyStarted)));
}

#[test]
fn failed_startup_leaves_the_bootstrap_usable() {
    let mut b = Bootstrap::new();
    assert!(b.initialize(false, true, true).is_err());
    assert!(b.initialize(true, true, true).is_ok());
}

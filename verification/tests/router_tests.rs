use app_shell::actions::ActionId;
use app_shell::menu::build_menu;
use app_shell::router::Router;

#[test]
fn install_then_activate_emits_exactly_one_event() {
    let mut r = Router::new();
    r.install(build_menu());
    let emitted = r.activate(ActionId::ToggleGrid);
    assert!(emitted);
    assert_eq!(r.events, vec!["toggle-grid".to_string()]);
}

#[test]
fn events_keep_activation_order() {
    let mut r = Router::new();
    r.install(build_menu());
    assert!(r.activate(ActionId::ToggleGrid));
    assert!(r.activate(ActionId::CameraTop));
    assert!(r.activate(ActionId::ToggleGrid));
    assert_eq!(r.events, vec!["toggle-grid", "camera-top", "toggle-grid"]);
}

#[test]
fn every_menu_action_emits_its_own_identifier() {
    let menu = build_menu();
    let ids = menu.action_ids.clone();
    let mut r = Router::new();
    r.install(menu);
    for a in &ids {
        assert!(r.activate(*a));
    }
    assert_eq!(r.events.len(), 20);
}

#[test]
fn fresh_router_is_uninstalled_with_no_events() {
    let r = Router::new();
    assert!(r.menu.is_none());
    assert!(r.events.is_empty());
}

#[test]
fn named_activation_emits_the_same_identifier() {
    let mut r = Router::new();
    r.install(build_menu());
    assert!(r.activate_named("toggle-grid"));
    assert_eq!(r.events, vec!["toggle-grid"]);
}

#[test]
fn named_activation_of_unknown_identifier_emits_nothing() {
    let mut r = Router::new();
    r.install(build_menu());
    assert!(!r.activate_named("bogus"));
    assert!(!r.activate_named(""));
    assert!(r.events.is_empty());
}

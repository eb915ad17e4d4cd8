use app_shell::actions::{action_id_str, parse_action_id, ActionId};
use app_shell::menu::{build_menu, MenuNode};

fn catalogue_strings() -> Vec<&'static str> {
    vec![
        "preferences",
        "new",
        "open",
        "save",
        "save-as",
        "export-stl",
        "export-step",
        "export-pdf",
        "toggle-properties",
        "toggle-terminal",
        "camera-top",
        "camera-front",
        "camera-side",
        "camera-iso",
        "toggle-grid",
        "toggle-exploded",
        "toggle-clipping",
        "fullscreen",
        "documentation",
        "shortcuts",
    ]
}

#[test]
fn menu_exposes_the_twenty_identifiers_in_order() {
    let m = build_menu();
    let got: Vec<String> = m.action_ids.iter().map(|a| action_id_str(*a)).collect();
    assert_eq!(got, catalogue_strings());
}

#[test]
fn menu_identifiers_are_unique() {
    let m = build_menu();
    let got: Vec<String> = m.action_ids.iter().map(|a| action_id_str(*a)).collect();
    for i in 0..got.len() {
        for j in 0..got.len() {
            if i != j {
                assert_ne!(got[i], got[j]);
            }
        }
    }
    assert_eq!(got.len(), 20);
}

#[test]
fn menu_has_six_labelled_submenus_in_order() {
    let m = build_menu();
    let labels: Vec<&str> = m
        .items
        .iter()
        .map(|n| match n {
            MenuNode::Submenu { label, .. } => label.as_str(),
            _ => panic!("top level menu items must be submenus"),
        })
        .collect();
    assert_eq!(labels, vec!["BuildPCBs AI", "File", "Edit", "View", "Window", "Help"]);
}

fn assert_no_empty_submenu(n: &MenuNode) {
    if let MenuNode::Submenu { children, .. } = n {
        assert!(!children.is_empty());
        for c in children {
            assert_no_empty_submenu(c);
        }
    }
}

#[test]
fn submenus_are_never_empty() {
    let m = build_menu();
    for n in &m.items {
        assert_no_empty_submenu(n);
    }
}

#[test]
fn action_identifiers_round_trip() {
    let m = build_menu();
    for a in &m.action_ids {
        let s = action_id_str(*a);
        assert_eq!(parse_action_id(&s), Some(*a));
    }
}

#[test]
fn unknown_identifiers_parse_to_none() {
    assert_eq!(parse_action_id(""), None);
    assert_eq!(parse_action_id("bogus"), None);
    assert_eq!(parse_action_id("toggle-grid2"), None);
    assert_eq!(parse_action_id("Toggle-Grid"), None);
}

#[test]
fn parse_finds_every_catalogue_identifier() {
    for s in catalogue_strings() {
        let parsed = parse_action_id(s);
        assert!(parsed.is_some());
        assert_eq!(action_id_str(parsed.unwrap()), s);
    }
}

fn has_nested_submenu(n: &MenuNode, want: &str) -> bool {
    if let MenuNode::Submenu { children, .. } = n {
        children.iter().any(|c| match c {
            MenuNode::Submenu { label, .. } => label.as_str() == want,
            _ => false,
        })
    } else {
        false
    }
}

#[test]
fn export_and_camera_are_nested_submenus() {
    let m = build_menu();
    assert!(has_nested_submenu(&m.items[1], "Export"));
    assert!(has_nested_submenu(&m.items[3], "Camera"));
}

fn collect_action_ids(n: &MenuNode, out: &mut Vec<ActionId>) {
    match n {
        MenuNode::Action { id, .. } => out.push(*id),
        MenuNode::Submenu { children, .. } => {
            for c in children {
                collect_action_ids(c, out);
            }
        }
        _ => {}
    }
}

#[test]
fn action_ids_match_action_nodes_of_tree() {
    let m = build_menu();
    let mut walked = Vec::new();
    for n in &m.items {
        collect_action_ids(n, &mut walked);
    }
    assert_eq!(walked, m.action_ids);
}

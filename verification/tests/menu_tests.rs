use superscript_menu::catalog::{full_menu, reduced_menu};
use superscript_menu::dispatch::DispatchTable;
use superscript_menu::menu::{MenuNode, PredefinedAction};

const FULL_IDS: [&str; 15] = [
    "new-note",
    "change-folder",
    "font-default",
    "font-baskerville",
    "font-mono",
    "size-small",
    "size-medium",
    "size-large",
    "appearance-system",
    "appearance-light",
    "appearance-dark",
    "width-narrow",
    "width-wide",
    "cursor-line",
    "cursor-underline",
];

const REDUCED_IDS: [&str; 6] = [
    "font-default",
    "font-baskerville",
    "font-mono",
    "size-small",
    "size-medium",
    "size-large",
];

fn count_unique(ids: &[String]) -> usize {
    let mut unique: Vec<&String> = Vec::new();
    for id in ids {
        if !unique.contains(&id) {
            unique.push(id);
        }
    }
    unique.len()
}

#[test]
fn full_tree_declares_the_full_vocabulary_in_order() {
    let tree = full_menu();
    let ids = tree.action_identifiers();
    assert_eq!(ids.len(), FULL_IDS.len());
    for (found, expected) in ids.iter().zip(FULL_IDS.iter()) {
        assert_eq!(found, expected);
    }
}

#[test]
fn reduced_tree_declares_the_reduced_vocabulary_in_order() {
    let tree = reduced_menu();
    let ids = tree.action_identifiers();
    assert_eq!(ids.len(), REDUCED_IDS.len());
    for (found, expected) in ids.iter().zip(REDUCED_IDS.iter()) {
        assert_eq!(found, expected);
    }
}

#[test]
fn full_tree_identifiers_are_unique() {
    let tree = full_menu();
    let ids = tree.action_identifiers();
    assert_eq!(count_unique(&ids), ids.len());
}

#[test]
fn reduced_tree_identifiers_are_unique() {
    let tree = reduced_menu();
    let ids = tree.action_identifiers();
    assert_eq!(count_unique(&ids), ids.len());
}

#[test]
fn reduced_vocabulary_is_contained_in_the_full_one() {
    let full_ids = full_menu().action_identifiers();
    let reduced_ids = reduced_menu().action_identifiers();
    for id in &reduced_ids {
        assert!(full_ids.contains(id));
    }
}

#[test]
fn appearance_dark_is_absent_from_the_reduced_tree() {
    let reduced_ids = reduced_menu().action_identifiers();
    assert!(!reduced_ids.contains(&String::from("appearance-dark")));
    let full_ids = full_menu().action_identifiers();
    assert!(full_ids.contains(&String::from("appearance-dark")));
}

#[test]
fn every_declared_identifier_resolves() {
    let table = DispatchTable::new();
    let ids = full_menu().action_identifiers();
    for id in &ids {
        assert!(table.resolve(id).is_some());
    }
}

#[test]
fn full_tree_has_the_six_top_level_menus() {
    let tree = full_menu();
    assert_eq!(tree.top.len(), 6);
    let labels: Vec<&str> =
        vec!["Superscript", "File", "Edit", "Format", "Appearance", "Window"];
    for (node, expected) in tree.top.iter().zip(labels.iter()) {
        match node {
            MenuNode::Submenu { label, .. } => assert_eq!(label, expected),
            _ => panic!("top-level node is not a submenu"),
        }
    }
}

#[test]
fn application_menu_ends_with_quit() {
    let tree = full_menu();
    match &tree.top[0] {
        MenuNode::Submenu { items, .. } => {
            assert_eq!(items.len(), 9);
            match &items[8] {
                MenuNode::Predefined { action } => {
                    assert_eq!(*action, PredefinedAction::Quit);
                },
                _ => panic!("last application entry is not predefined"),
            }
        },
        _ => panic!("application menu is not a submenu"),
    }
}

#[test]
fn file_menu_carries_the_new_note_accelerator() {
    let tree = full_menu();
    match &tree.top[1] {
        MenuNode::Submenu { items, .. } => match &items[0] {
            MenuNode::Action { identifier, label, enabled, accelerator } => {
                assert_eq!(identifier, "new-note");
                assert_eq!(label, "New Page");
                assert!(*enabled);
                assert_eq!(accelerator.as_deref(), Some("CmdOrCtrl+N"));
            },
            _ => panic!("first file entry is not an action"),
        },
        _ => panic!("file menu is not a submenu"),
    }
}

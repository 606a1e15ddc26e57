//! The two fixed menu configurations.
//!
//! The full configuration exposes file management, formatting, appearance,
//! writing-width and cursor controls; the reduced configuration exposes
//! only the formatting controls. Both are fixed at build time: the
//! predicates below describe each catalog exactly, and the builders
//! construct trees satisfying them.

use vstd::prelude::*;
use crate::dispatch::{catalog_spec, lemma_lookup_some_iff_contains, spec_resolve};
use crate::menu::{
    MenuNode, MenuTree, PredefinedAction, is_action, is_predefined, is_separator, node_action_ids,
    nodes_action_ids,
};

verus! {

/// The identifiers of the full catalog, in menu order.
pub open spec fn full_vocabulary() -> Seq<Seq<char>> {
    seq![
        "new-note"@,
        "change-folder"@,
        "font-default"@,
        "font-baskerville"@,
        "font-mono"@,
        "size-small"@,
        "size-medium"@,
        "size-large"@,
        "appearance-system"@,
        "appearance-light"@,
        "appearance-dark"@,
        "width-narrow"@,
        "width-wide"@,
        "cursor-line"@,
        "cursor-underline"@,
    ]
}

/// The identifiers of the reduced catalog: formatting controls alone.
pub open spec fn reduced_vocabulary() -> Seq<Seq<char>> {
    seq![
        "font-default"@,
        "font-baskerville"@,
        "font-mono"@,
        "size-small"@,
        "size-medium"@,
        "size-large"@,
    ]
}

/// The application menu: platform-predefined entries only.
pub open spec fn is_application_menu(n: MenuNode) -> bool {
    match n {
        MenuNode::Submenu { label, items } => {
            &&& label@ == "Superscript"@
            &&& items@.len() == 9
            &&& is_predefined(items@[0], PredefinedAction::About)
            &&& is_separator(items@[1])
            &&& is_predefined(items@[2], PredefinedAction::Services)
            &&& is_separator(items@[3])
            &&& is_predefined(items@[4], PredefinedAction::Hide)
            &&& is_predefined(items@[5], PredefinedAction::HideOthers)
            &&& is_predefined(items@[6], PredefinedAction::ShowAll)
            &&& is_separator(items@[7])
            &&& is_predefined(items@[8], PredefinedAction::Quit)
        },
        _ => false,
    }
}

/// The file menu: note creation and folder selection.
pub open spec fn is_file_menu(n: MenuNode) -> bool {
    match n {
        MenuNode::Submenu { label, items } => {
            &&& label@ == "File"@
            &&& items@.len() == 3
            &&& is_action(items@[0], "new-note"@, "New Page"@, true, Some("CmdOrCtrl+N"@))
            &&& is_separator(items@[1])
            &&& is_action(items@[2], "change-folder"@, "Change Folder…"@, true, None)
        },
        _ => false,
    }
}

/// The edit menu: platform-predefined editing actions only.
pub open spec fn is_edit_menu(n: MenuNode) -> bool {
    match n {
        MenuNode::Submenu { label, items } => {
            &&& label@ == "Edit"@
            &&& items@.len() == 7
            &&& is_predefined(items@[0], PredefinedAction::Undo)
            &&& is_predefined(items@[1], PredefinedAction::Redo)
            &&& is_separator(items@[2])
            &&& is_predefined(items@[3], PredefinedAction::Cut)
            &&& is_predefined(items@[4], PredefinedAction::Copy)
            &&& is_predefined(items@[5], PredefinedAction::Paste)
            &&& is_predefined(items@[6], PredefinedAction::SelectAll)
        },
        _ => false,
    }
}

/// The font submenu of the format menu.
pub open spec fn is_font_submenu(n: MenuNode) -> bool {
    match n {
        MenuNode::Submenu { label, items } => {
            &&& label@ == "Font"@
            &&& items@.len() == 3
            &&& is_action(items@[0], "font-default"@, "Default"@, true, None)
            &&& is_action(items@[1], "font-baskerville"@, "Classical"@, true, None)
            &&& is_action(items@[2], "font-mono"@, "Modern"@, true, None)
        },
        _ => false,
    }
}

/// The size submenu of the format menu.
pub open spec fn is_size_submenu(n: MenuNode) -> bool {
    match n {
        MenuNode::Submenu { label, items } => {
            &&& label@ == "Size"@
            &&& items@.len() == 3
            &&& is_action(items@[0], "size-small"@, "Small"@, true, None)
            &&& is_action(items@[1], "size-medium"@, "Default"@, true, None)
            &&& is_action(items@[2], "size-large"@, "Large"@, true, None)
        },
        _ => false,
    }
}

/// The format menu: font choices separated from size choices.
pub open spec fn is_format_menu(n: MenuNode) -> bool {
    match n {
        MenuNode::Submenu { label, items } => {
            &&& label@ == "Format"@
            &&& items@.len() == 3
            &&& is_font_submenu(items@[0])
            &&& is_separator(items@[1])
            &&& is_size_submenu(items@[2])
        },
        _ => false,
    }
}

/// The writing-width submenu of the appearance menu.
pub open spec fn is_width_submenu(n: MenuNode) -> bool {
    match n {
        MenuNode::Submenu { label, items } => {
            &&& label@ == "Writing Width"@
            &&& items@.len() == 2
            &&& is_action(items@[0], "width-narrow"@, "Narrow"@, true, None)
            &&& is_action(items@[1], "width-wide"@, "Wide"@, true, None)
        },
        _ => false,
    }
}

/// The cursor submenu of the appearance menu.
pub open spec fn is_cursor_submenu(n: MenuNode) -> bool {
    match n {
        MenuNode::Submenu { label, items } => {
            &&& label@ == "Cursor"@
            &&& items@.len() == 2
            &&& is_action(items@[0], "cursor-line"@, "Line"@, true, None)
            &&& is_action(items@[1], "cursor-underline"@, "Underline"@, true, None)
        },
        _ => false,
    }
}

/// The appearance menu: mode choices, then writing width, then cursor
/// style, delimited by separators.
pub open spec fn is_appearance_menu(n: MenuNode) -> bool {
    match n {
        MenuNode::Submenu { label, items } => {
            &&& label@ == "Appearance"@
            &&& items@.len() == 7
            &&& is_action(items@[0], "appearance-system"@, "System"@, true, None)
            &&& is_action(items@[1], "appearance-light"@, "Light"@, true, None)
            &&& is_action(items@[2], "appearance-dark"@, "Dark"@, true, None)
            &&& is_separator(items@[3])
            &&& is_width_submenu(items@[4])
            &&& is_separator(items@[5])
            &&& is_cursor_submenu(items@[6])
        },
        _ => false,
    }
}

/// The window menu: platform-predefined window actions only.
pub open spec fn is_window_menu(n: MenuNode) -> bool {
    match n {
        MenuNode::Submenu { label, items } => {
            &&& label@ == "Window"@
            &&& items@.len() == 3
            &&& is_predefined(items@[0], PredefinedAction::Minimize)
            &&& is_predefined(items@[1], PredefinedAction::Maximize)
            &&& is_predefined(items@[2], PredefinedAction::CloseWindow)
        },
        _ => false,
    }
}

/// The full configuration: application, file, edit, format, appearance
/// and window menus, in that order.
pub open spec fn is_full_catalog(t: MenuTree) -> bool {
    &&& t.top@.len() == 6
    &&& is_application_menu(t.top@[0])
    &&& is_file_menu(t.top@[1])
    &&& is_edit_menu(t.top@[2])
    &&& is_format_menu(t.top@[3])
    &&& is_appearance_menu(t.top@[4])
    &&& is_window_menu(t.top@[5])
}

/// The reduced configuration: as the full one, but without the file and
/// appearance menus.
pub open spec fn is_reduced_catalog(t: MenuTree) -> bool {
    &&& t.top@.len() == 4
    &&& is_application_menu(t.top@[0])
    &&& is_edit_menu(t.top@[1])
    &&& is_format_menu(t.top@[2])
    &&& is_window_menu(t.top@[3])
}

/// The application menu contributes no identifiers.
proof fn lemma_application_menu_ids(n: MenuNode)
    requires
        is_application_menu(n),
    ensures
        node_action_ids(n) == Seq::<Seq<char>>::empty(),
{
    match n {
        MenuNode::Submenu { items, .. } => {
            reveal_with_fuel(nodes_action_ids, 11);
            assert(nodes_action_ids(items@) =~= Seq::<Seq<char>>::empty());
        },
        _ => {
            assert(false);
        },
    }
}

/// The file menu contributes the note and folder identifiers.
proof fn lemma_file_menu_ids(n: MenuNode)
    requires
        is_file_menu(n),
    ensures
        node_action_ids(n) == seq!["new-note"@, "change-folder"@],
{
    match n {
        MenuNode::Submenu { items, .. } => {
            reveal_with_fuel(nodes_action_ids, 5);
            assert(nodes_action_ids(items@) =~= seq!["new-note"@, "change-folder"@]);
        },
        _ => {
            assert(false);
        },
    }
}

/// The edit menu contributes no identifiers.
proof fn lemma_edit_menu_ids(n: MenuNode)
    requires
        is_edit_menu(n),
    ensures
        node_action_ids(n) == Seq::<Seq<char>>::empty(),
{
    match n {
        MenuNode::Submenu { items, .. } => {
            reveal_with_fuel(nodes_action_ids, 9);
            assert(nodes_action_ids(items@) =~= Seq::<Seq<char>>::empty());
        },
        _ => {
            assert(false);
        },
    }
}

/// The format menu contributes the font and size identifiers.
proof fn lemma_format_menu_ids(n: MenuNode)
    requires
        is_format_menu(n),
    ensures
        node_action_ids(n) == seq![
            "font-default"@,
            "font-baskerville"@,
            "font-mono"@,
            "size-small"@,
            "size-medium"@,
            "size-large"@,
        ],
{
    match n {
        MenuNode::Submenu { items, .. } => {
            match items@[0] {
                MenuNode::Submenu { items: font_items, .. } => {
                    reveal_with_fuel(nodes_action_ids, 5);
                    assert(nodes_action_ids(font_items@) =~= seq![
                        "font-default"@,
                        "font-baskerville"@,
                        "font-mono"@,
                    ]);
                },
                _ => {
                    assert(false);
                },
            }
            match items@[2] {
                MenuNode::Submenu { items: size_items, .. } => {
                    reveal_with_fuel(nodes_action_ids, 5);
                    assert(nodes_action_ids(size_items@) =~= seq![
                        "size-small"@,
                        "size-medium"@,
                        "size-large"@,
                    ]);
                },
                _ => {
                    assert(false);
                },
            }
            reveal_with_fuel(nodes_action_ids, 5);
            assert(nodes_action_ids(items@) =~= seq![
                "font-default"@,
                "font-baskerville"@,
                "font-mono"@,
                "size-small"@,
                "size-medium"@,
                "size-large"@,
            ]);
        },
        _ => {
            assert(false);
        },
    }
}

/// The appearance menu contributes the mode, width and cursor identifiers.
proof fn lemma_appearance_menu_ids(n: MenuNode)
    requires
        is_appearance_menu(n),
    ensures
        node_action_ids(n) == seq![
            "appearance-system"@,
            "appearance-light"@,
            "appearance-dark"@,
            "width-narrow"@,
            "width-wide"@,
            "cursor-line"@,
            "cursor-underline"@,
        ],
{
    match n {
        MenuNode::Submenu { items, .. } => {
            match items@[4] {
                MenuNode::Submenu { items: width_items, .. } => {
                    reveal_with_fuel(nodes_action_ids, 4);
                    assert(nodes_action_ids(width_items@) =~= seq!["width-narrow"@, "width-wide"@]);
                },
                _ => {
                    assert(false);
                },
            }
            match items@[6] {
                MenuNode::Submenu { items: cursor_items, .. } => {
                    reveal_with_fuel(nodes_action_ids, 4);
                    assert(nodes_action_ids(cursor_items@) =~= seq![
                        "cursor-line"@,
                        "cursor-underline"@,
                    ]);
                },
                _ => {
                    assert(false);
                },
            }
            reveal_with_fuel(nodes_action_ids, 9);
            assert(nodes_action_ids(items@) =~= seq![
                "appearance-system"@,
                "appearance-light"@,
                "appearance-dark"@,
                "width-narrow"@,
                "width-wide"@,
                "cursor-line"@,
                "cursor-underline"@,
            ]);
        },
        _ => {
            assert(false);
        },
    }
}

/// The window menu contributes no identifiers.
proof fn lemma_window_menu_ids(n: MenuNode)
    requires
        is_window_menu(n),
    ensures
        node_action_ids(n) == Seq::<Seq<char>>::empty(),
{
    match n {
        MenuNode::Submenu { items, .. } => {
            reveal_with_fuel(nodes_action_ids, 5);
            assert(nodes_action_ids(items@) =~= Seq::<Seq<char>>::empty());
        },
        _ => {
            assert(false);
        },
    }
}

/// A full-catalog tree declares exactly the full vocabulary, in order.
pub proof fn lemma_full_catalog_ids(t: MenuTree)
    requires
        is_full_catalog(t),
    ensures
        t.action_ids() == full_vocabulary(),
{
    lemma_application_menu_ids(t.top@[0]);
    lemma_file_menu_ids(t.top@[1]);
    lemma_edit_menu_ids(t.top@[2]);
    lemma_format_menu_ids(t.top@[3]);
    lemma_appearance_menu_ids(t.top@[4]);
    lemma_window_menu_ids(t.top@[5]);
    reveal_with_fuel(nodes_action_ids, 8);
    assert(nodes_action_ids(t.top@) =~= full_vocabulary());
}

/// A reduced-catalog tree declares exactly the reduced vocabulary, in
/// order.
pub proof fn lemma_reduced_catalog_ids(t: MenuTree)
    requires
        is_reduced_catalog(t),
    ensures
        t.action_ids() == reduced_vocabulary(),
{
    lemma_application_menu_ids(t.top@[0]);
    lemma_edit_menu_ids(t.top@[1]);
    lemma_format_menu_ids(t.top@[2]);
    lemma_window_menu_ids(t.top@[3]);
    reveal_with_fuel(nodes_action_ids, 6);
    assert(nodes_action_ids(t.top@) =~= reduced_vocabulary());
}

/// No identifier occurs twice in the full vocabulary.
#[verifier::rlimit(60)]
pub proof fn lemma_full_vocabulary_distinct()
    ensures
        full_vocabulary().no_duplicates(),
{
    reveal_strlit("new-note");
    reveal_strlit("change-folder");
    reveal_strlit("font-default");
    reveal_strlit("font-baskerville");
    reveal_strlit("font-mono");
    reveal_strlit("size-small");
    reveal_strlit("size-medium");
    reveal_strlit("size-large");
    reveal_strlit("appearance-system");
    reveal_strlit("appearance-light");
    reveal_strlit("appearance-dark");
    reveal_strlit("width-narrow");
    reveal_strlit("width-wide");
    reveal_strlit("cursor-line");
    reveal_strlit("cursor-underline");
    assert("new-note"@.len() == 8);
    assert("change-folder"@.len() == 13);
    assert("font-default"@.len() == 12);
    assert("font-baskerville"@.len() == 16);
    assert("font-mono"@.len() == 9);
    assert("size-small"@.len() == 10);
    assert("size-medium"@.len() == 11);
    assert("size-large"@.len() == 10);
    assert("appearance-system"@.len() == 17);
    assert("appearance-light"@.len() == 16);
    assert("appearance-dark"@.len() == 15);
    assert("width-narrow"@.len() == 12);
    assert("width-wide"@.len() == 10);
    assert("cursor-line"@.len() == 11);
    assert("cursor-underline"@.len() == 16);
    assert("size-small"@[5] == 's');
    assert("size-large"@[5] == 'l');
    assert("size-small"@[0] == 's');
    assert("size-large"@[0] == 's');
    assert("width-wide"@[0] == 'w');
    assert("size-medium"@[0] == 's');
    assert("cursor-line"@[0] == 'c');
    assert("font-default"@[0] == 'f');
    assert("width-narrow"@[0] == 'w');
    assert("font-baskerville"@[0] == 'f');
    assert("appearance-light"@[0] == 'a');
    assert("cursor-underline"@[0] == 'c');
    assert forall|i: int, j: int|
        0 <= i < full_vocabulary().len() && 0 <= j < full_vocabulary().len() && i
            != j implies full_vocabulary()[i] != full_vocabulary()[j] by {
        let v = full_vocabulary();
        assert(v[0] == "new-note"@);
        assert(v[1] == "change-folder"@);
        assert(v[2] == "font-default"@);
        assert(v[3] == "font-baskerville"@);
        assert(v[4] == "font-mono"@);
        assert(v[5] == "size-small"@);
        assert(v[6] == "size-medium"@);
        assert(v[7] == "size-large"@);
        assert(v[8] == "appearance-system"@);
        assert(v[9] == "appearance-light"@);
        assert(v[10] == "appearance-dark"@);
        assert(v[11] == "width-narrow"@);
        assert(v[12] == "width-wide"@);
        assert(v[13] == "cursor-line"@);
        assert(v[14] == "cursor-underline"@);
    }
}

/// No identifier occurs twice in the reduced vocabulary.
pub proof fn lemma_reduced_vocabulary_distinct()
    ensures
        reduced_vocabulary().no_duplicates(),
{
    reveal_strlit("font-default");
    reveal_strlit("font-baskerville");
    reveal_strlit("font-mono");
    reveal_strlit("size-small");
    reveal_strlit("size-medium");
    reveal_strlit("size-large");
    assert("font-default"@.len() == 12);
    assert("font-baskerville"@.len() == 16);
    assert("font-mono"@.len() == 9);
    assert("size-small"@.len() == 10);
    assert("size-medium"@.len() == 11);
    assert("size-large"@.len() == 10);
    assert("size-small"@[5] == 's');
    assert("size-large"@[5] == 'l');
    assert forall|i: int, j: int|
        0 <= i < reduced_vocabulary().len() && 0 <= j < reduced_vocabulary().len() && i
            != j implies reduced_vocabulary()[i] != reduced_vocabulary()[j] by {
        let v = reduced_vocabulary();
        assert(v[0] == "font-default"@);
        assert(v[1] == "font-baskerville"@);
        assert(v[2] == "font-mono"@);
        assert(v[3] == "size-small"@);
        assert(v[4] == "size-medium"@);
        assert(v[5] == "size-large"@);
    }
}

/// No two action leaves of a full-catalog tree share an identifier: the
/// set of identifiers is as large as the sequence of declared leaves.
pub proof fn lemma_full_catalog_ids_unique(t: MenuTree)
    requires
        is_full_catalog(t),
    ensures
        t.action_ids().no_duplicates(),
        t.action_ids().to_set().len() == t.action_ids().len(),
{
    lemma_full_catalog_ids(t);
    lemma_full_vocabulary_distinct();
    t.action_ids().unique_seq_to_set();
}

/// No two action leaves of a reduced-catalog tree share an identifier.
pub proof fn lemma_reduced_catalog_ids_unique(t: MenuTree)
    requires
        is_reduced_catalog(t),
    ensures
        t.action_ids().no_duplicates(),
        t.action_ids().to_set().len() == t.action_ids().len(),
{
    lemma_reduced_catalog_ids(t);
    lemma_reduced_vocabulary_distinct();
    t.action_ids().unique_seq_to_set();
}

/// An identifier resolves exactly when it belongs to the fixed
/// vocabulary; any other identifier resolves to nothing.
pub proof fn lemma_resolve_known_identifiers(id: Seq<char>)
    ensures
        (spec_resolve(id) is Some) <==> full_vocabulary().contains(id),
{
    lemma_lookup_some_iff_contains(catalog_spec(), id);
    assert forall|k: int| 0 <= k < catalog_spec().len() implies catalog_spec()[k].0
        == full_vocabulary()[k] by {}
    if exists|k: int| 0 <= k < catalog_spec().len() && catalog_spec()[k].0 == id {
        let k = choose|k: int| 0 <= k < catalog_spec().len() && catalog_spec()[k].0 == id;
        assert(full_vocabulary()[k] == id);
    }
    if full_vocabulary().contains(id) {
        let k = choose|k: int| 0 <= k < full_vocabulary().len() && full_vocabulary()[k] == id;
        assert(catalog_spec()[k].0 == id);
    }
}

/// The dispatch table and the full catalog agree: an identifier resolves
/// exactly when some action leaf of a full-catalog tree declares it. In
/// particular every declared identifier has an entry, and platform
/// activations outside the vocabulary resolve to nothing.
pub proof fn lemma_dispatch_matches_full_catalog(t: MenuTree, id: Seq<char>)
    requires
        is_full_catalog(t),
    ensures
        (spec_resolve(id) is Some) <==> t.action_ids().contains(id),
{
    lemma_full_catalog_ids(t);
    lemma_resolve_known_identifiers(id);
}

/// The reduced vocabulary is contained in the full one: every identifier
/// of a reduced-catalog tree is declared by a full-catalog tree as well.
pub proof fn lemma_reduced_vocabulary_within_full(full: MenuTree, reduced: MenuTree)
    requires
        is_full_catalog(full),
        is_reduced_catalog(reduced),
    ensures
        forall|id: Seq<char>|
            reduced.action_ids().contains(id) ==> full.action_ids().contains(id),
{
    lemma_full_catalog_ids(full);
    lemma_reduced_catalog_ids(reduced);
    assert forall|id: Seq<char>|
        reduced.action_ids().contains(id) implies full.action_ids().contains(id) by {
        let k = choose|k: int|
            0 <= k < reduced.action_ids().len() && reduced.action_ids()[k] == id;
        assert(full.action_ids()[k + 2] == reduced.action_ids()[k]);
    }
}

fn application_menu() -> (n: MenuNode)
    ensures
        is_application_menu(n),
{
    let mut items: Vec<MenuNode> = Vec::new();
    items.push(MenuNode::predefined(PredefinedAction::About));
    items.push(MenuNode::separator());
    items.push(MenuNode::predefined(PredefinedAction::Services));
    items.push(MenuNode::separator());
    items.push(MenuNode::predefined(PredefinedAction::Hide));
    items.push(MenuNode::predefined(PredefinedAction::HideOthers));
    items.push(MenuNode::predefined(PredefinedAction::ShowAll));
    items.push(MenuNode::separator());
    items.push(MenuNode::predefined(PredefinedAction::Quit));
    MenuNode::submenu("Superscript", items)
}

fn file_menu() -> (n: MenuNode)
    ensures
        is_file_menu(n),
{
    let mut items: Vec<MenuNode> = Vec::new();
    items.push(MenuNode::action("new-note", "New Page", true, Some("CmdOrCtrl+N")));
    items.push(MenuNode::separator());
    items.push(MenuNode::action("change-folder", "Change Folder…", true, None));
    MenuNode::submenu("File", items)
}

fn edit_menu() -> (n: MenuNode)
    ensures
        is_edit_menu(n),
{
    let mut items: Vec<MenuNode> = Vec::new();
    items.push(MenuNode::predefined(PredefinedAction::Undo));
    items.push(MenuNode::predefined(PredefinedAction::Redo));
    items.push(MenuNode::separator());
    items.push(MenuNode::predefined(PredefinedAction::Cut));
    items.push(MenuNode::predefined(PredefinedAction::Copy));
    items.push(MenuNode::predefined(PredefinedAction::Paste));
    items.push(MenuNode::predefined(PredefinedAction::SelectAll));
    MenuNode::submenu("Edit", items)
}

fn format_menu() -> (n: MenuNode)
    ensures
        is_format_menu(n),
{
    let mut font_items: Vec<MenuNode> = Vec::new();
    font_items.push(MenuNode::action("font-default", "Default", true, None));
    font_items.push(MenuNode::action("font-baskerville", "Classical", true, None));
    font_items.push(MenuNode::action("font-mono", "Modern", true, None));
    let mut size_items: Vec<MenuNode> = Vec::new();
    size_items.push(MenuNode::action("size-small", "Small", true, None));
    size_items.push(MenuNode::action("size-medium", "Default", true, None));
    size_items.push(MenuNode::action("size-large", "Large", true, None));
    let mut items: Vec<MenuNode> = Vec::new();
    items.push(MenuNode::submenu("Font", font_items));
    items.push(MenuNode::separator());
    items.push(MenuNode::submenu("Size", size_items));
    MenuNode::submenu("Format", items)
}

fn appearance_menu() -> (n: MenuNode)
    ensures
        is_appearance_menu(n),
{
    let mut width_items: Vec<MenuNode> = Vec::new();
    width_items.push(MenuNode::action("width-narrow", "Narrow", true, None));
    width_items.push(MenuNode::action("width-wide", "Wide", true, None));
    let mut cursor_items: Vec<MenuNode> = Vec::new();
    cursor_items.push(MenuNode::action("cursor-line", "Line", true, None));
    cursor_items.push(MenuNode::action("cursor-underline", "Underline", true, None));
    let mut items: Vec<MenuNode> = Vec::new();
    items.push(MenuNode::action("appearance-system", "System", true, None));
    items.push(MenuNode::action("appearance-light", "Light", true, None));
    items.push(MenuNode::action("appearance-dark", "Dark", true, None));
    items.push(MenuNode::separator());
    items.push(MenuNode::submenu("Writing Width", width_items));
    items.push(MenuNode::separator());
    items.push(MenuNode::submenu("Cursor", cursor_items));
    MenuNode::submenu("Appearance", items)
}

fn window_menu() -> (n: MenuNode)
    ensures
        is_window_menu(n),
{
    let mut items: Vec<MenuNode> = Vec::new();
    items.push(MenuNode::predefined(PredefinedAction::Minimize));
    items.push(MenuNode::predefined(PredefinedAction::Maximize));
    items.push(MenuNode::predefined(PredefinedAction::CloseWindow));
    MenuNode::submenu("Window", items)
}

/// Builds the full configuration: file management, formatting,
/// appearance, writing-width and cursor controls.
pub fn full_menu() -> (t: MenuTree)
    ensures
        is_full_catalog(t),
        t.action_ids() == full_vocabulary(),
        t.action_ids().no_duplicates(),
{
    let mut top: Vec<MenuNode> = Vec::new();
    top.push(application_menu());
    top.push(file_menu());
    top.push(edit_menu());
    top.push(format_menu());
    top.push(appearance_menu());
    top.push(window_menu());
    let t = MenuTree { top };
    proof {
        lemma_full_catalog_ids(t);
        lemma_full_catalog_ids_unique(t);
    }
    t
}

/// Builds the reduced configuration: formatting controls alone.
pub fn reduced_menu() -> (t: MenuTree)
    ensures
        is_reduced_catalog(t),
        t.action_ids() == reduced_vocabulary(),
        t.action_ids().no_duplicates(),
{
    let mut top: Vec<MenuNode> = Vec::new();
    top.push(application_menu());
    top.push(edit_menu());
    top.push(format_menu());
    top.push(window_menu());
    let t = MenuTree { top };
    proof {
        lemma_reduced_catalog_ids(t);
        lemma_reduced_catalog_ids_unique(t);
    }
    t
}

} // verus!

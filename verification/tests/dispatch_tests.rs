use superscript_menu::dispatch::DispatchTable;

fn expect(table: &DispatchTable, identifier: &str, name: &str, value: &str) {
    let resolved = table.resolve(identifier);
    match resolved {
        Some(event) => {
            assert_eq!(event.name, name);
            assert_eq!(event.value, value);
        },
        None => panic!("identifier did not resolve"),
    }
}

#[test]
fn resolves_every_catalog_identifier() {
    let table = DispatchTable::new();
    expect(&table, "new-note", "new_note", "");
    expect(&table, "change-folder", "change_folder", "");
    expect(&table, "font-default", "font_change", "default");
    expect(&table, "font-baskerville", "font_change", "classical");
    expect(&table, "font-mono", "font_change", "modern");
    expect(&table, "size-small", "size_change", "small");
    expect(&table, "size-medium", "size_change", "default");
    expect(&table, "size-large", "size_change", "large");
    expect(&table, "appearance-system", "appearance_change", "system");
    expect(&table, "appearance-light", "appearance_change", "light");
    expect(&table, "appearance-dark", "appearance_change", "dark");
    expect(&table, "width-narrow", "width_change", "narrow");
    expect(&table, "width-wide", "width_change", "wide");
    expect(&table, "cursor-line", "cursor_change", "line");
    expect(&table, "cursor-underline", "cursor_change", "underline");
}

#[test]
fn unknown_identifiers_resolve_to_nothing() {
    let table = DispatchTable::new();
    assert!(table.resolve("about").is_none());
    assert!(table.resolve("quit").is_none());
    assert!(table.resolve("").is_none());
    assert!(table.resolve("undo").is_none());
    assert!(table.resolve("font").is_none());
    assert!(table.resolve("font-").is_none());
    assert!(table.resolve("font-defaults").is_none());
    assert!(table.resolve("FONT-DEFAULT").is_none());
    assert!(table.resolve("size-medium ").is_none());
    assert!(table.resolve("qznxv-wkrp").is_none());
}

fn as_pair(
    resolved: Option<&superscript_menu::dispatch::EventDescriptor>,
) -> Option<(String, String)> {
    resolved.map(|event| (event.name.clone(), event.value.clone()))
}

#[test]
fn resolution_is_idempotent() {
    let table = DispatchTable::new();
    let first = as_pair(table.resolve("width-narrow"));
    let second = as_pair(table.resolve("width-narrow"));
    assert_eq!(first, second);
    let first_miss = as_pair(table.resolve("nonsense"));
    let second_miss = as_pair(table.resolve("nonsense"));
    assert_eq!(first_miss, second_miss);
}

#[test]
fn activation_font_baskerville_emits_classical_font_change() {
    let table = DispatchTable::new();
    let event = table.resolve("font-baskerville").expect("must resolve");
    assert_eq!(event.name, "font_change");
    assert_eq!(event.value, "classical");
}

#[test]
fn activation_size_medium_emits_default_size_change() {
    let table = DispatchTable::new();
    let event = table.resolve("size-medium").expect("must resolve");
    assert_eq!(event.name, "size_change");
    assert_eq!(event.value, "default");
}

#[test]
fn activation_appearance_dark_emits_dark_appearance_change() {
    let table = DispatchTable::new();
    let event = table.resolve("appearance-dark").expect("must resolve");
    assert_eq!(event.name, "appearance_change");
    assert_eq!(event.value, "dark");
}

#[test]
fn activation_quit_is_ignored() {
    let table = DispatchTable::new();
    assert!(table.resolve("quit").is_none());
}

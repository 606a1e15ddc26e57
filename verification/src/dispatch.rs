//! Identifier-to-event resolution.
//!
//! A `DispatchTable` holds one `DispatchEntry` per identifier of the fixed
//! vocabulary and resolves an activated identifier to its semantic
//! `(event name, value)` pair. Identifiers outside the vocabulary resolve
//! to `None`: an unrecognized activation is ignored, not an error.

use vstd::prelude::*;
use crate::text::str_eq;

verus! {

/// The semantic event emitted for a resolved activation: an event name that
/// groups a family of related choices, and a value selecting the variant.
pub struct EventDescriptor {
    pub name: String,
    pub value: String,
}

impl View for EventDescriptor {
    type V = (Seq<char>, Seq<char>);

    open spec fn view(&self) -> (Seq<char>, Seq<char>) {
        (self.name@, self.value@)
    }
}

/// One row of the dispatch table: an identifier and the event it stands for.
pub struct DispatchEntry {
    pub identifier: String,
    pub event: EventDescriptor,
}

impl View for DispatchEntry {
    type V = (Seq<char>, Seq<char>, Seq<char>);

    open spec fn view(&self) -> (Seq<char>, Seq<char>, Seq<char>) {
        (self.identifier@, self.event.name@, self.event.value@)
    }
}

/// The fixed identifier-to-event catalog: the wire contract between menu
/// activations and the application's event layer.
pub open spec fn catalog_spec() -> Seq<(Seq<char>, Seq<char>, Seq<char>)> {
    seq![
        ("new-note"@, "new_note"@, ""@),
        ("change-folder"@, "change_folder"@, ""@),
        ("font-default"@, "font_change"@, "default"@),
        ("font-baskerville"@, "font_change"@, "classical"@),
        ("font-mono"@, "font_change"@, "modern"@),
        ("size-small"@, "size_change"@, "small"@),
        ("size-medium"@, "size_change"@, "default"@),
        ("size-large"@, "size_change"@, "large"@),
        ("appearance-system"@, "appearance_change"@, "system"@),
        ("appearance-light"@, "appearance_change"@, "light"@),
        ("appearance-dark"@, "appearance_change"@, "dark"@),
        ("width-narrow"@, "width_change"@, "narrow"@),
        ("width-wide"@, "width_change"@, "wide"@),
        ("cursor-line"@, "cursor_change"@, "line"@),
        ("cursor-underline"@, "cursor_change"@, "underline"@),
    ]
}

/// First-match lookup of an identifier in a sequence of table rows.
pub open spec fn lookup(
    rows: Seq<(Seq<char>, Seq<char>, Seq<char>)>,
    id: Seq<char>,
) -> Option<(Seq<char>, Seq<char>)>
    decreases rows.len(),
{
    if rows.len() == 0 {
        None
    } else if rows[0].0 == id {
        Some((rows[0].1, rows[0].2))
    } else {
        lookup(rows.drop_first(), id)
    }
}

/// What `DispatchTable::resolve` returns for a given identifier.
pub open spec fn spec_resolve(id: Seq<char>) -> Option<(Seq<char>, Seq<char>)> {
    lookup(catalog_spec(), id)
}

/// A lookup misses a row whose identifier differs from the key.
proof fn lemma_lookup_step(rows: Seq<(Seq<char>, Seq<char>, Seq<char>)>, id: Seq<char>, i: int)
    requires
        0 <= i < rows.len(),
        rows[i].0 != id,
    ensures
        lookup(rows.skip(i), id) == lookup(rows.skip(i + 1), id),
{
    assert(rows.skip(i)[0] == rows[i]);
    assert(rows.skip(i).drop_first() =~= rows.skip(i + 1));
}

/// A lookup stops at the first row whose identifier equals the key.
proof fn lemma_lookup_found(rows: Seq<(Seq<char>, Seq<char>, Seq<char>)>, id: Seq<char>, i: int)
    requires
        0 <= i < rows.len(),
        rows[i].0 == id,
    ensures
        lookup(rows.skip(i), id) == Some((rows[i].1, rows[i].2)),
{
    assert(rows.skip(i)[0] == rows[i]);
}

/// A lookup succeeds exactly when some row carries the key.
pub proof fn lemma_lookup_some_iff_contains(
    rows: Seq<(Seq<char>, Seq<char>, Seq<char>)>,
    id: Seq<char>,
)
    ensures
        (lookup(rows, id) is Some) <==> (exists|k: int| 0 <= k < rows.len() && rows[k].0 == id),
    decreases rows.len(),
{
    if rows.len() > 0 {
        if rows[0].0 == id {
            assert(0 <= 0 < rows.len() && rows[0].0 == id);
        } else {
            lemma_lookup_some_iff_contains(rows.drop_first(), id);
            if lookup(rows, id) is Some {
                let k = choose|k: int|
                    0 <= k < rows.drop_first().len() && rows.drop_first()[k].0 == id;
                assert(rows[k + 1].0 == id);
            }
            if exists|k: int| 0 <= k < rows.len() && rows[k].0 == id {
                let k = choose|k: int| 0 <= k < rows.len() && rows[k].0 == id;
                assert(rows.drop_first()[k - 1].0 == id);
            }
        }
    }
}

/// Every identifier of the catalog resolves to exactly its listed pair,
/// and identifiers outside the catalog resolve to nothing.
#[verifier::rlimit(100)]
pub proof fn lemma_resolve_catalog_table()
    ensures
        spec_resolve("new-note"@) == Some(("new_note"@, ""@)),
        spec_resolve("change-folder"@) == Some(("change_folder"@, ""@)),
        spec_resolve("font-default"@) == Some(("font_change"@, "default"@)),
        spec_resolve("font-baskerville"@) == Some(("font_change"@, "classical"@)),
        spec_resolve("font-mono"@) == Some(("font_change"@, "modern"@)),
        spec_resolve("size-small"@) == Some(("size_change"@, "small"@)),
        spec_resolve("size-medium"@) == Some(("size_change"@, "default"@)),
        spec_resolve("size-large"@) == Some(("size_change"@, "large"@)),
        spec_resolve("appearance-system"@) == Some(("appearance_change"@, "system"@)),
        spec_resolve("appearance-light"@) == Some(("appearance_change"@, "light"@)),
        spec_resolve("appearance-dark"@) == Some(("appearance_change"@, "dark"@)),
        spec_resolve("width-narrow"@) == Some(("width_change"@, "narrow"@)),
        spec_resolve("width-wide"@) == Some(("width_change"@, "wide"@)),
        spec_resolve("cursor-line"@) == Some(("cursor_change"@, "line"@)),
        spec_resolve("cursor-underline"@) == Some(("cursor_change"@, "underline"@)),
        spec_resolve("about"@) is None,
        spec_resolve("quit"@) is None,
        spec_resolve(""@) is None,
{
    reveal_strlit("new-note");
    reveal_strlit("change-folder");
    reveal_strlit("font-default");
    reveal_strlit("font-baskerville");
    reveal_strlit("font-mono");
    reveal_strlit("size-small");
    reveal_strlit("size-medium");
    reveal_strlit("size-large");
    reveal_strlit("appearance-system");
    reveal_strlit("appearance-light");
    reveal_strlit("appearance-dark");
    reveal_strlit("width-narrow");
    reveal_strlit("width-wide");
    reveal_strlit("cursor-line");
    reveal_strlit("cursor-underline");
    reveal_strlit("about");
    reveal_strlit("quit");
    reveal_strlit("");
    assert("new-note"@.len() == 8);
    assert("change-folder"@.len() == 13);
    assert("font-default"@.len() == 12);
    assert("font-baskerville"@.len() == 16);
    assert("font-mono"@.len() == 9);
    assert("size-small"@.len() == 10);
    assert("size-medium"@.len() == 11);
    assert("size-large"@.len() == 10);
    assert("appearance-system"@.len() == 17);
    assert("appearance-light"@.len() == 16);
    assert("appearance-dark"@.len() == 15);
    assert("width-narrow"@.len() == 12);
    assert("width-wide"@.len() == 10);
    assert("cursor-line"@.len() == 11);
    assert("cursor-underline"@.len() == 16);
    assert("about"@.len() == 5);
    assert("quit"@.len() == 4);
    assert(""@.len() == 0);
    assert("size-small"@[5] == 's');
    assert("size-large"@[5] == 'l');
    assert("size-small"@[0] == 's');
    assert("size-large"@[0] == 's');
    assert("width-wide"@[0] == 'w');
    assert("size-medium"@[0] == 's');
    assert("cursor-line"@[0] == 'c');
    assert("font-default"@[0] == 'f');
    assert("width-narrow"@[0] == 'w');
    assert("font-baskerville"@[0] == 'f');
    assert("appearance-light"@[0] == 'a');
    assert("cursor-underline"@[0] == 'c');
    reveal_with_fuel(lookup, 17);
}

/// Resolution has no hidden state: any two results that satisfy
/// `resolve`'s postcondition for equal identifiers are equal.
pub proof fn lemma_resolve_deterministic(
    first: Option<(Seq<char>, Seq<char>)>,
    second: Option<(Seq<char>, Seq<char>)>,
    id_first: Seq<char>,
    id_second: Seq<char>,
)
    requires
        id_first == id_second,
        first == spec_resolve(id_first),
        second == spec_resolve(id_second),
    ensures
        first == second,
{
}

/// The dispatch table: one row per identifier of the fixed vocabulary,
/// constructed once at startup and read-only thereafter.
pub struct DispatchTable {
    entries: Vec<DispatchEntry>,
}

impl DispatchTable {
    /// The rows mirror the fixed catalog exactly.
    pub closed spec fn wf(&self) -> bool {
        self.entries@.map_values(|e: DispatchEntry| e@) == catalog_spec()
    }

    fn entry(identifier: &str, name: &str, value: &str) -> (e: DispatchEntry)
        ensures
            e@ == (identifier@, name@, value@),
    {
        DispatchEntry {
            identifier: identifier.to_owned(),
            event: EventDescriptor { name: name.to_owned(), value: value.to_owned() },
        }
    }

    /// Builds the table holding the full fixed catalog.
    pub fn new() -> (t: DispatchTable)
        ensures
            t.wf(),
    {
        let mut entries: Vec<DispatchEntry> = Vec::new();
        entries.push(Self::entry("new-note", "new_note", ""));
        entries.push(Self::entry("change-folder", "change_folder", ""));
        entries.push(Self::entry("font-default", "font_change", "default"));
        entries.push(Self::entry("font-baskerville", "font_change", "classical"));
        entries.push(Self::entry("font-mono", "font_change", "modern"));
        entries.push(Self::entry("size-small", "size_change", "small"));
        entries.push(Self::entry("size-medium", "size_change", "default"));
        entries.push(Self::entry("size-large", "size_change", "large"));
        entries.push(Self::entry("appearance-system", "appearance_change", "system"));
        entries.push(Self::entry("appearance-light", "appearance_change", "light"));
        entries.push(Self::entry("appearance-dark", "appearance_change", "dark"));
        entries.push(Self::entry("width-narrow", "width_change", "narrow"));
        entries.push(Self::entry("width-wide", "width_change", "wide"));
        entries.push(Self::entry("cursor-line", "cursor_change", "line"));
        entries.push(Self::entry("cursor-underline", "cursor_change", "underline"));
        proof {
            assert(entries@.map_values(|e: DispatchEntry| e@) =~= catalog_spec());
        }
        DispatchTable { entries }
    }

    /// Resolves an activated identifier to its semantic event, or to
    /// `None` for any identifier outside the fixed vocabulary.
    pub fn resolve(&self, identifier: &str) -> (r: Option<&EventDescriptor>)
        requires
            self.wf(),
        ensures
            match r {
                Some(e) => spec_resolve(identifier@) == Some(e@),
                None => spec_resolve(identifier@) is None,
            },
    {
        let ghost rows = catalog_spec();
        let n = self.entries.len();
        let mut i: usize = 0;
        proof {
            assert(rows.skip(0) =~= rows);
        }
        while i < n
            invariant
                self.wf(),
                n == self.entries@.len(),
                n == catalog_spec().len(),
                rows == catalog_spec(),
                i <= n,
                lookup(rows, identifier@) == lookup(rows.skip(i as int), identifier@),
            decreases n - i,
        {
            let e: &DispatchEntry = &self.entries[i];
            proof {
                assert(rows[i as int] == self.entries@.map_values(|x: DispatchEntry| x@)[i as int]);
                assert(rows[i as int] == e@);
            }
            if str_eq(identifier, e.identifier.as_str()) {
                proof {
                    lemma_lookup_found(rows, identifier@, i as int);
                }
                return Some(&e.event);
            }
            proof {
                lemma_lookup_step(rows, identifier@, i as int);
            }
            i = i + 1;
        }
        proof {
            assert(rows.skip(n as int).len() == 0);
        }
        None
    }
}

} // verus!

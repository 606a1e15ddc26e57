//! Menu and event-dispatch core of a desktop note-editing application.
//!
//! `menu` models the application menu as a tree of nodes: actions with
//! stable identifiers, separators, submenus and platform-predefined
//! entries. `catalog` pins down the two fixed configurations the
//! application ships and proves that their identifiers are unique and
//! agree with the dispatch table. `dispatch` maps an activated identifier
//! to the semantic `(event name, value)` pair that the rest of the
//! application consumes; identifiers outside the fixed vocabulary resolve
//! to nothing and the activation is ignored.

pub mod catalog;
pub mod dispatch;
pub mod menu;
pub mod text;

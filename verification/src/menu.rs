//! The declarative menu tree.
//!
//! A `MenuTree` is an ordered sequence of top-level nodes, conventionally
//! submenus. Actionable leaves carry a stable identifier used as the
//! dispatch key; platform-predefined entries are handled natively by the
//! host and never reach dispatch.

use vstd::prelude::*;

verus! {

/// A platform-native menu action, rendered and handled entirely by the
/// host; it carries no dispatch identifier.
#[derive(Clone, Copy, Debug, PartialEq, Eq, Structural)]
pub enum PredefinedAction {
    About,
    Services,
    Hide,
    HideOthers,
    ShowAll,
    Quit,
    Undo,
    Redo,
    Cut,
    Copy,
    Paste,
    SelectAll,
    Minimize,
    Maximize,
    CloseWindow,
}

/// One element of the declarative menu tree.
pub enum MenuNode {
    /// An actionable leaf with its stable identifier, display label,
    /// enabled state and optional accelerator.
    Action { identifier: String, label: String, enabled: bool, accelerator: Option<String> },
    /// A platform-predefined entry.
    Predefined { action: PredefinedAction },
    /// A visual divider between logically distinct clusters.
    Separator,
    /// A labeled, ordered group of child nodes; submenus nest freely.
    Submenu { label: String, items: Vec<MenuNode> },
}

/// The whole application menu: an ordered sequence of top-level nodes.
pub struct MenuTree {
    pub top: Vec<MenuNode>,
}

/// The identifiers of the action leaves of one node, in menu order.
pub open spec fn node_action_ids(n: MenuNode) -> Seq<Seq<char>>
    decreases n,
{
    match n {
        MenuNode::Action { identifier, .. } => seq![identifier@],
        MenuNode::Predefined { .. } => Seq::empty(),
        MenuNode::Separator => Seq::empty(),
        MenuNode::Submenu { items, .. } => nodes_action_ids(items@),
    }
}

/// The identifiers of the action leaves of a sequence of nodes, in order.
pub open spec fn nodes_action_ids(nodes: Seq<MenuNode>) -> Seq<Seq<char>>
    decreases nodes,
{
    if nodes.len() == 0 {
        Seq::empty()
    } else {
        node_action_ids(nodes[0]) + nodes_action_ids(nodes.drop_first())
    }
}

/// `n` is an action leaf with exactly these attributes.
pub open spec fn is_action(
    n: MenuNode,
    id: Seq<char>,
    label: Seq<char>,
    enabled: bool,
    accelerator: Option<Seq<char>>,
) -> bool {
    match n {
        MenuNode::Action { identifier: i, label: l, enabled: e, accelerator: a } => {
            &&& i@ == id
            &&& l@ == label
            &&& e == enabled
            &&& match (a, accelerator) {
                (Some(x), Some(y)) => x@ == y,
                (None, None) => true,
                _ => false,
            }
        },
        _ => false,
    }
}

/// `n` is the given platform-predefined entry.
pub open spec fn is_predefined(n: MenuNode, action: PredefinedAction) -> bool {
    match n {
        MenuNode::Predefined { action: a } => a == action,
        _ => false,
    }
}

/// `n` is a separator.
pub open spec fn is_separator(n: MenuNode) -> bool {
    n is Separator
}

/// Appending one node appends that node's identifiers.
pub proof fn lemma_nodes_ids_push(s: Seq<MenuNode>, n: MenuNode)
    ensures
        nodes_action_ids(s.push(n)) == nodes_action_ids(s) + node_action_ids(n),
    decreases s.len(),
{
    if s.len() == 0 {
        assert(s.push(n)[0] == n);
        assert(s.push(n).drop_first() =~= Seq::<MenuNode>::empty());
        assert(nodes_action_ids(s.push(n).drop_first()) == Seq::<Seq<char>>::empty());
        assert(nodes_action_ids(s.push(n)) == node_action_ids(n) + Seq::<Seq<char>>::empty());
        assert(nodes_action_ids(s) == Seq::<Seq<char>>::empty());
        assert(nodes_action_ids(s.push(n)) =~= nodes_action_ids(s) + node_action_ids(n));
    } else {
        assert(s.push(n)[0] == s[0]);
        assert(s.push(n).drop_first() =~= s.drop_first().push(n));
        lemma_nodes_ids_push(s.drop_first(), n);
        assert(nodes_action_ids(s.push(n)) =~= nodes_action_ids(s) + node_action_ids(n));
    }
}

impl MenuNode {
    /// Builds an action leaf.
    pub fn action(identifier: &str, label: &str, enabled: bool, accelerator: Option<&str>) -> (n:
        MenuNode)
        ensures
            is_action(
                n,
                identifier@,
                label@,
                enabled,
                match accelerator {
                    Some(a) => Some(a@),
                    None => None,
                },
            ),
    {
        let accel: Option<String> = match accelerator {
            Some(a) => Some(a.to_owned()),
            None => None,
        };
        MenuNode::Action {
            identifier: identifier.to_owned(),
            label: label.to_owned(),
            enabled,
            accelerator: accel,
        }
    }

    /// Builds a platform-predefined entry.
    pub fn predefined(action: PredefinedAction) -> (n: MenuNode)
        ensures
            is_predefined(n, action),
    {
        MenuNode::Predefined { action }
    }

    /// Builds a separator.
    pub fn separator() -> (n: MenuNode)
        ensures
            is_separator(n),
    {
        MenuNode::Separator
    }

    /// Builds a labeled submenu over the given child nodes.
    pub fn submenu(label: &str, items: Vec<MenuNode>) -> (n: MenuNode)
        ensures
            (n matches MenuNode::Submenu { label: l, items: it } && l@ == label@ && it@
                == items@),
    {
        MenuNode::Submenu { label: label.to_owned(), items }
    }

    /// Appends the identifiers of this node's action leaves, in menu
    /// order, to `out`.
    #[verifier::loop_isolation(false)]
    pub fn collect_ids(&self, out: &mut Vec<String>)
        ensures
            final(out)@.map_values(|s: String| s@) == old(out)@.map_values(|s: String| s@)
                + node_action_ids(*self),
        decreases *self,
    {
        match self {
            MenuNode::Action { identifier, .. } => {
                out.push(identifier.clone());
                proof {
                    assert(out@.map_values(|s: String| s@) =~= old(out)@.map_values(
                        |s: String| s@,
                    ) + node_action_ids(*self));
                }
            },
            MenuNode::Predefined { .. } => {
                proof {
                    assert(out@.map_values(|s: String| s@) =~= old(out)@.map_values(
                        |s: String| s@,
                    ) + node_action_ids(*self));
                }
            },
            MenuNode::Separator => {
                proof {
                    assert(out@.map_values(|s: String| s@) =~= old(out)@.map_values(
                        |s: String| s@,
                    ) + node_action_ids(*self));
                }
            },
            MenuNode::Submenu { items, .. } => {
                let n = items.len();
                let mut j: usize = 0;
                proof {
                    assert(items@.take(0) =~= Seq::<MenuNode>::empty());
                    assert(out@.map_values(|s: String| s@) =~= old(out)@.map_values(
                        |s: String| s@,
                    ) + nodes_action_ids(items@.take(0)));
                }
                while j < n
                    invariant
                        j <= n,
                        n == items@.len(),
                        out@.map_values(|s: String| s@) == old(out)@.map_values(|s: String| s@)
                            + nodes_action_ids(items@.take(j as int)),
                    decreases n - j,
                {
                    proof {
                        assert(decreases_to!(*self => *items));
                        assert(decreases_to!(*self => items@[j as int]));
                    }
                    items[j].collect_ids(out);
                    proof {
                        assert(items@.take(j as int).push(items@[j as int]) =~= items@.take(
                            j as int + 1,
                        ));
                        lemma_nodes_ids_push(items@.take(j as int), items@[j as int]);
                    }
                    j = j + 1;
                }
                proof {
                    assert(items@.take(n as int) =~= items@);
                }
            },
        }
    }
}

impl MenuTree {
    /// The identifiers of all action leaves of the tree, in menu order.
    pub open spec fn action_ids(&self) -> Seq<Seq<char>> {
        nodes_action_ids(self.top@)
    }

    /// The identifiers of all action leaves of the tree, in menu order.
    pub fn action_identifiers(&self) -> (ids: Vec<String>)
        ensures
            ids@.map_values(|s: String| s@) == self.action_ids(),
    {
        let mut ids: Vec<String> = Vec::new();
        let n = self.top.len();
        let mut j: usize = 0;
        proof {
            assert(self.top@.take(0) =~= Seq::<MenuNode>::empty());
            assert(ids@.map_values(|s: String| s@) =~= nodes_action_ids(self.top@.take(0)));
        }
        while j < n
            invariant
                j <= n,
                n == self.top@.len(),
                ids@.map_values(|s: String| s@) == nodes_action_ids(self.top@.take(j as int)),
            decreases n - j,
        {
            self.top[j].collect_ids(&mut ids);
            proof {
                assert(self.top@.take(j as int).push(self.top@[j as int]) =~= self.top@.take(
                    j as int + 1,
                ));
                lemma_nodes_ids_push(self.top@.take(j as int), self.top@[j as int]);
            }
            j = j + 1;
        }
        proof {
            assert(self.top@.take(n as int) =~= self.top@);
        }
        ids
    }
}

} // verus!

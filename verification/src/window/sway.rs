//! Sway/i3 window tracking. The daemon reads the window tree over sway IPC
//! and hands it here as a [`SwayNode`]; finding the focused view and its
//! class is done on that tree.

use vstd::prelude::*;
use crate::text::{decimal_value, integer_string, integer_text, opt_chars, parse_i64, trim, trim_str};

verus! {

/// The X11 properties sway reports for an XWayland view.
#[derive(Debug, Clone)]
pub struct SwayWindowProperties {
    /// `WM_CLASS` class half.
    pub class: Option<String>,
    /// `WM_CLASS` instance half.
    pub instance: Option<String>,
}

/// One node of the sway window tree, with the fields window tracking reads.
#[derive(Debug)]
pub struct SwayNode {
    /// The container id (`con_id`).
    pub id: i64,
    /// Whether this node has focus.
    pub focused: bool,
    /// Tiling children.
    pub nodes: Vec<SwayNode>,
    /// Floating children.
    pub floating_nodes: Vec<SwayNode>,
    /// Set only for xdg-shell (native Wayland) views.
    pub app_id: Option<String>,
    /// Set only for XWayland views.
    pub window_properties: Option<SwayWindowProperties>,
}

/// The focused node of the tree rooted at `n`: depth-first, first match
/// wins, looking at the node itself, then its tiling children, then its
/// floating children.
pub open spec fn focused_in(n: SwayNode) -> Option<SwayNode>
    decreases n, 0int,
{
    if n.focused {
        Some(n)
    } else {
        match focused_among(n.nodes@, 0) {
            Some(f) => Some(f),
            None => focused_among(n.floating_nodes@, 0),
        }
    }
}

/// The first focused node in the trees `ns[i..]`, searched in order.
pub open spec fn focused_among(ns: Seq<SwayNode>, i: int) -> Option<SwayNode>
    decreases ns, ns.len() - i,
{
    if 0 <= i < ns.len() {
        match focused_in(ns[i]) {
            Some(f) => Some(f),
            None => focused_among(ns, i + 1),
        }
    } else {
        None
    }
}

/// A candidate class that trims to something non-empty, trimmed.
pub open spec fn usable(c: Option<String>) -> Option<Seq<char>> {
    match c {
        Some(s) => if trim(s@).len() > 0 {
            Some(trim(s@))
        } else {
            None
        },
        None => None,
    }
}

/// The class-like identifier of a view: `app_id`, else the X11 class, else
/// the X11 instance, skipping any that trims to nothing.
pub open spec fn node_class(n: SwayNode) -> Option<Seq<char>> {
    let class = match n.window_properties {
        Some(p) => p.class,
        None => None,
    };
    let instance = match n.window_properties {
        Some(p) => p.instance,
        None => None,
    };
    match usable(n.app_id) {
        Some(c) => Some(c),
        None => match usable(class) {
            Some(c) => Some(c),
            None => usable(instance),
        },
    }
}

/// Recursively find the focused node in the sway tree.
///
/// Depth-first, first match wins: the node itself, then its tiling `nodes`,
/// then its `floating_nodes`.
pub fn find_focused(node: &SwayNode) -> (r: Option<&SwayNode>)
    ensures
        match r {
            Some(f) => focused_in(*node) == Some(*f),
            None => focused_in(*node) is None,
        },
    decreases node,
{
    if node.focused {
        return Some(node);
    }
    let mut i: usize = 0;
    while i < node.nodes.len()
        invariant
            i <= node.nodes@.len(),
            !node.focused,
            focused_among(node.nodes@, 0) == focused_among(node.nodes@, i as int),
        decreases node.nodes@.len() - i,
    {
        assert(decreases_to!(node => node.nodes@[i as int]));
        if let Some(found) = find_focused(&node.nodes[i]) {
            return Some(found);
        }
        i = i + 1;
    }
    let mut j: usize = 0;
    while j < node.floating_nodes.len()
        invariant
            j <= node.floating_nodes@.len(),
            !node.focused,
            focused_among(node.nodes@, 0) is None,
            focused_among(node.floating_nodes@, 0) == focused_among(node.floating_nodes@, j as int),
        decreases node.floating_nodes@.len() - j,
    {
        assert(decreases_to!(node => node.floating_nodes@[j as int]));
        if let Some(found) = find_focused(&node.floating_nodes[j]) {
            return Some(found);
        }
        j = j + 1;
    }
    None
}

/// Some node of the tree rooted at `n` has focus.
pub open spec fn has_focus(n: SwayNode) -> bool
    decreases n, 0int,
{
    n.focused || any_has_focus(n.nodes@, 0) || any_has_focus(n.floating_nodes@, 0)
}

/// Some node of the trees `ns[i..]` has focus.
pub open spec fn any_has_focus(ns: Seq<SwayNode>, i: int) -> bool
    decreases ns, ns.len() - i,
{
    if 0 <= i < ns.len() {
        has_focus(ns[i]) || any_has_focus(ns, i + 1)
    } else {
        false
    }
}

/// The search finds a node exactly when some node of the tree has focus,
/// and the node it finds is one that has focus.
pub proof fn lemma_search_finds_focus(n: SwayNode)
    ensures
        focused_in(n) is Some <==> has_focus(n),
        focused_in(n) matches Some(f) ==> f.focused,
    decreases n, 0int,
{
    if !n.focused {
        lemma_search_finds_focus_among(n.nodes@, 0);
        lemma_search_finds_focus_among(n.floating_nodes@, 0);
    }
}

/// [`lemma_search_finds_focus`] for a run of sibling trees.
pub proof fn lemma_search_finds_focus_among(ns: Seq<SwayNode>, i: int)
    ensures
        focused_among(ns, i) is Some <==> any_has_focus(ns, i),
        focused_among(ns, i) matches Some(f) ==> f.focused,
    decreases ns, ns.len() - i,
{
    if 0 <= i < ns.len() {
        lemma_search_finds_focus(ns[i]);
        lemma_search_finds_focus_among(ns, i + 1);
    }
}

/// A usable candidate: present and non-empty once trimmed.
fn usable_candidate(c: &Option<String>) -> (r: Option<String>)
    ensures
        opt_chars(r) == usable(*c),
{
    match c {
        Some(s) => {
            let t = trim_str(s.as_str());
            if t.is_empty() {
                None
            } else {
                Some(t.to_owned())
            }
        },
        None => None,
    }
}

/// Extract a window-class-like identifier from a sway tree node.
///
/// Resolution order: `app_id` (native Wayland views), then
/// `window_properties.class`, then `window_properties.instance` (XWayland).
/// The class comes before the instance so that the XWayland fallback agrees
/// with the X11 backend, which reports the class half of `WM_CLASS`. A
/// candidate that trims to empty is skipped rather than returned.
pub fn class_from_node(node: &SwayNode) -> (r: Option<String>)
    ensures
        opt_chars(r) == node_class(*node),
{
    let app_id = usable_candidate(&node.app_id);
    if app_id.is_some() {
        return app_id;
    }
    match &node.window_properties {
        Some(props) => {
            let class = usable_candidate(&props.class);
            if class.is_some() {
                return class;
            }
            usable_candidate(&props.instance)
        },
        None => None,
    }
}

/// Window tracker for Sway (and i3 with sway-compatible IPC): the decisions
/// it makes on the window tree the daemon fetched.
pub struct SwayTracker;

impl Default for SwayTracker {
    fn default() -> (r: Self) {
        SwayTracker
    }
}

impl SwayTracker {
    /// A tracker; it holds no connection, each query brings its own tree.
    pub fn new() -> (r: Self) {
        SwayTracker
    }

    /// The `con_id` of the focused window in `tree`, if any node has focus.
    pub fn focused_window_id(&self, tree: &SwayNode) -> (r: Option<i64>)
        ensures
            r == match focused_in(*tree) {
                Some(f) => Some(f.id),
                None => None,
            },
    {
        match find_focused(tree) {
            Some(node) => Some(node.id),
            None => None,
        }
    }

    /// The class of the focused window in `tree`: none if nothing has focus
    /// or the focused node reports no usable app id, class or instance.
    pub fn focused_window_class(&self, tree: &SwayNode) -> (r: Option<String>)
        ensures
            opt_chars(r) == match focused_in(*tree) {
                Some(f) => node_class(f),
                None => None,
            },
    {
        match find_focused(tree) {
            Some(node) => class_from_node(node),
            None => None,
        }
    }
    /// The sway command that focuses the container whose `con_id` is
    /// written in `id`: `[con_id=<id>] focus`, with the id as parsed and
    /// written back; none if `id` is not an `i64`.
    pub fn focus_command(&self, id: &str) -> (r: Option<String>)
        ensures
            r is Some <==> (decimal_value(id@) matches Some(v) && i64::MIN <= v <= i64::MAX),
            r matches Some(c) ==> c@ == "[con_id="@ + integer_text(decimal_value(id@)->0)
                + "] focus"@,
    {
        match parse_i64(id) {
            Some(con_id) => {
                let mut command = "[con_id=".to_owned();
                let digits = integer_string(con_id);
                command.append(digits.as_str());
                command.append("] focus");
                Some(command)
            },
            None => None,
        }
    }
}

} // verus!

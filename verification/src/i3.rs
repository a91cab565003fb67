//! The i3 session: what is read from its window tree and its notifications,
//! and how a notification becomes a focus change.
//!
//! The types here hold, of the session's own values, what the rules read: of
//! a tree node its id, name, focus marks and children; of a notification
//! its kind and, for a window notification, the change and the container.

use crate::focus::{FocusStep, FocusStepView, FocusTracker};
use crate::text::push_char;
use vstd::prelude::*;

verus! {

/// A node of the window tree.
#[derive(Debug, PartialEq, Eq)]
pub struct Node {
    pub id: usize,
    pub name: Option<String>,
    /// Whether this node has the input focus.
    pub focused: bool,
    /// The ids of the children, the one that leads to the focus first.
    pub focus: Vec<usize>,
    pub nodes: Vec<Node>,
}

/// Why a tree has no focused node to be found.
#[derive(Debug, Clone, Copy, PartialEq, Eq)]
pub enum TreeError {
    /// A node on the way is not focused and names no child to go on with.
    NoFocusedNode,
    /// A node on the way names a child that it does not have.
    FocusedNodeMissing,
}

/// `index` is the position of the first node of `nodes` with this id.
pub open spec fn is_first_with_id(nodes: Seq<Node>, id: usize, index: int) -> bool {
    &&& 0 <= index < nodes.len()
    &&& nodes[index].id == id
    &&& forall|earlier: int| 0 <= earlier < index ==> (#[trigger] nodes[earlier]).id != id
}

/// The position of the first node of `nodes` with this id, if there is one.
pub open spec fn first_with_id(nodes: Seq<Node>, id: usize) -> Option<int> {
    if exists|index: int| is_first_with_id(nodes, id, index) {
        Some(choose|index: int| is_first_with_id(nodes, id, index))
    } else {
        None
    }
}

/// The node that the walk from `node` along the focus marks ends at: `node`
/// itself when it is focused, otherwise what the walk from its first-named
/// child ends at.
pub open spec fn focus_target(node: Node) -> Result<Node, TreeError>
    decreases node,
{
    if node.focused {
        Ok(node)
    } else if node.focus@.len() == 0 {
        Err(TreeError::NoFocusedNode)
    } else {
        match first_with_id(node.nodes@, node.focus@[0]) {
            Some(next) => focus_target(node.nodes@[next]),
            None => Err(TreeError::FocusedNodeMissing),
        }
    }
}

/// Once the first node with an id is known, `first_with_id` is its position.
pub proof fn lemma_first_with_id_is(nodes: Seq<Node>, id: usize, index: int)
    requires
        is_first_with_id(nodes, id, index),
    ensures
        first_with_id(nodes, id) == Some(index),
{
}

impl Node {
    /// Walks from this node along the focus marks to the focused node.
    pub fn find_focused_node(self) -> (r: Result<Node, TreeError>)
        ensures
            r == focus_target(self),
    {
        let mut node = self;
        while !node.focused
            invariant
                focus_target(node) == focus_target(self),
            decreases node,
        {
            let ghost before = node;
            if node.focus.len() == 0 {
                return Err(TreeError::NoFocusedNode);
            }
            let wanted = node.focus[0];
            let mut children = node.nodes;
            let mut i: usize = 0;
            while i < children.len() && children[i].id != wanted
                invariant
                    i <= children.len(),
                    forall|k: int| 0 <= k < i ==> (#[trigger] children@[k]).id != wanted,
                decreases children.len() - i,
            {
                i += 1;
            }
            if i == children.len() {
                return Err(TreeError::FocusedNodeMissing);
            }
            proof {
                lemma_first_with_id_is(before.nodes@, wanted, i as int);
            }
            node = children.swap_remove(i);
        }
        Ok(node)
    }
}

/// What changed about a window.
#[derive(Debug, Clone, Copy, PartialEq, Eq)]
pub enum WindowChange {
    New,
    Close,
    Focus,
    Title,
    FullscreenMode,
    Move,
    Floating,
    Urgent,
    Mark,
}

/// A window notification: what changed, and the window's container.
#[derive(Debug, PartialEq, Eq)]
pub struct WindowData {
    pub change: WindowChange,
    pub container: Node,
}

/// A notification of the session.
#[derive(Debug, PartialEq, Eq)]
pub enum SessionEvent {
    Window(WindowData),
    /// The window manager shuts down or restarts.
    Shutdown,
    /// A notification of a kind that was not subscribed to.
    Other,
}

/// What the watch does with a notification.
#[derive(Debug, Clone, PartialEq, Eq)]
pub enum SessionAction {
    /// Focus changed: hand the step to the controller.
    Focus(FocusStep),
    /// Nothing to do.
    Skip,
    /// The session is over; the watch ends without an error.
    Shutdown,
    /// The session broke its protocol; the watch must not go on.
    Unexpected,
}

/// A character of the ASCII range.
pub open spec fn is_ascii_char(c: char) -> bool {
    (c as u32) < 128
}

/// The ASCII characters of a text, in their order.
pub open spec fn ascii_part(name: Seq<char>) -> Seq<char> {
    name.filter(|c: char| is_ascii_char(c))
}

/// The identity of a window with this name: the name without the characters
/// outside ASCII. A window without a name has none.
pub open spec fn node_identity(name: Option<String>) -> Option<Seq<char>> {
    match name {
        Some(name) => Some(ascii_part(name@)),
        None => None,
    }
}

/// What a notification calls for, given the identity that was seen last.
pub open spec fn action_for(last: Option<Seq<char>>, event: SessionEvent) -> Option<FocusStepView> {
    match event {
        SessionEvent::Window(data) if data.change == WindowChange::Focus => Some(
            FocusStepView { previous: last, current: node_identity(data.container.name) },
        ),
        _ => None,
    }
}

/// The ASCII characters of a name, in their order.
pub fn ascii_only(name: &str) -> (r: String)
    ensures
        r@ == ascii_part(name@),
{
    let mut kept = String::new();
    for c in it: name.chars()
        invariant
            it.seq() == name@,
            kept@ == ascii_part(name@.take(it.index())),
    {
        proof {
            let pred = |c: char| is_ascii_char(c);
            assert(name@.take(it.index() + 1) =~= name@.take(it.index()).push(c));
            name@.take(it.index()).lemma_filter_push(c, pred);
        }
        if (c as u32) < 128 {
            push_char(&mut kept, c);
        }
    }
    assert(name@.take(name@.len() as int) =~= name@);
    kept
}

/// Why a session cannot be watched.
#[derive(Debug, Clone, Copy, PartialEq, Eq)]
pub enum SessionError {
    /// The session refused the subscription to its notifications.
    SubscribeFailed,
}

/// Whether the session accepted the subscription.
pub fn subscribed(success: bool) -> (r: Result<(), SessionError>)
    ensures
        r is Ok <==> success,
        !success ==> r == Err::<(), SessionError>(SessionError::SubscribeFailed),
{
    if success {
        Ok(())
    } else {
        Err(SessionError::SubscribeFailed)
    }
}

/// Takes one notification of the session. A window notification that says
/// focus changed gives the step from the window seen last to the window of
/// the notification, which the tracker then remembers. Any other window
/// notification is skipped; a shutdown ends the watch; a notification of
/// another kind is a breach of the protocol. None of these changes what the
/// tracker remembers.
pub fn session_action(tracker: &mut FocusTracker, event: SessionEvent) -> (r: SessionAction)
    ensures
        match action_for(old(tracker).last(), event) {
            Some(step) => {
                &&& r matches SessionAction::Focus(taken) && taken@ == step
                &&& final(tracker).last() == step.current
            },
            None => final(tracker).last() == old(tracker).last() && r == match event {
                SessionEvent::Window(_) => SessionAction::Skip,
                SessionEvent::Shutdown => SessionAction::Shutdown,
                SessionEvent::Other => SessionAction::Unexpected,
            },
        },
{
    match event {
        SessionEvent::Window(data) => {
            match data.change {
                WindowChange::Focus => {
                    let identity = match data.container.name {
                        Some(name) => Some(ascii_only(name.as_str())),
                        None => None,
                    };
                    SessionAction::Focus(tracker.advance(identity))
                },
                _ => SessionAction::Skip,
            }
        },
        SessionEvent::Shutdown => SessionAction::Shutdown,
        SessionEvent::Other => SessionAction::Unexpected,
    }
}

} // verus!

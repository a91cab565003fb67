use layerwatch::focus::{FocusStep, FocusTracker};
use layerwatch::i3::{
    ascii_only, session_action, subscribed, Node, SessionAction, SessionError, SessionEvent,
    TreeError, WindowChange, WindowData,
};

fn leaf(id: usize, focused: bool) -> Node {
    Node { id, name: None, focused, focus: vec![], nodes: vec![] }
}

fn branch(id: usize, focus: Vec<usize>, nodes: Vec<Node>) -> Node {
    Node { id, name: None, focused: false, focus, nodes }
}

fn named(name: Option<&str>) -> Node {
    Node { id: 1, name: name.map(|s| s.to_string()), focused: true, focus: vec![], nodes: vec![] }
}

fn focus_event(name: Option<&str>) -> SessionEvent {
    SessionEvent::Window(WindowData { change: WindowChange::Focus, container: named(name) })
}

#[test]
fn focused_root_is_the_answer() {
    let root = Node { id: 1, name: None, focused: true, focus: vec![2], nodes: vec![leaf(2, true)] };
    assert_eq!(root.find_focused_node().map(|n| n.id), Ok(1));
}

#[test]
fn walk_follows_the_first_focus_mark() {
    let tree = branch(
        1,
        vec![3, 2],
        vec![
            branch(2, vec![4], vec![leaf(4, true)]),
            branch(3, vec![6, 5], vec![leaf(5, true), leaf(6, true)]),
        ],
    );
    let found = tree.find_focused_node().unwrap();
    assert_eq!(found.id, 6);
    assert!(found.focused);
}

#[test]
fn walk_takes_the_first_child_with_the_id() {
    let first = Node { id: 2, name: Some("first".to_string()), focused: true, focus: vec![], nodes: vec![] };
    let second = Node { id: 2, name: Some("second".to_string()), focused: true, focus: vec![], nodes: vec![] };
    let tree = branch(1, vec![2], vec![leaf(9, true), first, second]);
    assert_eq!(tree.find_focused_node().unwrap().name, Some("first".to_string()));
}

#[test]
fn walk_fails_without_focus_marks() {
    assert_eq!(leaf(1, false).find_focused_node(), Err(TreeError::NoFocusedNode));
    let tree = branch(1, vec![2], vec![branch(2, vec![], vec![leaf(3, true)])]);
    assert_eq!(tree.find_focused_node(), Err(TreeError::NoFocusedNode));
}

#[test]
fn walk_fails_on_a_mark_without_child() {
    let tree = branch(1, vec![7], vec![leaf(2, true)]);
    assert_eq!(tree.find_focused_node(), Err(TreeError::FocusedNodeMissing));
    assert_eq!(branch(1, vec![7], vec![]).find_focused_node(), Err(TreeError::FocusedNodeMissing));
}

#[test]
fn ascii_only_drops_other_characters() {
    assert_eq!(ascii_only("plain"), "plain");
    assert_eq!(ascii_only("caf\u{e9} \u{2014} na\u{ef}ve"), "caf  nave");
    assert_eq!(ascii_only("\u{65e5}\u{672c}\u{8a9e}"), "");
    assert_eq!(ascii_only(""), "");
    assert_eq!(ascii_only("a\u{7f}\u{80}b\n"), "a\u{7f}b\n");
}

#[test]
fn subscription_must_succeed() {
    assert_eq!(subscribed(true), Ok(()));
    assert_eq!(subscribed(false), Err(SessionError::SubscribeFailed));
}

#[test]
fn focus_notifications_become_steps() {
    let mut tracker = FocusTracker::new();
    assert_eq!(
        session_action(&mut tracker, focus_event(Some("Firefox \u{2014} caf\u{e9}"))),
        SessionAction::Focus(FocusStep { previous: None, current: Some("Firefox  caf".to_string()) })
    );
    assert_eq!(
        session_action(&mut tracker, focus_event(Some("kitty"))),
        SessionAction::Focus(FocusStep {
            previous: Some("Firefox  caf".to_string()),
            current: Some("kitty".to_string())
        })
    );
    assert_eq!(
        session_action(&mut tracker, focus_event(None)),
        SessionAction::Focus(FocusStep { previous: Some("kitty".to_string()), current: None })
    );
    assert_eq!(
        session_action(&mut tracker, focus_event(Some("x"))),
        SessionAction::Focus(FocusStep { previous: None, current: Some("x".to_string()) })
    );
}

#[test]
fn other_notifications_leave_the_tracker_alone() {
    let mut tracker = FocusTracker::new();
    session_action(&mut tracker, focus_event(Some("a")));
    for change in [
        WindowChange::New,
        WindowChange::Close,
        WindowChange::Title,
        WindowChange::FullscreenMode,
        WindowChange::Move,
        WindowChange::Floating,
        WindowChange::Urgent,
        WindowChange::Mark,
    ] {
        let event = SessionEvent::Window(WindowData { change, container: named(Some("b")) });
        assert_eq!(session_action(&mut tracker, event), SessionAction::Skip);
    }
    assert_eq!(session_action(&mut tracker, SessionEvent::Shutdown), SessionAction::Shutdown);
    assert_eq!(session_action(&mut tracker, SessionEvent::Other), SessionAction::Unexpected);
    assert_eq!(
        session_action(&mut tracker, focus_event(Some("c"))),
        SessionAction::Focus(FocusStep {
            previous: Some("a".to_string()),
            current: Some("c".to_string())
        })
    );
}

//! The focus controller: from the stream of focus changes to the layer
//! changes that the keyboard is asked for.
//!
//! The controller remembers which rule the focused window selected last. It
//! asks for a rule's target layer when focus enters a window of that rule
//! from anywhere else, and for the rule's base layer when focus leaves for a
//! window that no rule selects. Rules are told apart by their position, so
//! two rules with equal content are still two rules.
//!
//! The rule that focus leaves is taken from the state, never looked up again
//! from the identity of the window that had focus before: the state names
//! exactly the rule which that window selects.
//!
//! A device error while watching ends the watch: `after_command` hands it
//! back as the reason.

use crate::config::{first_match, lemma_first_match, EntryView, WindowWatcherConfig};
use crate::keyboard::{DeviceError, KeyboardResponse, Operation};
use crate::text::optional_view;
use vstd::prelude::*;

verus! {

/// What the controller remembers between focus changes.
#[derive(Debug, Clone, Copy, PartialEq, Eq)]
pub enum FocusState {
    /// The focused window selects no rule.
    Unmatched,
    /// The focused window selects the rule at this position.
    Matched(usize),
}

/// One focus change: the identity of the window that had focus before, and
/// of the window that has it now. A window without a name has no identity.
#[derive(Debug, Clone, PartialEq, Eq)]
pub struct FocusStep {
    pub previous: Option<String>,
    pub current: Option<String>,
}

/// One focus change as a mathematical value.
pub struct FocusStepView {
    pub previous: Option<Seq<char>>,
    pub current: Option<Seq<char>>,
}

impl View for FocusStep {
    type V = FocusStepView;

    open spec fn view(&self) -> FocusStepView {
        FocusStepView {
            previous: optional_view(self.previous),
            current: optional_view(self.current),
        }
    }
}

/// Remembers the identity of the window that had focus last, for event
/// sources that report only the window that gained focus.
pub struct FocusTracker {
    last: Option<String>,
}

impl FocusTracker {
    /// The identity of the window that had focus last.
    pub closed spec fn last(self) -> Option<Seq<char>> {
        optional_view(self.last)
    }

    /// A tracker that has seen no window yet.
    pub fn new() -> (r: FocusTracker)
        ensures
            r.last() is None,
    {
        FocusTracker { last: None }
    }

    /// Takes the identity of the window that gained focus and gives the step
    /// from the window seen last to this one, which is then remembered.
    pub fn advance(&mut self, current: Option<String>) -> (r: FocusStep)
        ensures
            r@ == (FocusStepView { previous: old(self).last(), current: optional_view(current) }),
            final(self).last() == optional_view(current),
    {
        let previous = self.last.take();
        self.last = current.clone();
        FocusStep { previous, current }
    }
}

/// The rule that the window now in focus selects.
pub open spec fn rule_for(rules: Seq<EntryView>, current: Option<Seq<char>>) -> Option<int> {
    match current {
        Some(name) => first_match(rules, name),
        None => None,
    }
}

/// The state after a focus change. It depends on the new window alone.
pub open spec fn next_state(rules: Seq<EntryView>, current: Option<Seq<char>>) -> FocusState {
    match rule_for(rules, current) {
        Some(index) => FocusState::Matched(index as usize),
        None => FocusState::Unmatched,
    }
}

/// The request that changes to `layer`, if there is a layer.
pub open spec fn layer_change(layer: Option<u8>) -> Option<Operation> {
    match layer {
        Some(layer) => Some(Operation::ChangeLayer(layer)),
        None => None,
    }
}

/// The request that a focus change calls for in `state`: the target layer of
/// the rule that the new window selects, unless that rule was selected
/// already; the base layer of the rule that is left, when the new window
/// selects none; nothing where a rule names no such layer.
pub open spec fn command(rules: Seq<EntryView>, state: FocusState, current: Option<Seq<char>>) -> Option<
    Operation,
> {
    match rule_for(rules, current) {
        Some(index) => if state == FocusState::Matched(index as usize) {
            None
        } else {
            layer_change(rules[index].to_layer)
        },
        None => match state {
            FocusState::Matched(left) => layer_change(rules[left as int].base_layer),
            FocusState::Unmatched => None,
        },
    }
}

/// A state that names a rule names one of `rules`.
pub open spec fn state_fits(rules: Seq<EntryView>, state: FocusState) -> bool {
    match state {
        FocusState::Matched(index) => index < rules.len(),
        FocusState::Unmatched => true,
    }
}

/// The state machine that turns focus changes into layer changes.
pub struct FocusLayerController {
    config: WindowWatcherConfig,
    state: FocusState,
}

impl FocusLayerController {
    #[verifier::type_invariant]
    spec fn fits(self) -> bool {
        state_fits(self.config@, self.state)
    }

    /// The rules that the controller works with.
    pub closed spec fn rules(self) -> Seq<EntryView> {
        self.config@
    }

    /// The state that the controller is in.
    pub closed spec fn state(self) -> FocusState {
        self.state
    }

    /// A controller for these rules, in state `Unmatched`.
    pub fn new(config: WindowWatcherConfig) -> (r: FocusLayerController)
        ensures
            r.rules() == config@,
            r.state() == FocusState::Unmatched,
    {
        FocusLayerController { config, state: FocusState::Unmatched }
    }

    /// The rules that the controller works with.
    pub fn config(&self) -> (r: &WindowWatcherConfig)
        ensures
            r@ == self.rules(),
    {
        &self.config
    }

    /// The state that the controller is in.
    pub fn current_state(&self) -> (r: FocusState)
        ensures
            r == self.state(),
            state_fits(self.rules(), r),
    {
        proof {
            use_type_invariant(self);
        }
        self.state
    }

    /// Takes one focus change and returns the request to send to the
    /// keyboard, if the change calls for one. The rule that focus leaves is
    /// the one that the state names; `step.previous` plays no part.
    pub fn on_focus(&mut self, step: &FocusStep) -> (r: Option<Operation>)
        ensures
            final(self).rules() == old(self).rules(),
            final(self).state() == next_state(old(self).rules(), step@.current),
            r == command(old(self).rules(), old(self).state(), step@.current),
    {
        proof {
            use_type_invariant(&*self);
        }
        let matched = match &step.current {
            Some(name) => self.config.match_index(name.as_str()),
            None => None,
        };
        match matched {
            Some(index) => {
                let entered = match self.state {
                    FocusState::Matched(held) => held != index,
                    FocusState::Unmatched => true,
                };
                self.state = FocusState::Matched(index);
                if entered {
                    match self.config.entries[index].to_layer {
                        Some(layer) => Some(Operation::ChangeLayer(layer)),
                        None => None,
                    }
                } else {
                    None
                }
            },
            None => {
                let left = self.state;
                self.state = FocusState::Unmatched;
                match left {
                    FocusState::Matched(held) => match self.config.entries[held].base_layer {
                        Some(layer) => Some(Operation::ChangeLayer(layer)),
                        None => None,
                    },
                    FocusState::Unmatched => None,
                }
            },
        }
    }
}

/// What the watch does once a request was sent: it goes on after a reply,
/// whatever the reply holds, and ends with the device's error after a
/// failure.
pub fn after_command(outcome: Result<KeyboardResponse, DeviceError>) -> (r: Result<(), DeviceError>)
    ensures
        match outcome {
            Ok(_) => r is Ok,
            Err(error) => r == Err::<(), DeviceError>(error),
        },
{
    match outcome {
        Ok(_) => Ok(()),
        Err(error) => Err(error),
    }
}

/// Reporting the same window twice asks for nothing the second time.
pub proof fn lemma_repeated_focus_is_silent(rules: Seq<EntryView>, current: Option<Seq<char>>)
    ensures
        command(rules, next_state(rules, current), current) is None,
{
}

/// A request is made only when the state changes: a focus change that leaves
/// the state as it is asks for nothing.
pub proof fn lemma_request_only_on_change(
    rules: Seq<EntryView>,
    state: FocusState,
    current: Option<Seq<char>>,
)
    ensures
        command(rules, state, current) is Some ==> next_state(rules, current) != state,
{
}

/// After a focus change, the state names the rule that the window now in
/// focus selects. At the next change that window is the previous one, so the
/// rule that is left is the rule that the previous identity would give.
pub proof fn lemma_state_names_rule_of_window(config: WindowWatcherConfig, window: Option<Seq<char>>)
    ensures
        match next_state(config@, window) {
            FocusState::Matched(index) => rule_for(config@, window) == Some(index as int),
            FocusState::Unmatched => rule_for(config@, window) is None,
        },
{
    if let Some(name) = window {
        lemma_first_match(config@, name);
        assert(config@.len() == config.entries.len());
    }
}

/// Leaving a rule's window for a window that no rule selects asks for the
/// rule's base layer.
pub proof fn lemma_leaving_asks_for_base(
    config: WindowWatcherConfig,
    inside: Option<Seq<char>>,
    away: Option<Seq<char>>,
)
    requires
        rule_for(config@, inside) is Some,
        rule_for(config@, away) is None,
    ensures
        command(config@, next_state(config@, inside), away) == layer_change(
            config@[rule_for(config@, inside).unwrap()].base_layer,
        ),
{
    lemma_first_match(config@, inside.unwrap());
    assert(config@.len() == config.entries.len());
}

/// Once focus has gone to a window that no rule selects, the request for any
/// window is what it would be at the start: nothing of what came before is
/// held against it.
pub proof fn lemma_reentry_asks_again(
    rules: Seq<EntryView>,
    away: Option<Seq<char>>,
    back: Option<Seq<char>>,
)
    requires
        rule_for(rules, away) is None,
    ensures
        next_state(rules, away) == FocusState::Unmatched,
        command(rules, next_state(rules, away), back) == command(
            rules,
            FocusState::Unmatched,
            back,
        ),
{
}

/// Entering a rule's window from the start, leaving it for a window that no
/// rule selects, and entering it again asks for the rule's target layer, its
/// base layer, and its target layer again.
pub proof fn lemma_enter_leave_enter(
    config: WindowWatcherConfig,
    inside: Option<Seq<char>>,
    away: Option<Seq<char>>,
)
    requires
        rule_for(config@, inside) is Some,
        rule_for(config@, away) is None,
    ensures
        ({
            let rule = config@[rule_for(config@, inside).unwrap()];
            &&& command(config@, FocusState::Unmatched, inside) == layer_change(rule.to_layer)
            &&& command(config@, next_state(config@, inside), away) == layer_change(
                rule.base_layer,
            )
            &&& command(config@, next_state(config@, away), inside) == layer_change(rule.to_layer)
        }),
{
    lemma_leaving_asks_for_base(config, inside, away);
    lemma_reentry_asks_again(config@, away, inside);
}

} // verus!

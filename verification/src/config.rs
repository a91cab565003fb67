//! Window rules: how a rule entry inherits from the defaults, and which rule,
//! if any, a window's name selects.
//!
//! Rules are kept in the order in which they were declared, and the first
//! rule that selects a name wins. Patterns are compared without regard to
//! case and match anywhere in the name.

use crate::text::{
    any_occurs, contains_any, lowercase, lowercase_all, to_lowercase, to_lowercase_all, views,
};
use vstd::prelude::*;

verus! {

/// One window rule: the patterns that select a window, the patterns that rule
/// it out, the layer to switch to when such a window gains focus, and the
/// layer to go back to when it loses focus.
#[derive(Debug, Clone, PartialEq, Eq)]
pub struct WindowWatcherEntry {
    pub includes: Vec<String>,
    pub exclude: Vec<String>,
    pub base_layer: Option<u8>,
    pub to_layer: Option<u8>,
}

/// A window rule as a mathematical value.
pub struct EntryView {
    pub includes: Seq<Seq<char>>,
    pub exclude: Seq<Seq<char>>,
    pub base_layer: Option<u8>,
    pub to_layer: Option<u8>,
}

impl View for WindowWatcherEntry {
    type V = EntryView;

    open spec fn view(&self) -> EntryView {
        EntryView {
            includes: views(self.includes@),
            exclude: views(self.exclude@),
            base_layer: self.base_layer,
            to_layer: self.to_layer,
        }
    }
}

/// Whether the patterns written in `includes` and `exclude` select `text`,
/// comparing as written: some pattern of `includes` occurs in `text`, and no
/// pattern of `exclude` does.
pub open spec fn selects(includes: Seq<Seq<char>>, exclude: Seq<Seq<char>>, text: Seq<char>) -> bool {
    any_occurs(includes, text) && !any_occurs(exclude, text)
}

impl EntryView {
    /// Whether the rule selects a window of this name: the comparison of
    /// `selects`, made on the lower-case forms of the patterns and the name.
    pub open spec fn matches(self, name: Seq<char>) -> bool {
        selects(lowercase_all(self.includes), lowercase_all(self.exclude), lowercase(name))
    }
}

/// A list of patterns as a rule source may write it: not at all, as one
/// pattern, or as a list.
#[derive(Debug, Clone, PartialEq, Eq)]
pub enum PatternSource {
    Absent,
    One(String),
    Many(Vec<String>),
}

impl PatternSource {
    /// The patterns that the source gives.
    pub open spec fn patterns(self) -> Seq<Seq<char>> {
        match self {
            PatternSource::Absent => Seq::empty(),
            PatternSource::One(pattern) => seq![pattern@],
            PatternSource::Many(list) => views(list@),
        }
    }

    /// The list of patterns that the source gives: none, the one, or the
    /// list as it stands.
    pub fn into_patterns(self) -> (r: Vec<String>)
        ensures
            views(r@) == self.patterns(),
    {
        match self {
            PatternSource::Absent => {
                let list: Vec<String> = Vec::new();
                list
            },
            PatternSource::One(pattern) => {
                let mut list: Vec<String> = Vec::new();
                list.push(pattern);
                list
            },
            PatternSource::Many(list) => list,
        }
    }
}

/// The values that a rule entry takes where it gives none of its own.
#[derive(Debug, Clone, PartialEq, Eq)]
pub struct WindowWatcherGlobalConfig {
    pub exclude: Option<Vec<String>>,
    pub includes: Option<Vec<String>>,
    pub base_layer: Option<u8>,
    pub to_layer: Option<u8>,
}

/// The defaults as a mathematical value.
pub struct GlobalView {
    pub exclude: Option<Seq<Seq<char>>>,
    pub includes: Option<Seq<Seq<char>>>,
    pub base_layer: Option<u8>,
    pub to_layer: Option<u8>,
}

/// The patterns of an optional list.
pub open spec fn optional_views(texts: Option<Vec<String>>) -> Option<Seq<Seq<char>>> {
    match texts {
        Some(list) => Some(views(list@)),
        None => None,
    }
}

impl View for WindowWatcherGlobalConfig {
    type V = GlobalView;

    open spec fn view(&self) -> GlobalView {
        GlobalView {
            exclude: optional_views(self.exclude),
            includes: optional_views(self.includes),
            base_layer: self.base_layer,
            to_layer: self.to_layer,
        }
    }
}

/// A list of patterns after inheritance: the entry's own list unless it is
/// empty and the defaults give one.
pub open spec fn inherited_patterns(own: Seq<Seq<char>>, default: Option<Seq<Seq<char>>>) -> Seq<
    Seq<char>,
> {
    match default {
        Some(list) if own.len() == 0 => list,
        _ => own,
    }
}

/// A layer after inheritance: the entry's own layer if it gives one,
/// otherwise the default.
pub open spec fn inherited_layer(own: Option<u8>, default: Option<u8>) -> Option<u8> {
    match own {
        Some(layer) => Some(layer),
        None => default,
    }
}

impl GlobalView {
    /// The entry with every field that it leaves open taken from the
    /// defaults. A field that the entry gives is never replaced.
    pub open spec fn merged(self, entry: EntryView) -> EntryView {
        EntryView {
            includes: inherited_patterns(entry.includes, self.includes),
            exclude: inherited_patterns(entry.exclude, self.exclude),
            base_layer: inherited_layer(entry.base_layer, self.base_layer),
            to_layer: inherited_layer(entry.to_layer, self.to_layer),
        }
    }
}

/// A copy of a list of strings.
fn copy_texts(texts: &Vec<String>) -> (r: Vec<String>)
    ensures
        views(r@) == views(texts@),
{
    let mut copy: Vec<String> = Vec::new();
    let mut i: usize = 0;
    while i < texts.len()
        invariant
            i <= texts.len(),
            copy.len() == i,
            forall|k: int| 0 <= k < i ==> (#[trigger] copy[k])@ == texts[k]@,
        decreases texts.len() - i,
    {
        copy.push(texts[i].clone());
        i += 1;
    }
    copy
}

impl WindowWatcherGlobalConfig {
    /// Fills what `other` leaves open from these defaults.
    pub fn apply_defaults(&self, other: WindowWatcherEntry) -> (r: WindowWatcherEntry)
        ensures
            r@ == self@.merged(other@),
    {
        let mut other = other;
        if let Some(ref includes) = self.includes {
            if other.includes.is_empty() {
                other.includes = copy_texts(includes);
            }
        }
        if let Some(ref exclude) = self.exclude {
            if other.exclude.is_empty() {
                other.exclude = copy_texts(exclude);
            }
        }
        if other.base_layer.is_none() {
            other.base_layer = self.base_layer;
        }
        if other.to_layer.is_none() {
            other.to_layer = self.to_layer;
        }
        other
    }
}

/// The window rules, in the order in which they were declared.
#[derive(Debug, Clone, PartialEq, Eq)]
pub struct WindowWatcherConfig {
    pub entries: Vec<WindowWatcherEntry>,
}

impl View for WindowWatcherConfig {
    type V = Seq<EntryView>;

    open spec fn view(&self) -> Seq<EntryView> {
        Seq::new(self.entries@.len(), |i: int| self.entries@[i]@)
    }
}

/// Rule `index` selects `name`, and no rule before it does.
pub open spec fn is_first_match(rules: Seq<EntryView>, name: Seq<char>, index: int) -> bool {
    &&& 0 <= index < rules.len()
    &&& rules[index].matches(name)
    &&& forall|earlier: int| 0 <= earlier < index ==> !(#[trigger] rules[earlier]).matches(name)
}

/// The position of the first rule that selects `name`, if any rule does.
pub open spec fn first_match(rules: Seq<EntryView>, name: Seq<char>) -> Option<int> {
    if exists|index: int| is_first_match(rules, name, index) {
        Some(choose|index: int| is_first_match(rules, name, index))
    } else {
        None
    }
}

/// Where rule `index` is the first to select `name`, `first_match` gives it.
pub proof fn lemma_first_match_is(rules: Seq<EntryView>, name: Seq<char>, index: int)
    requires
        is_first_match(rules, name, index),
    ensures
        first_match(rules, name) == Some(index),
{
}

/// What `first_match` gives is a rule that selects `name`, before which no
/// rule does; and it gives nothing only where no rule selects `name`.
pub proof fn lemma_first_match(rules: Seq<EntryView>, name: Seq<char>)
    ensures
        first_match(rules, name) matches Some(index) ==> is_first_match(rules, name, index),
        first_match(rules, name) is None ==> forall|index: int|
            0 <= index < rules.len() ==> !(#[trigger] rules[index]).matches(name),
{
    if first_match(rules, name) is None {
        assert forall|index: int| 0 <= index < rules.len() implies !(#[trigger] rules[index]).matches(
            name,
        ) by {
            if rules[index].matches(name) {
                lemma_some_rule_is_first(rules, name, index);
            }
        }
    }
}

/// If some rule up to `index` selects `name`, one of them is the first.
proof fn lemma_some_rule_is_first(rules: Seq<EntryView>, name: Seq<char>, index: int)
    requires
        0 <= index < rules.len(),
        rules[index].matches(name),
    ensures
        exists|first: int| is_first_match(rules, name, first),
    decreases index,
{
    if exists|earlier: int| 0 <= earlier < index && (#[trigger] rules[earlier]).matches(name) {
        let earlier = choose|earlier: int|
            0 <= earlier < index && (#[trigger] rules[earlier]).matches(name);
        lemma_some_rule_is_first(rules, name, earlier);
    } else {
        assert(is_first_match(rules, name, index));
    }
}

/// A rule is what matching returns for a name exactly when it selects the
/// name. This leaves out one case only: a rule that selects the name after
/// another rule that selects it too, since the first such rule wins.
pub proof fn lemma_match_iff_selected(rules: Seq<EntryView>, name: Seq<char>, index: int)
    requires
        0 <= index < rules.len(),
        rules[index].matches(name) ==> forall|earlier: int|
            0 <= earlier < index ==> !(#[trigger] rules[earlier]).matches(name),
    ensures
        first_match(rules, name) == Some(index) <==> rules[index].matches(name),
{
    if rules[index].matches(name) {
        lemma_first_match_is(rules, name, index);
    } else {
        lemma_first_match(rules, name);
    }
}

/// A rule without patterns to select a window selects none.
pub proof fn lemma_no_patterns_no_match(rule: EntryView, name: Seq<char>)
    requires
        rule.includes.len() == 0,
    ensures
        !rule.matches(name),
{
}

/// Whether the patterns select the text, comparing as written: some string
/// of `includes` occurs in `text`, and no string of `exclude` does.
pub fn patterns_select(includes: &Vec<String>, exclude: &Vec<String>, text: &str) -> (r: bool)
    ensures
        r == selects(views(includes@), views(exclude@), text@),
{
    contains_any(includes, text) && !contains_any(exclude, text)
}

impl WindowWatcherEntry {
    /// Whether the rule selects a window of this name.
    pub fn selects_window(&self, window_name: &str) -> (r: bool)
        ensures
            r == self@.matches(window_name@),
    {
        let name = to_lowercase(window_name);
        let includes = to_lowercase_all(&self.includes);
        let exclude = to_lowercase_all(&self.exclude);
        patterns_select(&includes, &exclude, name.as_str())
    }
}

impl WindowWatcherConfig {
    /// Builds the rules from the entries as declared, each with what it
    /// leaves open taken from `defaults`. The order of the entries is kept.
    pub fn load_config(defaults: &WindowWatcherGlobalConfig, entries: Vec<WindowWatcherEntry>) -> (r:
        WindowWatcherConfig)
        ensures
            r@.len() == entries@.len(),
            forall|i: int| 0 <= i < entries@.len() ==> #[trigger] r@[i] == defaults@.merged(entries@[i]@),
    {
        let ghost declared = entries@;
        let mut merged: Vec<WindowWatcherEntry> = Vec::new();
        for entry in it: entries
            invariant
                it.seq() == declared,
                merged@.len() == it.index(),
                forall|k: int|
                    0 <= k < merged@.len() ==> (#[trigger] merged@[k])@ == defaults@.merged(
                        declared[k]@,
                    ),
        {
            merged.push(defaults.apply_defaults(entry));
        }
        WindowWatcherConfig { entries: merged }
    }

    /// The position of the first rule that selects a window of this name.
    pub fn match_index(&self, window_name: &str) -> (r: Option<usize>)
        ensures
            match r {
                Some(index) => first_match(self@, window_name@) == Some(index as int),
                None => first_match(self@, window_name@) is None,
            },
    {
        let name = to_lowercase(window_name);
        let mut i: usize = 0;
        while i < self.entries.len()
            invariant
                i <= self.entries.len(),
                name@ == lowercase(window_name@),
                forall|k: int| 0 <= k < i ==> !(#[trigger] self@[k]).matches(window_name@),
            decreases self.entries.len() - i,
        {
            let entry = &self.entries[i];
            let includes = to_lowercase_all(&entry.includes);
            let exclude = to_lowercase_all(&entry.exclude);
            if patterns_select(&includes, &exclude, name.as_str()) {
                proof {
                    lemma_first_match_is(self@, window_name@, i as int);
                }
                return Some(i);
            }
            i += 1;
        }
        None
    }

    /// The first rule that selects a window of this name, if any rule does.
    pub fn matches_window(&self, window_name: &str) -> (r: Option<&WindowWatcherEntry>)
        ensures
            match first_match(self@, window_name@) {
                Some(index) => r == Some(&self.entries[index]),
                None => r is None,
            },
    {
        match self.match_index(window_name) {
            Some(index) => Some(&self.entries[index]),
            None => None,
        }
    }
}

} // verus!

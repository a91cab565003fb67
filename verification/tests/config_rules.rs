use layerwatch::config::{
    patterns_select, PatternSource, WindowWatcherConfig, WindowWatcherEntry,
    WindowWatcherGlobalConfig,
};

fn texts(items: &[&str]) -> Vec<String> {
    items.iter().map(|s| s.to_string()).collect()
}

fn rule(includes: &[&str], exclude: &[&str]) -> WindowWatcherEntry {
    WindowWatcherEntry {
        includes: texts(includes),
        exclude: texts(exclude),
        base_layer: None,
        to_layer: None,
    }
}

#[test]
fn test_matches_window() {
    let config = WindowWatcherConfig {
        entries: vec![
            WindowWatcherEntry {
                includes: vec!["foo".to_string()],
                exclude: vec![],
                base_layer: None,
                to_layer: None,
            },
            WindowWatcherEntry {
                includes: vec!["baz".to_string()],
                exclude: vec!["bin".to_string()],
                base_layer: None,
                to_layer: None,
            },
        ],
    };

    assert!(config.matches_window("foo").is_some());
    assert!(config.matches_window("baz").is_some());
    assert!(config.matches_window("baz bin").is_none());
    assert!(config.matches_window("bin").is_none());
}

#[test]
fn match_returns_the_rule_that_selects() {
    let config = WindowWatcherConfig { entries: vec![rule(&["foo"], &[]), rule(&["baz"], &["bin"])] };
    assert_eq!(config.match_index("foo"), Some(0));
    assert_eq!(config.match_index("baz"), Some(1));
    assert_eq!(config.match_index("baz bin"), None);
    assert_eq!(config.match_index("bin"), None);
    assert_eq!(config.matches_window("foo"), Some(&config.entries[0]));
    assert_eq!(config.matches_window("baz"), Some(&config.entries[1]));
}

#[test]
fn first_declared_rule_wins() {
    let mut first = rule(&["term"], &[]);
    first.to_layer = Some(1);
    let mut second = rule(&["terminal"], &[]);
    second.to_layer = Some(2);
    let config = WindowWatcherConfig { entries: vec![first, second] };
    assert_eq!(config.match_index("my terminal"), Some(0));
    assert_eq!(config.matches_window("my terminal").unwrap().to_layer, Some(1));
}

#[test]
fn rules_with_equal_content_are_told_apart_by_position() {
    let config = WindowWatcherConfig { entries: vec![rule(&["a"], &["x"]), rule(&["a"], &[])] };
    assert_eq!(config.match_index("ax"), Some(1));
    assert_eq!(config.match_index("a"), Some(0));
}

#[test]
fn matching_ignores_case_on_both_sides() {
    let config = WindowWatcherConfig { entries: vec![rule(&["FireFox"], &["PRIVATE"])] };
    assert_eq!(config.match_index("Mozilla FIREFOX"), Some(0));
    assert_eq!(config.match_index("mozilla firefox"), Some(0));
    assert_eq!(config.match_index("firefox (Private browsing)"), None);
    assert!(config.entries[0].selects_window("fIrEfOx"));
}

#[test]
fn matching_is_by_substring_anywhere() {
    let config = WindowWatcherConfig { entries: vec![rule(&["oo"], &[])] };
    assert_eq!(config.match_index("foo"), Some(0));
    assert_eq!(config.match_index("oof"), Some(0));
    assert_eq!(config.match_index("o o"), None);
    assert_eq!(config.match_index(""), None);
}

#[test]
fn rule_without_patterns_selects_nothing() {
    let config = WindowWatcherConfig { entries: vec![rule(&[], &[])] };
    assert_eq!(config.match_index("anything"), None);
    assert_eq!(config.match_index(""), None);
    assert!(!config.entries[0].selects_window("anything"));
}

#[test]
fn empty_pattern_occurs_in_every_name() {
    let config = WindowWatcherConfig { entries: vec![rule(&[""], &[])] };
    assert_eq!(config.match_index("anything"), Some(0));
    assert_eq!(config.match_index(""), Some(0));
    let never = WindowWatcherConfig { entries: vec![rule(&["a"], &[""])] };
    assert_eq!(never.match_index("a"), None);
}

#[test]
fn no_rules_no_match() {
    let config = WindowWatcherConfig { entries: vec![] };
    assert_eq!(config.match_index("foo"), None);
    assert!(config.matches_window("foo").is_none());
}

#[test]
fn patterns_select_compares_as_written() {
    assert!(patterns_select(&texts(&["baz"]), &texts(&["bin"]), "baz"));
    assert!(!patterns_select(&texts(&["baz"]), &texts(&["bin"]), "baz bin"));
    assert!(!patterns_select(&texts(&["baz"]), &texts(&["bin"]), "bin"));
    assert!(!patterns_select(&texts(&["baz"]), &[].to_vec(), "BAZ"));
    assert!(patterns_select(&texts(&["x", "baz"]), &[].to_vec(), "a baz b"));
    assert!(!patterns_select(&[].to_vec(), &[].to_vec(), "baz"));
}

#[test]
fn defaults_fill_what_an_entry_leaves_open() {
    let defaults = WindowWatcherGlobalConfig {
        includes: Some(texts(&["x"])),
        exclude: None,
        base_layer: Some(1),
        to_layer: None,
    };
    let merged = defaults.apply_defaults(rule(&[], &[]));
    assert_eq!(
        merged,
        WindowWatcherEntry {
            includes: texts(&["x"]),
            exclude: vec![],
            base_layer: Some(1),
            to_layer: None,
        }
    );
}

#[test]
fn defaults_never_replace_what_an_entry_gives() {
    let defaults = WindowWatcherGlobalConfig {
        includes: Some(texts(&["x"])),
        exclude: Some(texts(&["y", "z"])),
        base_layer: Some(1),
        to_layer: Some(2),
    };
    let entry = WindowWatcherEntry {
        includes: texts(&["own"]),
        exclude: texts(&["not"]),
        base_layer: Some(7),
        to_layer: Some(8),
    };
    assert_eq!(defaults.apply_defaults(entry.clone()), entry);

    let partly = WindowWatcherEntry {
        includes: texts(&["own"]),
        exclude: vec![],
        base_layer: None,
        to_layer: Some(0),
    };
    assert_eq!(
        defaults.apply_defaults(partly),
        WindowWatcherEntry {
            includes: texts(&["own"]),
            exclude: texts(&["y", "z"]),
            base_layer: Some(1),
            to_layer: Some(0),
        }
    );
}

#[test]
fn empty_default_list_replaces_an_empty_list_by_itself() {
    let defaults = WindowWatcherGlobalConfig {
        includes: Some(vec![]),
        exclude: None,
        base_layer: None,
        to_layer: None,
    };
    assert_eq!(defaults.apply_defaults(rule(&[], &["e"])), rule(&[], &["e"]));
}

#[test]
fn load_config_keeps_the_declared_order() {
    let defaults = WindowWatcherGlobalConfig {
        includes: None,
        exclude: Some(texts(&["skip"])),
        base_layer: Some(0),
        to_layer: None,
    };
    let mut a = rule(&["a"], &[]);
    a.to_layer = Some(1);
    let mut b = rule(&["b"], &["other"]);
    b.base_layer = Some(4);
    let c = rule(&["c"], &[]);
    let config = WindowWatcherConfig::load_config(&defaults, vec![a, b, c]);
    assert_eq!(config.entries.len(), 3);
    assert_eq!(
        config.entries[0],
        WindowWatcherEntry {
            includes: texts(&["a"]),
            exclude: texts(&["skip"]),
            base_layer: Some(0),
            to_layer: Some(1),
        }
    );
    assert_eq!(
        config.entries[1],
        WindowWatcherEntry {
            includes: texts(&["b"]),
            exclude: texts(&["other"]),
            base_layer: Some(4),
            to_layer: None,
        }
    );
    assert_eq!(
        config.entries[2],
        WindowWatcherEntry {
            includes: texts(&["c"]),
            exclude: texts(&["skip"]),
            base_layer: Some(0),
            to_layer: None,
        }
    );
    assert_eq!(config.match_index("b"), Some(1));
    assert_eq!(config.match_index("b skip"), Some(1));
    assert_eq!(config.match_index("c skip"), None);
}

#[test]
fn load_config_of_no_entries_is_empty() {
    let defaults = WindowWatcherGlobalConfig {
        includes: Some(texts(&["x"])),
        exclude: None,
        base_layer: None,
        to_layer: None,
    };
    let config = WindowWatcherConfig::load_config(&defaults, vec![]);
    assert!(config.entries.is_empty());
}

#[test]
fn pattern_source_gives_none_one_or_the_list() {
    assert_eq!(PatternSource::Absent.into_patterns(), Vec::<String>::new());
    assert_eq!(PatternSource::One("a".to_string()).into_patterns(), texts(&["a"]));
    assert_eq!(PatternSource::Many(texts(&["a", "b"])).into_patterns(), texts(&["a", "b"]));
    assert_eq!(PatternSource::Many(vec![]).into_patterns(), Vec::<String>::new());
}

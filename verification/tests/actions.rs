use robin_editor::actions::{window_defaults, ActionGroup, Command};

#[test]
fn defaults_resolve_all_three_commands() {
    let g = window_defaults();
    assert_eq!(g.lookup("open"), Some(Command::Open));
    assert_eq!(g.lookup("save"), Some(Command::Save));
    assert_eq!(g.lookup("close"), Some(Command::Close));
}

#[test]
fn unknown_name_resolves_to_nothing() {
    let g = window_defaults();
    assert_eq!(g.lookup("quit"), None);
    assert_eq!(g.lookup(""), None);
}

#[test]
fn a_name_is_unique_within_its_group() {
    let mut g = ActionGroup::new();
    assert!(g.register("open".to_string(), Command::Open));
    assert!(!g.register("open".to_string(), Command::Close));
    // the refused registration left the first binding in place
    assert_eq!(g.lookup("open"), Some(Command::Open));
}

#[test]
fn registration_is_observable() {
    let mut g = ActionGroup::new();
    assert!(!g.contains("close"));
    assert!(g.register("close".to_string(), Command::Close));
    assert!(g.contains("close"));
    assert_eq!(g.lookup("close"), Some(Command::Close));
}

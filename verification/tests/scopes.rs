use kanden::command::scopes::{CommandScopeRegistry, CommandScopes};

#[test]
fn adding_a_scope_adds_the_scopes_above_it() {
    let mut registry = CommandScopeRegistry::new();
    assert_eq!(registry.scope_count(), 1);
    registry.add_scope("kanden.command.teleport");
    // "kanden", "kanden.command", "kanden.command.teleport", and the root.
    assert_eq!(registry.scope_count(), 4);
    assert_eq!(registry.edge_count(), 3);
    assert!(registry.has_scope("kanden"));
    assert!(registry.has_scope("kanden.command"));
    assert!(registry.has_scope("kanden.command.teleport"));
    assert!(registry.has_scope("root"));
    assert!(!registry.has_scope("command"));

    registry.add_scope("kanden.admin");
    assert_eq!(registry.scope_count(), 5);
    registry.link("kanden.admin", "kanden.command.teleport");
    assert_eq!(registry.scope_count(), 5);
    assert_eq!(registry.edge_count(), 5);
    assert!(registry.grants("kanden.admin", "kanden.command.teleport"));
}

#[test]
fn adding_a_known_scope_changes_nothing() {
    let mut registry = CommandScopeRegistry::new();
    registry.add_scope("kanden.command");
    registry.add_scope("kanden.command.tp");
    assert_eq!(registry.scope_count(), 4);
    registry.add_scope("kanden.command");
    registry.add_scope("kanden");
    registry.add_scope("root");
    assert_eq!(registry.scope_count(), 4);
    assert_eq!(registry.edge_count(), 3);
}

#[test]
fn removing_a_scope() {
    let mut registry = CommandScopeRegistry::new();
    registry.add_scope("kanden.command");
    registry.add_scope("kanden.command.tp");
    assert_eq!(registry.scope_count(), 4);
    registry.remove_scope("kanden.command.tp");
    assert_eq!(registry.scope_count(), 3);
    assert_eq!(registry.edge_count(), 2);
    assert!(!registry.has_scope("kanden.command.tp"));
    registry.remove_scope("unknown");
    assert_eq!(registry.scope_count(), 3);
    // The scope can be added again.
    registry.add_scope("kanden.command.tp");
    assert_eq!(registry.scope_count(), 4);
    assert!(registry.grants("kanden", "kanden.command.tp"));
}

#[test]
fn a_scope_grants_what_is_below_it() {
    let mut registry = CommandScopeRegistry::new();
    registry.add_scope("kanden.command");
    registry.add_scope("kanden.command.tp");
    assert!(registry.grants("kanden.command", "kanden.command.tp"));
    assert!(!registry.grants("kanden.command.tp", "kanden.command"));
    assert!(registry.grants("kanden", "kanden.command.tp"));
    assert!(registry.grants("root", "kanden.command.tp"));
    assert!(!registry.grants("kanden.command.tp", "root"));
    // A scope grants itself, known or not.
    assert!(registry.grants("kanden.command.tp", "kanden.command.tp"));
    assert!(registry.grants("unknown", "unknown"));
    assert!(!registry.grants("unknown", "kanden"));
    assert!(!registry.grants("kanden", "unknown"));
}

#[test]
fn any_of_several_scopes_may_grant() {
    let mut registry = CommandScopeRegistry::new();
    registry.add_scope("kanden.command");
    registry.add_scope("kanden.command.tp");
    registry.add_scope("kanden.admin");
    assert!(registry.any_grants(&vec!["kanden.admin", "kanden.command"], "kanden.command.tp"));
    assert!(!registry.any_grants(&vec!["kanden.admin"], "kanden.command.tp"));
    assert!(!registry.any_grants(&vec![], "kanden.command.tp"));
}

#[test]
fn linked_scopes_grant_each_other_one_way() {
    let mut registry = CommandScopeRegistry::new();
    registry.add_scope("kanden.command.tp");
    registry.link("kanden.admin", "kanden.command");
    assert!(registry.grants("kanden.admin", "kanden.command"));
    assert!(registry.grants("kanden.admin", "kanden.command.tp"));
    assert!(!registry.grants("kanden.command", "kanden.admin"));
    // Links may close a circle.
    registry.link("kanden.command.tp", "kanden.admin");
    assert!(registry.grants("kanden.command", "kanden.admin"));
    assert!(registry.grants("kanden.admin", "kanden.admin"));
    assert!(!registry.grants("kanden.admin", "kanden"));
}

#[test]
fn dots_separate_the_parts_of_a_scope() {
    let mut registry = CommandScopeRegistry::new();
    registry.add_scope("a..b");
    assert_eq!(registry.scope_count(), 4);
    assert!(registry.has_scope("a"));
    assert!(registry.has_scope("a."));
    assert!(registry.has_scope("a..b"));
    registry.add_scope("");
    assert_eq!(registry.scope_count(), 5);
    assert!(registry.has_scope(""));
    assert!(registry.grants("a", "a..b"));
}

#[test]
fn the_scopes_of_a_player() {
    let mut scopes = CommandScopes::new();
    assert!(!scopes.contains("kanden.command"));
    scopes.add("kanden.command");
    scopes.add("kanden.command");
    assert!(scopes.contains("kanden.command"));
    assert!(!scopes.contains("kanden"));
}

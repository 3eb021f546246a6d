//! Which entities the clear before a run drops.

use tuxedo::database::clearing::{
    clear_decision, entities_to_drop, is_listed, is_protected, plan_clear, ClearDecision,
};
use tuxedo::text::{ends_with, starts_with, str_equal};

fn names(list: &[&str]) -> Vec<String> {
    list.iter().map(|name| name.to_string()).collect()
}

/// What is left of `existing` once the entities to drop are gone.
fn cleared(existing: &Vec<String>, allow: &Vec<String>) -> Vec<String> {
    let dropped = entities_to_drop(existing, allow);
    existing.iter().filter(|name| !dropped.contains(name)).cloned().collect()
}

#[test]
fn names_of_the_store_are_protected() {
    for name in [
        "system.users",
        "system.",
        "admin.keys",
        "config.settings",
        "shop.system.roles",
        "shop.system.users",
        "shop.system.version",
        "shop.system.buckets",
        "shop.system.profile",
        "shop.system.js",
        "shop.system.views",
        ".system.views",
    ] {
        assert!(is_protected(name), "{} should be protected", name);
    }
}

#[test]
fn other_names_are_not_protected() {
    for name in [
        "users",
        "orders",
        "",
        "system",
        "systems.users",
        "admin",
        "config",
        "my.system.users.old",
        "System.users",
        "xsystem.users",
        "db.system.rolesx",
    ] {
        assert!(!is_protected(name), "{} should not be protected", name);
    }
}

#[test]
fn listed_entities_are_dropped() {
    let allow = names(&["users", "orders"]);
    assert_eq!(clear_decision("users", &allow), ClearDecision::Drop);
    assert_eq!(clear_decision("orders", &allow), ClearDecision::Drop);
}

#[test]
fn unlisted_entities_are_skipped() {
    let allow = names(&["users", "orders"]);
    assert_eq!(clear_decision("events", &allow), ClearDecision::SkipUnlisted);
    assert_eq!(clear_decision("user", &allow), ClearDecision::SkipUnlisted);
    assert_eq!(clear_decision("users", &Vec::new()), ClearDecision::SkipUnlisted);
}

#[test]
fn system_entities_are_never_dropped() {
    let allow = names(&["system.users", "admin.keys", "config.settings", "db.system.views"]);
    assert_eq!(clear_decision("system.users", &allow), ClearDecision::SkipSystem);
    assert_eq!(clear_decision("admin.keys", &allow), ClearDecision::SkipSystem);
    assert_eq!(clear_decision("config.settings", &allow), ClearDecision::SkipSystem);
    assert_eq!(clear_decision("db.system.views", &allow), ClearDecision::SkipSystem);

    let existing = names(&["system.users", "users", "admin.keys", "config.settings"]);
    let allow = names(&["system.users", "admin.keys", "config.settings", "users"]);
    assert_eq!(entities_to_drop(&existing, &allow), names(&["users"]));
    assert_eq!(
        cleared(&existing, &allow),
        names(&["system.users", "admin.keys", "config.settings"])
    );
}

#[test]
fn plan_has_one_decision_for_each_entity() {
    let existing = names(&["users", "system.profile", "events", "orders"]);
    let allow = names(&["orders", "users", "missing"]);
    assert_eq!(
        plan_clear(&existing, &allow),
        vec![
            ClearDecision::Drop,
            ClearDecision::SkipSystem,
            ClearDecision::SkipUnlisted,
            ClearDecision::Drop,
        ]
    );
    assert_eq!(entities_to_drop(&existing, &allow), names(&["users", "orders"]));
    assert_eq!(plan_clear(&Vec::new(), &allow), Vec::new());
}

#[test]
fn clearing_twice_is_clearing_once() {
    let existing = names(&["users", "system.profile", "events", "orders", "admin.x"]);
    let allow = names(&["orders", "users", "admin.x"]);
    let once = cleared(&existing, &allow);
    let twice = cleared(&once, &allow);
    assert_eq!(once, names(&["system.profile", "events", "admin.x"]));
    assert_eq!(twice, once);
    assert!(entities_to_drop(&once, &allow).is_empty());
}

#[test]
fn listing_is_by_whole_name() {
    let allow = names(&["users", "orders"]);
    assert!(is_listed(&allow, "users"));
    assert!(!is_listed(&allow, "user"));
    assert!(!is_listed(&allow, "users "));
    assert!(!is_listed(&Vec::new(), "users"));
}

#[test]
fn text_comparisons() {
    assert!(str_equal("", ""));
    assert!(str_equal("héllo", "héllo"));
    assert!(!str_equal("hello", "hellO"));
    assert!(!str_equal("hello", "hell"));
    assert!(starts_with("system.users", "system."));
    assert!(starts_with("abc", ""));
    assert!(starts_with("abc", "abc"));
    assert!(!starts_with("ab", "abc"));
    assert!(!starts_with("xsystem.", "system."));
    assert!(ends_with("db.system.js", ".system.js"));
    assert!(ends_with("abc", ""));
    assert!(ends_with("abc", "abc"));
    assert!(!ends_with("bc", "abc"));
    assert!(!ends_with("db.system.jsx", ".system.js"));
    assert!(ends_with("naïve.système", "système"));
}

use arcadia::perms::{build, has_perm};

#[test]
fn test_has_perm() {
    assert!(has_perm(&vec!["global.*".to_string()], "test")); // global.* implies test[.*]
    assert!(has_perm(&vec!["global.test".to_string()], "rpc.test")); // global.test implies rpc.test
    assert!(!has_perm(
        &vec!["global.test".to_string()],
        "rpc.view_bot_queue"
    )); // global.test does not imply rpc.view_bot_queue as global = rpc, test != view_bot_queue
    assert!(has_perm(
        &vec!["global.*".to_string()],
        "rpc.view_bot_queue"
    )); // global.* implies rpc.view_bot_queue
    assert!(has_perm(&vec!["rpc.*".to_string()], "rpc.ViewBotQueue")); // rpc.* implies rpc.view_bot_queue
    assert!(!has_perm(
        &vec!["rpc.BotClaim".to_string()],
        "rpc.ViewBotQueue"
    )); // rpc.BotClaim does not implies rpc.ViewBotQueue as BotClaim != ViewBotQueue
    assert!(!has_perm(&vec!["apps.*".to_string()], "rpc.ViewBotQueue")); // apps.* does not imply rpc.ViewBotQueue, apps != rpc
    assert!(!has_perm(&vec!["apps.*".to_string()], "rpc.*")); // apps.* does not imply rpc.*, apps != rpc despite the global permission
    assert!(!has_perm(&vec!["apps.test".to_string()], "rpc.test")); // apps.test does not imply rpc.test, apps != rpc despite the permissions being the same

    // Negator tests
    assert!(has_perm(&vec!["apps.*".to_string()], "apps.test")); // apps.* implies apps.test
    assert!(!has_perm(&vec!["~apps.*".to_string()], "apps.test")); // ~apps.* does not imply apps.test as it is negated
    assert!(!has_perm(
        &vec!["apps.*".to_string(), "~apps.test".to_string()],
        "apps.test"
    )); // apps.* does not imply apps.test due to negator ~apps.test
    assert!(!has_perm(
        &vec!["~apps.test".to_string(), "apps.*".to_string()],
        "apps.test"
    )); // apps.* does not imply apps.test due to negator ~apps.test. Same as above with different order of perms to test for ordering
    assert!(has_perm(&vec!["apps.test".to_string()], "apps.test")); // ~apps.* does not imply apps.test as it is negated
    assert!(has_perm(
        &vec!["apps.test".to_string(), "apps.*".to_string()],
        "apps.test"
    )); // More tests
    assert!(has_perm(
        &vec!["~apps.test".to_string(), "global.*".to_string()],
        "apps.test"
    )); // Test for global.* handling as a wildcard 'return true'
}

#[test]
fn build_joins_namespace_and_permission() {
    assert_eq!(build("rpc", "Claim"), "rpc.Claim");
    assert_eq!(build("", ""), ".");
}

#[test]
fn global_star_grants_everything() {
    let perms = vec!["global.*".to_string()];
    assert!(has_perm(&perms, "blog.create_entry"));
    assert!(has_perm(&perms, "anything"));
}

#[test]
fn empty_perms_grant_nothing() {
    assert!(!has_perm(&vec![], "rpc.Claim"));
}

#[test]
fn order_of_perms_does_not_matter() {
    let a = vec!["rpc.*".to_string(), "~rpc.Claim".to_string()];
    let b = vec!["~rpc.Claim".to_string(), "rpc.*".to_string()];
    assert_eq!(has_perm(&a, "rpc.Claim"), has_perm(&b, "rpc.Claim"));
    assert!(!has_perm(&a, "rpc.Claim"));
    assert!(has_perm(&a, "rpc.Approve"));
}

#[test]
fn adding_a_positive_perm_keeps_grants() {
    let a = vec!["rpc.Claim".to_string()];
    let b = vec!["rpc.Claim".to_string(), "apps.test".to_string()];
    assert!(has_perm(&a, "rpc.Claim"));
    assert!(has_perm(&b, "rpc.Claim"));
}

#[test]
fn bare_permission_is_namespace_wildcard() {
    assert!(has_perm(&vec!["rpc".to_string()], "rpc.Claim"));
}

#[test]
fn duplicated_perms_change_nothing() {
    let a = vec!["apps.test".to_string()];
    let b = vec!["apps.test".to_string(), "apps.test".to_string()];
    assert_eq!(has_perm(&a, "apps.test"), has_perm(&b, "apps.test"));
}

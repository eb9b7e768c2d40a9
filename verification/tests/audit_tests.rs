use platform_admin::audit::{
    actor_label, audit_groups, category_style, clock_label, day_heading, entry_visible,
    filter_logs, format_datetime_diff, format_json_diff, group_by_heading, log_category,
    log_stats, timestamp_label, AuditEntry, LogCategory, LogStats,
};

const ID_A: u128 = 0x550e8400e29b41d4a716446655440000;
const ID_B: u128 = 0x00000000000000000000000000000abc;

fn entry(action: &str, entity: &str, actor: Option<u128>, secs: i64) -> AuditEntry {
    AuditEntry {
        action_type: action.to_string(),
        entity_type: entity.to_string(),
        entity_id: ID_A,
        actor_id: actor,
        created_secs: secs,
        created_nanos: 0,
        ip_address: None,
    }
}

#[test]
fn categories_follow_the_first_matching_family() {
    assert_eq!(log_category("FEATURE_FLAG_ROLLOUT"), LogCategory::Flags);
    assert_eq!(log_category("subscription.created"), LogCategory::Billing);
    assert_eq!(log_category("tenant.provisioned"), LogCategory::Tenant);
    assert_eq!(log_category("LOGIN_FAILED"), LogCategory::Security);
    assert_eq!(log_category("ticket.opened"), LogCategory::Support);
    assert_eq!(log_category("backup.done"), LogCategory::System);
    // "user" is a security word, but "sub" (billing) is checked first
    assert_eq!(log_category("user.subscribed"), LogCategory::Billing);
    assert_eq!(category_style(LogCategory::Tenant), ("dot-ni", "cat-ni", "NI / Tenant"));
    assert_eq!(category_style(LogCategory::System), ("dot-system", "cat-system", "System"));
}

#[test]
fn ledger_filter_by_category_and_search() {
    let logs = vec![
        entry("LOGIN_FAILED", "User", None, 0),
        entry("invoice.paid", "Invoice", Some(ID_B), 0),
        entry("flag.toggled", "Flag", None, 0),
    ];
    assert_eq!(filter_logs(&logs, "all", ""), vec![0, 1, 2]);
    assert_eq!(filter_logs(&logs, "security", ""), vec![0]);
    assert_eq!(filter_logs(&logs, "billing", ""), vec![1]);
    assert_eq!(filter_logs(&logs, "flags", "FLAG"), vec![2]);
    assert_eq!(filter_logs(&logs, "ni", ""), Vec::<usize>::new());
    // the actor's id text is searched too
    assert_eq!(filter_logs(&logs, "all", "0abc"), vec![1]);
    // and the entity's id text
    assert_eq!(filter_logs(&logs, "all", "446655440000"), vec![0, 1, 2]);
    assert!(entry_visible("unknown", "", &logs[0]));
    assert!(!entry_visible("all", "nothing-like-this", &logs[0]));
}

#[test]
fn ledger_counts() {
    let logs = vec![
        entry("user.subscribed", "User", None, 0),
        entry("tenant.created", "Tenant", None, 0),
        entry("flag.rollout", "Flag", None, 0),
        entry("backup", "System", None, 0),
    ];
    assert_eq!(
        log_stats(&logs),
        LogStats { total: 4, security: 1, tenant: 1, billing: 1, flags: 1 }
    );
}

#[test]
fn actor_labels_use_uuid_text() {
    assert_eq!(actor_label(Some(ID_A)), "550e8400-e29b-41d4-a716-446655440000");
    assert_eq!(actor_label(Some(0)), "00000000-0000-0000-0000-000000000000");
    assert_eq!(actor_label(None), "System");
}

#[test]
fn time_stamps_print_in_utc() {
    assert_eq!(day_heading(1709546400, 0), Some("Monday, March 04, 2024".to_string()));
    assert_eq!(clock_label(1709546400, 0), Some("10:00 UTC".to_string()));
    assert_eq!(format_datetime_diff(0, 0), Some("1970-01-01 00:00:00".to_string()));
    assert_eq!(timestamp_label(0, 0), Some("1970-01-01T00:00:00+00:00".to_string()));
    assert_eq!(day_heading(i64::MAX, 0), None);
}

#[test]
fn groups_keep_first_appearance_order() {
    let hs: Vec<String> = ["b", "a", "b", "c", "a"].iter().map(|s| s.to_string()).collect();
    let groups = group_by_heading(&hs);
    assert_eq!(
        groups,
        vec![
            ("b".to_string(), vec![0, 2]),
            ("a".to_string(), vec![1, 4]),
            ("c".to_string(), vec![3]),
        ]
    );
    assert!(group_by_heading(&vec![]).is_empty());
}

#[test]
fn ledger_groups_by_day() {
    let day1 = 1709546400; // Monday, March 04, 2024
    let day2 = day1 + 86_400;
    let logs = vec![
        entry("login", "User", None, day1),
        entry("flag.x", "Flag", None, day2),
        entry("login.ok", "User", None, day1 + 60),
    ];
    let (shown, groups) = audit_groups(&logs, "all", "").expect("dated");
    assert_eq!(shown, vec![0, 1, 2]);
    assert_eq!(
        groups,
        vec![
            ("Monday, March 04, 2024".to_string(), vec![0, 2]),
            ("Tuesday, March 05, 2024".to_string(), vec![1]),
        ]
    );
    let (shown, groups) = audit_groups(&logs, "security", "").expect("dated");
    assert_eq!(shown, vec![0, 2]);
    assert_eq!(groups, vec![("Monday, March 04, 2024".to_string(), vec![0, 1])]);
    let bad = vec![entry("login", "User", None, i64::MAX)];
    assert_eq!(audit_groups(&bad, "all", ""), None);
}

#[test]
fn state_snapshots_pretty_print() {
    assert_eq!(format_json_diff(&None), "None");
    let v = serde_json::from_str::<serde_json::Value>("{\"a\":1}").expect("json");
    assert_eq!(format_json_diff(&Some(v)), "{\n  \"a\": 1\n}");
}

#[test]
fn placeable_instants_are_printed() {
    assert!(day_heading(8_000_000_000_000, 0).is_some());
    assert!(day_heading(-8_000_000_000_000, 999_999_999).is_some());
    assert!(format_datetime_diff(8_000_000_000_000, 0).is_some());
    assert!(timestamp_label(-8_000_000_000_000, 0).is_some());
    assert!(clock_label(i64::MAX, 0).is_none());
}

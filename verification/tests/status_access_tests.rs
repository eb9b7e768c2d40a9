use platform_admin::access::{
    admin_toggle_notice, after_passkey_check, after_verify, directory_choice, directory_payload,
    directory_status_badge, login_start, module_switch_id, user_badges, LoginAction,
};
use platform_admin::ambassadors::{
    ambassador_input, ambassador_line, card_request, created_notice, fulfillment_line,
    fulfillment_rows, selected_ambassador, AmbassadorFormError,
};
use platform_admin::json::{Json, JsonNumber};
use platform_admin::system_status::{
    backend_line, byte_size, collected_label, db_version_text, env_label, latency_suffix,
    next_refresh, next_step_label, queue_state, refresh_label, sessions_text, small_size_text,
    status_color, status_label, tenant_status_line, version_label, ByteSize, HealthStatus,
    NextStepKind,
};

#[test]
fn health_words_and_colors() {
    assert_eq!(status_label(&HealthStatus::Degraded), "degraded");
    assert_eq!(status_color(&HealthStatus::Down), "var(--red, #c0392b)");
    assert_eq!(next_step_label(NextStepKind::Action), "action");
}

#[test]
fn byte_size_tiers() {
    assert_eq!(byte_size(None), ByteSize::Missing);
    assert_eq!(byte_size(Some(1023)), ByteSize::Bytes(1023));
    assert_eq!(byte_size(Some(1024)), ByteSize::KiB(1024));
    assert_eq!(byte_size(Some(1_048_576)), ByteSize::MiB(1_048_576));
    assert_eq!(byte_size(Some(1_073_741_824)), ByteSize::GiB(1_073_741_824));
    assert_eq!(small_size_text(ByteSize::Bytes(12)), Some("12 B".to_string()));
    assert_eq!(small_size_text(ByteSize::Missing), Some("—".to_string()));
    assert_eq!(small_size_text(ByteSize::KiB(2048)), None);
}

#[test]
fn status_texts() {
    assert_eq!(version_label("1.2.3", "abcdef0123456789"), "v1.2.3+abcdef0");
    assert_eq!(version_label("1", "abc"), "v1+abc");
    assert_eq!(env_label("prod"), "env=prod");
    assert_eq!(collected_label("now"), "collected now");
    assert_eq!(backend_line(&HealthStatus::Healthy, 12, "ok"), "healthy · 12ms · ok");
    assert_eq!(tenant_status_line("active", &HealthStatus::Unknown), "active · unknown");
    assert_eq!(latency_suffix(Some(5)), " · 5ms");
    assert_eq!(latency_suffix(None), "");
    assert_eq!(db_version_text(None), "—");
    assert_eq!(db_version_text(Some("x".repeat(100))), "x".repeat(80));
    assert_eq!(sessions_text(Some(-1)), "-1");
    assert_eq!(sessions_text(None), "—");
    assert_eq!(queue_state(true), "paused");
    assert_eq!(refresh_label(true), "Refreshing…");
    assert_eq!(next_refresh(u32::MAX), 0);
    assert_eq!(next_refresh(7), 8);
}

#[test]
fn magic_link_flow() {
    match login_start(String::new()) {
        LoginAction::ShowError(e) => assert_eq!(e, "Invalid or missing Magic Link token."),
        _ => panic!("expected an error"),
    }
    match login_start("tok".to_string()) {
        LoginAction::Verify(body) => assert_eq!(
            body,
            Json::Object(vec![("token".to_string(), Json::Str("tok".to_string()))])
        ),
        _ => panic!("expected verification"),
    }
    match after_verify(Err("expired".to_string())) {
        LoginAction::ShowError(e) => assert_eq!(e, "Magic link consumption failed: expired"),
        _ => panic!("expected an error"),
    }
    match after_verify(Ok(Some("a.b+c@ex.com".to_string()))) {
        LoginAction::CheckPasskey(p) => assert_eq!(p, "/api/auth/flow/a.b%2Bc%40ex.com"),
        _ => panic!("expected the passkey check"),
    }
    match after_verify(Ok(Some("é@x".to_string()))) {
        LoginAction::CheckPasskey(p) => assert_eq!(p, "/api/auth/flow/%C3%A9%40x"),
        _ => panic!("expected the passkey check"),
    }
    assert!(matches!(after_verify(Ok(None)), LoginAction::Navigate("/")));
    let yes = Json::Object(vec![("has_passkey".to_string(), Json::Bool(true))]);
    let no = Json::Object(vec![("has_passkey".to_string(), Json::Bool(false))]);
    assert_eq!(after_passkey_check(Some(&yes)), "/");
    assert_eq!(after_passkey_check(Some(&no)), "/setup");
    assert_eq!(after_passkey_check(Some(&Json::Null)), "/setup");
    assert_eq!(after_passkey_check(None), "/");
}

#[test]
fn administrators_and_directories() {
    assert_eq!(directory_choice("", Some(3)), None);
    assert_eq!(directory_choice("00000000-0000-0000-0000-000000000004", Some(3)), Some(4));
    assert_eq!(directory_choice("junk", Some(3)), Some(3));
    assert_eq!(user_badges(true, false), ("Active", "User", "Make Admin"));
    assert_eq!(user_badges(false, true), ("Inactive", "Platform Admin", "Revoke Admin"));
    assert_eq!(admin_toggle_notice(Ok("a@b.c")), "Updated admin status for a@b.c");
    assert_eq!(admin_toggle_notice(Err("denied")), "Failed: denied");
    let d = directory_payload("Site".to_string(), "site.io".to_string(), "dark");
    assert_eq!(d.directory_type_id, "00000000-0000-0000-0000-000000000000");
    assert_eq!(d.description, "Created with theme: dark");
    assert_eq!(directory_status_badge("active"), (true, "Active".to_string()));
    assert_eq!(directory_status_badge("paused"), (false, "paused".to_string()));
    assert_eq!(module_switch_id("t1", "d9"), "t1_d9");
}

#[test]
fn ambassadors_form_and_detail() {
    let i = ambassador_input(" AMB1 ", " Jane ", "referral".to_string()).expect("input");
    assert_eq!(i.code, "AMB1");
    assert_eq!(i.display_name, "Jane");
    assert!(i.campaign_ids.is_empty());
    assert!(i.notes.is_none());
    assert_eq!(
        ambassador_input("", "Jane", "referral".to_string()).err(),
        Some(AmbassadorFormError::MissingFields)
    );
    assert_eq!(created_notice("AMB1"), "AMB1 attached to F&F campaigns");
    assert_eq!(selected_ambassador(&vec![5, 7, 7], Some(7)), Some(1));
    assert_eq!(selected_ambassador(&vec![5], Some(9)), None);
    assert_eq!(selected_ambassador(&vec![5], None), None);
    assert_eq!(ambassador_line("referral", "active"), "referral · active");
    let r = card_request();
    assert_eq!((r.kind.as_str(), r.landlord_qty, r.vendor_qty), ("business_cards", 25, 25));
}

#[test]
fn fulfillment_requests_list() {
    let reqs = Json::Array(vec![
        Json::Object(vec![
            ("kind".to_string(), Json::Str("business_cards".to_string())),
            ("status".to_string(), Json::Str("queued".to_string())),
            ("landlord_qty".to_string(), Json::Number(JsonNumber::Int(25))),
            ("requested_at".to_string(), Json::Str("2024-03-04".to_string())),
        ]),
        Json::Null,
    ]);
    let rows = fulfillment_rows(&reqs);
    assert_eq!(rows.len(), 2);
    assert_eq!(rows[0].kind, "business_cards");
    assert_eq!(rows[0].landlord_qty, 25);
    assert_eq!(rows[0].vendor_qty, 0);
    assert_eq!(rows[1].kind, "—");
    assert_eq!(rows[1].requested_at, "");
    assert!(fulfillment_rows(&Json::Null).is_empty());
    assert_eq!(fulfillment_line(25, 0, "queued"), " · 25 landlord / 0 vendor · queued");
}

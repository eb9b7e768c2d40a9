use platform_admin::json::Json;
use platform_admin::network_detail::{
    apply_public_config, avatar_initial, status_changed, connect_candidates, connect_notice, domain_to_add,
    instance_domain, instance_title, plan_text, save_branding, save_overview, saved_slug,
    status_badge, suspension_reason, telemetry_total, toggle_button, toggle_status_action,
    InstanceAction, SettingsError, invalid_instance_toast, settings_error_toast,
};
use platform_admin::network_pages::{
    category_filter, category_row, grant_notice, grant_target, initial_network_filter,
    instance_status_colors, listing_failure, listing_href, listing_payload, listing_status_style,
    network_type_body, network_type_error_toast, network_type_refusal, registry_counts, revoke_notice, route_to_bind,
    short_test_id, template_row, test_status, variant_role, variant_total, ListingStatus,
    NetworkTypeError, routing_notice, RouteChange,
};
use platform_admin::network_wizard::{
    footer_labels, move_step, step_classes, step_mark, step_state, StepState, WizardOutcome,
    outcome_toast,
};

const ID: &str = "00000000-0000-0000-0000-0000000000ff";

#[test]
fn wizard_moves_between_three_steps() {
    assert_eq!(move_step(1, 1, " ", "slug"), WizardOutcome::NeedsIdentity);
    assert_eq!(move_step(1, 1, "Net", ""), WizardOutcome::NeedsIdentity);
    assert_eq!(move_step(1, 1, "Net", "net"), WizardOutcome::Moved(2));
    assert_eq!(move_step(2, 1, "", ""), WizardOutcome::Moved(3));
    assert_eq!(move_step(3, 1, "Net", "net"), WizardOutcome::ProvisioningUnavailable);
    assert_eq!(move_step(3, -1, "", ""), WizardOutcome::Moved(2));
    assert_eq!(move_step(1, -1, "Net", "net"), WizardOutcome::LeaveWizard);
}

#[test]
fn wizard_back_after_next_returns() {
    for step in 1..=3 {
        if let WizardOutcome::Moved(n) = move_step(step, 1, "Net", "net") {
            assert_eq!(move_step(n, -1, "Net", "net"), WizardOutcome::Moved(step));
        }
    }
}

#[test]
fn wizard_next_after_back_returns() {
    for step in 1..=3 {
        if let WizardOutcome::Moved(n) = move_step(step, -1, "", "") {
            assert_eq!(move_step(n, 1, "Net", "net"), WizardOutcome::Moved(step));
        }
    }
}

#[test]
fn wizard_indicator_and_footer() {
    assert_eq!(step_state(2, 1), StepState::Completed);
    assert_eq!(step_state(2, 2), StepState::Active);
    assert_eq!(step_state(2, 3), StepState::Pending);
    assert_eq!(step_state(3, 3), StepState::Active);
    assert_eq!(step_classes(StepState::Active).0, "text-primary font-bold");
    assert_eq!(step_mark(3, 2), "✓");
    assert_eq!(step_mark(1, 2), "2");
    assert_eq!(footer_labels(1), ("Cancel", "Next Step"));
    assert_eq!(footer_labels(3), ("Back", "Provision Network"));
}

#[test]
fn instance_config_and_actions() {
    assert_eq!(
        apply_public_config("", "", Some("pub"), "app", "Suspended"),
        ("pub".to_string(), "app".to_string(), true)
    );
    assert_eq!(
        apply_public_config("typed", "Name", None, "app", "active"),
        ("typed".to_string(), "Name".to_string(), false)
    );
    assert_eq!(apply_public_config("", "", None, "app", "SUSPENDED").0, "app");
    assert!(!apply_public_config("", "", None, "app", "SUSPENDED").2);
    assert_eq!(toggle_status_action(ID, true), InstanceAction::Resume(255));
    assert_eq!(toggle_status_action(ID, false), InstanceAction::Suspend(255));
    assert_eq!(toggle_status_action("x", false), InstanceAction::InvalidId);
    assert_eq!(suspension_reason(), "Manual suspension via admin panel.");
    assert_eq!(domain_to_add("  shop.example.com "), Some("shop.example.com".to_string()));
    assert_eq!(domain_to_add("   "), None);
}

#[test]
fn instance_settings_and_branding() {
    assert_eq!(save_overview("x", "s"), Err(SettingsError::InvalidId));
    assert_eq!(save_overview(ID, "  "), Err(SettingsError::SlugRequired));
    assert_eq!(save_overview(ID, " my-net "), Ok((255, "my-net".to_string())));
    assert_eq!(saved_slug(None, "app".to_string()), "app");
    assert_eq!(
        save_branding(ID, "dark".to_string(), "#fff".to_string(), "inter".to_string()),
        Some((255, "dark".to_string(), "#fff".to_string(), "inter".to_string()))
    );
    assert_eq!(save_branding("bad", String::new(), String::new(), String::new()), None);
}

#[test]
fn instance_header() {
    assert_eq!(avatar_initial(""), "?");
    assert_eq!(avatar_initial("atlas"), "A");
    assert_eq!(avatar_initial("ßeta"), "SS");
    assert_eq!(instance_title("", ID), ID);
    assert_eq!(instance_title("Net", ID), "Net");
    assert_eq!(status_badge(true).1, "Suspended");
    assert_eq!(status_badge(false).1, "Live");
    assert_eq!(toggle_button(true).1, "Resume Network");
    assert_eq!(toggle_button(false).1, "Suspend Network");
    assert_eq!(instance_domain("net"), "net.atlas-platform.com");
}

#[test]
fn telemetry_and_connect_dialog() {
    assert_eq!(telemetry_total(&vec![1, 2, 3]), 6);
    assert_eq!(telemetry_total(&vec![]), 0);
    let names: Vec<String> = ["Acme PM", "Beta", "acme two"].iter().map(|s| s.to_string()).collect();
    assert_eq!(connect_candidates(&names, "ACME"), vec![0, 2]);
    assert_eq!(connect_candidates(&names, ""), vec![0, 1, 2]);
    assert_eq!(
        connect_notice("Acme"),
        "'Acme' linked to this network instance. Full syndication activates on next deploy."
    );
    assert_eq!(plan_text(None), "—");
    assert_eq!(plan_text(Some("growth".to_string())), "growth");
}

#[test]
fn registry_and_directory_pages() {
    let statuses: Vec<String> =
        ["active", "provisioning", "active", "beta"].iter().map(|s| s.to_string()).collect();
    assert_eq!(registry_counts(&statuses), (4, 2, 1));
    assert_eq!(instance_status_colors("beta"), ("var(--amber)", "var(--amber-dim)"));
    assert_eq!(instance_status_colors("?"), ("var(--text-muted)", "var(--bg-elevated)"));
    assert_eq!(route_to_bind(String::new()), None);
    assert_eq!(route_to_bind(" a ".to_string()), Some(" a ".to_string()));
    assert_eq!(initial_network_filter(None), "");
    assert_eq!(initial_network_filter(Some(255)), ID);
    assert_eq!(category_filter(String::new()), None);
    assert_eq!(
        category_row("c1", None, false, None),
        (
            "/network/categories/c1".to_string(),
            "category".to_string(),
            "text-muted-foreground bg-muted",
            "Inactive",
            String::new()
        )
    );
    assert_eq!(
        template_row("t1", true),
        ("/network/templates/t1".to_string(), "var(--green)", "var(--green-dim)", "Active")
    );
}

#[test]
fn listings_and_ab_tests() {
    assert_eq!(listing_status_style(ListingStatus::Rejected), ("Rejected", "text-red-500 bg-red-500/10"));
    assert_eq!(listing_href("l1"), "/network/listings/l1");
    assert_eq!(short_test_id(0x550e8400e29b41d4a716446655440000), "550e8400");
    assert_eq!(variant_total(&vec![10, 20, -5]), 25);
    assert_eq!(test_status("Active"), ("bg-green-500/10 text-green-600", true));
    assert_eq!(test_status("Completed"), ("bg-muted text-muted-foreground", false));
    assert_eq!(test_status("Draft"), ("bg-primary/10 text-primary", false));
    assert_eq!(variant_role(true), "Control");
    let p = listing_payload(
        "T".to_string(),
        "D".to_string(),
        "service".to_string(),
        "n1".to_string(),
        None,
    );
    assert_eq!(p.profile_id, "");
    assert_eq!(p.listing_type, Some("service".to_string()));
    assert_eq!(p.is_active, Some(true));
    assert_eq!(p.is_featured, Some(false));
    assert_eq!(listing_failure("boom"), "Failed to create: boom");
}

#[test]
fn network_types_and_syndication() {
    assert_eq!(network_type_body(String::new(), "d".to_string()), Err(NetworkTypeError::NameRequired));
    assert_eq!(
        network_type_body("Directory".to_string(), "".to_string()),
        Ok(Json::Object(vec![
            ("name".to_string(), Json::Str("Directory".to_string())),
            ("description".to_string(), Json::Str(String::new())),
        ]))
    );
    assert_eq!(network_type_refusal(None), "Failed");
    assert_eq!(grant_target(String::new()), None);
    assert_eq!(grant_notice("leira Rentals", None), "Syndication access granted to leira Rentals.");
    assert_eq!(grant_notice("x", Some("nope")), "Failed to grant syndication: nope");
    assert_eq!(revoke_notice("leira Stays", None), "Access for leira Stays has been revoked.");
    assert_eq!(revoke_notice("x", Some("e")), "Failed to revoke syndication: e");
}

#[test]
fn routing_and_status_notices() {
    assert_eq!(routing_notice(RouteChange::Bound, true), "Domain routing natively mapped.");
    assert_eq!(
        routing_notice(RouteChange::Bound, false),
        "Failed to route domain. It may already be in use."
    );
    assert_eq!(routing_notice(RouteChange::Detached, true), "Domain safely detached.");
    assert_eq!(routing_notice(RouteChange::Detached, false), "Failed to detach domain.");
    assert_eq!(status_changed(true), (false, "Network instance resumed.", "success"));
    assert_eq!(status_changed(false), (true, "Network instance suspended.", "warning"));
}

#[test]
fn network_refusals_have_their_toasts() {
    assert_eq!(toggle_status_action("not-a-uuid", false), InstanceAction::InvalidId);
    assert_eq!(invalid_instance_toast(), ("Error", "Invalid instance ID in URL.", "error"));
    assert_eq!(settings_error_toast(SettingsError::InvalidId), ("Error", "Invalid instance ID in URL.", "error"));
    assert_eq!(
        settings_error_toast(SettingsError::SlugRequired),
        ("Validation", "Public slug cannot be empty.", "error")
    );
    assert_eq!(network_type_error_toast(NetworkTypeError::NameRequired), ("Error", "Name is required.", "error"));
}

#[test]
fn wizard_toasts() {
    assert_eq!(
        outcome_toast(move_step(1, 1, " ", "slug")),
        Some(("Validation Error", "Please fill out the Network Name and Slug Path.", "error"))
    );
    assert_eq!(
        outcome_toast(move_step(3, 1, "a", "b")),
        Some(("Provisioning Unavailable", "Network instance provisioning API is pending. Use the Tenant provisioning flow under Tenants > New Application.", "error"))
    );
    assert_eq!(outcome_toast(move_step(1, 1, "a", "b")), None);
    assert_eq!(outcome_toast(move_step(1, -1, "a", "b")), None);
}


use platform_admin::audit::day_heading;
use platform_admin::audit::logs_loaded;
use platform_admin::campaigns::drop_created_done;
use platform_admin::landing::{editor_publish_click, editor_publish_done, editor_save_click, editor_save_done};
use platform_admin::tenant_map::confirm_impersonate;
use platform_admin::campaigns::{campaign_create_done, create_error_line, CampaignDialog};
use platform_admin::menus::{menu_change_done, MenuChange};
use platform_admin::product_page::{
    add_alias_step, add_pixel_step, plan_deleted_done, plan_saved_done, product_save_done,
    product_route_id, product_update, publish_click, publish_done, save_busy,
};
use platform_admin::products::{open_new_product, product_created_done};
use platform_admin::landing::{pixel_key, pixel_label, pixel_row, pixel_toggle, PixelKey};
use platform_admin::ambassadors::{
    card_request_done, create_click, create_done, AmbassadorsPage,
};
use platform_admin::network_detail::{
    add_domain_step, branding_busy, domain_added_toast, save_branding_done, save_settings_click,
    save_settings_done, toggle_done, SettingsError,
};
use platform_admin::network_pages::{grant_step, grant_toast, revoke_step, revoke_toast};
use platform_admin::network_wizard::{outcome_destination, wizard_step, WizardOutcome};
use platform_admin::notice::{error_toast, Toast};

const INSTANCE: &str = "00000000-0000-0000-0000-000000000001";

fn t(title: &str, message: &str, kind: &str) -> Toast {
    Toast { title: title.to_string(), message: message.to_string(), kind: kind.to_string() }
}

#[test]
fn add_domain_clears_field_only_when_sent() {
    assert_eq!(add_domain_step("  shop.example.com "), (Some("shop.example.com".to_string()), String::new()));
    assert_eq!(add_domain_step("   "), (None, "   ".to_string()));
    assert_eq!(
        domain_added_toast(Ok(())),
        t("Domain Added", "Custom domain added. DNS propagation may take up to 24h.", "success")
    );
    assert_eq!(domain_added_toast(Err("taken".to_string())), t("Error", "taken", "error"));
}

#[test]
fn save_settings_busy_flag() {
    assert_eq!(save_settings_click(INSTANCE, " acme ", false), (Ok((1, "acme".to_string())), true));
    assert_eq!(save_settings_click("bad", "acme", false), (Err(SettingsError::InvalidId), false));
    assert_eq!(save_settings_click(INSTANCE, "  ", false), (Err(SettingsError::SlugRequired), false));
    assert_eq!(
        save_settings_done("old".to_string(), Ok((Some("new".to_string()), "app".to_string()))),
        ("new".to_string(), false, t("Settings Saved", "Public slug updated successfully.", "success"))
    );
    assert_eq!(
        save_settings_done("old".to_string(), Ok((None, "app".to_string()))),
        ("app".to_string(), false, t("Settings Saved", "Public slug updated successfully.", "success"))
    );
    assert_eq!(
        save_settings_done("old".to_string(), Err("down".to_string())),
        ("old".to_string(), false, t("Save Failed", "down", "error"))
    );
}

#[test]
fn branding_and_status_completion() {
    assert!(branding_busy(INSTANCE, false));
    assert!(!branding_busy("bad", false));
    assert_eq!(
        save_branding_done(Ok(())),
        (false, t("Branding Saved", "Theme, color, and font persisted to instance config.", "success"))
    );
    assert_eq!(save_branding_done(Err("no".to_string())), (false, t("Save Failed", "no", "error")));
    assert_eq!(toggle_done(true, Ok(())), (false, t("Network Status", "Network instance resumed.", "success")));
    assert_eq!(toggle_done(false, Ok(())), (true, t("Network Status", "Network instance suspended.", "warning")));
    assert_eq!(toggle_done(false, Err("x".to_string())), (false, error_toast("x".to_string())));
}

#[test]
fn grant_closes_dialog_before_request() {
    assert_eq!(grant_step(String::new(), true), (None, true));
    assert_eq!(grant_step(String::new(), false), (None, false));
    assert_eq!(grant_step("Ohio Net".to_string(), true), (Some("Ohio Net".to_string()), false));
    assert_eq!(
        grant_toast("Ohio Net", Ok(())),
        t("Syndication Granted", "Syndication access granted to Ohio Net.", "success")
    );
    assert_eq!(
        grant_toast("Ohio Net", Err("denied".to_string())),
        t("Error", "Failed to grant syndication: denied", "error")
    );
    assert_eq!(revoke_step("leira Rentals".to_string()), ("leira Rentals".to_string(), false));
    assert_eq!(
        revoke_toast("leira Rentals", Ok(())),
        t("Syndication Revoked", "Access for leira Rentals has been revoked.", "info")
    );
    assert_eq!(
        revoke_toast("leira Rentals", Err("x".to_string())),
        t("Error", "Failed to revoke syndication: x", "error")
    );
}

#[test]
fn wizard_steps_and_destination() {
    assert_eq!(wizard_step(1, -1, "", ""), (1, None, Some("/network")));
    assert_eq!(outcome_destination(WizardOutcome::LeaveWizard), Some("/network"));
    assert_eq!(outcome_destination(WizardOutcome::Moved(2)), None);
    assert_eq!(wizard_step(1, 1, "Net", "net"), (2, None, None));
    assert_eq!(wizard_step(2, -1, "", ""), (1, None, None));
    let (step, toast, dest) = wizard_step(1, 1, " ", "net");
    assert_eq!((step, dest), (1, None));
    assert_eq!(toast.map(|t| t.0), Some("Validation Error"));
    let (step, toast, dest) = wizard_step(3, 1, "Net", "net");
    assert_eq!((step, dest), (3, None));
    assert_eq!(toast.map(|t| t.0), Some("Provisioning Unavailable"));
}

fn page(code: &str, name: &str) -> AmbassadorsPage {
    AmbassadorsPage {
        show_create: true,
        code: code.to_string(),
        display_name: name.to_string(),
        partner_type: "referral".to_string(),
        creating: false,
        selected_id: None,
    }
}

#[test]
fn ambassador_create_flow() {
    let (p, r) = create_click(page(" ", "Alice"));
    assert_eq!(p, page(" ", "Alice"));
    assert_eq!(r.unwrap_err(), t("Missing fields", "Code and display name are required.", "error"));
    let (p, r) = create_click(page(" alice ", " Alice Chen "));
    assert!(p.creating);
    let input = r.unwrap();
    assert_eq!((input.code.as_str(), input.display_name.as_str()), ("alice", "Alice Chen"));
    let (done, toast, reload) = create_done(p, Ok((7, "alice".to_string())));
    assert_eq!(
        done,
        AmbassadorsPage {
            show_create: false,
            code: String::new(),
            display_name: String::new(),
            partner_type: "referral".to_string(),
            creating: false,
            selected_id: Some(7),
        }
    );
    assert_eq!(toast, t("Ambassador created", "alice attached to F&F campaigns", "success"));
    assert!(reload);
    let mut busy = page("alice", "Alice");
    busy.creating = true;
    let (failed, toast, reload) = create_done(busy, Err("dup".to_string()));
    assert_eq!(failed, page("alice", "Alice"));
    assert_eq!(toast, t("Create failed", "dup", "error"));
    assert!(!reload);
}

#[test]
fn card_request_completion() {
    assert_eq!(
        card_request_done(1u32, Ok(2u32)),
        (2, false, true, t("Cards requested", "25 landlord + 25 vendor (stub)", "success"))
    );
    assert_eq!(
        card_request_done(1u32, Err("no".to_string())),
        (1, false, false, t("Request failed", "no", "error"))
    );
}

#[test]
fn pixel_toggles() {
    assert_eq!(pixel_toggle(Some(9), PixelKey::Meta, true), Some((9, "meta", false)));
    assert_eq!(pixel_toggle(Some(9), PixelKey::Ga4, false), Some((9, "ga4", true)));
    assert_eq!(pixel_toggle(None, PixelKey::Gtm, false), None);
    assert_eq!(pixel_key(PixelKey::Linkedin), "linkedin");
    assert_eq!(pixel_label(PixelKey::Gtm), "Google Tag Manager");
    assert_eq!(pixel_row(true, false), ("cursor:pointer", "toggle-on", "●"));
    assert_eq!(pixel_row(false, true), ("opacity:0.4;pointer-events:none", "toggle-off", "○"));
}

#[test]
fn product_save_flow() {
    let u = product_update(Some(3), "Atlas".to_string(), String::new());
    assert!(save_busy(&u, false));
    let refused = product_update(None, "Atlas".to_string(), String::new());
    assert!(!save_busy(&refused, false));
    assert_eq!(
        product_save_done(
            "a".to_string(),
            "b".to_string(),
            "c".to_string(),
            Ok(("Atlas".to_string(), None, Some("atlas.io".to_string())))
        ),
        (
            "Atlas".to_string(),
            String::new(),
            "atlas.io".to_string(),
            false,
            t("Saved", "Product details updated successfully.", "success")
        )
    );
    assert_eq!(
        product_save_done("a".to_string(), "b".to_string(), "c".to_string(), Err("bad".to_string())),
        ("a".to_string(), "b".to_string(), "c".to_string(), false, t("Save Failed", "bad", "error"))
    );
    assert_eq!(publish_click(Some(4), false), (Some(4), true));
    assert_eq!(publish_click(None, false), (None, false));
    assert_eq!(publish_done(Ok(())), (false, t("Published", "Marketing page publish job queued.", "success")));
    assert_eq!(publish_done(Err("e".to_string())), (false, t("Publish Failed", "e", "error")));
}

#[test]
fn plan_and_form_completions() {
    assert_eq!(plan_saved_done(true, Ok(())), (false, true, t("Saved", "Billing plan updated.", "success")));
    assert_eq!(plan_saved_done(true, Err("e".to_string())), (true, false, t("Error", "e", "error")));
    assert_eq!(plan_deleted_done(Ok(())), (true, t("Deleted", "Plan removed.", "success")));
    assert_eq!(plan_deleted_done(Err("e".to_string())), (false, t("Error", "e", "error")));
    assert_eq!(
        add_pixel_step("GA".to_string(), "https://g".to_string(), true),
        (t("Queued", "Pixel 'GA' queued for API wiring.", "info"), String::new(), String::new(), false)
    );
    assert_eq!(
        add_pixel_step("GA".to_string(), " ".to_string(), true),
        (
            t("Error", "Pixel name and script URL are required.", "error"),
            "GA".to_string(),
            " ".to_string(),
            true
        )
    );
    assert_eq!(
        add_alias_step("www.atlas.io".to_string(), true),
        (t("Queued", "Domain 'www.atlas.io' queued for API wiring.", "info"), String::new(), false)
    );
    assert_eq!(
        add_alias_step("".to_string(), true),
        (t("Error", "Domain alias is required.", "error"), String::new(), true)
    );
    assert_eq!(open_new_product(), (String::new(), String::new(), true));
    assert_eq!(
        product_created_done(true, Ok(())),
        (false, true, t("Created", "Product created from catalog API.", "success"))
    );
    assert_eq!(product_created_done(true, Err("e".to_string())), (true, false, t("Create failed", "e", "error")));
}

fn dialog() -> CampaignDialog {
    CampaignDialog {
        open: true,
        name: "Spring".to_string(),
        utm_campaign: "spring".to_string(),
        budget: "500".to_string(),
        error: String::new(),
    }
}

#[test]
fn campaign_create_flow() {
    assert_eq!(create_error_line(""), "Campaign name is required.");
    assert_eq!(create_error_line("Spring"), "");
    let (d, nav, reload) = campaign_create_done(dialog(), Ok(0x550e8400e29b41d4a716446655440000));
    assert_eq!(
        d,
        CampaignDialog {
            open: false,
            name: String::new(),
            utm_campaign: String::new(),
            budget: String::new(),
            error: String::new(),
        }
    );
    assert_eq!(nav, Some("/campaigns/550e8400-e29b-41d4-a716-446655440000".to_string()));
    assert!(reload);
    let (d, nav, reload) = campaign_create_done(dialog(), Err("quota".to_string()));
    assert_eq!(d, CampaignDialog { error: "quota".to_string(), ..dialog() });
    assert_eq!((nav, reload), (None, false));
}

#[test]
fn menu_change_completion() {
    assert_eq!(
        menu_change_done(MenuChange::Updated, Some(5), Ok(())),
        (None, true, "Menu item updated.".to_string())
    );
    assert_eq!(
        menu_change_done(MenuChange::Deleted, Some(5), Ok(())),
        (Some(5), true, "Menu item deleted.".to_string())
    );
    assert_eq!(
        menu_change_done(MenuChange::Created, None, Err("dup".to_string())),
        (None, false, "dup".to_string())
    );
}

#[test]
fn editor_save_and_publish() {
    assert_eq!(editor_save_click(None, false, Some((true, "x".to_string()))), (None, false, Some((true, "x".to_string()))));
    assert_eq!(editor_save_click(Some(2), false, Some((true, "x".to_string()))), (Some(2), true, None));
    assert_eq!(editor_save_done(Ok(())), (false, (true, "Saved!".to_string()), true));
    assert_eq!(editor_save_done(Err("e".to_string())), (false, (false, "Save failed: e".to_string()), false));
    assert_eq!(editor_publish_click(Some(2), false), (Some(2), true));
    assert_eq!(editor_publish_click(None, false), (None, false));
    assert_eq!(editor_publish_done(true, Ok(())), (false, (true, "Unpublished".to_string()), true));
    assert_eq!(editor_publish_done(false, Ok(())), (false, (true, "Published!".to_string()), true));
    assert_eq!(editor_publish_done(false, Err("e".to_string())), (false, (false, "Publish failed: e".to_string()), false));
}

#[test]
fn ledger_and_map_and_drops() {
    assert_eq!(logs_loaded(vec![1, 2], Ok(vec![3])), (vec![3], false, None));
    assert_eq!(logs_loaded(vec![1, 2], Err("down".to_string())), (vec![1, 2], false, Some(t("Error", "down", "error"))));
    assert_eq!(confirm_impersonate(None, true), (true, None));
    assert_eq!(
        confirm_impersonate(Some("acme"), true),
        (false, Some(t("Warning", "⚠ Impersonating acme — audit logged", "warn")))
    );
    assert_eq!(
        drop_created_done("Drop A".to_string(), "SAVE10".to_string(), Some(8)),
        (Some(("SAVE10".to_string(), 8)), String::new(), String::new(), true)
    );
    assert_eq!(
        drop_created_done("Drop A".to_string(), String::new(), Some(8)),
        (None, String::new(), String::new(), true)
    );
    assert_eq!(
        drop_created_done("Drop A".to_string(), "SAVE10".to_string(), None),
        (None, "Drop A".to_string(), "SAVE10".to_string(), false)
    );
}

#[test]
fn uuid_forms_accepted_by_the_route() {
    let v: u128 = 0x550e8400e29b41d4a716446655440000;
    assert_eq!(product_route_id(Some("550e8400e29b41d4a716446655440000")), Some(v));
    assert_eq!(product_route_id(Some("550E8400-E29B-41D4-A716-446655440000")), Some(v));
    assert_eq!(product_route_id(Some("{550e8400-e29b-41d4-a716-446655440000}")), Some(v));
    assert_eq!(product_route_id(Some("URN:uuid:550e8400-e29b-41d4-a716-446655440000")), Some(v));
    assert_eq!(product_route_id(Some("550e8400-e29b-41d4-a716-44665544000g")), None);
    assert_eq!(product_route_id(Some("550e8400e29b-41d4-a716-4466554400000")), None);
    assert_eq!(product_route_id(Some("(550e8400-e29b-41d4-a716-446655440000)")), None);
    assert_eq!(product_route_id(Some("urn:uid::550e8400-e29b-41d4-a716-446655440000")), None);
    assert_eq!(product_route_id(None), None);
    assert_eq!(save_settings_click(INSTANCE, "acme", true), (Ok((1, "acme".to_string())), true));
}

#[test]
fn leap_seconds_are_placed() {
    assert!(day_heading(59, 1_500_000_000).is_some());
    assert!(day_heading(58, 1_500_000_000).is_none());
    assert!(day_heading(59, 2_000_000_000).is_none());
}

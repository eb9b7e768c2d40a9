use platform_admin::campaigns::{
    create_button_label, form_error_message, utm_slug_line,
    anonymous_label, budget_fill, cac_cents, campaign_href, campaign_input, campaign_route_id,
    campaign_type_label, drop_cost_cents, drop_piece_count, drop_ready, drop_tracking_preview,
    drop_utm_slug, enrolled_date, external_reference, filter_members, form_tracking_preview,
    has_conversion_base, landing_link, member_visible, money_tier, on_type_change,
    referral_share_hint, status_dot, status_text, touch_identity, touch_time, type_color_class,
    utm_query, BudgetFill, CampaignFormError, MoneyTier,
};

#[test]
fn campaign_labels_and_colors() {
    assert_eq!(campaign_type_label("ppc"), "Paid Search");
    assert_eq!(campaign_type_label("event_based"), "Event");
    assert_eq!(campaign_type_label("other"), "Campaign");
    assert_eq!(type_color_class("social"), "bg-pink-500/15 border-pink-500/30 text-pink-300");
    assert_eq!(status_dot("paused"), "text-orange-400");
    assert_eq!(status_dot("draft"), "text-on-surface-variant");
    assert_eq!(status_text("active"), "● active");
}

#[test]
fn money_tiers_by_whole_dollars() {
    assert_eq!(money_tier(0), MoneyTier::Zero);
    assert_eq!(money_tier(99), MoneyTier::Dollars(0));
    assert_eq!(money_tier(-250), MoneyTier::Dollars(-2));
    assert_eq!(money_tier(123_456), MoneyTier::Thousands(1234));
    assert_eq!(money_tier(250_000_000), MoneyTier::Millions(2_500_000));
}

#[test]
fn cost_per_acquisition_rounds_toward_zero() {
    assert_eq!(cac_cents(1000, 0), None);
    assert_eq!(cac_cents(1000, 3), Some(333));
    assert_eq!(cac_cents(-1000, 3), Some(-333));
    assert_eq!(cac_cents(1000, -3), Some(-333));
    assert_eq!(cac_cents(i64::MIN, 1), Some(i64::MIN));
    assert!(has_conversion_base(5));
    assert!(!has_conversion_base(0));
}

#[test]
fn budget_bar_fill() {
    assert_eq!(budget_fill(500, None), BudgetFill::Empty);
    assert_eq!(budget_fill(500, Some(0)), BudgetFill::Empty);
    assert_eq!(budget_fill(0, Some(1000)), BudgetFill::Empty);
    assert_eq!(budget_fill(1000, Some(1000)), BudgetFill::Full);
    assert_eq!(budget_fill(290, Some(1000)), BudgetFill::Part(290, 1000));
}

#[test]
fn new_campaign_form() {
    let c = campaign_input(
        "Spring".to_string(),
        "direct_mail".to_string(),
        "leads".to_string(),
        "250",
        "".to_string(),
        "email".to_string(),
        "spring-24".to_string(),
    )
    .expect("created");
    assert_eq!(c.budget_cents, Some(25_000));
    assert_eq!(c.utm_medium, Some("direct_mail".to_string()));
    assert_eq!(c.utm_source, None);
    assert_eq!(c.utm_campaign, Some("spring-24".to_string()));
    assert_eq!(c.goal_type, Some("leads".to_string()));
    let d = campaign_input(
        "X".to_string(),
        "ppc".to_string(),
        "g".to_string(),
        "12.5",
        "google".to_string(),
        "".to_string(),
        "".to_string(),
    )
    .expect("created");
    assert_eq!(d.budget_cents, None);
    assert_eq!(d.utm_medium, None);
    let e = campaign_input(
        "".to_string(),
        "ppc".to_string(),
        "g".to_string(),
        "1",
        "".to_string(),
        "".to_string(),
        "".to_string(),
    );
    assert_eq!(e.err(), Some(CampaignFormError::NameRequired));
}

#[test]
fn type_change_fills_direct_mail_defaults() {
    assert_eq!(
        on_type_change("direct_mail", "".to_string(), "x".to_string()),
        ("manual".to_string(), "direct_mail".to_string())
    );
    assert_eq!(
        on_type_change("direct_mail", "postcard".to_string(), "x".to_string()),
        ("postcard".to_string(), "direct_mail".to_string())
    );
    assert_eq!(
        on_type_change("ppc", "a".to_string(), "b".to_string()),
        ("a".to_string(), "b".to_string())
    );
}

#[test]
fn tracked_addresses() {
    assert_eq!(
        form_tracking_preview("/lp/x", "s", "m", "c"),
        "/lp/x?utm_source=s&utm_medium=m&utm_campaign=c"
    );
    assert_eq!(utm_query("s", "m", ""), None);
    assert_eq!(
        utm_query("s", "m", "c"),
        Some("?utm_source=s&utm_medium=m&utm_campaign=c".to_string())
    );
    assert_eq!(
        landing_link("folio", "s", "m", "c"),
        "/lp/folio?utm_source=s&utm_medium=m&utm_campaign=c"
    );
    assert_eq!(
        drop_tracking_preview("s", "direct_mail", "c"),
        "?utm_source=s&utm_medium=direct_mail&utm_campaign=c&utm_content={drop}"
    );
    assert_eq!(referral_share_hint(""), "/refer/{code}");
    assert_eq!(referral_share_hint("c1"), "/refer/{code}?utm_campaign=c1");
}

#[test]
fn campaign_pages_by_id() {
    let id = 0x550e8400e29b41d4a716446655440000u128;
    assert_eq!(campaign_href(id), "/campaigns/550e8400-e29b-41d4-a716-446655440000");
    assert_eq!(campaign_route_id(Some("550e8400-e29b-41d4-a716-446655440000")), Some(id));
    assert_eq!(campaign_route_id(Some("nope")), None);
    assert_eq!(campaign_route_id(None), None);
}

#[test]
fn members_filter_by_status() {
    let statuses = vec!["active".to_string(), "left".to_string(), "active".to_string()];
    assert_eq!(filter_members("active", &statuses), vec![0, 2]);
    assert_eq!(filter_members("all", &statuses), vec![0, 1, 2]);
    assert!(member_visible("all", "x"));
    assert!(!member_visible("left", "active"));
    assert_eq!(enrolled_date("2024-03-04T10:00:00Z"), "2024-03-04");
}

#[test]
fn mail_drops() {
    assert_eq!(drop_utm_slug("Spring Drop A"), "spring_drop_a");
    assert!(drop_ready("x"));
    assert!(!drop_ready(""));
    assert_eq!(drop_piece_count("500"), 500);
    assert_eq!(drop_piece_count("lots"), 0);
    assert_eq!(drop_cost_cents(Some(45), 500), Some(22_500));
    assert_eq!(drop_cost_cents(Some(45), 0), None);
    assert_eq!(drop_cost_cents(None, 10), None);
    assert_eq!(external_reference("".to_string()), None);
    assert_eq!(external_reference("INV-1".to_string()), Some("INV-1".to_string()));
}

#[test]
fn attribution_touch_points() {
    assert_eq!(touch_identity(Some("a@b.c"), Some("zzz")), "a@b.c");
    assert_eq!(touch_identity(None, Some("abcdefghijk")), "anon:abcdefgh…");
    assert_eq!(touch_identity(None, Some("short")), "anon:short");
    assert_eq!(touch_identity(None, None), "—");
    assert_eq!(anonymous_label("12345678"), "anon:12345678");
    assert_eq!(touch_time("2024-03-04T10:11:12.000Z"), "2024-03-04 10:11");
}

#[test]
fn campaign_form_and_card_texts() {
    assert_eq!(form_error_message(CampaignFormError::NameRequired), "Campaign name is required.");
    assert_eq!(create_button_label("direct_mail"), "Create & add first drop");
    assert_eq!(create_button_label("ppc"), "Create Campaign");
    assert_eq!(utm_slug_line(""), "No UTM slug — not linked to landing page");
    assert_eq!(utm_slug_line("s1"), "utm_campaign=s1");
}

use platform_admin::hero::HeroForm;
use platform_admin::json::Json;
use platform_admin::landing::{
    new_variant_payload, publish_button_class, publish_notice, save_label, save_notice,
    viewport_width,
    ab_winner, app_label, count_tier, filter_pages, funnel_context, funnel_percent, locale_badge,
    new_draft_page, page_matches, page_update, preset_color, preset_initial, preview_address,
    publish_done_message, publish_label, source_color, updated_label, utm_page_label,
    utm_preset_input, utm_url, CountTier, PageSummary, VariantStats,
};

fn page(title: &str, slug: &str, locale: &str, published: bool) -> PageSummary {
    PageSummary {
        title: title.to_string(),
        slug: slug.to_string(),
        locale: locale.to_string(),
        is_published: published,
    }
}

#[test]
fn app_and_locale_labels() {
    assert_eq!(app_label("folio-pm"), "Folio PM");
    assert_eq!(app_label("zzz"), "Product");
    assert_eq!(locale_badge("pt"), "🇧🇷 PT");
    assert_eq!(locale_badge("de"), "🇺🇸 EN");
}

#[test]
fn page_filters_search_status_and_locale() {
    let pages = vec![
        page("Spring Sale", "spring", "en", true),
        page("Winter", "winter-SALE", "pt", false),
        page("Other", "other", "en", false),
    ];
    assert_eq!(filter_pages(&pages, "SALE", "all", "all"), vec![0, 1]);
    assert_eq!(filter_pages(&pages, "", "draft", "all"), vec![1, 2]);
    assert_eq!(filter_pages(&pages, "", "published", "all"), vec![0]);
    assert_eq!(filter_pages(&pages, "", "all", "pt"), vec![1]);
    assert!(page_matches(&pages[2], "", "anything", "all"));
    assert!(!page_matches(&pages[2], "sale", "all", "all"));
}

#[test]
fn new_drafts_and_preview_addresses() {
    assert_eq!(
        new_draft_page("folio", 1700000000000),
        ("folio-draft-1700000000000".to_string(), "New Folio landing page".to_string())
    );
    assert_eq!(preview_address("folio", Some("spring")), "folio.atlas.app/lp/spring");
    assert_eq!(preview_address("anchor", None), "anchor.atlas.app/lp/preview");
    assert_eq!(publish_label(true, true), "Working…");
    assert_eq!(publish_label(false, true), "Unpublish");
    assert_eq!(publish_label(false, false), "Publish 🚀");
    assert_eq!(publish_done_message(true), "Unpublished");
    assert_eq!(publish_done_message(false), "Published!");
}

#[test]
fn page_update_leaves_out_empty_and_default_values() {
    let hero = HeroForm {
        eyebrow: String::new(),
        headline: "H".to_string(),
        headline_accent: String::new(),
        subhead: String::new(),
        proof_items: String::new(),
        pricing_eyebrow: String::new(),
        pricing_heading: String::new(),
        pricing_subtitle: String::new(),
        cta_label: String::new(),
    };
    let u = page_update(
        "".to_string(),
        "Title".to_string(),
        "".to_string(),
        "en".to_string(),
        &hero,
        vec![Json::Null],
    );
    assert_eq!(u.slug, None);
    assert_eq!(u.title, Some("Title".to_string()));
    assert_eq!(u.description, None);
    assert_eq!(u.locale, None);
    assert_eq!(u.blocks_payload, Json::Array(vec![Json::Null]));
    assert_eq!(u.hero_payload.get("headline").and_then(|v| v.as_str()), Some("H"));
    let v = page_update(
        "s".to_string(),
        "".to_string(),
        "d".to_string(),
        "pt".to_string(),
        &hero,
        vec![],
    );
    assert_eq!(v.locale, Some("pt".to_string()));
    assert_eq!(v.slug, Some("s".to_string()));
}

#[test]
fn utm_urls_join_filled_parameters() {
    assert_eq!(
        utm_url(Some("spring"), "google", "cpc", "", "ad1", ""),
        "https://folio.app/lp/spring?utm_source=google&utm_medium=cpc&utm_content=ad1"
    );
    assert_eq!(utm_url(None, "", "", "", "", ""), "https://folio.app/lp/your-page");
    assert_eq!(utm_url(None, "", "", "", "", "kw"), "https://folio.app/lp/your-page?utm_term=kw");
    assert_eq!(utm_page_label(Some("x")), "folio.app/lp/x");
    assert_eq!(utm_page_label(None), "Select a page first");
}

#[test]
fn utm_presets_need_all_core_fields() {
    let p = utm_preset_input(
        "folio".to_string(),
        "Q1".to_string(),
        "google".to_string(),
        "cpc".to_string(),
        "q1".to_string(),
        "".to_string(),
        "term".to_string(),
    )
    .expect("preset");
    assert_eq!(p.utm_content, None);
    assert_eq!(p.utm_term, Some("term".to_string()));
    assert!(utm_preset_input(
        "folio".to_string(),
        "".to_string(),
        "google".to_string(),
        "cpc".to_string(),
        "q1".to_string(),
        "".to_string(),
        "".to_string(),
    )
    .is_none());
}

#[test]
fn preset_badges() {
    assert_eq!(preset_color("google"), "#4285F4");
    assert_eq!(preset_color("Google"), "#555");
    assert_eq!(source_color("Google"), "#4285F4");
    assert_eq!(source_color("LinkedIn"), "#0077B5");
    assert_eq!(preset_initial("linkedin"), 'L');
    assert_eq!(preset_initial("9x"), '9');
    assert_eq!(preset_initial(""), '?');
}

#[test]
fn ab_winner_takes_the_last_best_score() {
    let vs = vec![
        VariantStats { lead_count: 5, view_count: 100 },
        VariantStats { lead_count: 10, view_count: 0 },
        VariantStats { lead_count: 1, view_count: 20 },
        VariantStats { lead_count: 3, view_count: 300 },
    ];
    assert_eq!(ab_winner(&vs), Some(2));
    let none = vec![VariantStats { lead_count: 1, view_count: 0 }];
    assert_eq!(ab_winner(&none), None);
}

#[test]
fn funnel_percentages_round_toward_zero() {
    assert_eq!(funnel_percent(1, 3), 33);
    assert_eq!(funnel_percent(2, 3), 66);
    assert_eq!(funnel_percent(5, 0), 0);
    assert_eq!(funnel_context(Some(("Spring", "spring")), "folio"), "Spring (/spring) · folio · 30d");
    assert_eq!(funnel_context(None, "folio"), "All folio pages · 30d");
}

#[test]
fn kpi_count_tiers_and_update_labels() {
    assert_eq!(count_tier(999), CountTier::Plain(999));
    assert_eq!(count_tier(1000), CountTier::Thousands(1000));
    assert_eq!(updated_label(1709546400, 0), Some("Mar 04".to_string()));
}

#[test]
fn editor_toolbar_texts() {
    assert_eq!(viewport_width("tablet"), "max-width:768px");
    assert_eq!(viewport_width("mobile"), "max-width:390px");
    assert_eq!(viewport_width("desktop"), "max-width:100%");
    assert_eq!(save_label(true), "Saving…");
    assert_eq!(save_label(false), "Save Draft");
    assert_eq!(publish_button_class(true), "btn-warning");
    assert_eq!(save_notice(None), "Saved!");
    assert_eq!(save_notice(Some("409")), "Save failed: 409");
    assert_eq!(publish_notice(false, None), "Published!");
    assert_eq!(publish_notice(true, Some("x")), "Publish failed: x");
}

#[test]
fn new_variants_start_empty_on_half_the_traffic() {
    let v = new_variant_payload();
    assert_eq!(v.name, "Variant B");
    assert_eq!(v.traffic_pct, Some(50));
    assert_eq!(v.is_control, Some(false));
    assert_eq!(
        v.blocks_payload,
        Some(Json::Object(vec![("blocks".to_string(), Json::Array(vec![]))]))
    );
    assert_eq!(v.hero_payload, Some(platform_admin::hero::empty_hero_payload()));
}

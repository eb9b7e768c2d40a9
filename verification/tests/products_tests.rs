use platform_admin::product_page::{
    apex_domain_text, interval_suffix, lead_row, market_label, new_variant_href,
    plan_form_for_create, plan_form_for_edit, product_form, product_route_id, product_update,
    queue_domain_alias, queue_error_toast, queue_pixel, save_plan, save_error_toast, plan_error_toast, product_saved_toast, seo_rating, seo_ring_offset, seo_score,
    status_badge_class, variant_preview_url, waitlist_prefix, PlanAction, PlanForm,
    PlanFormError, ProductRecord, ProductSaveError, QueueError,
};
use platform_admin::products::{
    accent_classes, card_description, card_domain, catalog_kpis, is_live, live_badge,
    new_product, no_activity, product_form_toast, product_href, slugify, ProductFormError, ProductSummary,
};

#[test]
fn slugs_are_lower_case_with_single_dashes() {
    assert_eq!(slugify("  Folio Broker!  "), "folio-broker");
    assert_eq!(slugify("--A  &  B--"), "a-b");
    assert_eq!(slugify("Crème brûlée 2"), "cr-me-br-l-e-2");
    assert_eq!(slugify("Crème brûlée 2").replace('-', ""), "crmebrle2");
    assert_eq!(slugify("!!!"), "");
    assert_eq!(slugify(""), "");
}

#[test]
fn slugify_twice_is_slugify_once() {
    for input in ["  Folio Broker!  ", "x__y", "ÄÖÜ end-", "a--b", "Network 2.0"] {
        let once = slugify(input);
        assert_eq!(slugify(&once), once);
        assert!(!once.starts_with('-') && !once.ends_with('-') && !once.contains("--"));
        assert!(once.chars().all(|c| c.is_ascii_lowercase() || c.is_ascii_digit() || c == '-'));
    }
}

#[test]
fn new_product_form_errors_and_slug() {
    assert_eq!(
        new_product("  Folio Broker ", ""),
        Ok(("Folio Broker".to_string(), "folio-broker".to_string()))
    );
    assert_eq!(
        new_product("Folio Broker", " My Slug "),
        Ok(("Folio Broker".to_string(), "my-slug".to_string()))
    );
    assert_eq!(new_product("   ", "x"), Err(ProductFormError::NameRequired));
    assert_eq!(new_product("???", ""), Err(ProductFormError::SlugRequired));
}

fn product(status: &str, waitlist: i32, sold: i32) -> ProductSummary {
    ProductSummary {
        id: 1,
        name: "P".to_string(),
        slug: "p".to_string(),
        status: status.to_string(),
        apex_domain: None,
        tagline: None,
        waitlist_count: waitlist,
        pre_order_sold: sold,
    }
}

#[test]
fn catalog_counts() {
    let ps = vec![product("Active", 3, 1), product("LIVE", 0, 0), product("draft", 10, -2)];
    assert_eq!(catalog_kpis(&ps), (3, 2, 12));
    assert!(is_live("Live"));
    assert!(!is_live("waitlist"));
}

#[test]
fn catalog_cards() {
    assert_eq!(accent_classes("network"), ("bg-sky-500/10", "border-sky-500/30", "bg-sky-400"));
    assert_eq!(
        accent_classes("other"),
        ("var(--cobalt-dim)", "var(--border-default)", "var(--cobalt)")
    );
    assert_eq!(card_domain(None, "folio"), "folio.rentals/landing");
    assert_eq!(card_domain(Some("folio.app".to_string()), "folio"), "folio.app");
    assert_eq!(card_description(None, "Folio"), "Enterprise-grade service engine for Folio.");
    assert_eq!(card_description(Some("T".to_string()), "Folio"), "T");
    assert_eq!(product_href(0x1), "/products/00000000-0000-0000-0000-000000000001");
    assert_eq!(live_badge(true), "● Live");
    assert_eq!(live_badge(false), "○ Draft");
    assert!(no_activity(0, 0));
    assert!(!no_activity(0, 1));
}

#[test]
fn product_page_form() {
    assert_eq!(product_route_id(Some("00000000-0000-0000-0000-000000000002")), Some(2));
    assert_eq!(product_route_id(Some("bad")), None);
    let form = product_form(ProductRecord {
        name: "Folio".to_string(),
        tagline: None,
        apex_domain: Some("folio.app".to_string()),
        status: "active".to_string(),
        slug: "folio".to_string(),
        waitlist_count: 7,
        pre_order_enabled: true,
    });
    assert_eq!(form.tagline, "");
    assert_eq!(form.domain, "folio.app");
    assert_eq!(form.waitlist_count, 7);
    assert_eq!(waitlist_prefix("folio"), Some("waitlist:folio".to_string()));
    assert_eq!(waitlist_prefix(""), None);
}

#[test]
fn seo_score_and_ring() {
    assert_eq!(seo_score("", "", ""), 40);
    assert_eq!(seo_score("n", "", ""), 60);
    assert_eq!(seo_score("n", "t", ""), 80);
    assert_eq!(seo_score("n", "t", "d"), 100);
    assert_eq!(seo_ring_offset(40), 377 - 150);
    assert_eq!(seo_ring_offset(100), 0);
    assert_eq!(seo_rating(80), "Excellent index scores. Pages are fully optimized.");
    assert_eq!(seo_rating(60), "Good. Set the missing fields above to improve ranking.");
    assert_eq!(seo_rating(40), "Needs attention. Key meta fields remain unoptimized.");
}

#[test]
fn product_save_checks() {
    assert_eq!(
        product_update(None, "N".to_string(), "".to_string()).err(),
        Some(ProductSaveError::InvalidId)
    );
    assert_eq!(
        product_update(Some(1), " ".to_string(), "".to_string()).err(),
        Some(ProductSaveError::NameEmpty)
    );
    let u = product_update(Some(1), "N".to_string(), "".to_string()).expect("ok");
    assert_eq!(u.tagline, None);
    let v = product_update(Some(1), "N".to_string(), "T".to_string()).expect("ok");
    assert_eq!(v.tagline, Some("T".to_string()));
    assert_eq!(status_badge_class("waitlist").contains("amber"), true);
    assert_eq!(status_badge_class("draft"), status_badge_class("anything"));
}

#[test]
fn billing_plan_dialog() {
    let edit = plan_form_for_edit("p1".to_string(), "Pro".to_string(), 4900, "year".to_string());
    assert_eq!(edit.price, "4900");
    match save_plan(edit) {
        Ok(PlanAction::Update(id, input)) => {
            assert_eq!(id, "p1");
            assert_eq!(input.price, 4900);
            assert_eq!(input.currency, Some("usd".to_string()));
            assert_eq!(input.interval, "year");
        }
        _ => panic!("expected an update"),
    }
    let mut fresh = plan_form_for_create();
    assert_eq!(fresh.interval, "month");
    fresh.name = "Basic".to_string();
    fresh.price = " abc ".to_string();
    match save_plan(fresh) {
        Ok(PlanAction::Create(input)) => assert_eq!(input.price, 0),
        _ => panic!("expected a new plan"),
    }
    let blank = PlanForm {
        id: None,
        name: "  ".to_string(),
        price: "1".to_string(),
        interval: "month".to_string(),
    };
    assert!(matches!(save_plan(blank), Err(PlanFormError::NameRequired)));
    assert_eq!(interval_suffix("year"), "yr");
    assert_eq!(interval_suffix("month"), "mo");
}

#[test]
fn pixels_and_domain_aliases() {
    assert_eq!(
        queue_pixel("GA4", "https://x/gtag.js"),
        Ok("Pixel 'GA4' queued for API wiring.".to_string())
    );
    assert_eq!(queue_pixel(" ", "u"), Err(QueueError::PixelFieldsRequired));
    assert_eq!(queue_pixel("n", ""), Err(QueueError::PixelFieldsRequired));
    assert_eq!(
        queue_domain_alias("miami.folio.app"),
        Ok("Domain 'miami.folio.app' queued for API wiring.".to_string())
    );
    assert_eq!(queue_domain_alias(""), Err(QueueError::AliasRequired));
    assert_eq!(apex_domain_text(""), "Not configured");
    assert_eq!(apex_domain_text("folio.app"), "folio.app");
}

#[test]
fn variant_rows() {
    assert_eq!(variant_preview_url("folio", "miami"), "/api/pub/products/folio/miami");
    assert_eq!(new_variant_href("folio"), "/products/folio/variants/new");
    assert_eq!(market_label(Some("Miami"), Some("FL"), "en"), "Miami, FL");
    assert_eq!(market_label(Some("Miami"), None, "en"), "Miami");
    assert_eq!(market_label(None, Some("FL"), "en"), "FL");
    assert_eq!(market_label(None, None, "pt-BR"), "pt-BR");
    assert_eq!(
        lead_row(None, None, Some("2024".to_string())),
        ("—".to_string(), "New".to_string(), "2024".to_string())
    );
}

#[test]
fn save_refusals_have_their_toasts() {
    assert_eq!(product_update(None, "Atlas".to_string(), String::new()), Err(ProductSaveError::InvalidId));
    assert_eq!(save_error_toast(ProductSaveError::InvalidId), ("Error", "Invalid product ID", "error"));
    assert_eq!(
        product_update(Some(1), "   ".to_string(), String::new()),
        Err(ProductSaveError::NameEmpty)
    );
    assert_eq!(
        save_error_toast(ProductSaveError::NameEmpty),
        ("Validation", "Product name cannot be empty", "error")
    );
    assert_eq!(product_saved_toast(), ("Saved", "Product details updated successfully.", "success"));
}

#[test]
fn plan_and_queue_refusals_have_their_toasts() {
    assert_eq!(plan_error_toast(PlanFormError::NameRequired), ("Error", "Plan name is required.", "error"));
    assert_eq!(queue_pixel(" ", "https://x"), Err(QueueError::PixelFieldsRequired));
    assert_eq!(
        queue_error_toast(QueueError::PixelFieldsRequired),
        ("Error", "Pixel name and script URL are required.", "error")
    );
    assert_eq!(queue_domain_alias(""), Err(QueueError::AliasRequired));
    assert_eq!(queue_error_toast(QueueError::AliasRequired), ("Error", "Domain alias is required.", "error"));
}

#[test]
fn product_form_refusals_have_their_toasts() {
    assert_eq!(new_product("  ", ""), Err(ProductFormError::NameRequired));
    assert_eq!(product_form_toast(ProductFormError::NameRequired), ("Validation", "Product name is required.", "error"));
    assert_eq!(new_product("Atlas", "!!!"), Err(ProductFormError::SlugRequired));
    assert_eq!(product_form_toast(ProductFormError::SlugRequired), ("Validation", "Product slug is required.", "error"));
}

use platform_admin::hero::{
    build_hero_payload, empty_hero_payload, hero_form, hero_payload, hero_string,
    hero_string_array, join_newlines, proof_item_lines, HeroForm,
};
use platform_admin::json::Json;
use platform_admin::blocks::raw_block_type;
use platform_admin::sections::{
    add_block, block_count_message, default_section_block, editor_kind, initial_selection,
    reset_block, EditorKind, SectionKind,
};

fn s(t: &str) -> Json {
    Json::Str(t.to_string())
}

#[test]
fn proof_items_are_trimmed_lines() {
    assert_eq!(
        proof_item_lines("  fast \n\n  \nfree\t\ncheap"),
        vec!["fast".to_string(), "free".to_string(), "cheap".to_string()]
    );
    assert!(proof_item_lines("").is_empty());
    assert_eq!(join_newlines(&vec!["a".to_string(), "b".to_string()]), "a\nb");
}

#[test]
fn hero_payload_members_in_order() {
    let p = build_hero_payload(
        "E".to_string(),
        "H".to_string(),
        "A".to_string(),
        "S".to_string(),
        "one\n two ".to_string(),
        "PE".to_string(),
        "PH".to_string(),
        "PS".to_string(),
        None,
    );
    let expected = Json::Object(vec![
        ("eyebrow".to_string(), s("E")),
        ("headline".to_string(), s("H")),
        ("headline_accent".to_string(), s("A")),
        ("subhead".to_string(), s("S")),
        ("proof_items".to_string(), Json::Array(vec![s("one"), s("two")])),
        ("pricing_eyebrow".to_string(), s("PE")),
        ("pricing_heading".to_string(), s("PH")),
        ("pricing_subtitle".to_string(), s("PS")),
    ]);
    assert_eq!(p, expected);
    assert_eq!(hero_string(&p, "headline"), "H");
    assert_eq!(hero_string_array(&p, "proof_items"), vec!["one".to_string(), "two".to_string()]);
}

#[test]
fn empty_hero_payload_has_empty_cta() {
    let p = empty_hero_payload();
    assert_eq!(hero_string(&p, "cta_label"), "");
    assert!(p.get("cta_label").is_some());
    assert_eq!(hero_string_array(&p, "proof_items"), Vec::<String>::new());
}

#[test]
fn editor_roundtrip_saves_what_it_loaded() {
    let form = HeroForm {
        eyebrow: "E".to_string(),
        headline: "H".to_string(),
        headline_accent: "A".to_string(),
        subhead: "S".to_string(),
        proof_items: " x \n\ny".to_string(),
        pricing_eyebrow: "PE".to_string(),
        pricing_heading: "PH".to_string(),
        pricing_subtitle: "PS".to_string(),
        cta_label: "Go".to_string(),
    };
    let saved = hero_payload(&form);
    let loaded = hero_form(Some(&saved));
    assert_eq!(loaded.proof_items, "x\ny");
    assert_eq!(loaded.cta_label, "Go");
    assert_eq!(hero_payload(&loaded), saved);
    let blank = hero_form(None);
    assert_eq!(blank.headline, "");
}

#[test]
fn default_blocks_of_each_kind() {
    let stats = default_section_block(&SectionKind::Stats);
    let stat = Json::Object(vec![("value".to_string(), s("")), ("label".to_string(), s(""))]);
    assert_eq!(
        stats,
        Json::Object(vec![
            ("type".to_string(), s("stats")),
            ("title".to_string(), s("")),
            ("subtitle".to_string(), s("")),
            ("items".to_string(), Json::Array(vec![stat.duplicate(), stat.duplicate(), stat])),
        ])
    );
    let cta = default_section_block(&SectionKind::Cta);
    assert_eq!(cta.get("cta_href").and_then(|v| v.as_str()), Some("#waitlist-wrap"));
    let full = default_section_block(&SectionKind::FullPage);
    assert_eq!(full, Json::Object(vec![("type".to_string(), s("full_page"))]));
    let trades: Vec<(String, String)> =
        (0..8).map(|i| (format!("k{i}"), format!("L{i}"))).collect();
    let tc = default_section_block(&SectionKind::TradeCategories(trades));
    match tc.get("items") {
        Some(Json::Array(items)) => assert_eq!(items.len(), 6),
        _ => panic!("items missing"),
    }
    let other = default_section_block(&SectionKind::Unknown("mystery".to_string()));
    assert_eq!(other.get("type").and_then(|v| v.as_str()), Some("mystery"));
}

#[test]
fn editor_kinds_and_block_actions() {
    assert_eq!(editor_kind("stats"), EditorKind::Stats);
    assert_eq!(editor_kind("rich_text"), EditorKind::RichText);
    assert_eq!(editor_kind("footer"), EditorKind::Generic);
    let mut blocks = vec![];
    let mut selected = None;
    add_block(&mut blocks, &mut selected, &SectionKind::Hero);
    add_block(&mut blocks, &mut selected, &SectionKind::Footer);
    assert_eq!(selected, Some(1));
    reset_block(&mut blocks, 0, &SectionKind::RichText);
    assert_eq!(blocks[0].get("type").and_then(|v| v.as_str()), Some("rich_text"));
    assert_eq!(initial_selection(0), None);
    assert_eq!(initial_selection(3), Some(0));
}

#[test]
fn block_count_messages() {
    assert_eq!(
        block_count_message(0),
        "No section blocks yet. Add blocks from the left panel, then save the draft."
    );
    assert_eq!(block_count_message(1), "1 section block ready to overlay Folio's designed layout.");
    assert_eq!(block_count_message(12), "12 section blocks ready to overlay Folio's designed layout.");
}

#[test]
fn fresh_blocks_report_their_kind() {
    let kinds = vec![
        (SectionKind::Stats, "stats"),
        (SectionKind::Cta, "cta"),
        (SectionKind::Hero, "hero"),
        (SectionKind::RichText, "rich_text"),
        (SectionKind::Footer, "footer"),
        (SectionKind::NavSections, "nav_sections"),
        (SectionKind::PricingIntro, "pricing_intro"),
        (SectionKind::TradeCategories(vec![("plumbing".to_string(), "Plumbing".to_string())]), "trade_categories"),
        (SectionKind::FullPage, "full_page"),
        (SectionKind::Other("faq".to_string()), "faq"),
        (SectionKind::Unknown("custom".to_string()), "custom"),
    ];
    for (kind, name) in kinds {
        assert_eq!(raw_block_type(&default_section_block(&kind)), name);
    }
}

use platform_admin::menus::{
    begin_edit, create_menu_payload, get_tenant_id, group_menus, href_label, menu_icon,
    menu_table, missing_tenant, order_input, reset_menu_form, text_less, update_menu_payload,
    visibility_label, menu_form_error_message, menu_change_message, MenuChange, MenuFormError, MenuItem,
};
use platform_admin::tenant_map::{
    filter_tenants, find_tenant, get_mock_tenants, health_color, impersonation_notice,
    merge_real_and_mock, ni_count_label, plan_badge_class, tenant_card_class, visible_ids,
    AppSummary,
};

#[test]
fn tenant_from_query() {
    assert_eq!(get_tenant_id(Some("00000000-0000-0000-0000-00000000000a")), 10);
    assert_eq!(get_tenant_id(Some("not-a-uuid")), 0);
    assert_eq!(get_tenant_id(None), 0);
    assert!(missing_tenant(0));
    assert!(!missing_tenant(10));
}

#[test]
fn menu_item_forms() {
    assert!(matches!(
        create_menu_payload("header".to_string(), "  ".to_string(), "/".to_string(), 0, true),
        Err(MenuFormError::LabelRequired)
    ));
    let p = create_menu_payload("footer".to_string(), "Home".to_string(), "/home".to_string(), 3, false)
        .expect("payload");
    assert_eq!(p.href, Some("/home".to_string()));
    assert_eq!(p.display_order, Some(3));
    assert_eq!(p.is_visible, Some(false));
    assert_eq!(p.parent_id, None);
    assert_eq!(reset_menu_form(), (String::new(), "/".to_string(), 0, true));
    let item = MenuItem {
        id: 5,
        menu_type: "header".to_string(),
        label: "Docs".to_string(),
        href: None,
        display_order: 2,
        is_visible: true,
    };
    assert_eq!(begin_edit(&item), (5, "Docs".to_string(), "/".to_string(), 2, true));
    let u = update_menu_payload("L".to_string(), "/l".to_string(), 1, false);
    assert_eq!(u.label, Some("L".to_string()));
    assert_eq!(u.is_visible, Some(false));
    assert_eq!(order_input("12", 3), 12);
    assert_eq!(order_input("x", 3), 3);
    assert_eq!(href_label(&None), "—");
    assert_eq!(visibility_label(false), "Hidden");
    assert_eq!(menu_icon("sidebar"), "view_sidebar");
    assert_eq!(menu_icon("mega"), "more_horiz");
}

#[test]
fn menus_group_in_name_order() {
    let names: Vec<String> =
        ["header", "footer", "header", "Zed", "footer"].iter().map(|s| s.to_string()).collect();
    assert_eq!(
        group_menus(&names),
        vec![
            ("Zed".to_string(), vec![3]),
            ("footer".to_string(), vec![1, 4]),
            ("header".to_string(), vec![0, 2]),
        ]
    );
    let items = vec![
        MenuItem {
            id: 1,
            menu_type: "sidebar".to_string(),
            label: "a".to_string(),
            href: None,
            display_order: 0,
            is_visible: true,
        },
        MenuItem {
            id: 2,
            menu_type: "header".to_string(),
            label: "b".to_string(),
            href: None,
            display_order: 0,
            is_visible: true,
        },
    ];
    assert_eq!(
        menu_table(&items),
        vec![("header".to_string(), vec![1]), ("sidebar".to_string(), vec![0])]
    );
    assert!(text_less("ab", "abc"));
    assert!(text_less("Z", "a"));
    assert!(!text_less("b", "ab"));
    assert!(!text_less("x", "x"));
}

#[test]
fn demo_tenants() {
    let mocks = get_mock_tenants();
    assert_eq!(mocks.len(), 6);
    assert_eq!(mocks[0].slug, "nexus-property-group");
    assert_eq!(mocks[4].location, "São Paulo, BR");
    assert_eq!((mocks[5].lat_e4, mocks[5].lng_e4), (397392, -1049903));
}

fn app(id: &str, name: &str, status: &str) -> AppSummary {
    AppSummary { tenant_id: id.to_string(), name: name.to_string(), site_status: status.to_string() }
}

#[test]
fn merge_takes_over_matching_demo_tenants() {
    let reals = vec![
        app("r1", "Harbor Media", "Suspended"),
        app("r2", "Acme Rentals", "running"),
        app("r3", "LEIRA CHICAGO PM", "active"),
        app("r4", "Beta Co", "warning"),
        app("r5", "Gamma", "offline"),
    ];
    let map = merge_real_and_mock(&reals);
    // five real applications, then the four demo tenants nobody took over
    assert_eq!(map.len(), 9);
    assert_eq!(map[0].id, "r1");
    assert_eq!(map[0].slug, "harbor-media");
    assert_eq!(map[0].health, "critical");
    assert_eq!(map[0].health_label, "⚡ Outage");
    assert_eq!(map[2].id, "r3");
    assert_eq!(map[2].slug, "leira-chicago");
    assert_eq!(map[2].health, "warning");
    assert_eq!(map[1].slug, "acme-rentals");
    assert_eq!(map[1].plan, "starter");
    assert_eq!(map[1].health, "good");
    assert_eq!((map[1].lat_e4, map[1].lng_e4), (365000, -970000));
    assert_eq!(map[3].health, "warning");
    assert_eq!((map[3].lat_e4, map[3].lng_e4), (395000, -950000));
    assert_eq!(map[4].health, "critical");
    assert_eq!((map[4].lat_e4, map[4].lng_e4), (410000, -970000));
    let tail: Vec<&str> = map[5..].iter().map(|t| t.id.as_str()).collect();
    assert_eq!(tail, vec!["t1", "t2", "t5", "t6"]);
    assert_eq!(merge_real_and_mock(&vec![]).len(), 6);
}

#[test]
fn sidebar_filters_and_labels() {
    let ts = get_mock_tenants();
    assert_eq!(filter_tenants(&ts, "enterprise", "all"), vec![0, 4, 5]);
    assert_eq!(filter_tenants(&ts, "all", "good"), vec![0, 1, 3, 4]);
    assert_eq!(filter_tenants(&ts, "starter", "warning"), vec![2]);
    assert_eq!(visible_ids(&ts, "growth", "all"), vec!["t2".to_string()]);
    assert_eq!(find_tenant(&ts, "t3"), Some(2));
    assert_eq!(find_tenant(&ts, "zz"), None);
    assert_eq!(health_color("warning"), "text-amber-400");
    assert_eq!(health_color("critical"), "text-[#ee7d77]");
    assert_eq!(plan_badge_class("growth"), "bg-[#c6fff3]/10 text-[#c6fff3] border-[#c6fff3]/20");
    assert!(tenant_card_class(true).contains("ring-1"));
    assert_eq!(impersonation_notice("acme"), "⚠ Impersonating acme — audit logged");
    assert_eq!(ni_count_label(6), "6 NIs");
}

#[test]
fn menu_messages() {
    assert_eq!(menu_form_error_message(MenuFormError::LabelRequired), "Label is required.");
    assert_eq!(menu_change_message(MenuChange::Created), "Menu item created.");
    assert_eq!(menu_change_message(MenuChange::Updated), "Menu item updated.");
    assert_eq!(menu_change_message(MenuChange::Deleted), "Menu item deleted.");
}

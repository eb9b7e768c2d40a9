use platform_admin::blocks::{
    block_string, blocks_from_payload, ensure_block_object, first_block_string,
    items_array, items_json_source, items_text, move_block, raw_block_type, remove_block, set_block_items_json,
    set_block_string, set_stats_item_string, stats_item_string,
};
use platform_admin::json::Json;

fn s(t: &str) -> Json {
    Json::Str(t.to_string())
}

fn obj(entries: Vec<(&str, Json)>) -> Json {
    Json::Object(entries.into_iter().map(|(k, v)| (k.to_string(), v)).collect())
}

#[test]
fn blocks_come_from_array_or_blocks_member() {
    let arr = Json::Array(vec![obj(vec![("type", s("cta"))])]);
    assert_eq!(blocks_from_payload(Some(&arr)).len(), 1);
    let wrapped = obj(vec![("blocks", Json::Array(vec![Json::Null, Json::Null]))]);
    assert_eq!(blocks_from_payload(Some(&wrapped)).len(), 2);
    let other = obj(vec![("blocks", s("nope"))]);
    assert!(blocks_from_payload(Some(&other)).is_empty());
    assert!(blocks_from_payload(Some(&s("x"))).is_empty());
    assert!(blocks_from_payload(None).is_empty());
}

#[test]
fn block_type_prefers_type_then_kind() {
    assert_eq!(raw_block_type(&obj(vec![("type", s("stats")), ("kind", s("cta"))])), "stats");
    assert_eq!(raw_block_type(&obj(vec![("kind", s("cta"))])), "cta");
    assert_eq!(raw_block_type(&obj(vec![("type", Json::Null), ("kind", s("cta"))])), "section");
    assert_eq!(raw_block_type(&Json::Null), "section");
}

#[test]
fn block_strings_and_first_non_empty() {
    let b = obj(vec![("title", s("")), ("heading", s("Hi")), ("n", Json::Null)]);
    assert_eq!(block_string(&b, "heading"), "Hi");
    assert_eq!(block_string(&b, "n"), "");
    assert_eq!(block_string(&b, "missing"), "");
    assert_eq!(first_block_string(&b, &["title", "heading"]), "Hi");
    assert_eq!(first_block_string(&b, &["title", "missing"]), "");
}

#[test]
fn set_block_string_reads_back_and_keeps_others() {
    let mut blocks = vec![obj(vec![("title", s("Old")), ("body", s("B"))]), s("not an object")];
    set_block_string(&mut blocks, 0, "title", "New".to_string());
    assert_eq!(block_string(&blocks[0], "title"), "New");
    assert_eq!(block_string(&blocks[0], "body"), "B");
    set_block_string(&mut blocks, 1, "title", "T".to_string());
    assert_eq!(blocks[1], obj(vec![("title", s("T"))]));
    set_block_string(&mut blocks, 5, "title", "ignored".to_string());
    assert_eq!(blocks.len(), 2);
}

#[test]
fn items_editor_source_and_update() {
    let b = obj(vec![("items", Json::Array(vec![s("a")]))]);
    assert_eq!(items_json_source(&b), Json::Array(vec![s("a")]));
    assert_eq!(items_json_source(&obj(vec![("items", s("x"))])), Json::Array(vec![]));
    let mut blocks = vec![obj(vec![("type", s("stats"))])];
    set_block_items_json(&mut blocks, 0, Some(Json::Array(vec![s("z")])));
    assert_eq!(blocks[0], obj(vec![("type", s("stats")), ("items", Json::Array(vec![s("z")]))]));
    set_block_items_json(&mut blocks, 0, Some(s("not an array")));
    set_block_items_json(&mut blocks, 0, None);
    assert_eq!(blocks[0], obj(vec![("type", s("stats")), ("items", Json::Array(vec![s("z")]))]));
}

#[test]
fn stats_items_pad_and_read_back() {
    let mut blocks = vec![obj(vec![("type", s("stats"))])];
    set_stats_item_string(&mut blocks, 0, 2, "value", "42".to_string());
    assert_eq!(stats_item_string(&blocks[0], 2, "value"), "42");
    assert_eq!(stats_item_string(&blocks[0], 0, "value"), "");
    assert_eq!(
        blocks[0],
        obj(vec![
            ("type", s("stats")),
            (
                "items",
                Json::Array(vec![
                    Json::Object(vec![]),
                    Json::Object(vec![]),
                    obj(vec![("value", s("42"))]),
                ]),
            ),
        ])
    );
    assert_eq!(stats_item_string(&blocks[0], 9, "value"), "");
}

#[test]
fn ensure_object_replaces_other_values() {
    let mut b = s("x");
    ensure_block_object(&mut b);
    assert_eq!(b, Json::Object(vec![]));
    let mut o = obj(vec![("a", s("1"))]);
    ensure_block_object(&mut o);
    assert_eq!(o, obj(vec![("a", s("1"))]));
}

#[test]
fn move_down_then_up_restores_order() {
    let mut blocks = vec![s("a"), s("b"), s("c")];
    let mut selected = Some(0);
    move_block(&mut blocks, &mut selected, 0, 1);
    assert_eq!(blocks, vec![s("b"), s("a"), s("c")]);
    assert_eq!(selected, Some(1));
    move_block(&mut blocks, &mut selected, 1, -1);
    assert_eq!(blocks, vec![s("a"), s("b"), s("c")]);
    assert_eq!(selected, Some(0));
    move_block(&mut blocks, &mut selected, 0, -1);
    move_block(&mut blocks, &mut selected, 2, 1);
    assert_eq!(blocks, vec![s("a"), s("b"), s("c")]);
    assert_eq!(selected, Some(0));
}

#[test]
fn remove_selects_the_next_block() {
    let mut blocks = vec![s("a"), s("b"), s("c")];
    let mut selected = Some(2);
    remove_block(&mut blocks, &mut selected, 2);
    assert_eq!(blocks, vec![s("a"), s("b")]);
    assert_eq!(selected, Some(1));
    remove_block(&mut blocks, &mut selected, 0);
    assert_eq!(selected, Some(0));
    remove_block(&mut blocks, &mut selected, 0);
    assert!(blocks.is_empty());
    assert_eq!(selected, None);
    let mut sel = Some(3);
    remove_block(&mut blocks, &mut sel, 0);
    assert_eq!(sel, Some(3));
}

#[test]
fn items_text_prints_pretty() {
    let items = serde_json::Value::Array(vec![serde_json::Value::from(1), serde_json::Value::from("a")]);
    assert_eq!(items_text(Some(&items)), "[\n  1,\n  \"a\"\n]");
    assert_eq!(items_text(Some(&serde_json::Value::Array(Vec::new()))), "[]");
    assert_eq!(items_text(None), "[]");
}

#[test]
fn items_array_only_for_arrays() {
    let with = obj(vec![("items", Json::Array(vec![s("a")]))]);
    assert_eq!(items_array(&with), Some(Json::Array(vec![s("a")])));
    assert_eq!(items_array(&obj(vec![("items", s("x"))])), None);
    assert_eq!(items_array(&obj(vec![("type", s("hero"))])), None);
    assert_eq!(items_array(&s("not an object")), None);
}

#[test]
fn writing_back_own_items_changes_nothing() {
    let make = || {
        vec![
            obj(vec![("items", Json::Array(vec![s("a"), s("b")])), ("type", s("stats"))]),
            obj(vec![("type", s("hero"))]),
        ]
    };
    let mut blocks = make();
    let before = make();
    let own = items_json_source(&blocks[0]);
    set_block_items_json(&mut blocks, 0, Some(own));
    assert_eq!(blocks, before);
}

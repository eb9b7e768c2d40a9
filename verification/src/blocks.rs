//! The landing-page editor's section blocks: reading and editing the JSON
//! objects that make up a page's `blocks_payload`.
use vstd::prelude::*;
use crate::json::{
    pretty_text, pretty_json,
    Json, JsonV, jv, views, first_match, field, as_text, as_items, text_or_empty, with_member,
    duplicate_items, law_member_reads_back, law_member_keeps_others, law_member_rewrite_is_identity,
};
use crate::text::{owned, char_len};

verus! {

// ── specifications ───────────────────────────────────────────────────────────

/// The section blocks held by a page's blocks payload: the payload itself when it
/// is an array, its `blocks` member when it is an object holding one, and none
/// otherwise.
pub open spec fn blocks_spec(payload: Option<JsonV>) -> Seq<JsonV> {
    match payload {
        Some(JsonV::Array(items)) => items,
        Some(JsonV::Object(es)) => match as_items(first_match(es, "blocks"@)) {
            Some(items) => items,
            None => Seq::empty(),
        },
        _ => Seq::empty(),
    }
}

/// The type a block declares: its `type` member, or its `kind` member when it
/// has no `type`; "section" when that member is missing or not a string.
pub open spec fn raw_type_spec(block: JsonV) -> Seq<char> {
    let member = match field(block, "type"@) {
        Some(v) => Some(v),
        None => field(block, "kind"@),
    };
    match as_text(member) {
        Some(s) => s,
        None => "section"@,
    }
}

/// The first of `fields` whose text in the block is not empty; empty when none is.
pub open spec fn first_text_spec(block: JsonV, fields: Seq<Seq<char>>) -> Seq<char>
    decreases fields.len(),
{
    if fields.len() == 0 {
        Seq::empty()
    } else if text_or_empty(block, fields[0]).len() > 0 {
        text_or_empty(block, fields[0])
    } else {
        first_text_spec(block, fields.drop_first())
    }
}

/// The block at `index` with `field` set to the text `value` (a block that is
/// not an object first becomes an empty object); nothing changes when there is
/// no block at `index`.
pub open spec fn set_text_spec(blocks: Seq<JsonV>, index: int, key: Seq<char>, value: Seq<char>) -> Seq<
    JsonV,
> {
    if 0 <= index < blocks.len() {
        blocks.update(index, with_member(blocks[index], key, JsonV::Str(value)))
    } else {
        blocks
    }
}

/// The `items` member of a block when it is an array; an empty array otherwise.
pub open spec fn items_source_spec(block: JsonV) -> JsonV {
    match field(block, "items"@) {
        Some(JsonV::Array(items)) => JsonV::Array(items),
        _ => JsonV::Array(Seq::empty()),
    }
}

/// The blocks with the `items` of the block at `index` replaced by `parsed`,
/// when `parsed` is an array; unchanged otherwise.
pub open spec fn set_items_spec(blocks: Seq<JsonV>, index: int, parsed: Option<JsonV>) -> Seq<JsonV> {
    match parsed {
        Some(JsonV::Array(items)) => if 0 <= index < blocks.len() {
            blocks.update(index, with_member(blocks[index], "items"@, JsonV::Array(items)))
        } else {
            blocks
        },
        _ => blocks,
    }
}

/// The text of `field` in the item at `item_index` of a block's `items`.
pub open spec fn stats_item_spec(block: JsonV, item_index: int, key: Seq<char>) -> Seq<char> {
    match as_items(field(block, "items"@)) {
        Some(items) => if 0 <= item_index < items.len() {
            text_or_empty(items[item_index], key)
        } else {
            Seq::empty()
        },
        None => Seq::empty(),
    }
}

/// A block made an object.
pub open spec fn as_object_spec(block: JsonV) -> JsonV {
    if block is Object {
        block
    } else {
        JsonV::Object(Seq::empty())
    }
}

/// The items of a block for editing: its `items` array, or none.
pub open spec fn items_or_empty(block: JsonV) -> Seq<JsonV> {
    match field(block, "items"@) {
        Some(JsonV::Array(items)) => items,
        _ => Seq::empty(),
    }
}

/// `items` extended with empty objects until it has an item at `item_index`.
pub open spec fn padded_items(items: Seq<JsonV>, item_index: int) -> Seq<JsonV> {
    if items.len() <= item_index {
        items + Seq::new((item_index + 1 - items.len()) as nat, |i: int| JsonV::Object(Seq::empty()))
    } else {
        items
    }
}

/// A block after setting `field` of its item at `item_index`: the block becomes an
/// object, its `items` an array (missing or not an array: empty), padded with
/// empty objects up to the item, the item an object, and the field the text.
pub open spec fn stats_set_block_spec(block: JsonV, item_index: int, key: Seq<char>, value: Seq<char>) -> JsonV {
    let obj = as_object_spec(block);
    let items = padded_items(items_or_empty(obj), item_index);
    let item = as_object_spec(items[item_index]);
    let new_items = items.update(item_index, with_member(item, key, JsonV::Str(value)));
    with_member(obj, "items"@, JsonV::Array(new_items))
}

/// The blocks after `set_stats_item_string`.
pub open spec fn stats_set_spec(
    blocks: Seq<JsonV>,
    block_index: int,
    item_index: int,
    key: Seq<char>,
    value: Seq<char>,
) -> Seq<JsonV> {
    if 0 <= block_index < blocks.len() {
        blocks.update(block_index, stats_set_block_spec(blocks[block_index], item_index, key, value))
    } else {
        blocks
    }
}

/// Where a block moves: one up (when it is not first) for a negative direction,
/// one down (when it is not last) otherwise.
pub open spec fn move_target(len: int, index: int, direction: int) -> Option<int> {
    if direction < 0 {
        if index >= 1 {
            Some(index - 1)
        } else {
            None
        }
    } else if index + 1 < len {
        Some(index + 1)
    } else {
        None
    }
}

/// The blocks with the entries at `a` and `b` exchanged.
pub open spec fn swapped<A>(s: Seq<A>, a: int, b: int) -> Seq<A> {
    s.update(a, s[b]).update(b, s[a])
}

// ── executable ───────────────────────────────────────────────────────────────

/// The section blocks held by a page's blocks payload.
pub fn blocks_from_payload(payload: Option<&Json>) -> (res: Vec<Json>)
    ensures
        views(res@) == blocks_spec(
            match payload {
                Some(p) => Some(p@),
                None => None,
            },
        ),
{
    match payload {
        Some(Json::Array(items)) => {
            let res = duplicate_items(items);
            let ghost p = *payload.unwrap();
            assert(views(items@) =~= jv(p)->Array_0);
            res
        },
        Some(p) => {
            if p.is_object() {
                match p.get("blocks") {
                    Some(b) => match b.as_array() {
                        Some(items) => duplicate_items(items),
                        None => Vec::new(),
                    },
                    None => Vec::new(),
                }
            } else {
                let res: Vec<Json> = Vec::new();
                assert(views(res@) =~= Seq::<JsonV>::empty());
                res
            }
        },
        None => {
            let res: Vec<Json> = Vec::new();
            assert(views(res@) =~= Seq::<JsonV>::empty());
            res
        },
    }
}

/// The type a block declares, before it is matched against the known section
/// types.
pub fn raw_block_type(block: &Json) -> (res: String)
    ensures
        res@ == raw_type_spec(block@),
{
    let member = match block.get("type") {
        Some(v) => Some(v),
        None => block.get("kind"),
    };
    match member {
        Some(v) => match v.as_str() {
            Some(s) => owned(s),
            None => owned("section"),
        },
        None => owned("section"),
    }
}

/// The text of `field` in a block; empty when it is missing or not a string.
pub fn block_string(block: &Json, key: &str) -> (res: String)
    ensures
        res@ == text_or_empty(block@, key@),
{
    match block.get(key) {
        Some(v) => match v.as_str() {
            Some(s) => owned(s),
            None => String::new(),
        },
        None => String::new(),
    }
}

/// The first non-empty text among `fields` of a block.
pub fn first_block_string(block: &Json, fields: &[&str]) -> (res: String)
    ensures
        res@ == first_text_spec(block@, fields@.map_values(|f: &str| f@)),
{
    let ghost names = fields@.map_values(|f: &str| f@);
    let mut i: usize = 0;
    assert(names.skip(0) =~= names);
    while i < fields.len()
        invariant
            i <= fields.len(),
            names == fields@.map_values(|f: &str| f@),
            first_text_spec(block@, names) == first_text_spec(block@, names.skip(i as int)),
        decreases fields.len() - i,
    {
        let value = block_string(block, fields[i]);
        assert(names.skip(i as int)[0] == fields@[i as int]@);
        assert(names.skip(i as int).drop_first() =~= names.skip(i + 1));
        if char_len(value.as_str()) > 0 {
            return value;
        }
        i = i + 1;
    }
    assert(names.skip(i as int).len() == 0);
    String::new()
}

/// Sets the text `value` of `field` in the block at `index`.
pub fn set_block_string(blocks: &mut Vec<Json>, index: usize, key: &str, value: String)
    ensures
        views(final(blocks)@) == set_text_spec(views(old(blocks)@), index as int, key@, value@),
{
    if index >= blocks.len() {
        return;
    }
    let mut b = Json::Null;
    blocks.set_and_swap(index, &mut b);
    let ghost vs = value@;
    b.set_member(key, Json::Str(value));
    blocks.set_and_swap(index, &mut b);
    proof {
        assert(views(final(blocks)@) =~= set_text_spec(views(old(blocks)@), index as int, key@, vs));
    }
}

/// What the items editor shows for a block: its `items` array, or an empty array.
pub fn items_json_source(block: &Json) -> (res: Json)
    ensures
        res@ == items_source_spec(block@),
{
    match block.get("items") {
        Some(Json::Array(items)) => {
            let copy = duplicate_items(items);
            let res = Json::Array(copy);
            proof {
                assert(jv(res)->Array_0 =~= views(copy@));
                let f = field(block@, "items"@).unwrap();
                assert(f->Array_0 =~= views(items@));
            }
            res
        },
        _ => {
            let res = Json::Array(Vec::new());
            assert(jv(res)->Array_0 =~= Seq::<JsonV>::empty());
            res
        },
    }
}

/// A block's `items` array, when it has one.
pub fn items_array(block: &Json) -> (res: Option<Json>)
    ensures
        match field(block@, "items"@) {
            Some(JsonV::Array(items)) => res matches Some(j) && j@ == JsonV::Array(items),
            _ => res is None,
        },
{
    match block.get("items") {
        Some(Json::Array(items)) => {
            let copy = duplicate_items(items);
            let res = Json::Array(copy);
            proof {
                assert(jv(res)->Array_0 =~= views(copy@));
                let f = field(block@, "items"@).unwrap();
                assert(f->Array_0 =~= views(items@));
            }
            Some(res)
        },
        _ => None,
    }
}

/// The items editor's text: `[]` for a block without an `items` array (no
/// printing then); otherwise serde_json's pretty text of the parsed form of
/// that array (`items_array`), or `[]` when printing fails.
pub fn items_text(items: Option<&serde_json::Value>) -> (res: String)
    ensures
        items is None ==> res@ == "[]"@,
        items matches Some(v) ==> res@ == match pretty_text(*v) {
            Some(t) => t,
            None => "[]"@,
        },
{
    match items {
        None => owned("[]"),
        Some(v) => match pretty_json(v) {
            Some(t) => t,
            None => owned("[]"),
        },
    }
}

/// Replaces the `items` of the block at `index` with a parsed array; text that
/// did not parse (`None`) or parsed to something else changes nothing.
pub fn set_block_items_json(blocks: &mut Vec<Json>, index: usize, parsed: Option<Json>)
    ensures
        views(final(blocks)@) == set_items_spec(
            views(old(blocks)@),
            index as int,
            match parsed {
                Some(p) => Some(p@),
                None => None,
            },
        ),
{
    let p = match parsed {
        Some(p) => p,
        None => return,
    };
    if !p.is_array() {
        return;
    }
    if index >= blocks.len() {
        return;
    }
    let ghost pv = p@;
    let mut b = Json::Null;
    blocks.set_and_swap(index, &mut b);
    b.set_member("items", p);
    blocks.set_and_swap(index, &mut b);
    proof {
        assert(views(final(blocks)@) =~= set_items_spec(views(old(blocks)@), index as int, Some(pv)));
    }
}

/// The text of `field` in the item at `item_index` of a block's `items`.
pub fn stats_item_string(block: &Json, item_index: usize, key: &str) -> (res: String)
    ensures
        res@ == stats_item_spec(block@, item_index as int, key@),
{
    match block.get("items") {
        Some(v) => match v.as_array() {
            Some(items) => if item_index < items.len() {
                assert(views(items@)[item_index as int] == items@[item_index as int]@);
                block_string(&items[item_index], key)
            } else {
                String::new()
            },
            None => String::new(),
        },
        None => String::new(),
    }
}

/// Makes a block an object (`ensure_block_object`).
pub fn ensure_block_object(block: &mut Json)
    ensures
        final(block)@ == as_object_spec(old(block)@),
{
    block.ensure_object();
}

/// A block's items for editing, extended with empty objects up to `item_index`,
/// with the item at `item_index` made an object.
fn padded_items_for(block: &Json, item_index: usize) -> (res: Vec<Json>)
    requires
        item_index < usize::MAX,
    ensures
        views(res@) == padded_items(items_or_empty(block@), item_index as int).update(
            item_index as int,
            as_object_spec(padded_items(items_or_empty(block@), item_index as int)[item_index as int]),
        ),
        res@.len() > item_index,
{
    let mut items: Vec<Json> = match block.get("items") {
        Some(Json::Array(xs)) => {
            let c = duplicate_items(xs);
            proof {
                let f = field(block@, "items"@).unwrap();
                assert(f->Array_0 =~= views(xs@));
            }
            c
        },
        _ => {
            let e: Vec<Json> = Vec::new();
            assert(views(e@) =~= Seq::<JsonV>::empty());
            e
        },
    };
    let ghost base = views(items@);
    assert(base == items_or_empty(block@));
    let ghost n0 = items.len();
    while items.len() <= item_index
        invariant
            item_index < usize::MAX,
            base.len() == n0,
            n0 <= items.len(),
            n0 <= item_index + 1 ==> items.len() <= item_index + 1,
            n0 > item_index ==> items.len() == n0,
            views(items@) == base + Seq::new(
                (items.len() - n0) as nat,
                |i: int| JsonV::Object(Seq::empty()),
            ),
        decreases item_index + 1 - items.len(),
    {
        let ghost before = views(items@);
        let e = Json::empty_object();
        let ghost ev = e@;
        items.push(e);
        assert(views(items@) =~= before.push(ev));
        assert(views(items@) =~= base + Seq::new(
            (items.len() - n0) as nat,
            |i: int| JsonV::Object(Seq::empty()),
        ));
    }
    let ghost padded = padded_items(base, item_index as int);
    proof {
        if n0 <= item_index {
            assert(views(items@) =~= padded);
        } else {
            assert(views(items@) =~= padded);
        }
    }
    let mut it = Json::Null;
    items.set_and_swap(item_index, &mut it);
    it.ensure_object();
    items.set_and_swap(item_index, &mut it);
    assert(views(items@) =~= padded.update(item_index as int, as_object_spec(padded[item_index as int])));
    items
}

/// Sets the text `value` of `field` in the item at `item_index` of the block at
/// `block_index`, creating the block's items and the item as needed.
pub fn set_stats_item_string(
    blocks: &mut Vec<Json>,
    block_index: usize,
    item_index: usize,
    key: &str,
    value: String,
)
    requires
        item_index < usize::MAX,
    ensures
        views(final(blocks)@) == stats_set_spec(
            views(old(blocks)@),
            block_index as int,
            item_index as int,
            key@,
            value@,
        ),
{
    if block_index >= blocks.len() {
        return;
    }
    let ghost vs = value@;
    let mut b = Json::Null;
    blocks.set_and_swap(block_index, &mut b);
    b.ensure_object();
    let ghost obj = b@;
    let mut items = padded_items_for(&b, item_index);
    let ghost items0 = views(items@);
    assert(items0[item_index as int] == jv(items@[item_index as int]));
    let mut it = Json::Null;
    items.set_and_swap(item_index, &mut it);
    let ghost before_set = it@;
    let ghost mid = items@;
    it.set_member(key, Json::Str(value));
    let ghost set_v = it@;
    items.set_and_swap(item_index, &mut it);
    let ghost items_v = views(items@);
    assert(items_v =~= items0.update(item_index as int, set_v)) by {
        assert forall|k: int| 0 <= k < items_v.len() implies items_v[k] == items0.update(item_index as int, set_v)[k] by {
            if k != item_index {
                assert(items@[k] == mid[k]);
            }
        }
    }
    b.set_member("items", Json::Array(items));
    blocks.set_and_swap(block_index, &mut b);
    proof {
        let padded = padded_items(items_or_empty(obj), item_index as int);
        let item = as_object_spec(padded[item_index as int]);
        assert(before_set == item);
        let new_items = padded.update(item_index as int, with_member(item, key@, JsonV::Str(vs)));
        assert(items_v =~= new_items);
        assert(jv(Json::Array(items))->Array_0 =~= items_v);
        assert(views(final(blocks)@) =~= stats_set_spec(
            views(old(blocks)@),
            block_index as int,
            item_index as int,
            key@,
            vs,
        ));
    }
}

/// Moves the block at `index` one place up (negative `direction`) or down, and
/// selects it where it lands; nothing happens at either end.
pub fn move_block(blocks: &mut Vec<Json>, selected: &mut Option<usize>, index: usize, direction: isize)
    requires
        direction < 0 && index >= 1 ==> index < old(blocks).len(),
        direction >= 0 ==> index < usize::MAX,
    ensures
        match move_target(old(blocks)@.len() as int, index as int, direction as int) {
            Some(t) => final(blocks)@ == swapped(old(blocks)@, index as int, t) && *final(selected)
                == Some(t as usize),
            None => final(blocks)@ == old(blocks)@ && *final(selected) == *old(selected),
        },
{
    let target: Option<usize> = if direction < 0 {
        if index >= 1 {
            Some(index - 1)
        } else {
            None
        }
    } else if index + 1 < blocks.len() {
        Some(index + 1)
    } else {
        None
    };
    match target {
        Some(t) => {
            let mut a = Json::Null;
            blocks.set_and_swap(index, &mut a);
            blocks.set_and_swap(t, &mut a);
            blocks.set_and_swap(index, &mut a);
            *selected = Some(t);
            proof {
                assert(final(blocks)@ =~= swapped(old(blocks)@, index as int, t as int));
            }
        },
        None => {},
    }
}

/// Removes the block at `index` and selects the block now at that place (or the
/// last one; none when no block is left); an index past the end changes nothing.
pub fn remove_block(blocks: &mut Vec<Json>, selected: &mut Option<usize>, index: usize)
    ensures
        index < old(blocks)@.len() ==> final(blocks)@ == old(blocks)@.remove(index as int),
        index < old(blocks)@.len() ==> *final(selected) == (if final(blocks)@.len() == 0 {
            None
        } else if index < final(blocks)@.len() {
            Some(index)
        } else {
            Some((final(blocks)@.len() - 1) as usize)
        }),
        index >= old(blocks)@.len() ==> final(blocks)@ == old(blocks)@,
        index >= old(blocks)@.len() ==> *final(selected) == *old(selected),
{
    if index >= blocks.len() {
        return;
    }
    blocks.remove(index);
    if blocks.len() == 0 {
        *selected = None;
    } else if index < blocks.len() {
        *selected = Some(index);
    } else {
        *selected = Some(blocks.len() - 1);
    }
}

// ── laws ─────────────────────────────────────────────────────────────────────

/// A block field that was just set reads back the text that was written.
pub proof fn law_block_string_reads_back(blocks: Seq<JsonV>, index: int, key: Seq<char>, value: Seq<char>)
    requires
        0 <= index < blocks.len(),
    ensures
        text_or_empty(set_text_spec(blocks, index, key, value)[index], key) == value,
{
    let b = blocks[index];
    match b {
        JsonV::Object(es) => law_member_reads_back(es, key, JsonV::Str(value)),
        _ => law_member_reads_back(Seq::empty(), key, JsonV::Str(value)),
    }
}

/// Setting one field of a block leaves its other fields, and every other block,
/// as they were (a block that was not an object had no fields to keep).
pub proof fn law_block_string_keeps_others(
    blocks: Seq<JsonV>,
    index: int,
    key: Seq<char>,
    value: Seq<char>,
    other: Seq<char>,
    j: int,
)
    requires
        0 <= j < blocks.len(),
        blocks[index] is Object || j != index,
        other != key,
    ensures
        j != index ==> set_text_spec(blocks, index, key, value)[j] == blocks[j],
        field(set_text_spec(blocks, index, key, value)[j], other) == field(blocks[j], other),
{
    if j == index {
        law_member_keeps_others(blocks[index]->Object_0, key, JsonV::Str(value), other);
    }
}

/// A stats item field that was just set reads back the text that was written.
pub proof fn law_stats_item_reads_back(
    blocks: Seq<JsonV>,
    block_index: int,
    item_index: int,
    key: Seq<char>,
    value: Seq<char>,
)
    requires
        0 <= block_index < blocks.len(),
        0 <= item_index,
    ensures
        stats_item_spec(
            stats_set_spec(blocks, block_index, item_index, key, value)[block_index],
            item_index,
            key,
        ) == value,
{
    let obj = as_object_spec(blocks[block_index]);
    let items = padded_items(items_or_empty(obj), item_index);
    let item = as_object_spec(items[item_index]);
    let new_item = with_member(item, key, JsonV::Str(value));
    let new_items = items.update(item_index, new_item);
    law_member_reads_back(obj->Object_0, "items"@, JsonV::Array(new_items));
    law_member_reads_back(item->Object_0, key, JsonV::Str(value));
}

/// Moving a block down and then back up restores the blocks and selects it again.
pub proof fn law_move_down_then_up(blocks: Seq<JsonV>, index: int)
    requires
        0 <= index,
        index + 1 < blocks.len(),
    ensures
        move_target(blocks.len() as int, index, 1) == Some(index + 1),
        move_target(blocks.len() as int, index + 1, -1) == Some(index),
        swapped(swapped(blocks, index, index + 1), index + 1, index) == blocks,
{
    assert(swapped(swapped(blocks, index, index + 1), index + 1, index) =~= blocks);
}

/// Writing back the items a block already has (what the items editor was
/// given for it) leaves the blocks as they were.
pub proof fn law_items_write_back_unchanged(blocks: Seq<JsonV>, index: int)
    requires
        0 <= index < blocks.len(),
        field(blocks[index], "items"@) matches Some(JsonV::Array(_)),
    ensures
        set_items_spec(blocks, index, Some(items_source_spec(blocks[index]))) == blocks,
{
    let es = blocks[index]->Object_0;
    law_member_rewrite_is_identity(es, "items"@, field(blocks[index], "items"@).unwrap());
    assert(blocks.update(index, blocks[index]) =~= blocks);
}

} // verus!

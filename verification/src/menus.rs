//! Navigation menus: the tenant a page edits, the item forms, and the table
//! of items grouped by menu, menus in order of their names.
use vstd::prelude::*;
use crate::text::{trim_spec, is_blank, chars_of, str_eq, owned, opt_view, parse_i32, parse_i32_spec};
use crate::ids::{uuid_parse, uuid_parsed};
use crate::audit::{Group, groups_view, headings_view, filed};

verus! {

// ── the tenant ───────────────────────────────────────────────────────────────

/// The tenant a page edits: the `tenant_id` query value read as a UUID, the
/// nil UUID (zero) when it is missing or is no UUID.
pub fn get_tenant_id(query_value: Option<&str>) -> (res: u128)
    ensures
        res == match query_value {
            Some(s) => match uuid_parsed(s@) {
                Some(u) => u,
                None => 0,
            },
            None => 0,
        },
{
    match query_value {
        Some(s) => match uuid_parse(s) {
            Some(u) => u,
            None => 0,
        },
        None => 0,
    }
}

/// Whether the page has no tenant to edit (the nil UUID).
pub fn missing_tenant(tenant_id: u128) -> (res: bool)
    ensures
        res == (tenant_id == 0),
{
    tenant_id == 0
}

// ── menu items ───────────────────────────────────────────────────────────────

/// A navigation item as the menu service returns it.
#[derive(Debug, PartialEq)]
pub struct MenuItem {
    pub id: u128,
    pub menu_type: String,
    pub label: String,
    pub href: Option<String>,
    pub display_order: i32,
    pub is_visible: bool,
}

/// What the form sends to create an item.
#[derive(Debug, PartialEq)]
pub struct CreateMenuPayload {
    pub menu_type: String,
    pub label: String,
    pub href: Option<String>,
    pub parent_id: Option<u128>,
    pub display_order: Option<i32>,
    pub is_visible: Option<bool>,
}

/// What the form sends to update an item.
#[derive(Debug, PartialEq)]
pub struct UpdateMenuPayload {
    pub label: Option<String>,
    pub href: Option<String>,
    pub parent_id: Option<u128>,
    pub display_order: Option<i32>,
    pub is_visible: Option<bool>,
}

/// Why the form refuses to create an item.
#[derive(PartialEq, Eq, Structural, Clone, Copy, Debug)]
pub enum MenuFormError {
    LabelRequired,
}

/// The item the form creates; a blank label is refused. The item has no
/// parent, and the form's address, order and visibility.
pub fn create_menu_payload(
    menu_type: String,
    label: String,
    href: String,
    display_order: i32,
    is_visible: bool,
) -> (res: Result<CreateMenuPayload, MenuFormError>)
    ensures
        trim_spec(label@).len() == 0 <==> res is Err,
        res matches Ok(p) ==> {
            &&& p.menu_type@ == menu_type@
            &&& p.label@ == label@
            &&& opt_view(p.href) == Some(href@)
            &&& p.parent_id is None
            &&& p.display_order == Some(display_order)
            &&& p.is_visible == Some(is_visible)
        },
{
    if is_blank(label.as_str()) {
        return Err(MenuFormError::LabelRequired);
    }
    Ok(
        CreateMenuPayload {
            menu_type,
            label,
            href: Some(href),
            parent_id: None,
            display_order: Some(display_order),
            is_visible: Some(is_visible),
        },
    )
}

/// The editor's message for a refused item.
pub fn menu_form_error_message(e: MenuFormError) -> (res: &'static str)
    ensures
        e == MenuFormError::LabelRequired ==> res@ == "Label is required."@,
{
    match e {
        MenuFormError::LabelRequired => "Label is required.",
    }
}

/// A change the service made to a menu item.
#[derive(PartialEq, Eq, Structural, Clone, Copy, Debug)]
pub enum MenuChange {
    Created,
    Updated,
    Deleted,
}

/// The editor's message after the service made a change.
pub fn menu_change_message(change: MenuChange) -> (res: &'static str)
    ensures
        change == MenuChange::Created ==> res@ == "Menu item created."@,
        change == MenuChange::Updated ==> res@ == "Menu item updated."@,
        change == MenuChange::Deleted ==> res@ == "Menu item deleted."@,
{
    match change {
        MenuChange::Created => "Menu item created.",
        MenuChange::Updated => "Menu item updated.",
        MenuChange::Deleted => "Menu item deleted.",
    }
}

/// The editor after the service answered a change, given the item being
/// edited: the item still being edited (none after a saved edit), whether the
/// items are fetched again (on success only) and the message shown (the
/// change's message, or the service's reason). A created item also resets the
/// form (`reset_menu_form`).
pub fn menu_change_done(change: MenuChange, editing: Option<u128>, reply: Result<(), String>) -> (res: (
    Option<u128>,
    bool,
    String,
))
    ensures
        reply is Ok ==> res.0 == (if change == MenuChange::Updated {
            None
        } else {
            editing
        }) && res.1 && res.2@ == (match change {
            MenuChange::Created => "Menu item created."@,
            MenuChange::Updated => "Menu item updated."@,
            MenuChange::Deleted => "Menu item deleted."@,
        }),
        reply matches Err(e) ==> res.0 == editing && !res.1 && res.2@ == e@,
{
    match reply {
        Ok(()) => {
            let now = match change {
                MenuChange::Updated => None,
                _ => editing,
            };
            (now, true, owned(menu_change_message(change)))
        },
        Err(e) => (editing, false, e),
    }
}

/// The form's fields after an item was created: label, address, order and
/// visibility back to their defaults.
pub fn reset_menu_form() -> (res: (String, String, i32, bool))
    ensures
        res.0@.len() == 0,
        res.1@ == "/"@,
        res.2 == 0,
        res.3,
{
    (String::new(), owned("/"), 0, true)
}

/// The edit row's fields for an item: its label, address (`/` when it has
/// none), order and visibility.
pub fn begin_edit(item: &MenuItem) -> (res: (u128, String, String, i32, bool))
    ensures
        res.0 == item.id,
        res.1@ == item.label@,
        res.2@ == match item.href {
            Some(h) => h@,
            None => "/"@,
        },
        res.3 == item.display_order,
        res.4 == item.is_visible,
{
    let href = match &item.href {
        Some(h) => owned(h.as_str()),
        None => owned("/"),
    };
    (item.id, owned(item.label.as_str()), href, item.display_order, item.is_visible)
}

/// The update the edit row sends: every field set, no parent.
pub fn update_menu_payload(label: String, href: String, display_order: i32, is_visible: bool) -> (res:
    UpdateMenuPayload)
    ensures
        opt_view(res.label) == Some(label@),
        opt_view(res.href) == Some(href@),
        res.parent_id is None,
        res.display_order == Some(display_order),
        res.is_visible == Some(is_visible),
{
    UpdateMenuPayload {
        label: Some(label),
        href: Some(href),
        parent_id: None,
        display_order: Some(display_order),
        is_visible: Some(is_visible),
    }
}

/// The order field after typing: the typed number, or the old order when the
/// text is no `i32`.
pub fn order_input(text: &str, current: i32) -> (res: i32)
    ensures
        res == match parse_i32_spec(text@) {
            Some(v) => v as i32,
            None => current,
        },
{
    match parse_i32(text) {
        Some(v) => v,
        None => current,
    }
}

/// The address an item's row shows (a dash when it has none).
pub fn href_label(href: &Option<String>) -> (res: String)
    ensures
        res@ == match href {
            Some(h) => h@,
            None => "—"@,
        },
{
    match href {
        Some(h) => owned(h.as_str()),
        None => owned("—"),
    }
}

/// The badge of a visible or hidden item.
pub fn visibility_label(is_visible: bool) -> (res: &'static str)
    ensures
        res@ == (if is_visible {
            "Visible"@
        } else {
            "Hidden"@
        }),
{
    if is_visible {
        "Visible"
    } else {
        "Hidden"
    }
}

pub open spec fn menu_icon_spec(menu_type: Seq<char>) -> Seq<char> {
    if menu_type == "header"@ {
        "menu"@
    } else if menu_type == "footer"@ {
        "bottom_panel_open"@
    } else if menu_type == "sidebar"@ {
        "view_sidebar"@
    } else {
        "more_horiz"@
    }
}

/// The icon of a menu's group.
pub fn menu_icon(menu_type: &str) -> (res: &'static str)
    ensures
        res@ == menu_icon_spec(menu_type@),
{
    if str_eq(menu_type, "header") {
        "menu"
    } else if str_eq(menu_type, "footer") {
        "bottom_panel_open"
    } else if str_eq(menu_type, "sidebar") {
        "view_sidebar"
    } else {
        "more_horiz"
    }
}

// ── the order of menu names ──────────────────────────────────────────────────

/// The order of `String`: character by character by code point (which is the
/// order of the UTF-8 bytes), a proper prefix first.
pub open spec fn text_lt(a: Seq<char>, b: Seq<char>) -> bool
    decreases a.len(),
{
    if a.len() == 0 {
        b.len() > 0
    } else if b.len() == 0 {
        false
    } else if a[0] != b[0] {
        a[0] < b[0]
    } else {
        text_lt(a.drop_first(), b.drop_first())
    }
}

proof fn lemma_text_lt_irreflexive(a: Seq<char>)
    ensures
        !text_lt(a, a),
    decreases a.len(),
{
    if a.len() > 0 {
        lemma_text_lt_irreflexive(a.drop_first());
    }
}

proof fn lemma_text_lt_transitive(a: Seq<char>, b: Seq<char>, c: Seq<char>)
    requires
        text_lt(a, b),
        text_lt(b, c),
    ensures
        text_lt(a, c),
    decreases a.len(),
{
    if a.len() > 0 && b.len() > 0 && c.len() > 0 && a[0] == b[0] && b[0] == c[0] {
        lemma_text_lt_transitive(a.drop_first(), b.drop_first(), c.drop_first());
    }
}

proof fn lemma_text_lt_total(a: Seq<char>, b: Seq<char>)
    requires
        a != b,
    ensures
        text_lt(a, b) || text_lt(b, a),
    decreases a.len(),
{
    if a.len() > 0 && b.len() > 0 && a[0] == b[0] {
        if a.drop_first() == b.drop_first() {
            assert(a =~= seq![a[0]] + a.drop_first());
            assert(b =~= seq![b[0]] + b.drop_first());
        }
        lemma_text_lt_total(a.drop_first(), b.drop_first());
    } else if a.len() == 0 && b.len() == 0 {
        assert(a =~= b);
    }
}

proof fn lemma_text_lt_asymmetric(a: Seq<char>, b: Seq<char>)
    requires
        text_lt(a, b),
    ensures
        !text_lt(b, a),
    decreases a.len(),
{
    if a.len() > 0 && b.len() > 0 && a[0] == b[0] {
        lemma_text_lt_asymmetric(a.drop_first(), b.drop_first());
    }
}

/// The order of menu names is a strict total order: no name is below itself,
/// two names are never each below the other, it is transitive, and of two
/// different names one is below the other.
pub proof fn law_text_order(a: Seq<char>, b: Seq<char>, c: Seq<char>)
    ensures
        !text_lt(a, a),
        text_lt(a, b) ==> !text_lt(b, a),
        text_lt(a, b) && text_lt(b, c) ==> text_lt(a, c),
        a != b ==> text_lt(a, b) || text_lt(b, a),
{
    lemma_text_lt_irreflexive(a);
    if text_lt(a, b) {
        lemma_text_lt_asymmetric(a, b);
        if text_lt(b, c) {
            lemma_text_lt_transitive(a, b, c);
        }
    }
    if a != b {
        lemma_text_lt_total(a, b);
    }
}

/// `a < b` on strings.
pub fn text_less(a: &str, b: &str) -> (res: bool)
    ensures
        res == text_lt(a@, b@),
{
    let x = chars_of(a);
    let y = chars_of(b);
    let mut i: usize = 0;
    assert(a@.skip(0) =~= a@ && b@.skip(0) =~= b@);
    while i < x.len() && i < y.len() && x[i] == y[i]
        invariant
            x@ == a@,
            y@ == b@,
            i <= x.len(),
            i <= y.len(),
            text_lt(a@, b@) == text_lt(a@.skip(i as int), b@.skip(i as int)),
        decreases x.len() - i,
    {
        let ghost xs = a@.skip(i as int);
        let ghost ys = b@.skip(i as int);
        assert(xs.drop_first() =~= a@.skip(i + 1));
        assert(ys.drop_first() =~= b@.skip(i + 1));
        i = i + 1;
    }
    let ghost xs = a@.skip(i as int);
    let ghost ys = b@.skip(i as int);
    if i == x.len() {
        i < y.len()
    } else if i == y.len() {
        false
    } else {
        assert(xs[0] == x@[i as int] && ys[0] == y@[i as int]);
        x[i] < y[i]
    }
}

// ── grouping by menu ─────────────────────────────────────────────────────────

/// The place for heading `h` among groups ordered by heading: the first group
/// from `g` on whose heading is not below `h`.
pub open spec fn sorted_index_from(gs: Seq<Group>, h: Seq<char>, g: int) -> int
    decreases gs.len() - g,
{
    if g >= gs.len() {
        gs.len() as int
    } else if !text_lt(gs[g].0, h) {
        g
    } else {
        sorted_index_from(gs, h, g + 1)
    }
}

/// Files position `i` under heading `h`, keeping the groups ordered by
/// heading: into the group with that heading, or into a new group in its place.
pub open spec fn file_sorted(gs: Seq<Group>, h: Seq<char>, i: usize) -> Seq<Group> {
    let g = sorted_index_from(gs, h, 0);
    if g < gs.len() && gs[g].0 == h {
        gs.update(g, (gs[g].0, gs[g].1.push(i)))
    } else {
        gs.insert(g, (h, seq![i]))
    }
}

/// The menu groups of a list of menu names: each position filed in turn.
pub open spec fn menu_groups_spec(hs: Seq<Seq<char>>) -> Seq<Group>
    decreases hs.len(),
{
    if hs.len() == 0 {
        seq![]
    } else {
        file_sorted(menu_groups_spec(hs.drop_last()), hs.last(), (hs.len() - 1) as usize)
    }
}

proof fn lemma_sorted_index_from(gs: Seq<Group>, h: Seq<char>, g: int)
    requires
        0 <= g <= gs.len(),
    ensures
        g <= sorted_index_from(gs, h, g) <= gs.len(),
        sorted_index_from(gs, h, g) < gs.len() ==> !text_lt(gs[sorted_index_from(gs, h, g)].0, h),
        forall|k: int| g <= k < sorted_index_from(gs, h, g) ==> text_lt(gs[k].0, h),
    decreases gs.len() - g,
{
    if g < gs.len() && text_lt(gs[g].0, h) {
        lemma_sorted_index_from(gs, h, g + 1);
    }
}

/// Groups items by their menu names: one group per name, names in `String`
/// order, each group holding its positions in order.
pub fn group_menus(menu_types: &Vec<String>) -> (res: Vec<(String, Vec<usize>)>)
    ensures
        groups_view(res@) == menu_groups_spec(headings_view(menu_types@)),
{
    let mut groups: Vec<(String, Vec<usize>)> = Vec::new();
    let mut i: usize = 0;
    while i < menu_types.len()
        invariant
            i <= menu_types.len(),
            groups_view(groups@) == menu_groups_spec(headings_view(menu_types@).take(i as int)),
        decreases menu_types.len() - i,
    {
        let ghost hs = headings_view(menu_types@);
        let ghost before = groups_view(groups@);
        assert(hs.take(i + 1).drop_last() =~= hs.take(i as int));
        let h = menu_types[i].as_str();
        let mut g: usize = 0;
        while g < groups.len() && text_less(groups[g].0.as_str(), h)
            invariant
                g <= groups.len(),
                before == groups_view(groups@),
                sorted_index_from(before, h@, 0) == sorted_index_from(before, h@, g as int),
            decreases groups.len() - g,
        {
            g = g + 1;
        }
        proof {
            lemma_sorted_index_from(before, h@, g as int);
        }
        if g < groups.len() && str_eq(groups[g].0.as_str(), h) {
            let (key, mut members) = groups.remove(g);
            members.push(i);
            groups.insert(g, (key, members));
            assert(groups_view(groups@) =~= file_sorted(before, h@, i));
        } else {
            let mut members: Vec<usize> = Vec::new();
            members.push(i);
            groups.insert(g, (owned(h), members));
            assert(groups_view(groups@) =~= file_sorted(before, h@, i));
        }
        i = i + 1;
    }
    assert(headings_view(menu_types@).take(i as int) =~= headings_view(menu_types@));
    groups
}

/// The menu table: the items grouped by menu name (positions into `items`).
pub fn menu_table(items: &Vec<MenuItem>) -> (res: Vec<(String, Vec<usize>)>)
    ensures
        groups_view(res@) == menu_groups_spec(Seq::new(items@.len(), |k: int| items@[k].menu_type@)),
{
    let mut names: Vec<String> = Vec::new();
    let mut i: usize = 0;
    while i < items.len()
        invariant
            i <= items.len(),
            names@.len() == i,
            forall|k: int| 0 <= k < i ==> (#[trigger] names@[k])@ == items@[k].menu_type@,
        decreases items.len() - i,
    {
        names.push(owned(items[i].menu_type.as_str()));
        i = i + 1;
    }
    assert(headings_view(names@) =~= Seq::new(items@.len(), |k: int| items@[k].menu_type@));
    group_menus(&names)
}

/// What it is for groups to file the positions of a list of menu names in
/// name order: every group is non-empty and files positions whose name is the
/// group's, in increasing order; the groups' names strictly increase; and
/// every position is filed.
pub open spec fn files_in_order(hs: Seq<Seq<char>>, gs: Seq<Group>) -> bool {
    &&& forall|g: int| 0 <= g < gs.len() ==> (#[trigger] gs[g]).1.len() > 0
    &&& forall|g: int, k: int|
        0 <= g < gs.len() && 0 <= k < gs[g].1.len() ==> (#[trigger] gs[g].1[k] as int) < hs.len()
            && hs[gs[g].1[k] as int] == gs[g].0
    &&& forall|g: int, a: int, b: int|
        0 <= g < gs.len() && 0 <= a < b < gs[g].1.len() ==> #[trigger] gs[g].1[a]
            < #[trigger] gs[g].1[b]
    &&& forall|g1: int, g2: int|
        0 <= g1 < g2 < gs.len() ==> text_lt((#[trigger] gs[g1]).0, (#[trigger] gs[g2]).0)
    &&& forall|i: int| 0 <= i < hs.len() ==> #[trigger] filed(gs, i)
}

/// The menu table files every item under its own menu, exactly once, menus in
/// the order of their names and items in their order.
pub proof fn law_menu_groups_in_order(hs: Seq<Seq<char>>)
    requires
        hs.len() <= usize::MAX,
    ensures
        files_in_order(hs, menu_groups_spec(hs)),
    decreases hs.len(),
{
    if hs.len() > 0 {
        let prev_hs = hs.drop_last();
        law_menu_groups_in_order(prev_hs);
        let gs = menu_groups_spec(prev_hs);
        let h = hs.last();
        let n = (hs.len() - 1) as usize;
        let out = menu_groups_spec(hs);
        assert(out == file_sorted(gs, h, n));
        lemma_sorted_index_from(gs, h, 0);
        let gi = sorted_index_from(gs, h, 0);
        assert forall|g: int, k: int| 0 <= g < gs.len() && 0 <= k < gs[g].1.len() implies (
        #[trigger] gs[g].1[k]) < n by {}
        if gi < gs.len() && gs[gi].0 == h {
            assert forall|g: int| 0 <= g < out.len() implies (#[trigger] out[g]).1.len() > 0 by {}
            assert forall|g: int, k: int| 0 <= g < out.len() && 0 <= k < out[g].1.len() implies (
            #[trigger] out[g].1[k] as int) < hs.len() && hs[out[g].1[k] as int] == out[g].0 by {
                if g == gi && k == gs[g].1.len() {
                } else {
                    assert(out[g].1[k] == gs[g].1[k]);
                    assert(prev_hs[gs[g].1[k] as int] == hs[gs[g].1[k] as int]);
                }
            }
            assert forall|g: int, a: int, b: int|
                0 <= g < out.len() && 0 <= a < b < out[g].1.len() implies #[trigger] out[g].1[a]
                < #[trigger] out[g].1[b] by {
                assert(out[g].1[a] == gs[g].1[a]);
                if g == gi && b == gs[g].1.len() {
                } else {
                    assert(out[g].1[b] == gs[g].1[b]);
                }
            }
            assert forall|g1: int, g2: int| 0 <= g1 < g2 < out.len() implies text_lt(
                (#[trigger] out[g1]).0,
                (#[trigger] out[g2]).0,
            ) by {
                assert(out[g1].0 == gs[g1].0);
                assert(out[g2].0 == gs[g2].0);
            }
            assert forall|i: int| 0 <= i < hs.len() implies #[trigger] filed(out, i) by {
                if i == n {
                    assert(out[gi].1[gs[gi].1.len() as int] == i as usize);
                } else {
                    assert(filed(gs, i));
                    let (g, k) = choose|g: int, k: int|
                        0 <= g < gs.len() && 0 <= k < gs[g].1.len() && #[trigger] gs[g].1[k]
                            == i as usize;
                    assert(out[g].1[k] == gs[g].1[k]);
                }
            }
        } else {
            // a new group in its place
            if gi < gs.len() {
                lemma_text_lt_total(h, gs[gi].0);
            }
            assert forall|g: int| 0 <= g < out.len() implies (#[trigger] out[g]).1.len() > 0 by {
                if g > gi {
                    assert(out[g] == gs[g - 1]);
                } else if g < gi {
                    assert(out[g] == gs[g]);
                }
            }
            assert forall|g: int, k: int| 0 <= g < out.len() && 0 <= k < out[g].1.len() implies (
            #[trigger] out[g].1[k] as int) < hs.len() && hs[out[g].1[k] as int] == out[g].0 by {
                if g < gi {
                    assert(out[g] == gs[g]);
                    assert(prev_hs[gs[g].1[k] as int] == hs[gs[g].1[k] as int]);
                } else if g > gi {
                    assert(out[g] == gs[g - 1]);
                    assert(prev_hs[gs[g - 1].1[k] as int] == hs[gs[g - 1].1[k] as int]);
                }
            }
            assert forall|g: int, a: int, b: int|
                0 <= g < out.len() && 0 <= a < b < out[g].1.len() implies #[trigger] out[g].1[a]
                < #[trigger] out[g].1[b] by {
                if g < gi {
                    assert(out[g] == gs[g]);
                } else if g > gi {
                    assert(out[g] == gs[g - 1]);
                }
            }
            assert forall|g1: int, g2: int| 0 <= g1 < g2 < out.len() implies text_lt(
                (#[trigger] out[g1]).0,
                (#[trigger] out[g2]).0,
            ) by {
                if g2 < gi {
                    assert(out[g1] == gs[g1] && out[g2] == gs[g2]);
                } else if g2 == gi {
                    assert(out[g1] == gs[g1]);
                } else if g1 > gi {
                    assert(out[g1] == gs[g1 - 1] && out[g2] == gs[g2 - 1]);
                } else if g1 == gi {
                    assert(out[g2] == gs[g2 - 1]);
                    assert(text_lt(h, gs[gi].0));
                    if g2 - 1 > gi {
                        assert(text_lt(gs[gi].0, gs[g2 - 1].0));
                        lemma_text_lt_transitive(h, gs[gi].0, gs[g2 - 1].0);
                    }
                } else {
                    assert(out[g1] == gs[g1] && out[g2] == gs[g2 - 1]);
                }
            }
            assert forall|i: int| 0 <= i < hs.len() implies #[trigger] filed(out, i) by {
                if i == n {
                    assert(out[gi].1[0] == i as usize);
                } else {
                    assert(filed(gs, i));
                    let (g, k) = choose|g: int, k: int|
                        0 <= g < gs.len() && 0 <= k < gs[g].1.len() && #[trigger] gs[g].1[k]
                            == i as usize;
                    if g < gi {
                        assert(out[g] == gs[g]);
                        assert(out[g].1[k] == i as usize);
                    } else {
                        assert(out[g + 1] == gs[g]);
                        assert(out[g + 1].1[k] == i as usize);
                    }
                }
            }
        }
    }
}

} // verus!

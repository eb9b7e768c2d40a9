//! Section block types: the fresh block each type starts from, and the editor
//! actions that add, reset and count blocks.
use vstd::prelude::*;
use crate::json::{Json, JsonV, jv, views, object_of, array_of, field};
use crate::blocks::raw_type_spec;
use crate::text::{owned, str_eq, decimal_unsigned, nat_digits, concat3};

verus! {

/// A section block type, as the shared marketing catalogue classifies a name.
#[derive(Debug, PartialEq)]
pub enum SectionKind {
    Stats,
    Cta,
    Hero,
    RichText,
    Footer,
    NavSections,
    PricingIntro,
    /// Vendor trade categories; holds the catalogue's trades in order, each as
    /// its key and its default label.
    TradeCategories(Vec<(String, String)>),
    FullPage,
    /// Another known section type, by its canonical name.
    Other(String),
    /// A name that is no known section type.
    Unknown(String),
}

/// Which field editor a block gets.
#[derive(PartialEq, Eq, Structural, Clone, Copy, Debug)]
pub enum EditorKind {
    Stats,
    Cta,
    Hero,
    RichText,
    Generic,
}

pub open spec fn str_v(s: Seq<char>) -> JsonV {
    JsonV::Str(s)
}

/// A stats item with an empty value and label.
pub open spec fn empty_stat() -> JsonV {
    JsonV::Object(seq![("value"@, str_v(Seq::empty())), ("label"@, str_v(Seq::empty()))])
}

/// The catalogue entry for a trade.
pub open spec fn trade_item(key: Seq<char>, label: Seq<char>) -> JsonV {
    JsonV::Object(seq![("key"@, str_v(key)), ("label"@, str_v(label))])
}

/// The first six trades of the catalogue, as block items.
pub open spec fn trade_items(trades: Seq<(String, String)>) -> Seq<JsonV> {
    let n = if trades.len() < 6 {
        trades.len()
    } else {
        6
    };
    Seq::new(n as nat, |i: int| trade_item(trades[i].0@, trades[i].1@))
}

/// A block of `name` with an empty title, subtitle and items.
pub open spec fn generic_block(name: Seq<char>) -> JsonV {
    JsonV::Object(
        seq![
            ("type"@, str_v(name)),
            ("title"@, str_v(Seq::empty())),
            ("subtitle"@, str_v(Seq::empty())),
            ("items"@, JsonV::Array(Seq::empty())),
        ],
    )
}

/// The name a section type goes by: the catalogue's canonical name, or the
/// name as given for one the catalogue does not know.
pub open spec fn kind_name(kind: SectionKind) -> Seq<char> {
    match kind {
        SectionKind::Stats => "stats"@,
        SectionKind::Cta => "cta"@,
        SectionKind::Hero => "hero"@,
        SectionKind::RichText => "rich_text"@,
        SectionKind::Footer => "footer"@,
        SectionKind::NavSections => "nav_sections"@,
        SectionKind::PricingIntro => "pricing_intro"@,
        SectionKind::TradeCategories(_) => "trade_categories"@,
        SectionKind::FullPage => "full_page"@,
        SectionKind::Other(name) => name@,
        SectionKind::Unknown(name) => name@,
    }
}

/// The fresh block of each section type.
pub open spec fn default_block_spec(kind: SectionKind) -> JsonV {
    match kind {
        SectionKind::Stats => JsonV::Object(
            seq![
                ("type"@, str_v("stats"@)),
                ("title"@, str_v(Seq::empty())),
                ("subtitle"@, str_v(Seq::empty())),
                ("items"@, JsonV::Array(seq![empty_stat(), empty_stat(), empty_stat()])),
            ],
        ),
        SectionKind::Cta => JsonV::Object(
            seq![
                ("type"@, str_v("cta"@)),
                ("title"@, str_v(Seq::empty())),
                ("body"@, str_v(Seq::empty())),
                ("cta_label"@, str_v("Join the Waitlist"@)),
                ("cta_href"@, str_v("#waitlist-wrap"@)),
            ],
        ),
        SectionKind::Hero => JsonV::Object(
            seq![
                ("type"@, str_v("hero"@)),
                ("eyebrow"@, str_v(Seq::empty())),
                ("title"@, str_v(Seq::empty())),
                ("subtitle"@, str_v(Seq::empty())),
                ("cta_label"@, str_v("Join the Waitlist"@)),
                ("cta_href"@, str_v("#waitlist-wrap"@)),
            ],
        ),
        SectionKind::RichText => JsonV::Object(
            seq![
                ("type"@, str_v("rich_text"@)),
                ("title"@, str_v(Seq::empty())),
                ("body"@, str_v(Seq::empty())),
            ],
        ),
        SectionKind::Footer => generic_block("footer"@),
        SectionKind::NavSections => JsonV::Object(
            seq![
                ("type"@, str_v("nav_sections"@)),
                ("title"@, str_v(Seq::empty())),
                ("subtitle"@, str_v(Seq::empty())),
                (
                    "items"@,
                    JsonV::Array(
                        seq![
                            JsonV::Object(
                                seq![
                                    ("label"@, str_v("Overview"@)),
                                    ("href"@, str_v("#overview"@)),
                                ],
                            ),
                        ],
                    ),
                ),
            ],
        ),
        SectionKind::PricingIntro => generic_block("pricing_intro"@),
        SectionKind::TradeCategories(trades) => JsonV::Object(
            seq![
                ("type"@, str_v("trade_categories"@)),
                ("items"@, JsonV::Array(trade_items(trades@))),
            ],
        ),
        SectionKind::FullPage => JsonV::Object(seq![("type"@, str_v("full_page"@))]),
        SectionKind::Other(name) => generic_block(name@),
        SectionKind::Unknown(name) => generic_block(name@),
    }
}

/// The field editor for a block type.
pub open spec fn editor_kind_spec(block_type: Seq<char>) -> EditorKind {
    if block_type == "stats"@ {
        EditorKind::Stats
    } else if block_type == "cta"@ {
        EditorKind::Cta
    } else if block_type == "hero"@ {
        EditorKind::Hero
    } else if block_type == "rich_text"@ {
        EditorKind::RichText
    } else {
        EditorKind::Generic
    }
}

/// What the preview says about the number of blocks.
pub open spec fn block_count_message_spec(count: nat) -> Seq<char> {
    if count == 0 {
        "No section blocks yet. Add blocks from the left panel, then save the draft."@
    } else {
        nat_digits(count) + (if count == 1 {
            " section block"@
        } else {
            " section blocks"@
        }) + " ready to overlay Folio's designed layout."@
    }
}

// ── executable ───────────────────────────────────────────────────────────────

fn text_json(s: &str) -> (res: Json)
    ensures
        res@ == str_v(s@),
{
    Json::Str(owned(s))
}

fn empty_text() -> (res: Json)
    ensures
        res@ == str_v(Seq::empty()),
{
    Json::Str(String::new())
}

fn empty_stat_json() -> (res: Json)
    ensures
        res@ == empty_stat(),
{
    let mut e: Vec<(String, Json)> = Vec::new();
    e.push((owned("value"), empty_text()));
    e.push((owned("label"), empty_text()));
    let res = object_of(e);
    assert(res@->Object_0 =~= empty_stat()->Object_0);
    res
}

fn generic_block_json(name: &str) -> (res: Json)
    ensures
        res@ == generic_block(name@),
{
    let mut e: Vec<(String, Json)> = Vec::new();
    e.push((owned("type"), text_json(name)));
    e.push((owned("title"), empty_text()));
    e.push((owned("subtitle"), empty_text()));
    let none: Vec<Json> = Vec::new();
    assert(views(none@) =~= Seq::<JsonV>::empty());
    e.push((owned("items"), array_of(none)));
    let res = object_of(e);
    assert(res@->Object_0 =~= generic_block(name@)->Object_0);
    res
}

/// The fresh block a section type starts from.
pub fn default_section_block(kind: &SectionKind) -> (res: Json)
    ensures
        res@ == default_block_spec(*kind),
{
    match kind {
        SectionKind::Stats => {
            let mut items: Vec<Json> = Vec::new();
            items.push(empty_stat_json());
            items.push(empty_stat_json());
            items.push(empty_stat_json());
            let mut e: Vec<(String, Json)> = Vec::new();
            e.push((owned("type"), text_json("stats")));
            e.push((owned("title"), empty_text()));
            e.push((owned("subtitle"), empty_text()));
            let ghost iv = views(items@);
            assert(iv =~= seq![empty_stat(), empty_stat(), empty_stat()]);
            e.push((owned("items"), array_of(items)));
            let res = object_of(e);
            assert(res@->Object_0 =~= default_block_spec(*kind)->Object_0);
            res
        },
        SectionKind::Cta => {
            let mut e: Vec<(String, Json)> = Vec::new();
            e.push((owned("type"), text_json("cta")));
            e.push((owned("title"), empty_text()));
            e.push((owned("body"), empty_text()));
            e.push((owned("cta_label"), text_json("Join the Waitlist")));
            e.push((owned("cta_href"), text_json("#waitlist-wrap")));
            let res = object_of(e);
            assert(res@->Object_0 =~= default_block_spec(*kind)->Object_0);
            res
        },
        SectionKind::Hero => {
            let mut e: Vec<(String, Json)> = Vec::new();
            e.push((owned("type"), text_json("hero")));
            e.push((owned("eyebrow"), empty_text()));
            e.push((owned("title"), empty_text()));
            e.push((owned("subtitle"), empty_text()));
            e.push((owned("cta_label"), text_json("Join the Waitlist")));
            e.push((owned("cta_href"), text_json("#waitlist-wrap")));
            let res = object_of(e);
            assert(res@->Object_0 =~= default_block_spec(*kind)->Object_0);
            res
        },
        SectionKind::RichText => {
            let mut e: Vec<(String, Json)> = Vec::new();
            e.push((owned("type"), text_json("rich_text")));
            e.push((owned("title"), empty_text()));
            e.push((owned("body"), empty_text()));
            let res = object_of(e);
            assert(res@->Object_0 =~= default_block_spec(*kind)->Object_0);
            res
        },
        SectionKind::Footer => generic_block_json("footer"),
        SectionKind::NavSections => {
            let mut link: Vec<(String, Json)> = Vec::new();
            link.push((owned("label"), text_json("Overview")));
            link.push((owned("href"), text_json("#overview")));
            let link_obj = object_of(link);
            let ghost lv = link_obj@;
            let mut items: Vec<Json> = Vec::new();
            items.push(link_obj);
            assert(views(items@) =~= seq![lv]);
            let mut e: Vec<(String, Json)> = Vec::new();
            e.push((owned("type"), text_json("nav_sections")));
            e.push((owned("title"), empty_text()));
            e.push((owned("subtitle"), empty_text()));
            e.push((owned("items"), array_of(items)));
            let res = object_of(e);
            proof {
                assert(lv->Object_0 =~= seq![("label"@, str_v("Overview"@)), ("href"@, str_v("#overview"@))]);
                assert(res@->Object_0 =~= default_block_spec(*kind)->Object_0);
            }
            res
        },
        SectionKind::PricingIntro => generic_block_json("pricing_intro"),
        SectionKind::TradeCategories(trades) => {
            let n: usize = if trades.len() < 6 {
                trades.len()
            } else {
                6
            };
            let mut items: Vec<Json> = Vec::new();
            let mut i: usize = 0;
            while i < n
                invariant
                    i <= n <= trades.len(),
                    n == (if trades.len() < 6 {
                        trades.len()
                    } else {
                        6
                    }),
                    items@.len() == i,
                    forall|k: int| 0 <= k < i ==> jv(#[trigger] items@[k]) == trade_item(
                        trades@[k].0@,
                        trades@[k].1@,
                    ),
                decreases n - i,
            {
                let mut e: Vec<(String, Json)> = Vec::new();
                e.push((owned("key"), Json::Str(trades[i].0.clone())));
                e.push((owned("label"), Json::Str(trades[i].1.clone())));
                let obj = object_of(e);
                assert(obj@->Object_0 =~= trade_item(trades@[i as int].0@, trades@[i as int].1@)->Object_0);
                items.push(obj);
                i = i + 1;
            }
            assert(views(items@) =~= trade_items(trades@));
            let mut e: Vec<(String, Json)> = Vec::new();
            e.push((owned("type"), text_json("trade_categories")));
            e.push((owned("items"), array_of(items)));
            let res = object_of(e);
            assert(res@->Object_0 =~= default_block_spec(*kind)->Object_0);
            res
        },
        SectionKind::FullPage => {
            let mut e: Vec<(String, Json)> = Vec::new();
            e.push((owned("type"), text_json("full_page")));
            let res = object_of(e);
            assert(res@->Object_0 =~= default_block_spec(*kind)->Object_0);
            res
        },
        SectionKind::Other(name) => generic_block_json(name.as_str()),
        SectionKind::Unknown(name) => generic_block_json(name.as_str()),
    }
}

/// The field editor a block of `block_type` gets.
pub fn editor_kind(block_type: &str) -> (res: EditorKind)
    ensures
        res == editor_kind_spec(block_type@),
{
    if str_eq(block_type, "stats") {
        EditorKind::Stats
    } else if str_eq(block_type, "cta") {
        EditorKind::Cta
    } else if str_eq(block_type, "hero") {
        EditorKind::Hero
    } else if str_eq(block_type, "rich_text") {
        EditorKind::RichText
    } else {
        EditorKind::Generic
    }
}

/// Adds a fresh block of `kind` at the end and selects it.
pub fn add_block(blocks: &mut Vec<Json>, selected: &mut Option<usize>, kind: &SectionKind)
    ensures
        views(final(blocks)@) == views(old(blocks)@).push(default_block_spec(*kind)),
        *final(selected) == Some((final(blocks)@.len() - 1) as usize),
{
    let b = default_section_block(kind);
    let ghost bv = b@;
    let ghost before = views(blocks@);
    blocks.push(b);
    assert(views(blocks@) =~= before.push(bv));
    *selected = Some(blocks.len() - 1);
}

/// Puts a fresh block of `kind` in place of the block at `index`.
pub fn reset_block(blocks: &mut Vec<Json>, index: usize, kind: &SectionKind)
    ensures
        index < old(blocks)@.len() ==> views(final(blocks)@) == views(old(blocks)@).update(
            index as int,
            default_block_spec(*kind),
        ),
        index >= old(blocks)@.len() ==> final(blocks)@ == old(blocks)@,
{
    if index < blocks.len() {
        let b = default_section_block(kind);
        let ghost bv = b@;
        let ghost before = views(blocks@);
        blocks.set(index, b);
        assert(views(blocks@) =~= before.update(index as int, bv));
    }
}

/// The block selected when a page's blocks are loaded: the first one, if any.
pub fn initial_selection(count: usize) -> (res: Option<usize>)
    ensures
        res == (if count == 0 {
            None
        } else {
            Some(0usize)
        }),
{
    if count == 0 {
        None
    } else {
        Some(0)
    }
}

/// What the preview says about the number of section blocks.
pub fn block_count_message(count: u64) -> (res: String)
    ensures
        res@ == block_count_message_spec(count as nat),
{
    if count == 0 {
        owned("No section blocks yet. Add blocks from the left panel, then save the draft.")
    } else {
        let n = decimal_unsigned(count);
        let noun = if count == 1 {
            " section block"
        } else {
            " section blocks"
        };
        concat3(n.as_str(), noun, " ready to overlay Folio's designed layout.")
    }
}

/// A freshly added block declares the type it was created for, so the editor
/// picks that type's field set for it.
pub proof fn law_fresh_block_reports_kind(kind: SectionKind)
    ensures
        raw_type_spec(default_block_spec(kind)) == kind_name(kind),
        editor_kind_spec(raw_type_spec(default_block_spec(kind))) == editor_kind_spec(kind_name(kind)),
{
    let b = default_block_spec(kind);
    let es = b->Object_0;
    assert(es[0].0 == "type"@);
    assert(field(b, "type"@) == Some(es[0].1));
}

} // verus!

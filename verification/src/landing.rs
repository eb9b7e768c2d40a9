//! Landing pages: the page list's filters, the UTM builder, A/B winners, the
//! funnel and the payloads the editor sends.
use vstd::prelude::*;
use crate::json::{Json, JsonV, views, object_of, array_of};
use crate::hero::{HeroForm, form_view, saved_payload, hero_payload, hero_spec, empty_hero_payload};
use crate::text::{
    lowercase_text, occurs_in, to_lowercase, contains, str_eq, owned, char_len, concat2, concat3,
    append, push_char, decimal, decimal_spec, chars_of, ascii_uppercase, ascii_upper, opt_view,
};

verus! {

/// Rust's `/` on integers, which rounds toward zero (for a positive divisor).
pub open spec fn tdiv(a: int, b: int) -> int {
    if a >= 0 {
        a / b
    } else {
        -((-a) / b)
    }
}

// ── product and locale labels ────────────────────────────────────────────────

pub open spec fn app_label_spec(app_id: Seq<char>) -> Seq<char> {
    if app_id == "folio"@ {
        "Folio"@
    } else if app_id == "folio-broker"@ {
        "Folio Broker"@
    } else if app_id == "folio-pm"@ {
        "Folio PM"@
    } else if app_id == "folio-vendor"@ {
        "Folio Vendor"@
    } else if app_id == "network"@ {
        "Network"@
    } else if app_id == "anchor"@ {
        "Anchor"@
    } else {
        "Product"@
    }
}

/// The display name of an app.
pub fn app_label(app_id: &str) -> (res: &'static str)
    ensures
        res@ == app_label_spec(app_id@),
{
    if str_eq(app_id, "folio") {
        "Folio"
    } else if str_eq(app_id, "folio-broker") {
        "Folio Broker"
    } else if str_eq(app_id, "folio-pm") {
        "Folio PM"
    } else if str_eq(app_id, "folio-vendor") {
        "Folio Vendor"
    } else if str_eq(app_id, "network") {
        "Network"
    } else if str_eq(app_id, "anchor") {
        "Anchor"
    } else {
        "Product"
    }
}

pub open spec fn locale_badge_spec(locale: Seq<char>) -> Seq<char> {
    if locale == "pt"@ {
        "🇧🇷 PT"@
    } else if locale == "es"@ {
        "🌎 ES"@
    } else if locale == "fr"@ {
        "🇨🇦 FR"@
    } else {
        "🇺🇸 EN"@
    }
}

/// The locale badge of a page.
pub fn locale_badge(locale: &str) -> (res: &'static str)
    ensures
        res@ == locale_badge_spec(locale@),
{
    if str_eq(locale, "pt") {
        "🇧🇷 PT"
    } else if str_eq(locale, "es") {
        "🌎 ES"
    } else if str_eq(locale, "fr") {
        "🇨🇦 FR"
    } else {
        "🇺🇸 EN"
    }
}

// ── the page list ────────────────────────────────────────────────────────────

/// What the page list reads of a landing page.
#[derive(Debug, PartialEq)]
pub struct PageSummary {
    pub title: String,
    pub slug: String,
    pub locale: String,
    pub is_published: bool,
}

/// Whether a page passes the list's search (case-insensitive, in title or
/// slug), its publication filter ("published", "draft", anything else: all)
/// and its locale filter ("all" or one locale).
pub open spec fn page_matches_spec(
    title: Seq<char>,
    slug: Seq<char>,
    locale: Seq<char>,
    is_published: bool,
    search: Seq<char>,
    status_filter: Seq<char>,
    locale_filter: Seq<char>,
) -> bool {
    let q = lowercase_text(search);
    let matches_search = q.len() == 0 || occurs_in(lowercase_text(title), q) || occurs_in(
        lowercase_text(slug),
        q,
    );
    let matches_status = if status_filter == "published"@ {
        is_published
    } else if status_filter == "draft"@ {
        !is_published
    } else {
        true
    };
    let matches_locale = locale_filter == "all"@ || locale == locale_filter;
    matches_search && matches_status && matches_locale
}

pub open spec fn page_ok(p: PageSummary, search: Seq<char>, status_filter: Seq<char>, locale_filter: Seq<char>) -> bool {
    page_matches_spec(p.title@, p.slug@, p.locale@, p.is_published, search, status_filter, locale_filter)
}

/// The positions of the pages that pass, in order.
pub open spec fn matching_pages(
    pages: Seq<PageSummary>,
    search: Seq<char>,
    status_filter: Seq<char>,
    locale_filter: Seq<char>,
) -> Seq<int>
    decreases pages.len(),
{
    if pages.len() == 0 {
        Seq::empty()
    } else {
        let rest = matching_pages(pages.drop_last(), search, status_filter, locale_filter);
        if page_ok(pages.last(), search, status_filter, locale_filter) {
            rest.push(pages.len() - 1)
        } else {
            rest
        }
    }
}

/// Whether a page passes the list's search and filters.
pub fn page_matches(page: &PageSummary, search: &str, status_filter: &str, locale_filter: &str) -> (res: bool)
    ensures
        res == page_ok(*page, search@, status_filter@, locale_filter@),
{
    let q = to_lowercase(search);
    let matches_search = char_len(q.as_str()) == 0 || {
        let t = to_lowercase(page.title.as_str());
        contains(t.as_str(), q.as_str())
    } || {
        let s = to_lowercase(page.slug.as_str());
        contains(s.as_str(), q.as_str())
    };
    let matches_status = if str_eq(status_filter, "published") {
        page.is_published
    } else if str_eq(status_filter, "draft") {
        !page.is_published
    } else {
        true
    };
    let matches_locale = str_eq(locale_filter, "all") || str_eq(page.locale.as_str(), locale_filter);
    matches_search && matches_status && matches_locale
}

/// The positions of the pages the list shows, in order.
pub fn filter_pages(pages: &Vec<PageSummary>, search: &str, status_filter: &str, locale_filter: &str) -> (res: Vec<usize>)
    ensures
        res@.map_values(|i: usize| i as int) == matching_pages(pages@, search@, status_filter@, locale_filter@),
{
    let mut out: Vec<usize> = Vec::new();
    let mut i: usize = 0;
    while i < pages.len()
        invariant
            i <= pages.len(),
            out@.map_values(|k: usize| k as int) == matching_pages(
                pages@.take(i as int),
                search@,
                status_filter@,
                locale_filter@,
            ),
        decreases pages.len() - i,
    {
        let ghost before = out@;
        assert(pages@.take(i + 1).drop_last() =~= pages@.take(i as int));
        assert(pages@.take(i + 1).last() == pages@[i as int]);
        if page_matches(&pages[i], search, status_filter, locale_filter) {
            out.push(i);
            assert(out@.map_values(|k: usize| k as int) =~= before.map_values(|k: usize| k as int).push(i as int));
        }
        i = i + 1;
    }
    assert(pages@.take(pages.len() as int) =~= pages@);
    out
}

/// The slug and title of a new draft page of an app, created at `now_millis`.
pub fn new_draft_page(app: &str, now_millis: i64) -> (res: (String, String))
    ensures
        res.0@ == app@ + "-draft-"@ + decimal_spec(now_millis as int),
        res.1@ == "New "@ + app_label_spec(app@) + " landing page"@,
{
    let stamp = decimal(now_millis);
    let slug = concat3(app, "-draft-", stamp.as_str());
    let title = concat3("New ", app_label(app), " landing page");
    (slug, title)
}

// ── the editor ───────────────────────────────────────────────────────────────

/// What the editor saves for a page.
#[derive(Debug, PartialEq)]
pub struct PageUpdate {
    pub slug: Option<String>,
    pub title: Option<String>,
    pub description: Option<String>,
    pub locale: Option<String>,
    pub hero_payload: Json,
    pub blocks_payload: Json,
}

/// A text, or nothing when it is empty.
pub open spec fn non_empty(s: Seq<char>) -> Option<Seq<char>> {
    if s.len() == 0 {
        None
    } else {
        Some(s)
    }
}

/// The update the editor sends: empty texts are left out, the default locale
/// "en" is left out, the hero payload is built from the form, and the blocks
/// are sent as an array.
pub fn page_update(
    slug: String,
    title: String,
    description: String,
    locale: String,
    hero: &HeroForm,
    blocks: Vec<Json>,
) -> (res: PageUpdate)
    ensures
        opt_view(res.slug) == non_empty(slug@),
        opt_view(res.title) == non_empty(title@),
        opt_view(res.description) == non_empty(description@),
        opt_view(res.locale) == (if locale@ == "en"@ {
            None
        } else {
            Some(locale@)
        }),
        res.hero_payload@ == saved_payload(form_view(*hero)),
        res.blocks_payload@ == JsonV::Array(views(blocks@)),
{
    let ghost bv = views(blocks@);
    let s = if char_len(slug.as_str()) == 0 {
        None
    } else {
        Some(slug)
    };
    let t = if char_len(title.as_str()) == 0 {
        None
    } else {
        Some(title)
    };
    let d = if char_len(description.as_str()) == 0 {
        None
    } else {
        Some(description)
    };
    let l = if str_eq(locale.as_str(), "en") {
        None
    } else {
        Some(locale)
    };
    let arr = Json::Array(blocks);
    assert(arr@->Array_0 =~= bv);
    PageUpdate {
        slug: s,
        title: t,
        description: d,
        locale: l,
        hero_payload: hero_payload(hero),
        blocks_payload: arr,
    }
}

/// The address the preview shows: the app's preview host and the page's path.
pub fn preview_address(app: &str, page_slug: Option<&str>) -> (res: String)
    ensures
        res@ == app@ + ".atlas.app"@ + match page_slug {
            Some(s) => "/lp/"@ + s@,
            None => "/lp/preview"@,
        },
{
    let path = match page_slug {
        Some(s) => concat2("/lp/", s),
        None => owned("/lp/preview"),
    };
    concat3(app, ".atlas.app", path.as_str())
}

pub open spec fn publish_label_spec(publishing: bool, published: bool) -> Seq<char> {
    if publishing {
        "Working…"@
    } else if published {
        "Unpublish"@
    } else {
        "Publish 🚀"@
    }
}

/// The label of the editor's publish button.
pub fn publish_label(publishing: bool, published: bool) -> (res: &'static str)
    ensures
        res@ == publish_label_spec(publishing, published),
{
    if publishing {
        "Working…"
    } else if published {
        "Unpublish"
    } else {
        "Publish 🚀"
    }
}

/// The message after the publish toggle succeeded for a page that was or was
/// not published before.
pub fn publish_done_message(was_published: bool) -> (res: &'static str)
    ensures
        res@ == (if was_published {
            "Unpublished"@
        } else {
            "Published!"@
        }),
{
    if was_published {
        "Unpublished"
    } else {
        "Published!"
    }
}

// ── the UTM builder ──────────────────────────────────────────────────────────

/// The query parameters of the UTM builder that have a value, in order.
pub open spec fn utm_params(
    source: Seq<char>,
    medium: Seq<char>,
    campaign: Seq<char>,
    content: Seq<char>,
    term: Seq<char>,
) -> Seq<Seq<char>> {
    let p0: Seq<Seq<char>> = Seq::empty();
    let p1 = if source.len() > 0 {
        p0.push("utm_source="@ + source)
    } else {
        p0
    };
    let p2 = if medium.len() > 0 {
        p1.push("utm_medium="@ + medium)
    } else {
        p1
    };
    let p3 = if campaign.len() > 0 {
        p2.push("utm_campaign="@ + campaign)
    } else {
        p2
    };
    let p4 = if content.len() > 0 {
        p3.push("utm_content="@ + content)
    } else {
        p3
    };
    if term.len() > 0 {
        p4.push("utm_term="@ + term)
    } else {
        p4
    }
}

/// Parameters joined with `&`.
pub open spec fn join_amp(params: Seq<Seq<char>>) -> Seq<char>
    decreases params.len(),
{
    if params.len() == 0 {
        Seq::empty()
    } else if params.len() == 1 {
        params[0]
    } else {
        join_amp(params.drop_last()) + "&"@ + params.last()
    }
}

/// The page address the UTM builder starts from.
pub open spec fn utm_base(page_slug: Option<Seq<char>>) -> Seq<char> {
    "https://folio.app"@ + match page_slug {
        Some(s) => "/lp/"@ + s,
        None => "/lp/your-page"@,
    }
}

/// The tracked address: the base, and `?` with the parameters when there are any.
pub open spec fn utm_url_spec(
    page_slug: Option<Seq<char>>,
    source: Seq<char>,
    medium: Seq<char>,
    campaign: Seq<char>,
    content: Seq<char>,
    term: Seq<char>,
) -> Seq<char> {
    let params = utm_params(source, medium, campaign, content, term);
    if params.len() == 0 {
        utm_base(page_slug)
    } else {
        utm_base(page_slug) + "?"@ + join_amp(params)
    }
}

fn push_param(params: &mut Vec<String>, name: &str, value: &str)
    ensures
        final(params)@.map_values(|x: String| x@) == (if value@.len() > 0 {
            old(params)@.map_values(|x: String| x@).push(name@ + value@)
        } else {
            old(params)@.map_values(|x: String| x@)
        }),
{
    if char_len(value) > 0 {
        let p = concat2(name, value);
        let ghost before = params@;
        params.push(p);
        assert(params@.map_values(|x: String| x@) =~= before.map_values(|x: String| x@).push(
            name@ + value@,
        ));
    }
}

/// The address the UTM builder generates.
pub fn utm_url(
    page_slug: Option<&str>,
    source: &str,
    medium: &str,
    campaign: &str,
    content: &str,
    term: &str,
) -> (res: String)
    ensures
        res@ == utm_url_spec(
            match page_slug {
                Some(s) => Some(s@),
                None => None,
            },
            source@,
            medium@,
            campaign@,
            content@,
            term@,
        ),
{
    let path = match page_slug {
        Some(s) => concat2("/lp/", s),
        None => owned("/lp/your-page"),
    };
    let base = concat2("https://folio.app", path.as_str());
    let mut params: Vec<String> = Vec::new();
    assert(params@.map_values(|x: String| x@) =~= Seq::<Seq<char>>::empty());
    push_param(&mut params, "utm_source=", source);
    push_param(&mut params, "utm_medium=", medium);
    push_param(&mut params, "utm_campaign=", campaign);
    push_param(&mut params, "utm_content=", content);
    push_param(&mut params, "utm_term=", term);
    let ghost ps = params@.map_values(|x: String| x@);
    if params.len() == 0 {
        return base;
    }
    let ghost base_v = base@;
    let mut url = base;
    push_char(&mut url, '?');
    let ghost head = url@;
    proof {
        reveal_strlit("?");
        assert(head =~= base_v + "?"@);
    }
    let mut i: usize = 0;
    while i < params.len()
        invariant
            i <= params.len(),
            ps == params@.map_values(|x: String| x@),
            url@ == head + join_amp(ps.take(i as int)),
        decreases params.len() - i,
    {
        assert(ps.take(i + 1).drop_last() =~= ps.take(i as int));
        if i > 0 {
            append(&mut url, "&");
        }
        append(&mut url, params[i].as_str());
        i = i + 1;
        proof {
            if i == 1 {
                assert(ps.take(1) =~= seq![ps[0]]);
                assert(ps.take(0) =~= Seq::<Seq<char>>::empty());
            }
        }
    }
    assert(ps.take(params.len() as int) =~= ps);
    url
}

/// A saved UTM preset.
#[derive(Debug, PartialEq)]
pub struct UtmPresetInput {
    pub app_id: String,
    pub name: String,
    pub utm_source: String,
    pub utm_medium: String,
    pub utm_campaign: String,
    pub utm_content: Option<String>,
    pub utm_term: Option<String>,
}

/// The preset to save: none unless the name, source, medium and campaign are
/// all given; an empty content or term is left out.
pub fn utm_preset_input(
    app_id: String,
    name: String,
    source: String,
    medium: String,
    campaign: String,
    content: String,
    term: String,
) -> (res: Option<UtmPresetInput>)
    ensures
        res is Some <==> (name@.len() > 0 && source@.len() > 0 && medium@.len() > 0
            && campaign@.len() > 0),
        res matches Some(p) ==> p.app_id == app_id && p.name == name && p.utm_source == source
            && p.utm_medium == medium && p.utm_campaign == campaign && opt_view(p.utm_content)
            == non_empty(content@) && opt_view(p.utm_term) == non_empty(term@),
{
    if char_len(name.as_str()) == 0 || char_len(source.as_str()) == 0 || char_len(medium.as_str())
        == 0 || char_len(campaign.as_str()) == 0 {
        return None;
    }
    let ct = if char_len(content.as_str()) == 0 {
        None
    } else {
        Some(content)
    };
    let t = if char_len(term.as_str()) == 0 {
        None
    } else {
        Some(term)
    };
    Some(
        UtmPresetInput {
            app_id,
            name,
            utm_source: source,
            utm_medium: medium,
            utm_campaign: campaign,
            utm_content: ct,
            utm_term: t,
        },
    )
}

pub open spec fn preset_color_spec(source: Seq<char>) -> Seq<char> {
    if source == "google"@ {
        "#4285F4"@
    } else if source == "linkedin"@ {
        "#0077B5"@
    } else if source == "email"@ {
        "#E84393"@
    } else {
        "#555"@
    }
}

/// The badge color of a saved preset's source.
pub fn preset_color(source: &str) -> (res: &'static str)
    ensures
        res@ == preset_color_spec(source@),
{
    if str_eq(source, "google") {
        "#4285F4"
    } else if str_eq(source, "linkedin") {
        "#0077B5"
    } else if str_eq(source, "email") {
        "#E84393"
    } else {
        "#555"
    }
}

/// The funnel's color for a traffic source (either capitalization).
pub fn source_color(source: &str) -> (res: &'static str)
    ensures
        res@ == (if source@ == "google"@ || source@ == "Google"@ {
            "#4285F4"@
        } else if source@ == "linkedin"@ || source@ == "LinkedIn"@ {
            "#0077B5"@
        } else if source@ == "email"@ || source@ == "Email"@ {
            "#E84393"@
        } else {
            "#555"@
        }),
{
    if str_eq(source, "google") || str_eq(source, "Google") {
        "#4285F4"
    } else if str_eq(source, "linkedin") || str_eq(source, "LinkedIn") {
        "#0077B5"
    } else if str_eq(source, "email") || str_eq(source, "Email") {
        "#E84393"
    } else {
        "#555"
    }
}

/// The letter on a preset's badge: its source's first character in ASCII upper
/// case, or `?`.
pub fn preset_initial(source: &str) -> (res: char)
    ensures
        res == (if source@.len() > 0 {
            ascii_upper(source@[0])
        } else {
            '?'
        }),
{
    let cs = chars_of(source);
    if cs.len() > 0 {
        ascii_uppercase(cs[0])
    } else {
        '?'
    }
}

/// What the UTM builder shows for the selected page.
pub fn utm_page_label(page_slug: Option<&str>) -> (res: String)
    ensures
        res@ == match page_slug {
            Some(s) => "folio.app/lp/"@ + s@,
            None => "Select a page first"@,
        },
{
    match page_slug {
        Some(s) => concat2("folio.app/lp/", s),
        None => owned("Select a page first"),
    }
}

// ── A/B testing ──────────────────────────────────────────────────────────────

/// What the A/B tab reads of a variant.
#[derive(Debug, PartialEq)]
pub struct VariantStats {
    pub lead_count: i64,
    pub view_count: i64,
}

/// A variant's lead score: leads per thousand views.
pub open spec fn lead_score(v: VariantStats) -> int {
    tdiv(v.lead_count * 1000, if v.view_count > 1 { v.view_count as int } else { 1 })
}

/// The winner among the variants with views: one with the highest lead score,
/// the last of them when several tie; none when no variant has views.
pub open spec fn is_winner(vs: Seq<VariantStats>, w: int) -> bool {
    &&& 0 <= w < vs.len()
    &&& vs[w].view_count > 0
    &&& forall|j: int| 0 <= j < vs.len() && vs[j].view_count > 0 ==> lead_score(vs[j]) <= lead_score(vs[w])
    &&& forall|j: int| w < j < vs.len() && vs[j].view_count > 0 ==> lead_score(vs[j]) < lead_score(vs[w])
}

/// The position of the winning variant (`max_by_key` of the lead score over the
/// variants with views).
pub fn ab_winner(variants: &Vec<VariantStats>) -> (res: Option<usize>)
    requires
        forall|i: int| 0 <= i < variants.len() ==> i64::MIN <= #[trigger] variants@[i].lead_count * 1000 <= i64::MAX,
    ensures
        match res {
            Some(w) => is_winner(variants@, w as int),
            None => forall|j: int| 0 <= j < variants.len() ==> variants@[j].view_count <= 0,
        },
{
    let mut best: Option<usize> = None;
    let mut best_score: i64 = 0;
    let mut i: usize = 0;
    while i < variants.len()
        invariant
            i <= variants.len(),
            forall|k: int| 0 <= k < variants.len() ==> i64::MIN <= #[trigger] variants@[k].lead_count * 1000 <= i64::MAX,
            match best {
                Some(w) => {
                    &&& w < i
                    &&& variants@[w as int].view_count > 0
                    &&& best_score == lead_score(variants@[w as int])
                    &&& forall|j: int| 0 <= j < i && variants@[j].view_count > 0 ==> lead_score(variants@[j]) <= best_score
                    &&& forall|j: int| w < j < i && variants@[j].view_count > 0 ==> lead_score(variants@[j]) < best_score
                },
                None => forall|j: int| 0 <= j < i ==> variants@[j].view_count <= 0,
            },
        decreases variants.len() - i,
    {
        let v = &variants[i];
        if v.view_count > 0 {
            let d: i64 = if v.view_count > 1 {
                v.view_count
            } else {
                1
            };
            let score: i64 = v.lead_count * 1000 / d;
            assert(score == lead_score(variants@[i as int]));
            match best {
                Some(_) => {
                    if score >= best_score {
                        best = Some(i);
                        best_score = score;
                    }
                },
                None => {
                    best = Some(i);
                    best_score = score;
                },
            }
        }
        i = i + 1;
    }
    best
}

/// A funnel step's share of the visits, in whole percent (zero without visits).
pub fn funnel_percent(count: i64, total: i64) -> (res: i32)
    requires
        i64::MIN <= count * 100 <= i64::MAX,
    ensures
        res == (if total > 0 {
            tdiv(count * 100, total as int) as i32
        } else {
            0i32
        }),
{
    if total > 0 {
        (count * 100 / total) as i32
    } else {
        0
    }
}

/// The funnel's heading: the selected page, or all pages of the app.
pub fn funnel_context(page: Option<(&str, &str)>, app: &str) -> (res: String)
    ensures
        res@ == match page {
            Some((title, slug)) => title@ + " (/"@ + slug@ + ") · "@ + app@ + " · 30d"@,
            None => "All "@ + app@ + " pages · 30d"@,
        },
{
    match page {
        Some((title, slug)) => {
            let mut s = concat3(title, " (/", slug);
            append(&mut s, ") · ");
            append(&mut s, app);
            append(&mut s, " · 30d");
            s
        },
        None => concat3("All ", app, " pages · 30d"),
    }
}

/// When a page was last updated, as its list shows it (`Mar 04`).
pub fn updated_label(secs: i64, nanos: u32) -> (res: Option<String>)
    ensures
        opt_view(res) == crate::timestamps::utc_formatted(secs, nanos, "%b %d"@),
        crate::timestamps::placeable(secs, nanos) ==> res is Some,
{
    crate::timestamps::utc_format(secs, nanos, "%b %d")
}

/// How a count is shown on a KPI card: as it is below a thousand, else in
/// thousands with one decimal (the display divides it).
#[derive(PartialEq, Eq, Structural, Clone, Copy, Debug)]
pub enum CountTier {
    Plain(i32),
    Thousands(i32),
}

/// The tier of a count.
pub fn count_tier(n: i32) -> (res: CountTier)
    ensures
        n >= 1000 ==> res == CountTier::Thousands(n),
        n < 1000 ==> res == CountTier::Plain(n),
{
    if n >= 1000 {
        CountTier::Thousands(n)
    } else {
        CountTier::Plain(n)
    }
}

// ── the editor's toolbar ─────────────────────────────────────────────────────

/// The preview frame's width for a viewport.
pub fn viewport_width(viewport: &str) -> (res: &'static str)
    ensures
        res@ == (if viewport@ == "tablet"@ {
            "max-width:768px"@
        } else if viewport@ == "mobile"@ {
            "max-width:390px"@
        } else {
            "max-width:100%"@
        }),
{
    if str_eq(viewport, "tablet") {
        "max-width:768px"
    } else if str_eq(viewport, "mobile") {
        "max-width:390px"
    } else {
        "max-width:100%"
    }
}

/// The Save button's label.
pub fn save_label(saving: bool) -> (res: &'static str)
    ensures
        res@ == (if saving {
            "Saving…"@
        } else {
            "Save Draft"@
        }),
{
    if saving {
        "Saving…"
    } else {
        "Save Draft"
    }
}

/// The publish button's style: a warning while the page is published.
pub fn publish_button_class(published: bool) -> (res: &'static str)
    ensures
        res@ == (if published {
            "btn-warning"@
        } else {
            "btn-emerald"@
        }),
{
    if published {
        "btn-warning"
    } else {
        "btn-emerald"
    }
}

/// The editor's notice after saving: `Saved!`, or why saving failed.
pub fn save_notice(error: Option<&str>) -> (res: String)
    ensures
        res@ == match error {
            None => "Saved!"@,
            Some(e) => "Save failed: "@ + e@,
        },
{
    match error {
        None => owned("Saved!"),
        Some(e) => concat2("Save failed: ", e),
    }
}

/// The editor's notice after the publish toggle: what it did, or why it failed.
pub fn publish_notice(was_published: bool, error: Option<&str>) -> (res: String)
    ensures
        res@ == match error {
            None => if was_published {
                "Unpublished"@
            } else {
                "Published!"@
            },
            Some(e) => "Publish failed: "@ + e@,
        },
{
    match error {
        None => owned(publish_done_message(was_published)),
        Some(e) => concat2("Publish failed: ", e),
    }
}

/// Save Draft pressed: with no page selected nothing happens; otherwise the
/// page's update is sent (`page_update`), the editor is busy and its notice is
/// cleared. Gives the page the update is for, the busy flag and the notice.
pub fn editor_save_click(page: Option<u128>, saving: bool, notice: Option<(bool, String)>) -> (res: (
    Option<u128>,
    bool,
    Option<(bool, String)>,
))
    ensures
        page is None ==> res.0 is None && res.1 == saving && res.2 == notice,
        page is Some ==> res.0 == page && res.1 && res.2 is None,
{
    match page {
        Some(id) => (Some(id), true, None),
        None => (None, saving, notice),
    }
}

/// The editor after the service answered Save Draft: the busy flag (cleared),
/// the notice (whether it succeeded, and its text), and whether the page list
/// and the page are fetched again (on success only).
pub fn editor_save_done(reply: Result<(), String>) -> (res: (bool, (bool, String), bool))
    ensures
        !res.0,
        reply is Ok ==> res.1.0 && res.1.1@ == "Saved!"@ && res.2,
        reply matches Err(e) ==> !res.1.0 && res.1.1@ == "Save failed: "@ + e@ && !res.2,
{
    match reply {
        Ok(()) => (false, (true, save_notice(None)), true),
        Err(e) => (false, (false, save_notice(Some(e.as_str()))), false),
    }
}

/// Publish pressed: with no page selected nothing happens; otherwise the
/// publish toggle is sent for the page and the editor is busy. Gives the page
/// the toggle is for and the publishing flag.
pub fn editor_publish_click(page: Option<u128>, publishing: bool) -> (res: (Option<u128>, bool))
    ensures
        res.0 == page,
        res.1 == (page is Some || publishing),
{
    match page {
        Some(id) => (Some(id), true),
        None => (None, publishing),
    }
}

/// The editor after the service answered the publish toggle for a page that
/// was (or was not) published: the publishing flag (cleared), the notice, and
/// whether the page list is fetched again (on success only).
pub fn editor_publish_done(was_published: bool, reply: Result<(), String>) -> (res: (
    bool,
    (bool, String),
    bool,
))
    ensures
        !res.0,
        reply is Ok ==> res.1.0 && res.1.1@ == (if was_published {
            "Unpublished"@
        } else {
            "Published!"@
        }) && res.2,
        reply matches Err(e) ==> !res.1.0 && res.1.1@ == "Publish failed: "@ + e@ && !res.2,
{
    match reply {
        Ok(()) => (false, (true, publish_notice(was_published, None)), true),
        Err(e) => (false, (false, publish_notice(was_published, Some(e.as_str()))), false),
    }
}

// ── variants ─────────────────────────────────────────────────────────────────

/// What the A/B tab sends to add a variant.
#[derive(Debug, PartialEq)]
pub struct VariantPayload {
    pub name: String,
    pub traffic_pct: Option<i32>,
    pub blocks_payload: Option<Json>,
    pub hero_payload: Option<Json>,
    pub is_control: Option<bool>,
}

/// The variant the A/B tab adds: "Variant B" on half the traffic, with no
/// blocks (`{"blocks": []}`), an empty hero, and not the control.
pub fn new_variant_payload() -> (res: VariantPayload)
    ensures
        res.name@ == "Variant B"@,
        res.traffic_pct == Some(50i32),
        res.blocks_payload matches Some(b) && b@ == JsonV::Object(
            seq![("blocks"@, JsonV::Array(Seq::<JsonV>::empty()))],
        ),
        res.hero_payload matches Some(h) && h@ == hero_spec(
            Seq::empty(),
            Seq::empty(),
            Seq::empty(),
            Seq::empty(),
            Seq::empty(),
            Seq::empty(),
            Seq::empty(),
            Seq::empty(),
            Some(Seq::empty()),
        ),
        res.is_control == Some(false),
{
    let none: Vec<Json> = Vec::new();
    let items = array_of(none);
    assert(views(none@) =~= Seq::<JsonV>::empty());
    let mut entries: Vec<(String, Json)> = Vec::new();
    entries.push((owned("blocks"), items));
    let blocks = object_of(entries);
    assert(blocks@->Object_0 =~= seq![("blocks"@, JsonV::Array(Seq::<JsonV>::empty()))]);
    let hero = empty_hero_payload();
    VariantPayload {
        name: owned("Variant B"),
        traffic_pct: Some(50),
        blocks_payload: Some(blocks),
        hero_payload: Some(hero),
        is_control: Some(false),
    }
}

// ── laws ─────────────────────────────────────────────────────────────────────

/// The page list shows exactly the pages that pass its search and filters,
/// each once, in their order.
pub proof fn law_matching_pages_exact(
    pages: Seq<PageSummary>,
    search: Seq<char>,
    status_filter: Seq<char>,
    locale_filter: Seq<char>,
)
    ensures
        forall|k: int|
            0 <= k < matching_pages(pages, search, status_filter, locale_filter).len() ==> {
                let i = #[trigger] matching_pages(pages, search, status_filter, locale_filter)[k];
                0 <= i < pages.len() && page_ok(pages[i], search, status_filter, locale_filter)
            },
        forall|i: int|
            0 <= i < pages.len() && #[trigger] page_ok(pages[i], search, status_filter, locale_filter)
                ==> matching_pages(pages, search, status_filter, locale_filter).contains(i),
        forall|a: int, b: int|
            0 <= a < b < matching_pages(pages, search, status_filter, locale_filter).len()
                ==> matching_pages(pages, search, status_filter, locale_filter)[a] < matching_pages(
                pages,
                search,
                status_filter,
                locale_filter,
            )[b],
    decreases pages.len(),
{
    if pages.len() > 0 {
        let init = pages.drop_last();
        law_matching_pages_exact(init, search, status_filter, locale_filter);
        let prev = matching_pages(init, search, status_filter, locale_filter);
        let cur = matching_pages(pages, search, status_filter, locale_filter);
        assert forall|k: int| 0 <= k < prev.len() implies (#[trigger] prev[k]) < pages.len() - 1 by {}
        assert forall|k: int| 0 <= k < cur.len() implies {
            let i = #[trigger] cur[k];
            0 <= i < pages.len() && page_ok(pages[i], search, status_filter, locale_filter)
        } by {
            if k < prev.len() {
                assert(cur[k] == prev[k]);
                assert(pages[prev[k]] == init[prev[k]]);
            }
        }
        assert forall|i: int|
            0 <= i < pages.len() && #[trigger] page_ok(pages[i], search, status_filter, locale_filter)
                implies cur.contains(i) by {
            if i < pages.len() - 1 {
                assert(init[i] == pages[i]);
                assert(prev.contains(i));
                let k = choose|k: int| 0 <= k < prev.len() && prev[k] == i;
                assert(cur[k] == i);
            } else {
                assert(cur[cur.len() - 1] == i);
            }
        }
    }
}

/// The UTM builder's address is the bare page address exactly when no
/// parameter is filled in; otherwise the parameters follow a `?`.
pub proof fn law_utm_url_bare(
    page_slug: Option<Seq<char>>,
    source: Seq<char>,
    medium: Seq<char>,
    campaign: Seq<char>,
    content: Seq<char>,
    term: Seq<char>,
)
    ensures
        (utm_url_spec(page_slug, source, medium, campaign, content, term) == utm_base(page_slug))
            <==> (source.len() == 0 && medium.len() == 0 && campaign.len() == 0 && content.len()
            == 0 && term.len() == 0),
{
    let params = utm_params(source, medium, campaign, content, term);
    if params.len() > 0 {
        let full = utm_url_spec(page_slug, source, medium, campaign, content, term);
        assert(full.len() > utm_base(page_slug).len());
    }
}

// ── tracking pixels ──────────────────────────────────────────────────────────

/// A tracking pixel the inspector can switch on and off.
#[derive(PartialEq, Eq, Structural, Clone, Copy, Debug)]
pub enum PixelKey {
    Ga4,
    Meta,
    Linkedin,
    Gtm,
}

/// The key the service knows a pixel by.
pub open spec fn pixel_key_spec(key: PixelKey) -> Seq<char> {
    match key {
        PixelKey::Ga4 => "ga4"@,
        PixelKey::Meta => "meta"@,
        PixelKey::Linkedin => "linkedin"@,
        PixelKey::Gtm => "gtm"@,
    }
}

/// The key the service knows a pixel by.
pub fn pixel_key(key: PixelKey) -> (res: &'static str)
    ensures
        res@ == pixel_key_spec(key),
{
    match key {
        PixelKey::Ga4 => "ga4",
        PixelKey::Meta => "meta",
        PixelKey::Linkedin => "linkedin",
        PixelKey::Gtm => "gtm",
    }
}

/// The row's label.
pub fn pixel_label(key: PixelKey) -> (res: &'static str)
    ensures
        key == PixelKey::Ga4 ==> res@ == "Google Analytics 4"@,
        key == PixelKey::Meta ==> res@ == "Meta Pixel"@,
        key == PixelKey::Linkedin ==> res@ == "LinkedIn Insight"@,
        key == PixelKey::Gtm ==> res@ == "Google Tag Manager"@,
{
    match key {
        PixelKey::Ga4 => "Google Analytics 4",
        PixelKey::Meta => "Meta Pixel",
        PixelKey::Linkedin => "LinkedIn Insight",
        PixelKey::Gtm => "Google Tag Manager",
    }
}

/// A click on a pixel's row: the request that sets it to the opposite of what
/// it is now (page, pixel key, enabled), none when no page is selected. The
/// pixels are fetched again once the request is answered, whatever it answers.
pub fn pixel_toggle(page_id: Option<u128>, key: PixelKey, currently_enabled: bool) -> (res: Option<
    (u128, &'static str, bool),
>)
    ensures
        page_id is None <==> res is None,
        res matches Some(r) ==> Some(r.0) == page_id && r.1@ == pixel_key_spec(key) && r.2
            == !currently_enabled,
{
    match page_id {
        Some(id) => Some((id, pixel_key(key), !currently_enabled)),
        None => None,
    }
}

/// A pixel row's look: the row's style (dimmed and inert without a page), the
/// switch's class and its mark.
pub fn pixel_row(enabled: bool, no_page: bool) -> (res: (&'static str, &'static str, &'static str))
    ensures
        res.0@ == (if no_page { "opacity:0.4;pointer-events:none"@ } else { "cursor:pointer"@ }),
        res.1@ == (if enabled { "toggle-on"@ } else { "toggle-off"@ }),
        res.2@ == (if enabled { "●"@ } else { "○"@ }),
{
    let style = if no_page {
        "opacity:0.4;pointer-events:none"
    } else {
        "cursor:pointer"
    };
    if enabled {
        (style, "toggle-on", "●")
    } else {
        (style, "toggle-off", "○")
    }
}

/// A page is listed exactly when the lower-cased search is empty or occurs in
/// its lower-cased title or slug, the publication filter is "published" for a
/// published page, "draft" for an unpublished one, or anything else, and the
/// locale filter is "all" or the page's locale.
pub proof fn law_page_filter(p: PageSummary, search: Seq<char>, status_filter: Seq<char>, locale_filter: Seq<char>)
    ensures
        page_ok(p, search, status_filter, locale_filter) <==> {
            &&& (lowercase_text(search).len() == 0 || occurs_in(lowercase_text(p.title@), lowercase_text(search))
                || occurs_in(lowercase_text(p.slug@), lowercase_text(search)))
            &&& (status_filter == "published"@ ==> p.is_published)
            &&& (status_filter == "draft"@ ==> !p.is_published)
            &&& (locale_filter == "all"@ || p.locale@ == locale_filter)
        },
{
    reveal_strlit("published");
    reveal_strlit("draft");
    assert("published"@.len() != "draft"@.len());
}

} // verus!

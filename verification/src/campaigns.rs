//! Campaigns: labels, money tiers, the new-campaign form and the direct-mail
//! tabs' arithmetic.
use vstd::prelude::*;
use crate::text::{
    str_eq, owned, char_len, concat2, concat3, append, to_lowercase, lowercase_text, replace_char,
    replace_spec, parse_i64, parse_i64_spec, take_chars, take_spec, opt_view,
};
use vstd::string::StringSliceAdditionalSpecFns;
use crate::landing::tdiv;
use crate::ids::{uuid_text, uuid_text_spec, uuid_parse, uuid_parsed};

verus! {

pub open spec fn campaign_type_label_spec(t: Seq<char>) -> Seq<char> {
    if t == "direct_mail"@ {
        "Direct Mail"@
    } else if t == "cold_email"@ {
        "Cold Email"@
    } else if t == "ppc"@ {
        "Paid Search"@
    } else if t == "social"@ {
        "Social"@
    } else if t == "event_based"@ {
        "Event"@
    } else if t == "sms"@ {
        "SMS"@
    } else if t == "content"@ {
        "Content"@
    } else if t == "referral"@ {
        "Referral"@
    } else if t == "retargeting"@ {
        "Retargeting"@
    } else {
        "Campaign"@
    }
}

/// The display name of a campaign type.
pub fn campaign_type_label(t: &str) -> (res: &'static str)
    ensures
        res@ == campaign_type_label_spec(t@),
{
    if str_eq(t, "direct_mail") {
        "Direct Mail"
    } else if str_eq(t, "cold_email") {
        "Cold Email"
    } else if str_eq(t, "ppc") {
        "Paid Search"
    } else if str_eq(t, "social") {
        "Social"
    } else if str_eq(t, "event_based") {
        "Event"
    } else if str_eq(t, "sms") {
        "SMS"
    } else if str_eq(t, "content") {
        "Content"
    } else if str_eq(t, "referral") {
        "Referral"
    } else if str_eq(t, "retargeting") {
        "Retargeting"
    } else {
        "Campaign"
    }
}

pub open spec fn type_color_class_spec(t: Seq<char>) -> Seq<char> {
    if t == "direct_mail"@ {
        "bg-amber-500/15 border-amber-500/30 text-amber-300"@
    } else if t == "cold_email"@ {
        "color:var(--cobalt);border-color:var(--cobalt);background:var(--cobalt-dim)"@
    } else if t == "ppc"@ {
        "bg-purple-500/15 border-purple-500/30 text-purple-300"@
    } else if t == "social"@ {
        "bg-pink-500/15 border-pink-500/30 text-pink-300"@
    } else if t == "event_based"@ {
        "bg-emerald-500/15 border-emerald-500/30 text-emerald-300"@
    } else {
        "bg-outline-variant/20 border-outline-variant/30 text-on-surface-variant"@
    }
}

/// The badge style of a campaign type.
pub fn type_color_class(t: &str) -> (res: &'static str)
    ensures
        res@ == type_color_class_spec(t@),
{
    if str_eq(t, "direct_mail") {
        "bg-amber-500/15 border-amber-500/30 text-amber-300"
    } else if str_eq(t, "cold_email") {
        "color:var(--cobalt);border-color:var(--cobalt);background:var(--cobalt-dim)"
    } else if str_eq(t, "ppc") {
        "bg-purple-500/15 border-purple-500/30 text-purple-300"
    } else if str_eq(t, "social") {
        "bg-pink-500/15 border-pink-500/30 text-pink-300"
    } else if str_eq(t, "event_based") {
        "bg-emerald-500/15 border-emerald-500/30 text-emerald-300"
    } else {
        "bg-outline-variant/20 border-outline-variant/30 text-on-surface-variant"
    }
}

pub open spec fn status_dot_spec(s: Seq<char>) -> Seq<char> {
    if s == "active"@ {
        "text-emerald-400"@
    } else if s == "scheduled"@ {
        "text-amber-400"@
    } else if s == "paused"@ {
        "text-orange-400"@
    } else {
        "text-on-surface-variant"@
    }
}

/// The color of a campaign's status dot.
pub fn status_dot(s: &str) -> (res: &'static str)
    ensures
        res@ == status_dot_spec(s@),
{
    if str_eq(s, "active") {
        "text-emerald-400"
    } else if str_eq(s, "scheduled") {
        "text-amber-400"
    } else if str_eq(s, "paused") {
        "text-orange-400"
    } else {
        "text-on-surface-variant"
    }
}

// ── money ────────────────────────────────────────────────────────────────────

/// How an amount of money is shown: nothing spent, whole dollars, thousands or
/// millions of dollars (the last two are rounded by the display).
#[derive(PartialEq, Eq, Structural, Clone, Copy, Debug)]
pub enum MoneyTier {
    Zero,
    Dollars(i64),
    Thousands(i64),
    Millions(i64),
}

/// The tier of an amount in cents; the dollars are the cents divided by 100,
/// rounded toward zero.
pub open spec fn money_tier_spec(cents: int) -> MoneyTier {
    let dollars = tdiv(cents, 100);
    if cents == 0 {
        MoneyTier::Zero
    } else if dollars >= 1_000_000 {
        MoneyTier::Millions(dollars as i64)
    } else if dollars >= 1_000 {
        MoneyTier::Thousands(dollars as i64)
    } else {
        MoneyTier::Dollars(dollars as i64)
    }
}

/// The display tier of an amount in cents.
pub fn money_tier(cents: i64) -> (res: MoneyTier)
    ensures
        res == money_tier_spec(cents as int),
{
    if cents == 0 {
        return MoneyTier::Zero;
    }
    let dollars: i64 = cents / 100;
    if dollars >= 1_000_000 {
        MoneyTier::Millions(dollars)
    } else if dollars >= 1_000 {
        MoneyTier::Thousands(dollars)
    } else {
        MoneyTier::Dollars(dollars)
    }
}

/// The cost per acquisition in cents: the spend divided by the conversions,
/// rounded toward zero; none without conversions.
pub fn cac_cents(spent_cents: i64, conversions: i32) -> (res: Option<i64>)
    requires
        !(spent_cents == i64::MIN && conversions == -1),
    ensures
        conversions == 0 ==> res is None,
        conversions > 0 ==> res == Some(tdiv(spent_cents as int, conversions as int) as i64),
        conversions < 0 ==> res == Some(-tdiv(spent_cents as int, -(conversions as int)) as i64),
{
    if conversions == 0 {
        None
    } else if conversions > 0 {
        Some(spent_cents / (conversions as i64))
    } else {
        let d: i64 = -(conversions as i64);
        let q: i64 = spent_cents / d;
        assert(q != i64::MIN) by (nonlinear_arith)
            requires
                d >= 1,
                d == 1 ==> spent_cents != i64::MIN,
                q == tdiv(spent_cents as int, d as int),
                i64::MIN <= spent_cents <= i64::MAX,
        ;
        Some(-q)
    }
}

/// Whether a conversion rate can be computed (there are contacts).
pub fn has_conversion_base(total: i32) -> (res: bool)
    ensures
        res == (total != 0),
{
    total != 0
}

/// How full a campaign's budget bar is drawn.
#[derive(PartialEq, Eq, Structural, Clone, Copy, Debug)]
pub enum BudgetFill {
    /// Nothing drawn: no positive budget, or nothing spent.
    Empty,
    /// The whole bar: the spend reached the budget.
    Full,
    /// Spent and budget cents with 0 < spent < budget; the display draws the
    /// spend's share of the budget in whole percent.
    Part(i64, i64),
}

/// How full the budget bar is: empty without a positive budget or spend, full
/// once the spend reaches the budget, else the share in between.
pub fn budget_fill(spent_cents: i64, budget_cents: Option<i64>) -> (res: BudgetFill)
    ensures
        res == match budget_cents {
            Some(b) => if b > 0 {
                if spent_cents <= 0 {
                    BudgetFill::Empty
                } else if spent_cents >= b {
                    BudgetFill::Full
                } else {
                    BudgetFill::Part(spent_cents, b)
                }
            } else {
                BudgetFill::Empty
            },
            None => BudgetFill::Empty,
        },
{
    match budget_cents {
        Some(b) => if b > 0 {
            if spent_cents <= 0 {
                BudgetFill::Empty
            } else if spent_cents >= b {
                BudgetFill::Full
            } else {
                BudgetFill::Part(spent_cents, b)
            }
        } else {
            BudgetFill::Empty
        },
        None => BudgetFill::Empty,
    }
}

// ── the new-campaign form ────────────────────────────────────────────────────

/// What the form sends to create a campaign.
#[derive(Debug, PartialEq)]
pub struct CampaignInput {
    pub name: String,
    pub campaign_type: String,
    /// The tenant: the nil UUID, as the platform's own campaigns have.
    pub tenant_id: u128,
    pub goal_type: Option<String>,
    pub budget_cents: Option<i64>,
    pub utm_source: Option<String>,
    pub utm_medium: Option<String>,
    pub utm_campaign: Option<String>,
}

/// Why the form refuses to create a campaign.
#[derive(PartialEq, Eq, Structural, Clone, Copy, Debug)]
pub enum CampaignFormError {
    NameRequired,
}

pub open spec fn non_empty_opt(s: Seq<char>) -> Option<Seq<char>> {
    if s.len() == 0 {
        None
    } else {
        Some(s)
    }
}

/// The campaign the form creates. The budget is the whole-dollar text times
/// 100 (none when it is no integer); direct mail always has medium
/// "direct_mail"; empty source, medium and UTM slug are left out; an empty name
/// is refused.
pub fn campaign_input(
    name: String,
    campaign_type: String,
    goal: String,
    budget: &str,
    utm_source: String,
    utm_medium: String,
    utm_campaign: String,
) -> (res: Result<CampaignInput, CampaignFormError>)
    requires
        parse_i64_spec(budget@) matches Some(d) ==> i64::MIN <= d * 100 <= i64::MAX,
    ensures
        name@.len() == 0 <==> res == Err::<CampaignInput, CampaignFormError>(CampaignFormError::NameRequired),
        res matches Ok(c) ==> {
            &&& c.name@ == name@
            &&& c.campaign_type@ == campaign_type@
            &&& c.tenant_id == 0
            &&& opt_view(c.goal_type) == Some(goal@)
            &&& c.budget_cents == match parse_i64_spec(budget@) {
                Some(d) => Some((d * 100) as i64),
                None => None,
            }
            &&& opt_view(c.utm_source) == non_empty_opt(utm_source@)
            &&& opt_view(c.utm_medium) == (if campaign_type@ == "direct_mail"@ {
                Some("direct_mail"@)
            } else {
                non_empty_opt(utm_medium@)
            })
            &&& opt_view(c.utm_campaign) == non_empty_opt(utm_campaign@)
        },
{
    if char_len(name.as_str()) == 0 {
        return Err(CampaignFormError::NameRequired);
    }
    let budget_cents = match parse_i64(budget) {
        Some(d) => Some(d * 100),
        None => None,
    };
    let medium = if str_eq(campaign_type.as_str(), "direct_mail") {
        Some(owned("direct_mail"))
    } else if char_len(utm_medium.as_str()) == 0 {
        None
    } else {
        Some(utm_medium)
    };
    let source = if char_len(utm_source.as_str()) == 0 {
        None
    } else {
        Some(utm_source)
    };
    let slug = if char_len(utm_campaign.as_str()) == 0 {
        None
    } else {
        Some(utm_campaign)
    };
    Ok(
        CampaignInput {
            name,
            campaign_type,
            tenant_id: 0,
            goal_type: Some(goal),
            budget_cents,
            utm_source: source,
            utm_medium: medium,
            utm_campaign: slug,
        },
    )
}

/// The form's UTM fields after the type changes: choosing direct mail sets the
/// medium to "direct_mail" and an empty source to "manual".
pub fn on_type_change(new_type: &str, source: String, medium: String) -> (res: (String, String))
    ensures
        new_type@ == "direct_mail"@ ==> res.1@ == "direct_mail"@ && res.0@ == (if source@.len() == 0 {
            "manual"@
        } else {
            source@
        }),
        new_type@ != "direct_mail"@ ==> res.0 == source && res.1 == medium,
{
    if str_eq(new_type, "direct_mail") {
        let s = if char_len(source.as_str()) == 0 {
            owned("manual")
        } else {
            source
        };
        (s, owned("direct_mail"))
    } else {
        (source, medium)
    }
}

/// The tracked address the form previews.
pub fn form_tracking_preview(lp_path: &str, source: &str, medium: &str, slug: &str) -> (res: String)
    ensures
        res@ == lp_path@ + "?utm_source="@ + source@ + "&utm_medium="@ + medium@ + "&utm_campaign="@
            + slug@,
{
    let mut s = concat3(lp_path, "?utm_source=", source);
    append(&mut s, "&utm_medium=");
    append(&mut s, medium);
    append(&mut s, "&utm_campaign=");
    append(&mut s, slug);
    s
}

/// A campaign's UTM query, none without a UTM slug.
pub fn utm_query(source: &str, medium: &str, slug: &str) -> (res: Option<String>)
    ensures
        slug@.len() == 0 <==> res is None,
        res matches Some(q) ==> q@ == "?utm_source="@ + source@ + "&utm_medium="@ + medium@
            + "&utm_campaign="@ + slug@,
{
    if char_len(slug) == 0 {
        None
    } else {
        let mut s = concat2("?utm_source=", source);
        append(&mut s, "&utm_medium=");
        append(&mut s, medium);
        append(&mut s, "&utm_campaign=");
        append(&mut s, slug);
        Some(s)
    }
}

/// The tracked address of a product's landing page for a campaign.
pub fn landing_link(product_slug: &str, source: &str, medium: &str, slug: &str) -> (res: String)
    ensures
        res@ == "/lp/"@ + product_slug@ + "?utm_source="@ + source@ + "&utm_medium="@ + medium@
            + "&utm_campaign="@ + slug@,
{
    let mut s = concat3("/lp/", product_slug, "?utm_source=");
    append(&mut s, source);
    append(&mut s, "&utm_medium=");
    append(&mut s, medium);
    append(&mut s, "&utm_campaign=");
    append(&mut s, slug);
    s
}

/// The share link a referrer hands out, with the campaign's UTM slug when there
/// is one.
pub fn referral_share_hint(slug: &str) -> (res: String)
    ensures
        slug@.len() == 0 ==> res@ == "/refer/{code}"@,
        slug@.len() > 0 ==> res@ == "/refer/{code}?utm_campaign="@ + slug@,
{
    if char_len(slug) == 0 {
        owned("/refer/{code}")
    } else {
        concat2("/refer/{code}?utm_campaign=", slug)
    }
}

// ── members ──────────────────────────────────────────────────────────────────

pub open spec fn member_shown(filter: Seq<char>, status: Seq<char>) -> bool {
    filter == "all"@ || status == filter
}

/// Whether a member passes the status filter ("all" passes everyone).
pub fn member_visible(filter: &str, status: &str) -> (res: bool)
    ensures
        res == member_shown(filter@, status@),
{
    str_eq(filter, "all") || str_eq(status, filter)
}

/// The positions of the members the filter shows, in order.
pub fn filter_members(filter: &str, statuses: &Vec<String>) -> (res: Vec<usize>)
    ensures
        forall|k: int| 0 <= k < res@.len() ==> (res@[k] as int) < statuses@.len() && member_shown(
            filter@,
            statuses@[res@[k] as int]@,
        ),
        forall|i: int|
            0 <= i < statuses@.len() && member_shown(filter@, (#[trigger] statuses@[i])@) ==> res@.contains(
                i as usize,
            ),
        forall|a: int, b: int| 0 <= a < b < res@.len() ==> res@[a] < res@[b],
{
    let mut out: Vec<usize> = Vec::new();
    let mut i: usize = 0;
    while i < statuses.len()
        invariant
            i <= statuses.len(),
            forall|k: int| 0 <= k < out@.len() ==> (out@[k] as int) < i && member_shown(
                filter@,
                statuses@[out@[k] as int]@,
            ),
            forall|j: int|
                0 <= j < i && member_shown(filter@, (#[trigger] statuses@[j])@) ==> out@.contains(
                    j as usize,
                ),
            forall|a: int, b: int| 0 <= a < b < out@.len() ==> out@[a] < out@[b],
        decreases statuses.len() - i,
    {
        let ghost before = out@;
        if member_visible(filter, statuses[i].as_str()) {
            out.push(i);
            assert forall|j: int|
                0 <= j < i + 1 && member_shown(filter@, (#[trigger] statuses@[j])@) implies out@.contains(
                j as usize,
            ) by {
                if j < i {
                    assert(before.contains(j as usize));
                    let k = choose|k: int| 0 <= k < before.len() && before[k] == j as usize;
                    assert(out@[k] == j as usize);
                } else {
                    assert(out@[out@.len() - 1] == i);
                }
            }
        }
        i = i + 1;
    }
    out
}

/// The first ten characters of an enrolment time stamp (its date).
pub fn enrolled_date(enrolled_at: &str) -> (res: String)
    ensures
        res@ == take_spec(enrolled_at@, 10),
{
    take_chars(enrolled_at, 10)
}

// ── direct mail ──────────────────────────────────────────────────────────────

/// The UTM content of a mail drop: its name in lower case with spaces as
/// underscores.
pub fn drop_utm_slug(name: &str) -> (res: String)
    ensures
        res@ == replace_spec(lowercase_text(name@), ' ', '_'),
{
    let lower = to_lowercase(name);
    replace_char(lower.as_str(), ' ', '_')
}

/// Whether a mail drop can be created (it has a name).
pub fn drop_ready(name: &str) -> (res: bool)
    ensures
        res == (name@.len() > 0),
{
    char_len(name) > 0
}

/// The piece count of a mail drop: the text as an integer, zero when it is none.
pub fn drop_piece_count(text: &str) -> (res: i32)
    ensures
        res == match crate::text::parse_i32_spec(text@) {
            Some(v) => v as i32,
            None => 0i32,
        },
{
    match crate::text::parse_i32(text) {
        Some(v) => v,
        None => 0,
    }
}

/// The total cost of a drop in cents, none unless the unit cost is known and
/// there are pieces.
pub fn drop_cost_cents(unit_cost_cents: Option<i64>, piece_count: i32) -> (res: Option<i64>)
    requires
        unit_cost_cents matches Some(u) ==> i64::MIN <= u * piece_count <= i64::MAX,
    ensures
        res == match unit_cost_cents {
            Some(u) => if piece_count > 0 {
                Some((u * piece_count) as i64)
            } else {
                None
            },
            None => None,
        },
{
    match unit_cost_cents {
        Some(u) => if piece_count > 0 {
            Some(u * (piece_count as i64))
        } else {
            None
        },
        None => None,
    }
}

/// The spend entry's optional external reference (none when empty).
pub fn external_reference(text: String) -> (res: Option<String>)
    ensures
        opt_view(res) == non_empty_opt(text@),
{
    if char_len(text.as_str()) == 0 {
        None
    } else {
        Some(text)
    }
}

pub open spec fn anonymous_label_spec(a: &str) -> Seq<char> {
    if a.len() > 8 {
        "anon:"@ + vstd::utf8::decode_utf8(a.spec_bytes().take(8)) + "…"@
    } else {
        "anon:"@ + a@
    }
}

/// `anon:` and an anonymous id, cut to its first eight bytes (with `…`) when it
/// is longer than eight bytes.
pub fn anonymous_label(a: &str) -> (res: String)
    requires
        a.len() > 8 ==> vstd::utf8::is_char_boundary(a.spec_bytes(), 8),
    ensures
        res@ == anonymous_label_spec(a),
{
    if a.len() > 8 {
        let (head, _rest) = a.split_at(8);
        proof {
            broadcast use vstd::utf8::encode_utf8_decode_utf8;

            assert(head.spec_bytes() =~= a.spec_bytes().take(8));
            assert(vstd::utf8::decode_utf8(a.spec_bytes().take(8)) == head@);
        }
        concat3("anon:", head, "…")
    } else {
        concat2("anon:", a)
    }
}

/// How an attribution touch point names its contact: the email, else the
/// anonymous id as [`anonymous_label`] shows it, else a dash.
pub fn touch_identity(email: Option<&str>, anonymous_id: Option<&str>) -> (res: String)
    requires
        email is None ==> (anonymous_id matches Some(a) ==> (a.len() > 8
            ==> vstd::utf8::is_char_boundary(a.spec_bytes(), 8))),
    ensures
        email matches Some(e) ==> res@ == e@,
        email is None ==> (anonymous_id matches Some(a) ==> res@ == anonymous_label_spec(a)),
        email is None && anonymous_id is None ==> res@ == "—"@,
{
    match email {
        Some(e) => owned(e),
        None => match anonymous_id {
            Some(a) => anonymous_label(a),
            None => owned("—"),
        },
    }
}

/// When a touch point happened: its time stamp with `T` as a space, cut to 16
/// characters.
pub fn touch_time(occurred_at: &str) -> (res: String)
    ensures
        res@ == take_spec(replace_spec(occurred_at@, 'T', ' '), 16),
{
    let r = replace_char(occurred_at, 'T', ' ');
    take_chars(r.as_str(), 16)
}

/// The drop form after the service answered a new mail drop (the new drop's
/// id, or a failure): the offer code to attach to the drop (when one was
/// typed, on success only), the form's drop name and offer code, and whether
/// the drops are fetched again. On success the form is cleared; on failure it
/// stays as it was.
pub fn drop_created_done(drop_name: String, offer_code: String, reply: Option<u128>) -> (res: (
    Option<(String, u128)>,
    String,
    String,
    bool,
))
    ensures
        reply matches Some(id) ==> {
            &&& (offer_code@.len() == 0 ==> res.0 is None)
            &&& (offer_code@.len() > 0 ==> (res.0 matches Some(o) && o.0@ == offer_code@ && o.1 == id))
            &&& res.1@.len() == 0 && res.2@.len() == 0 && res.3
        },
        reply is None ==> res.0 is None && res.1@ == drop_name@ && res.2@ == offer_code@ && !res.3,
{
    match reply {
        Some(id) => {
            let offer = if char_len(offer_code.as_str()) == 0 {
                None
            } else {
                Some((offer_code, id))
            };
            (offer, String::new(), String::new(), true)
        },
        None => (None, drop_name, offer_code, false),
    }
}

/// The tracked query a mail drop's pieces carry, with a `{drop}` slot for the
/// drop's own content tag.
pub fn drop_tracking_preview(source: &str, medium: &str, slug: &str) -> (res: String)
    ensures
        res@ == "?utm_source="@ + source@ + "&utm_medium="@ + medium@ + "&utm_campaign="@ + slug@
            + "&utm_content={drop}"@,
{
    let mut s = concat2("?utm_source=", source);
    append(&mut s, "&utm_medium=");
    append(&mut s, medium);
    append(&mut s, "&utm_campaign=");
    append(&mut s, slug);
    append(&mut s, "&utm_content={drop}");
    s
}

/// A campaign's page.
pub fn campaign_href(id: u128) -> (res: String)
    ensures
        res@ == "/campaigns/"@ + uuid_text_spec(id),
{
    let t = uuid_text(id);
    concat2("/campaigns/", t.as_str())
}

/// The campaign a route names: the `id` parameter read as a UUID.
pub fn campaign_route_id(param: Option<&str>) -> (res: Option<u128>)
    ensures
        res == match param {
            Some(p) => uuid_parsed(p@),
            None => None,
        },
{
    match param {
        Some(p) => uuid_parse(p),
        None => None,
    }
}

/// A campaign's status as its card shows it.
pub fn status_text(status: &str) -> (res: String)
    ensures
        res@ == "● "@ + status@,
{
    concat2("● ", status)
}

/// Why the form refused to create a campaign, as it says so.
pub fn form_error_message(e: CampaignFormError) -> (res: &'static str)
    ensures
        e == CampaignFormError::NameRequired ==> res@ == "Campaign name is required."@,
{
    match e {
        CampaignFormError::NameRequired => "Campaign name is required.",
    }
}

/// The new-campaign dialog's state that its Create button changes: whether it
/// is open, the name, the UTM slug, the budget text and the error line.
#[derive(Debug, PartialEq)]
pub struct CampaignDialog {
    pub open: bool,
    pub name: String,
    pub utm_campaign: String,
    pub budget: String,
    pub error: String,
}

/// The error line as Create is pressed: the refusal for an empty name, else
/// cleared before the request is sent.
pub fn create_error_line(name: &str) -> (res: String)
    ensures
        name@.len() == 0 ==> res@ == "Campaign name is required."@,
        name@.len() > 0 ==> res@.len() == 0,
{
    if char_len(name) == 0 {
        owned(form_error_message(CampaignFormError::NameRequired))
    } else {
        String::new()
    }
}

/// The dialog after the service answered a create request (the new
/// campaign's id, or why it failed): the dialog, where the browser goes, and
/// whether the list reloads. On success the dialog closes, its name, UTM slug
/// and budget are cleared and the new campaign's page opens; on failure the
/// reason becomes the error line and nothing else changes.
pub fn campaign_create_done(d: CampaignDialog, reply: Result<u128, String>) -> (res: (
    CampaignDialog,
    Option<String>,
    bool,
))
    ensures
        reply matches Ok(id) ==> {
            &&& !res.0.open
            &&& res.0.name@.len() == 0
            &&& res.0.utm_campaign@.len() == 0
            &&& res.0.budget@.len() == 0
            &&& res.0.error == d.error
            &&& opt_view(res.1) == Some("/campaigns/"@ + uuid_text_spec(id))
            &&& res.2
        },
        reply matches Err(e) ==> {
            &&& res.0.open == d.open && res.0.name == d.name && res.0.utm_campaign == d.utm_campaign
                && res.0.budget == d.budget
            &&& res.0.error@ == e@
            &&& res.1 is None
            &&& !res.2
        },
{
    match reply {
        Ok(id) => {
            let idt = uuid_text(id);
            let path = concat2("/campaigns/", idt.as_str());
            (
                CampaignDialog {
                    open: false,
                    name: String::new(),
                    utm_campaign: String::new(),
                    budget: String::new(),
                    error: d.error,
                },
                Some(path),
                true,
            )
        },
        Err(e) => (CampaignDialog { error: e, ..d }, None, false),
    }
}

/// The form's submit button: direct mail goes on to its first drop.
pub fn create_button_label(campaign_type: &str) -> (res: &'static str)
    ensures
        res@ == (if campaign_type@ == "direct_mail"@ {
            "Create & add first drop"@
        } else {
            "Create Campaign"@
        }),
{
    if str_eq(campaign_type, "direct_mail") {
        "Create & add first drop"
    } else {
        "Create Campaign"
    }
}

/// A campaign card's UTM line: its slug, or a warning that it is not linked
/// to a landing page.
pub fn utm_slug_line(slug: &str) -> (res: String)
    ensures
        slug@.len() == 0 ==> res@ == "No UTM slug — not linked to landing page"@,
        slug@.len() > 0 ==> res@ == "utm_campaign="@ + slug@,
{
    if char_len(slug) == 0 {
        owned("No UTM slug — not linked to landing page")
    } else {
        concat2("utm_campaign=", slug)
    }
}

} // verus!

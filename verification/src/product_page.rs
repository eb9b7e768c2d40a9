//! The product page: its form, billing plans, pixels and domain aliases, the
//! SEO score and the variant list's labels.
use vstd::prelude::*;
use crate::text::{
    trim, trim_spec, char_len, str_eq, owned, concat2, concat3, append, parse_i64,
    parse_i64_spec, decimal, decimal_spec, opt_view,
};
use crate::ids::{uuid_parse, uuid_parsed};
use crate::notice::{Toast, toast, toast_is};

verus! {

/// The product a route names: the `id` parameter read as a UUID.
pub fn product_route_id(param: Option<&str>) -> (res: Option<u128>)
    ensures
        res == match param {
            Some(p) => uuid_parsed(p@),
            None => None,
        },
{
    match param {
        Some(p) => uuid_parse(p),
        None => None,
    }
}

/// A product as the page loads it.
#[derive(Debug, PartialEq)]
pub struct ProductRecord {
    pub name: String,
    pub tagline: Option<String>,
    pub apex_domain: Option<String>,
    pub status: String,
    pub slug: String,
    pub waitlist_count: i32,
    pub pre_order_enabled: bool,
}

/// The page's editable fields.
#[derive(Debug, PartialEq)]
pub struct ProductForm {
    pub name: String,
    pub tagline: String,
    pub domain: String,
    pub status: String,
    pub slug: String,
    pub waitlist_count: i32,
    pub pre_order_enabled: bool,
}

pub open spec fn text_or_empty(o: Option<String>) -> Seq<char> {
    match o {
        Some(s) => s@,
        None => Seq::empty(),
    }
}

fn or_empty(o: Option<String>) -> (res: String)
    ensures
        res@ == text_or_empty(o),
{
    match o {
        Some(s) => s,
        None => String::new(),
    }
}

/// The form filled from a loaded product (a missing tagline or domain is empty).
pub fn product_form(p: ProductRecord) -> (res: ProductForm)
    ensures
        res.name@ == p.name@,
        res.tagline@ == text_or_empty(p.tagline),
        res.domain@ == text_or_empty(p.apex_domain),
        res.status@ == p.status@,
        res.slug@ == p.slug@,
        res.waitlist_count == p.waitlist_count,
        res.pre_order_enabled == p.pre_order_enabled,
{
    ProductForm {
        name: p.name,
        tagline: or_empty(p.tagline),
        domain: or_empty(p.apex_domain),
        status: p.status,
        slug: p.slug,
        waitlist_count: p.waitlist_count,
        pre_order_enabled: p.pre_order_enabled,
    }
}

/// The lead source the waiting-list tab asks for: `waitlist:` and the slug,
/// nothing while the slug is unknown.
pub fn waitlist_prefix(slug: &str) -> (res: Option<String>)
    ensures
        slug@.len() == 0 ==> res is None,
        slug@.len() > 0 ==> opt_view(res) == Some("waitlist:"@ + slug@),
{
    if char_len(slug) == 0 {
        None
    } else {
        Some(concat2("waitlist:", slug))
    }
}

// ── the SEO score ────────────────────────────────────────────────────────────

/// 40, plus 20 for each of the name, tagline and domain that is set, at most 100.
pub open spec fn seo_score_spec(name: Seq<char>, tagline: Seq<char>, domain: Seq<char>) -> int {
    let s: int = 40 + (if name.len() > 0 { 20int } else { 0 }) + (if tagline.len() > 0 {
        20int
    } else {
        0
    }) + (if domain.len() > 0 { 20int } else { 0 });
    if s > 100 {
        100
    } else {
        s
    }
}

/// The SEO score of the product's fields.
pub fn seo_score(name: &str, tagline: &str, domain: &str) -> (res: i32)
    ensures
        res == seo_score_spec(name@, tagline@, domain@),
{
    let mut score: i32 = 40;
    if char_len(name) > 0 {
        score = score + 20;
    }
    if char_len(tagline) > 0 {
        score = score + 20;
    }
    if char_len(domain) > 0 {
        score = score + 20;
    }
    if score > 100 {
        100
    } else {
        score
    }
}

/// The score is 40 with nothing set, rises by 20 with each field set, and
/// stays between 40 and 100.
pub proof fn law_seo_score(name: Seq<char>, tagline: Seq<char>, domain: Seq<char>)
    ensures
        40 <= seo_score_spec(name, tagline, domain) <= 100,
        (seo_score_spec(name, tagline, domain) - 40) % 20 == 0,
        seo_score_spec(name, tagline, domain) == 100 <==> (name.len() > 0 && tagline.len() > 0
            && domain.len() > 0),
        seo_score_spec(Seq::empty(), Seq::empty(), Seq::empty()) == 40,
{
}

/// How much of the score ring (377 units round) is left undrawn.
pub fn seo_ring_offset(score: i32) -> (res: i32)
    requires
        i32::MIN <= 377 * score <= i32::MAX,
    ensures
        res == 377 - crate::landing::tdiv(377 * score, 100),
{
    377 - (377 * score) / 100
}

pub open spec fn seo_rating_spec(score: int) -> Seq<char> {
    if score >= 80 {
        "Excellent index scores. Pages are fully optimized."@
    } else if score >= 60 {
        "Good. Set the missing fields above to improve ranking."@
    } else {
        "Needs attention. Key meta fields remain unoptimized."@
    }
}

/// The sentence under the score ring.
pub fn seo_rating(score: i32) -> (res: &'static str)
    ensures
        res@ == seo_rating_spec(score as int),
{
    if score >= 80 {
        "Excellent index scores. Pages are fully optimized."
    } else if score >= 60 {
        "Good. Set the missing fields above to improve ranking."
    } else {
        "Needs attention. Key meta fields remain unoptimized."
    }
}

// ── saving the product ───────────────────────────────────────────────────────

/// What the page sends to update a product.
#[derive(Debug, PartialEq)]
pub struct ProductUpdate {
    pub id: u128,
    pub name: String,
    pub tagline: Option<String>,
}

/// Why the page refuses to save.
#[derive(PartialEq, Eq, Structural, Clone, Copy, Debug)]
pub enum ProductSaveError {
    InvalidId,
    NameEmpty,
}

/// The update the Save button sends: none without a valid product id or with a
/// blank name; the tagline is left out when empty.
pub fn product_update(id: Option<u128>, name: String, tagline: String) -> (res: Result<
    ProductUpdate,
    ProductSaveError,
>)
    ensures
        id is None <==> res == Err::<ProductUpdate, ProductSaveError>(ProductSaveError::InvalidId),
        id is Some ==> (trim_spec(name@).len() == 0 <==> res == Err::<
            ProductUpdate,
            ProductSaveError,
        >(ProductSaveError::NameEmpty)),
        res matches Ok(u) ==> {
            &&& id == Some(u.id)
            &&& u.name@ == name@
            &&& opt_view(u.tagline) == (if tagline@.len() == 0 {
                None
            } else {
                Some(tagline@)
            })
        },
{
    let id = match id {
        Some(i) => i,
        None => {
            return Err(ProductSaveError::InvalidId);
        },
    };
    let t = trim(name.as_str());
    if char_len(t.as_str()) == 0 {
        return Err(ProductSaveError::NameEmpty);
    }
    let tagline = if char_len(tagline.as_str()) == 0 {
        None
    } else {
        Some(tagline)
    };
    Ok(ProductUpdate { id, name, tagline })
}

/// The toast (title, message, kind) for a refused save.
pub fn save_error_toast(e: ProductSaveError) -> (res: (&'static str, &'static str, &'static str))
    ensures
        res.2@ == "error"@,
        e == ProductSaveError::InvalidId ==> res.0@ == "Error"@ && res.1@ == "Invalid product ID"@,
        e == ProductSaveError::NameEmpty ==> res.0@ == "Validation"@ && res.1@
            == "Product name cannot be empty"@,
{
    match e {
        ProductSaveError::InvalidId => ("Error", "Invalid product ID", "error"),
        ProductSaveError::NameEmpty => ("Validation", "Product name cannot be empty", "error"),
    }
}

/// The toast (title, message, kind) after the service saved the product's details.
pub fn product_saved_toast() -> (res: (&'static str, &'static str, &'static str))
    ensures
        res.2@ == "success"@,
        res.0@ == "Saved"@,
        res.1@ == "Product details updated successfully."@,
{
    ("Saved", "Product details updated successfully.", "success")
}

/// The page's busy flag while Save runs: set exactly when an update is sent.
pub fn save_busy(update: &Result<ProductUpdate, ProductSaveError>, saving: bool) -> (res: bool)
    ensures
        res == (update is Ok || saving),
{
    match update {
        Ok(_) => true,
        Err(_) => saving,
    }
}

/// The form after the service answered Save, given the name, tagline and
/// domain shown and the answer (the saved name, tagline and apex domain, or
/// why it failed): the three fields, the busy flag (cleared) and the toast. On
/// success the fields show what was saved (empty where the service has none).
pub fn product_save_done(
    name: String,
    tagline: String,
    domain: String,
    reply: Result<(String, Option<String>, Option<String>), String>,
) -> (res: (String, String, String, bool, Toast))
    ensures
        !res.3,
        reply matches Ok(u) ==> res.0@ == u.0@ && res.1@ == text_or_empty(u.1) && res.2@
            == text_or_empty(u.2) && toast_is(
            res.4,
            "Saved"@,
            "Product details updated successfully."@,
            "success"@,
        ),
        reply matches Err(e) ==> res.0@ == name@ && res.1@ == tagline@ && res.2@ == domain@
            && toast_is(res.4, "Save Failed"@, e@, "error"@),
{
    match reply {
        Ok((n, t, d)) => {
            let t = match t {
                Some(x) => x,
                None => String::new(),
            };
            let d = match d {
                Some(x) => x,
                None => String::new(),
            };
            (n, t, d, false, toast("Saved", owned("Product details updated successfully."), "success"))
        },
        Err(e) => (name, tagline, domain, false, toast("Save Failed", e, "error")),
    }
}

/// Publish pressed while the page's publishing flag is `publishing`: the
/// product the publish job is queued for (none without a valid product id, with
/// the `Invalid product ID` toast) and the flag while it runs.
pub fn publish_click(id: Option<u128>, publishing: bool) -> (res: (Option<u128>, bool))
    ensures
        res.0 == id,
        res.1 == (id is Some || publishing),
{
    match id {
        Some(i) => (Some(i), true),
        None => (None, publishing),
    }
}

/// The publishing flag (cleared) and the toast after the service answered a
/// publish request.
pub fn publish_done(reply: Result<(), String>) -> (res: (bool, Toast))
    ensures
        !res.0,
        reply is Ok ==> toast_is(res.1, "Published"@, "Marketing page publish job queued."@, "success"@),
        reply matches Err(e) ==> toast_is(res.1, "Publish Failed"@, e@, "error"@),
{
    match reply {
        Ok(()) => (false, toast("Published", owned("Marketing page publish job queued."), "success")),
        Err(e) => (false, toast("Publish Failed", e, "error")),
    }
}

pub open spec fn status_badge_spec(status: Seq<char>) -> Seq<char> {
    if status == "active"@ {
        "inline-flex items-center px-2 py-0.5 rounded text-[9px] font-bold bg-emerald-500/10 text-emerald-400 border border-emerald-500/20 uppercase tracking-wider"@
    } else if status == "waitlist"@ {
        "inline-flex items-center px-2 py-0.5 rounded text-[9px] font-bold bg-amber-500/10 text-amber-400 border border-amber-500/20 uppercase tracking-wider"@
    } else {
        "inline-flex items-center px-2 py-0.5 rounded text-[9px] font-bold bg-outline-variant/20 text-on-surface-variant border border-outline-variant/30 uppercase tracking-wider"@
    }
}

/// The style of the product's status badge (drafts and unknown states alike).
pub fn status_badge_class(status: &str) -> (res: &'static str)
    ensures
        res@ == status_badge_spec(status@),
{
    if str_eq(status, "active") {
        "inline-flex items-center px-2 py-0.5 rounded text-[9px] font-bold bg-emerald-500/10 text-emerald-400 border border-emerald-500/20 uppercase tracking-wider"
    } else if str_eq(status, "waitlist") {
        "inline-flex items-center px-2 py-0.5 rounded text-[9px] font-bold bg-amber-500/10 text-amber-400 border border-amber-500/20 uppercase tracking-wider"
    } else {
        "inline-flex items-center px-2 py-0.5 rounded text-[9px] font-bold bg-outline-variant/20 text-on-surface-variant border border-outline-variant/30 uppercase tracking-wider"
    }
}

// ── billing plans ────────────────────────────────────────────────────────────

/// The plan dialog's fields; `id` is set when an existing plan is edited.
#[derive(Debug, PartialEq)]
pub struct PlanForm {
    pub id: Option<String>,
    pub name: String,
    pub price: String,
    pub interval: String,
}

/// The dialog for editing a plan: its id, name, price in cents and interval.
pub fn plan_form_for_edit(id: String, name: String, price_cents: i64, interval: String) -> (res:
    PlanForm)
    ensures
        opt_view(res.id) == Some(id@),
        res.name@ == name@,
        res.price@ == decimal_spec(price_cents as int),
        res.interval@ == interval@,
{
    PlanForm { id: Some(id), name, price: decimal(price_cents), interval }
}

/// The dialog for a new plan: empty, billed monthly.
pub fn plan_form_for_create() -> (res: PlanForm)
    ensures
        res.id is None,
        res.name@.len() == 0,
        res.price@.len() == 0,
        res.interval@ == "month"@,
{
    PlanForm { id: None, name: String::new(), price: String::new(), interval: owned("month") }
}

/// A plan as the page sends it.
#[derive(Debug, PartialEq)]
pub struct PlanInput {
    pub name: String,
    pub price: i64,
    pub currency: Option<String>,
    pub interval: String,
}

/// Whether the plan is updated or created.
#[derive(Debug, PartialEq)]
pub enum PlanAction {
    Update(String, PlanInput),
    Create(PlanInput),
}

/// Why the plan dialog refuses to save.
#[derive(PartialEq, Eq, Structural, Clone, Copy, Debug)]
pub enum PlanFormError {
    NameRequired,
}

/// The toast (title, message, kind) for a refused plan.
pub fn plan_error_toast(e: PlanFormError) -> (res: (&'static str, &'static str, &'static str))
    ensures
        res.2@ == "error"@,
        e == PlanFormError::NameRequired ==> res.0@ == "Error"@ && res.1@
            == "Plan name is required."@,
{
    match e {
        PlanFormError::NameRequired => ("Error", "Plan name is required.", "error"),
    }
}

/// The price a plan is saved with: the trimmed text as an integer, zero when
/// it is none.
pub open spec fn plan_price_spec(text: Seq<char>) -> int {
    match parse_i64_spec(trim_spec(text)) {
        Some(v) => v,
        None => 0,
    }
}

/// What saving the plan dialog sends: an update of the plan being edited or a
/// new plan, in US dollars; a blank name is refused.
pub fn save_plan(form: PlanForm) -> (res: Result<PlanAction, PlanFormError>)
    ensures
        trim_spec(form.name@).len() == 0 <==> res is Err,
        res matches Ok(a) ==> match a {
            PlanAction::Update(id, input) => opt_view(form.id) == Some(id@) && input.name@
                == form.name@ && input.price == plan_price_spec(form.price@) && opt_view(
                input.currency,
            ) == Some("usd"@) && input.interval@ == form.interval@,
            PlanAction::Create(input) => form.id is None && input.name@ == form.name@ && input.price
                == plan_price_spec(form.price@) && opt_view(input.currency) == Some("usd"@)
                && input.interval@ == form.interval@,
        },
{
    let t = trim(form.name.as_str());
    if char_len(t.as_str()) == 0 {
        return Err(PlanFormError::NameRequired);
    }
    let p = trim(form.price.as_str());
    let price = match parse_i64(p.as_str()) {
        Some(v) => v,
        None => 0,
    };
    let input = PlanInput {
        name: form.name,
        price,
        currency: Some(owned("usd")),
        interval: form.interval,
    };
    match form.id {
        Some(id) => Ok(PlanAction::Update(id, input)),
        None => Ok(PlanAction::Create(input)),
    }
}

/// The plan dialog after the service answered a saved plan: whether the
/// dialog is open, whether the plans are fetched again, and the toast. On
/// success the dialog closes and the plans reload; on failure nothing changes.
pub fn plan_saved_done(dialog_open: bool, reply: Result<(), String>) -> (res: (bool, bool, Toast))
    ensures
        reply is Ok ==> !res.0 && res.1 && toast_is(res.2, "Saved"@, "Billing plan updated."@, "success"@),
        reply matches Err(e) ==> res.0 == dialog_open && !res.1 && toast_is(res.2, "Error"@, e@, "error"@),
{
    match reply {
        Ok(()) => (false, true, toast("Saved", owned("Billing plan updated."), "success")),
        Err(e) => (dialog_open, false, toast("Error", e, "error")),
    }
}

/// After the service answered a plan's deletion: whether the plans are
/// fetched again (on success only) and the toast.
pub fn plan_deleted_done(reply: Result<(), String>) -> (res: (bool, Toast))
    ensures
        reply is Ok ==> res.0 && toast_is(res.1, "Deleted"@, "Plan removed."@, "success"@),
        reply matches Err(e) ==> !res.0 && toast_is(res.1, "Error"@, e@, "error"@),
{
    match reply {
        Ok(()) => (true, toast("Deleted", owned("Plan removed."), "success")),
        Err(e) => (false, toast("Error", e, "error")),
    }
}

/// The billing period a plan's price is shown per.
pub fn interval_suffix(interval: &str) -> (res: &'static str)
    ensures
        res@ == (if interval@ == "year"@ {
            "yr"@
        } else {
            "mo"@
        }),
{
    if str_eq(interval, "year") {
        "yr"
    } else {
        "mo"
    }
}

// ── pixels and domain aliases ────────────────────────────────────────────────

/// Why a pixel or a domain alias is refused.
#[derive(PartialEq, Eq, Structural, Clone, Copy, Debug)]
pub enum QueueError {
    PixelFieldsRequired,
    AliasRequired,
}

/// The notice for a tracking pixel the form queues; a blank name or script
/// address is refused.
pub fn queue_pixel(name: &str, url: &str) -> (res: Result<String, QueueError>)
    ensures
        (trim_spec(name@).len() == 0 || trim_spec(url@).len() == 0) <==> res is Err,
        res matches Err(e) ==> e == QueueError::PixelFieldsRequired,
        res matches Ok(m) ==> m@ == "Pixel '"@ + name@ + "' queued for API wiring."@,
{
    let n = trim(name);
    let u = trim(url);
    if char_len(n.as_str()) == 0 || char_len(u.as_str()) == 0 {
        return Err(QueueError::PixelFieldsRequired);
    }
    Ok(concat3("Pixel '", name, "' queued for API wiring."))
}

/// The notice for a domain alias the form queues; a blank alias is refused.
pub fn queue_domain_alias(alias: &str) -> (res: Result<String, QueueError>)
    ensures
        trim_spec(alias@).len() == 0 <==> res is Err,
        res matches Err(e) ==> e == QueueError::AliasRequired,
        res matches Ok(m) ==> m@ == "Domain '"@ + alias@ + "' queued for API wiring."@,
{
    let a = trim(alias);
    if char_len(a.as_str()) == 0 {
        return Err(QueueError::AliasRequired);
    }
    Ok(concat3("Domain '", alias, "' queued for API wiring."))
}

/// The toast (title, message, kind) for a refused pixel or domain alias.
pub fn queue_error_toast(e: QueueError) -> (res: (&'static str, &'static str, &'static str))
    ensures
        res.2@ == "error"@,
        res.0@ == "Error"@,
        e == QueueError::PixelFieldsRequired ==> res.1@
            == "Pixel name and script URL are required."@,
        e == QueueError::AliasRequired ==> res.1@ == "Domain alias is required."@,
{
    match e {
        QueueError::PixelFieldsRequired => ("Error", "Pixel name and script URL are required.", "error"),
        QueueError::AliasRequired => ("Error", "Domain alias is required.", "error"),
    }
}

/// Add pressed in the pixel form: the toast, and the form's name, script
/// address and whether it is open. A refused pixel leaves the form as it was;
/// a queued one clears and closes it.
pub fn add_pixel_step(name: String, url: String, form_open: bool) -> (res: (Toast, String, String, bool))
    ensures
        (trim_spec(name@).len() == 0 || trim_spec(url@).len() == 0) ==> {
            &&& toast_is(res.0, "Error"@, "Pixel name and script URL are required."@, "error"@)
            &&& res.1@ == name@ && res.2@ == url@ && res.3 == form_open
        },
        !(trim_spec(name@).len() == 0 || trim_spec(url@).len() == 0) ==> {
            &&& toast_is(res.0, "Queued"@, "Pixel '"@ + name@ + "' queued for API wiring."@, "info"@)
            &&& res.1@.len() == 0 && res.2@.len() == 0 && !res.3
        },
{
    match queue_pixel(name.as_str(), url.as_str()) {
        Ok(notice) => (toast("Queued", notice, "info"), String::new(), String::new(), false),
        Err(e) => {
            let (title, message, kind) = queue_error_toast(e);
            (toast(title, owned(message), kind), name, url, form_open)
        },
    }
}

/// Add pressed in the domain-alias form: the toast, and the form's alias and
/// whether it is open. A refused alias leaves the form as it was; a queued one
/// clears and closes it.
pub fn add_alias_step(alias: String, form_open: bool) -> (res: (Toast, String, bool))
    ensures
        trim_spec(alias@).len() == 0 ==> {
            &&& toast_is(res.0, "Error"@, "Domain alias is required."@, "error"@)
            &&& res.1@ == alias@ && res.2 == form_open
        },
        trim_spec(alias@).len() > 0 ==> {
            &&& toast_is(res.0, "Queued"@, "Domain '"@ + alias@ + "' queued for API wiring."@, "info"@)
            &&& res.1@.len() == 0 && !res.2
        },
{
    match queue_domain_alias(alias.as_str()) {
        Ok(notice) => (toast("Queued", notice, "info"), String::new(), false),
        Err(e) => {
            let (title, message, kind) = queue_error_toast(e);
            (toast(title, owned(message), kind), alias, form_open)
        },
    }
}

/// The apex domain card's text.
pub fn apex_domain_text(domain: &str) -> (res: String)
    ensures
        domain@.len() == 0 ==> res@ == "Not configured"@,
        domain@.len() > 0 ==> res@ == domain@,
{
    if char_len(domain) == 0 {
        owned("Not configured")
    } else {
        owned(domain)
    }
}

// ── variants and leads ───────────────────────────────────────────────────────

/// Where a variant's page data can be previewed.
pub fn variant_preview_url(product_slug: &str, variant_slug: &str) -> (res: String)
    ensures
        res@ == "/api/pub/products/"@ + product_slug@ + "/"@ + variant_slug@,
{
    let mut s = concat3("/api/pub/products/", product_slug, "/");
    append(&mut s, variant_slug);
    s
}

/// Where a new variant of the product is made.
pub fn new_variant_href(product_slug: &str) -> (res: String)
    ensures
        res@ == "/products/"@ + product_slug@ + "/variants/new"@,
{
    concat3("/products/", product_slug, "/variants/new")
}

/// The market a variant serves: city and region, either one, or its locale.
pub fn market_label(city: Option<&str>, region: Option<&str>, locale: &str) -> (res: String)
    ensures
        res@ == match (city, region) {
            (Some(c), Some(r)) => c@ + ", "@ + r@,
            (Some(c), None) => c@,
            (None, Some(r)) => r@,
            (None, None) => locale@,
        },
{
    match (city, region) {
        (Some(c), Some(r)) => concat3(c, ", ", r),
        (Some(c), None) => owned(c),
        (None, Some(r)) => owned(r),
        (None, None) => owned(locale),
    }
}

/// A waiting-list lead's row: email, status and time (dashes and `New` stand
/// in for what is missing).
pub fn lead_row(email: Option<String>, status: Option<String>, created_at: Option<String>) -> (res: (
    String,
    String,
    String,
))
    ensures
        res.0@ == match email {
            Some(e) => e@,
            None => "—"@,
        },
        res.1@ == match status {
            Some(s) => s@,
            None => "New"@,
        },
        res.2@ == match created_at {
            Some(c) => c@,
            None => "—"@,
        },
{
    let e = match email {
        Some(e) => e,
        None => owned("—"),
    };
    let s = match status {
        Some(s) => s,
        None => owned("New"),
    };
    let c = match created_at {
        Some(c) => c,
        None => owned("—"),
    };
    (e, s, c)
}

} // verus!

//! Products: slugs, the new-product form, the catalog cards and the product
//! page's forms and scores.
use vstd::prelude::*;
use crate::text::{
    trim, trim_spec, trim_start_spec, trim_end_spec, is_white, is_ascii_alnum, ascii_lower,
    is_ascii_alphanumeric, ascii_lowercase, chars_of, string_of, char_len, to_lowercase,
    lowercase_text, str_eq, owned, concat2, concat3, opt_view,
};
use crate::ids::{uuid_text, uuid_text_spec};
use crate::notice::{Toast, toast, toast_is};

verus! {

// ── slugs ────────────────────────────────────────────────────────────────────

/// One character of the slug scan: an ASCII letter or digit goes in lower
/// case; any other character becomes a dash, unless the slug is empty or
/// already ends in a dash put there by the scan.
pub open spec fn slug_step(state: (Seq<char>, bool), c: char) -> (Seq<char>, bool) {
    let (out, last_dash) = state;
    if is_ascii_alnum(c) {
        (out.push(ascii_lower(c)), false)
    } else if !last_dash && out.len() > 0 {
        (out.push('-'), true)
    } else {
        (out, last_dash)
    }
}

/// The scan over all characters of `s`, from the empty slug.
pub open spec fn slug_scan(s: Seq<char>) -> (Seq<char>, bool)
    decreases s.len(),
{
    if s.len() == 0 {
        (seq![], false)
    } else {
        slug_step(slug_scan(s.drop_last()), s.last())
    }
}

/// `s` without its trailing dashes.
pub open spec fn strip_dashes(s: Seq<char>) -> Seq<char>
    decreases s.len(),
{
    if s.len() > 0 && s.last() == '-' {
        strip_dashes(s.drop_last())
    } else {
        s
    }
}

/// The slug of a text: the trimmed text scanned, trailing dashes removed.
pub open spec fn slugify_spec(input: Seq<char>) -> Seq<char> {
    strip_dashes(slug_scan(trim_spec(input)).0)
}

/// A character a slug may hold: a lower-case ASCII letter, a digit or a dash.
pub open spec fn slug_char(c: char) -> bool {
    ('a' <= c && c <= 'z') || ('0' <= c && c <= '9') || c == '-'
}

/// The shape of a slug: slug characters only, no dash first or last, and no
/// two dashes in a row.
pub open spec fn is_slug(s: Seq<char>) -> bool {
    &&& forall|i: int| 0 <= i < s.len() ==> slug_char(#[trigger] s[i])
    &&& s.len() > 0 ==> s[0] != '-' && s.last() != '-'
    &&& forall|i: int| 0 <= i < s.len() - 1 ==> !(#[trigger] s[i] == '-' && s[i + 1] == '-')
}

/// Turns a name into a URL slug: lower-case ASCII letters and digits, every
/// run of other characters between them one dash.
pub fn slugify(input: &str) -> (res: String)
    ensures
        res@ == slugify_spec(input@),
{
    let trimmed = trim(input);
    let cs = chars_of(trimmed.as_str());
    let mut out: Vec<char> = Vec::new();
    let mut last_dash = false;
    let mut i: usize = 0;
    while i < cs.len()
        invariant
            i <= cs.len(),
            cs@ == trim_spec(input@),
            slug_scan(cs@.take(i as int)) == (out@, last_dash),
        decreases cs.len() - i,
    {
        let ch = cs[i];
        assert(cs@.take(i + 1).drop_last() =~= cs@.take(i as int));
        if is_ascii_alphanumeric(ch) {
            out.push(ascii_lowercase(ch));
            last_dash = false;
        } else if !last_dash && out.len() > 0 {
            out.push('-');
            last_dash = true;
        }
        i = i + 1;
    }
    assert(cs@.take(cs.len() as int) =~= cs@);
    let ghost scanned = out@;
    while out.len() > 0 && out[out.len() - 1] == '-'
        invariant
            strip_dashes(out@) == strip_dashes(scanned),
        decreases out.len(),
    {
        assert(out@.drop_last() =~= out@.subrange(0, out@.len() - 1));
        out.pop();
    }
    string_of(&out)
}

// ── what every slug is ───────────────────────────────────────────────────────

/// What the scan keeps: slug characters only, never a dash first, never two
/// dashes in a row, and `last_dash` says whether it ends in a dash.
pub open spec fn scan_shape(state: (Seq<char>, bool)) -> bool {
    let (out, last_dash) = state;
    &&& forall|i: int| 0 <= i < out.len() ==> slug_char(#[trigger] out[i])
    &&& out.len() > 0 ==> out[0] != '-'
    &&& forall|i: int| 0 <= i < out.len() - 1 ==> !(#[trigger] out[i] == '-' && out[i + 1] == '-')
    &&& (out.len() > 0 && out.last() == '-') == last_dash
    &&& out.len() == 0 ==> !last_dash
}

proof fn lemma_scan_shape(s: Seq<char>)
    ensures
        scan_shape(slug_scan(s)),
    decreases s.len(),
{
    if s.len() > 0 {
        lemma_scan_shape(s.drop_last());
        let (out, ld) = slug_scan(s.drop_last());
        let (out2, ld2) = slug_scan(s);
        let c = s.last();
        if is_ascii_alnum(c) {
            assert(out2 == out.push(ascii_lower(c)));
            assert(slug_char(ascii_lower(c)));
            assert forall|i: int| 0 <= i < out2.len() implies slug_char(#[trigger] out2[i]) by {
                if i < out.len() {
                    assert(out2[i] == out[i]);
                }
            }
            assert forall|i: int| 0 <= i < out2.len() - 1 implies !(#[trigger] out2[i] == '-'
                && out2[i + 1] == '-') by {
                assert(out2[i] == out[i]);
                if i + 1 < out.len() {
                    assert(out2[i + 1] == out[i + 1]);
                }
            }
        } else if !ld && out.len() > 0 {
            assert(out2 == out.push('-'));
            assert forall|i: int| 0 <= i < out2.len() implies slug_char(#[trigger] out2[i]) by {
                if i < out.len() {
                    assert(out2[i] == out[i]);
                }
            }
            assert forall|i: int| 0 <= i < out2.len() - 1 implies !(#[trigger] out2[i] == '-'
                && out2[i + 1] == '-') by {
                assert(out2[i] == out[i]);
                if i + 1 < out.len() {
                    assert(out2[i + 1] == out[i + 1]);
                } else {
                    assert(out[i] == out.last());
                }
            }
        }
    }
}

proof fn lemma_strip_dashes(s: Seq<char>)
    requires
        forall|i: int| 0 <= i < s.len() ==> slug_char(#[trigger] s[i]),
        s.len() > 0 ==> s[0] != '-',
        forall|i: int| 0 <= i < s.len() - 1 ==> !(#[trigger] s[i] == '-' && s[i + 1] == '-'),
    ensures
        is_slug(strip_dashes(s)),
        strip_dashes(s).len() <= s.len(),
        strip_dashes(s) == s.take(strip_dashes(s).len() as int),
    decreases s.len(),
{
    if s.len() > 0 && s.last() == '-' {
        let t = s.drop_last();
        assert forall|i: int| 0 <= i < t.len() - 1 implies !(#[trigger] t[i] == '-' && t[i + 1]
            == '-') by {
            assert(t[i] == s[i] && t[i + 1] == s[i + 1]);
        }
        lemma_strip_dashes(t);
        let r = strip_dashes(t);
        assert(r =~= s.take(r.len() as int));
    } else {
        assert(s.take(s.len() as int) =~= s);
    }
}

/// Every slug has the shape of a slug: lower-case letters, digits and single
/// dashes, with no dash first or last.
pub proof fn law_slug_shape(input: Seq<char>)
    ensures
        is_slug(slugify_spec(input)),
{
    let scanned = slug_scan(trim_spec(input));
    lemma_scan_shape(trim_spec(input));
    lemma_strip_dashes(scanned.0);
}

proof fn lemma_slug_not_white(s: Seq<char>)
    requires
        forall|i: int| 0 <= i < s.len() ==> slug_char(#[trigger] s[i]),
    ensures
        trim_spec(s) == s,
{
    if s.len() > 0 {
        assert(!is_white(s[0]));
        assert(!is_white(s.last()));
    }
    assert(trim_start_spec(s) == s);
    assert(trim_end_spec(s) == s);
}

proof fn lemma_scan_of_slug(s: Seq<char>, n: int)
    requires
        is_slug(s),
        0 <= n <= s.len(),
    ensures
        slug_scan(s.take(n)) == (s.take(n), n > 0 && s[n - 1] == '-'),
    decreases n,
{
    if n > 0 {
        lemma_scan_of_slug(s, n - 1);
        assert(s.take(n).drop_last() =~= s.take(n - 1));
        assert(s.take(n).last() == s[n - 1]);
        let c = s[n - 1];
        if c == '-' {
            assert(n - 1 > 0);
            assert(s[n - 2] != '-');
            assert(s.take(n - 1).push('-') =~= s.take(n));
        } else {
            assert(is_ascii_alnum(c));
            assert(ascii_lower(c) == c);
            assert(s.take(n - 1).push(c) =~= s.take(n));
        }
    }
}

/// A slug is its own slug, so slugging twice gives what slugging once gives.
pub proof fn law_slugify_idempotent(input: Seq<char>)
    ensures
        slugify_spec(slugify_spec(input)) == slugify_spec(input),
{
    let s = slugify_spec(input);
    law_slug_shape(input);
    lemma_slug_not_white(s);
    lemma_scan_of_slug(s, s.len() as int);
    assert(s.take(s.len() as int) =~= s);
    if s.len() > 0 {
        assert(s.last() != '-');
    }
}

/// The ASCII letters and digits of `s`, in lower case, in order.
pub open spec fn alnum_lowered(s: Seq<char>) -> Seq<char>
    decreases s.len(),
{
    if s.len() == 0 {
        seq![]
    } else if is_ascii_alnum(s.last()) {
        alnum_lowered(s.drop_last()).push(ascii_lower(s.last()))
    } else {
        alnum_lowered(s.drop_last())
    }
}

/// `s` without its dashes.
pub open spec fn without_dashes(s: Seq<char>) -> Seq<char>
    decreases s.len(),
{
    if s.len() == 0 {
        seq![]
    } else if s.last() == '-' {
        without_dashes(s.drop_last())
    } else {
        without_dashes(s.drop_last()).push(s.last())
    }
}

proof fn lemma_without_dashes_push(s: Seq<char>, c: char)
    ensures
        without_dashes(s.push(c)) == (if c == '-' {
            without_dashes(s)
        } else {
            without_dashes(s).push(c)
        }),
{
    assert(s.push(c).drop_last() =~= s);
}

proof fn lemma_scan_keeps_alnum(s: Seq<char>)
    ensures
        without_dashes(slug_scan(s).0) == alnum_lowered(s),
    decreases s.len(),
{
    if s.len() > 0 {
        lemma_scan_keeps_alnum(s.drop_last());
        let (out, ld) = slug_scan(s.drop_last());
        let c = s.last();
        if is_ascii_alnum(c) {
            lemma_without_dashes_push(out, ascii_lower(c));
        } else if !ld && out.len() > 0 {
            lemma_without_dashes_push(out, '-');
        }
    }
}

proof fn lemma_strip_keeps_rest(s: Seq<char>)
    ensures
        without_dashes(strip_dashes(s)) == without_dashes(s),
    decreases s.len(),
{
    if s.len() > 0 && s.last() == '-' {
        lemma_strip_keeps_rest(s.drop_last());
    }
}

/// A slug keeps exactly the ASCII letters and digits of the trimmed name, in
/// lower case and in order: only dashes are added, and only between them.
pub proof fn law_slug_keeps_letters_and_digits(input: Seq<char>)
    ensures
        without_dashes(slugify_spec(input)) == alnum_lowered(trim_spec(input)),
{
    lemma_scan_keeps_alnum(trim_spec(input));
    lemma_strip_keeps_rest(slug_scan(trim_spec(input)).0);
}

// ── the new-product form ─────────────────────────────────────────────────────

/// Why the new-product form refuses to create a product.
#[derive(PartialEq, Eq, Structural, Clone, Copy, Debug)]
pub enum ProductFormError {
    NameRequired,
    SlugRequired,
}

/// The name and slug the form creates a product with: the trimmed name, and
/// the slug of the trimmed explicit slug or, when that is empty, of the name.
/// An empty name, or an empty slug, is refused.
pub fn new_product(name: &str, explicit_slug: &str) -> (res: Result<(String, String), ProductFormError>)
    ensures
        trim_spec(name@).len() == 0 <==> res == Err::<(String, String), ProductFormError>(
            ProductFormError::NameRequired,
        ),
        trim_spec(name@).len() > 0 ==> {
            let slug = slugify_spec(
                if trim_spec(explicit_slug@).len() == 0 {
                    trim_spec(name@)
                } else {
                    trim_spec(explicit_slug@)
                },
            );
            &&& slug.len() == 0 <==> res == Err::<(String, String), ProductFormError>(
                ProductFormError::SlugRequired,
            )
            &&& res matches Ok(r) ==> r.0@ == trim_spec(name@) && r.1@ == slug
        },
{
    let n = trim(name);
    let e = trim(explicit_slug);
    if char_len(n.as_str()) == 0 {
        return Err(ProductFormError::NameRequired);
    }
    let slug = if char_len(e.as_str()) == 0 {
        slugify(n.as_str())
    } else {
        slugify(e.as_str())
    };
    if char_len(slug.as_str()) == 0 {
        return Err(ProductFormError::SlugRequired);
    }
    Ok((n, slug))
}

/// The toast (title, message, kind) for a refused product.
pub fn product_form_toast(e: ProductFormError) -> (res: (&'static str, &'static str, &'static str))
    ensures
        res.2@ == "error"@,
        res.0@ == "Validation"@,
        e == ProductFormError::NameRequired ==> res.1@ == "Product name is required."@,
        e == ProductFormError::SlugRequired ==> res.1@ == "Product slug is required."@,
{
    match e {
        ProductFormError::NameRequired => ("Validation", "Product name is required.", "error"),
        ProductFormError::SlugRequired => ("Validation", "Product slug is required.", "error"),
    }
}

/// New Product pressed: the form's name and slug, emptied, and the dialog,
/// open.
pub fn open_new_product() -> (res: (String, String, bool))
    ensures
        res.0@.len() == 0,
        res.1@.len() == 0,
        res.2,
{
    (String::new(), String::new(), true)
}

/// The dialog after the service answered a create request: whether it is
/// open, whether the catalog reloads, and the toast. On success the dialog
/// closes and the catalog reloads; on failure nothing changes.
pub fn product_created_done(dialog_open: bool, reply: Result<(), String>) -> (res: (bool, bool, Toast))
    ensures
        reply is Ok ==> !res.0 && res.1 && toast_is(
            res.2,
            "Created"@,
            "Product created from catalog API."@,
            "success"@,
        ),
        reply matches Err(e) ==> res.0 == dialog_open && !res.1 && toast_is(res.2, "Create failed"@, e@, "error"@),
{
    match reply {
        Ok(()) => (false, true, toast("Created", owned("Product created from catalog API."), "success")),
        Err(e) => (dialog_open, false, toast("Create failed", e, "error")),
    }
}

// ── the catalog ──────────────────────────────────────────────────────────────

/// A product as the catalog lists it.
#[derive(Debug, PartialEq)]
pub struct ProductSummary {
    pub id: u128,
    pub name: String,
    pub slug: String,
    pub status: String,
    pub apex_domain: Option<String>,
    pub tagline: Option<String>,
    pub waitlist_count: i32,
    pub pre_order_sold: i32,
}

/// A status counts as live when, in lower case, it is `active` or `live`.
pub open spec fn live_status(status: Seq<char>) -> bool {
    lowercase_text(status) == "active"@ || lowercase_text(status) == "live"@
}

/// Whether a product's status is live.
pub fn is_live(status: &str) -> (res: bool)
    ensures
        res == live_status(status@),
{
    let s = to_lowercase(status);
    str_eq(s.as_str(), "active") || str_eq(s.as_str(), "live")
}

/// The leads of the first `n` products: waiting list plus pre-orders.
pub open spec fn leads_of(ps: Seq<ProductSummary>, n: int) -> int
    decreases n,
{
    if n <= 0 {
        0
    } else {
        leads_of(ps, n - 1) + ps[n - 1].waitlist_count + ps[n - 1].pre_order_sold
    }
}

/// The number of the first `n` products that are live.
pub open spec fn live_count(ps: Seq<ProductSummary>, n: int) -> int
    decreases n,
{
    if n <= 0 {
        0
    } else {
        live_count(ps, n - 1) + if live_status(ps[n - 1].status@) {
            1int
        } else {
            0
        }
    }
}

/// The catalog's counts: products, live products and leads (waiting list plus
/// pre-orders). The leads are summed in `i32` as the catalog does, so every
/// partial sum must fit.
pub fn catalog_kpis(products: &Vec<ProductSummary>) -> (res: (usize, usize, i32))
    requires
        forall|n: int|
            0 <= n <= products@.len() ==> i32::MIN <= #[trigger] leads_of(products@, n) <= i32::MAX,
        forall|n: int|
            0 <= n < products@.len() ==> i32::MIN <= (#[trigger] products@[n]).waitlist_count
                + products@[n].pre_order_sold <= i32::MAX,
    ensures
        res.0 == products@.len(),
        res.1 == live_count(products@, products@.len() as int),
        res.2 == leads_of(products@, products@.len() as int),
{
    let mut live: usize = 0;
    let mut leads: i32 = 0;
    let mut i: usize = 0;
    while i < products.len()
        invariant
            i <= products.len(),
            live == live_count(products@, i as int),
            live <= i,
            leads == leads_of(products@, i as int),
            forall|n: int|
                0 <= n <= products@.len() ==> i32::MIN <= #[trigger] leads_of(products@, n)
                    <= i32::MAX,
            forall|n: int|
                0 <= n < products@.len() ==> i32::MIN <= (#[trigger] products@[n]).waitlist_count
                    + products@[n].pre_order_sold <= i32::MAX,
        decreases products.len() - i,
    {
        let p = &products[i];
        if is_live(p.status.as_str()) {
            live = live + 1;
        }
        let item: i32 = p.waitlist_count + p.pre_order_sold;
        assert(leads_of(products@, i + 1) == leads + item);
        leads = leads + item;
        i = i + 1;
    }
    (products.len(), live, leads)
}

pub open spec fn accent_spec(slug: Seq<char>) -> (Seq<char>, Seq<char>, Seq<char>) {
    if slug == "folio"@ {
        ("bg-violet-500/10"@, "border-violet-500/30"@, "bg-violet-400"@)
    } else if slug == "network"@ {
        ("bg-sky-500/10"@, "border-sky-500/30"@, "bg-sky-400"@)
    } else if slug == "meridian"@ {
        ("bg-amber-500/10"@, "border-amber-500/30"@, "bg-amber-400"@)
    } else {
        ("var(--cobalt-dim)"@, "var(--border-default)"@, "var(--cobalt)"@)
    }
}

/// A product card's accent: background, border and dot.
pub fn accent_classes(slug: &str) -> (res: (&'static str, &'static str, &'static str))
    ensures
        (res.0@, res.1@, res.2@) == accent_spec(slug@),
{
    if str_eq(slug, "folio") {
        ("bg-violet-500/10", "border-violet-500/30", "bg-violet-400")
    } else if str_eq(slug, "network") {
        ("bg-sky-500/10", "border-sky-500/30", "bg-sky-400")
    } else if str_eq(slug, "meridian") {
        ("bg-amber-500/10", "border-amber-500/30", "bg-amber-400")
    } else {
        ("var(--cobalt-dim)", "var(--border-default)", "var(--cobalt)")
    }
}

/// The domain a product card shows: its apex domain, else the product's
/// default landing address.
pub fn card_domain(apex_domain: Option<String>, slug: &str) -> (res: String)
    ensures
        res@ == match apex_domain {
            Some(d) => d@,
            None => slug@ + ".rentals/landing"@,
        },
{
    match apex_domain {
        Some(d) => d,
        None => concat2(slug, ".rentals/landing"),
    }
}

/// The description a product card shows: its tagline, else a stock sentence
/// with its name.
pub fn card_description(tagline: Option<String>, name: &str) -> (res: String)
    ensures
        res@ == match tagline {
            Some(t) => t@,
            None => "Enterprise-grade service engine for "@ + name@ + "."@,
        },
{
    match tagline {
        Some(t) => t,
        None => concat3("Enterprise-grade service engine for ", name, "."),
    }
}

/// The address of a product's page.
pub fn product_href(id: u128) -> (res: String)
    ensures
        res@ == "/products/"@ + uuid_text_spec(id),
{
    let t = uuid_text(id);
    concat2("/products/", t.as_str())
}

/// The badge of a live or draft product.
pub fn live_badge(live: bool) -> (res: &'static str)
    ensures
        res@ == (if live {
            "● Live"@
        } else {
            "○ Draft"@
        }),
{
    if live {
        "● Live"
    } else {
        "○ Draft"
    }
}

/// Whether a card shows "no activity yet" in place of its counts.
pub fn no_activity(waitlist_count: i32, pre_order_sold: i32) -> (res: bool)
    ensures
        res == (waitlist_count == 0 && pre_order_sold == 0),
{
    waitlist_count == 0 && pre_order_sold == 0
}

// ── laws of the catalog's counts ─────────────────────────────────────────────

/// The leads of a prefix of the catalog are unchanged by what follows it.
proof fn lemma_leads_prefix(ps: Seq<ProductSummary>, p: ProductSummary, n: int)
    requires
        0 <= n <= ps.len(),
    ensures
        leads_of(ps.push(p), n) == leads_of(ps, n),
        live_count(ps.push(p), n) == live_count(ps, n),
    decreases n,
{
    if n > 0 {
        lemma_leads_prefix(ps, p, n - 1);
    }
}

/// An empty catalog has no leads and no live product; each product adds
/// exactly its waiting list plus its pre-orders to the leads, whatever either
/// is, and one live product exactly when its lower-cased status is "active" or
/// "live". So adding a product to the end of the catalog adds just that.
pub proof fn law_catalog_counts(ps: Seq<ProductSummary>, p: ProductSummary)
    ensures
        leads_of(Seq::<ProductSummary>::empty(), 0) == 0,
        live_count(Seq::<ProductSummary>::empty(), 0) == 0,
        leads_of(ps.push(p), ps.len() + 1int) == leads_of(ps, ps.len() as int) + p.waitlist_count
            + p.pre_order_sold,
        live_count(ps.push(p), ps.len() + 1int) == live_count(ps, ps.len() as int) + if lowercase_text(
            p.status@,
        ) == "active"@ || lowercase_text(p.status@) == "live"@ {
            1int
        } else {
            0int
        },
        forall|n: int|
            0 <= n < ps.len() ==> #[trigger] leads_of(ps, n + 1) == leads_of(ps, n) + ps[n].waitlist_count
                + ps[n].pre_order_sold,
{
    lemma_leads_prefix(ps, p, ps.len() as int);
    assert(ps.push(p)[ps.len() as int] == p);
}

} // verus!

//! Ambassadors: the new-ambassador form, the selected ambassador, card
//! requests and the list of fulfillment requests.
use vstd::prelude::*;
use crate::text::{trim, trim_spec, char_len, owned, concat2, concat3, append, decimal, decimal_spec};
use crate::json::{Json, JsonV, field, as_text, as_int, as_items};
use crate::notice::{Toast, toast, toast_is};

verus! {

/// What the form sends to create an ambassador.
#[derive(Debug, PartialEq)]
pub struct CreateAmbassadorInput {
    pub code: String,
    pub display_name: String,
    pub partner_type: String,
    pub notes: Option<String>,
    pub campaign_ids: Vec<u128>,
}

/// Why the form refuses to create an ambassador.
#[derive(PartialEq, Eq, Structural, Clone, Copy, Debug)]
pub enum AmbassadorFormError {
    MissingFields,
}

/// The ambassador the form creates: the trimmed code and display name and the
/// partner type, with no notes and no campaigns; a blank code or name is
/// refused.
pub fn ambassador_input(code: &str, display_name: &str, partner_type: String) -> (res: Result<
    CreateAmbassadorInput,
    AmbassadorFormError,
>)
    ensures
        (trim_spec(code@).len() == 0 || trim_spec(display_name@).len() == 0) <==> res is Err,
        res matches Ok(i) ==> {
            &&& i.code@ == trim_spec(code@)
            &&& i.display_name@ == trim_spec(display_name@)
            &&& i.partner_type@ == partner_type@
            &&& i.notes is None
            &&& i.campaign_ids@.len() == 0
        },
{
    let c = trim(code);
    let n = trim(display_name);
    if char_len(c.as_str()) == 0 || char_len(n.as_str()) == 0 {
        return Err(AmbassadorFormError::MissingFields);
    }
    Ok(
        CreateAmbassadorInput {
            code: c,
            display_name: n,
            partner_type,
            notes: None,
            campaign_ids: Vec::new(),
        },
    )
}

/// The notice after an ambassador was created.
pub fn created_notice(code: &str) -> (res: String)
    ensures
        res@ == code@ + " attached to F&F campaigns"@,
{
    concat2(code, " attached to F&F campaigns")
}

/// What the ambassadors page keeps while the operator creates one: whether
/// the form is open, its code, display name and partner type, whether a
/// create request is running, and the selected ambassador.
#[derive(Debug, PartialEq)]
pub struct AmbassadorsPage {
    pub show_create: bool,
    pub code: String,
    pub display_name: String,
    pub partner_type: String,
    pub creating: bool,
    pub selected_id: Option<u128>,
}

/// The page with only its busy flag changed.
pub open spec fn with_creating(p: AmbassadorsPage, creating: bool) -> AmbassadorsPage {
    AmbassadorsPage { creating, ..p }
}

/// Create pressed: with a blank code or name the page stays as it was and a
/// toast says why; otherwise the create request of `ambassador_input` is sent
/// and the page is busy until it is answered.
pub fn create_click(page: AmbassadorsPage) -> (res: (AmbassadorsPage, Result<CreateAmbassadorInput, Toast>))
    ensures
        (trim_spec(page.code@).len() == 0 || trim_spec(page.display_name@).len() == 0) ==> {
            &&& res.0 == page
            &&& res.1 matches Err(t) && toast_is(
                t,
                "Missing fields"@,
                "Code and display name are required."@,
                "error"@,
            )
        },
        !(trim_spec(page.code@).len() == 0 || trim_spec(page.display_name@).len() == 0) ==> {
            &&& res.0 == with_creating(page, true)
            &&& res.1 matches Ok(i) && i.code@ == trim_spec(page.code@) && i.display_name@
                == trim_spec(page.display_name@) && i.partner_type@ == page.partner_type@
                && i.notes is None && i.campaign_ids@.len() == 0
        },
{
    let input = ambassador_input(page.code.as_str(), page.display_name.as_str(), owned(page.partner_type.as_str()));
    match input {
        Ok(i) => (AmbassadorsPage { creating: true, ..page }, Ok(i)),
        Err(_) => (
            page,
            Err(toast("Missing fields", owned("Code and display name are required."), "error")),
        ),
    }
}

/// The page after the service answered a create request (the new
/// ambassador's id and code, or why it failed): the page, the toast, and
/// whether the list is reloaded. On success the new ambassador is selected,
/// the form closes and its code and name are cleared; the busy flag is
/// cleared either way.
pub fn create_done(page: AmbassadorsPage, reply: Result<(u128, String), String>) -> (res: (
    AmbassadorsPage,
    Toast,
    bool,
))
    ensures
        reply matches Ok(m) ==> {
            &&& res.0.selected_id == Some(m.0)
            &&& !res.0.show_create
            &&& res.0.code@.len() == 0
            &&& res.0.display_name@.len() == 0
            &&& res.0.partner_type == page.partner_type
            &&& !res.0.creating
            &&& toast_is(res.1, "Ambassador created"@, m.1@ + " attached to F&F campaigns"@, "success"@)
            &&& res.2
        },
        reply matches Err(e) ==> {
            &&& res.0 == with_creating(page, false)
            &&& toast_is(res.1, "Create failed"@, e@, "error"@)
            &&& !res.2
        },
{
    match reply {
        Ok((id, code)) => {
            let t = toast("Ambassador created", created_notice(code.as_str()), "success");
            (
                AmbassadorsPage {
                    show_create: false,
                    code: String::new(),
                    display_name: String::new(),
                    partner_type: page.partner_type,
                    creating: false,
                    selected_id: Some(id),
                },
                t,
                true,
            )
        },
        Err(e) => (AmbassadorsPage { creating: false, ..page }, toast("Create failed", e, "error"), false),
    }
}

/// The position of the selected ambassador in the list, if it is there.
pub fn selected_ambassador(ids: &Vec<u128>, selected: Option<u128>) -> (res: Option<usize>)
    ensures
        match selected {
            None => res is None,
            Some(sid) => match res {
                Some(k) => k < ids@.len() && ids@[k as int] == sid && forall|j: int|
                    0 <= j < k ==> ids@[j] != sid,
                None => forall|j: int| 0 <= j < ids@.len() ==> ids@[j] != sid,
            },
        },
{
    let sid = match selected {
        Some(s) => s,
        None => {
            return None;
        },
    };
    let mut k: usize = 0;
    while k < ids.len()
        invariant
            k <= ids.len(),
            selected == Some(sid),
            forall|j: int| 0 <= j < k ==> ids@[j] != sid,
        decreases ids.len() - k,
    {
        if ids[k] == sid {
            return Some(k);
        }
        k = k + 1;
    }
    None
}

/// The line under an ambassador's name.
pub fn ambassador_line(partner_type: &str, status: &str) -> (res: String)
    ensures
        res@ == partner_type@ + " · "@ + status@,
{
    concat3(partner_type, " · ", status)
}

/// A request for printed cards: business cards, 25 for landlords and 25 for
/// vendors.
#[derive(Debug, PartialEq)]
pub struct FulfillmentInput {
    pub kind: String,
    pub landlord_qty: i32,
    pub vendor_qty: i32,
}

/// The card request the page sends.
pub fn card_request() -> (res: FulfillmentInput)
    ensures
        res.kind@ == "business_cards"@,
        res.landlord_qty == 25,
        res.vendor_qty == 25,
{
    FulfillmentInput { kind: owned("business_cards"), landlord_qty: 25, vendor_qty: 25 }
}

/// The ambassador card after the service answered a card request: the
/// ambassador shown (the updated one on success, the same one on failure),
/// the busy flag (cleared), whether the page is told of the change (on
/// success only) and the toast.
pub fn card_request_done<A>(current: A, reply: Result<A, String>) -> (res: (A, bool, bool, Toast))
    ensures
        !res.1,
        reply matches Ok(u) ==> res.0 == u && res.2 && toast_is(
            res.3,
            "Cards requested"@,
            "25 landlord + 25 vendor (stub)"@,
            "success"@,
        ),
        reply matches Err(e) ==> res.0 == current && !res.2 && toast_is(res.3, "Request failed"@, e@, "error"@),
{
    match reply {
        Ok(updated) => (
            updated,
            false,
            true,
            toast("Cards requested", owned("25 landlord + 25 vendor (stub)"), "success"),
        ),
        Err(e) => (current, false, false, toast("Request failed", e, "error")),
    }
}

// ── fulfillment requests ─────────────────────────────────────────────────────

/// One fulfillment request as the page lists it.
#[derive(Debug, PartialEq)]
pub struct FulfillmentRow {
    pub kind: String,
    pub status: String,
    pub landlord_qty: i64,
    pub vendor_qty: i64,
    pub requested_at: String,
}

/// A text member, or `default` when it is missing or not a string.
pub open spec fn text_or(j: JsonV, key: Seq<char>, default: Seq<char>) -> Seq<char> {
    match as_text(field(j, key)) {
        Some(s) => s,
        None => default,
    }
}

/// An integer member, or zero when it is missing or not an `i64`.
pub open spec fn int_or_zero(j: JsonV, key: Seq<char>) -> int {
    match as_int(field(j, key)) {
        Some(i) => i,
        None => 0,
    }
}

/// What a row shows of a request: kind and status (dashes when missing), the
/// two quantities (zero when missing) and when it was requested (empty when
/// missing).
pub open spec fn row_matches(r: FulfillmentRow, j: JsonV) -> bool {
    &&& r.kind@ == text_or(j, "kind"@, "—"@)
    &&& r.status@ == text_or(j, "status"@, "—"@)
    &&& r.landlord_qty == int_or_zero(j, "landlord_qty"@)
    &&& r.vendor_qty == int_or_zero(j, "vendor_qty"@)
    &&& r.requested_at@ == text_or(j, "requested_at"@, Seq::empty())
}

fn text_member(j: &Json, key: &str, default: &str) -> (res: String)
    ensures
        res@ == text_or(j@, key@, default@),
{
    match j.get(key) {
        Some(v) => match v.as_str() {
            Some(s) => owned(s),
            None => owned(default),
        },
        None => owned(default),
    }
}

fn int_member(j: &Json, key: &str) -> (res: i64)
    ensures
        res == int_or_zero(j@, key@),
{
    match j.get(key) {
        Some(v) => match v.as_i64() {
            Some(i) => i,
            None => 0,
        },
        None => 0,
    }
}

/// The rows of an ambassador's fulfillment requests: one per element when
/// they are an array, none otherwise.
pub fn fulfillment_rows(requests: &Json) -> (res: Vec<FulfillmentRow>)
    ensures
        match as_items(Some(requests@)) {
            Some(items) => res@.len() == items.len() && forall|k: int|
                0 <= k < items.len() ==> row_matches(#[trigger] res@[k], items[k]),
            None => res@.len() == 0,
        },
{
    let mut rows: Vec<FulfillmentRow> = Vec::new();
    match requests.as_array() {
        Some(items) => {
            let mut k: usize = 0;
            while k < items.len()
                invariant
                    k <= items.len(),
                    as_items(Some(requests@)) == Some(crate::json::views(items@)),
                    rows@.len() == k,
                    forall|j: int| 0 <= j < k ==> row_matches(#[trigger] rows@[j], items@[j]@),
                decreases items.len() - k,
            {
                let r = &items[k];
                let row = FulfillmentRow {
                    kind: text_member(r, "kind", "—"),
                    status: text_member(r, "status", "—"),
                    landlord_qty: int_member(r, "landlord_qty"),
                    vendor_qty: int_member(r, "vendor_qty"),
                    requested_at: text_member(r, "requested_at", ""),
                };
                proof {
                    reveal_strlit("");
                }
                assert(r@ == items@[k as int]@);
                assert(row.kind@ == text_or(r@, "kind"@, "—"@));
                assert(row.status@ == text_or(r@, "status"@, "—"@));
                assert(row.landlord_qty == int_or_zero(r@, "landlord_qty"@));
                assert(row.requested_at@ == text_or(r@, "requested_at"@, Seq::empty()));
                assert(row_matches(row, items@[k as int]@));
                let ghost before = rows@;
                rows.push(row);
                assert forall|j: int| 0 <= j < k + 1 implies row_matches(#[trigger] rows@[j], items@[j]@) by {
                    if j < k {
                        assert(rows@[j] == before[j]);
                    }
                }
                k = k + 1;
            }
            rows
        },
        None => rows,
    }
}

/// The line of a request: its quantities and status.
pub fn fulfillment_line(landlord_qty: i64, vendor_qty: i64, status: &str) -> (res: String)
    ensures
        res@ == " · "@ + decimal_spec(landlord_qty as int) + " landlord / "@ + decimal_spec(
            vendor_qty as int,
        ) + " vendor · "@ + status@,
{
    let ll = decimal(landlord_qty);
    let vv = decimal(vendor_qty);
    let mut s = concat3(" · ", ll.as_str(), " landlord / ");
    append(&mut s, vv.as_str());
    append(&mut s, " vendor · ");
    append(&mut s, status);
    s
}

} // verus!

//! The network registry and the directory pages: instance counts and
//! statuses, domain routing, categories, templates, listings, A/B tests,
//! new listings and network types, and syndication grants.
use vstd::prelude::*;
use crate::text::{
    str_eq, owned, concat2, concat3, char_len, take_chars, take_spec, opt_view,
};
use crate::ids::{uuid_text, uuid_text_spec};
use crate::json::{Json, JsonV, object_of};
use crate::select::{positions_where, law_positions_exact};
use crate::notice::{Toast, toast, toast_is};

verus! {

// ── the registry ─────────────────────────────────────────────────────────────

pub open spec fn status_is(s: Seq<String>, status: Seq<char>) -> spec_fn(int) -> bool {
    |i: int| s[i]@ == status
}

/// The registry's counts: instances, active ones and those being provisioned.
pub fn registry_counts(statuses: &Vec<String>) -> (res: (usize, usize, usize))
    ensures
        res.0 == statuses@.len(),
        res.1 == positions_where(statuses@.len(), status_is(statuses@, "active"@)).len(),
        res.2 == positions_where(statuses@.len(), status_is(statuses@, "provisioning"@)).len(),
{
    let ghost pa = status_is(statuses@, "active"@);
    let ghost pp = status_is(statuses@, "provisioning"@);
    let mut active: usize = 0;
    let mut provisioning: usize = 0;
    let mut i: usize = 0;
    while i < statuses.len()
        invariant
            i <= statuses.len(),
            pa == status_is(statuses@, "active"@),
            pp == status_is(statuses@, "provisioning"@),
            active == positions_where(i as nat, pa).len(),
            provisioning == positions_where(i as nat, pp).len(),
        decreases statuses.len() - i,
    {
        proof {
            law_positions_exact(i as nat, pa);
            law_positions_exact(i as nat, pp);
        }
        if str_eq(statuses[i].as_str(), "active") {
            active = active + 1;
        }
        if str_eq(statuses[i].as_str(), "provisioning") {
            provisioning = provisioning + 1;
        }
        i = i + 1;
    }
    (statuses.len(), active, provisioning)
}

pub open spec fn instance_status_colors_spec(status: Seq<char>) -> (Seq<char>, Seq<char>) {
    if status == "active"@ {
        ("var(--green)"@, "var(--green-dim)"@)
    } else if status == "provisioning"@ {
        ("var(--cobalt)"@, "var(--cobalt-dim)"@)
    } else if status == "beta"@ {
        ("var(--amber)"@, "var(--amber-dim)"@)
    } else if status == "suspended"@ {
        ("var(--red)"@, "var(--red-dim)"@)
    } else {
        ("var(--text-muted)"@, "var(--bg-elevated)"@)
    }
}

/// The text and background colors of an instance's status.
pub fn instance_status_colors(status: &str) -> (res: (&'static str, &'static str))
    ensures
        (res.0@, res.1@) == instance_status_colors_spec(status@),
{
    if str_eq(status, "active") {
        ("var(--green)", "var(--green-dim)")
    } else if str_eq(status, "provisioning") {
        ("var(--cobalt)", "var(--cobalt-dim)")
    } else if str_eq(status, "beta") {
        ("var(--amber)", "var(--amber-dim)")
    } else if str_eq(status, "suspended") {
        ("var(--red)", "var(--red-dim)")
    } else {
        ("var(--text-muted)", "var(--bg-elevated)")
    }
}

// ── domain routing ───────────────────────────────────────────────────────────

/// The domain the settings panel binds: the text as typed, none when empty.
pub fn route_to_bind(text: String) -> (res: Option<String>)
    ensures
        text@.len() == 0 ==> res is None,
        text@.len() > 0 ==> opt_view(res) == Some(text@),
{
    if char_len(text.as_str()) == 0 {
        None
    } else {
        Some(text)
    }
}

/// A change to an instance's domain routing.
#[derive(PartialEq, Eq, Structural, Clone, Copy, Debug)]
pub enum RouteChange {
    Bound,
    Detached,
}

/// The settings panel's notice after a routing change succeeded or failed.
pub fn routing_notice(change: RouteChange, succeeded: bool) -> (res: &'static str)
    ensures
        change == RouteChange::Bound && succeeded ==> res@ == "Domain routing natively mapped."@,
        change == RouteChange::Bound && !succeeded ==> res@
            == "Failed to route domain. It may already be in use."@,
        change == RouteChange::Detached && succeeded ==> res@ == "Domain safely detached."@,
        change == RouteChange::Detached && !succeeded ==> res@ == "Failed to detach domain."@,
{
    match change {
        RouteChange::Bound => if succeeded {
            "Domain routing natively mapped."
        } else {
            "Failed to route domain. It may already be in use."
        },
        RouteChange::Detached => if succeeded {
            "Domain safely detached."
        } else {
            "Failed to detach domain."
        },
    }
}

// ── categories and templates ─────────────────────────────────────────────────

/// The network the category list starts filtered by: the active network's id,
/// or none.
pub fn initial_network_filter(active_network: Option<u128>) -> (res: String)
    ensures
        res@ == match active_network {
            Some(id) => uuid_text_spec(id),
            None => Seq::<char>::empty(),
        },
{
    match active_network {
        Some(id) => uuid_text(id),
        None => String::new(),
    }
}

/// The network filter the category request carries (none when empty).
pub fn category_filter(selected: String) -> (res: Option<String>)
    ensures
        selected@.len() == 0 ==> res is None,
        selected@.len() > 0 ==> opt_view(res) == Some(selected@),
{
    if char_len(selected.as_str()) == 0 {
        None
    } else {
        Some(selected)
    }
}

/// A category's row: its page, icon (a stock one when it has none), status
/// style and label, and slug (empty when it has none).
pub fn category_row(id: &str, icon: Option<String>, is_active: bool, slug: Option<String>) -> (res: (
    String,
    String,
    &'static str,
    &'static str,
    String,
))
    ensures
        res.0@ == "/network/categories/"@ + id@,
        res.1@ == match icon {
            Some(i) => i@,
            None => "category"@,
        },
        res.2@ == (if is_active {
            "text-primary bg-primary/10"@
        } else {
            "text-muted-foreground bg-muted"@
        }),
        res.3@ == (if is_active {
            "Active"@
        } else {
            "Inactive"@
        }),
        res.4@ == match slug {
            Some(s) => s@,
            None => Seq::<char>::empty(),
        },
{
    let url = concat2("/network/categories/", id);
    let icon = match icon {
        Some(i) => i,
        None => owned("category"),
    };
    let (class, label) = if is_active {
        ("text-primary bg-primary/10", "Active")
    } else {
        ("text-muted-foreground bg-muted", "Inactive")
    };
    let slug = match slug {
        Some(s) => s,
        None => String::new(),
    };
    (url, icon, class, label, slug)
}

/// A template's row: its page and its status color, background and label.
pub fn template_row(id: &str, is_active: bool) -> (res: (String, &'static str, &'static str, &'static str))
    ensures
        res.0@ == "/network/templates/"@ + id@,
        is_active ==> res.1@ == "var(--green)"@ && res.2@ == "var(--green-dim)"@ && res.3@
            == "Active"@,
        !is_active ==> res.1@ == "var(--text-muted)"@ && res.2@ == "var(--bg-surface)"@ && res.3@
            == "Inactive"@,
{
    let url = concat2("/network/templates/", id);
    if is_active {
        (url, "var(--green)", "var(--green-dim)", "Active")
    } else {
        (url, "var(--text-muted)", "var(--bg-surface)", "Inactive")
    }
}

// ── listings ─────────────────────────────────────────────────────────────────

/// Where a listing stands.
#[derive(PartialEq, Eq, Structural, Clone, Copy, Debug)]
pub enum ListingStatus {
    Active,
    Pending,
    Approved,
    Rejected,
}

/// A listing status's label and style.
pub fn listing_status_style(status: ListingStatus) -> (res: (&'static str, &'static str))
    ensures
        status == ListingStatus::Active ==> res.0@ == "Active"@ && res.1@
            == "text-primary bg-primary/10"@,
        status == ListingStatus::Pending ==> res.0@ == "Pending"@ && res.1@
            == "text-amber-600 bg-amber-600/10"@,
        status == ListingStatus::Approved ==> res.0@ == "Approved"@ && res.1@
            == "text-green-600 bg-green-600/10"@,
        status == ListingStatus::Rejected ==> res.0@ == "Rejected"@ && res.1@
            == "text-red-500 bg-red-500/10"@,
{
    match status {
        ListingStatus::Active => ("Active", "text-primary bg-primary/10"),
        ListingStatus::Pending => ("Pending", "text-amber-600 bg-amber-600/10"),
        ListingStatus::Approved => ("Approved", "text-green-600 bg-green-600/10"),
        ListingStatus::Rejected => ("Rejected", "text-red-500 bg-red-500/10"),
    }
}

/// A listing's page.
pub fn listing_href(id: &str) -> (res: String)
    ensures
        res@ == "/network/listings/"@ + id@,
{
    concat2("/network/listings/", id)
}

// ── A/B tests of a listing ───────────────────────────────────────────────────

/// The short form of a test's id: its first eight characters.
pub fn short_test_id(id: u128) -> (res: String)
    ensures
        res@ == take_spec(uuid_text_spec(id), 8),
{
    let t = uuid_text(id);
    take_chars(t.as_str(), 8)
}

/// The sum of the first `n` values.
pub open spec fn sum_i32(v: Seq<i32>, n: int) -> int
    decreases n,
{
    if n <= 0 {
        0
    } else {
        sum_i32(v, n - 1) + v[n - 1]
    }
}

/// A test's total over its variants (views or conversions), summed in `i32` as
/// the page does, so every partial sum must fit.
pub fn variant_total(values: &Vec<i32>) -> (res: i32)
    requires
        forall|n: int| 0 <= n <= values@.len() ==> i32::MIN <= #[trigger] sum_i32(values@, n) <= i32::MAX,
    ensures
        res == sum_i32(values@, values@.len() as int),
{
    let mut total: i32 = 0;
    let mut i: usize = 0;
    while i < values.len()
        invariant
            i <= values.len(),
            total == sum_i32(values@, i as int),
            forall|n: int|
                0 <= n <= values@.len() ==> i32::MIN <= #[trigger] sum_i32(values@, n) <= i32::MAX,
        decreases values.len() - i,
    {
        assert(sum_i32(values@, i + 1) == total + values@[i as int]);
        total = total + values[i];
        i = i + 1;
    }
    total
}

pub open spec fn test_status_class_spec(status: Seq<char>) -> Seq<char> {
    if status == "Active"@ {
        "bg-green-500/10 text-green-600"@
    } else if status == "Ended"@ || status == "Completed"@ {
        "bg-muted text-muted-foreground"@
    } else {
        "bg-primary/10 text-primary"@
    }
}

/// A test's status style; only an `Active` test can be ended.
pub fn test_status(status: &str) -> (res: (&'static str, bool))
    ensures
        res.0@ == test_status_class_spec(status@),
        res.1 == (status@ == "Active"@),
{
    if str_eq(status, "Active") {
        ("bg-green-500/10 text-green-600", true)
    } else if str_eq(status, "Ended") || str_eq(status, "Completed") {
        ("bg-muted text-muted-foreground", false)
    } else {
        ("bg-primary/10 text-primary", false)
    }
}

/// The badge of a test variant.
pub fn variant_role(is_control: bool) -> (res: &'static str)
    ensures
        res@ == (if is_control {
            "Control"@
        } else {
            "Variant"@
        }),
{
    if is_control {
        "Control"
    } else {
        "Variant"
    }
}

// ── new listings ─────────────────────────────────────────────────────────────

/// What the form sends to create a listing.
#[derive(Debug, PartialEq)]
pub struct ListingCreate {
    pub title: String,
    pub description: String,
    pub network_id: String,
    pub profile_id: String,
    pub listing_type: Option<String>,
    pub is_featured: Option<bool>,
    pub is_based_on_template: Option<bool>,
    pub is_ad_placement: Option<bool>,
    pub is_active: Option<bool>,
}

/// The listing the form creates: the typed fields, the signed-in user as its
/// profile (empty when nobody is signed in), an active, non-featured listing
/// with no template and no ad placement. The other fields of the request are
/// left empty.
pub fn listing_payload(
    title: String,
    description: String,
    listing_type: String,
    network_id: String,
    user_id: Option<String>,
) -> (res: ListingCreate)
    ensures
        res.title@ == title@,
        res.description@ == description@,
        res.network_id@ == network_id@,
        res.profile_id@ == match user_id {
            Some(u) => u@,
            None => Seq::<char>::empty(),
        },
        opt_view(res.listing_type) == Some(listing_type@),
        res.is_featured == Some(false),
        res.is_based_on_template == Some(false),
        res.is_ad_placement == Some(false),
        res.is_active == Some(true),
{
    let profile_id = match user_id {
        Some(u) => u,
        None => String::new(),
    };
    ListingCreate {
        title,
        description,
        network_id,
        profile_id,
        listing_type: Some(listing_type),
        is_featured: Some(false),
        is_based_on_template: Some(false),
        is_ad_placement: Some(false),
        is_active: Some(true),
    }
}

/// The notice when a listing could not be created.
pub fn listing_failure(error: &str) -> (res: String)
    ensures
        res@ == "Failed to create: "@ + error@,
{
    concat2("Failed to create: ", error)
}

// ── network types ────────────────────────────────────────────────────────────

/// Why a network type is not created.
#[derive(PartialEq, Eq, Structural, Clone, Copy, Debug)]
pub enum NetworkTypeError {
    NameRequired,
}

/// The request body that creates a network type (`{"name": .., "description":
/// ..}`); an empty name is refused.
pub fn network_type_body(name: String, description: String) -> (res: Result<Json, NetworkTypeError>)
    ensures
        name@.len() == 0 <==> res is Err,
        res matches Err(e) ==> e == NetworkTypeError::NameRequired,
        res matches Ok(j) ==> j@ == JsonV::Object(
            seq![("name"@, JsonV::Str(name@)), ("description"@, JsonV::Str(description@))],
        ),
{
    if char_len(name.as_str()) == 0 {
        return Err(NetworkTypeError::NameRequired);
    }
    let mut members: Vec<(String, Json)> = Vec::new();
    members.push((owned("name"), Json::Str(name)));
    members.push((owned("description"), Json::Str(description)));
    let j = object_of(members);
    assert(j@->Object_0 =~= seq![("name"@, JsonV::Str(name@)), ("description"@, JsonV::Str(description@))]);
    Ok(j)
}

/// The toast (title, message, kind) for a network type that is not created.
pub fn network_type_error_toast(e: NetworkTypeError) -> (res: (&'static str, &'static str, &'static str))
    ensures
        res.2@ == "error"@,
        e == NetworkTypeError::NameRequired ==> res.0@ == "Error"@ && res.1@ == "Name is required."@,
{
    match e {
        NetworkTypeError::NameRequired => ("Error", "Name is required.", "error"),
    }
}

/// The message shown when the service refuses a network type: its message, or
/// `Failed`.
pub fn network_type_refusal(message: Option<String>) -> (res: String)
    ensures
        res@ == match message {
            Some(m) => m@,
            None => "Failed"@,
        },
{
    match message {
        Some(m) => m,
        None => owned("Failed"),
    }
}

// ── syndication ──────────────────────────────────────────────────────────────

/// The instance a grant goes to: none when nothing is selected.
pub fn grant_target(selected: String) -> (res: Option<String>)
    ensures
        selected@.len() == 0 ==> res is None,
        selected@.len() > 0 ==> opt_view(res) == Some(selected@),
{
    if char_len(selected.as_str()) == 0 {
        None
    } else {
        Some(selected)
    }
}

/// The notice after a grant: granted, or why it failed.
pub fn grant_notice(instance: &str, error: Option<&str>) -> (res: String)
    ensures
        res@ == match error {
            None => "Syndication access granted to "@ + instance@ + "."@,
            Some(e) => "Failed to grant syndication: "@ + e@,
        },
{
    match error {
        None => concat3("Syndication access granted to ", instance, "."),
        Some(e) => concat2("Failed to grant syndication: ", e),
    }
}

/// The notice after a revocation: revoked, or why it failed.
pub fn revoke_notice(target: &str, error: Option<&str>) -> (res: String)
    ensures
        res@ == match error {
            None => "Access for "@ + target@ + " has been revoked."@,
            Some(e) => "Failed to revoke syndication: "@ + e@,
        },
{
    match error {
        None => concat3("Access for ", target, " has been revoked."),
        Some(e) => concat2("Failed to revoke syndication: ", e),
    }
}

/// Grant pressed in the grant dialog with `selected` chosen: the instance the
/// grant is sent to, and whether the dialog is open afterwards. With nothing
/// chosen nothing is sent and the dialog stays as it was; otherwise it closes
/// before the request goes out.
pub fn grant_step(selected: String, dialog_open: bool) -> (res: (Option<String>, bool))
    ensures
        selected@.len() == 0 ==> res.0 is None && res.1 == dialog_open,
        selected@.len() > 0 ==> opt_view(res.0) == Some(selected@) && !res.1,
{
    match grant_target(selected) {
        Some(i) => (Some(i), false),
        None => (None, dialog_open),
    }
}

/// The toast after the service answered a grant to `instance`.
pub fn grant_toast(instance: &str, reply: Result<(), String>) -> (res: Toast)
    ensures
        reply is Ok ==> toast_is(
            res,
            "Syndication Granted"@,
            "Syndication access granted to "@ + instance@ + "."@,
            "success"@,
        ),
        reply matches Err(e) ==> toast_is(res, "Error"@, "Failed to grant syndication: "@ + e@, "error"@),
{
    match reply {
        Ok(()) => toast("Syndication Granted", grant_notice(instance, None), "success"),
        Err(e) => toast("Error", grant_notice(instance, Some(e.as_str())), "error"),
    }
}

/// Revoke pressed in the revoke dialog: the target the revocation is sent to,
/// and the dialog, which closes before the request goes out.
pub fn revoke_step(target: String) -> (res: (String, bool))
    ensures
        res.0@ == target@,
        !res.1,
{
    (target, false)
}

/// The toast after the service answered a revocation of `target`.
pub fn revoke_toast(target: &str, reply: Result<(), String>) -> (res: Toast)
    ensures
        reply is Ok ==> toast_is(
            res,
            "Syndication Revoked"@,
            "Access for "@ + target@ + " has been revoked."@,
            "info"@,
        ),
        reply matches Err(e) ==> toast_is(res, "Error"@, "Failed to revoke syndication: "@ + e@, "error"@),
{
    match reply {
        Ok(()) => toast("Syndication Revoked", revoke_notice(target, None), "info"),
        Err(e) => toast("Error", revoke_notice(target, Some(e.as_str())), "error"),
    }
}

/// The registry's counts, instance by instance: the instance at position `n`
/// adds one to the active count exactly when its status is "active", and one
/// to the provisioning count exactly when it is "provisioning".
pub proof fn law_registry_count(statuses: Seq<String>, n: int)
    requires
        0 <= n < statuses.len(),
    ensures
        positions_where((n + 1) as nat, status_is(statuses, "active"@)).len() == positions_where(
            n as nat,
            status_is(statuses, "active"@),
        ).len() + if statuses[n]@ == "active"@ {
            1int
        } else {
            0int
        },
        positions_where((n + 1) as nat, status_is(statuses, "provisioning"@)).len() == positions_where(
            n as nat,
            status_is(statuses, "provisioning"@),
        ).len() + if statuses[n]@ == "provisioning"@ {
            1int
        } else {
            0int
        },
{
}

} // verus!

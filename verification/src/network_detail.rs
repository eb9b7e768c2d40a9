//! A network instance's page: loading its public configuration, suspending
//! and resuming it, its domains, settings and branding, telemetry totals and
//! connecting tenants.
use vstd::prelude::*;
use crate::text::{
    trim, trim_spec, char_len, chars_of, str_eq, owned, concat2, concat3, to_uppercase,
    uppercase_text, to_lowercase, lowercase_text, contains, occurs_in,
};
use crate::ids::{uuid_parse, uuid_parsed};
use crate::select::{positions_where, law_positions_exact};
use crate::notice::{Toast, toast, toast_is, error_toast};

verus! {

/// Whether an instance status means the network is suspended.
pub open spec fn suspended_status(status: Seq<char>) -> bool {
    status == "suspended"@ || status == "Suspended"@
}

/// The page's fields after the public configuration loads: the slug (kept if
/// already typed, else the public slug or the application slug), the name
/// (kept if already typed, else the application slug), and whether the
/// network is suspended.
pub fn apply_public_config(
    slug: &str,
    name: &str,
    public_slug: Option<&str>,
    app_slug: &str,
    instance_status: &str,
) -> (res: (String, String, bool))
    ensures
        res.0@ == (if slug@.len() == 0 {
            match public_slug {
                Some(p) => p@,
                None => app_slug@,
            }
        } else {
            slug@
        }),
        res.1@ == (if name@.len() == 0 {
            app_slug@
        } else {
            name@
        }),
        res.2 == suspended_status(instance_status@),
{
    let s = if char_len(slug) == 0 {
        match public_slug {
            Some(p) => owned(p),
            None => owned(app_slug),
        }
    } else {
        owned(slug)
    };
    let n = if char_len(name) == 0 {
        owned(app_slug)
    } else {
        owned(name)
    };
    let suspended = str_eq(instance_status, "suspended") || str_eq(instance_status, "Suspended");
    (s, n, suspended)
}

/// What the Suspend / Resume button asks of the service.
#[derive(PartialEq, Eq, Structural, Clone, Copy, Debug)]
pub enum InstanceAction {
    Resume(u128),
    Suspend(u128),
    InvalidId,
}

/// The reason a manual suspension is recorded with.
pub fn suspension_reason() -> (res: String)
    ensures
        res@ == "Manual suspension via admin panel."@,
{
    owned("Manual suspension via admin panel.")
}

/// The button's request: resume a suspended network, suspend a live one; none
/// when the route's id is no UUID.
pub fn toggle_status_action(instance_id: &str, suspended: bool) -> (res: InstanceAction)
    ensures
        res == match uuid_parsed(instance_id@) {
            Some(id) => if suspended {
                InstanceAction::Resume(id)
            } else {
                InstanceAction::Suspend(id)
            },
            None => InstanceAction::InvalidId,
        },
{
    match uuid_parse(instance_id) {
        Some(id) => if suspended {
            InstanceAction::Resume(id)
        } else {
            InstanceAction::Suspend(id)
        },
        None => InstanceAction::InvalidId,
    }
}

/// After the service resumed (or suspended) the network: whether it is now
/// suspended, the notice and its kind.
pub fn status_changed(resumed: bool) -> (res: (bool, &'static str, &'static str))
    ensures
        resumed ==> res.0 == false && res.1@ == "Network instance resumed."@ && res.2@ == "success"@,
        !resumed ==> res.0 == true && res.1@ == "Network instance suspended."@ && res.2@
            == "warning"@,
{
    if resumed {
        (false, "Network instance resumed.", "success")
    } else {
        (true, "Network instance suspended.", "warning")
    }
}

/// The toast (title, message, kind) when the route's id is no UUID.
pub fn invalid_instance_toast() -> (res: (&'static str, &'static str, &'static str))
    ensures
        res.2@ == "error"@,
        res.0@ == "Error"@,
        res.1@ == "Invalid instance ID in URL."@,
{
    ("Error", "Invalid instance ID in URL.", "error")
}

/// The page after the service answered a suspend or resume request made while
/// the network was `was_suspended`: on success the status flips and the
/// notice of `status_changed` is shown; on failure the status stays and the
/// reason is shown as an error.
pub fn toggle_done(was_suspended: bool, reply: Result<(), String>) -> (res: (bool, Toast))
    ensures
        reply is Ok ==> res.0 == !was_suspended && toast_is(
            res.1,
            "Network Status"@,
            if was_suspended { "Network instance resumed."@ } else { "Network instance suspended."@ },
            if was_suspended { "success"@ } else { "warning"@ },
        ),
        reply matches Err(e) ==> res.0 == was_suspended && toast_is(res.1, "Error"@, e@, "error"@),
{
    match reply {
        Ok(()) => {
            let (now, message, kind) = status_changed(was_suspended);
            (now, toast("Network Status", owned(message), kind))
        },
        Err(e) => (was_suspended, error_toast(e)),
    }
}

/// The domain the Add button adds: the trimmed text, none when it is blank.
pub fn domain_to_add(text: &str) -> (res: Option<String>)
    ensures
        trim_spec(text@).len() == 0 ==> res is None,
        trim_spec(text@).len() > 0 ==> (res matches Some(d) && d@ == trim_spec(text@)),
{
    let t = trim(text);
    if char_len(t.as_str()) == 0 {
        None
    } else {
        Some(t)
    }
}

/// Add Domain on the text typed in the domain field: the domain sent (the
/// trimmed text; none when it is blank) and the field afterwards, which is
/// emptied exactly when a domain is sent, whatever the service then answers.
pub fn add_domain_step(text: &str) -> (res: (Option<String>, String))
    ensures
        trim_spec(text@).len() == 0 ==> res.0 is None && res.1@ == text@,
        trim_spec(text@).len() > 0 ==> (res.0 matches Some(d) && d@ == trim_spec(text@)) && res.1@.len()
            == 0,
{
    match domain_to_add(text) {
        Some(d) => (Some(d), String::new()),
        None => (None, owned(text)),
    }
}

/// The toast after the service answered an added domain.
pub fn domain_added_toast(reply: Result<(), String>) -> (res: Toast)
    ensures
        reply is Ok ==> toast_is(
            res,
            "Domain Added"@,
            "Custom domain added. DNS propagation may take up to 24h."@,
            "success"@,
        ),
        reply matches Err(e) ==> toast_is(res, "Error"@, e@, "error"@),
{
    match reply {
        Ok(()) => toast(
            "Domain Added",
            owned("Custom domain added. DNS propagation may take up to 24h."),
            "success",
        ),
        Err(e) => error_toast(e),
    }
}

/// Why the settings are not saved.
#[derive(PartialEq, Eq, Structural, Clone, Copy, Debug)]
pub enum SettingsError {
    InvalidId,
    SlugRequired,
}

/// What Save Settings sends: the instance and its trimmed public slug; a route
/// id that is no UUID, or a blank slug, is refused.
pub fn save_overview(instance_id: &str, slug: &str) -> (res: Result<(u128, String), SettingsError>)
    ensures
        uuid_parsed(instance_id@) is None <==> res == Err::<(u128, String), SettingsError>(
            SettingsError::InvalidId,
        ),
        uuid_parsed(instance_id@) is Some ==> (trim_spec(slug@).len() == 0 <==> res == Err::<
            (u128, String),
            SettingsError,
        >(SettingsError::SlugRequired)),
        uuid_parsed(instance_id@) is Some && trim_spec(slug@).len() > 0 ==> res is Ok,
        res matches Ok(r) ==> uuid_parsed(instance_id@) == Some(r.0) && r.1@ == trim_spec(slug@),
{
    let id = match uuid_parse(instance_id) {
        Some(id) => id,
        None => {
            return Err(SettingsError::InvalidId);
        },
    };
    let s = trim(slug);
    if char_len(s.as_str()) == 0 {
        return Err(SettingsError::SlugRequired);
    }
    Ok((id, s))
}

/// The toast (title, message, kind) for settings that are not saved.
pub fn settings_error_toast(e: SettingsError) -> (res: (&'static str, &'static str, &'static str))
    ensures
        res.2@ == "error"@,
        e == SettingsError::InvalidId ==> res.0@ == "Error"@ && res.1@
            == "Invalid instance ID in URL."@,
        e == SettingsError::SlugRequired ==> res.0@ == "Validation"@ && res.1@
            == "Public slug cannot be empty."@,
{
    match e {
        SettingsError::InvalidId => invalid_instance_toast(),
        SettingsError::SlugRequired => ("Validation", "Public slug cannot be empty.", "error"),
    }
}

/// The slug shown after the service saved the settings.
pub fn saved_slug(public_slug: Option<String>, app_slug: String) -> (res: String)
    ensures
        res@ == match public_slug {
            Some(p) => p@,
            None => app_slug@,
        },
{
    match public_slug {
        Some(p) => p,
        None => app_slug,
    }
}

/// Save Settings pressed while the page's busy flag is `saving`: the request
/// of `save_overview` (or why there is none), and the busy flag while it runs,
/// set exactly when the request is sent.
pub fn save_settings_click(instance_id: &str, slug: &str, saving: bool) -> (res: (
    Result<(u128, String), SettingsError>,
    bool,
))
    ensures
        uuid_parsed(instance_id@) is None ==> res.0 == Err::<(u128, String), SettingsError>(
            SettingsError::InvalidId,
        ),
        uuid_parsed(instance_id@) is Some && trim_spec(slug@).len() == 0 ==> res.0 == Err::<
            (u128, String),
            SettingsError,
        >(SettingsError::SlugRequired),
        uuid_parsed(instance_id@) is Some && trim_spec(slug@).len() > 0 ==> res.0 is Ok,
        res.0 matches Ok(r) ==> uuid_parsed(instance_id@) == Some(r.0) && r.1@ == trim_spec(slug@),
        res.0 is Ok ==> res.1,
        res.0 is Err ==> res.1 == saving,
{
    let req = save_overview(instance_id, slug);
    let busy = match &req {
        Ok(_) => true,
        Err(_) => saving,
    };
    (req, busy)
}

/// The page after the service answered Save Settings, given the slug shown
/// and the answer (the saved public slug and the application's slug, or why it
/// failed): the slug shown, the busy flag (cleared) and the toast.
pub fn save_settings_done(slug: String, reply: Result<(Option<String>, String), String>) -> (res: (
    String,
    bool,
    Toast,
))
    ensures
        !res.1,
        reply matches Ok(cfg) ==> res.0@ == match cfg.0 {
            Some(p) => p@,
            None => cfg.1@,
        } && toast_is(res.2, "Settings Saved"@, "Public slug updated successfully."@, "success"@),
        reply matches Err(e) ==> res.0@ == slug@ && toast_is(res.2, "Save Failed"@, e@, "error"@),
{
    match reply {
        Ok((public_slug, app_slug)) => (
            saved_slug(public_slug, app_slug),
            false,
            toast("Settings Saved", owned("Public slug updated successfully."), "success"),
        ),
        Err(e) => (slug, false, toast("Save Failed", e, "error")),
    }
}

/// What Save Theme sends: the instance and its theme, color and font; none
/// when the route's id is no UUID.
pub fn save_branding(instance_id: &str, theme: String, color: String, font: String) -> (res: Option<
    (u128, String, String, String),
>)
    ensures
        uuid_parsed(instance_id@) is None <==> res is None,
        res matches Some(r) ==> uuid_parsed(instance_id@) == Some(r.0) && r.1@ == theme@ && r.2@
            == color@ && r.3@ == font@,
{
    match uuid_parse(instance_id) {
        Some(id) => Some((id, theme, color, font)),
        None => None,
    }
}

/// The busy flag of Save Theme while its request runs: set when a request is
/// sent, unchanged when the route's id is no UUID (no request, an error toast).
pub fn branding_busy(instance_id: &str, saving_branding: bool) -> (res: bool)
    ensures
        res == (uuid_parsed(instance_id@) is Some || saving_branding),
{
    match uuid_parse(instance_id) {
        Some(_) => true,
        None => saving_branding,
    }
}

/// The page after the service answered Save Theme: the busy flag (cleared)
/// and the toast.
pub fn save_branding_done(reply: Result<(), String>) -> (res: (bool, Toast))
    ensures
        !res.0,
        reply is Ok ==> toast_is(
            res.1,
            "Branding Saved"@,
            "Theme, color, and font persisted to instance config."@,
            "success"@,
        ),
        reply matches Err(e) ==> toast_is(res.1, "Save Failed"@, e@, "error"@),
{
    match reply {
        Ok(()) => (
            false,
            toast("Branding Saved", owned("Theme, color, and font persisted to instance config."), "success"),
        ),
        Err(e) => (false, toast("Save Failed", e, "error")),
    }
}

// ── the header ───────────────────────────────────────────────────────────────

/// The avatar letter: `?` without a name, else the name's first character in
/// upper case.
pub fn avatar_initial(name: &str) -> (res: String)
    ensures
        name@.len() == 0 ==> res@ == "?"@,
        name@.len() > 0 ==> res@ == uppercase_text(seq![name@[0]]),
{
    let cs = chars_of(name);
    if cs.len() == 0 {
        owned("?")
    } else {
        let mut first = String::new();
        crate::text::push_char(&mut first, cs[0]);
        assert(first@ =~= seq![name@[0]]);
        to_uppercase(first.as_str())
    }
}

/// The page title: the name, or the instance id while there is none.
pub fn instance_title(name: &str, instance_id: &str) -> (res: String)
    ensures
        res@ == (if name@.len() == 0 {
            instance_id@
        } else {
            name@
        }),
{
    if char_len(name) == 0 {
        owned(instance_id)
    } else {
        owned(name)
    }
}

/// The status badge: its style and label.
pub fn status_badge(suspended: bool) -> (res: (&'static str, &'static str))
    ensures
        suspended ==> res.0@ == "text-error bg-error/10 border-error/20"@ && res.1@ == "Suspended"@,
        !suspended ==> res.0@ == "text-emerald-400 bg-emerald-400/10 border-emerald-400/20"@ && res.1@
            == "Live"@,
{
    if suspended {
        ("text-error bg-error/10 border-error/20", "Suspended")
    } else {
        ("text-emerald-400 bg-emerald-400/10 border-emerald-400/20", "Live")
    }
}

/// The Suspend / Resume button: its style and label.
pub fn toggle_button(suspended: bool) -> (res: (&'static str, &'static str))
    ensures
        suspended ==> res.0@ == "btn-primary shadow-md active:scale-95"@ && res.1@
            == "Resume Network"@,
        !suspended ==> res.0@
            == "border border-error/40 text-error bg-error/5 hover:bg-error hover:text-white"@
            && res.1@ == "Suspend Network"@,
{
    if suspended {
        ("btn-primary shadow-md active:scale-95", "Resume Network")
    } else {
        (
            "border border-error/40 text-error bg-error/5 hover:bg-error hover:text-white",
            "Suspend Network",
        )
    }
}

/// The platform domain of an instance.
pub fn instance_domain(slug: &str) -> (res: String)
    ensures
        res@ == slug@ + ".atlas-platform.com"@,
{
    concat2(slug, ".atlas-platform.com")
}

// ── telemetry ────────────────────────────────────────────────────────────────

/// The sum of the first `n` counts.
pub open spec fn sum_of(counts: Seq<u64>, n: int) -> int
    decreases n,
{
    if n <= 0 {
        0
    } else {
        sum_of(counts, n - 1) + counts[n - 1]
    }
}

/// The total of the tenants' counts (profiles or listings); the total must fit
/// in a `u64`, as the page's own sum does.
pub fn telemetry_total(counts: &Vec<u64>) -> (res: u64)
    requires
        sum_of(counts@, counts@.len() as int) <= u64::MAX,
    ensures
        res == sum_of(counts@, counts@.len() as int),
{
    let mut total: u64 = 0;
    let mut i: usize = 0;
    while i < counts.len()
        invariant
            i <= counts.len(),
            total == sum_of(counts@, i as int),
            sum_of(counts@, counts@.len() as int) <= u64::MAX,
        decreases counts.len() - i,
    {
        proof {
            lemma_sum_of_grows(counts@, i + 1, counts@.len() as int);
        }
        total = total + counts[i];
        i = i + 1;
    }
    total
}

proof fn lemma_sum_of_grows(counts: Seq<u64>, m: int, n: int)
    requires
        0 <= m <= n <= counts.len(),
    ensures
        sum_of(counts, m) <= sum_of(counts, n),
    decreases n - m,
{
    if m < n {
        lemma_sum_of_grows(counts, m, n - 1);
    }
}

// ── connecting tenants ───────────────────────────────────────────────────────

/// Whether the connect dialog lists a tenant: the search text in lower case is
/// empty or occurs in the tenant's lower-cased name.
pub open spec fn connect_listed(query: Seq<char>, name: Seq<char>) -> bool {
    lowercase_text(query).len() == 0 || occurs_in(lowercase_text(name), lowercase_text(query))
}

pub open spec fn connect_pred(names: Seq<String>, query: Seq<char>) -> spec_fn(int) -> bool {
    |i: int| connect_listed(query, names[i]@)
}

/// The positions of the tenants the connect dialog lists, in order.
pub fn connect_candidates(names: &Vec<String>, query: &str) -> (res: Vec<usize>)
    ensures
        res@ == positions_where(names@.len(), connect_pred(names@, query@)),
{
    let q = to_lowercase(query);
    let ghost p = connect_pred(names@, query@);
    let empty = char_len(q.as_str()) == 0;
    let mut out: Vec<usize> = Vec::new();
    let mut i: usize = 0;
    while i < names.len()
        invariant
            i <= names.len(),
            q@ == lowercase_text(query@),
            empty == (q@.len() == 0),
            p == connect_pred(names@, query@),
            out@ == positions_where(i as nat, p),
        decreases names.len() - i,
    {
        let shown = if empty {
            true
        } else {
            let n = to_lowercase(names[i].as_str());
            contains(n.as_str(), q.as_str())
        };
        if shown {
            out.push(i);
        }
        i = i + 1;
    }
    out
}

/// The notice after a tenant is connected.
pub fn connect_notice(tenant_name: &str) -> (res: String)
    ensures
        res@ == "'"@ + tenant_name@
            + "' linked to this network instance. Full syndication activates on next deploy."@,
{
    concat3(
        "'",
        tenant_name,
        "' linked to this network instance. Full syndication activates on next deploy.",
    )
}

/// A tenant's plan in the dialog (a dash without one).
pub fn plan_text(plan: Option<String>) -> (res: String)
    ensures
        res@ == match plan {
            Some(p) => p@,
            None => "—"@,
        },
{
    match plan {
        Some(p) => p,
        None => owned("—"),
    }
}

/// The connect dialog lists a tenant exactly when the lower-cased search text
/// is empty or occurs anywhere in the tenant's lower-cased name (not only at
/// its start).
pub proof fn law_connect_search(names: Seq<String>, query: Seq<char>, i: int)
    requires
        0 <= i < names.len(),
        names.len() <= usize::MAX,
    ensures
        positions_where(names.len(), connect_pred(names, query)).contains(i as usize) <==> (
        lowercase_text(query).len() == 0 || occurs_in(lowercase_text(names[i]@), lowercase_text(query))),
{
    let p = connect_pred(names, query);
    law_positions_exact(names.len() as nat, p);
    let pw = positions_where(names.len() as nat, p);
    if pw.contains(i as usize) {
        let k = choose|k: int| 0 <= k < pw.len() && pw[k] == i as usize;
        assert(p(pw[k] as int));
    } else if p(i) {
        assert(pw.contains(i as usize));
    }
    assert(p(i) == connect_listed(query, names[i]@));
}

} // verus!

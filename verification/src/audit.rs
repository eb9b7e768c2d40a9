//! The audit ledger: classifying entries, filtering them by category and
//! search text, counting them and grouping them by day.
use vstd::prelude::*;
use crate::text::{lowercase_text, occurs_in, to_lowercase, contains, str_eq, owned, opt_view};
use crate::json::{pretty_text, pretty_json};
use crate::notice::{Toast, error_toast, toast_is};
use crate::ids::{uuid_text, uuid_text_spec};
use crate::select::{positions_where, law_positions_exact};
use crate::timestamps::{utc_format, utc_formatted, utc_rfc3339, utc_rfc3339_text, placeable};

verus! {

/// One entry of the ledger. Ids are UUIDs as 128-bit values; the time stamp is
/// seconds and nanoseconds since the Unix epoch, UTC.
#[derive(Debug, PartialEq)]
pub struct AuditEntry {
    pub action_type: String,
    pub entity_type: String,
    pub entity_id: u128,
    pub actor_id: Option<u128>,
    pub created_secs: i64,
    pub created_nanos: u32,
    pub ip_address: Option<String>,
}

// ── time stamps ──────────────────────────────────────────────────────────────

/// A time stamp as `YYYY-MM-DD HH:MM:SS`.
pub fn format_datetime_diff(secs: i64, nanos: u32) -> (res: Option<String>)
    ensures
        opt_view(res) == utc_formatted(secs, nanos, "%Y-%m-%d %H:%M:%S"@),
        placeable(secs, nanos) ==> res is Some,
{
    utc_format(secs, nanos, "%Y-%m-%d %H:%M:%S")
}

/// The heading of the day an entry belongs to, such as `Monday, March 04, 2024`.
pub fn day_heading(secs: i64, nanos: u32) -> (res: Option<String>)
    ensures
        opt_view(res) == utc_formatted(secs, nanos, "%A, %B %d, %Y"@),
        placeable(secs, nanos) ==> res is Some,
{
    utc_format(secs, nanos, "%A, %B %d, %Y")
}

/// The time of day an entry shows, such as `14:05 UTC`.
pub fn clock_label(secs: i64, nanos: u32) -> (res: Option<String>)
    ensures
        opt_view(res) == utc_formatted(secs, nanos, "%H:%M UTC"@),
        placeable(secs, nanos) ==> res is Some,
{
    utc_format(secs, nanos, "%H:%M UTC")
}

/// The full time stamp the detail panel shows (RFC 3339).
pub fn timestamp_label(secs: i64, nanos: u32) -> (res: Option<String>)
    ensures
        opt_view(res) == utc_rfc3339(secs, nanos),
        placeable(secs, nanos) ==> res is Some,
{
    utc_rfc3339_text(secs, nanos)
}

/// The ledger after the service answered a fetch: the entries shown (the
/// fetched ones, or the same ones when the fetch failed), the loading flag
/// (cleared) and the error toast of a failed fetch.
pub fn logs_loaded<A>(current: Vec<A>, reply: Result<Vec<A>, String>) -> (res: (Vec<A>, bool, Option<Toast>))
    ensures
        !res.1,
        reply matches Ok(v) ==> res.0 == v && res.2 is None,
        reply matches Err(e) ==> res.0 == current && (res.2 matches Some(t) && toast_is(t, "Error"@, e@, "error"@)),
{
    match reply {
        Ok(v) => (v, false, None),
        Err(e) => (current, false, Some(error_toast(e))),
    }
}

// ── categories ───────────────────────────────────────────────────────────────

pub open spec fn security_words(a: Seq<char>) -> bool {
    occurs_in(a, "security"@) || occurs_in(a, "auth"@) || occurs_in(a, "login"@) || occurs_in(a, "user"@)
}

pub open spec fn tenant_words(a: Seq<char>) -> bool {
    occurs_in(a, "ni"@) || occurs_in(a, "tenant"@) || occurs_in(a, "provision"@)
}

pub open spec fn billing_words(a: Seq<char>) -> bool {
    occurs_in(a, "bill"@) || occurs_in(a, "sub"@) || occurs_in(a, "mrr"@) || occurs_in(a, "invoice"@)
}

pub open spec fn flag_words(a: Seq<char>) -> bool {
    occurs_in(a, "flag"@) || occurs_in(a, "rollout"@)
}

pub open spec fn support_words(a: Seq<char>) -> bool {
    occurs_in(a, "support"@) || occurs_in(a, "ticket"@)
}

/// The category an entry is shown under.
#[derive(PartialEq, Eq, Structural, Clone, Copy, Debug)]
pub enum LogCategory {
    Flags,
    Billing,
    Tenant,
    Security,
    Support,
    System,
}

/// The category of a lower-cased action: the first family of words it holds,
/// in the order flags, billing, tenant, security, support.
pub open spec fn category_of(a: Seq<char>) -> LogCategory {
    if flag_words(a) {
        LogCategory::Flags
    } else if billing_words(a) {
        LogCategory::Billing
    } else if tenant_words(a) {
        LogCategory::Tenant
    } else if security_words(a) {
        LogCategory::Security
    } else if support_words(a) {
        LogCategory::Support
    } else {
        LogCategory::System
    }
}

fn has_security_words(a: &str) -> (res: bool)
    ensures
        res == security_words(a@),
{
    contains(a, "security") || contains(a, "auth") || contains(a, "login") || contains(a, "user")
}

fn has_tenant_words(a: &str) -> (res: bool)
    ensures
        res == tenant_words(a@),
{
    contains(a, "ni") || contains(a, "tenant") || contains(a, "provision")
}

fn has_billing_words(a: &str) -> (res: bool)
    ensures
        res == billing_words(a@),
{
    contains(a, "bill") || contains(a, "sub") || contains(a, "mrr") || contains(a, "invoice")
}

fn has_flag_words(a: &str) -> (res: bool)
    ensures
        res == flag_words(a@),
{
    contains(a, "flag") || contains(a, "rollout")
}

/// The category of an entry's action (compared in lower case).
pub fn log_category(action_type: &str) -> (res: LogCategory)
    ensures
        res == category_of(lowercase_text(action_type@)),
{
    let lower = to_lowercase(action_type);
    let a = lower.as_str();
    if has_flag_words(a) {
        LogCategory::Flags
    } else if has_billing_words(a) {
        LogCategory::Billing
    } else if has_tenant_words(a) {
        LogCategory::Tenant
    } else if has_security_words(a) {
        LogCategory::Security
    } else if contains(a, "support") || contains(a, "ticket") {
        LogCategory::Support
    } else {
        LogCategory::System
    }
}

pub open spec fn category_style_spec(c: LogCategory) -> (Seq<char>, Seq<char>, Seq<char>) {
    match c {
        LogCategory::Flags => ("dot-flag"@, "cat-flag"@, "Flags"@),
        LogCategory::Billing => ("dot-billing"@, "cat-billing"@, "Billing"@),
        LogCategory::Tenant => ("dot-ni"@, "cat-ni"@, "NI / Tenant"@),
        LogCategory::Security => ("dot-security"@, "cat-security"@, "Security"@),
        LogCategory::Support => ("dot-support"@, "cat-support"@, "Support"@),
        LogCategory::System => ("dot-system"@, "cat-system"@, "System"@),
    }
}

/// The dot class, badge class and label of a category.
pub fn category_style(c: LogCategory) -> (res: (&'static str, &'static str, &'static str))
    ensures
        (res.0@, res.1@, res.2@) == category_style_spec(c),
{
    match c {
        LogCategory::Flags => ("dot-flag", "cat-flag", "Flags"),
        LogCategory::Billing => ("dot-billing", "cat-billing", "Billing"),
        LogCategory::Tenant => ("dot-ni", "cat-ni", "NI / Tenant"),
        LogCategory::Security => ("dot-security", "cat-security", "Security"),
        LogCategory::Support => ("dot-support", "cat-support", "Support"),
        LogCategory::System => ("dot-system", "cat-system", "System"),
    }
}

// ── filtering ────────────────────────────────────────────────────────────────

/// Whether the category filter lets a lower-cased action through ("all" and
/// unknown filters let everything through).
pub open spec fn category_passes(filter: Seq<char>, a: Seq<char>) -> bool {
    if filter == "security"@ {
        security_words(a)
    } else if filter == "ni"@ {
        tenant_words(a)
    } else if filter == "billing"@ {
        billing_words(a)
    } else if filter == "flags"@ {
        flag_words(a)
    } else {
        true
    }
}

/// Whether a lower-cased search text finds an entry: it is empty, or occurs in
/// the lower-cased action or entity type, or in the text of the entity or
/// actor id.
pub open spec fn query_passes(q: Seq<char>, e: AuditEntry) -> bool {
    ||| q.len() == 0
    ||| occurs_in(lowercase_text(e.action_type@), q)
    ||| occurs_in(lowercase_text(e.entity_type@), q)
    ||| occurs_in(uuid_text_spec(e.entity_id), q)
    ||| (e.actor_id matches Some(id) && occurs_in(uuid_text_spec(id), q))
}

/// Whether the ledger shows an entry under a category filter and a search text.
pub open spec fn entry_shown(filter: Seq<char>, query: Seq<char>, e: AuditEntry) -> bool {
    category_passes(filter, lowercase_text(e.action_type@)) && query_passes(
        lowercase_text(query),
        e,
    )
}

pub open spec fn shown_pred(entries: Seq<AuditEntry>, filter: Seq<char>, query: Seq<char>) -> spec_fn(
    int,
) -> bool {
    |i: int| entry_shown(filter, query, entries[i])
}

fn passes_category(filter: &str, a: &str) -> (res: bool)
    ensures
        res == category_passes(filter@, a@),
{
    if str_eq(filter, "security") {
        has_security_words(a)
    } else if str_eq(filter, "ni") {
        has_tenant_words(a)
    } else if str_eq(filter, "billing") {
        has_billing_words(a)
    } else if str_eq(filter, "flags") {
        has_flag_words(a)
    } else {
        true
    }
}

fn passes_query(q: &str, e: &AuditEntry) -> (res: bool)
    ensures
        res == query_passes(q@, *e),
{
    if crate::text::char_len(q) == 0 {
        return true;
    }
    let action = to_lowercase(e.action_type.as_str());
    if contains(action.as_str(), q) {
        return true;
    }
    let entity = to_lowercase(e.entity_type.as_str());
    if contains(entity.as_str(), q) {
        return true;
    }
    let id = uuid_text(e.entity_id);
    if contains(id.as_str(), q) {
        return true;
    }
    match e.actor_id {
        Some(a) => {
            let actor = uuid_text(a);
            contains(actor.as_str(), q)
        },
        None => false,
    }
}

/// Whether the ledger shows an entry; `query_lower` is the search text already
/// in lower case.
pub fn entry_visible(filter: &str, query_lower: &str, e: &AuditEntry) -> (res: bool)
    ensures
        res == (category_passes(filter@, lowercase_text(e.action_type@)) && query_passes(
            query_lower@,
            *e,
        )),
{
    let action = to_lowercase(e.action_type.as_str());
    passes_category(filter, action.as_str()) && passes_query(query_lower, e)
}

/// The positions of the entries the ledger shows, in order.
pub fn filter_logs(entries: &Vec<AuditEntry>, filter: &str, query: &str) -> (res: Vec<usize>)
    ensures
        res@ == positions_where(entries@.len(), shown_pred(entries@, filter@, query@)),
{
    let q = to_lowercase(query);
    let ghost p = shown_pred(entries@, filter@, query@);
    let mut out: Vec<usize> = Vec::new();
    let mut i: usize = 0;
    while i < entries.len()
        invariant
            i <= entries.len(),
            q@ == lowercase_text(query@),
            p == shown_pred(entries@, filter@, query@),
            out@ == positions_where(i as nat, p),
        decreases entries.len() - i,
    {
        if entry_visible(filter, q.as_str(), &entries[i]) {
            out.push(i);
        }
        i = i + 1;
    }
    out
}

// ── counts ───────────────────────────────────────────────────────────────────

/// The strip of counts above the ledger: all entries, and those whose
/// lower-cased action holds security, tenant, billing or flag words (an entry
/// may count under several).
#[derive(PartialEq, Eq, Structural, Clone, Copy, Debug)]
pub struct LogStats {
    pub total: usize,
    pub security: usize,
    pub tenant: usize,
    pub billing: usize,
    pub flags: usize,
}

pub open spec fn lowered_action(entries: Seq<AuditEntry>, i: int) -> Seq<char> {
    lowercase_text(entries[i].action_type@)
}

pub open spec fn security_pred(entries: Seq<AuditEntry>) -> spec_fn(int) -> bool {
    |i: int| security_words(lowered_action(entries, i))
}

pub open spec fn tenant_pred(entries: Seq<AuditEntry>) -> spec_fn(int) -> bool {
    |i: int| tenant_words(lowered_action(entries, i))
}

pub open spec fn billing_pred(entries: Seq<AuditEntry>) -> spec_fn(int) -> bool {
    |i: int| billing_words(lowered_action(entries, i))
}

pub open spec fn flag_pred(entries: Seq<AuditEntry>) -> spec_fn(int) -> bool {
    |i: int| flag_words(lowered_action(entries, i))
}

/// The counts of the ledger's strip.
pub fn log_stats(entries: &Vec<AuditEntry>) -> (res: LogStats)
    ensures
        res.total == entries@.len(),
        res.security == positions_where(entries@.len(), security_pred(entries@)).len(),
        res.tenant == positions_where(entries@.len(), tenant_pred(entries@)).len(),
        res.billing == positions_where(entries@.len(), billing_pred(entries@)).len(),
        res.flags == positions_where(entries@.len(), flag_pred(entries@)).len(),
{
    let ghost ps = security_pred(entries@);
    let ghost pt = tenant_pred(entries@);
    let ghost pb = billing_pred(entries@);
    let ghost pf = flag_pred(entries@);
    let mut s: usize = 0;
    let mut t: usize = 0;
    let mut b: usize = 0;
    let mut f: usize = 0;
    let mut i: usize = 0;
    while i < entries.len()
        invariant
            i <= entries.len(),
            ps == security_pred(entries@),
            pt == tenant_pred(entries@),
            pb == billing_pred(entries@),
            pf == flag_pred(entries@),
            s == positions_where(i as nat, ps).len(),
            t == positions_where(i as nat, pt).len(),
            b == positions_where(i as nat, pb).len(),
            f == positions_where(i as nat, pf).len(),
        decreases entries.len() - i,
    {
        proof {
            law_positions_exact(i as nat, ps);
            law_positions_exact(i as nat, pt);
            law_positions_exact(i as nat, pb);
            law_positions_exact(i as nat, pf);
        }
        let lower = to_lowercase(entries[i].action_type.as_str());
        let a = lower.as_str();
        if has_security_words(a) {
            s = s + 1;
        }
        if has_tenant_words(a) {
            t = t + 1;
        }
        if has_billing_words(a) {
            b = b + 1;
        }
        if has_flag_words(a) {
            f = f + 1;
        }
        i = i + 1;
    }
    LogStats { total: entries.len(), security: s, tenant: t, billing: b, flags: f }
}

// ── labels ───────────────────────────────────────────────────────────────────

/// Who performed an entry: the actor's id, or `System`.
pub fn actor_label(actor_id: Option<u128>) -> (res: String)
    ensures
        res@ == match actor_id {
            Some(id) => uuid_text_spec(id),
            None => "System"@,
        },
{
    match actor_id {
        Some(id) => uuid_text(id),
        None => owned("System"),
    }
}

// ── grouping by day ──────────────────────────────────────────────────────────

/// A heading and the positions filed under it.
pub type Group = (Seq<char>, Seq<usize>);

/// The first group at or after `g` whose heading is `h`; the number of groups
/// when there is none.
pub open spec fn group_index_from(gs: Seq<Group>, h: Seq<char>, g: int) -> int
    decreases gs.len() - g,
{
    if g >= gs.len() {
        gs.len() as int
    } else if gs[g].0 == h {
        g
    } else {
        group_index_from(gs, h, g + 1)
    }
}

/// Files position `i` under heading `h`: into the group with that heading, or
/// into a new group at the end.
pub open spec fn file_under(gs: Seq<Group>, h: Seq<char>, i: usize) -> Seq<Group> {
    let g = group_index_from(gs, h, 0);
    if g < gs.len() {
        gs.update(g, (gs[g].0, gs[g].1.push(i)))
    } else {
        gs.push((h, seq![i]))
    }
}

/// The groups the ledger shows for a list of headings: each position filed in
/// turn.
pub open spec fn groups_spec(hs: Seq<Seq<char>>) -> Seq<Group>
    decreases hs.len(),
{
    if hs.len() == 0 {
        seq![]
    } else {
        file_under(groups_spec(hs.drop_last()), hs.last(), (hs.len() - 1) as usize)
    }
}

pub open spec fn groups_view(v: Seq<(String, Vec<usize>)>) -> Seq<Group> {
    Seq::new(v.len(), |k: int| (v[k].0@, v[k].1@))
}

pub open spec fn headings_view(v: Seq<String>) -> Seq<Seq<char>> {
    Seq::new(v.len(), |k: int| v[k]@)
}

proof fn lemma_group_index_from(gs: Seq<Group>, h: Seq<char>, g: int)
    requires
        0 <= g <= gs.len(),
    ensures
        g <= group_index_from(gs, h, g) <= gs.len(),
        group_index_from(gs, h, g) < gs.len() ==> gs[group_index_from(gs, h, g)].0 == h,
        forall|k: int| g <= k < group_index_from(gs, h, g) ==> gs[k].0 != h,
    decreases gs.len() - g,
{
    if g < gs.len() && gs[g].0 != h {
        lemma_group_index_from(gs, h, g + 1);
    }
}

/// Groups positions by their headings: one group per distinct heading, in the
/// order the headings first appear, each holding its positions in order.
pub fn group_by_heading(headings: &Vec<String>) -> (res: Vec<(String, Vec<usize>)>)
    ensures
        groups_view(res@) == groups_spec(headings_view(headings@)),
{
    let mut groups: Vec<(String, Vec<usize>)> = Vec::new();
    let mut i: usize = 0;
    while i < headings.len()
        invariant
            i <= headings.len(),
            groups_view(groups@) == groups_spec(headings_view(headings@).take(i as int)),
        decreases headings.len() - i,
    {
        let ghost hs = headings_view(headings@);
        let ghost before = groups_view(groups@);
        assert(hs.take(i + 1).drop_last() =~= hs.take(i as int));
        let h = headings[i].as_str();
        let mut g: usize = 0;
        while g < groups.len() && !str_eq(groups[g].0.as_str(), h)
            invariant
                g <= groups.len(),
                before == groups_view(groups@),
                group_index_from(before, h@, 0) == group_index_from(before, h@, g as int),
            decreases groups.len() - g,
        {
            g = g + 1;
        }
        proof {
            lemma_group_index_from(before, h@, g as int);
        }
        if g < groups.len() {
            let (key, mut members) = groups.remove(g);
            members.push(i);
            groups.insert(g, (key, members));
            assert(groups_view(groups@) =~= file_under(before, h@, i));
        } else {
            let mut members: Vec<usize> = Vec::new();
            members.push(i);
            groups.push((owned(h), members));
            assert(groups_view(groups@) =~= file_under(before, h@, i));
        }
        i = i + 1;
    }
    assert(headings_view(headings@).take(i as int) =~= headings_view(headings@));
    groups
}

/// What it is for groups to file the positions of a list of headings: every
/// group is non-empty and files positions whose heading is the group's, in
/// increasing order; no two groups share a heading; groups come in the order
/// of their first positions; and every position is filed.
pub open spec fn files_all(hs: Seq<Seq<char>>, gs: Seq<Group>) -> bool {
    &&& forall|g: int| 0 <= g < gs.len() ==> (#[trigger] gs[g]).1.len() > 0
    &&& forall|g: int, k: int|
        0 <= g < gs.len() && 0 <= k < gs[g].1.len() ==> (#[trigger] gs[g].1[k] as int) < hs.len()
            && hs[gs[g].1[k] as int] == gs[g].0
    &&& forall|g: int, a: int, b: int|
        0 <= g < gs.len() && 0 <= a < b < gs[g].1.len() ==> #[trigger] gs[g].1[a]
            < #[trigger] gs[g].1[b]
    &&& forall|g1: int, g2: int| 0 <= g1 < g2 < gs.len() ==> (#[trigger] gs[g1]).0 != (#[trigger] gs[g2]).0
    &&& forall|g1: int, g2: int|
        0 <= g1 < g2 < gs.len() ==> (#[trigger] gs[g1]).1[0] < (#[trigger] gs[g2]).1[0]
    &&& forall|i: int| 0 <= i < hs.len() ==> #[trigger] filed(gs, i)
}

/// Some group files position `i`.
pub open spec fn filed(gs: Seq<Group>, i: int) -> bool {
    exists|g: int, k: int|
        0 <= g < gs.len() && 0 <= k < gs[g].1.len() && #[trigger] gs[g].1[k] == i as usize
}

/// The ledger's day groups file every shown entry exactly under its own day:
/// one group per day, days in order of first appearance, entries in order.
pub proof fn law_groups_file_all(hs: Seq<Seq<char>>)
    requires
        hs.len() <= usize::MAX,
    ensures
        files_all(hs, groups_spec(hs)),
    decreases hs.len(),
{
    if hs.len() > 0 {
        let prev_hs = hs.drop_last();
        law_groups_file_all(prev_hs);
        let gs = groups_spec(prev_hs);
        let h = hs.last();
        let n = (hs.len() - 1) as usize;
        let out = groups_spec(hs);
        assert(out == file_under(gs, h, n));
        lemma_group_index_from(gs, h, 0);
        let gi = group_index_from(gs, h, 0);
        // every earlier member is below n
        assert forall|g: int, k: int| 0 <= g < gs.len() && 0 <= k < gs[g].1.len() implies (
        #[trigger] gs[g].1[k]) < n by {}
        if gi < gs.len() {
            assert forall|g: int| 0 <= g < out.len() implies (#[trigger] out[g]).1.len() > 0 by {}
            assert forall|g: int, k: int| 0 <= g < out.len() && 0 <= k < out[g].1.len() implies (
            #[trigger] out[g].1[k] as int) < hs.len() && hs[out[g].1[k] as int] == out[g].0 by {
                if g == gi && k == gs[g].1.len() {
                } else {
                    assert(out[g].1[k] == gs[g].1[k]);
                    assert(prev_hs[gs[g].1[k] as int] == hs[gs[g].1[k] as int]);
                }
            }
            assert forall|g: int, a: int, b: int|
                0 <= g < out.len() && 0 <= a < b < out[g].1.len() implies #[trigger] out[g].1[a]
                < #[trigger] out[g].1[b] by {
                assert(out[g].1[a] == gs[g].1[a]);
                if g == gi && b == gs[g].1.len() {
                } else {
                    assert(out[g].1[b] == gs[g].1[b]);
                }
            }
            assert forall|g1: int, g2: int| 0 <= g1 < g2 < out.len() implies (#[trigger] out[g1]).0
                != (#[trigger] out[g2]).0 by {
                assert(out[g1].0 == gs[g1].0);
                assert(out[g2].0 == gs[g2].0);
            }
            assert forall|g1: int, g2: int| 0 <= g1 < g2 < out.len() implies (
            #[trigger] out[g1]).1[0] < (#[trigger] out[g2]).1[0] by {
                assert(out[g1].1[0] == gs[g1].1[0]);
                assert(out[g2].1[0] == gs[g2].1[0]);
            }
            assert forall|i: int| 0 <= i < hs.len() implies #[trigger] filed(out, i) by {
                if i == n {
                    assert(out[gi].1[gs[gi].1.len() as int] == i as usize);
                } else {
                    assert(filed(gs, i));
                    let (g, k) = choose|g: int, k: int|
                        0 <= g < gs.len() && 0 <= k < gs[g].1.len() && #[trigger] gs[g].1[k]
                            == i as usize;
                    assert(out[g].1[k] == gs[g].1[k]);
                }
            }
        } else {
            assert forall|g: int| 0 <= g < out.len() implies (#[trigger] out[g]).1.len() > 0 by {}
            assert forall|g: int, k: int| 0 <= g < out.len() && 0 <= k < out[g].1.len() implies (
            #[trigger] out[g].1[k] as int) < hs.len() && hs[out[g].1[k] as int] == out[g].0 by {
                if g < gs.len() {
                    assert(out[g].1[k] == gs[g].1[k]);
                    assert(prev_hs[gs[g].1[k] as int] == hs[gs[g].1[k] as int]);
                }
            }
            assert forall|g: int, a: int, b: int|
                0 <= g < out.len() && 0 <= a < b < out[g].1.len() implies #[trigger] out[g].1[a]
                < #[trigger] out[g].1[b] by {}
            assert forall|g1: int, g2: int| 0 <= g1 < g2 < out.len() implies (#[trigger] out[g1]).0
                != (#[trigger] out[g2]).0 by {
                if g2 == gs.len() {
                    assert(out[g1] == gs[g1]);
                }
            }
            assert forall|g1: int, g2: int| 0 <= g1 < g2 < out.len() implies (
            #[trigger] out[g1]).1[0] < (#[trigger] out[g2]).1[0] by {
                if g2 == gs.len() {
                    assert(out[g1] == gs[g1]);
                    assert(gs[g1].1[0] < n);
                }
            }
            assert forall|i: int| 0 <= i < hs.len() implies #[trigger] filed(out, i) by {
                if i == n {
                    assert(out[gs.len() as int].1[0] == i as usize);
                } else {
                    assert(filed(gs, i));
                    let (g, k) = choose|g: int, k: int|
                        0 <= g < gs.len() && 0 <= k < gs[g].1.len() && #[trigger] gs[g].1[k]
                            == i as usize;
                    assert(out[g] == gs[g]);
                }
            }
        }
    }
}

/// The day heading of an entry, as chrono prints it.
pub open spec fn entry_heading(e: AuditEntry) -> Option<Seq<char>> {
    utc_formatted(e.created_secs, e.created_nanos, "%A, %B %d, %Y"@)
}

/// The day headings of the entries at `shown`, in order.
pub open spec fn shown_headings(entries: Seq<AuditEntry>, shown: Seq<usize>) -> Seq<Seq<char>> {
    Seq::new(shown.len(), |k: int| entry_heading(entries[shown[k] as int])->Some_0)
}

/// The ledger as shown: the positions of the entries that pass the filter and
/// the search text, and their day groups, whose members are places in that
/// list of positions. None when an entry shown has a time stamp that chrono
/// cannot place.
pub fn audit_groups(entries: &Vec<AuditEntry>, filter: &str, query: &str) -> (res: Option<
    (Vec<usize>, Vec<(String, Vec<usize>)>),
>)
    ensures
        res is Some <==> (forall|k: int|
            0 <= k < positions_where(entries@.len(), shown_pred(entries@, filter@, query@)).len()
                ==> (#[trigger] entry_heading(
                entries@[positions_where(entries@.len(), shown_pred(entries@, filter@, query@))[k] as int],
            )) is Some),
        (forall|i: int|
            0 <= i < entries@.len() ==> placeable(
                #[trigger] entries@[i].created_secs,
                entries@[i].created_nanos,
            )) ==> res is Some,
        res matches Some(r) ==> {
            &&& r.0@ == positions_where(entries@.len(), shown_pred(entries@, filter@, query@))
            &&& groups_view(r.1@) == groups_spec(shown_headings(entries@, r.0@))
        },
{
    let shown = filter_logs(entries, filter, query);
    let n: usize = entries.len();
    assert(entries@.len() == n);
    proof {
        law_positions_exact(entries@.len(), shown_pred(entries@, filter@, query@));
    }
    let mut headings: Vec<String> = Vec::new();
    let mut k: usize = 0;
    while k < shown.len()
        invariant
            k <= shown.len(),
            shown@ == positions_where(entries@.len(), shown_pred(entries@, filter@, query@)),
            forall|j: int| 0 <= j < shown@.len() ==> (#[trigger] shown@[j] as int) < entries@.len(),
            headings@.len() == k,
            forall|j: int|
                0 <= j < k ==> entry_heading(entries@[shown@[j] as int]) == Some(
                    (#[trigger] headings@[j])@,
                ),
        decreases shown.len() - k,
    {
        let e = &entries[shown[k]];
        match day_heading(e.created_secs, e.created_nanos) {
            Some(h) => {
                headings.push(h);
            },
            None => {
                assert(entry_heading(entries@[shown@[k as int] as int]) is None);
                return None;
            },
        }
        k = k + 1;
    }
    let groups = group_by_heading(&headings);
    assert forall|j: int| 0 <= j < shown@.len() implies (#[trigger] entry_heading(
        entries@[shown@[j] as int],
    )) is Some by {
        assert(entry_heading(entries@[shown@[j] as int]) == Some(headings@[j]@));
    }
    assert(headings_view(headings@) =~= shown_headings(entries@, shown@));
    Some((shown, groups))
}

// ── state differential ───────────────────────────────────────────────────────

/// The text of a state snapshot in the detail panel: the value pretty-printed
/// (`{}` if printing fails), or `None` when there is no snapshot.
pub fn format_json_diff(val: &Option<serde_json::Value>) -> (res: String)
    ensures
        val is None ==> res@ == "None"@,
        val matches Some(v) ==> res@ == match pretty_text(*v) {
            Some(t) => t,
            None => "{}"@,
        },
{
    match val {
        Some(v) => match pretty_json(v) {
            Some(text) => text,
            None => owned("{}"),
        },
        None => owned("None"),
    }
}

// ── laws of the ledger's filter and categories ───────────────────────────────

/// The ledger shows an entry exactly when its action passes the category
/// filter and the lower-cased search text is empty or occurs in the
/// lower-cased action, the lower-cased entity type, the entity's id text or
/// the actor's id text.
pub proof fn law_search_fields(entries: Seq<AuditEntry>, filter: Seq<char>, query: Seq<char>, i: int)
    requires
        0 <= i < entries.len(),
        entries.len() <= usize::MAX,
    ensures
        positions_where(entries.len(), shown_pred(entries, filter, query)).contains(i as usize) <==> (
        category_passes(filter, lowercase_text(entries[i].action_type@)) && {
            ||| lowercase_text(query).len() == 0
            ||| occurs_in(lowercase_text(entries[i].action_type@), lowercase_text(query))
            ||| occurs_in(lowercase_text(entries[i].entity_type@), lowercase_text(query))
            ||| occurs_in(uuid_text_spec(entries[i].entity_id), lowercase_text(query))
            ||| (entries[i].actor_id matches Some(id) && occurs_in(
                uuid_text_spec(id),
                lowercase_text(query),
            ))
        }),
{
    let p = shown_pred(entries, filter, query);
    law_positions_exact(entries.len() as nat, p);
    let pw = positions_where(entries.len() as nat, p);
    if pw.contains(i as usize) {
        let k = choose|k: int| 0 <= k < pw.len() && pw[k] == i as usize;
        assert(p(pw[k] as int));
    } else {
        if p(i) {
            assert(pw.contains(i as usize));
        }
    }
}

/// Under "all" every action passes; under "security", "ni", "billing" and
/// "flags" an action passes exactly when its lower-cased text holds one of
/// that family's words.
pub proof fn law_category_filters(a: Seq<char>)
    ensures
        category_passes("all"@, a),
        category_passes("security"@, a) <==> (occurs_in(a, "security"@) || occurs_in(a, "auth"@)
            || occurs_in(a, "login"@) || occurs_in(a, "user"@)),
        category_passes("ni"@, a) <==> (occurs_in(a, "ni"@) || occurs_in(a, "tenant"@) || occurs_in(
            a,
            "provision"@,
        )),
        category_passes("billing"@, a) <==> (occurs_in(a, "bill"@) || occurs_in(a, "sub"@) || occurs_in(
            a,
            "mrr"@,
        ) || occurs_in(a, "invoice"@)),
        category_passes("flags"@, a) <==> (occurs_in(a, "flag"@) || occurs_in(a, "rollout"@)),
{
    reveal_strlit("all");
    reveal_strlit("security");
    reveal_strlit("ni");
    reveal_strlit("billing");
    reveal_strlit("flags");
    assert("all"@.len() == 3 && "ni"@.len() == 2 && "flags"@.len() == 5);
    assert("billing"@.len() == 7 && "security"@.len() == 8);
}

/// The category of an action, by the words its lower-cased text holds: flag
/// words first, then billing, tenant, security and support words ("support"
/// or "ticket"); an action with none of them is a system entry.
pub proof fn law_category_words(action: Seq<char>)
    ensures
        ({
            let a = lowercase_text(action);
            let flag = occurs_in(a, "flag"@) || occurs_in(a, "rollout"@);
            let bill = occurs_in(a, "bill"@) || occurs_in(a, "sub"@) || occurs_in(a, "mrr"@) || occurs_in(
                a,
                "invoice"@,
            );
            let ten = occurs_in(a, "ni"@) || occurs_in(a, "tenant"@) || occurs_in(a, "provision"@);
            let sec = occurs_in(a, "security"@) || occurs_in(a, "auth"@) || occurs_in(a, "login"@)
                || occurs_in(a, "user"@);
            let sup = occurs_in(a, "support"@) || occurs_in(a, "ticket"@);
            &&& flag ==> category_of(a) == LogCategory::Flags
            &&& !flag && bill ==> category_of(a) == LogCategory::Billing
            &&& !flag && !bill && ten ==> category_of(a) == LogCategory::Tenant
            &&& !flag && !bill && !ten && sec ==> category_of(a) == LogCategory::Security
            &&& !flag && !bill && !ten && !sec && sup ==> category_of(a) == LogCategory::Support
            &&& !flag && !bill && !ten && !sec && !sup ==> category_of(a) == LogCategory::System
        }),
{
}

/// The stat strip counts, entry by entry: the entry at position `n` adds one
/// to the security count exactly when its lower-cased action holds
/// "security", "auth", "login" or "user"; to the tenant count for "ni",
/// "tenant" or "provision"; to the billing count for "bill", "sub", "mrr" or
/// "invoice"; and to the flags count for "flag" or "rollout".
pub proof fn law_stats_count(entries: Seq<AuditEntry>, n: int)
    requires
        0 <= n < entries.len(),
    ensures
        ({
            let a = lowercase_text(entries[n].action_type@);
            let m = n as nat;
            let k = (n + 1) as nat;
            &&& positions_where(k, security_pred(entries)).len() == positions_where(m, security_pred(entries)).len()
                + if occurs_in(a, "security"@) || occurs_in(a, "auth"@) || occurs_in(a, "login"@)
                || occurs_in(a, "user"@) {
                1int
            } else {
                0int
            }
            &&& positions_where(k, tenant_pred(entries)).len() == positions_where(m, tenant_pred(entries)).len()
                + if occurs_in(a, "ni"@) || occurs_in(a, "tenant"@) || occurs_in(a, "provision"@) {
                1int
            } else {
                0int
            }
            &&& positions_where(k, billing_pred(entries)).len() == positions_where(m, billing_pred(entries)).len()
                + if occurs_in(a, "bill"@) || occurs_in(a, "sub"@) || occurs_in(a, "mrr"@) || occurs_in(
                a,
                "invoice"@,
            ) {
                1int
            } else {
                0int
            }
            &&& positions_where(k, flag_pred(entries)).len() == positions_where(m, flag_pred(entries)).len()
                + if occurs_in(a, "flag"@) || occurs_in(a, "rollout"@) {
                1int
            } else {
                0int
            }
        }),
{
}

} // verus!

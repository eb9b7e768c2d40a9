//! The platform map: the demo tenants, merging the real applications into
//! them, the sidebar's filters and labels.
//!
//! Coordinates are held in ten-thousandths of a degree.
use vstd::prelude::*;
use std::collections::HashSet;
use crate::text::{
    lowercase_text, replace_spec, to_lowercase, replace_char, str_eq, owned, concat2, concat3,
    decimal_unsigned, nat_digits,
};
use crate::select::{positions_where, law_positions_exact};
use crate::notice::{Toast, toast, toast_is};

verus! {

/// A tenant on the map.
#[derive(Debug, PartialEq)]
pub struct MapTenant {
    pub id: String,
    pub name: String,
    pub slug: String,
    pub plan: String,
    pub health: String,
    pub health_label: String,
    pub mrr: String,
    pub lat_e4: i64,
    pub lng_e4: i64,
    pub location: String,
}

/// A tenant on the map, as text and numbers.
#[verifier::ext_equal]
pub struct MapTenantV {
    pub id: Seq<char>,
    pub name: Seq<char>,
    pub slug: Seq<char>,
    pub plan: Seq<char>,
    pub health: Seq<char>,
    pub health_label: Seq<char>,
    pub mrr: Seq<char>,
    pub lat_e4: int,
    pub lng_e4: int,
    pub location: Seq<char>,
}

impl View for MapTenant {
    type V = MapTenantV;

    open spec fn view(&self) -> MapTenantV {
        MapTenantV {
            id: self.id@,
            name: self.name@,
            slug: self.slug@,
            plan: self.plan@,
            health: self.health@,
            health_label: self.health_label@,
            mrr: self.mrr@,
            lat_e4: self.lat_e4 as int,
            lng_e4: self.lng_e4 as int,
            location: self.location@,
        }
    }
}

pub open spec fn tenants_view(v: Seq<MapTenant>) -> Seq<MapTenantV> {
    Seq::new(v.len(), |k: int| v[k]@)
}

pub open spec fn tenant_v(
    id: Seq<char>,
    name: Seq<char>,
    slug: Seq<char>,
    plan: Seq<char>,
    health: Seq<char>,
    health_label: Seq<char>,
    mrr: Seq<char>,
    lat_e4: int,
    lng_e4: int,
    location: Seq<char>,
) -> MapTenantV {
    MapTenantV { id, name, slug, plan, health, health_label, mrr, lat_e4, lng_e4, location }
}

/// The number of demo tenants.
pub open spec fn mock_count() -> int {
    6
}

/// The demo tenant at position `k`.
pub open spec fn mock_tenant(k: int) -> MapTenantV {
    if k == 0 {
        tenant_v(
            "t1"@,
            "Nexus Property Group"@,
            "nexus-property-group"@,
            "enterprise"@,
            "good"@,
            "● Healthy"@,
            "$4,800"@,
            257617,
            -801918,
            "Miami, FL"@,
        )
    } else if k == 1 {
        tenant_v(
            "t2"@,
            "Biscayne STR Partners"@,
            "biscayne-str-partners"@,
            "growth"@,
            "good"@,
            "● Healthy"@,
            "$1,800"@,
            257906,
            -801300,
            "Miami Beach, FL"@,
        )
    } else if k == 2 {
        tenant_v(
            "t3"@,
            "Leira Chicago PM"@,
            "leira-chicago"@,
            "starter"@,
            "warning"@,
            "⚠ SLA Warning"@,
            "$850"@,
            418781,
            -876298,
            "Chicago, IL"@,
        )
    } else if k == 3 {
        tenant_v(
            "t4"@,
            "Harbor Media Corp"@,
            "harbor-media"@,
            "starter"@,
            "good"@,
            "● Healthy"@,
            "$600"@,
            407128,
            -740060,
            "New York, NY"@,
        )
    } else if k == 4 {
        tenant_v(
            "t5"@,
            "Nexus Brasil Administradora"@,
            "nexus-brasil"@,
            "enterprise"@,
            "good"@,
            "● Healthy"@,
            "$5,100"@,
            -235505,
            -466333,
            "São Paulo, BR"@,
        )
    } else {
        tenant_v(
            "t6"@,
            "Blue Ridge Holdings"@,
            "blue-ridge-holdings"@,
            "enterprise"@,
            "critical"@,
            "⚡ Outage"@,
            "$4,500"@,
            397392,
            -1049903,
            "Denver, CO"@,
        )
    }
}

fn make_tenant(
    id: &str,
    name: &str,
    slug: &str,
    plan: &str,
    health: &str,
    health_label: &str,
    mrr: &str,
    lat_e4: i64,
    lng_e4: i64,
    location: &str,
) -> (res: MapTenant)
    ensures
        res@ == tenant_v(
            id@,
            name@,
            slug@,
            plan@,
            health@,
            health_label@,
            mrr@,
            lat_e4 as int,
            lng_e4 as int,
            location@,
        ),
{
    MapTenant {
        id: owned(id),
        name: owned(name),
        slug: owned(slug),
        plan: owned(plan),
        health: owned(health),
        health_label: owned(health_label),
        mrr: owned(mrr),
        lat_e4,
        lng_e4,
        location: owned(location),
    }
}

/// The demo tenants the map shows besides the real applications.
pub fn get_mock_tenants() -> (res: Vec<MapTenant>)
    ensures
        tenants_view(res@) == Seq::new(mock_count() as nat, |k: int| mock_tenant(k)),
        is_mock_list(res@),
{
    let mut v: Vec<MapTenant> = Vec::new();
    v.push(
        make_tenant(
            "t1",
            "Nexus Property Group",
            "nexus-property-group",
            "enterprise",
            "good",
            "● Healthy",
            "$4,800",
            257617,
            -801918,
            "Miami, FL",
        ),
    );
    v.push(
        make_tenant(
            "t2",
            "Biscayne STR Partners",
            "biscayne-str-partners",
            "growth",
            "good",
            "● Healthy",
            "$1,800",
            257906,
            -801300,
            "Miami Beach, FL",
        ),
    );
    v.push(
        make_tenant(
            "t3",
            "Leira Chicago PM",
            "leira-chicago",
            "starter",
            "warning",
            "⚠ SLA Warning",
            "$850",
            418781,
            -876298,
            "Chicago, IL",
        ),
    );
    v.push(
        make_tenant(
            "t4",
            "Harbor Media Corp",
            "harbor-media",
            "starter",
            "good",
            "● Healthy",
            "$600",
            407128,
            -740060,
            "New York, NY",
        ),
    );
    v.push(
        make_tenant(
            "t5",
            "Nexus Brasil Administradora",
            "nexus-brasil",
            "enterprise",
            "good",
            "● Healthy",
            "$5,100",
            -235505,
            -466333,
            "São Paulo, BR",
        ),
    );
    v.push(
        make_tenant(
            "t6",
            "Blue Ridge Holdings",
            "blue-ridge-holdings",
            "enterprise",
            "critical",
            "⚡ Outage",
            "$4,500",
            397392,
            -1049903,
            "Denver, CO",
        ),
    );
    assert(tenants_view(v@) =~= Seq::new(mock_count() as nat, |k: int| mock_tenant(k)));
    v
}

/// A list that holds the demo tenants, in order.
pub open spec fn is_mock_list(v: Seq<MapTenant>) -> bool {
    &&& v.len() == mock_count()
    &&& forall|k: int| 0 <= k < mock_count() ==> (#[trigger] v[k])@ == mock_tenant(k)
}

// ── merging the real applications ────────────────────────────────────────────

/// A real application as the directory lists it.
#[derive(Debug, PartialEq)]
pub struct AppSummary {
    pub tenant_id: String,
    pub name: String,
    pub site_status: String,
}

/// The slug a real application's name gives: lower case, spaces as dashes.
pub open spec fn real_slug(name: Seq<char>) -> Seq<char> {
    replace_spec(lowercase_text(name), ' ', '-')
}

/// Whether demo tenant `k` stands for an application of that name: same slug,
/// or the same name in lower case.
pub open spec fn mock_matches(k: int, name: Seq<char>) -> bool {
    mock_tenant(k).slug == real_slug(name) || lowercase_text(mock_tenant(k).name)
        == lowercase_text(name)
}

/// The first demo tenant from `k` on that stands for an application of that name.
pub open spec fn first_mock_from(name: Seq<char>, k: int) -> Option<int>
    decreases mock_count() - k,
{
    if k >= mock_count() {
        None
    } else if mock_matches(k, name) {
        Some(k)
    } else {
        first_mock_from(name, k + 1)
    }
}

/// The demo tenant an application of that name takes over, if any.
pub open spec fn first_mock(name: Seq<char>) -> Option<int> {
    first_mock_from(name, 0)
}

/// A status that puts a taken-over demo tenant down.
pub open spec fn status_down(status: Seq<char>) -> bool {
    lowercase_text(status) == "suspended"@ || lowercase_text(status) == "stopped"@
}

/// The health and its label for an application that takes over no demo tenant.
pub open spec fn new_health(status: Seq<char>) -> (Seq<char>, Seq<char>) {
    let l = lowercase_text(status);
    if l == "active"@ || l == "running"@ {
        ("good"@, "● Healthy"@)
    } else if l == "warning"@ {
        ("warning"@, "⚠ SLA Warning"@)
    } else {
        ("critical"@, "⚡ Outage"@)
    }
}

/// The map item of the `i`-th real application: the demo tenant it takes over
/// under its own id (down when its status says so), or a starter tenant placed
/// on a small grid in the US sandbox.
pub open spec fn merged_item(r: AppSummary, i: int) -> MapTenantV {
    match first_mock(r.name@) {
        Some(k) => {
            let m = mock_tenant(k);
            let down = status_down(r.site_status@);
            tenant_v(
                r.tenant_id@,
                m.name,
                m.slug,
                m.plan,
                if down {
                    "critical"@
                } else {
                    m.health
                },
                if down {
                    "⚡ Outage"@
                } else {
                    m.health_label
                },
                m.mrr,
                m.lat_e4,
                m.lng_e4,
                m.location,
            )
        },
        None => tenant_v(
            r.tenant_id@,
            r.name@,
            real_slug(r.name@),
            "starter"@,
            new_health(r.site_status@).0,
            new_health(r.site_status@).1,
            "$0"@,
            350000 + 15000 * (i % 5),
            -950000 - 20000 * (i % 3),
            "US Sandbox"@,
        ),
    }
}

/// Some of the first `n` applications takes over demo tenant `k`.
pub open spec fn mock_used(reals: Seq<AppSummary>, n: int, k: int) -> bool {
    exists|j: int| 0 <= j < n && #[trigger] first_mock(reals[j].name@) == Some(k)
}

pub open spec fn unused_pred(reals: Seq<AppSummary>) -> spec_fn(int) -> bool {
    |k: int| !mock_used(reals, reals.len() as int, k)
}

/// The demo tenants no application takes over, in order.
pub open spec fn unused_mocks(reals: Seq<AppSummary>) -> Seq<MapTenantV> {
    let pw = positions_where(mock_count() as nat, unused_pred(reals));
    Seq::new(pw.len(), |j: int| mock_tenant(pw[j] as int))
}

/// The map: one item per real application, in order, then the demo tenants
/// that no application took over.
pub open spec fn merged_spec(reals: Seq<AppSummary>) -> Seq<MapTenantV> {
    Seq::new(reals.len(), |i: int| merged_item(reals[i], i)) + unused_mocks(reals)
}

fn copy_tenant(t: &MapTenant) -> (res: MapTenant)
    ensures
        res@ == t@,
{
    MapTenant {
        id: owned(t.id.as_str()),
        name: owned(t.name.as_str()),
        slug: owned(t.slug.as_str()),
        plan: owned(t.plan.as_str()),
        health: owned(t.health.as_str()),
        health_label: owned(t.health_label.as_str()),
        mrr: owned(t.mrr.as_str()),
        lat_e4: t.lat_e4,
        lng_e4: t.lng_e4,
        location: owned(t.location.as_str()),
    }
}

fn health_of_status(status: &str) -> (res: (&'static str, &'static str))
    ensures
        (res.0@, res.1@) == new_health(status@),
{
    let l = to_lowercase(status);
    if str_eq(l.as_str(), "active") || str_eq(l.as_str(), "running") {
        ("good", "● Healthy")
    } else if str_eq(l.as_str(), "warning") {
        ("warning", "⚠ SLA Warning")
    } else {
        ("critical", "⚡ Outage")
    }
}

proof fn lemma_first_mock_from(name: Seq<char>, k: int)
    requires
        0 <= k,
    ensures
        first_mock_from(name, k) matches Some(f) ==> k <= f < mock_count() && mock_matches(f, name),
    decreases mock_count() - k,
{
    if k < mock_count() && !mock_matches(k, name) {
        lemma_first_mock_from(name, k + 1);
    }
}

fn find_mock(mocks: &Vec<MapTenant>, name: &str) -> (res: Option<usize>)
    requires
        is_mock_list(mocks@),
    ensures
        match res {
            Some(k) => first_mock(name@) == Some(k as int) && k < mock_count(),
            None => first_mock(name@) is None,
        },
{
    proof {
        lemma_first_mock_from(name@, 0);
    }
    let lower = to_lowercase(name);
    let slug = replace_char(lower.as_str(), ' ', '-');
    let mut k: usize = 0;
    let mut found: Option<usize> = None;
    while k < mocks.len() && found.is_none()
        invariant
            is_mock_list(mocks@),
            k <= mocks@.len(),
            lower@ == lowercase_text(name@),
            slug@ == real_slug(name@),
            found is None ==> first_mock(name@) == first_mock_from(name@, k as int),
            found matches Some(f) ==> first_mock(name@) == Some(f as int),
        decreases mocks.len() - k + (if found is None { 1int } else { 0 }),
    {
        let m = &mocks[k];
        assert(m@ == mock_tenant(k as int));
        let mock_lower = to_lowercase(m.name.as_str());
        if str_eq(m.slug.as_str(), slug.as_str()) || str_eq(mock_lower.as_str(), lower.as_str()) {
            found = Some(k);
        } else {
            k = k + 1;
        }
    }
    found
}

/// The map's tenants: the real applications merged into the demo tenants.
pub fn merge_real_and_mock(real_apps: &Vec<AppSummary>) -> (res: Vec<MapTenant>)
    ensures
        tenants_view(res@) == merged_spec(real_apps@),
{
    let mocks = get_mock_tenants();
    let ghost reals = real_apps@;
    let mut result: Vec<MapTenant> = Vec::new();
    let mut matched: HashSet<usize> = HashSet::new();
    let mut i: usize = 0;
    while i < real_apps.len()
        invariant
            reals == real_apps@,
            is_mock_list(mocks@),
            i <= real_apps.len(),
            forall|k: int| 0 <= k < mock_count() ==> (#[trigger] matched@.contains(k as usize) <==> mock_used(reals, i as int, k)),
            tenants_view(result@) == Seq::new(i as nat, |j: int| merged_item(reals[j], j)),
        decreases real_apps.len() - i,
    {
        let r = &real_apps[i];
        let ghost before = tenants_view(result@);
        let ghost matched_before = matched@;
        match find_mock(&mocks, r.name.as_str()) {
            Some(f) => {
                let m = &mocks[f];
                assert(m@ == mock_tenant(f as int));
                let status = to_lowercase(r.site_status.as_str());
                let down = str_eq(status.as_str(), "suspended") || str_eq(status.as_str(), "stopped");
                let item = MapTenant {
                    id: owned(r.tenant_id.as_str()),
                    name: owned(m.name.as_str()),
                    slug: owned(m.slug.as_str()),
                    plan: owned(m.plan.as_str()),
                    health: if down { owned("critical") } else { owned(m.health.as_str()) },
                    health_label: if down { owned("⚡ Outage") } else { owned(m.health_label.as_str()) },
                    mrr: owned(m.mrr.as_str()),
                    lat_e4: m.lat_e4,
                    lng_e4: m.lng_e4,
                    location: owned(m.location.as_str()),
                };
                assert(item@ == merged_item(reals[i as int], i as int));
                result.push(item);
                assert(tenants_view(result@) =~= before.push(merged_item(reals[i as int], i as int)));
                matched.insert(f);
                assert forall|k: int| 0 <= k < mock_count() implies (#[trigger] matched@.contains(k as usize) <==> mock_used(
                    reals,
                    i + 1,
                    k,
                )) by {
                    if k == f {
                        assert(first_mock(reals[i as int].name@) == Some(k));
                    } else {
                        assert(matched@.contains(k as usize) == matched_before.contains(k as usize));
                        if mock_used(reals, i + 1, k) {
                            let j = choose|j: int| 0 <= j < i + 1 && #[trigger] first_mock(reals[j].name@) == Some(k);
                            assert(j != i);
                        }
                    }
                }
            },
            None => {
                let (health, label) = health_of_status(r.site_status.as_str());
                let lower = to_lowercase(r.name.as_str());
                let slug = replace_char(lower.as_str(), ' ', '-');
                let lat: i64 = 350000 + 15000 * ((i % 5) as i64);
                let lng: i64 = -950000 - 20000 * ((i % 3) as i64);
                let item = MapTenant {
                    id: owned(r.tenant_id.as_str()),
                    name: owned(r.name.as_str()),
                    slug,
                    plan: owned("starter"),
                    health: owned(health),
                    health_label: owned(label),
                    mrr: owned("$0"),
                    lat_e4: lat,
                    lng_e4: lng,
                    location: owned("US Sandbox"),
                };
                assert(item@ == merged_item(reals[i as int], i as int));
                result.push(item);
                assert(tenants_view(result@) =~= before.push(merged_item(reals[i as int], i as int)));
                assert forall|k: int| 0 <= k < mock_count() implies (#[trigger] matched@.contains(k as usize) <==> mock_used(
                    reals,
                    i + 1,
                    k,
                )) by {
                    if mock_used(reals, i + 1, k) {
                        let j = choose|j: int| 0 <= j < i + 1 && #[trigger] first_mock(reals[j].name@) == Some(k);
                        assert(j != i);
                    }
                }
            },
        }
        assert(tenants_view(result@) =~= Seq::new((i + 1) as nat, |j: int| merged_item(reals[j], j)));
        i = i + 1;
    }
    let ghost head = tenants_view(result@);
    let ghost p = unused_pred(reals);
    let mut k: usize = 0;
    while k < mocks.len()
        invariant
            reals == real_apps@,
            i == real_apps@.len(),
            is_mock_list(mocks@),
            k <= mocks.len(),
            forall|k: int| 0 <= k < mock_count() ==> (#[trigger] matched@.contains(k as usize) <==> mock_used(reals, i as int, k)),
            p == unused_pred(reals),
            head == Seq::new(i as nat, |j: int| merged_item(reals[j], j)),
            tenants_view(result@) == head + Seq::new(
                positions_where(k as nat, p).len(),
                |j: int| mock_tenant(positions_where(k as nat, p)[j] as int),
            ),
        decreases mocks.len() - k,
    {
        let ghost pw = positions_where(k as nat, p);
        let ghost before = tenants_view(result@);
        if !matched.contains(&k) {
            assert(mocks@[k as int]@ == mock_tenant(k as int));
            result.push(copy_tenant(&mocks[k]));
            assert(tenants_view(result@) =~= before.push(mock_tenant(k as int)));
            assert(positions_where((k + 1) as nat, p) == pw.push(k as usize));
        } else {
            assert(positions_where((k + 1) as nat, p) == pw);
        }
        assert(tenants_view(result@) =~= head + Seq::new(
            positions_where((k + 1) as nat, p).len(),
            |j: int| mock_tenant(positions_where((k + 1) as nat, p)[j] as int),
        ));
        k = k + 1;
    }
    result
}

/// Nothing is lost in the merge: every real application is on the map, in
/// order and under its own id, and every demo tenant is either taken over by
/// an application or on the map after them, once.
pub proof fn law_merge_keeps_everyone(reals: Seq<AppSummary>)
    ensures
        merged_spec(reals).len() == reals.len() + unused_mocks(reals).len(),
        unused_mocks(reals).len() <= mock_count(),
        forall|i: int| 0 <= i < reals.len() ==> (#[trigger] merged_spec(reals)[i]).id == reals[i].tenant_id@,
        forall|k: int|
            0 <= k < mock_count() ==> mock_used(reals, reals.len() as int, k) || #[trigger] unused_mocks(
                reals,
            ).contains(mock_tenant(k)),
{
    let p = unused_pred(reals);
    law_positions_exact(mock_count() as nat, p);
    let pw = positions_where(mock_count() as nat, p);
    assert forall|i: int| 0 <= i < reals.len() implies (#[trigger] merged_spec(reals)[i]).id
        == reals[i].tenant_id@ by {
        assert(merged_spec(reals)[i] == merged_item(reals[i], i));
    }
    assert forall|k: int|
        0 <= k < mock_count() implies mock_used(reals, reals.len() as int, k) || #[trigger] unused_mocks(
            reals,
        ).contains(mock_tenant(k)) by {
        if !mock_used(reals, reals.len() as int, k) {
            assert(p(k));
            assert(pw.contains(k as usize));
            let j = choose|j: int| 0 <= j < pw.len() && pw[j] == k as usize;
            assert(unused_mocks(reals)[j] == mock_tenant(k));
        }
    }
}

// ── the sidebar ──────────────────────────────────────────────────────────────

/// Whether the sidebar lists a tenant under a plan filter and a health filter
/// (`all` lets every value through).
pub open spec fn tenant_shown(plan: Seq<char>, health: Seq<char>, t: MapTenantV) -> bool {
    (plan == "all"@ || t.plan == plan) && (health == "all"@ || t.health == health)
}

pub open spec fn tenant_pred(ts: Seq<MapTenant>, plan: Seq<char>, health: Seq<char>) -> spec_fn(
    int,
) -> bool {
    |i: int| tenant_shown(plan, health, ts[i]@)
}

/// The positions of the tenants the sidebar lists, in order.
pub fn filter_tenants(tenants: &Vec<MapTenant>, plan: &str, health: &str) -> (res: Vec<usize>)
    ensures
        res@ == positions_where(tenants@.len(), tenant_pred(tenants@, plan@, health@)),
{
    let ghost p = tenant_pred(tenants@, plan@, health@);
    let all_plans = str_eq(plan, "all");
    let all_health = str_eq(health, "all");
    let mut out: Vec<usize> = Vec::new();
    let mut i: usize = 0;
    while i < tenants.len()
        invariant
            i <= tenants.len(),
            p == tenant_pred(tenants@, plan@, health@),
            all_plans == (plan@ == "all"@),
            all_health == (health@ == "all"@),
            out@ == positions_where(i as nat, p),
        decreases tenants.len() - i,
    {
        let t = &tenants[i];
        if (all_plans || str_eq(t.plan.as_str(), plan)) && (all_health || str_eq(
            t.health.as_str(),
            health,
        )) {
            out.push(i);
        }
        i = i + 1;
    }
    out
}

/// The ids of the tenants the sidebar lists, in order (the map shows those
/// markers only).
pub fn visible_ids(tenants: &Vec<MapTenant>, plan: &str, health: &str) -> (res: Vec<String>)
    ensures
        res@.len() == positions_where(tenants@.len(), tenant_pred(tenants@, plan@, health@)).len(),
        forall|j: int|
            0 <= j < res@.len() ==> (#[trigger] res@[j])@ == tenants@[positions_where(
                tenants@.len(),
                tenant_pred(tenants@, plan@, health@),
            )[j] as int].id@,
{
    let shown = filter_tenants(tenants, plan, health);
    let n: usize = tenants.len();
    assert(tenants@.len() == n);
    proof {
        law_positions_exact(tenants@.len(), tenant_pred(tenants@, plan@, health@));
    }
    let mut ids: Vec<String> = Vec::new();
    let mut j: usize = 0;
    while j < shown.len()
        invariant
            j <= shown.len(),
            shown@ == positions_where(tenants@.len(), tenant_pred(tenants@, plan@, health@)),
            forall|k: int| 0 <= k < shown@.len() ==> (#[trigger] shown@[k] as int) < tenants@.len(),
            ids@.len() == j,
            forall|k: int| 0 <= k < j ==> (#[trigger] ids@[k])@ == tenants@[shown@[k] as int].id@,
        decreases shown.len() - j,
    {
        ids.push(owned(tenants[shown[j]].id.as_str()));
        j = j + 1;
    }
    ids
}

/// The first tenant with the given id.
pub fn find_tenant(tenants: &Vec<MapTenant>, id: &str) -> (res: Option<usize>)
    ensures
        match res {
            Some(k) => k < tenants@.len() && tenants@[k as int].id@ == id@ && forall|j: int|
                0 <= j < k ==> tenants@[j].id@ != id@,
            None => forall|j: int| 0 <= j < tenants@.len() ==> tenants@[j].id@ != id@,
        },
{
    let mut k: usize = 0;
    while k < tenants.len()
        invariant
            k <= tenants.len(),
            forall|j: int| 0 <= j < k ==> tenants@[j].id@ != id@,
        decreases tenants.len() - k,
    {
        if str_eq(tenants[k].id.as_str(), id) {
            return Some(k);
        }
        k = k + 1;
    }
    None
}

pub open spec fn health_color_spec(health: Seq<char>) -> Seq<char> {
    if health == "good"@ {
        "text-[#c6fff3]"@
    } else if health == "warning"@ {
        "text-amber-400"@
    } else {
        "text-[#ee7d77]"@
    }
}

/// The color of a tenant's health label.
pub fn health_color(health: &str) -> (res: &'static str)
    ensures
        res@ == health_color_spec(health@),
{
    if str_eq(health, "good") {
        "text-[#c6fff3]"
    } else if str_eq(health, "warning") {
        "text-amber-400"
    } else {
        "text-[#ee7d77]"
    }
}

pub open spec fn plan_badge_spec(plan: Seq<char>) -> Seq<char> {
    if plan == "enterprise"@ {
        "bg-[#7C3AED]/10 text-[#a78bfa] border-[#7C3AED]/20"@
    } else if plan == "growth"@ {
        "bg-[#c6fff3]/10 text-[#c6fff3] border-[#c6fff3]/20"@
    } else {
        "bg-surface-container-high/40 text-on-surface-variant border-outline-variant/30"@
    }
}

/// The style of a tenant's plan badge.
pub fn plan_badge_class(plan: &str) -> (res: &'static str)
    ensures
        res@ == plan_badge_spec(plan@),
{
    if str_eq(plan, "enterprise") {
        "bg-[#7C3AED]/10 text-[#a78bfa] border-[#7C3AED]/20"
    } else if str_eq(plan, "growth") {
        "bg-[#c6fff3]/10 text-[#c6fff3] border-[#c6fff3]/20"
    } else {
        "bg-surface-container-high/40 text-on-surface-variant border-outline-variant/30"
    }
}

/// The style of a sidebar card, selected or not.
pub fn tenant_card_class(selected: bool) -> (res: &'static str)
    ensures
        selected ==> res@ == "bg-[#05183c] border-[#7bd0ff] ring-1 ring-[#7bd0ff] shadow-sm shadow-[#7bd0ff]/5"@,
        !selected ==> res@ == "bg-[#05183c]/30 hover:bg-[#05183c]/60 border-outline-variant/10"@,
{
    if selected {
        "bg-[#05183c] border-[#7bd0ff] ring-1 ring-[#7bd0ff] shadow-sm shadow-[#7bd0ff]/5"
    } else {
        "bg-[#05183c]/30 hover:bg-[#05183c]/60 border-outline-variant/10"
    }
}

/// The warning shown when an operator impersonates a tenant.
pub fn impersonation_notice(slug: &str) -> (res: String)
    ensures
        res@ == "⚠ Impersonating "@ + slug@ + " — audit logged"@,
{
    concat3("⚠ Impersonating ", slug, " — audit logged")
}

/// Confirm pressed in the impersonation dialog, with the tenant chosen (its
/// slug): with none chosen nothing happens; otherwise the dialog closes and
/// the warning is shown. Gives whether the dialog is open and the toast.
pub fn confirm_impersonate(selected_slug: Option<&str>, dialog_open: bool) -> (res: (bool, Option<Toast>))
    ensures
        selected_slug is None ==> res.0 == dialog_open && res.1 is None,
        selected_slug matches Some(slug) ==> !res.0 && (res.1 matches Some(t) && toast_is(
            t,
            "Warning"@,
            "⚠ Impersonating "@ + slug@ + " — audit logged"@,
            "warn"@,
        )),
{
    match selected_slug {
        Some(slug) => (false, Some(toast("Warning", impersonation_notice(slug), "warn"))),
        None => (dialog_open, None),
    }
}

/// The count badge of the sidebar.
pub fn ni_count_label(n: usize) -> (res: String)
    ensures
        res@ == nat_digits(n as nat) + " NIs"@,
{
    let d = decimal_unsigned(n as u64);
    concat2(d.as_str(), " NIs")
}

/// Where a real application lands on the map: one that takes over no demo
/// tenant becomes a starter tenant under its own id and name, healthy
/// ("good", "● Healthy") when its lower-cased status is "active" or "running",
/// on SLA warning when it is "warning", and down ("critical", "⚡ Outage")
/// otherwise; one that takes over a demo tenant keeps that tenant's name and
/// health under its own id, and is down when its lower-cased status is
/// "suspended" or "stopped".
pub proof fn law_merged_health(reals: Seq<AppSummary>, i: int)
    requires
        0 <= i < reals.len(),
    ensures
        ({
            let t = merged_spec(reals)[i];
            let l = lowercase_text(reals[i].site_status@);
            &&& t.id == reals[i].tenant_id@
            &&& first_mock(reals[i].name@) is None ==> {
                &&& t.name == reals[i].name@
                &&& t.plan == "starter"@
                &&& t.mrr == "$0"@
                &&& (l == "active"@ || l == "running"@) ==> t.health == "good"@ && t.health_label
                    == "● Healthy"@
                &&& l == "warning"@ ==> t.health == "warning"@ && t.health_label == "⚠ SLA Warning"@
                &&& !(l == "active"@ || l == "running"@ || l == "warning"@) ==> t.health
                    == "critical"@ && t.health_label == "⚡ Outage"@
            }
            &&& first_mock(reals[i].name@) matches Some(k) ==> {
                &&& t.name == mock_tenant(k).name
                &&& (l == "suspended"@ || l == "stopped"@) ==> t.health == "critical"@ && t.health_label
                    == "⚡ Outage"@
                &&& !(l == "suspended"@ || l == "stopped"@) ==> t.health == mock_tenant(k).health
                    && t.health_label == mock_tenant(k).health_label
            }
        }),
{
    reveal_strlit("warning");
    reveal_strlit("active");
    reveal_strlit("running");
    assert("warning"@.len() != "active"@.len());
    assert("warning"@[0] != "running"@[0]);
    assert(merged_spec(reals)[i] == merged_item(reals[i], i));
}

/// The sidebar lists a tenant exactly when its plan is the chosen one (or the
/// plan filter is "all") and its health is the chosen one (or the health
/// filter is "all").
pub proof fn law_sidebar_filter(tenants: Seq<MapTenant>, plan: Seq<char>, health: Seq<char>, i: int)
    requires
        0 <= i < tenants.len(),
        tenants.len() <= usize::MAX,
    ensures
        positions_where(tenants.len(), tenant_pred(tenants, plan, health)).contains(i as usize) <==> (
        (plan == "all"@ || tenants[i].plan@ == plan) && (health == "all"@ || tenants[i].health@ == health)),
{
    let p = tenant_pred(tenants, plan, health);
    law_positions_exact(tenants.len() as nat, p);
    let pw = positions_where(tenants.len() as nat, p);
    if pw.contains(i as usize) {
        let k = choose|k: int| 0 <= k < pw.len() && pw[k] == i as usize;
        assert(p(pw[k] as int));
    } else if p(i) {
        assert(pw.contains(i as usize));
    }
    assert(p(i) == tenant_shown(plan, health, tenants[i]@));
}

} // verus!

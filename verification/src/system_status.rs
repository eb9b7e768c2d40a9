//! The system status page: health labels and colors, byte sizes, the build
//! line and the page's small texts.
use vstd::prelude::*;
use crate::text::{
    owned, concat2, concat3, append, take_chars, take_spec, decimal, decimal_spec, decimal_unsigned,
    nat_digits, opt_view,
};

verus! {

/// The health of a service, an application or a domain.
#[derive(PartialEq, Eq, Structural, Clone, Copy, Debug)]
pub enum HealthStatus {
    Healthy,
    Degraded,
    Down,
    Unknown,
}

/// The word for a health.
pub fn status_label(s: &HealthStatus) -> (res: &'static str)
    ensures
        *s == HealthStatus::Healthy ==> res@ == "healthy"@,
        *s == HealthStatus::Degraded ==> res@ == "degraded"@,
        *s == HealthStatus::Down ==> res@ == "down"@,
        *s == HealthStatus::Unknown ==> res@ == "unknown"@,
{
    match s {
        HealthStatus::Healthy => "healthy",
        HealthStatus::Degraded => "degraded",
        HealthStatus::Down => "down",
        HealthStatus::Unknown => "unknown",
    }
}

/// The color of a health.
pub fn status_color(s: &HealthStatus) -> (res: &'static str)
    ensures
        *s == HealthStatus::Healthy ==> res@ == "var(--green, #1b7f4e)"@,
        *s == HealthStatus::Degraded ==> res@ == "var(--amber, #b86e00)"@,
        *s == HealthStatus::Down ==> res@ == "var(--red, #c0392b)"@,
        *s == HealthStatus::Unknown ==> res@ == "var(--text-muted)"@,
{
    match s {
        HealthStatus::Healthy => "var(--green, #1b7f4e)",
        HealthStatus::Degraded => "var(--amber, #b86e00)",
        HealthStatus::Down => "var(--red, #c0392b)",
        HealthStatus::Unknown => "var(--text-muted)",
    }
}

/// The unit a byte count is shown in. The three larger units carry the count
/// itself; the display divides it by the unit and shows one decimal.
#[derive(PartialEq, Eq, Structural, Clone, Copy, Debug)]
pub enum ByteSize {
    Missing,
    Bytes(i64),
    KiB(i64),
    MiB(i64),
    GiB(i64),
}

/// The unit of a byte count: GiB from 2^30 bytes, MiB from 2^20, KiB from
/// 2^10, else plain bytes.
pub open spec fn byte_size_spec(bytes: Option<i64>) -> ByteSize {
    match bytes {
        Some(b) => if b >= 1_073_741_824 {
            ByteSize::GiB(b)
        } else if b >= 1_048_576 {
            ByteSize::MiB(b)
        } else if b >= 1024 {
            ByteSize::KiB(b)
        } else {
            ByteSize::Bytes(b)
        },
        None => ByteSize::Missing,
    }
}

/// The unit a byte count is shown in.
pub fn byte_size(bytes: Option<i64>) -> (res: ByteSize)
    ensures
        res == byte_size_spec(bytes),
{
    match bytes {
        Some(b) => if b >= 1_073_741_824 {
            ByteSize::GiB(b)
        } else if b >= 1_048_576 {
            ByteSize::MiB(b)
        } else if b >= 1024 {
            ByteSize::KiB(b)
        } else {
            ByteSize::Bytes(b)
        },
        None => ByteSize::Missing,
    }
}

/// The text of a count below one KiB, or of a missing count.
pub fn small_size_text(size: ByteSize) -> (res: Option<String>)
    ensures
        size == ByteSize::Missing ==> opt_view(res) == Some("—"@),
        size matches ByteSize::Bytes(b) ==> opt_view(res) == Some(decimal_spec(b as int) + " B"@),
        (size is KiB || size is MiB || size is GiB) ==> res is None,
{
    match size {
        ByteSize::Missing => Some(owned("—")),
        ByteSize::Bytes(b) => {
            let d = decimal(b);
            Some(concat2(d.as_str(), " B"))
        },
        _ => None,
    }
}

/// What kind of next step the page suggests.
#[derive(PartialEq, Eq, Structural, Clone, Copy, Debug)]
pub enum NextStepKind {
    Warning,
    Action,
    Info,
}

/// The word for a kind of next step.
pub fn next_step_label(kind: NextStepKind) -> (res: &'static str)
    ensures
        kind == NextStepKind::Warning ==> res@ == "warning"@,
        kind == NextStepKind::Action ==> res@ == "action"@,
        kind == NextStepKind::Info ==> res@ == "info"@,
{
    match kind {
        NextStepKind::Warning => "warning",
        NextStepKind::Action => "action",
        NextStepKind::Info => "info",
    }
}

/// The build line: the version and the first seven characters of the build's
/// commit hash.
pub fn version_label(version: &str, build_sha: &str) -> (res: String)
    ensures
        res@ == "v"@ + version@ + "+"@ + take_spec(build_sha@, 7),
{
    let sha = take_chars(build_sha, 7);
    let mut s = concat3("v", version, "+");
    append(&mut s, sha.as_str());
    s
}

/// The environment tag.
pub fn env_label(env: &str) -> (res: String)
    ensures
        res@ == "env="@ + env@,
{
    concat2("env=", env)
}

/// When the snapshot was collected.
pub fn collected_label(collected_at: &str) -> (res: String)
    ensures
        res@ == "collected "@ + collected_at@,
{
    concat2("collected ", collected_at)
}

/// The backend line: its health, latency and message.
pub fn backend_line(status: &HealthStatus, latency_ms: u64, message: &str) -> (res: String)
    ensures
        res@ == status_word(*status) + " · "@ + nat_digits(latency_ms as nat) + "ms · "@ + message@,
{
    let mut s = concat2(status_label(status), " · ");
    let ms = decimal_unsigned(latency_ms);
    append(&mut s, ms.as_str());
    append(&mut s, "ms · ");
    append(&mut s, message);
    s
}

pub open spec fn status_word(s: HealthStatus) -> Seq<char> {
    match s {
        HealthStatus::Healthy => "healthy"@,
        HealthStatus::Degraded => "degraded"@,
        HealthStatus::Down => "down"@,
        HealthStatus::Unknown => "unknown"@,
    }
}

/// A tenant's line in the hierarchy: its site status and health.
pub fn tenant_status_line(site_status: &str, status: &HealthStatus) -> (res: String)
    ensures
        res@ == site_status@ + " · "@ + status_word(*status),
{
    concat3(site_status, " · ", status_label(status))
}

/// A domain's latency, when it was measured.
pub fn latency_suffix(latency_ms: Option<u64>) -> (res: String)
    ensures
        res@ == match latency_ms {
            Some(ms) => " · "@ + nat_digits(ms as nat) + "ms"@,
            None => Seq::<char>::empty(),
        },
{
    match latency_ms {
        Some(ms) => {
            let d = decimal_unsigned(ms);
            concat3(" · ", d.as_str(), "ms")
        },
        None => String::new(),
    }
}

/// The database version shown: at most its first 80 characters, a dash when
/// unknown.
pub fn db_version_text(db_version: Option<String>) -> (res: String)
    ensures
        res@ == take_spec(
            match db_version {
                Some(v) => v@,
                None => "—"@,
            },
            80,
        ),
{
    let v = match db_version {
        Some(v) => v,
        None => owned("—"),
    };
    take_chars(v.as_str(), 80)
}

/// The database sessions shown (a dash when unknown).
pub fn sessions_text(sessions: Option<i64>) -> (res: String)
    ensures
        res@ == match sessions {
            Some(n) => decimal_spec(n as int),
            None => "—"@,
        },
{
    match sessions {
        Some(n) => decimal(n),
        None => owned("—"),
    }
}

/// The AI queue's state.
pub fn queue_state(paused: bool) -> (res: &'static str)
    ensures
        res@ == (if paused {
            "paused"@
        } else {
            "running"@
        }),
{
    if paused {
        "paused"
    } else {
        "running"
    }
}

/// The refresh button's label.
pub fn refresh_label(loading: bool) -> (res: &'static str)
    ensures
        res@ == (if loading {
            "Refreshing…"@
        } else {
            "Refresh"@
        }),
{
    if loading {
        "Refreshing…"
    } else {
        "Refresh"
    }
}

/// The refresh counter after a tick: one more, wrapping around.
pub fn next_refresh(n: u32) -> (res: u32)
    ensures
        res == (if n == u32::MAX {
            0
        } else {
            n + 1
        }),
{
    n.wrapping_add(1)
}

} // verus!

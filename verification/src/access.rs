//! Signing in by magic link, the platform administrators list and the
//! multi-site directory form.
use vstd::prelude::*;
use vstd::string::StringSliceAdditionalSpecFns;
use crate::text::{str_eq, owned, concat2, char_len};
use crate::ids::{uuid_parse, uuid_parsed};
use crate::json::{Json, JsonV, object_of, field, as_flag};

verus! {

// ── percent-encoding ─────────────────────────────────────────────────────────

/// A byte that `urlencoding` leaves as it is: an ASCII letter or digit, `-`,
/// `.`, `_` or `~`.
pub open spec fn url_safe(b: u8) -> bool {
    (48 <= b <= 57) || (65 <= b <= 90) || (97 <= b <= 122) || b == 45 || b == 46 || b == 95 || b
        == 126
}

/// The upper-case hexadecimal digit for `d` (0 to 15).
pub open spec fn upper_hex(d: int) -> char {
    if d < 10 {
        (('0' as int) + d) as char
    } else {
        (('A' as int) + d - 10) as char
    }
}

/// Percent-encoding of bytes: safe bytes as they are, every other byte as `%`
/// and two upper-case hexadecimal digits.
pub open spec fn percent_encoded(bytes: Seq<u8>) -> Seq<char>
    decreases bytes.len(),
{
    if bytes.len() == 0 {
        seq![]
    } else {
        let b = bytes.last();
        percent_encoded(bytes.drop_last()) + if url_safe(b) {
            seq![b as char]
        } else {
            seq!['%', upper_hex((b / 16) as int), upper_hex((b % 16) as int)]
        }
    }
}

/// Calls `urlencoding::encode`, which the crate documents and writes as
/// percent-encoding of the string's UTF-8 bytes, every byte but ASCII letters,
/// digits, `-`, `.`, `_` and `~` encoded.
#[verifier::external_body]
fn url_encode(s: &str) -> (res: String)
    ensures
        res@ == percent_encoded(s.spec_bytes()),
{
    urlencoding::encode(s).into_owned()
}

// ── the magic link ───────────────────────────────────────────────────────────

/// What the sign-in page does next.
#[derive(Debug, PartialEq)]
pub enum LoginAction {
    /// Show this error and stop.
    ShowError(String),
    /// Send this body to the magic-link verification endpoint.
    Verify(Json),
    /// Keep the session, then ask this path whether the user has a passkey.
    CheckPasskey(String),
    /// Go to this page.
    Navigate(&'static str),
}

/// The first step: a missing token is an error; otherwise the token is sent
/// for verification as `{"token": ..}`.
pub fn login_start(token: String) -> (res: LoginAction)
    ensures
        token@.len() == 0 ==> (res matches LoginAction::ShowError(e) && e@
            == "Invalid or missing Magic Link token."@),
        token@.len() > 0 ==> (res matches LoginAction::Verify(body) && body@ == JsonV::Object(
            seq![("token"@, JsonV::Str(token@))],
        )),
{
    if char_len(token.as_str()) == 0 {
        return LoginAction::ShowError(owned("Invalid or missing Magic Link token."));
    }
    let mut members: Vec<(String, Json)> = Vec::new();
    members.push((owned("token"), Json::Str(token)));
    let body = object_of(members);
    assert(body@->Object_0 =~= seq![("token"@, JsonV::Str(token@))]);
    LoginAction::Verify(body)
}

/// After verification: its error is shown; a session with a user goes on to
/// the passkey check for the user's email (percent-encoded into the path); a
/// session without one goes to the dashboard.
pub fn after_verify(outcome: Result<Option<String>, String>) -> (res: LoginAction)
    ensures
        outcome matches Err(e) ==> (res matches LoginAction::ShowError(m) && m@
            == "Magic link consumption failed: "@ + e@),
        outcome matches Ok(Some(email)) ==> (res matches LoginAction::CheckPasskey(p) && p@
            == "/api/auth/flow/"@ + percent_encoded(vstd::utf8::encode_utf8(email@))),
        outcome matches Ok(None) ==> (res matches LoginAction::Navigate(to) && to@ == "/"@),
{
    match outcome {
        Err(e) => LoginAction::ShowError(concat2("Magic link consumption failed: ", e.as_str())),
        Ok(Some(email)) => {
            let encoded = url_encode(email.as_str());
            LoginAction::CheckPasskey(concat2("/api/auth/flow/", encoded.as_str()))
        },
        Ok(None) => LoginAction::Navigate("/"),
    }
}

/// After the passkey check: the dashboard when the answer says `has_passkey`
/// is true, the passkey setup otherwise; the dashboard when the check failed.
pub fn after_passkey_check(answer: Option<&Json>) -> (res: &'static str)
    ensures
        res@ == match answer {
            Some(a) => if as_flag(field(a@, "has_passkey"@)) == Some(true) {
                "/"@
            } else {
                "/setup"@
            },
            None => "/"@,
        },
{
    match answer {
        Some(a) => {
            let has = match a.get("has_passkey") {
                Some(v) => v.as_bool(),
                None => None,
            };
            match has {
                Some(true) => "/",
                _ => "/setup",
            }
        },
        None => "/",
    }
}

// ── platform administrators ──────────────────────────────────────────────────

/// The directory the user list is filtered by after a choice: none for the
/// empty choice, the chosen directory when it is a UUID, else unchanged.
pub fn directory_choice(value: &str, current: Option<u128>) -> (res: Option<u128>)
    ensures
        value@.len() == 0 ==> res is None,
        value@.len() > 0 ==> res == match uuid_parsed(value@) {
            Some(u) => Some(u),
            None => current,
        },
{
    if char_len(value) == 0 {
        None
    } else {
        match uuid_parse(value) {
            Some(u) => Some(u),
            None => current,
        }
    }
}

/// A user's badges and button: status, role and the admin toggle's label.
pub fn user_badges(is_active: bool, is_admin: bool) -> (res: (&'static str, &'static str, &'static str))
    ensures
        res.0@ == (if is_active {
            "Active"@
        } else {
            "Inactive"@
        }),
        res.1@ == (if is_admin {
            "Platform Admin"@
        } else {
            "User"@
        }),
        res.2@ == (if is_admin {
            "Revoke Admin"@
        } else {
            "Make Admin"@
        }),
{
    let status = if is_active {
        "Active"
    } else {
        "Inactive"
    };
    let role = if is_admin {
        "Platform Admin"
    } else {
        "User"
    };
    let action = if is_admin {
        "Revoke Admin"
    } else {
        "Make Admin"
    };
    (status, role, action)
}

/// The notice after the admin toggle: whose status changed, or why it failed.
pub fn admin_toggle_notice(outcome: Result<&str, &str>) -> (res: String)
    ensures
        outcome matches Ok(email) ==> res@ == "Updated admin status for "@ + email@,
        outcome matches Err(e) ==> res@ == "Failed: "@ + e@,
{
    match outcome {
        Ok(email) => concat2("Updated admin status for ", email),
        Err(e) => concat2("Failed: ", e),
    }
}

// ── multi-site directories ───────────────────────────────────────────────────

/// What the form sends to create a directory.
#[derive(Debug, PartialEq)]
pub struct CreateDirectory {
    pub name: String,
    pub domain: String,
    pub directory_type_id: String,
    pub description: String,
}

/// The directory the form creates: its name and domain, the nil directory
/// type, and the chosen theme in its description.
pub fn directory_payload(name: String, domain: String, theme: &str) -> (res: CreateDirectory)
    ensures
        res.name@ == name@,
        res.domain@ == domain@,
        res.directory_type_id@ == "00000000-0000-0000-0000-000000000000"@,
        res.description@ == "Created with theme: "@ + theme@,
{
    CreateDirectory {
        name,
        domain,
        directory_type_id: owned("00000000-0000-0000-0000-000000000000"),
        description: concat2("Created with theme: ", theme),
    }
}

/// A directory's status badge: `Active`, or its status as it is.
pub fn directory_status_badge(site_status: &str) -> (res: (bool, String))
    ensures
        res.0 == (site_status@ == "active"@),
        res.0 ==> res.1@ == "Active"@,
        !res.0 ==> res.1@ == site_status@,
{
    if str_eq(site_status, "active") {
        (true, owned("Active"))
    } else {
        (false, owned(site_status))
    }
}

/// The id of a directory card's module switch.
pub fn module_switch_id(prefix: &str, directory_id: &str) -> (res: String)
    ensures
        res@ == prefix@ + "_"@ + directory_id@,
{
    crate::text::concat3(prefix, "_", directory_id)
}

} // verus!

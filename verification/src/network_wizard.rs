//! The new-network wizard: three steps, moved through with Next and Back.
use vstd::prelude::*;
use crate::text::{trim_spec, is_blank, owned, decimal, decimal_spec};

verus! {

/// What a press of Next or Back does.
#[derive(PartialEq, Eq, Structural, Clone, Copy, Debug)]
pub enum WizardOutcome {
    /// The wizard shows this step.
    Moved(i32),
    /// Next on the first step with a blank name or slug: the wizard says so and stays.
    NeedsIdentity,
    /// Next on the last step: provisioning is not available yet; the wizard says so and stays.
    ProvisioningUnavailable,
    /// Back on the first step: the operator leaves for the network list.
    LeaveWizard,
}

/// What a press does on step `current`: `dir` 1 is Next, any other value Back.
pub open spec fn wizard_spec(current: int, dir: int, name_blank: bool, slug_blank: bool) -> WizardOutcome {
    if dir == 1 {
        if current == 1 && (name_blank || slug_blank) {
            WizardOutcome::NeedsIdentity
        } else if current == 3 {
            WizardOutcome::ProvisioningUnavailable
        } else {
            WizardOutcome::Moved((current + 1) as i32)
        }
    } else {
        if current == 1 {
            WizardOutcome::LeaveWizard
        } else {
            WizardOutcome::Moved((current - 1) as i32)
        }
    }
}

/// The toast (title, message, kind) with which the wizard answers a press
/// that does not move it; none for a press that moves it or leaves.
pub fn outcome_toast(o: WizardOutcome) -> (res: Option<(&'static str, &'static str, &'static str)>)
    ensures
        o == WizardOutcome::NeedsIdentity ==> (res matches Some(t) && t.0@ == "Validation Error"@
            && t.1@ == "Please fill out the Network Name and Slug Path."@ && t.2@ == "error"@),
        o == WizardOutcome::ProvisioningUnavailable ==> (res matches Some(t) && t.0@
            == "Provisioning Unavailable"@ && t.1@
            == "Network instance provisioning API is pending. Use the Tenant provisioning flow under Tenants > New Application."@
            && t.2@ == "error"@),
        (o is Moved || o is LeaveWizard) <==> res is None,
{
    match o {
        WizardOutcome::NeedsIdentity => Some(
            ("Validation Error", "Please fill out the Network Name and Slug Path.", "error"),
        ),
        WizardOutcome::ProvisioningUnavailable => Some(
            (
                "Provisioning Unavailable",
                "Network instance provisioning API is pending. Use the Tenant provisioning flow under Tenants > New Application.",
                "error",
            ),
        ),
        _ => None,
    }
}

/// Where the browser goes after a press: the network list when the operator
/// leaves the wizard, nowhere otherwise.
pub fn outcome_destination(o: WizardOutcome) -> (res: Option<&'static str>)
    ensures
        o is LeaveWizard ==> (res matches Some(d) && d@ == "/network"@),
        !(o is LeaveWizard) ==> res is None,
{
    match o {
        WizardOutcome::LeaveWizard => Some("/network"),
        _ => None,
    }
}

/// The wizard's answer to Next (`dir` 1) or Back on step `current`, given the
/// network name and slug typed so far.
pub fn move_step(current: i32, dir: i32, name: &str, slug: &str) -> (res: WizardOutcome)
    requires
        dir == 1 ==> current < i32::MAX,
        dir != 1 ==> current > i32::MIN,
    ensures
        res == wizard_spec(
            current as int,
            dir as int,
            trim_spec(name@).len() == 0,
            trim_spec(slug@).len() == 0,
        ),
{
    if dir == 1 {
        if current == 1 && (is_blank(name) || is_blank(slug)) {
            return WizardOutcome::NeedsIdentity;
        }
        if current == 3 {
            return WizardOutcome::ProvisioningUnavailable;
        }
        WizardOutcome::Moved(current + 1)
    } else {
        if current == 1 {
            return WizardOutcome::LeaveWizard;
        }
        WizardOutcome::Moved(current - 1)
    }
}

/// A press of Next (`dir` 1) or Back on step `current`: the step shown
/// afterwards, the toast shown, and where the browser goes. A press that is
/// refused, or that leaves, keeps the step; no provisioning request is ever
/// made from the last step.
pub fn wizard_step(current: i32, dir: i32, name: &str, slug: &str) -> (res: (
    i32,
    Option<(&'static str, &'static str, &'static str)>,
    Option<&'static str>,
))
    requires
        dir == 1 ==> current < i32::MAX,
        dir != 1 ==> current > i32::MIN,
    ensures
        ({
            let o = wizard_spec(
                current as int,
                dir as int,
                trim_spec(name@).len() == 0,
                trim_spec(slug@).len() == 0,
            );
            &&& res.0 == match o {
                WizardOutcome::Moved(n) => n,
                _ => current,
            }
            &&& (o is Moved || o is LeaveWizard) <==> res.1 is None
            &&& o is LeaveWizard ==> (res.2 matches Some(d) && d@ == "/network"@)
            &&& !(o is LeaveWizard) ==> res.2 is None
        }),
        dir == 1 && current == 1 && (trim_spec(name@).len() == 0 || trim_spec(slug@).len() == 0)
            ==> (res.1 matches Some(t) && t.0@ == "Validation Error"@),
        dir == 1 && current == 3 ==> (res.1 matches Some(t) && t.0@ == "Provisioning Unavailable"@),
{
    let o = move_step(current, dir, name, slug);
    let next = match o {
        WizardOutcome::Moved(n) => n,
        _ => current,
    };
    (next, outcome_toast(o), outcome_destination(o))
}

/// From any of the three steps, the wizard only ever moves to one of the
/// three steps.
pub proof fn law_wizard_stays_in_steps(current: int, dir: int, name_blank: bool, slug_blank: bool)
    requires
        1 <= current <= 3,
    ensures
        wizard_spec(current, dir, name_blank, slug_blank) matches WizardOutcome::Moved(n) ==> 1 <= n
            <= 3,
{
}

/// Back undoes Next: after Next moved the wizard on, Back returns to the step
/// it came from.
pub proof fn law_back_undoes_next(current: int, name_blank: bool, slug_blank: bool)
    requires
        1 <= current <= 3,
    ensures
        wizard_spec(current, 1, name_blank, slug_blank) matches WizardOutcome::Moved(n) ==> wizard_spec(
            n as int,
            -1,
            name_blank,
            slug_blank,
        ) == WizardOutcome::Moved(current as i32),
{
}

/// Next undoes Back, whatever was typed: after Back moved the wizard back,
/// Next returns to the step it came from.
pub proof fn law_next_undoes_back(current: int, name_blank: bool, slug_blank: bool)
    requires
        1 <= current <= 3,
    ensures
        wizard_spec(current, -1, name_blank, slug_blank) matches WizardOutcome::Moved(n) ==> wizard_spec(
            n as int,
            1,
            false,
            false,
        ) == WizardOutcome::Moved(current as i32),
{
}

// ── the step indicator and footer ────────────────────────────────────────────

/// How a step of the indicator is drawn.
#[derive(PartialEq, Eq, Structural, Clone, Copy, Debug)]
pub enum StepState {
    Active,
    Completed,
    Pending,
}

/// The state of indicator step `step` while the wizard shows `current`: the
/// last step is never drawn as completed.
pub open spec fn step_state_spec(current: int, step: int) -> StepState {
    if current == step {
        StepState::Active
    } else if step < 3 && current > step {
        StepState::Completed
    } else {
        StepState::Pending
    }
}

/// The state of an indicator step.
pub fn step_state(current: i32, step: i32) -> (res: StepState)
    ensures
        res == step_state_spec(current as int, step as int),
{
    if current == step {
        StepState::Active
    } else if step < 3 && current > step {
        StepState::Completed
    } else {
        StepState::Pending
    }
}

/// The label and circle styles of an indicator step.
pub fn step_classes(state: StepState) -> (res: (&'static str, &'static str))
    ensures
        state == StepState::Active ==> res.0@ == "text-primary font-bold"@ && res.1@
            == "bg-primary/10 border-primary text-primary"@,
        state == StepState::Completed ==> res.0@ == "text-emerald-400 font-bold"@ && res.1@
            == "bg-emerald-500/10 border-emerald-500 text-emerald-400"@,
        state == StepState::Pending ==> res.0@ == "text-on-surface-variant/60 font-medium"@ && res.1@
            == "bg-surface-container-highest border-outline-variant/30 text-on-surface-variant/60"@,
{
    match state {
        StepState::Active => ("text-primary font-bold", "bg-primary/10 border-primary text-primary"),
        StepState::Completed => (
            "text-emerald-400 font-bold",
            "bg-emerald-500/10 border-emerald-500 text-emerald-400",
        ),
        StepState::Pending => (
            "text-on-surface-variant/60 font-medium",
            "bg-surface-container-highest border-outline-variant/30 text-on-surface-variant/60",
        ),
    }
}

/// The footer's two buttons on a step: Cancel or Back, and Next Step or
/// Provision Network.
pub fn footer_labels(current: i32) -> (res: (&'static str, &'static str))
    ensures
        res.0@ == (if current == 1 {
            "Cancel"@
        } else {
            "Back"@
        }),
        res.1@ == (if current == 3 {
            "Provision Network"@
        } else {
            "Next Step"@
        }),
{
    let back = if current == 1 {
        "Cancel"
    } else {
        "Back"
    };
    let next = if current == 3 {
        "Provision Network"
    } else {
        "Next Step"
    };
    (back, next)
}

/// What an indicator step's circle shows: a check mark once the step is done,
/// else its number.
pub fn step_mark(current: i32, step: i32) -> (res: String)
    ensures
        step < 3 && current > step ==> res@ == "✓"@,
        !(step < 3 && current > step) ==> res@ == decimal_spec(step as int),
{
    if step < 3 && current > step {
        owned("✓")
    } else {
        decimal(step as i64)
    }
}

} // verus!

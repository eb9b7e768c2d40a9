//! The toasts the console shows after an operator's action.
use vstd::prelude::*;
use crate::text::owned;

verus! {

/// A toast: its title, its message and its kind (`success`, `error`,
/// `warning` or `info`).
#[derive(Debug, PartialEq)]
pub struct Toast {
    pub title: String,
    pub message: String,
    pub kind: String,
}

/// The toast has this title, message and kind.
pub open spec fn toast_is(t: Toast, title: Seq<char>, message: Seq<char>, kind: Seq<char>) -> bool {
    &&& t.title@ == title
    &&& t.message@ == message
    &&& t.kind@ == kind
}

/// A toast with a fixed title and kind and the given message.
pub fn toast(title: &str, message: String, kind: &str) -> (res: Toast)
    ensures
        toast_is(res, title@, message@, kind@),
{
    Toast { title: owned(title), message, kind: owned(kind) }
}

/// The toast of a request the service refused: `Error` and its reason.
pub fn error_toast(reason: String) -> (res: Toast)
    ensures
        toast_is(res, "Error"@, reason@, "error"@),
{
    toast("Error", reason, "error")
}

} // verus!

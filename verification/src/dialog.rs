//! Modal notification dialogs: a fixed title, a body, an OK button.
//! Showing a dialog is host work; this module pins down exactly which
//! dialog each path requests.

use vstd::prelude::*;

verus! {

/// The process exit status of the fatal-error path.
pub const FATAL_EXIT_CODE: i32 = 1;

/// A modal dialog request: shown with the given title and body and a
/// single OK button, blocking the calling thread until dismissed.
#[derive(Debug)]
pub struct Dialog {
    pub title: String,
    pub body: String,
}

/// The informational dialog used for key-press notifications: title
/// "Info Message", the given body.
pub fn info_dialog(body: String) -> (d: Dialog)
    ensures
        d.title@ == "Info Message"@,
        d.body == body,
{
    Dialog { title: "Info Message".to_owned(), body }
}

/// The dialog shown once before the process terminates with
/// [`FATAL_EXIT_CODE`]: title "Fatal Error!", the given body.
pub fn fatal_dialog(body: String) -> (d: Dialog)
    ensures
        d.title@ == "Fatal Error!"@,
        d.body == body,
{
    Dialog { title: "Fatal Error!".to_owned(), body }
}

} // verus!

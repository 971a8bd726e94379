//! The configuration wizard's choices: which backend kinds it offers for
//! each capability area, and which kind an interactive selection names.
//! The prompts themselves are the surrounding program's concern.

use vstd::prelude::*;

use crate::backend::BackendKind;

verus! {

/// The kinds offered as the default (retrieval) backend, in prompt order.
pub fn default_backend_kinds() -> (r: Vec<BackendKind>)
    ensures
        r@ == seq![BackendKind::Imap, BackendKind::Maildir, BackendKind::Notmuch],
{
    let mut r: Vec<BackendKind> = Vec::new();
    r.push(BackendKind::Imap);
    r.push(BackendKind::Maildir);
    r.push(BackendKind::Notmuch);
    proof {
        assert(r@ =~= seq![BackendKind::Imap, BackendKind::Maildir, BackendKind::Notmuch]);
    }
    r
}

/// The kinds offered as the message-sending backend, in prompt order.
pub fn send_message_backend_kinds() -> (r: Vec<BackendKind>)
    ensures
        r@ == seq![BackendKind::Smtp, BackendKind::Sendmail],
{
    let mut r: Vec<BackendKind> = Vec::new();
    r.push(BackendKind::Smtp);
    r.push(BackendKind::Sendmail);
    proof {
        assert(r@ =~= seq![BackendKind::Smtp, BackendKind::Sendmail]);
    }
    r
}

/// The kind an interactive selection names: the chosen entry of the offered
/// kinds, or none when the selection was dismissed or out of range.
pub fn selected_kind(kinds: &Vec<BackendKind>, choice: Option<usize>) -> (r: Option<BackendKind>)
    ensures
        r == match choice {
            Option::Some(i) => if i < kinds@.len() {
                Option::Some(kinds@[i as int])
            } else {
                Option::None
            },
            Option::None => Option::None::<BackendKind>,
        },
{
    match choice {
        Some(i) => {
            if i < kinds.len() {
                Some(kinds[i])
            } else {
                None
            }
        },
        None => None,
    }
}

} // verus!

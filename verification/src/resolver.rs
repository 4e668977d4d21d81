//! The credential resolver: ordered fallback chains over the secret sources,
//! one per authentication shape the transport may request.
//!
//! Key-based requests are answered by key discovery (`crate::keys`).
//! Password-only requests consult the secure-entry helper first and fall
//! back to the terminal. Username+password requests prompt for both, and
//! both must succeed. Every failure of a source is silent and only moves
//! the chain along; when every source is exhausted the caller sees "no
//! secret available" and the transport raises the authentication error.

use vstd::prelude::*;
use vstd::string::StringExecFns;

use crate::assuan::parse_pinentry_output;
use crate::assuan::pinentry_secret;
use crate::ui::prompt_post;
use crate::ui::Ui;

verus! {

/// The message of the username prompt for `url`.
pub open spec fn username_prompt(url: Seq<char>) -> Seq<char> {
    "Username for "@ + url
}

/// The message of the passphrase prompt for `url`.
pub open spec fn passphrase_prompt(url: Seq<char>) -> Seq<char> {
    "Passphrase for "@ + url + ": "@
}

/// Asks the operator for a username for `url`.
pub fn terminal_get_username(ui: &mut Ui, url: &str) -> (r: Option<String>)
    ensures
        prompt_post(*old(ui), *final(ui), username_prompt(url@), r),
{
    let mut message = "Username for ".to_owned();
    message.append(url);
    ui.prompt(message.as_str())
}

/// Asks the operator for a passphrase for `url`, with echo suppressed.
pub fn terminal_get_pw(ui: &mut Ui, url: &str) -> (r: Option<String>)
    ensures
        prompt_post(*old(ui), *final(ui), passphrase_prompt(url@), r),
{
    let mut message = "Passphrase for ".to_owned();
    message.append(url);
    message.append(": ");
    ui.prompt_password(message.as_str())
}

/// The secret the secure-entry helper produced, if it ran and its output
/// carries a well-formed data line.
pub open spec fn helper_secret(pinentry_output: Option<&Vec<u8>>) -> Option<Seq<char>> {
    match pinentry_output {
        Some(out) => pinentry_secret(out@),
        None => None,
    }
}

/// Resolves a password-only request. `pinentry_output` is the secure-entry
/// helper's full output, or `None` when the helper could not be run; its
/// secret wins when it decodes cleanly, and every helper failure — no
/// helper, no data line, a malformed escape — silently falls back to a
/// terminal prompt for the same URL.
pub fn resolve_password(ui: &mut Ui, url: &str, pinentry_output: Option<&Vec<u8>>) -> (r: Option<
    String,
>)
    ensures
        helper_secret(pinentry_output) matches Some(secret) ==> r is Some && r->0@ == secret
            && *final(ui) == *old(ui),
        helper_secret(pinentry_output) is None ==> prompt_post(
            *old(ui),
            *final(ui),
            passphrase_prompt(url@),
            r,
        ),
{
    if let Some(out) = pinentry_output {
        if let Some(secret) = parse_pinentry_output(out.as_slice()) {
            return Some(secret);
        }
    }
    terminal_get_pw(ui, url)
}

/// What resolving username+password does. The username prompt always runs;
/// the passphrase prompt runs unless the username prompt already failed; the
/// result is the pair exactly when both answered. A scripted handle pins the
/// answers to the next pending responses.
pub open spec fn username_password_post(
    pre: Ui,
    post: Ui,
    url: Seq<char>,
    r: Option<(String, String)>,
) -> bool {
    &&& post.scripted == pre.scripted
    &&& (post.prompts() == pre.prompts().push(username_prompt(url)) || post.prompts()
        == pre.prompts().push(username_prompt(url)).push(passphrase_prompt(url)))
    &&& r is Some ==> post.prompts() == pre.prompts().push(username_prompt(url)).push(
        passphrase_prompt(url),
    )
    &&& pre.scripted ==> if pre.pending().len() >= 2 {
        &&& r is Some
        &&& (r->0).0@ == pre.pending()[0]
        &&& (r->0).1@ == pre.pending()[1]
        &&& post.pending() == pre.pending().skip(2)
        &&& post.prompts() == pre.prompts().push(username_prompt(url)).push(
            passphrase_prompt(url),
        )
    } else if pre.pending().len() == 1 {
        &&& r is None
        &&& post.pending().len() == 0
        &&& post.prompts() == pre.prompts().push(username_prompt(url)).push(
            passphrase_prompt(url),
        )
    } else {
        &&& r is None
        &&& post.pending() == pre.pending()
        &&& post.prompts() == pre.prompts().push(username_prompt(url))
    }
}

/// Resolves a username+password request: the operator is prompted for a
/// username and then for a passphrase, both for the same URL, and both must
/// answer or no secret is available.
pub fn resolve_username_password(ui: &mut Ui, url: &str) -> (r: Option<(String, String)>)
    ensures
        username_password_post(*old(ui), *final(ui), url@, r),
{
    let username = match terminal_get_username(ui, url) {
        Some(u) => u,
        None => {
            return None;
        },
    };
    let password = match terminal_get_pw(ui, url) {
        Some(p) => p,
        None => {
            return None;
        },
    };
    proof {
        if old(ui).scripted && old(ui).pending().len() >= 2 {
            assert(old(ui).pending().drop_first().drop_first() =~= old(ui).pending().skip(2));
            assert(old(ui).pending().drop_first()[0] == old(ui).pending()[1]);
        }
    }
    Some((username, password))
}

} // verus!

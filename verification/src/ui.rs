//! The interactive terminal handle used for prompts.
//!
//! A `Ui` either drives the attached terminal or replays a fixed list of
//! responses, which stands in for an operator under test. Every prompt logs
//! the message it showed, so callers can state which prompts a resolution
//! issued. Secrets are handed back to the caller and never stored; prompts
//! for secrets suppress terminal echo.

use std::io::Write;

use vstd::prelude::*;
use vstd::string::StrSliceExecFns;
use vstd::string::StringExecFns;

verus! {

/// Relies on the `write!` macro over `std::io::stderr`: shows the prompt
/// text on the terminal's error stream. Returns whether the write succeeded.
#[verifier::external_body]
fn write_prompt(text: &str) -> (ok: bool) {
    write!(std::io::stderr(), "{}", text).is_ok()
}

/// Relies on `std::io::Stdin::read_line`: one line read from standard
/// input, `None` when the read fails.
#[verifier::external_body]
fn read_input_line() -> (r: Option<String>) {
    let mut buf = String::new();
    match std::io::stdin().read_line(&mut buf) {
        Ok(_) => Some(buf),
        Err(_) => None,
    }
}

/// Relies on `rpassword::prompt_password`: shows the message and reads one
/// line from the terminal with echo suppressed; `None` when the terminal
/// cannot be read.
#[verifier::external_body]
fn read_hidden_line(message: &str) -> (r: Option<String>) {
    rpassword::prompt_password(message).ok()
}

/// `s` without one trailing line break (`"\n"` or `"\r\n"`).
pub open spec fn trim_newline_spec(s: Seq<char>) -> Seq<char> {
    if s.len() > 0 && s.last() == '\n' {
        let t = s.drop_last();
        if t.len() > 0 && t.last() == '\r' {
            t.drop_last()
        } else {
            t
        }
    } else {
        s
    }
}

fn trim_newline(s: String) -> (r: String)
    ensures
        r@ == trim_newline_spec(s@),
{
    let n = s.as_str().unicode_len();
    if n > 0 && s.as_str().get_char(n - 1) == '\n' {
        let t = s.as_str().substring_char(0, n - 1);
        proof {
            assert(t@ =~= s@.drop_last());
        }
        if n - 1 > 0 && t.get_char(n - 2) == '\r' {
            let u = t.substring_char(0, n - 2);
            proof {
                assert(u@ =~= s@.drop_last().drop_last());
            }
            u.to_owned()
        } else {
            t.to_owned()
        }
    } else {
        s
    }
}

/// The interactive handle. At most one prompt is in flight at a time: every
/// exchange goes through an exclusive borrow of this value.
pub struct Ui {
    /// Whether responses come from the fixed list instead of the terminal.
    pub scripted: bool,
    /// Pending scripted responses, next one first; unused for a terminal.
    pub responses: Vec<String>,
    /// The messages of the prompts issued so far, oldest first.
    pub prompt_log: Vec<String>,
}

impl Ui {
    /// The messages of the prompts issued so far, oldest first.
    pub open spec fn prompts(self) -> Seq<Seq<char>> {
        self.prompt_log.deep_view()
    }

    /// The scripted responses still pending.
    pub open spec fn pending(self) -> Seq<Seq<char>> {
        self.responses.deep_view()
    }

    /// A handle on the attached terminal.
    pub fn terminal() -> (ui: Ui)
        ensures
            !ui.scripted,
            ui.prompts() == Seq::<Seq<char>>::empty(),
    {
        let ui = Ui { scripted: false, responses: Vec::new(), prompt_log: Vec::new() };
        proof {
            assert(ui.prompts() =~= Seq::<Seq<char>>::empty());
        }
        ui
    }

    /// A handle that answers prompts from `responses`, front to back; once
    /// they run out, further prompts answer as failed reads.
    pub fn with_responses(responses: Vec<String>) -> (ui: Ui)
        ensures
            ui.scripted,
            ui.pending() == responses.deep_view(),
            ui.prompts() == Seq::<Seq<char>>::empty(),
    {
        let ui = Ui { scripted: true, responses, prompt_log: Vec::new() };
        proof {
            assert(ui.prompts() =~= Seq::<Seq<char>>::empty());
        }
        ui
    }

    fn next_scripted(&mut self) -> (r: Option<String>)
        ensures
            final(self).scripted == old(self).scripted,
            final(self).prompt_log == old(self).prompt_log,
            if old(self).pending().len() > 0 {
                r is Some && r->0@ == old(self).pending()[0] && final(self).pending() == old(
                    self,
                ).pending().drop_first()
            } else {
                r is None && final(self).pending() == old(self).pending()
            },
    {
        if self.responses.len() > 0 {
            let head = self.responses.remove(0);
            proof {
                assert(final(self).pending() =~= old(self).pending().drop_first());
            }
            Some(head)
        } else {
            None
        }
    }

    fn log_prompt(&mut self, message: &str)
        ensures
            final(self).prompts() == old(self).prompts().push(message@),
            final(self).scripted == old(self).scripted,
            final(self).responses == old(self).responses,
    {
        self.prompt_log.push(message.to_owned());
        proof {
            assert(final(self).prompts() =~= old(self).prompts().push(message@));
        }
    }

    /// Shows `message` followed by `": "` and reads the operator's reply,
    /// with the trailing line break removed.
    pub fn prompt(&mut self, message: &str) -> (r: Option<String>)
        ensures
            prompt_post(*old(self), *final(self), message@, r),
    {
        self.log_prompt(message);
        if self.scripted {
            self.next_scripted()
        } else {
            let mut text = message.to_owned();
            text.append(": ");
            let _shown = write_prompt(text.as_str());
            match read_input_line() {
                Some(line) => Some(trim_newline(line)),
                None => None,
            }
        }
    }

    /// Shows `message` as given and reads the operator's reply with terminal
    /// echo suppressed.
    pub fn prompt_password(&mut self, message: &str) -> (r: Option<String>)
        ensures
            prompt_post(*old(self), *final(self), message@, r),
    {
        self.log_prompt(message);
        if self.scripted {
            self.next_scripted()
        } else {
            read_hidden_line(message)
        }
    }
}

/// What one prompt exchange does: the message joins the log; a scripted
/// handle answers with its next pending response, or as a failed read once
/// the responses ran out. What the terminal answers is not specified.
pub open spec fn prompt_post(pre: Ui, post: Ui, message: Seq<char>, r: Option<String>) -> bool {
    &&& post.prompts() == pre.prompts().push(message)
    &&& post.scripted == pre.scripted
    &&& pre.scripted ==> if pre.pending().len() > 0 {
        r is Some && r->0@ == pre.pending()[0] && post.pending() == pre.pending().drop_first()
    } else {
        r is None && post.pending() == pre.pending()
    }
}

} // verus!

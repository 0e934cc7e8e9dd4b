//! The session loop's decision rule: what one line of terminal input leads
//! to. The loop itself lives with the terminal; every decision it takes is
//! made here.

use vstd::prelude::*;

use crate::text::str_eq;
use crate::text::trim;
use crate::text::trim_spec;

verus! {

/// The two commands that end a session, compared after trimming.
pub open spec fn is_exit(t: Seq<char>) -> bool {
    t == "exit"@ || t == "quit"@
}

/// What the loop decides for one line, at the specification level.
pub enum Decision {
    /// End the session; nothing is sent.
    Quit,
    /// Prompt again; nothing is sent.
    Prompt,
    /// Send exactly this message to the gateway and print one reply line.
    Send(Seq<char>),
}

/// What the loop does with one line of input.
pub enum Action {
    Quit,
    Prompt,
    Send(String),
}

impl View for Action {
    type V = Decision;

    open spec fn view(&self) -> Decision {
        match self {
            Action::Quit => Decision::Quit,
            Action::Prompt => Decision::Prompt,
            Action::Send(m) => Decision::Send(m@),
        }
    }
}

/// The whole decision rule for one input line: trim it; an exit command ends
/// the session, a blank line re-prompts, anything else is sent as it stands.
pub open spec fn decide(line: Seq<char>) -> Decision {
    let t = trim_spec(line);
    if is_exit(t) {
        Decision::Quit
    } else if t.len() == 0 {
        Decision::Prompt
    } else {
        Decision::Send(t)
    }
}

/// Classify one line of input, exactly as `decide` says.
pub fn step(line: &str) -> (a: Action)
    ensures
        a@ == decide(line@),
{
    let t = trim(line);
    if str_eq(t, "exit") || str_eq(t, "quit") {
        Action::Quit
    } else if t.unicode_len() == 0 {
        Action::Prompt
    } else {
        Action::Send(t.to_owned())
    }
}

/// Law: an input that trims to an exit command ends the loop, and no message
/// is sent to the gateway.
pub proof fn lemma_exit_sends_nothing(line: Seq<char>)
    requires
        is_exit(trim_spec(line)),
    ensures
        decide(line) == Decision::Quit,
{
}

/// Law: an input that is blank after trimming only re-prompts, and no message
/// is sent to the gateway.
pub proof fn lemma_blank_sends_nothing(line: Seq<char>)
    requires
        trim_spec(line).len() == 0,
    ensures
        decide(line) == Decision::Prompt,
{
    reveal_strlit("exit");
    reveal_strlit("quit");
}

/// Law: every non-blank, non-exit input line is sent to the gateway, trimmed,
/// and it is the one message of that loop turn.
pub proof fn lemma_chat_sends_trimmed(line: Seq<char>)
    requires
        trim_spec(line).len() > 0,
        !is_exit(trim_spec(line)),
    ensures
        decide(line) == Decision::Send(trim_spec(line)),
{
}

} // verus!

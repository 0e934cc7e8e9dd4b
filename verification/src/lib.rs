//! Core logic of an interactive agent-shell client: deciding what to do with
//! each input line, and building and interpreting the messages exchanged with
//! a chat gateway over HTTP. The surrounding terminal and network plumbing
//! lives outside the library.

use vstd::prelude::*;

mod protocol;
mod session;
mod text;

pub use protocol::chat_body;
pub use protocol::chat_body_spec;
pub use protocol::chat_url;
pub use protocol::escape_json;
pub use protocol::escape_seq;
pub use protocol::interpret_reply;
pub use protocol::json_text_field;
pub use protocol::reply_text;
pub use protocol::reply_text_spec;
pub use protocol::offline_line;
pub use protocol::offline_line_spec;
pub use protocol::reply_line;
pub use protocol::REQUEST_TIMEOUT_SECS;

pub use session::Action;
pub use session::Decision;
pub use session::decide;
pub use session::is_exit;
pub use session::lemma_blank_sends_nothing;
pub use session::lemma_chat_sends_trimmed;
pub use session::lemma_exit_sends_nothing;
pub use session::step;
pub use text::str_eq;
pub use text::trim;
pub use text::trim_spec;

verus! {

/// A session binds an agent name to the gateway it talks to; both are fixed
/// for the session's whole life.
pub struct Session {
    pub agent: String,
    pub gateway: String,
}

impl Session {
    pub fn new(agent: String, gateway: String) -> (s: Session)
        ensures
            s.agent@ == agent@,
            s.gateway@ == gateway@,
    {
        Session { agent, gateway }
    }
}

} // verus!

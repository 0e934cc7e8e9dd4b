//! The gateway wire protocol: the request body posted to `{gateway}/chat`,
//! the URL it goes to, the reading of the JSON reply, and the fallback line
//! printed when the call fails.

use vstd::prelude::*;

verus! {

/// How many seconds one gateway call may take before it is abandoned.
pub const REQUEST_TIMEOUT_SECS: u64 = 10;

/// The hexadecimal digit for one value below sixteen.
pub open spec fn hex_digit(n: int) -> char {
    if n == 0 {
        '0'
    } else if n == 1 {
        '1'
    } else if n == 2 {
        '2'
    } else if n == 3 {
        '3'
    } else if n == 4 {
        '4'
    } else if n == 5 {
        '5'
    } else if n == 6 {
        '6'
    } else if n == 7 {
        '7'
    } else if n == 8 {
        '8'
    } else if n == 9 {
        '9'
    } else if n == 10 {
        'a'
    } else if n == 11 {
        'b'
    } else if n == 12 {
        'c'
    } else if n == 13 {
        'd'
    } else if n == 14 {
        'e'
    } else {
        'f'
    }
}

fn hex_digit_char(n: u32) -> (c: char)
    requires
        n < 16,
    ensures
        c == hex_digit(n as int),
{
    if n == 0 {
        '0'
    } else if n == 1 {
        '1'
    } else if n == 2 {
        '2'
    } else if n == 3 {
        '3'
    } else if n == 4 {
        '4'
    } else if n == 5 {
        '5'
    } else if n == 6 {
        '6'
    } else if n == 7 {
        '7'
    } else if n == 8 {
        '8'
    } else if n == 9 {
        '9'
    } else if n == 10 {
        'a'
    } else if n == 11 {
        'b'
    } else if n == 12 {
        'c'
    } else if n == 13 {
        'd'
    } else if n == 14 {
        'e'
    } else {
        'f'
    }
}

/// How one character appears inside a JSON string literal: quote and
/// backslash are escaped, control characters become `\u00..`, everything
/// else stands as itself.
pub open spec fn escape_char(c: char) -> Seq<char> {
    if c == '"' {
        seq!['\\', '"']
    } else if c == '\\' {
        seq!['\\', '\\']
    } else if (c as u32) < 0x20 {
        seq!['\\', 'u', '0', '0', hex_digit(c as u32 as int / 16), hex_digit(c as u32 as int % 16)]
    } else {
        seq![c]
    }
}

/// A whole string escaped for a JSON string literal.
pub open spec fn escape_seq(s: Seq<char>) -> Seq<char>
    decreases s.len(),
{
    if s.len() == 0 {
        Seq::empty()
    } else {
        escape_seq(s.drop_last()) + escape_char(s.last())
    }
}

/// Relies on `String::push`: it appends the one character at the end.
#[verifier::external_body]
fn push_char(out: &mut String, c: char)
    ensures
        final(out)@ == old(out)@.push(c),
{
    out.push(c);
}

/// Escape a string so that, between quotes, it is a JSON string literal.
pub fn escape_json(s: &str) -> (r: String)
    ensures
        r@ == escape_seq(s@),
{
    let len = s.unicode_len();
    let mut out = String::new();
    let mut i: usize = 0;
    while i < len
        invariant
            0 <= i <= len,
            len == s@.len(),
            out@ == escape_seq(s@.subrange(0, i as int)),
        decreases len - i,
    {
        let c = s.get_char(i);
        let u = c as u32;
        if c == '"' {
            out.append("\\\"");
            proof {
                reveal_strlit("\\\"");
                assert("\\\""@ =~= escape_char(c));
            }
        } else if c == '\\' {
            out.append("\\\\");
            proof {
                reveal_strlit("\\\\");
                assert("\\\\"@ =~= escape_char(c));
            }
        } else if u < 0x20 {
            out.append("\\u00");
            push_char(&mut out, hex_digit_char(u / 16));
            push_char(&mut out, hex_digit_char(u % 16));
            proof {
                reveal_strlit("\\u00");
                assert("\\u00"@.push(hex_digit(u as int / 16)).push(hex_digit(u as int % 16))
                    =~= escape_char(c));
            }
        } else {
            push_char(&mut out, c);
            proof {
                assert(out@ =~= escape_seq(s@.subrange(0, i as int)) + escape_char(c));
            }
        }
        proof {
            assert(s@.subrange(0, i + 1).drop_last() =~= s@.subrange(0, i as int));
            assert(s@.subrange(0, i + 1).last() == s@[i as int]);
        }
        i = i + 1;
    }
    proof {
        assert(s@.subrange(0, len as int) =~= s@);
    }
    out
}

/// The body of one chat request: a JSON object with the agent's name and the
/// message, both escaped.
pub open spec fn chat_body_spec(agent: Seq<char>, message: Seq<char>) -> Seq<char> {
    "{\"agent\":\""@ + escape_seq(agent) + "\",\"message\":\""@ + escape_seq(message) + "\"}"@
}

/// Build the JSON body posted to the gateway for one message.
pub fn chat_body(agent: &str, message: &str) -> (r: String)
    ensures
        r@ == chat_body_spec(agent@, message@),
{
    let mut out = String::new();
    out.append("{\"agent\":\"");
    let ea = escape_json(agent);
    out.append(ea.as_str());
    out.append("\",\"message\":\"");
    let em = escape_json(message);
    out.append(em.as_str());
    out.append("\"}");
    out
}

/// The endpoint a chat request goes to: the gateway's base URL with `/chat`
/// appended.
pub fn chat_url(gateway: &str) -> (r: String)
    ensures
        r@ == gateway@ + "/chat"@,
{
    let mut out = gateway.to_owned();
    out.append("/chat");
    out
}

/// The line printed when the gateway cannot be reached: the agent's name in
/// brackets, then the original message quoted.
pub open spec fn offline_line_spec(agent: Seq<char>, message: Seq<char>) -> Seq<char> {
    "["@ + agent + "] Gateway offline. Message queued: '"@ + message + "'"@
}

/// Build the fallback line for a failed gateway call.
pub fn offline_line(agent: &str, message: &str) -> (r: String)
    ensures
        r@ == offline_line_spec(agent@, message@),
{
    let mut out = String::new();
    out.append("[");
    out.append(agent);
    out.append("] Gateway offline. Message queued: '");
    out.append(message);
    out.append("'");
    out
}

/// The string value at a top-level key of a JSON document: `None` when the
/// text is not valid JSON; `Some(None)` when it is, but holds no string at
/// that key (not an object, key absent, or the value not a string);
/// `Some(Some(v))` when the string `v` stands there. serde_json computes it
/// from the text and the key alone.
pub uninterp spec fn json_text_field(body: Seq<char>, key: Seq<char>) -> Option<Option<Seq<char>>>;

/// Relies on `serde_json::from_str`, `Value::get` and `Value::as_str`:
/// parsing fails exactly on text that is not valid JSON; `get` returns the
/// value under the key of an object and `None` otherwise; `as_str` returns
/// the string a `Value::String` holds and `None` otherwise. The outcome is a
/// function of `body` and `key` alone.
#[verifier::external_body]
fn json_string_field(body: &str, key: &str) -> (r: Option<Option<String>>)
    ensures
        r.deep_view() == json_text_field(body@, key@),
{
    match serde_json::from_str::<serde_json::Value>(body) {
        Err(_) => None,
        Ok(v) => match v.get(key) {
            None => Some(None),
            Some(f) => match f.as_str() {
                None => Some(None),
                Some(s) => Some(Some(s.to_owned())),
            },
        },
    }
}

/// The text printed for one looked-up reply field: the string found, the
/// placeholder `...` when the JSON held none, and nothing (a failed call)
/// when the body was not JSON.
pub open spec fn reply_text_spec(field: Option<Option<Seq<char>>>) -> Option<Seq<char>> {
    match field {
        Option::None => Option::None,
        Option::Some(Option::None) => Option::Some("..."@),
        Option::Some(Option::Some(t)) => Option::Some(t),
    }
}

/// Apply the defaulting rule to the outcome of a reply-field lookup.
pub fn reply_text(field: Option<Option<String>>) -> (r: Option<String>)
    ensures
        r.deep_view() == reply_text_spec(field.deep_view()),
{
    match field {
        None => None,
        Some(None) => Some("...".to_owned()),
        Some(Some(t)) => Some(t),
    }
}

/// Read a gateway response body: `Some` text to print when the body is JSON
/// (the `response` field, or `...` when it holds no such string), `None`
/// when it is not JSON, which the caller treats as a failed call.
pub fn interpret_reply(body: &str) -> (r: Option<String>)
    ensures
        r.deep_view() == reply_text_spec(json_text_field(body@, "response"@)),
{
    reply_text(json_string_field(body, "response"))
}

/// The reply line printed on a successful call: the agent's name, a space,
/// then the reply text.
pub fn reply_line(agent: &str, text: &str) -> (r: String)
    ensures
        r@ == agent@ + " "@ + text@,
{
    let mut out = agent.to_owned();
    out.append(" ");
    out.append(text);
    out
}

} // verus!

//! Interpretation of the server's responses, and the form body of the
//! delete operation.
//!
//! The transport hands these functions the HTTP status and the response body
//! as plain values. What a body parses to is a function of its text alone, so
//! the two extractions are named — [`ts_of`], [`ok_of`] — and the trusted
//! wrappers around `serde_json` state their results in those names. The
//! interpretation functions then pin the operation's result for every status
//! and body.

use vstd::prelude::*;

use crate::errors::{msg_delete_failed, msg_no_message_id, SlackApiError};

verus! {

/// The `message.ts` member that a post response body parses to: the
/// server-assigned message identifier, present exactly when the body is
/// valid JSON whose `message` member carries `ts` as a string.
pub uninterp spec fn ts_of(body: Seq<char>) -> Option<Seq<char>>;

/// The `ok` member that a delete response body parses to, present exactly
/// when the body is valid JSON carrying `ok` as a boolean.
pub uninterp spec fn ok_of(body: Seq<char>) -> Option<bool>;

/// Relies on serde_json: `from_str::<Value>` parses the body, `Value::get`
/// walks to `message` and then `ts`, and `Value::as_str` reads the string;
/// each step yields `None` for a body of any other shape, and the whole
/// result depends on the body's text alone.
#[verifier::external_body]
fn extract_message_ts(body: &str) -> (r: Option<String>)
    ensures
        r is None <==> ts_of(body@) is None,
        r matches Some(s) ==> ts_of(body@) == Some(s@),
{
    let parsed: serde_json::Value = serde_json::from_str(body).ok()?;
    let ts: &str = parsed.get("message")?.get("ts")?.as_str()?;
    Some(ts.to_owned())
}

/// Relies on serde_json: `from_str::<Value>` parses the body, `Value::get`
/// reads its `ok` member, and `Value::as_bool` reads the boolean; `None` for
/// a body of any other shape, and the result depends on the body's text
/// alone.
#[verifier::external_body]
fn extract_ok_flag(body: &str) -> (r: Option<bool>)
    ensures
        r == ok_of(body@),
{
    let parsed: serde_json::Value = serde_json::from_str(body).ok()?;
    parsed.get("ok")?.as_bool()
}

/// The result of a post whose HTTP exchange succeeded: the extracted message
/// identifier as-is, and `InvalidArgument` exactly when the response carried
/// none.
pub fn post_outcome(ts: Option<String>) -> (r: Result<String, SlackApiError>)
    ensures
        ts matches Some(s) ==> r == Ok::<String, SlackApiError>(s),
        (ts matches Some(s) && s@.len() > 0) ==> (r matches Ok(t) && t@.len() > 0),
        ts is None ==> (r matches Err(SlackApiError::InvalidArgument(m)) && m@
            == msg_no_message_id()),
{
    match ts {
        Some(s) => Ok(s),
        None => Err(SlackApiError::InvalidArgument("No message ID in response".to_owned())),
    }
}

/// The result of a delete whose HTTP exchange succeeded: unit exactly when
/// the response reported `ok` as `true`, and `InvalidArgument` when `ok` was
/// `false`, missing, or not a boolean.
pub fn delete_outcome(ok: Option<bool>) -> (r: Result<(), SlackApiError>)
    ensures
        ok == Some(true) ==> r == Ok::<(), SlackApiError>(()),
        ok != Some(true) ==> (r matches Err(SlackApiError::InvalidArgument(m)) && m@
            == msg_delete_failed()),
{
    match ok {
        Some(flag) => {
            if flag {
                Ok(())
            } else {
                Err(SlackApiError::InvalidArgument("Failed to delete message".to_owned()))
            }
        },
        None => Err(SlackApiError::InvalidArgument("Failed to delete message".to_owned())),
    }
}

/// Whether an HTTP status reports success.
pub open spec fn is_success_status(status: u16) -> bool {
    200 <= status < 300
}

/// The digit character of a value below ten.
pub open spec fn digit_char(n: int) -> char {
    ((0x30 + n) as u8) as char
}

/// The decimal digits of a non-negative integer, as characters.
pub open spec fn dec_chars(n: int) -> Seq<char>
    decreases n,
{
    if n < 10 {
        seq![digit_char(n)]
    } else {
        dec_chars(n / 10) + seq![digit_char(n % 10)]
    }
}

/// The message carried by `HttpRequestFailed` for a non-success status.
pub open spec fn http_fail_msg(status: u16) -> Seq<char> {
    "HTTP status "@ + dec_chars(status as int)
}

/// The one-character text of a decimal digit.
fn digit_str(d: u16) -> (r: &'static str)
    requires
        d < 10,
    ensures
        r@ == seq![digit_char(d as int)],
{
    proof {
        reveal_strlit("0");
        reveal_strlit("1");
        reveal_strlit("2");
        reveal_strlit("3");
        reveal_strlit("4");
        reveal_strlit("5");
        reveal_strlit("6");
        reveal_strlit("7");
        reveal_strlit("8");
        reveal_strlit("9");
    }
    match d {
        0 => "0",
        1 => "1",
        2 => "2",
        3 => "3",
        4 => "4",
        5 => "5",
        6 => "6",
        7 => "7",
        8 => "8",
        _ => "9",
    }
}

/// The decimal digits of a status value, as text.
fn dec_string(n: u16) -> (r: String)
    ensures
        r@ == dec_chars(n as int),
    decreases n,
{
    if n < 10 {
        digit_str(n).to_owned()
    } else {
        let mut s: String = dec_string(n / 10);
        s.append(digit_str(n % 10));
        s
    }
}

/// The result of the post operation, given the HTTP status and the response
/// body: every non-success status is an `HttpRequestFailed`; a success
/// status yields the body's `message.ts` identifier, or the exact
/// `InvalidArgument` when the body carries none.
pub fn interpret_post_response(status: u16, body: &str) -> (r: Result<String, SlackApiError>)
    ensures
        !is_success_status(status) ==> (r matches Err(SlackApiError::HttpRequestFailed(m)) && m@
            == http_fail_msg(status)),
        is_success_status(status) ==> (ts_of(body@) matches Some(v) ==> (r matches Ok(s) && s@
            == v)),
        is_success_status(status) ==> (ts_of(body@) is None ==> (r matches Err(
            SlackApiError::InvalidArgument(m),
        ) && m@ == msg_no_message_id())),
{
    if !(200 <= status && status < 300) {
        let mut m: String = "HTTP status ".to_owned();
        m.append(dec_string(status).as_str());
        return Err(SlackApiError::HttpRequestFailed(m));
    }
    post_outcome(extract_message_ts(body))
}

/// The result of the delete operation, given the HTTP status and the
/// response body: every non-success status is an `HttpRequestFailed`; a
/// success status yields unit exactly when the body's `ok` member is
/// `true`, and the exact `InvalidArgument` otherwise.
pub fn interpret_delete_response(status: u16, body: &str) -> (r: Result<(), SlackApiError>)
    ensures
        !is_success_status(status) ==> (r matches Err(SlackApiError::HttpRequestFailed(m)) && m@
            == http_fail_msg(status)),
        is_success_status(status) ==> (ok_of(body@) == Some(true) ==> r == Ok::<
            (),
            SlackApiError,
        >(())),
        is_success_status(status) ==> (ok_of(body@) != Some(true) ==> (r matches Err(
            SlackApiError::InvalidArgument(m),
        ) && m@ == msg_delete_failed())),
{
    if !(200 <= status && status < 300) {
        let mut m: String = "HTTP status ".to_owned();
        m.append(dec_string(status).as_str());
        return Err(SlackApiError::HttpRequestFailed(m));
    }
    delete_outcome(extract_ok_flag(body))
}

/// The form body of the delete operation: exactly the two keys `channel` and
/// `ts`, with the given values.
pub fn delete_form_pairs(channel: String, ts: String) -> (r: Vec<(String, String)>)
    ensures
        r@.len() == 2,
        r@[0].0@ == "channel"@,
        r@[0].1 == channel,
        r@[1].0@ == "ts"@,
        r@[1].1 == ts,
{
    let mut v: Vec<(String, String)> = Vec::new();
    v.push(("channel".to_owned(), channel));
    v.push(("ts".to_owned(), ts));
    v
}

} // verus!



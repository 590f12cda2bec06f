//! Readers for the fields that every service reply carries.

use vstd::prelude::*;
use crate::json::{as_int, as_text, field, opt_text, opt_view, Json, JsonV};
use crate::text::{i64_to_text, int_text};

verus! {

/// The reply's `code` as an integer, `-1` when absent or not an integer.
pub open spec fn reply_code(reply: JsonV) -> int {
    match as_int(field(reply, "code"@)) {
        Some(c) => c,
        None => -1,
    }
}

/// The `message` field, or `msg` when there is no `message` field.
pub open spec fn message_field(reply: JsonV) -> Option<JsonV> {
    if field(reply, "message"@) is Some {
        field(reply, "message"@)
    } else {
        field(reply, "msg"@)
    }
}

/// The reply's message text, if that field holds a text.
pub open spec fn reply_message(reply: JsonV) -> Option<Seq<char>> {
    as_text(message_field(reply))
}

/// The reply's message text, or the empty text.
pub open spec fn message_or_empty(reply: JsonV) -> Seq<char> {
    match reply_message(reply) {
        Some(m) => m,
        None => Seq::empty(),
    }
}

/// The reply's message text, or `code=<code>` when it has none.
pub open spec fn message_or_code(reply: JsonV) -> Seq<char> {
    match reply_message(reply) {
        Some(m) => m,
        None => "code="@ + int_text(reply_code(reply)),
    }
}

/// The empty object `{}`.
pub open spec fn empty_object() -> JsonV {
    JsonV::Object(Seq::empty())
}

/// The reply's `data` field, or `{}` when absent.
pub open spec fn data_or_empty(reply: JsonV) -> JsonV {
    match field(reply, "data"@) {
        Some(d) => d,
        None => empty_object(),
    }
}

/// The reply's `code`.
pub fn code_of(reply: &Json) -> (code: i64)
    ensures
        code as int == reply_code(reply@),
{
    match reply.get("code") {
        Some(v) => match v.as_i64() {
            Some(c) => c,
            None => -1,
        },
        None => -1,
    }
}

/// The reply's message field (`message`, else `msg`).
pub fn message_value(reply: &Json) -> (res: Option<&Json>)
    ensures
        opt_view(res) == message_field(reply@),
{
    match reply.get("message") {
        Some(m) => Some(m),
        None => reply.get("msg"),
    }
}

/// The reply's message text.
pub fn message_of(reply: &Json) -> (res: Option<&str>)
    ensures
        opt_text(res) == reply_message(reply@),
{
    match message_value(reply) {
        Some(m) => m.as_str(),
        None => None,
    }
}

/// The reply's message text, or the empty text.
pub fn message_or_empty_of(reply: &Json) -> (res: &str)
    ensures
        res@ == message_or_empty(reply@),
{
    proof {
        reveal_strlit("");
    }
    match message_of(reply) {
        Some(m) => m,
        None => "",
    }
}

/// The reply's message text, or `code=<code>`.
pub fn message_or_code_of(reply: &Json) -> (res: String)
    ensures
        res@ == message_or_code(reply@),
{
    match message_of(reply) {
        Some(m) => m.to_owned(),
        None => {
            let mut out = String::from_str("code=");
            let n = i64_to_text(code_of(reply));
            out.append(n.as_str());
            out
        },
    }
}

/// A fresh `{}`.
pub fn new_empty_object() -> (res: Json)
    ensures
        res@ == empty_object(),
{
    let res = Json::Object(Vec::new());
    assert(res@ =~= empty_object()) by {
        if let JsonV::Object(f) = res@ {
            assert(f =~= Seq::<(Seq<char>, JsonV)>::empty());
        }
    }
    res
}

/// The reply's `data`, or `{}`.
pub fn data_of(reply: &Json) -> (res: Json)
    ensures
        res@ == data_or_empty(reply@),
{
    match reply.get("data") {
        Some(d) => d.deep_clone(),
        None => new_empty_object(),
    }
}

} // verus!

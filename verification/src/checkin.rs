//! Daily check-in: reading status replies, deciding whether to submit,
//! classifying the submission's outcome, and the request flow around it.

use vstd::prelude::*;
use crate::json::{
    array, as_flag, as_text, entry, field, fields_view, items_view, lemma_items_view_push,
    object, Json, JsonV,
};
use crate::reply::{
    code_of, data_of, data_or_empty, message_or_code, message_or_code_of, message_or_empty,
    message_or_empty_of, reply_code,
};
use crate::text::{contains_text, lowercase_text, text_contains, text_eq, to_lowercase};
use crate::variant::{
    account_variant, billing_path_candidates, variant_name, variant_of, variant_supports_checkin,
    WbVariant, CHECKIN_API_PREFIX,
};

verus! {

/// `text` contains at least one of `words`.
pub open spec fn mentions_any(text: Seq<char>, words: Seq<Seq<char>>) -> bool {
    exists|k: int| 0 <= k < words.len() && contains_text(text, #[trigger] words[k])
}

/// The texts of a list of words.
pub open spec fn word_texts(words: Seq<&str>) -> Seq<Seq<char>> {
    words.map_values(|w: &str| w@)
}

/// Whether `text` contains one of `words`.
pub fn mentions_any_of(text: &str, words: &Vec<&str>) -> (res: bool)
    ensures
        res == mentions_any(text@, word_texts(words@)),
{
    let mut i: usize = 0;
    while i < words.len()
        invariant
            i <= words@.len(),
            forall|k: int| 0 <= k < i ==> !contains_text(text@, #[trigger] word_texts(words@)[k]),
        decreases words@.len() - i,
    {
        if text_contains(text, words[i]) {
            assert(word_texts(words@)[i as int] == words@[i as int]@);
            return true;
        }
        i = i + 1;
    }
    false
}

/// Words in a (lower-cased) message that mark an expired or rejected login.
pub open spec fn auth_failure_words() -> Seq<Seq<char>> {
    seq!["unauthorized"@, "401"@, "登录"@, "失效"@, "过期"@, "token"@]
}

/// Words in a (lower-cased) message that mark a check-in campaign that is not
/// open: not enabled, not open yet, expired, inactive, unavailable.
pub open spec fn inactive_words() -> Seq<Seq<char>> {
    seq!["未开启"@, "未开放"@, "已过期"@, "inactive"@, "not enabled"@, "not available"@]
}

/// A reply that rejects the login: code 401 or 403, or a message that, lower-cased,
/// mentions one of the login-failure words.
pub open spec fn unauthorized_reply(reply: JsonV) -> bool {
    reply_code(reply) == 401 || reply_code(reply) == 403 || mentions_any(
        lowercase_text(message_or_empty(reply)),
        auth_failure_words(),
    )
}

/// A message that says the campaign is not open.
pub open spec fn inactive_message(message: Seq<char>) -> bool {
    mentions_any(lowercase_text(message), inactive_words())
}

/// Whether a reply rejects the login (the trigger of a token refresh and one retry).
pub fn is_unauthorized(resp: &Json) -> (res: bool)
    ensures
        res == unauthorized_reply(resp@),
{
    let code = code_of(resp);
    if code == 401 || code == 403 {
        return true;
    }
    let msg = to_lowercase(message_or_empty_of(resp));
    let words = vec!["unauthorized", "401", "登录", "失效", "过期", "token"];
    assert(word_texts(words@) =~= auth_failure_words());
    mentions_any_of(msg.as_str(), &words)
}

/// Whether a message says that the check-in campaign is not open.
pub fn is_inactive_message(message: &str) -> (res: bool)
    ensures
        res == inactive_message(message@),
{
    let raw = to_lowercase(message);
    let words = vec!["未开启", "未开放", "已过期", "inactive", "not enabled", "not available"];
    assert(word_texts(words@) =~= inactive_words());
    mentions_any_of(raw.as_str(), &words)
}

/// An international-edition reply that says the campaign is not open: it is
/// a business result, returned as it is, before any refresh or retry.
pub open spec fn skips_refresh(variant: WbVariant, reply: JsonV) -> bool {
    variant == WbVariant::Ai && inactive_message(message_or_empty(reply))
}

/// Whether a check-in reply is returned before the refresh-and-retry decision.
pub fn skips_refresh_before_retry(variant: WbVariant, resp: &Json) -> (res: bool)
    ensures
        res == skips_refresh(variant, resp@),
{
    if variant != WbVariant::Ai {
        return false;
    }
    is_inactive_message(message_or_empty_of(resp))
}

/// The account holds a non-empty `refresh_token` text.
pub open spec fn has_refresh_token(account: JsonV) -> bool {
    match as_text(field(account, "refresh_token"@)) {
        Some(t) => t.len() > 0,
        None => false,
    }
}

/// Whether the account holds a refresh token.
pub fn account_has_refresh_token(account: &Json) -> (res: bool)
    ensures
        res == has_refresh_token(account@),
{
    match account.get("refresh_token") {
        Some(t) => match t.as_str() {
            Some(s) => s.unicode_len() > 0,
            None => false,
        },
        None => false,
    }
}

/// After the first reply to a check-in request: refresh the token and send the
/// request once more, or return the reply as it is.
pub open spec fn checkin_retry_wanted(variant: WbVariant, reply: JsonV, account: JsonV) -> bool {
    !skips_refresh(variant, reply) && unauthorized_reply(reply) && has_refresh_token(account)
}

/// The decision that follows the first reply to a check-in request.
pub fn checkin_should_retry(variant: WbVariant, resp: &Json, account: &Json) -> (res: bool)
    ensures
        res == checkin_retry_wanted(variant, resp@, account@),
{
    if skips_refresh_before_retry(variant, resp) {
        return false;
    }
    is_unauthorized(resp) && account_has_refresh_token(account)
}

/// The reply says that the requested route does not exist.
pub open spec fn route_missing(reply: JsonV) -> bool {
    reply_code(reply) == 404
}

/// Whether the reply says that the requested route does not exist.
pub fn is_route_missing(resp: &Json) -> (res: bool)
    ensures
        res == route_missing(resp@),
{
    code_of(resp) == 404
}

/// After the reply to candidate path `index` of `count`, the next candidate is
/// tried only when there is one and the route was missing; any other reply
/// (auth failure, gateway rejection, transport error) is returned as it is.
pub open spec fn falls_back(index: int, count: int, reply: JsonV) -> bool {
    index + 1 < count && route_missing(reply)
}

/// The decision that follows the reply to one candidate path.
pub fn should_fall_back(index: usize, count: usize, resp: &Json) -> (res: bool)
    ensures
        res == falls_back(index as int, count as int, resp@),
{
    index < count && count - index > 1 && is_route_missing(resp)
}

/// Suffix of the daily check-in submission.
pub const DAILY_CHECKIN_SUFFIX: &'static str = "/daily-checkin";

/// The reply when there is no candidate path at all.
pub open spec fn no_route_view() -> JsonV {
    JsonV::Object(seq![("code"@, JsonV::Int(-1)), ("message"@, JsonV::Str("无可用签到路径"@))])
}

/// `{"code": -1, "message": "无可用签到路径"}`.
pub fn no_route_reply() -> (res: Json)
    ensures
        res@ == no_route_view(),
{
    let fields = vec![entry("code", Json::Int(-1)), entry("message", Json::text("无可用签到路径"))];
    assert(fields_view(fields@) =~= seq![("code"@, JsonV::Int(-1)), ("message"@, JsonV::Str("无可用签到路径"@))]);
    object(fields)
}

/// The candidate paths of a check-in endpoint, in the order they are tried.
pub fn checkin_paths(variant: WbVariant, suffix: &str) -> (res: Vec<String>)
    ensures
        res@.len() == billing_path_candidates(variant, CHECKIN_API_PREFIX@ + suffix@).len(),
        forall|i: int|
            0 <= i < res@.len() ==> (#[trigger] res@[i])@ == billing_path_candidates(
                variant,
                CHECKIN_API_PREFIX@ + suffix@,
            )[i],
{
    let mut path = String::from_str(CHECKIN_API_PREFIX);
    path.append(suffix);
    variant.billing_paths(path.as_str())
}

/// The `today_checked_in` flag of status data (or `todayCheckedIn` when the
/// former is absent); false when neither holds a boolean.
pub open spec fn today_flag(data: JsonV) -> bool {
    let f = if field(data, "today_checked_in"@) is Some {
        field(data, "today_checked_in"@)
    } else {
        field(data, "todayCheckedIn"@)
    };
    match as_flag(f) {
        Some(b) => b,
        None => false,
    }
}

/// A successful status reply (code 0 or 200) read as
/// `{"ok": true, "todayCheckedIn": <flag>, "raw": <data>}`; nothing otherwise.
pub open spec fn status_view(reply: JsonV) -> Option<JsonV> {
    let code = reply_code(reply);
    if code != 0 && code != 200 {
        None
    } else {
        let data = data_or_empty(reply);
        Some(
            JsonV::Object(
                seq![
                    ("ok"@, JsonV::Bool(true)),
                    ("todayCheckedIn"@, JsonV::Bool(today_flag(data))),
                    ("raw"@, data),
                ],
            ),
        )
    }
}

/// The model of an optional owned value.
pub open spec fn opt_json(value: Option<Json>) -> Option<JsonV> {
    match value {
        Some(v) => Some(v@),
        None => None,
    }
}

fn flag_of(data: &Json) -> (res: bool)
    ensures
        res == today_flag(data@),
{
    let f = match data.get("today_checked_in") {
        Some(v) => Some(v),
        None => data.get("todayCheckedIn"),
    };
    match f {
        Some(v) => match v.as_bool() {
            Some(b) => b,
            None => false,
        },
        None => false,
    }
}

/// Reads a status reply.
pub fn status_from_response(resp: &Json) -> (res: Option<Json>)
    ensures
        opt_json(res) == status_view(resp@),
{
    let code = code_of(resp);
    if code != 0 && code != 200 {
        return None;
    }
    let data = data_of(resp);
    let flag = flag_of(&data);
    let ghost d = data@;
    let fields = vec![entry("ok", Json::Bool(true)), entry("todayCheckedIn", Json::Bool(flag)), entry("raw", data)];
    assert(fields_view(fields@) =~= seq![
        ("ok"@, JsonV::Bool(true)),
        ("todayCheckedIn"@, JsonV::Bool(flag)),
        ("raw"@, d),
    ]);
    Some(object(fields))
}

/// What the status query gives for an edition without a status service.
pub open spec fn unsupported_status_view() -> JsonV {
    JsonV::Object(
        seq![
            ("ok"@, JsonV::Bool(false)),
            ("statusUnsupported"@, JsonV::Bool(true)),
            ("error"@, JsonV::Str("该档位暂无签到状态接口"@)),
        ],
    )
}

/// What the status query gives when both status services failed: the second
/// reply's message, or `code=<code>`.
pub open spec fn status_error_view(reply: JsonV) -> JsonV {
    JsonV::Object(seq![("ok"@, JsonV::Bool(false)), ("error"@, JsonV::Str(message_or_code(reply)))])
}

/// One step of the status query: ask a status service, or finish with a status.
pub enum StatusStep {
    Query(&'static str),
    Finish(Json),
}

/// The first step: only the domestic edition has status services; any other
/// edition finishes at once, with no request.
pub fn status_first_step(variant: WbVariant) -> (res: StatusStep)
    ensures
        variant == WbVariant::Cn ==> (res matches StatusStep::Query(p) && p@ == "/checkin-activity-status"@),
        variant != WbVariant::Cn ==> (res matches StatusStep::Finish(s) && s@ == unsupported_status_view()),
{
    if variant == WbVariant::Cn {
        return StatusStep::Query("/checkin-activity-status");
    }
    let fields = vec![
        entry("ok", Json::Bool(false)),
        entry("statusUnsupported", Json::Bool(true)),
        entry("error", Json::text("该档位暂无签到状态接口")),
    ];
    assert(fields_view(fields@) =~= seq![
        ("ok"@, JsonV::Bool(false)),
        ("statusUnsupported"@, JsonV::Bool(true)),
        ("error"@, JsonV::Str("该档位暂无签到状态接口"@)),
    ]);
    StatusStep::Finish(object(fields))
}

/// After the reply of the activity-status service: a successful reply is the
/// status; otherwise the older status service is asked.
pub fn status_after_activity(resp: &Json) -> (res: StatusStep)
    ensures
        match status_view(resp@) {
            Some(s) => res matches StatusStep::Finish(r) && r@ == s,
            None => res matches StatusStep::Query(p) && p@ == "/checkin-status"@,
        },
{
    match status_from_response(resp) {
        Some(s) => StatusStep::Finish(s),
        None => StatusStep::Query("/checkin-status"),
    }
}

/// After the reply of the older status service: a successful reply is the
/// status; otherwise the failure, with the reply's message.
pub fn status_after_legacy(resp: &Json) -> (res: Json)
    ensures
        res@ == match status_view(resp@) {
            Some(s) => s,
            None => status_error_view(resp@),
        },
{
    match status_from_response(resp) {
        Some(s) => s,
        None => {
            let msg = message_or_code_of(resp);
            let fields = vec![entry("ok", Json::Bool(false)), entry("error", Json::Str(msg))];
            assert(fields_view(fields@) =~= seq![("ok"@, JsonV::Bool(false)), ("error"@, JsonV::Str(message_or_code(resp@)))]);
            object(fields)
        },
    }
}

/// A reply to the daily check-in submission, classified:
/// - code 0 or 200: `{"ok": true, "raw": <data>}`;
/// - a message saying the account already checked in ("已签到", or "repeat" in
///   any case): `{"ok": true, "already": true, "message": <msg>}`;
/// - for the international edition, a message saying the campaign is not open:
///   `{"ok": false, "inactive": true, "message": <msg>}`, never a success;
/// - otherwise `{"ok": false, "error": <msg>}`,
/// where `<msg>` is the reply's message, or `code=<code>`.
pub open spec fn outcome_view(variant: WbVariant, reply: JsonV) -> JsonV {
    let code = reply_code(reply);
    if code == 0 || code == 200 {
        JsonV::Object(seq![("ok"@, JsonV::Bool(true)), ("raw"@, data_or_empty(reply))])
    } else {
        let msg = message_or_code(reply);
        if contains_text(msg, "已签到"@) || contains_text(lowercase_text(msg), "repeat"@) {
            JsonV::Object(
                seq![
                    ("ok"@, JsonV::Bool(true)),
                    ("already"@, JsonV::Bool(true)),
                    ("message"@, JsonV::Str(msg)),
                ],
            )
        } else if variant == WbVariant::Ai && inactive_message(msg) {
            JsonV::Object(
                seq![
                    ("ok"@, JsonV::Bool(false)),
                    ("inactive"@, JsonV::Bool(true)),
                    ("message"@, JsonV::Str(msg)),
                ],
            )
        } else {
            JsonV::Object(seq![("ok"@, JsonV::Bool(false)), ("error"@, JsonV::Str(msg))])
        }
    }
}

/// Classifies the reply to the daily check-in submission (`perform_checkin`
/// once its request has been answered).
pub fn checkin_outcome(variant: WbVariant, resp: &Json) -> (res: Json)
    ensures
        res@ == outcome_view(variant, resp@),
{
    let code = code_of(resp);
    if code == 0 || code == 200 {
        let data = data_of(resp);
        let ghost d = data@;
        let fields = vec![entry("ok", Json::Bool(true)), entry("raw", data)];
        assert(fields_view(fields@) =~= seq![("ok"@, JsonV::Bool(true)), ("raw"@, d)]);
        return object(fields);
    }
    let msg = message_or_code_of(resp);
    let lower = to_lowercase(msg.as_str());
    if text_contains(msg.as_str(), "已签到") || text_contains(lower.as_str(), "repeat") {
        let fields = vec![
            entry("ok", Json::Bool(true)),
            entry("already", Json::Bool(true)),
            entry("message", Json::Str(msg)),
        ];
        assert(fields_view(fields@) =~= seq![
            ("ok"@, JsonV::Bool(true)),
            ("already"@, JsonV::Bool(true)),
            ("message"@, JsonV::Str(message_or_code(resp@))),
        ]);
        return object(fields);
    }
    if variant == WbVariant::Ai && is_inactive_message(msg.as_str()) {
        let fields = vec![
            entry("ok", Json::Bool(false)),
            entry("inactive", Json::Bool(true)),
            entry("message", Json::Str(msg)),
        ];
        assert(fields_view(fields@) =~= seq![
            ("ok"@, JsonV::Bool(false)),
            ("inactive"@, JsonV::Bool(true)),
            ("message"@, JsonV::Str(message_or_code(resp@))),
        ]);
        return object(fields);
    }
    let fields = vec![entry("ok", Json::Bool(false)), entry("error", Json::Str(msg))];
    assert(fields_view(fields@) =~= seq![("ok"@, JsonV::Bool(false)), ("error"@, JsonV::Str(message_or_code(resp@)))]);
    object(fields)
}

/// What to do once the status is known.
#[derive(Debug, PartialEq, Eq)]
pub enum StatusDecision {
    /// Already checked in today: nothing is submitted.
    Already,
    /// Submit the daily check-in.
    Submit,
    /// The status could not be read: nothing is submitted.
    Error(String),
}

/// The model of a [`StatusDecision`].
pub enum DecisionV {
    Already,
    Submit,
    Error(Seq<char>),
}

impl StatusDecision {
    pub open spec fn view(&self) -> DecisionV {
        match self {
            StatusDecision::Already => DecisionV::Already,
            StatusDecision::Submit => DecisionV::Submit,
            StatusDecision::Error(e) => DecisionV::Error(e@),
        }
    }
}

/// The decision taken on a status:
/// - an edition without a status service (`statusUnsupported: true`) submits,
///   relying on the submission's own idempotence;
/// - a status that is not `ok: true` is an error, with its `error` text, or
///   "查询签到状态失败";
/// - `todayCheckedIn: true` means already checked in; anything else submits.
pub open spec fn decision_of(status: JsonV) -> DecisionV {
    if as_flag(field(status, "statusUnsupported"@)) == Some(true) {
        DecisionV::Submit
    } else if as_flag(field(status, "ok"@)) != Some(true) {
        DecisionV::Error(
            match as_text(field(status, "error"@)) {
                Some(e) => e,
                None => "查询签到状态失败"@,
            },
        )
    } else if as_flag(field(status, "todayCheckedIn"@)) == Some(true) {
        DecisionV::Already
    } else {
        DecisionV::Submit
    }
}

fn flag_field(value: &Json, key: &str) -> (res: Option<bool>)
    ensures
        res == as_flag(field(value@, key@)),
{
    match value.get(key) {
        Some(v) => v.as_bool(),
        None => None,
    }
}

fn text_field<'a>(value: &'a Json, key: &str) -> (res: Option<&'a str>)
    ensures
        crate::json::opt_text(res) == as_text(field(value@, key@)),
{
    match value.get(key) {
        Some(v) => v.as_str(),
        None => None,
    }
}

/// Decides, from a status, whether to submit the daily check-in.
pub fn decide_from_status(status: &Json) -> (res: StatusDecision)
    ensures
        res@ == decision_of(status@),
{
    if flag_field(status, "statusUnsupported") == Some(true) {
        return StatusDecision::Submit;
    }
    if flag_field(status, "ok") != Some(true) {
        let e = match text_field(status, "error") {
            Some(e) => e.to_owned(),
            None => String::from_str("查询签到状态失败"),
        };
        return StatusDecision::Error(e);
    }
    if flag_field(status, "todayCheckedIn") == Some(true) {
        StatusDecision::Already
    } else {
        StatusDecision::Submit
    }
}

/// The reply when another check-in of the same account is in progress.
pub open spec fn busy_reply_view() -> JsonV {
    JsonV::Object(seq![("result"@, JsonV::Str("error"@)), ("error"@, JsonV::Str("该账号正在签到，请稍后再试"@))])
}

/// The reply for an edition without check-in: skipped, with no request.
pub open spec fn skipped_reply_view() -> JsonV {
    JsonV::Object(seq![("result"@, JsonV::Str("skipped"@)), ("reason"@, JsonV::Str("unsupported_variant"@))])
}

/// The first step of checking in an account, once its guard was tried: finish
/// at once when another check-in of it is in progress, or when its edition has
/// no check-in; otherwise (`None`) go on to the status query.
pub fn checkin_start(acquired: bool, account: &Json) -> (res: Option<Json>)
    ensures
        !acquired ==> opt_json(res) == Some(busy_reply_view()),
        acquired && !variant_supports_checkin(account_variant(account@)) ==> opt_json(res) == Some(
            skipped_reply_view(),
        ),
        acquired && variant_supports_checkin(account_variant(account@)) ==> res is None,
{
    if !acquired {
        let fields = vec![entry("result", Json::text("error")), entry("error", Json::text("该账号正在签到，请稍后再试"))];
        assert(fields_view(fields@) =~= seq![("result"@, JsonV::Str("error"@)), ("error"@, JsonV::Str("该账号正在签到，请稍后再试"@))]);
        return Some(object(fields));
    }
    if !variant_of(account).supports_checkin() {
        let fields = vec![entry("result", Json::text("skipped")), entry("reason", Json::text("unsupported_variant"))];
        assert(fields_view(fields@) =~= seq![("result"@, JsonV::Str("skipped"@)), ("reason"@, JsonV::Str("unsupported_variant"@))]);
        return Some(object(fields));
    }
    None
}

/// The reply once the status decided not to submit; nothing when it decided
/// to submit.
pub open spec fn after_status_view(status: JsonV) -> Option<JsonV> {
    match decision_of(status) {
        DecisionV::Already => Some(JsonV::Object(seq![("result"@, JsonV::Str("already"@))])),
        DecisionV::Error(e) => Some(
            JsonV::Object(seq![("result"@, JsonV::Str("error"@)), ("error"@, JsonV::Str(e))]),
        ),
        DecisionV::Submit => None,
    }
}

/// The step after the status query: finish (already checked in, or the status
/// failed), or (`None`) submit the daily check-in.
pub fn checkin_after_status(status: &Json) -> (res: Option<Json>)
    ensures
        opt_json(res) == after_status_view(status@),
{
    match decide_from_status(status) {
        StatusDecision::Already => {
            let fields = vec![entry("result", Json::text("already"))];
            assert(fields_view(fields@) =~= seq![("result"@, JsonV::Str("already"@))]);
            Some(object(fields))
        },
        StatusDecision::Error(e) => {
            let ghost ev = e@;
            let fields = vec![entry("result", Json::text("error")), entry("error", Json::Str(e))];
            assert(fields_view(fields@) =~= seq![("result"@, JsonV::Str("error"@)), ("error"@, JsonV::Str(ev))]);
            Some(object(fields))
        },
        StatusDecision::Submit => None,
    }
}

/// The result label of a classified submission: `already`, `success` or `error`.
pub open spec fn result_label(outcome: JsonV) -> Seq<char> {
    if as_flag(field(outcome, "ok"@)) == Some(true) {
        if as_flag(field(outcome, "already"@)) == Some(true) {
            "already"@
        } else {
            "success"@
        }
    } else {
        "error"@
    }
}

/// The error text of a failed submission.
pub open spec fn result_error(outcome: JsonV) -> Option<Seq<char>> {
    if result_label(outcome) == "error"@ {
        as_text(field(outcome, "error"@))
    } else {
        None
    }
}

/// The submission said the campaign is not open.
pub open spec fn outcome_inactive(outcome: JsonV) -> bool {
    as_flag(field(outcome, "inactive"@)) == Some(true)
}

/// A value, or `null`.
pub open spec fn or_null(value: Option<JsonV>) -> JsonV {
    match value {
        Some(v) => v,
        None => JsonV::Null,
    }
}

/// The error text of a failed submission, or `null`.
pub open spec fn error_value(outcome: JsonV) -> JsonV {
    match result_error(outcome) {
        Some(e) => JsonV::Str(e),
        None => JsonV::Null,
    }
}

/// The reply of a check-in that submitted.
pub open spec fn submit_reply_view(outcome: JsonV) -> JsonV {
    if outcome_inactive(outcome) {
        JsonV::Object(
            seq![
                ("result"@, JsonV::Str("inactive"@)),
                ("inactive"@, JsonV::Bool(true)),
                ("message"@, or_null(field(outcome, "message"@))),
            ],
        )
    } else {
        JsonV::Object(
            seq![
                ("result"@, JsonV::Str(result_label(outcome))),
                ("error"@, error_value(outcome)),
            ],
        )
    }
}

/// The log entry of a check-in that submitted: none when the campaign was not
/// open (it is neither a success nor a failure); otherwise the result, the
/// time, the account's id, display name and edition, and the error if any.
pub open spec fn submit_log_view(outcome: JsonV, ts: int, account: JsonV, display_name: Seq<char>) -> Option<JsonV> {
    if outcome_inactive(outcome) {
        None
    } else {
        let base = seq![
            ("result"@, JsonV::Str(result_label(outcome))),
            ("ts"@, JsonV::Int(ts)),
            ("accountId"@, or_null(field(account, "id"@))),
            ("email"@, JsonV::Str(display_name)),
            ("variant"@, JsonV::Str(variant_name(account_variant(account)))),
        ];
        Some(
            JsonV::Object(
                match result_error(outcome) {
                    Some(e) => base.push(("error"@, JsonV::Str(e))),
                    None => base,
                },
            ),
        )
    }
}

/// A copy of a field's value, or `null`.
pub fn field_or_null(value: &Json, key: &str) -> (res: Json)
    ensures
        res@ == or_null(field(value@, key@)),
{
    match value.get(key) {
        Some(v) => v.deep_clone(),
        None => Json::Null,
    }
}

/// The last step of a check-in that submitted: its reply, and the log entry
/// to record, if any. `account` is the account as refreshed before the status
/// query; `ts` is the current time in milliseconds.
pub fn checkin_after_submit(outcome: &Json, ts: i64, account: &Json, display_name: &str) -> (res: (Json, Option<Json>))
    ensures
        res.0@ == submit_reply_view(outcome@),
        opt_json(res.1) == submit_log_view(outcome@, ts as int, account@, display_name@),
{
    if flag_field(outcome, "inactive") == Some(true) {
        let message = field_or_null(outcome, "message");
        let ghost m = message@;
        let fields = vec![
            entry("result", Json::text("inactive")),
            entry("inactive", Json::Bool(true)),
            entry("message", message),
        ];
        assert(fields_view(fields@) =~= seq![
            ("result"@, JsonV::Str("inactive"@)),
            ("inactive"@, JsonV::Bool(true)),
            ("message"@, m),
        ]);
        return (object(fields), None);
    }
    let label: &str = if flag_field(outcome, "ok") == Some(true) {
        if flag_field(outcome, "already") == Some(true) {
            "already"
        } else {
            "success"
        }
    } else {
        "error"
    };
    assert(label@ == result_label(outcome@));
    let is_error = text_eq(label, "error");
    let error: Option<String> = if is_error {
        match text_field(outcome, "error") {
            Some(e) => Some(e.to_owned()),
            None => None,
        }
    } else {
        None
    };
    assert(match error {
        Some(e) => result_error(outcome@) == Some(e@),
        None => result_error(outcome@) is None,
    });
    let mut log_fields = vec![
        entry("result", Json::text(label)),
        entry("ts", Json::Int(ts)),
        entry("accountId", field_or_null(account, "id")),
        entry("email", Json::text(display_name)),
        entry("variant", Json::text(variant_of(account).as_str())),
    ];
    let ghost base = fields_view(log_fields@);
    let reply_error = match &error {
        Some(e) => {
            log_fields.push(entry("error", Json::text(e.as_str())));
            Json::text(e.as_str())
        },
        None => Json::Null,
    };
    let ghost re = reply_error@;
    assert(re == error_value(outcome@));
    let reply_fields = vec![entry("result", Json::text(label)), entry("error", reply_error)];
    assert(fields_view(reply_fields@) =~= seq![("result"@, JsonV::Str(result_label(outcome@))), ("error"@, re)]);
    assert(!outcome_inactive(outcome@));

    proof {
        assert(base =~= seq![
            ("result"@, JsonV::Str(result_label(outcome@))),
            ("ts"@, JsonV::Int(ts as int)),
            ("accountId"@, or_null(field(account@, "id"@))),
            ("email"@, JsonV::Str(display_name@)),
            ("variant"@, JsonV::Str(variant_name(account_variant(account@)))),
        ]);
        if error is Some {
            assert(fields_view(log_fields@) =~= base.push(("error"@, JsonV::Str(result_error(outcome@)->0))));
        } else {
            assert(fields_view(log_fields@) =~= base);
        }
    }
    (object(reply_fields), Some(object(log_fields)))
}

/// The per-account result was marked as `inactive`.
pub open spec fn result_inactive(result: JsonV) -> bool {
    as_flag(field(result, "inactive"@)) == Some(true)
}

/// Appends `"inactive": true` when the result was inactive.
pub open spec fn with_inactive_mark(fields: Seq<(Seq<char>, JsonV)>, result: JsonV) -> Seq<(Seq<char>, JsonV)> {
    if result_inactive(result) {
        fields.push(("inactive"@, JsonV::Bool(true)))
    } else {
        fields
    }
}

/// A row of the automatic cycle's summary: the account's display name, its
/// result and error, and `"inactive": true` only for an inactive result.
pub open spec fn cycle_row_view(display_name: Seq<char>, result: JsonV) -> JsonV {
    JsonV::Object(
        with_inactive_mark(
            seq![
                ("email"@, JsonV::Str(display_name)),
                ("result"@, or_null(field(result, "result"@))),
                ("error"@, or_null(field(result, "error"@))),
            ],
            result,
        ),
    )
}

/// A row of the check-in-all summary: as a cycle row, led by the account's id.
pub open spec fn all_row_view(account: JsonV, display_name: Seq<char>, result: JsonV) -> JsonV {
    JsonV::Object(
        with_inactive_mark(
            seq![
                ("accountId"@, or_null(field(account, "id"@))),
                ("email"@, JsonV::Str(display_name)),
                ("result"@, or_null(field(result, "result"@))),
                ("error"@, or_null(field(result, "error"@))),
            ],
            result,
        ),
    )
}

fn push_inactive_mark(fields: &mut Vec<(String, Json)>, result: &Json)
    ensures
        fields_view(final(fields)@) == with_inactive_mark(fields_view(old(fields)@), result@),
{
    let ghost before = fields_view(fields@);
    if flag_field(result, "inactive") == Some(true) {
        fields.push(entry("inactive", Json::Bool(true)));
        assert(fields_view(fields@) =~= before.push(("inactive"@, JsonV::Bool(true))));
    }
}

/// The summary row of one account in an automatic cycle.
pub fn cycle_row(display_name: &str, result: &Json) -> (res: Json)
    ensures
        res@ == cycle_row_view(display_name@, result@),
{
    let mut fields = vec![
        entry("email", Json::text(display_name)),
        entry("result", field_or_null(result, "result")),
        entry("error", field_or_null(result, "error")),
    ];
    assert(fields_view(fields@) =~= seq![
        ("email"@, JsonV::Str(display_name@)),
        ("result"@, or_null(field(result@, "result"@))),
        ("error"@, or_null(field(result@, "error"@))),
    ]);
    push_inactive_mark(&mut fields, result);
    object(fields)
}

/// The summary row of one account in a check-in of all accounts.
pub fn all_row(account: &Json, display_name: &str, result: &Json) -> (res: Json)
    ensures
        res@ == all_row_view(account@, display_name@, result@),
{
    let mut fields = vec![
        entry("accountId", field_or_null(account, "id")),
        entry("email", Json::text(display_name)),
        entry("result", field_or_null(result, "result")),
        entry("error", field_or_null(result, "error")),
    ];
    assert(fields_view(fields@) =~= seq![
        ("accountId"@, or_null(field(account@, "id"@))),
        ("email"@, JsonV::Str(display_name@)),
        ("result"@, or_null(field(result@, "result"@))),
        ("error"@, or_null(field(result@, "error"@))),
    ]);
    push_inactive_mark(&mut fields, result);
    object(fields)
}

/// An account that a check-in of all accounts handles: its edition has
/// check-in and, when an edition is named, is that edition.
pub open spec fn is_checkin_target(account: JsonV, only: Option<WbVariant>) -> bool {
    &&& variant_supports_checkin(account_variant(account))
    &&& match only {
        Some(v) => account_variant(account) == v,
        None => true,
    }
}

/// The accounts that a check-in run handles, in order.
pub fn checkin_targets(accounts: &Vec<Json>, only: Option<WbVariant>) -> (res: Vec<Json>)
    ensures
        items_view(res@) == items_view(accounts@).filter(|a: JsonV| is_checkin_target(a, only)),
{
    let ghost pred = |a: JsonV| is_checkin_target(a, only);
    let mut out: Vec<Json> = Vec::new();
    let mut i: usize = 0;
    assert(items_view(accounts@).take(0).filter(pred) =~= Seq::<JsonV>::empty()) by {
        reveal_with_fuel(Seq::filter, 1);
    }
    assert(items_view(out@) =~= Seq::<JsonV>::empty());
    while i < accounts.len()
        invariant
            i <= accounts@.len(),
            pred == (|a: JsonV| is_checkin_target(a, only)),
            items_view(out@) == items_view(accounts@).take(i as int).filter(pred),
        decreases accounts@.len() - i,
    {
        let ghost prefix = items_view(accounts@).take(i as int);
        let ghost next = items_view(accounts@).take(i + 1);
        assert(next.drop_last() =~= prefix);
        assert(next.last() == accounts@[i as int]@);
        assert(next.filter(pred) == if pred(next.last()) {
            prefix.filter(pred).push(next.last())
        } else {
            prefix.filter(pred)
        }) by {
            reveal_with_fuel(Seq::filter, 1);
        }
        let v = variant_of(&accounts[i]);
        let keep = v.supports_checkin() && match only {
            Some(t) => v == t,
            None => true,
        };
        if keep {
            let c = accounts[i].deep_clone();
            proof {
                lemma_items_view_push(out@, c);
            }
            out.push(c);
        }
        i = i + 1;
    }
    assert(items_view(accounts@).take(accounts@.len() as int) =~= items_view(accounts@));
    out
}

/// The two run modes of the automatic cycle; both verify every account
/// against the service.
#[derive(Clone, Copy, Debug, PartialEq, Eq, Structural)]
pub enum CheckinCycleMode {
    /// Verify every account against the server after a host starts.
    StartupVerify,
    /// Re-verify every account against the server during background recovery.
    PeriodicRecovery,
}

/// The automatic cycle, before any account is handled: skipped while another
/// run holds the run flag; `disabled` unless the configuration's `enabled` is
/// `true`; `no_accounts` when no account has check-in; otherwise the accounts
/// to handle, in order.
pub open spec fn cycle_start_view(acquired: bool, config: JsonV, accounts: Seq<JsonV>) -> Result<Seq<JsonV>, JsonV> {
    let targets = accounts.filter(|a: JsonV| is_checkin_target(a, None));
    if !acquired {
        Err(JsonV::Object(seq![("status"@, JsonV::Str("skipped"@)), ("reason"@, JsonV::Str("already_running"@))]))
    } else if as_flag(field(config, "enabled"@)) != Some(true) {
        Err(JsonV::Object(seq![("status"@, JsonV::Str("disabled"@))]))
    } else if targets.len() == 0 {
        Err(JsonV::Object(seq![("status"@, JsonV::Str("no_accounts"@))]))
    } else {
        Ok(targets)
    }
}

/// The model of a start decision.
pub open spec fn start_view(value: Result<Vec<Json>, Json>) -> Result<Seq<JsonV>, JsonV> {
    match value {
        Ok(v) => Ok(items_view(v@)),
        Err(e) => Err(e@),
    }
}

fn status_reply(status: &str) -> (res: Json)
    ensures
        res@ == JsonV::Object(seq![("status"@, JsonV::Str(status@))]),
{
    let fields = vec![entry("status", Json::text(status))];
    assert(fields_view(fields@) =~= seq![("status"@, JsonV::Str(status@))]);
    object(fields)
}

/// The automatic cycle's start (see [`cycle_start_view`]); `acquired` tells
/// whether this run took the run flag.
pub fn cycle_start(acquired: bool, config: &Json, accounts: &Vec<Json>) -> (res: Result<Vec<Json>, Json>)
    ensures
        start_view(res) == cycle_start_view(acquired, config@, items_view(accounts@)),
{
    if !acquired {
        let fields = vec![entry("status", Json::text("skipped")), entry("reason", Json::text("already_running"))];
        assert(fields_view(fields@) =~= seq![("status"@, JsonV::Str("skipped"@)), ("reason"@, JsonV::Str("already_running"@))]);
        return Err(object(fields));
    }
    if flag_field(config, "enabled") != Some(true) {
        return Err(status_reply("disabled"));
    }
    let targets = checkin_targets(accounts, None);
    if targets.len() == 0 {
        return Err(status_reply("no_accounts"));
    }
    Ok(targets)
}

/// The automatic cycle's summary: `{"status": "ok", "accounts": <rows>}`.
pub fn cycle_summary(rows: Vec<Json>) -> (res: Json)
    ensures
        res@ == JsonV::Object(seq![("status"@, JsonV::Str("ok"@)), ("accounts"@, JsonV::Array(items_view(rows@)))]),
{
    let ghost r = items_view(rows@);
    let fields = vec![entry("status", Json::text("ok")), entry("accounts", array(rows))];
    assert(fields_view(fields@) =~= seq![("status"@, JsonV::Str("ok"@)), ("accounts"@, JsonV::Array(r))]);
    object(fields)
}

/// The reply of a check-in of all accounts while another run holds the flag.
pub open spec fn all_busy_view() -> JsonV {
    JsonV::Object(
        seq![
            ("accounts"@, JsonV::Array(Seq::empty())),
            ("status"@, JsonV::Str("skipped"@)),
            ("reason"@, JsonV::Str("already_running"@)),
        ],
    )
}

/// A check-in of all accounts (optionally only those of one edition), before
/// any account is handled: skipped while another run holds the run flag,
/// otherwise the accounts to handle.
pub fn all_start(acquired: bool, accounts: &Vec<Json>, only: Option<WbVariant>) -> (res: Result<Vec<Json>, Json>)
    ensures
        !acquired ==> start_view(res) == Err::<Seq<JsonV>, JsonV>(all_busy_view()),
        acquired ==> start_view(res) == Ok::<Seq<JsonV>, JsonV>(
            items_view(accounts@).filter(|a: JsonV| is_checkin_target(a, only)),
        ),
{
    if !acquired {
        let empty = array(Vec::new());
        let fields = vec![
            entry("accounts", empty),
            entry("status", Json::text("skipped")),
            entry("reason", Json::text("already_running")),
        ];
        assert(items_view(Seq::<Json>::empty()) =~= Seq::<JsonV>::empty());
        assert(fields_view(fields@) =~= seq![
            ("accounts"@, JsonV::Array(Seq::empty())),
            ("status"@, JsonV::Str("skipped"@)),
            ("reason"@, JsonV::Str("already_running"@)),
        ]);
        return Err(object(fields));
    }
    Ok(checkin_targets(accounts, only))
}

/// The summary of a check-in of all accounts: `{"accounts": <rows>}`.
pub fn all_summary(rows: Vec<Json>) -> (res: Json)
    ensures
        res@ == JsonV::Object(seq![("accounts"@, JsonV::Array(items_view(rows@)))]),
{
    let ghost r = items_view(rows@);
    let fields = vec![entry("accounts", array(rows))];
    assert(fields_view(fields@) =~= seq![("accounts"@, JsonV::Array(r))]);
    object(fields)
}

/// The texts of a list of strings.
pub open spec fn name_texts(names: Seq<String>) -> Seq<Seq<char>> {
    names.map_values(|s: String| s@)
}

/// The rows of an automatic cycle, one per target in order: `names[i]` is the
/// display name of target `i` and `results[i]` its check-in result.
pub open spec fn cycle_rows_view(names: Seq<Seq<char>>, results: Seq<JsonV>) -> Seq<JsonV> {
    Seq::new(names.len(), |i: int| cycle_row_view(names[i], results[i]))
}

/// The report of an automatic cycle that ran: `{"status": "ok", "accounts":
/// <rows>}`, one row per target in order.
pub open spec fn cycle_report_view(names: Seq<Seq<char>>, results: Seq<JsonV>) -> JsonV {
    JsonV::Object(
        seq![("status"@, JsonV::Str("ok"@)), ("accounts"@, JsonV::Array(cycle_rows_view(names, results)))],
    )
}

/// The report of an automatic cycle from the results of its targets, taken in
/// order (`names[i]` and `results[i]` belong to target `i`).
pub fn cycle_report(names: &Vec<String>, results: &Vec<Json>) -> (res: Json)
    requires
        names@.len() == results@.len(),
    ensures
        res@ == cycle_report_view(name_texts(names@), items_view(results@)),
{
    let mut rows: Vec<Json> = Vec::new();
    let mut i: usize = 0;
    while i < names.len()
        invariant
            i <= names@.len(),
            names@.len() == results@.len(),
            items_view(rows@) =~= cycle_rows_view(name_texts(names@), items_view(results@)).take(i as int),
        decreases names@.len() - i,
    {
        let row = cycle_row(names[i].as_str(), &results[i]);
        let ghost before = rows@;
        rows.push(row);
        proof {
            lemma_items_view_push(before, row);
        }
        i = i + 1;
    }
    assert(cycle_rows_view(name_texts(names@), items_view(results@)).take(names@.len() as int)
        =~= cycle_rows_view(name_texts(names@), items_view(results@)));
    cycle_summary(rows)
}

/// The rows of a check-in of all accounts, one per target in order:
/// `targets[i]` is the account, `names[i]` its display name and `results[i]`
/// its check-in result.
pub open spec fn all_rows_view(targets: Seq<JsonV>, names: Seq<Seq<char>>, results: Seq<JsonV>) -> Seq<JsonV> {
    Seq::new(targets.len(), |i: int| all_row_view(targets[i], names[i], results[i]))
}

/// The report of a check-in of all accounts that ran: `{"accounts": <rows>}`,
/// one row per target in order.
pub open spec fn all_report_view(targets: Seq<JsonV>, names: Seq<Seq<char>>, results: Seq<JsonV>) -> JsonV {
    JsonV::Object(seq![("accounts"@, JsonV::Array(all_rows_view(targets, names, results)))])
}

/// The report of a check-in of all accounts from the results of its targets,
/// taken in order.
pub fn all_report(targets: &Vec<Json>, names: &Vec<String>, results: &Vec<Json>) -> (res: Json)
    requires
        targets@.len() == names@.len(),
        names@.len() == results@.len(),
    ensures
        res@ == all_report_view(items_view(targets@), name_texts(names@), items_view(results@)),
{
    let mut rows: Vec<Json> = Vec::new();
    let mut i: usize = 0;
    while i < targets.len()
        invariant
            i <= targets@.len(),
            targets@.len() == names@.len(),
            names@.len() == results@.len(),
            items_view(rows@) =~= all_rows_view(items_view(targets@), name_texts(names@), items_view(results@)).take(
                i as int,
            ),
        decreases targets@.len() - i,
    {
        let row = all_row(&targets[i], names[i].as_str(), &results[i]);
        let ghost before = rows@;
        rows.push(row);
        proof {
            lemma_items_view_push(before, row);
        }
        i = i + 1;
    }
    assert(all_rows_view(items_view(targets@), name_texts(names@), items_view(results@)).take(targets@.len() as int)
        =~= all_rows_view(items_view(targets@), name_texts(names@), items_view(results@)));
    all_summary(rows)
}

} // verus!

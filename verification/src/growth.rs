//! Growth center: device ids, task names, reading task lists, accepting and
//! claiming tasks, event reports, lottery and blind boxes.

use vstd::prelude::*;
use vstd::string::*;
use crate::checkin::{has_refresh_token, or_null, unauthorized_reply, account_has_refresh_token, field_or_null, is_unauthorized};
use crate::json::{
    array, as_flag, as_int, as_items, as_text, entry, field, fields_view, items_view,
    lemma_empty_items, lemma_items_view_push, object, Json, JsonV,
};
use crate::reply::{code_of, data_of, data_or_empty, empty_object, message_or_empty, message_or_empty_of, reply_code};
use crate::text::{digits, i64_to_text, int_text, nat_to_text};
use crate::events::{report_envelope, report_envelope_view};
use crate::variant::{account_variant, variant_of, WbVariant};
use crate::text::text_eq;

verus! {

/// What SHA-1 gives for a byte string.
pub uninterp spec fn sha1_of(data: Seq<u8>) -> Seq<u8>;

/// `sha1::Sha1::digest`: the SHA-1 digest of the bytes, 20 bytes long.
#[verifier::external_body]
fn sha1_digest(data: &[u8]) -> (res: Vec<u8>)
    ensures
        res@ == sha1_of(data@),
        res@.len() == 20,
{
    <sha1::Sha1 as sha1::Digest>::digest(data).to_vec()
}

/// The lowercase hexadecimal digit of a value below 16.
pub open spec fn hex_char(d: nat) -> char {
    if d < 10 {
        crate::text::digit_char(d)
    } else if d == 10 {
        'a'
    } else if d == 11 {
        'b'
    } else if d == 12 {
        'c'
    } else if d == 13 {
        'd'
    } else if d == 14 {
        'e'
    } else {
        'f'
    }
}

/// The lowercase hexadecimal text of bytes, two digits per byte.
pub open spec fn hex_lower(bytes: Seq<u8>) -> Seq<char>
    decreases bytes.len(),
{
    if bytes.len() == 0 {
        Seq::empty()
    } else {
        hex_lower(bytes.drop_last()) + seq![
            hex_char((bytes.last() / 16) as nat),
            hex_char((bytes.last() % 16) as nat),
        ]
    }
}

/// A lowercase hexadecimal digit.
pub open spec fn is_hex_digit(c: char) -> bool {
    ('0' <= c <= '9') || ('a' <= c <= 'f')
}

/// The device id derived from an account's uid and a salt: the first 36
/// lowercase hex digits of the SHA-1 digest of the UTF-8 text `salt:uid`.
pub open spec fn derived_id(uid: Seq<char>, salt: Seq<char>) -> Seq<char> {
    hex_lower(sha1_of(vstd::utf8::encode_utf8(salt + ":"@ + uid))).take(36)
}

fn hex_digit_str(d: u8) -> (res: &'static str)
    requires
        d < 16,
    ensures
        res@ == seq![hex_char(d as nat)],
{
    proof {
        reveal_strlit("0");
        reveal_strlit("1");
        reveal_strlit("2");
        reveal_strlit("3");
        reveal_strlit("4");
        reveal_strlit("5");
        reveal_strlit("6");
        reveal_strlit("7");
        reveal_strlit("8");
        reveal_strlit("9");
        reveal_strlit("a");
        reveal_strlit("b");
        reveal_strlit("c");
        reveal_strlit("d");
        reveal_strlit("e");
        reveal_strlit("f");
    }
    if d == 0 {
        "0"
    } else if d == 1 {
        "1"
    } else if d == 2 {
        "2"
    } else if d == 3 {
        "3"
    } else if d == 4 {
        "4"
    } else if d == 5 {
        "5"
    } else if d == 6 {
        "6"
    } else if d == 7 {
        "7"
    } else if d == 8 {
        "8"
    } else if d == 9 {
        "9"
    } else if d == 10 {
        "a"
    } else if d == 11 {
        "b"
    } else if d == 12 {
        "c"
    } else if d == 13 {
        "d"
    } else if d == 14 {
        "e"
    } else {
        "f"
    }
}

/// The lowercase hexadecimal text of bytes.
pub fn to_hex_lower(bytes: &Vec<u8>) -> (res: String)
    ensures
        res@ == hex_lower(bytes@),
        res@.len() == 2 * bytes@.len(),
{
    let mut out = String::new();
    let mut i: usize = 0;
    while i < bytes.len()
        invariant
            i <= bytes@.len(),
            out@ == hex_lower(bytes@.take(i as int)),
            out@.len() == 2 * i,
        decreases bytes@.len() - i,
    {
        let b = bytes[i];
        out.append(hex_digit_str(b / 16));
        out.append(hex_digit_str(b % 16));
        proof {
            let t = bytes@.take(i + 1);
            assert(t.drop_last() =~= bytes@.take(i as int));
            assert(t.last() == b);
        }
        i = i + 1;
    }
    assert(bytes@.take(bytes@.len() as int) =~= bytes@);
    out
}

/// Every character of a hexadecimal text is a lowercase hex digit.
pub proof fn lemma_hex_lower_digits(bytes: Seq<u8>)
    ensures
        hex_lower(bytes).len() == 2 * bytes.len(),
        forall|i: int| 0 <= i < hex_lower(bytes).len() ==> is_hex_digit(#[trigger] hex_lower(bytes)[i]),
    decreases bytes.len(),
{
    if bytes.len() > 0 {
        lemma_hex_lower_digits(bytes.drop_last());
        let h = hex_lower(bytes);
        let p = hex_lower(bytes.drop_last());
        assert forall|i: int| 0 <= i < h.len() implies is_hex_digit(#[trigger] h[i]) by {
            if i < p.len() {
                assert(h[i] == p[i]);
            }
        }
    }
}

/// The device id derived from a uid and a salt (`derive_id`).
pub fn derive_id(uid: &str, salt: &str) -> (res: String)
    ensures
        res@ == derived_id(uid@, salt@),
        res@.len() == 36,
        forall|i: int| 0 <= i < 36 ==> is_hex_digit(#[trigger] res@[i]),
{
    let mut text = String::from_str(salt);
    text.append(":");
    text.append(uid);
    let bytes = text.as_str().as_bytes();
    let digest = sha1_digest(bytes);
    let hex = to_hex_lower(&digest);
    let res = hex.as_str().substring_char(0, 36).to_owned();
    proof {
        lemma_hex_lower_digits(digest@);
        assert(res@ =~= hex@.take(36));
    }
    res
}

/// The display name of a task code; an unknown code names itself.
pub open spec fn task_name(code: Seq<char>) -> Seq<char> {
    if code == "design_creative"@ {
        "设计创意模式"@
    } else if code == "explore_inspiration"@ {
        "探索优秀灵感"@
    } else if code == "desktop_chat"@ {
        "桌面端对话"@
    } else if code == "try_skill"@ {
        "尝鲜热门技能"@
    } else if code == "use_library"@ {
        "体验资料库"@
    } else if code == "tencent_cloud_expert"@ {
        "腾讯轻量云专家"@
    } else if code == "peacekeeper_theme"@ {
        "和平精英主题"@
    } else if code == "Buddy_App"@ {
        "发现应用"@
    } else if code == "Buddy_App_QQ"@ {
        "企鹅教师助手"@
    } else if code == "glm_chat"@ {
        "GLM-5.2模型对话"@
    } else if code == "chat_5_times"@ {
        "和AI聊天5次"@
    } else if code == "night_owl"@ {
        "夜猫子活动"@
    } else if code == "summon_team"@ {
        "召唤3次专家团"@
    } else if code == "summon_expert"@ {
        "召唤5次专家"@
    } else if code == "template_5"@ {
        "使用5个模板"@
    } else if code == "set_automation"@ {
        "设置自动化任务"@
    } else if code == "adopt_buddy"@ {
        "领取Buddy"@
    } else {
        code
    }
}

/// The display name of a task code (`task_cn`).
pub fn task_cn(code: &str) -> (res: String)
    ensures
        res@ == task_name(code@),
{
    let name: &str = if text_eq(code, "design_creative") {
        "设计创意模式"
    } else if text_eq(code, "explore_inspiration") {
        "探索优秀灵感"
    } else if text_eq(code, "desktop_chat") {
        "桌面端对话"
    } else if text_eq(code, "try_skill") {
        "尝鲜热门技能"
    } else if text_eq(code, "use_library") {
        "体验资料库"
    } else if text_eq(code, "tencent_cloud_expert") {
        "腾讯轻量云专家"
    } else if text_eq(code, "peacekeeper_theme") {
        "和平精英主题"
    } else if text_eq(code, "Buddy_App") {
        "发现应用"
    } else if text_eq(code, "Buddy_App_QQ") {
        "企鹅教师助手"
    } else if text_eq(code, "glm_chat") {
        "GLM-5.2模型对话"
    } else if text_eq(code, "chat_5_times") {
        "和AI聊天5次"
    } else if text_eq(code, "night_owl") {
        "夜猫子活动"
    } else if text_eq(code, "summon_team") {
        "召唤3次专家团"
    } else if text_eq(code, "summon_expert") {
        "召唤5次专家"
    } else if text_eq(code, "template_5") {
        "使用5个模板"
    } else if text_eq(code, "set_automation") {
        "设置自动化任务"
    } else if text_eq(code, "adopt_buddy") {
        "领取Buddy"
    } else {
        code
    };
    name.to_owned()
}

/// After the first reply to a growth-center request: refresh the token and
/// send the request once more when the login was rejected and the account has
/// a refresh token.
pub open spec fn growth_retry_wanted(reply: JsonV, account: JsonV) -> bool {
    unauthorized_reply(reply) && has_refresh_token(account)
}

/// The decision that follows the first reply to a growth-center request.
pub fn growth_should_retry(resp: &Json, account: &Json) -> (res: bool)
    ensures
        res == growth_retry_wanted(resp@, account@),
{
    is_unauthorized(resp) && account_has_refresh_token(account)
}

/// A count as a JSON number: an integer when it fits `i64`, else its text.
pub open spec fn count_value(n: nat) -> JsonV {
    if n <= i64::MAX {
        JsonV::Int(n as int)
    } else {
        JsonV::OtherNumber(digits(n))
    }
}

/// A count as a JSON number.
pub fn count_json(n: usize) -> (res: Json)
    ensures
        res@ == count_value(n as nat),
{
    if n as u64 <= i64::MAX as u64 {
        Json::Int(n as i64)
    } else {
        Json::OtherNumber(nat_to_text(n as u64))
    }
}

/// The text of a field, or the empty text.
pub open spec fn text_or_empty(value: Option<JsonV>) -> Seq<char> {
    match as_text(value) {
        Some(t) => t,
        None => Seq::empty(),
    }
}

/// One task of the task list, as shown: its code, display name, acceptance
/// status, status, progress (`current` and `target` of its `progress`
/// object, `null` when absent) and the raw task.
pub open spec fn task_item_view(task: JsonV) -> JsonV {
    let code = text_or_empty(field(task, "task_code"@));
    let progress = field(task, "progress"@);
    let current = match progress {
        Some(JsonV::Object(_)) => or_null(field(progress->0, "current"@)),
        _ => JsonV::Null,
    };
    let target = match progress {
        Some(JsonV::Object(_)) => or_null(field(progress->0, "target"@)),
        _ => JsonV::Null,
    };
    JsonV::Object(
        seq![
            ("taskCode"@, JsonV::Str(code)),
            ("name"@, JsonV::Str(task_name(code))),
            ("acceptStatus"@, or_null(field(task, "accept_status"@))),
            ("status"@, or_null(field(task, "status"@))),
            ("current"@, current),
            ("target"@, target),
            ("raw"@, task),
        ],
    )
}

/// The task objects of a list (other values are left out), as shown.
pub open spec fn task_items(tasks: Seq<JsonV>) -> Seq<JsonV> {
    tasks.filter(|t: JsonV| t is Object).map_values(|t: JsonV| task_item_view(t))
}

/// The task list read from its reply: for a code other than 0 or 200,
/// `{"ok": false, "error": <message, or code=<code> when empty>}`; otherwise
/// `{"ok": true, "tasks": <the shown task objects of data.tasks>}`.
pub open spec fn task_list_view(reply: JsonV) -> JsonV {
    let code = reply_code(reply);
    if code != 0 && code != 200 {
        let msg = message_or_empty(reply);
        JsonV::Object(
            seq![
                ("ok"@, JsonV::Bool(false)),
                ("error"@, JsonV::Str(if msg.len() == 0 {
                    "code="@ + int_text(code)
                } else {
                    msg
                })),
            ],
        )
    } else {
        let tasks = match as_items(field(data_or_empty(reply), "tasks"@)) {
            Some(t) => t,
            None => Seq::empty(),
        };
        JsonV::Object(
            seq![("ok"@, JsonV::Bool(true)), ("tasks"@, JsonV::Array(task_items(tasks)))],
        )
    }
}

pub(crate) fn text_or_empty_of(value: Option<&Json>) -> (res: &str)
    ensures
        res@ == text_or_empty(crate::json::opt_view(value)),
{
    proof {
        reveal_strlit("");
    }
    match value {
        Some(v) => match v.as_str() {
            Some(t) => t,
            None => "",
        },
        None => "",
    }
}

/// One task, as shown.
pub fn task_item(task: &Json) -> (res: Json)
    ensures
        res@ == task_item_view(task@),
{
    let code = text_or_empty_of(task.get("task_code"));
    let (current, target) = match task.get("progress") {
        Some(p) => match p {
            Json::Object(_) => (field_or_null(p, "current"), field_or_null(p, "target")),
            _ => (Json::Null, Json::Null),
        },
        None => (Json::Null, Json::Null),
    };
    let ghost cv = current@;
    let ghost tv = target@;
    let fields = vec![
        entry("taskCode", Json::text(code)),
        entry("name", Json::Str(task_cn(code))),
        entry("acceptStatus", field_or_null(task, "accept_status")),
        entry("status", field_or_null(task, "status")),
        entry("current", current),
        entry("target", target),
        entry("raw", task.deep_clone()),
    ];
    assert(cv == match field(task@, "progress"@) {
        Some(JsonV::Object(_)) => or_null(field(field(task@, "progress"@)->0, "current"@)),
        _ => JsonV::Null,
    });
    assert(tv == match field(task@, "progress"@) {
        Some(JsonV::Object(_)) => or_null(field(field(task@, "progress"@)->0, "target"@)),
        _ => JsonV::Null,
    });
    assert(fields_view(fields@) =~= seq![
        ("taskCode"@, JsonV::Str(code@)),
        ("name"@, JsonV::Str(task_name(code@))),
        ("acceptStatus"@, or_null(field(task@, "accept_status"@))),
        ("status"@, or_null(field(task@, "status"@))),
        ("current"@, cv),
        ("target"@, tv),
        ("raw"@, task@),
    ]);
    object(fields)
}

/// The shown task objects of a list, in order.
pub fn task_items_of(tasks: &Vec<Json>) -> (res: Vec<Json>)
    ensures
        items_view(res@) == task_items(items_view(tasks@)),
{
    let ghost pred = |t: JsonV| t is Object;
    let ghost f = |t: JsonV| task_item_view(t);
    let mut out: Vec<Json> = Vec::new();
    let mut i: usize = 0;
    assert(items_view(tasks@).take(0).filter(pred) =~= Seq::<JsonV>::empty()) by {
        reveal_with_fuel(Seq::filter, 1);
    }
    assert(items_view(out@) =~= items_view(tasks@).take(0).filter(pred).map_values(f));
    while i < tasks.len()
        invariant
            i <= tasks@.len(),
            pred == (|t: JsonV| t is Object),
            f == (|t: JsonV| task_item_view(t)),
            items_view(out@) == items_view(tasks@).take(i as int).filter(pred).map_values(f),
        decreases tasks@.len() - i,
    {
        let ghost prefix = items_view(tasks@).take(i as int);
        let ghost next = items_view(tasks@).take(i + 1);
        assert(next.drop_last() =~= prefix);
        assert(next.last() == tasks@[i as int]@);
        assert(next.filter(pred) == if pred(next.last()) {
            prefix.filter(pred).push(next.last())
        } else {
            prefix.filter(pred)
        }) by {
            reveal_with_fuel(Seq::filter, 1);
        }
        let is_object = match &tasks[i] {
            Json::Object(_) => true,
            _ => false,
        };
        if is_object {
            let item = task_item(&tasks[i]);
            proof {
                lemma_items_view_push(out@, item);
                assert(prefix.filter(pred).push(next.last()).map_values(f) =~= prefix.filter(pred).map_values(f).push(f(next.last())));
            }
            out.push(item);
        }
        i = i + 1;
    }
    assert(items_view(tasks@).take(tasks@.len() as int) =~= items_view(tasks@));
    out
}

/// The items of an array field of `data`, or none.
pub open spec fn data_items(reply: JsonV, key: Seq<char>) -> Seq<JsonV> {
    match as_items(field(data_or_empty(reply), key)) {
        Some(t) => t,
        None => Seq::empty(),
    }
}

fn data_items_of(reply: &Json, key: &str) -> (res: Vec<Json>)
    ensures
        items_view(res@) == data_items(reply@, key@),
{
    let data = data_of(reply);
    match data.get(key) {
        Some(v) => match v {
            Json::Array(items) => {
                let res = crate::json::clone_items(items);
                assert(v@ == JsonV::Array(items_view(items@))) by {
                    if let JsonV::Array(a) = v@ {
                        assert(a =~= items_view(items@));
                    }
                }
                res
            },
            _ => {
                proof {
                    crate::json::lemma_empty_items();
                }
                Vec::new()
            },
        },
        None => {
            proof {
                crate::json::lemma_empty_items();
            }
            Vec::new()
        },
    }
}

/// Reads the task list from its reply (`list_tasks`).
pub fn task_list_from_reply(resp: &Json) -> (res: Json)
    ensures
        res@ == task_list_view(resp@),
{
    let code = code_of(resp);
    if code != 0 && code != 200 {
        let msg = message_or_empty_of(resp);
        let error = if msg.unicode_len() == 0 {
            let mut t = String::from_str("code=");
            let n = i64_to_text(code);
            t.append(n.as_str());
            t
        } else {
            msg.to_owned()
        };
        let ghost ev = error@;
        let fields = vec![entry("ok", Json::Bool(false)), entry("error", Json::Str(error))];
        assert(fields_view(fields@) =~= seq![("ok"@, JsonV::Bool(false)), ("error"@, JsonV::Str(ev))]);
        return object(fields);
    }
    let tasks = data_items_of(resp, "tasks");
    let items = task_items_of(&tasks);
    let ghost iv = items_view(items@);
    let fields = vec![entry("ok", Json::Bool(true)), entry("tasks", array(items))];
    assert(fields_view(fields@) =~= seq![("ok"@, JsonV::Bool(true)), ("tasks"@, JsonV::Array(iv))]);
    object(fields)
}

/// The result of accepting no task: `{"ok": true, "accepted": 0, "results": []}`.
pub open spec fn accept_nothing_summary_view() -> JsonV {
    JsonV::Object(
        seq![
            ("ok"@, JsonV::Bool(true)),
            ("accepted"@, JsonV::Int(0)),
            ("results"@, JsonV::Array(Seq::empty())),
        ],
    )
}

/// The result of accepting no task: `{"ok": true, "accepted": 0, "results": []}`.
pub fn accept_nothing_summary() -> (res: Json)
    ensures
        res@ == accept_nothing_summary_view(),
{
    proof {
        lemma_empty_items();
    }
    let fields = vec![
        entry("ok", Json::Bool(true)),
        entry("accepted", Json::Int(0)),
        entry("results", array(Vec::new())),
    ];
    assert(fields_view(fields@) =~= seq![
        ("ok"@, JsonV::Bool(true)),
        ("accepted"@, JsonV::Int(0)),
        ("results"@, JsonV::Array(Seq::empty())),
    ]);
    object(fields)
}

/// What a growth run records when no task awaits acceptance.
pub open spec fn accept_skipped_summary_view() -> JsonV {
    JsonV::Object(
        seq![
            ("accepted"@, JsonV::Int(0)),
            ("results"@, JsonV::Array(Seq::empty())),
        ],
    )
}

/// What a growth run records when no task awaits acceptance.
pub fn accept_skipped_summary() -> (res: Json)
    ensures
        res@ == accept_skipped_summary_view(),
{
    proof {
        lemma_empty_items();
    }
    let fields = vec![
        entry("accepted", Json::Int(0)),
        entry("results", array(Vec::new())),
    ];
    assert(fields_view(fields@) =~= seq![
        ("accepted"@, JsonV::Int(0)),
        ("results"@, JsonV::Array(Seq::empty())),
    ]);
    object(fields)
}

/// The reply of an event report for an account without a uid.
pub open spec fn no_uid_reply_view() -> JsonV {
    JsonV::Object(
        seq![
            ("ok"@, JsonV::Bool(false)),
            ("error"@, JsonV::Str("账号缺少 uid"@)),
        ],
    )
}

/// The reply of an event report for an account without a uid.
pub fn no_uid_reply() -> (res: Json)
    ensures
        res@ == no_uid_reply_view(),
{
    let fields = vec![
        entry("ok", Json::Bool(false)),
        entry("error", Json::text("账号缺少 uid")),
    ];
    assert(fields_view(fields@) =~= seq![
        ("ok"@, JsonV::Bool(false)),
        ("error"@, JsonV::Str("账号缺少 uid"@)),
    ]);
    object(fields)
}

/// The reply of a growth run for an edition without the growth center.
pub open spec fn growth_unsupported_reply_view() -> JsonV {
    JsonV::Object(
        seq![
            ("ok"@, JsonV::Bool(false)),
            ("skipped"@, JsonV::Bool(true)),
            ("reason"@, JsonV::Str("仅国内版支持成长中心"@)),
        ],
    )
}

/// The reply of a growth run for an edition without the growth center.
pub fn growth_unsupported_reply() -> (res: Json)
    ensures
        res@ == growth_unsupported_reply_view(),
{
    let fields = vec![
        entry("ok", Json::Bool(false)),
        entry("skipped", Json::Bool(true)),
        entry("reason", Json::text("仅国内版支持成长中心")),
    ];
    assert(fields_view(fields@) =~= seq![
        ("ok"@, JsonV::Bool(false)),
        ("skipped"@, JsonV::Bool(true)),
        ("reason"@, JsonV::Str("仅国内版支持成长中心"@)),
    ]);
    object(fields)
}

/// The task list of an edition without the growth center.
pub open spec fn growth_unsupported_tasks_reply_view() -> JsonV {
    JsonV::Object(
        seq![
            ("ok"@, JsonV::Bool(false)),
            ("skipped"@, JsonV::Bool(true)),
            ("reason"@, JsonV::Str("仅国内版支持成长中心"@)),
            ("tasks"@, JsonV::Array(Seq::empty())),
        ],
    )
}

/// The task list of an edition without the growth center.
pub fn growth_unsupported_tasks_reply() -> (res: Json)
    ensures
        res@ == growth_unsupported_tasks_reply_view(),
{
    proof {
        lemma_empty_items();
    }
    let fields = vec![
        entry("ok", Json::Bool(false)),
        entry("skipped", Json::Bool(true)),
        entry("reason", Json::text("仅国内版支持成长中心")),
        entry("tasks", array(Vec::new())),
    ];
    assert(fields_view(fields@) =~= seq![
        ("ok"@, JsonV::Bool(false)),
        ("skipped"@, JsonV::Bool(true)),
        ("reason"@, JsonV::Str("仅国内版支持成长中心"@)),
        ("tasks"@, JsonV::Array(Seq::empty())),
    ]);
    object(fields)
}

/// The reply for an account id that names no stored account.
pub open spec fn account_missing_reply_view() -> JsonV {
    JsonV::Object(
        seq![
            ("ok"@, JsonV::Bool(false)),
            ("error"@, JsonV::Str("账号不存在"@)),
        ],
    )
}

/// The reply for an account id that names no stored account.
pub fn account_missing_reply() -> (res: Json)
    ensures
        res@ == account_missing_reply_view(),
{
    let fields = vec![
        entry("ok", Json::Bool(false)),
        entry("error", Json::text("账号不存在")),
    ];
    assert(fields_view(fields@) =~= seq![
        ("ok"@, JsonV::Bool(false)),
        ("error"@, JsonV::Str("账号不存在"@)),
    ]);
    object(fields)
}

/// The reply of a growth run of all accounts while another one is in progress.
pub open spec fn growth_busy_reply_view() -> JsonV {
    JsonV::Object(
        seq![
            ("ok"@, JsonV::Bool(false)),
            ("status"@, JsonV::Str("skipped"@)),
            ("reason"@, JsonV::Str("already_running"@)),
        ],
    )
}

/// The reply of a growth run of all accounts while another one is in progress.
pub fn growth_busy_reply() -> (res: Json)
    ensures
        res@ == growth_busy_reply_view(),
{
    let fields = vec![
        entry("ok", Json::Bool(false)),
        entry("status", Json::text("skipped")),
        entry("reason", Json::text("already_running")),
    ];
    assert(fields_view(fields@) =~= seq![
        ("ok"@, JsonV::Bool(false)),
        ("status"@, JsonV::Str("skipped"@)),
        ("reason"@, JsonV::Str("already_running"@)),
    ]);
    object(fields)
}

/// The summary of a growth run of all accounts.
pub open spec fn growth_summary_view(rows: JsonV) -> JsonV {
    JsonV::Object(
        seq![
            ("ok"@, JsonV::Bool(true)),
            ("accounts"@, rows),
        ],
    )
}

/// The summary of a growth run of all accounts.
pub fn growth_summary(rows: Json) -> (res: Json)
    ensures
        res@ == growth_summary_view(rows@),
{
    let ghost rows_v = rows@;
    let fields = vec![
        entry("ok", Json::Bool(true)),
        entry("accounts", rows),
    ];
    assert(fields_view(fields@) =~= seq![
        ("ok"@, JsonV::Bool(true)),
        ("accounts"@, rows_v),
    ]);
    object(fields)
}

/// The summary row of one account in a growth run of all accounts.
pub open spec fn growth_row_view(account_id: JsonV, display_name: Seq<char>, result: JsonV) -> JsonV {
    JsonV::Object(
        seq![
            ("accountId"@, account_id),
            ("account"@, JsonV::Str(display_name)),
            ("result"@, result),
        ],
    )
}

/// The summary row of one account in a growth run of all accounts.
pub fn growth_row(account_id: Json, display_name: &str, result: Json) -> (res: Json)
    ensures
        res@ == growth_row_view(account_id@, display_name@, result@),
{
    let ghost account_id_v = account_id@;
    let ghost result_v = result@;
    let fields = vec![
        entry("accountId", account_id),
        entry("account", Json::text(display_name)),
        entry("result", result),
    ];
    assert(fields_view(fields@) =~= seq![
        ("accountId"@, account_id_v),
        ("account"@, JsonV::Str(display_name@)),
        ("result"@, result_v),
    ]);
    object(fields)
}

/// The summary of one account's growth run.
pub open spec fn growth_once_summary_view(display_name: Seq<char>, accepted: JsonV, progressed: JsonV, claimed: JsonV, lottery: JsonV, blindbox: JsonV, profile: JsonV) -> JsonV {
    JsonV::Object(
        seq![
            ("ok"@, JsonV::Bool(true)),
            ("account"@, JsonV::Str(display_name)),
            ("accepted"@, accepted),
            ("progressed"@, progressed),
            ("claimed"@, claimed),
            ("lottery"@, lottery),
            ("blindbox"@, blindbox),
            ("profile"@, profile),
        ],
    )
}

/// The summary of one account's growth run.
pub fn growth_once_summary(display_name: &str, accepted: Json, progressed: Json, claimed: Json, lottery: Json, blindbox: Json, profile: Json) -> (res: Json)
    ensures
        res@ == growth_once_summary_view(display_name@, accepted@, progressed@, claimed@, lottery@, blindbox@, profile@),
{
    let ghost accepted_v = accepted@;
    let ghost progressed_v = progressed@;
    let ghost claimed_v = claimed@;
    let ghost lottery_v = lottery@;
    let ghost blindbox_v = blindbox@;
    let ghost profile_v = profile@;
    let fields = vec![
        entry("ok", Json::Bool(true)),
        entry("account", Json::text(display_name)),
        entry("accepted", accepted),
        entry("progressed", progressed),
        entry("claimed", claimed),
        entry("lottery", lottery),
        entry("blindbox", blindbox),
        entry("profile", profile),
    ];
    assert(fields_view(fields@) =~= seq![
        ("ok"@, JsonV::Bool(true)),
        ("account"@, JsonV::Str(display_name@)),
        ("accepted"@, accepted_v),
        ("progressed"@, progressed_v),
        ("claimed"@, claimed_v),
        ("lottery"@, lottery_v),
        ("blindbox"@, blindbox_v),
        ("profile"@, profile_v),
    ]);
    object(fields)
}

/// The body of a request that accepts tasks.
pub open spec fn accept_body_view(codes: JsonV) -> JsonV {
    JsonV::Object(
        seq![
            ("task_codes"@, codes),
        ],
    )
}

/// The body of a request that accepts tasks.
pub fn accept_body(codes: Json) -> (res: Json)
    ensures
        res@ == accept_body_view(codes@),
{
    let ghost codes_v = codes@;
    let fields = vec![
        entry("task_codes", codes),
    ];
    assert(fields_view(fields@) =~= seq![
        ("task_codes"@, codes_v),
    ]);
    object(fields)
}

/// The body of a lottery draw.
pub open spec fn draw_body_view(token: Seq<char>) -> JsonV {
    JsonV::Object(
        seq![
            ("client_token"@, JsonV::Str(token)),
        ],
    )
}

/// The body of a lottery draw.
pub fn draw_body(token: &str) -> (res: Json)
    ensures
        res@ == draw_body_view(token@),
{
    let fields = vec![
        entry("client_token", Json::text(token)),
    ];
    assert(fields_view(fields@) =~= seq![
        ("client_token"@, JsonV::Str(token@)),
    ]);
    object(fields)
}

/// The body of a blind-box opening.
pub open spec fn open_box_body_view() -> JsonV {
    JsonV::Object(
        seq![
            ("count"@, JsonV::Int(1)),
        ],
    )
}

/// The body of a blind-box opening.
pub fn open_box_body() -> (res: Json)
    ensures
        res@ == open_box_body_view(),
{
    let fields = vec![
        entry("count", Json::Int(1)),
    ];
    assert(fields_view(fields@) =~= seq![
        ("count"@, JsonV::Int(1)),
    ]);
    object(fields)
}

/// The result of an event report: the number of events sent and the raw reply.
pub open spec fn report_summary_view(count: JsonV, raw: JsonV) -> JsonV {
    JsonV::Object(
        seq![
            ("ok"@, JsonV::Bool(true)),
            ("count"@, count),
            ("raw"@, raw),
        ],
    )
}

/// The result of an event report: the number of events sent and the raw reply.
pub fn report_summary(count: Json, raw: Json) -> (res: Json)
    ensures
        res@ == report_summary_view(count@, raw@),
{
    let ghost count_v = count@;
    let ghost raw_v = raw@;
    let fields = vec![
        entry("ok", Json::Bool(true)),
        entry("count", count),
        entry("raw", raw),
    ];
    assert(fields_view(fields@) =~= seq![
        ("ok"@, JsonV::Bool(true)),
        ("count"@, count_v),
        ("raw"@, raw_v),
    ]);
    object(fields)
}

/// The result of claiming every finished task.
pub open spec fn claim_all_summary_view(claimed: JsonV, already: JsonV) -> JsonV {
    JsonV::Object(
        seq![
            ("ok"@, JsonV::Bool(true)),
            ("claimed"@, claimed),
            ("already"@, already),
        ],
    )
}

/// The result of claiming every finished task.
pub fn claim_all_summary(claimed: Json, already: Json) -> (res: Json)
    ensures
        res@ == claim_all_summary_view(claimed@, already@),
{
    let ghost claimed_v = claimed@;
    let ghost already_v = already@;
    let fields = vec![
        entry("ok", Json::Bool(true)),
        entry("claimed", claimed),
        entry("already", already),
    ];
    assert(fields_view(fields@) =~= seq![
        ("ok"@, JsonV::Bool(true)),
        ("claimed"@, claimed_v),
        ("already"@, already_v),
    ]);
    object(fields)
}

/// One claimed task.
pub open spec fn claimed_entry_view(code: Seq<char>, name: Seq<char>, data: JsonV) -> JsonV {
    JsonV::Object(
        seq![
            ("code"@, JsonV::Str(code)),
            ("name"@, JsonV::Str(name)),
            ("data"@, data),
        ],
    )
}

/// One claimed task.
pub fn claimed_entry(code: &str, name: &str, data: Json) -> (res: Json)
    ensures
        res@ == claimed_entry_view(code@, name@, data@),
{
    let ghost data_v = data@;
    let fields = vec![
        entry("code", Json::text(code)),
        entry("name", Json::text(name)),
        entry("data", data),
    ];
    assert(fields_view(fields@) =~= seq![
        ("code"@, JsonV::Str(code@)),
        ("name"@, JsonV::Str(name@)),
        ("data"@, data_v),
    ]);
    object(fields)
}

/// The result of claiming one task.
pub open spec fn claim_result_view(code: Seq<char>, already_claimed: JsonV, data: JsonV) -> JsonV {
    JsonV::Object(
        seq![
            ("ok"@, JsonV::Bool(true)),
            ("code"@, JsonV::Str(code)),
            ("already_claimed"@, already_claimed),
            ("data"@, data),
        ],
    )
}

/// The result of claiming one task.
pub fn claim_result(code: &str, already_claimed: Json, data: Json) -> (res: Json)
    ensures
        res@ == claim_result_view(code@, already_claimed@, data@),
{
    let ghost already_claimed_v = already_claimed@;
    let ghost data_v = data@;
    let fields = vec![
        entry("ok", Json::Bool(true)),
        entry("code", Json::text(code)),
        entry("already_claimed", already_claimed),
        entry("data", data),
    ];
    assert(fields_view(fields@) =~= seq![
        ("ok"@, JsonV::Bool(true)),
        ("code"@, JsonV::Str(code@)),
        ("already_claimed"@, already_claimed_v),
        ("data"@, data_v),
    ]);
    object(fields)
}

/// The result of accepting tasks.
pub open spec fn accept_summary_view(accepted: JsonV, results: JsonV) -> JsonV {
    JsonV::Object(
        seq![
            ("ok"@, JsonV::Bool(true)),
            ("accepted"@, accepted),
            ("results"@, results),
        ],
    )
}

/// The result of accepting tasks.
pub fn accept_summary(accepted: Json, results: Json) -> (res: Json)
    ensures
        res@ == accept_summary_view(accepted@, results@),
{
    let ghost accepted_v = accepted@;
    let ghost results_v = results@;
    let fields = vec![
        entry("ok", Json::Bool(true)),
        entry("accepted", accepted),
        entry("results", results),
    ];
    assert(fields_view(fields@) =~= seq![
        ("ok"@, JsonV::Bool(true)),
        ("accepted"@, accepted_v),
        ("results"@, results_v),
    ]);
    object(fields)
}

/// The result of a lottery run.
pub open spec fn lottery_summary_view(drawn: JsonV, prizes: JsonV) -> JsonV {
    JsonV::Object(
        seq![
            ("ok"@, JsonV::Bool(true)),
            ("drawn"@, drawn),
            ("prizes"@, prizes),
        ],
    )
}

/// The result of a lottery run.
pub fn lottery_summary(drawn: Json, prizes: Json) -> (res: Json)
    ensures
        res@ == lottery_summary_view(drawn@, prizes@),
{
    let ghost drawn_v = drawn@;
    let ghost prizes_v = prizes@;
    let fields = vec![
        entry("ok", Json::Bool(true)),
        entry("drawn", drawn),
        entry("prizes", prizes),
    ];
    assert(fields_view(fields@) =~= seq![
        ("ok"@, JsonV::Bool(true)),
        ("drawn"@, drawn_v),
        ("prizes"@, prizes_v),
    ]);
    object(fields)
}

/// The result of a blind-box run.
pub open spec fn blindbox_summary_view(opened: JsonV, items: JsonV) -> JsonV {
    JsonV::Object(
        seq![
            ("ok"@, JsonV::Bool(true)),
            ("opened"@, opened),
            ("items"@, items),
        ],
    )
}

/// The result of a blind-box run.
pub fn blindbox_summary(opened: Json, items: Json) -> (res: Json)
    ensures
        res@ == blindbox_summary_view(opened@, items@),
{
    let ghost opened_v = opened@;
    let ghost items_v = items@;
    let fields = vec![
        entry("ok", Json::Bool(true)),
        entry("opened", opened),
        entry("items", items),
    ];
    assert(fields_view(fields@) =~= seq![
        ("ok"@, JsonV::Bool(true)),
        ("opened"@, opened_v),
        ("items"@, items_v),
    ]);
    object(fields)
}

/// The growth profile: level, points, energy, streak and the raw profile.
pub open spec fn profile_summary_view(level: JsonV, points: JsonV, energy: JsonV, streak_days: JsonV, profile: JsonV) -> JsonV {
    JsonV::Object(
        seq![
            ("ok"@, JsonV::Bool(true)),
            ("level"@, level),
            ("points"@, points),
            ("energy"@, energy),
            ("streakDays"@, streak_days),
            ("profile"@, profile),
        ],
    )
}

/// The growth profile: level, points, energy, streak and the raw profile.
pub fn profile_summary(level: Json, points: Json, energy: Json, streak_days: Json, profile: Json) -> (res: Json)
    ensures
        res@ == profile_summary_view(level@, points@, energy@, streak_days@, profile@),
{
    let ghost level_v = level@;
    let ghost points_v = points@;
    let ghost energy_v = energy@;
    let ghost streak_days_v = streak_days@;
    let ghost profile_v = profile@;
    let fields = vec![
        entry("ok", Json::Bool(true)),
        entry("level", level),
        entry("points", points),
        entry("energy", energy),
        entry("streakDays", streak_days),
        entry("profile", profile),
    ];
    assert(fields_view(fields@) =~= seq![
        ("ok"@, JsonV::Bool(true)),
        ("level"@, level_v),
        ("points"@, points_v),
        ("energy"@, energy_v),
        ("streakDays"@, streak_days_v),
        ("profile"@, profile_v),
    ]);
    object(fields)
}

/// Texts as JSON text values.
pub open spec fn text_items(texts: Seq<Seq<char>>) -> Seq<JsonV> {
    texts.map_values(|t: Seq<char>| JsonV::Str(t))
}

/// The texts of a list of strings.
pub open spec fn string_texts(items: Seq<String>) -> Seq<Seq<char>> {
    items.map_values(|s: String| s@)
}

/// An array of texts.
pub fn text_array(items: &Vec<String>) -> (res: Json)
    ensures
        res@ == JsonV::Array(text_items(string_texts(items@))),
{
    let mut out: Vec<Json> = Vec::new();
    let mut i: usize = 0;
    while i < items.len()
        invariant
            i <= items@.len(),
            items_view(out@) == text_items(string_texts(items@)).take(i as int),
        decreases items@.len() - i,
    {
        let v = Json::Str(items[i].clone());
        proof {
            lemma_items_view_push(out@, v);
        }
        out.push(v);
        i = i + 1;
        assert(items_view(out@) =~= text_items(string_texts(items@)).take(i as int));
    }
    assert(text_items(string_texts(items@)).take(items@.len() as int) =~= text_items(string_texts(items@)));
    array(out)
}

/// The number of results whose `status` is the text `accepted`.
pub open spec fn count_accepted(results: Seq<JsonV>) -> nat
    decreases results.len(),
{
    if results.len() == 0 {
        0
    } else {
        count_accepted(results.drop_last()) + if as_text(field(results.last(), "status"@)) == Some("accepted"@) {
            1nat
        } else {
            0nat
        }
    }
}

/// The result of accepting tasks, read from the reply: the number of results
/// with status `accepted`, and the results (`data.results`, or none).
pub open spec fn accept_summary_of_view(reply: JsonV) -> JsonV {
    let results = data_items(reply, "results"@);
    accept_summary_view(count_value(count_accepted(results)), JsonV::Array(results))
}

/// Reads the reply of a request that accepted tasks (`accept_tasks`).
pub fn accept_summary_from_reply(resp: &Json) -> (res: Json)
    ensures
        res@ == accept_summary_of_view(resp@),
{
    let results = data_items_of(resp, "results");
    let mut n: usize = 0;
    let mut i: usize = 0;
    while i < results.len()
        invariant
            i <= results@.len(),
            n <= i,
            n == count_accepted(items_view(results@).take(i as int)),
        decreases results@.len() - i,
    {
        let ghost t = items_view(results@).take(i + 1);
        assert(t.drop_last() =~= items_view(results@).take(i as int));
        assert(t.last() == results@[i as int]@);
        let accepted = match results[i].get("status") {
            Some(v) => match v.as_str() {
                Some(st) => text_eq(st, "accepted"),
                None => false,
            },
            None => false,
        };
        if accepted {
            n = n + 1;
        }
        i = i + 1;
    }
    assert(items_view(results@).take(results@.len() as int) =~= items_view(results@));
    accept_summary(count_json(n), array(results))
}

/// The texts of a list of task codes, as a JSON array.
pub fn codes_array(codes: &Vec<String>) -> (res: Json)
    ensures
        res@ == JsonV::Array(text_items(string_texts(codes@))),
{
    text_array(codes)
}

/// The path that claims a task's reward (it has no `/v2` prefix).
pub open spec fn claim_path_view(code: Seq<char>) -> Seq<char> {
    "/activity/growth/tasks/"@ + code + "/claim"@
}

/// The path that claims a task's reward.
pub fn claim_path(code: &str) -> (res: String)
    ensures
        res@ == claim_path_view(code@),
{
    let mut p = String::from_str("/activity/growth/tasks/");
    p.append(code);
    p.append("/claim");
    p
}

/// The result of claiming one task, read from the reply: the code, whether
/// it was already claimed (`data.already_claimed`, false when absent) and the
/// reply's data.
pub open spec fn claim_result_of_view(code: Seq<char>, reply: JsonV) -> JsonV {
    let data = data_or_empty(reply);
    claim_result_view(
        code,
        JsonV::Bool(
            match as_flag(field(data, "already_claimed"@)) {
                Some(b) => b,
                None => false,
            },
        ),
        data,
    )
}

/// Reads the reply of a claim (`claim_task`).
pub fn claim_result_from_reply(code: &str, resp: &Json) -> (res: Json)
    ensures
        res@ == claim_result_of_view(code@, resp@),
{
    let data = data_of(resp);
    let already = match data.get("already_claimed") {
        Some(v) => match v.as_bool() {
            Some(b) => b,
            None => false,
        },
        None => false,
    };
    claim_result(code, Json::Bool(already), data)
}

/// An integer field, or a default.
pub open spec fn int_or(value: Option<JsonV>, default: int) -> int {
    match as_int(value) {
        Some(i) => i,
        None => default,
    }
}

pub(crate) fn int_or_of(value: Option<&Json>, default: i64) -> (res: i64)
    ensures
        res as int == int_or(crate::json::opt_view(value), default as int),
{
    match value {
        Some(v) => match v.as_i64() {
            Some(i) => i,
            None => default,
        },
        None => default,
    }
}

/// The tasks of a shown task list (`tasks`, or none).
pub open spec fn list_tasks_of(list: JsonV) -> Seq<JsonV> {
    match as_items(field(list, "tasks"@)) {
        Some(t) => t,
        None => Seq::empty(),
    }
}

/// The tasks of a shown task list.
pub fn listed_tasks(list: &Json) -> (res: Vec<Json>)
    ensures
        items_view(res@) == list_tasks_of(list@),
{
    match list.get("tasks") {
        Some(v) => match v {
            Json::Array(items) => {
                assert(v@ == JsonV::Array(items_view(items@))) by {
                    if let JsonV::Array(a) = v@ {
                        assert(a =~= items_view(items@));
                    }
                }
                crate::json::clone_items(items)
            },
            _ => {
                proof {
                    lemma_empty_items();
                }
                Vec::new()
            },
        },
        None => {
            proof {
                lemma_empty_items();
            }
            Vec::new()
        },
    }
}

/// The code of a shown task whose reward can be claimed: not yet claimed,
/// with a non-zero target reached, and a `taskCode` text.
pub open spec fn claimable_code(task: JsonV) -> Option<Seq<char>> {
    let status = text_or_empty(field(task, "acceptStatus"@));
    let current = int_or(field(task, "current"@), 0);
    let target = int_or(field(task, "target"@), 0);
    if status == "claimed"@ || target == 0 || current < target {
        None
    } else {
        as_text(field(task, "taskCode"@))
    }
}

/// The codes to claim, in list order.
pub open spec fn claim_codes(tasks: Seq<JsonV>) -> Seq<Seq<char>>
    decreases tasks.len(),
{
    if tasks.len() == 0 {
        Seq::empty()
    } else {
        match claimable_code(tasks.last()) {
            Some(c) => claim_codes(tasks.drop_last()).push(c),
            None => claim_codes(tasks.drop_last()),
        }
    }
}

/// The number of shown tasks already claimed.
pub open spec fn claimed_count(tasks: Seq<JsonV>) -> nat
    decreases tasks.len(),
{
    if tasks.len() == 0 {
        0
    } else {
        claimed_count(tasks.drop_last()) + if text_or_empty(field(tasks.last(), "acceptStatus"@)) == "claimed"@ {
            1nat
        } else {
            0nat
        }
    }
}

/// What claiming every finished task will do: the codes to claim, in list
/// order, and the number of tasks already claimed.
pub fn claim_plan(list: &Json) -> (res: (Vec<String>, usize))
    ensures
        string_texts(res.0@) == claim_codes(list_tasks_of(list@)),
        res.1 as nat == claimed_count(list_tasks_of(list@)),
{
    let tasks = listed_tasks(list);
    let ghost all = items_view(tasks@);
    let mut codes: Vec<String> = Vec::new();
    let mut skipped: usize = 0;
    let mut i: usize = 0;
    assert(string_texts(codes@) =~= claim_codes(all.take(0)));
    while i < tasks.len()
        invariant
            all == items_view(tasks@),
            i <= tasks@.len(),
            skipped <= i,
            string_texts(codes@) == claim_codes(all.take(i as int)),
            skipped as nat == claimed_count(all.take(i as int)),
        decreases tasks@.len() - i,
    {
        let t = &tasks[i];
        let ghost next = all.take(i + 1);
        assert(next.drop_last() =~= all.take(i as int));
        assert(next.last() == t@);
        let status = text_or_empty_of(t.get("acceptStatus"));
        let current = int_or_of(t.get("current"), 0);
        let target = int_or_of(t.get("target"), 0);
        if text_eq(status, "claimed") {
            skipped = skipped + 1;
        } else if target != 0 && current >= target {
            match t.get("taskCode") {
                Some(v) => match v.as_str() {
                    Some(c) => {
                        let ghost before = codes@;
                        codes.push(c.to_owned());
                        assert(string_texts(codes@) =~= string_texts(before).push(c@));
                    },
                    None => {},
                },
                None => {},
            }
        }
        i = i + 1;
    }
    assert(all.take(tasks@.len() as int) =~= all);
    (codes, skipped)
}

/// The entry of a claimed task, when the claim's result is `ok: true`.
pub open spec fn claimed_entry_of_view(code: Seq<char>, result: JsonV) -> Option<JsonV> {
    if as_flag(field(result, "ok"@)) == Some(true) {
        Some(claimed_entry_view(code, task_name(code), or_null(field(result, "data"@))))
    } else {
        None
    }
}

/// The entry of a claimed task.
pub fn claimed_entry_of(code: &str, result: &Json) -> (res: Option<Json>)
    ensures
        crate::checkin::opt_json(res) == claimed_entry_of_view(code@, result@),
{
    let ok = match result.get("ok") {
        Some(v) => v.as_bool() == Some(true),
        None => false,
    };
    if ok {
        let name = task_cn(code);
        Some(claimed_entry(code, name.as_str(), field_or_null(result, "data")))
    } else {
        None
    }
}

/// The summary of claiming every finished task.
pub fn claim_all_summary_of(entries: Vec<Json>, already: usize) -> (res: Json)
    ensures
        res@ == claim_all_summary_view(JsonV::Array(items_view(entries@)), count_value(already as nat)),
{
    claim_all_summary(array(entries), count_json(already))
}

/// The first task in a shown list whose `taskCode` is `code`.
pub open spec fn find_task(tasks: Seq<JsonV>, code: Seq<char>) -> Option<JsonV>
    decreases tasks.len(),
{
    if tasks.len() == 0 {
        None
    } else if as_text(field(tasks[0], "taskCode"@)) == Some(code) {
        Some(tasks[0])
    } else {
        find_task(tasks.drop_first(), code)
    }
}

/// The progress of a task in a shown list: its acceptance status, current
/// value and target (empty and zeros when the task is not listed).
pub open spec fn task_progress_view(list: JsonV, code: Seq<char>) -> (Seq<char>, int, int) {
    match find_task(list_tasks_of(list), code) {
        Some(t) => (
            text_or_empty(field(t, "acceptStatus"@)),
            int_or(field(t, "current"@), 0),
            int_or(field(t, "target"@), 0),
        ),
        None => (Seq::empty(), 0, 0),
    }
}

/// The progress of a task, read from a shown task list (`task_progress`).
pub fn task_progress_of(list: &Json, code: &str) -> (res: (String, i64, i64))
    ensures
        (res.0@, res.1 as int, res.2 as int) == task_progress_view(list@, code@),
{
    let tasks = listed_tasks(list);
    let ghost all = items_view(tasks@);
    let mut i: usize = 0;
    assert(all.skip(0) =~= all);
    while i < tasks.len()
        invariant
            all == items_view(tasks@),
            all == list_tasks_of(list@),
            i <= tasks@.len(),
            find_task(all, code@) == find_task(all.skip(i as int), code@),
        decreases tasks@.len() - i,
    {
        let t = &tasks[i];
        assert(all.skip(i as int)[0] == t@);
        assert(all.skip(i as int).drop_first() =~= all.skip(i + 1));
        let same = match t.get("taskCode") {
            Some(v) => match v.as_str() {
                Some(c) => text_eq(c, code),
                None => false,
            },
            None => false,
        };
        if same {
            assert(all.skip(i as int).len() > 0);
            assert(find_task(all.skip(i as int), code@) == Some(t@));
            let status = text_or_empty_of(t.get("acceptStatus")).to_owned();
            let current = int_or_of(t.get("current"), 0);
            let target = int_or_of(t.get("target"), 0);
            assert(status@ == text_or_empty(field(t@, "acceptStatus"@)));
            assert(current as int == int_or(field(t@, "current"@), 0));
            assert(target as int == int_or(field(t@, "target"@), 0));
            return (status, current, target);
        }
        i = i + 1;
    }
    (String::new(), 0, 0)
}

/// The code of a shown task that awaits acceptance (`acceptStatus` is
/// `not_accepted` and it has a `taskCode` text).
pub open spec fn pending_code(task: JsonV) -> Option<Seq<char>> {
    if as_text(field(task, "acceptStatus"@)) == Some("not_accepted"@) {
        as_text(field(task, "taskCode"@))
    } else {
        None
    }
}

/// The codes of the tasks that await acceptance, in list order.
pub open spec fn pending_codes(tasks: Seq<JsonV>) -> Seq<Seq<char>>
    decreases tasks.len(),
{
    if tasks.len() == 0 {
        Seq::empty()
    } else {
        match pending_code(tasks.last()) {
            Some(c) => pending_codes(tasks.drop_last()).push(c),
            None => pending_codes(tasks.drop_last()),
        }
    }
}

/// The codes of the tasks of a shown list that await acceptance.
pub fn tasks_to_accept(list: &Json) -> (res: Vec<String>)
    ensures
        string_texts(res@) == pending_codes(list_tasks_of(list@)),
{
    let tasks = listed_tasks(list);
    let ghost all = items_view(tasks@);
    let mut codes: Vec<String> = Vec::new();
    let mut i: usize = 0;
    assert(string_texts(codes@) =~= pending_codes(all.take(0)));
    while i < tasks.len()
        invariant
            all == items_view(tasks@),
            i <= tasks@.len(),
            string_texts(codes@) == pending_codes(all.take(i as int)),
        decreases tasks@.len() - i,
    {
        let t = &tasks[i];
        let ghost next = all.take(i + 1);
        assert(next.drop_last() =~= all.take(i as int));
        assert(next.last() == t@);
        let pending = match t.get("acceptStatus") {
            Some(v) => match v.as_str() {
                Some(st) => text_eq(st, "not_accepted"),
                None => false,
            },
            None => false,
        };
        if pending {
            match t.get("taskCode") {
                Some(v) => match v.as_str() {
                    Some(c) => {
                        let ghost before = codes@;
                        codes.push(c.to_owned());
                        assert(string_texts(codes@) =~= string_texts(before).push(c@));
                    },
                    None => {},
                },
                None => {},
            }
        }
        i = i + 1;
    }
    assert(all.take(tasks@.len() as int) =~= all);
    codes
}

/// The fields of an object merged with those of an event, in the event's
/// order, each set as `Map::insert` does.
pub open spec fn merge_fields(base: Seq<(Seq<char>, JsonV)>, event: Seq<(Seq<char>, JsonV)>) -> Seq<(Seq<char>, JsonV)>
    decreases event.len(),
{
    if event.len() == 0 {
        base
    } else {
        crate::json::set_field(merge_fields(base, event.drop_last()), event.last().0, event.last().1)
    }
}

/// An envelope with an event's fields set over it; an event that is not an
/// object leaves the envelope as it is.
pub open spec fn envelope_with(envelope: JsonV, event: JsonV) -> JsonV {
    match envelope {
        JsonV::Object(b) => match event {
            JsonV::Object(e) => JsonV::Object(merge_fields(b, e)),
            _ => envelope,
        },
        _ => envelope,
    }
}

/// The reported form of an event of the user `uid`: the envelope (with the
/// machine and session ids derived from the uid) and the event's fields.
pub open spec fn reported_event(uid: Seq<char>, nick: Seq<char>, now: int, event: JsonV) -> JsonV {
    envelope_with(
        report_envelope_view(uid, nick, now, derived_id(uid, "machine"@), derived_id(uid, "session"@)),
        event,
    )
}

fn into_fields(value: Json) -> (res: Vec<(String, Json)>)
    requires
        value@ is Object,
    ensures
        value@ == JsonV::Object(fields_view(res@)),
{
    match value {
        Json::Object(fields) => {
            assert(value@ == JsonV::Object(fields_view(fields@))) by {
                if let JsonV::Object(f) = value@ {
                    assert(f =~= fields_view(fields@));
                }
            }
            fields
        },
        _ => Vec::new(),
    }
}

/// An envelope with an event's fields set over it.
pub fn merge_event(envelope: Json, event: &Json) -> (res: Json)
    requires
        envelope@ is Object,
    ensures
        res@ == envelope_with(envelope@, event@),
{
    match event {
        Json::Object(efields) => {
            let ghost ev = fields_view(efields@);
            assert(event@ == JsonV::Object(ev)) by {
                if let JsonV::Object(f) = event@ {
                    assert(f =~= ev);
                }
            }
            let ghost base = envelope@->Object_0;
            let mut fields = into_fields(envelope);
            let mut i: usize = 0;
            assert(ev.take(0) =~= Seq::<(Seq<char>, JsonV)>::empty());
            while i < efields.len()
                invariant
                    ev == fields_view(efields@),
                    i <= efields@.len(),
                    fields_view(fields@) == merge_fields(base, ev.take(i as int)),
                decreases efields@.len() - i,
            {
                let ghost next = ev.take(i + 1);
                assert(next.drop_last() =~= ev.take(i as int));
                assert(next.last() == (efields@[i as int].0@, efields@[i as int].1@));
                fields = crate::json::fields_with(&fields, efields[i].0.as_str(), efields[i].1.deep_clone());
                i = i + 1;
            }
            assert(ev.take(efields@.len() as int) =~= ev);
            object(fields)
        },
        _ => envelope,
    }
}

/// The uid of an account, when it has one.
pub fn report_uid(account: &Json) -> (res: Option<&str>)
    ensures
        crate::json::opt_text(res) == as_text(field(account@, "uid"@)),
{
    match account.get("uid") {
        Some(v) => v.as_str(),
        None => None,
    }
}

/// The reported form of each event, in order (`report_events`' body).
pub fn report_envelopes(uid: &str, nick: &str, now: i64, events: &Vec<Json>) -> (res: Vec<Json>)
    ensures
        res@.len() == events@.len(),
        forall|i: int|
            0 <= i < events@.len() ==> (#[trigger] res@[i])@ == reported_event(uid@, nick@, now as int, events@[i]@),
{
    let machine = derive_id(uid, "machine");
    let session = derive_id(uid, "session");
    let mut out: Vec<Json> = Vec::new();
    let mut i: usize = 0;
    while i < events.len()
        invariant
            i <= events@.len(),
            out@.len() == i,
            machine@ == derived_id(uid@, "machine"@),
            session@ == derived_id(uid@, "session"@),
            forall|j: int|
                0 <= j < i ==> (#[trigger] out@[j])@ == reported_event(uid@, nick@, now as int, events@[j]@),
        decreases events@.len() - i,
    {
        let envelope = report_envelope(uid, nick, now, machine.as_str(), session.as_str());
        out.push(merge_event(envelope, &events[i]));
        i = i + 1;
    }
    out
}

/// The result of an event report.
pub fn report_summary_of(count: usize, reply: Json) -> (res: Json)
    ensures
        res@ == report_summary_view(count_value(count as nat), reply@),
{
    report_summary(count_json(count), reply)
}

/// `data.<key>` of a reply, or `null`.
pub open spec fn data_field(reply: JsonV, key: Seq<char>) -> JsonV {
    or_null(field(data_or_empty(reply), key))
}

/// The growth profile read from the replies of the profile, energy and
/// streak services: level and points of the profile's data, the energy
/// balance, the streak days, and the profile's data itself.
pub open spec fn profile_summary_of_view(profile: JsonV, energy: JsonV, streak: JsonV) -> JsonV {
    let p = data_or_empty(profile);
    let s = data_or_empty(streak);
    profile_summary_view(
        or_null(field(p, "level"@)),
        or_null(field(p, "points"@)),
        data_field(energy, "balance"@),
        match field(s, "streak"@) {
            Some(x) => or_null(field(x, "days"@)),
            None => JsonV::Null,
        },
        p,
    )
}

/// Reads the growth profile from the three replies (`growth_profile`).
pub fn profile_summary_from_replies(profile: &Json, energy: &Json, streak: &Json) -> (res: Json)
    ensures
        res@ == profile_summary_of_view(profile@, energy@, streak@),
{
    let p = data_of(profile);
    let e = data_of(energy);
    let s = data_of(streak);
    let days = match s.get("streak") {
        Some(x) => field_or_null(x, "days"),
        None => Json::Null,
    };
    profile_summary(field_or_null(&p, "level"), field_or_null(&p, "points"), field_or_null(&e, "balance"), days, p)
}

/// A lowercase hexadecimal digit.
pub open spec fn is_lower_hex_digit(c: char) -> bool {
    '0' <= c <= '9' || 'a' <= c <= 'f'
}

/// One character of a version-4 uuid in its hyphenated text form.
pub open spec fn uuid_char_ok(s: Seq<char>, i: int) -> bool {
    if i == 8 || i == 13 || i == 18 || i == 23 {
        s[i] == '-'
    } else if i == 14 {
        s[i] == '4'
    } else if i == 19 {
        s[i] == '8' || s[i] == '9' || s[i] == 'a' || s[i] == 'b'
    } else {
        is_lower_hex_digit(s[i])
    }
}

/// A version-4 uuid in its hyphenated text form: 36 characters, `-` at
/// positions 8, 13, 18 and 23, the version digit `4` at 14, the variant digit
/// (`8`, `9`, `a` or `b`) at 19, and lowercase hexadecimal digits elsewhere.
pub open spec fn uuid_text(s: Seq<char>) -> bool {
    &&& s.len() == 36
    &&& forall|i: int| 0 <= i < 36 ==> #[trigger] uuid_char_ok(s, i)
}

/// `uuid::Uuid::new_v4().to_string()`: a random id. Its value rests on
/// chance and is not stated; its form is: `Display` writes the uuid as
/// `LowerHex` does, in the hyphenated form, and `new_v4` sets the version
/// and variant bits.
#[verifier::external_body]
pub(crate) fn new_uuid() -> (res: String)
    ensures
        uuid_text(res@),
{
    uuid::Uuid::new_v4().to_string()
}

/// A text with a prefix and a fresh random id.
pub fn prefixed_uuid(prefix: &str) -> (res: String)
    ensures
        exists|id: Seq<char>| uuid_text(id) && res@ == prefix@ + id,
{
    let mut t = String::from_str(prefix);
    let id = new_uuid();
    t.append(id.as_str());
    assert(uuid_text(id@) && t@ == prefix@ + id@);
    t
}

/// The first present of three fields.
pub open spec fn first_present(value: JsonV, a: Seq<char>, b: Seq<char>, c: Seq<char>) -> Option<JsonV> {
    if field(value, a) is Some {
        field(value, a)
    } else if field(value, b) is Some {
        field(value, b)
    } else {
        field(value, c)
    }
}

/// The lottery chances left, read from the chances reply: `data.balance`
/// (or `chances`, or `remaining`, the first present) as an integer, 0 when
/// absent or negative.
pub open spec fn lottery_chances(reply: JsonV) -> nat {
    let raw = match field(reply, "data"@) {
        Some(d) => as_int(first_present(d, "balance"@, "chances"@, "remaining"@)),
        None => None,
    };
    match raw {
        Some(c) => if c < 0 {
            0
        } else {
            c as nat
        },
        None => 0,
    }
}

/// The lottery chances left.
pub fn lottery_chances_of(reply: &Json) -> (res: i64)
    ensures
        res as int == lottery_chances(reply@),
{
    let raw = match reply.get("data") {
        Some(d) => {
            let v = match d.get("balance") {
                Some(x) => Some(x),
                None => match d.get("chances") {
                    Some(x) => Some(x),
                    None => d.get("remaining"),
                },
            };
            match v {
                Some(x) => x.as_i64(),
                None => None,
            }
        },
        None => None,
    };
    match raw {
        Some(c) => if c < 0 {
            0
        } else {
            c
        },
        None => 0,
    }
}

/// The prize named by a draw's reply: `data.prize_name` (or `data.name` when
/// absent) as a text, else `?`.
pub open spec fn prize_of(reply: JsonV) -> Seq<char> {
    let name = match field(reply, "data"@) {
        Some(d) => as_text(if field(d, "prize_name"@) is Some {
            field(d, "prize_name"@)
        } else {
            field(d, "name"@)
        }),
        None => None,
    };
    match name {
        Some(n) => n,
        None => "?"@,
    }
}

/// The reply's `code` is the integer 0.
pub open spec fn code_is_zero(reply: JsonV) -> bool {
    as_int(field(reply, "code"@)) == Some(0int)
}

fn code_is_zero_of(reply: &Json) -> (res: bool)
    ensures
        res == code_is_zero(reply@),
{
    match reply.get("code") {
        Some(v) => v.as_i64() == Some(0i64),
        None => false,
    }
}

/// A lottery run: at most `times` draws, stopped by the first failed draw.
pub struct LotteryRun {
    times: u32,
    prizes: Vec<String>,
    stopped: bool,
}

impl LotteryRun {
    /// The number of draws planned.
    pub closed spec fn times(&self) -> nat {
        self.times as nat
    }

    /// The prizes won so far, in order.
    pub closed spec fn prizes(&self) -> Seq<Seq<char>> {
        string_texts(self.prizes@)
    }

    /// A draw failed, which ends the run.
    pub closed spec fn stopped(&self) -> bool {
        self.stopped
    }

    /// No more draws than planned.
    #[verifier::type_invariant]
    closed spec fn within_plan(&self) -> bool {
        self.prizes@.len() <= self.times
    }

    /// A run of `min(chances, max_times)` draws: all the chances left,
    /// at most `max_times` of them.
    pub fn start(chances_reply: &Json, max_times: u32) -> (res: LotteryRun)
        ensures
            res.times() == if lottery_chances(chances_reply@) <= max_times {
                lottery_chances(chances_reply@)
            } else {
                max_times as nat
            },
            res.prizes() == Seq::<Seq<char>>::empty(),
            !res.stopped(),
    {
        let chances = lottery_chances_of(chances_reply);
        let times: u32 = if chances <= max_times as i64 {
            chances as u32
        } else {
            max_times
        };
        let res = LotteryRun { times, prizes: Vec::new(), stopped: false };
        assert(string_texts(res.prizes@) =~= Seq::<Seq<char>>::empty());
        res
    }

    /// Whether another draw is due.
    pub fn wants_draw(&self) -> (res: bool)
        ensures
            res == (!self.stopped() && self.prizes().len() < self.times()),
    {
        !self.stopped && self.prizes.len() < self.times as usize
    }

    /// Whether the run pauses (two seconds) before the next draw: after the first.
    pub fn pauses_before_draw(&self) -> (res: bool)
        ensures
            res == (self.prizes().len() > 0),
    {
        self.prizes.len() > 0
    }

    /// Records the reply of a draw: a failed draw (code other than 0) ends the
    /// run; a successful one adds its prize.
    pub fn record_draw(&mut self, reply: &Json)
        requires
            !old(self).stopped() && old(self).prizes().len() < old(self).times(),
        ensures
            final(self).times() == old(self).times(),
            final(self).prizes().len() <= final(self).times(),
            code_is_zero(reply@) ==> final(self).prizes() == old(self).prizes().push(prize_of(reply@))
                && !final(self).stopped(),
            !code_is_zero(reply@) ==> final(self).prizes() == old(self).prizes() && final(self).stopped(),
    {
        if !code_is_zero_of(reply) {
            self.stopped = true;
            return;
        }
        let name = match reply.get("data") {
            Some(d) => {
                let v = match d.get("prize_name") {
                    Some(x) => Some(x),
                    None => d.get("name"),
                };
                match v {
                    Some(x) => x.as_str(),
                    None => None,
                }
            },
            None => None,
        };
        let prize = match name {
            Some(n) => n.to_owned(),
            None => String::from_str("?"),
        };
        proof {
            use_type_invariant(&*self);
        }
        let ghost before = self.prizes@;
        let mut prizes: Vec<String> = Vec::new();
        std::mem::swap(&mut prizes, &mut self.prizes);
        prizes.push(prize);
        assert(string_texts(prizes@) =~= string_texts(before).push(prize_of(reply@)));
        self.prizes = prizes;
    }

    /// The result of the run: the number of prizes and the prizes.
    pub fn summary(&self) -> (res: Json)
        ensures
            res@ == lottery_summary_view(
                count_value(self.prizes().len()),
                JsonV::Array(text_items(self.prizes())),
            ),
    {
        lottery_summary(count_json(self.prizes.len()), text_array(&self.prizes))
    }
}

/// A fresh client token of a draw: `draw-` and a random id, 41 characters.
pub fn new_draw_token() -> (res: String)
    ensures
        res@.len() == 41,
        res@.take(5) == "draw-"@,
        uuid_text(res@.skip(5)),
{
    let t = prefixed_uuid("draw-");
    proof {
        reveal_strlit("draw-");
        let id = choose|id: Seq<char>| uuid_text(id) && t@ == "draw-"@ + id;
        assert(t@.take(5) =~= "draw-"@);
        assert(t@.skip(5) =~= id);
    }
    t
}

/// The first item of a blind-box opening's `data.results`, if any.
pub open spec fn first_result(reply: JsonV) -> Option<JsonV> {
    match as_items(field(data_or_empty(reply), "results"@)) {
        Some(items) => if items.len() > 0 {
            Some(items[0])
        } else {
            None
        },
        None => None,
    }
}

/// The label of an opened item: its name (the instance's, else the
/// template's, else `?`), and its rarity in brackets when it has one.
pub open spec fn item_label(item: JsonV) -> Seq<char> {
    let ins = match field(item, "instance"@) {
        Some(x) => x,
        None => item,
    };
    let tpl = match field(item, "template"@) {
        Some(x) => x,
        None => empty_object(),
    };
    let name = match as_text(if field(ins, "name"@) is Some {
        field(ins, "name"@)
    } else {
        field(tpl, "name"@)
    }) {
        Some(n) => n,
        None => "?"@,
    };
    let rarity = match as_text(if field(ins, "rarity"@) is Some {
        field(ins, "rarity"@)
    } else {
        field(tpl, "rarity"@)
    }) {
        Some(r) => r,
        None => Seq::empty(),
    };
    if rarity.len() == 0 {
        name
    } else {
        name + "("@ + rarity + ")"@
    }
}

fn field_text_or<'a>(first: &'a Json, second: &'a Json, key: &str) -> (res: Option<&'a str>)
    ensures
        crate::json::opt_text(res) == as_text(if field(first@, key@) is Some {
            field(first@, key@)
        } else {
            field(second@, key@)
        }),
{
    let v = match first.get(key) {
        Some(x) => Some(x),
        None => second.get(key),
    };
    match v {
        Some(x) => x.as_str(),
        None => None,
    }
}

/// The label of an opened item.
pub fn item_label_of(item: &Json) -> (res: String)
    ensures
        res@ == item_label(item@),
{
    let empty = crate::reply::new_empty_object();
    let ins = match item.get("instance") {
        Some(x) => x,
        None => item,
    };
    let tpl = match item.get("template") {
        Some(x) => x,
        None => &empty,
    };
    let name = match field_text_or(ins, tpl, "name") {
        Some(n) => n.to_owned(),
        None => String::from_str("?"),
    };
    match field_text_or(ins, tpl, "rarity") {
        Some(r) => if r.unicode_len() == 0 {
            name
        } else {
            let mut t = name;
            t.append("(");
            t.append(r);
            t.append(")");
            t
        },
        None => {
            proof {
                assert(Seq::<char>::empty().len() == 0);
            }
            name
        },
    }
}

/// A blind-box run: at most `max` openings, stopped by the first failed one.
pub struct BlindboxRun {
    max: u32,
    attempts: u32,
    items: Vec<String>,
    stopped: bool,
}

impl BlindboxRun {
    /// The largest number of openings.
    pub closed spec fn max(&self) -> nat {
        self.max as nat
    }

    /// The openings made so far.
    pub closed spec fn attempts(&self) -> nat {
        self.attempts as nat
    }

    /// The items obtained so far, in order.
    pub closed spec fn items(&self) -> Seq<Seq<char>> {
        string_texts(self.items@)
    }

    /// An opening failed, which ends the run.
    pub closed spec fn stopped(&self) -> bool {
        self.stopped
    }

    /// No more openings than allowed, and at most one item per opening.
    #[verifier::type_invariant]
    closed spec fn within_plan(&self) -> bool {
        self.items@.len() <= self.attempts <= self.max
    }

    /// A run of at most `max` openings.
    pub fn start(max: u32) -> (res: BlindboxRun)
        ensures
            res.max() == max,
            res.attempts() == 0,
            res.items() == Seq::<Seq<char>>::empty(),
            !res.stopped(),
    {
        let res = BlindboxRun { max, attempts: 0, items: Vec::new(), stopped: false };
        assert(string_texts(res.items@) =~= Seq::<Seq<char>>::empty());
        res
    }

    /// Whether another opening is due.
    pub fn wants_open(&self) -> (res: bool)
        ensures
            res == (!self.stopped() && self.attempts() < self.max()),
    {
        !self.stopped && self.attempts < self.max
    }

    /// Whether the run pauses (one second) before the next opening: after the first.
    pub fn pauses_before_open(&self) -> (res: bool)
        ensures
            res == (self.attempts() > 0),
    {
        self.attempts > 0
    }

    /// Records the reply of an opening: a failed one (code other than 0) ends
    /// the run; a successful one adds the label of its first item, if any.
    pub fn record_open(&mut self, reply: &Json)
        requires
            !old(self).stopped() && old(self).attempts() < old(self).max(),
        ensures
            final(self).max() == old(self).max(),
            final(self).attempts() == old(self).attempts() + 1,
            final(self).items().len() <= final(self).attempts() <= final(self).max(),
            !code_is_zero(reply@) ==> final(self).items() == old(self).items() && final(self).stopped(),
            code_is_zero(reply@) ==> !final(self).stopped() && final(self).items() == match first_result(reply@) {
                Some(it) => old(self).items().push(item_label(it)),
                None => old(self).items(),
            },
    {
        proof {
            use_type_invariant(&*self);
        }
        self.attempts = self.attempts + 1;
        if !code_is_zero_of(reply) {
            self.stopped = true;
            return;
        }
        let data = data_of(reply);
        let first = match data.get("results") {
            Some(Json::Array(items)) => {
                assert(field(data@, "results"@) == Some(JsonV::Array(items_view(items@)))) by {
                    if let Some(JsonV::Array(a)) = field(data@, "results"@) {
                        assert(a =~= items_view(items@));
                    }
                }
                if items.len() > 0 {
                    Some(&items[0])
                } else {
                    None
                }
            },
            _ => None,
        };
        match first {
            Some(it) => {
                let label = item_label_of(it);
                let ghost before = self.items@;
                let mut items: Vec<String> = Vec::new();
                std::mem::swap(&mut items, &mut self.items);
                items.push(label);
                assert(string_texts(items@) =~= string_texts(before).push(item_label(it@)));
                self.items = items;
            },
            None => {},
        }
    }

    /// The result of the run: the number of items and their labels.
    pub fn summary(&self) -> (res: Json)
        ensures
            res@ == blindbox_summary_view(
                count_value(self.items().len()),
                JsonV::Array(text_items(self.items())),
            ),
    {
        blindbox_summary(count_json(self.items.len()), text_array(&self.items))
    }
}

/// A growth run of one account, before any request: the growth center is
/// only for the domestic edition.
pub fn growth_gate(account: &Json) -> (res: Option<Json>)
    ensures
        account_variant(account@) == WbVariant::Cn ==> res is None,
        account_variant(account@) != WbVariant::Cn ==> crate::checkin::opt_json(res) == Some(
            growth_unsupported_reply_view(),
        ),
{
    if variant_of(account) == WbVariant::Cn {
        None
    } else {
        Some(growth_unsupported_reply())
    }
}

/// The task list of one account, before any request: the growth center is
/// only for the domestic edition.
pub fn tasks_gate(account: &Json) -> (res: Option<Json>)
    ensures
        account_variant(account@) == WbVariant::Cn ==> res is None,
        account_variant(account@) != WbVariant::Cn ==> crate::checkin::opt_json(res) == Some(
            growth_unsupported_tasks_reply_view(),
        ),
{
    if variant_of(account) == WbVariant::Cn {
        None
    } else {
        Some(growth_unsupported_tasks_reply())
    }
}

/// A growth run of all accounts, before any account is handled: skipped while
/// another run is in progress; with no domestic account, an empty summary;
/// otherwise the domestic accounts, in order.
pub open spec fn growth_all_start_view(acquired: bool, accounts: Seq<JsonV>) -> Result<Seq<JsonV>, JsonV> {
    let targets = accounts.filter(|a: JsonV| account_variant(a) == WbVariant::Cn);
    if !acquired {
        Err(growth_busy_reply_view())
    } else if targets.len() == 0 {
        Err(growth_summary_view(JsonV::Array(Seq::empty())))
    } else {
        Ok(targets)
    }
}

/// The domestic accounts, in order.
pub fn domestic_accounts(accounts: &Vec<Json>) -> (res: Vec<Json>)
    ensures
        items_view(res@) == items_view(accounts@).filter(|a: JsonV| account_variant(a) == WbVariant::Cn),
{
    let ghost pred = |a: JsonV| account_variant(a) == WbVariant::Cn;
    let mut out: Vec<Json> = Vec::new();
    let mut i: usize = 0;
    assert(items_view(accounts@).take(0).filter(pred) =~= Seq::<JsonV>::empty()) by {
        reveal_with_fuel(Seq::filter, 1);
    }
    assert(items_view(out@) =~= Seq::<JsonV>::empty());
    while i < accounts.len()
        invariant
            i <= accounts@.len(),
            pred == (|a: JsonV| account_variant(a) == WbVariant::Cn),
            items_view(out@) == items_view(accounts@).take(i as int).filter(pred),
        decreases accounts@.len() - i,
    {
        let ghost prefix = items_view(accounts@).take(i as int);
        let ghost next = items_view(accounts@).take(i + 1);
        assert(next.drop_last() =~= prefix);
        assert(next.last() == accounts@[i as int]@);
        assert(next.filter(pred) == if pred(next.last()) {
            prefix.filter(pred).push(next.last())
        } else {
            prefix.filter(pred)
        }) by {
            reveal_with_fuel(Seq::filter, 1);
        }
        if variant_of(&accounts[i]) == WbVariant::Cn {
            let c = accounts[i].deep_clone();
            proof {
                lemma_items_view_push(out@, c);
            }
            out.push(c);
        }
        i = i + 1;
    }
    assert(items_view(accounts@).take(accounts@.len() as int) =~= items_view(accounts@));
    out
}

/// The start of a growth run of all accounts (see [`growth_all_start_view`]).
pub fn growth_all_start(acquired: bool, accounts: &Vec<Json>) -> (res: Result<Vec<Json>, Json>)
    ensures
        crate::checkin::start_view(res) == growth_all_start_view(acquired, items_view(accounts@)),
{
    if !acquired {
        return Err(growth_busy_reply());
    }
    let targets = domestic_accounts(accounts);
    if targets.len() == 0 {
        proof {
            lemma_empty_items();
        }
        return Err(growth_summary(array(Vec::new())));
    }
    Ok(targets)
}

/// The texts of a list of headers.
pub open spec fn header_texts(headers: Seq<(String, String)>) -> Seq<(Seq<char>, Seq<char>)> {
    headers.map_values(|h: (String, String)| (h.0@, h.1@))
}

/// A header map with `name` set to `value`: any previous value of that name
/// removed, the new one added.
pub open spec fn with_header(headers: Seq<(Seq<char>, Seq<char>)>, name: Seq<char>, value: Seq<char>) -> Seq<(Seq<char>, Seq<char>)> {
    headers.filter(|h: (Seq<char>, Seq<char>)| h.0 != name).push((name, value))
}

/// Sets one header.
pub fn set_header(headers: &Vec<(String, String)>, name: &str, value: &str) -> (res: Vec<(String, String)>)
    ensures
        header_texts(res@) == with_header(header_texts(headers@), name@, value@),
{
    let ghost all = header_texts(headers@);
    let ghost pred = |h: (Seq<char>, Seq<char>)| h.0 != name@;
    let mut out: Vec<(String, String)> = Vec::new();
    let mut i: usize = 0;
    assert(all.take(0).filter(pred) =~= Seq::<(Seq<char>, Seq<char>)>::empty()) by {
        reveal_with_fuel(Seq::filter, 1);
    }
    assert(header_texts(out@) =~= all.take(0).filter(pred));
    while i < headers.len()
        invariant
            all == header_texts(headers@),
            pred == (|h: (Seq<char>, Seq<char>)| h.0 != name@),
            i <= headers@.len(),
            header_texts(out@) == all.take(i as int).filter(pred),
        decreases headers@.len() - i,
    {
        let ghost prefix = all.take(i as int);
        let ghost next = all.take(i + 1);
        assert(next.drop_last() =~= prefix);
        assert(next.last() == (headers@[i as int].0@, headers@[i as int].1@));
        assert(next.filter(pred) == if pred(next.last()) {
            prefix.filter(pred).push(next.last())
        } else {
            prefix.filter(pred)
        }) by {
            reveal_with_fuel(Seq::filter, 1);
        }
        if !text_eq(headers[i].0.as_str(), name) {
            let ghost before = out@;
            out.push((headers[i].0.clone(), headers[i].1.clone()));
            assert(header_texts(out@) =~= header_texts(before).push(next.last()));
        }
        i = i + 1;
    }
    assert(all.take(headers@.len() as int) =~= all);
    let ghost before = out@;
    out.push((name.to_owned(), value.to_owned()));
    assert(header_texts(out@) =~= header_texts(before).push((name@, value@)));
    out
}

/// The headers of a growth-center request: the account's authentication
/// headers, with the web client platform, and the site (`endpoint`) as origin
/// and, with `/profile/growth-center`, as referer.
pub open spec fn growth_headers_view(auth: Seq<(Seq<char>, Seq<char>)>, endpoint: Seq<char>) -> Seq<(Seq<char>, Seq<char>)> {
    with_header(
        with_header(with_header(auth, "x-client-platform"@, "web"@), "origin"@, endpoint),
        "referer"@,
        endpoint + "/profile/growth-center"@,
    )
}

/// The headers of a growth-center request (`build_growth_headers`, given the
/// account's authentication headers).
pub fn growth_headers(auth: &Vec<(String, String)>, endpoint: &str) -> (res: Vec<(String, String)>)
    ensures
        header_texts(res@) == growth_headers_view(header_texts(auth@), endpoint@),
{
    let h1 = set_header(auth, "x-client-platform", "web");
    let h2 = set_header(&h1, "origin", endpoint);
    let mut referer = String::from_str(endpoint);
    referer.append("/profile/growth-center");
    set_header(&h2, "referer", referer.as_str())
}

/// Path of the task list.
pub const TASKS_PATH: &'static str = "/v2/activity/growth/tasks";
/// Path that accepts tasks.
pub const ACCEPT_PATH: &'static str = "/v2/activity/growth/tasks/accept";
/// Path that receives reported events.
pub const REPORT_PATH: &'static str = "/v2/report";
/// Path of the growth profile.
pub const PROFILE_PATH: &'static str = "/v2/activity/growth/profile";
/// Path of the energy balance.
pub const ENERGY_PATH: &'static str = "/v2/activity/growth/energy";
/// Path of the check-in streak.
pub const STREAK_PATH: &'static str = "/v2/activity/growth/streak";
/// Path of the lottery chances.
pub const LOTTERY_CHANCES_PATH: &'static str = "/v2/activity/growth/lottery/chances";
/// Path of a lottery draw.
pub const LOTTERY_DRAW_PATH: &'static str = "/v2/activity/growth/lottery/draw";
/// Path that opens a blind box.
pub const BLINDBOX_OPEN_PATH: &'static str = "/v2/activity/growth/buddy/open";
/// Most lottery draws of one growth run.
pub const LOTTERY_MAX_DRAWS: u32 = 50;
/// Most blind boxes opened by one growth run.
pub const BLINDBOX_MAX_OPENS: u32 = 5;
/// Pause between two lottery draws, in seconds.
pub const LOTTERY_PAUSE_SECS: u64 = 2;
/// Pause between two blind-box openings, in seconds.
pub const BLINDBOX_PAUSE_SECS: u64 = 1;
/// Pause after progressing the tasks, before claiming rewards, in seconds.
pub const AFTER_PROGRESS_PAUSE_SECS: u64 = 2;
/// Pause after each batch of events reported for a listed task, in seconds.
pub const TASK_REPORT_PAUSE_SECS: u64 = 1;

/// Accepting tasks: with no code, the result at once, with no request;
/// otherwise (`None`) a request with [`accept_body`].
pub fn accept_step(codes: &Vec<String>) -> (res: Option<Json>)
    ensures
        codes@.len() == 0 ==> crate::checkin::opt_json(res) == Some(accept_nothing_summary_view()),
        codes@.len() > 0 ==> res is None,
{
    if codes.len() == 0 {
        Some(accept_nothing_summary())
    } else {
        None
    }
}

/// The acceptance step of a growth run: with no task awaiting acceptance, the
/// record at once, with no request; otherwise (`None`) accept them.
pub fn growth_accept_step(codes: &Vec<String>) -> (res: Option<Json>)
    ensures
        codes@.len() == 0 ==> crate::checkin::opt_json(res) == Some(accept_skipped_summary_view()),
        codes@.len() > 0 ==> res is None,
{
    if codes.len() == 0 {
        Some(accept_skipped_summary())
    } else {
        None
    }
}

} // verus!

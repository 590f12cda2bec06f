use wb_switch_core::checkin::{
    checkin_start, decide_from_status, is_inactive_message, is_unauthorized, skips_refresh_before_retry,
    status_first_step, status_from_response, all_start, StatusDecision, StatusStep,
};
use wb_switch_core::checkin_log::{accounts_checked_in_today, checkin_logs_with_variant, date_str};
use wb_switch_core::guard::{guard_key, RunningAccounts};
use wb_switch_core::json::Json;
use wb_switch_core::reply::message_of;
use wb_switch_core::variant::{variant_of, WbVariant, CHECKIN_API_PREFIX};

fn s(t: &str) -> Json {
    Json::Str(t.to_string())
}

fn obj(fields: Vec<(&str, Json)>) -> Json {
    Json::Object(fields.into_iter().map(|(k, v)| (k.to_string(), v)).collect())
}

fn get<'a>(v: &'a Json, key: &str) -> Option<&'a Json> {
    v.get(key)
}

#[test]
fn checked_in_status_returns_already_without_submission() {
    assert_eq!(
        decide_from_status(&obj(vec![("ok", Json::Bool(true)), ("todayCheckedIn", Json::Bool(true))])),
        StatusDecision::Already
    );
}

#[test]
fn failed_status_returns_error_without_submission() {
    assert_eq!(
        decide_from_status(&obj(vec![("ok", Json::Bool(false)), ("error", s("offline"))])),
        StatusDecision::Error("offline".to_string())
    );
}

#[test]
fn unchecked_status_submits() {
    assert_eq!(
        decide_from_status(&obj(vec![("ok", Json::Bool(true)), ("todayCheckedIn", Json::Bool(false))])),
        StatusDecision::Submit
    );
}

#[test]
fn status_unsupported_variant_submits_once() {
    assert_eq!(
        decide_from_status(&obj(vec![
            ("ok", Json::Bool(false)),
            ("statusUnsupported", Json::Bool(true)),
            ("error", s("该档位暂无签到状态接口")),
        ])),
        StatusDecision::Submit
    );
    assert_eq!(
        decide_from_status(&obj(vec![
            ("ok", Json::Bool(false)),
            ("statusUnsupported", Json::Bool(false)),
            ("error", s("x")),
        ])),
        StatusDecision::Error("x".to_string())
    );
}

#[test]
fn inactive_messages_are_recognized() {
    for message in [
        "功能未开启",
        "签到未开放",
        "活动已过期",
        "inactive",
        "Feature not enabled",
        "not available",
    ] {
        assert!(is_inactive_message(message), "{message}");
    }
    assert!(!is_inactive_message("签到成功"));
    assert!(!is_inactive_message("系统繁忙，请稍后重试"));
    assert!(!is_inactive_message(""));
    assert!(is_inactive_message("Feature NOT ENABLED"));
}

#[test]
fn ai_inactive_response_skips_token_refresh_and_retry() {
    for resp in [
        obj(vec![("code", Json::Int(10011)), ("message", s("签到活动已过期"))]),
        obj(vec![("code", Json::Int(1)), ("msg", s("签到未开放"))]),
        obj(vec![("code", Json::Int(1)), ("message", s("Feature not enabled"))]),
    ] {
        assert!(skips_refresh_before_retry(WbVariant::Ai, &resp), "{resp:?}");
        let msg = message_of(&resp).unwrap();
        assert!(is_inactive_message(msg), "{msg}");
    }

    let cn_resp = obj(vec![("code", Json::Int(10011)), ("message", s("签到活动已过期"))]);
    assert!(!skips_refresh_before_retry(WbVariant::Cn, &cn_resp));
    assert!(is_unauthorized(&cn_resp));

    assert!(!skips_refresh_before_retry(
        WbVariant::Ai,
        &obj(vec![("code", Json::Int(401)), ("message", s("token 失效"))])
    ));
    assert!(!skips_refresh_before_retry(
        WbVariant::Ai,
        &obj(vec![("code", Json::Int(0)), ("message", s("签到成功"))])
    ));
}

#[test]
fn ai_account_does_not_call_cn_status_endpoints() {
    let ai = obj(vec![("id", s("ai-1")), ("uid", s("u-1")), ("variant", s("ai"))]);
    let status = match status_first_step(variant_of(&ai)) {
        StatusStep::Finish(status) => status,
        StatusStep::Query(path) => panic!("no request expected, got {path}"),
    };
    assert_eq!(get(&status, "ok"), Some(&Json::Bool(false)));
    assert_eq!(get(&status, "statusUnsupported"), Some(&Json::Bool(true)));
    assert!(get(&status, "raw").is_none());
    assert!(get(&status, "todayCheckedIn").is_none());
}

#[test]
fn ai_account_checkin_is_skipped_without_requests() {
    let ai = obj(vec![("id", s("ai-skip-checkin")), ("uid", s("u-ai")), ("variant", s("ai"))]);
    let result = checkin_start(true, &ai).expect("the check-in finishes before any request");
    assert_eq!(get(&result, "result"), Some(&s("skipped")));
    assert_eq!(get(&result, "reason"), Some(&s("unsupported_variant")));
    assert!(get(&result, "error").is_none());
    assert!(get(&result, "inactive").is_none());
}

#[test]
fn status_from_response_matches_legacy_shape() {
    assert_eq!(status_from_response(&obj(vec![("code", Json::Int(500))])), None);
    let ok = status_from_response(&obj(vec![
        ("code", Json::Int(0)),
        ("data", obj(vec![("today_checked_in", Json::Bool(true)), ("extra", Json::Int(1))])),
    ]))
    .expect("成功响应应解析");
    assert_eq!(get(&ok, "ok"), Some(&Json::Bool(true)));
    assert_eq!(get(&ok, "todayCheckedIn"), Some(&Json::Bool(true)));
    assert_eq!(get(get(&ok, "raw").unwrap(), "extra"), Some(&Json::Int(1)));

    let snake = status_from_response(&obj(vec![
        ("code", Json::Int(200)),
        ("data", obj(vec![("todayCheckedIn", Json::Bool(false))])),
    ]))
    .expect("camelCase 也应解析");
    assert_eq!(get(&snake, "todayCheckedIn"), Some(&Json::Bool(false)));
}

#[test]
fn checkin_path_candidates_are_variant_specific() {
    assert_eq!(
        variant_of(&obj(vec![("variant", s("ai"))]))
            .billing_paths(&format!("{CHECKIN_API_PREFIX}/daily-checkin")),
        vec!["/billing/meter/daily-checkin", "/v2/billing/meter/daily-checkin"]
    );
    assert_eq!(
        variant_of(&obj(vec![])).billing_paths(&format!("{CHECKIN_API_PREFIX}/daily-checkin")),
        vec!["/v2/billing/meter/daily-checkin"]
    );
}

#[test]
fn same_account_cannot_acquire_two_operation_guards() {
    let account = obj(vec![("id", s("checkin-guard-test-account"))]);
    let key = guard_key(&account, "someone@example.com");
    let mut running = RunningAccounts::new();
    assert!(running.try_acquire(&key), "first operation acquires guard");
    assert!(!running.try_acquire(&key));
    running.release(&key);
    assert!(running.try_acquire(&key));
}

#[test]
fn manual_all_reports_busy_when_cycle_is_running() {
    let accounts = vec![obj(vec![("id", s("a"))])];
    let result = all_start(false, &accounts, None).unwrap_err();
    assert_eq!(get(&result, "accounts"), Some(&Json::Array(vec![])));
    assert_eq!(get(&result, "status"), Some(&s("skipped")));
    assert_eq!(get(&result, "reason"), Some(&s("already_running")));
}

#[test]
fn checkin_is_unauthorized_detects_code() {
    assert!(is_unauthorized(&obj(vec![("code", Json::Int(401))])));
    assert!(is_unauthorized(&obj(vec![("code", Json::Int(403))])));
    assert!(!is_unauthorized(&obj(vec![("code", Json::Int(0))])));
}

fn log(id: &str, result: &str, ts: i64) -> Json {
    obj(vec![("accountId", s(id)), ("result", s(result)), ("ts", Json::Int(ts))])
}

#[test]
fn checked_in_today_requires_every_account() {
    let accounts = vec![obj(vec![("id", s("a"))]), obj(vec![("id", s("b"))])];
    let logs = vec![log("a", "success", 1_700_000_000_000), log("b", "already", 1_700_000_100_000)];
    let today = date_str(Some(1_700_000_000_000));
    assert!(accounts_checked_in_today(&accounts, &logs, &today));
}

#[test]
fn checked_in_today_false_when_one_failed_last() {
    let accounts = vec![obj(vec![("id", s("a"))])];
    let logs = vec![log("a", "success", 1_700_000_000_000), log("a", "error", 1_700_000_200_000)];
    let today = date_str(Some(1_700_000_200_000));
    assert!(!accounts_checked_in_today(&accounts, &logs, &today));
}

#[test]
fn checked_in_today_false_when_empty_or_missing() {
    assert!(!accounts_checked_in_today(&vec![], &vec![], "2026-08-19"));
    let accounts = vec![obj(vec![("id", s("a"))])];
    assert!(!accounts_checked_in_today(&accounts, &vec![], "2026-08-19"));
}

#[test]
fn checked_in_today_ignores_variants_without_checkin() {
    let today = date_str(Some(1_700_000_000_000));
    let logs = vec![log("cn-1", "success", 1_700_000_000_000)];

    let ai_only = vec![obj(vec![("id", s("ai-1")), ("variant", s("ai"))])];
    assert!(accounts_checked_in_today(&ai_only, &vec![], &today));

    let mixed = vec![
        obj(vec![("id", s("cn-1")), ("variant", s("cn"))]),
        obj(vec![("id", s("ai-1")), ("variant", s("ai"))]),
    ];
    assert!(accounts_checked_in_today(&mixed, &logs, &today));

    let pending_cn = vec![
        obj(vec![("id", s("cn-2")), ("variant", s("cn"))]),
        obj(vec![("id", s("ai-1")), ("variant", s("ai"))]),
    ];
    assert!(!accounts_checked_in_today(&pending_cn, &logs, &today));
}

#[test]
fn logs_are_tagged_with_variant_and_legacy_rows_fall_back_to_cn() {
    let accounts = vec![obj(vec![("id", s("cn-1"))]), obj(vec![("id", s("ai-1")), ("variant", s("ai"))])];
    let logs = vec![
        obj(vec![("accountId", s("ai-1")), ("result", s("success")), ("variant", s("ai"))]),
        obj(vec![("accountId", s("ai-1")), ("result", s("success"))]),
        obj(vec![("accountId", s("cn-1")), ("result", s("success"))]),
        obj(vec![("accountId", s("gone")), ("result", s("success"))]),
        obj(vec![("email", s("legacy@example.com")), ("result", s("success"))]),
    ];

    let rows = checkin_logs_with_variant(&logs, &accounts);
    assert_eq!(rows.len(), logs.len());
    assert_eq!(get(&rows[0], "variant"), Some(&s("ai")));
    assert_eq!(get(&rows[1], "variant"), Some(&s("ai")));
    assert_eq!(get(&rows[2], "variant"), Some(&s("cn")));
    assert_eq!(get(&rows[3], "variant"), Some(&s("cn")));
    assert_eq!(get(&rows[4], "variant"), Some(&s("cn")));
}

use wb_switch_core::checkin::{
    all_row, all_start, checkin_after_status, checkin_after_submit, checkin_outcome, checkin_paths,
    checkin_should_retry, checkin_start, cycle_row, cycle_start, cycle_summary, is_route_missing, all_report, cycle_report,
    no_route_reply, should_fall_back, status_after_activity, status_after_legacy, status_first_step,
    StatusStep, CheckinCycleMode,
};
use wb_switch_core::checkin_log::{
    accounts_checked_in_today_on, checkin_logs_with_variant, date_or_today, date_str, latest_today_result_of, log_dates,
    log_ts, timestamp_secs,
};
use wb_switch_core::guard::{guard_key, RunningAccounts};
use wb_switch_core::json::Json;
use wb_switch_core::variant::{variant_of, WbVariant};

fn s(t: &str) -> Json {
    Json::Str(t.to_string())
}

fn obj(fields: Vec<(&str, Json)>) -> Json {
    Json::Object(fields.into_iter().map(|(k, v)| (k.to_string(), v)).collect())
}

fn reply(code: i64, message: &str) -> Json {
    obj(vec![("code", Json::Int(code)), ("message", s(message))])
}

#[test]
fn only_route_missing_falls_back() {
    let missing = obj(vec![("code", Json::Int(404))]);
    assert!(is_route_missing(&missing));
    assert!(should_fall_back(0, 2, &missing));
    assert!(!should_fall_back(1, 2, &missing));
    for code in [401, 403, 10085, -1, 0] {
        assert!(!should_fall_back(0, 2, &obj(vec![("code", Json::Int(code))])), "{code}");
    }
    assert_eq!(
        no_route_reply(),
        obj(vec![("code", Json::Int(-1)), ("message", s("无可用签到路径"))])
    );
}

#[test]
fn status_paths_follow_the_prefix() {
    let paths = checkin_paths(WbVariant::Ai, "/checkin-status");
    assert_eq!(paths, vec!["/billing/meter/checkin-status", "/v2/billing/meter/checkin-status"]);
    assert_eq!(checkin_paths(WbVariant::Cn, "/checkin-status"), vec!["/v2/billing/meter/checkin-status"]);
}

#[test]
fn retry_needs_rejection_and_refresh_token() {
    let with_token = obj(vec![("refresh_token", s("r"))]);
    let without = obj(vec![("refresh_token", s(""))]);
    let rejected = reply(401, "");
    assert!(checkin_should_retry(WbVariant::Cn, &rejected, &with_token));
    assert!(!checkin_should_retry(WbVariant::Cn, &rejected, &without));
    assert!(!checkin_should_retry(WbVariant::Cn, &reply(0, "ok"), &with_token));
    // A lowercase-insensitive keyword match: "Token" becomes "token".
    assert!(checkin_should_retry(WbVariant::Cn, &reply(1, "Token Invalid"), &with_token));
    // "已过期" is a campaign message for the international edition: no retry.
    assert!(!checkin_should_retry(WbVariant::Ai, &reply(1, "活动已过期"), &with_token));
    assert!(checkin_should_retry(WbVariant::Cn, &reply(1, "活动已过期"), &with_token));
}

#[test]
fn status_query_steps() {
    match status_first_step(WbVariant::Cn) {
        StatusStep::Query(p) => assert_eq!(p, "/checkin-activity-status"),
        StatusStep::Finish(_) => panic!("domestic accounts are queried"),
    }
    match status_after_activity(&reply(500, "down")) {
        StatusStep::Query(p) => assert_eq!(p, "/checkin-status"),
        StatusStep::Finish(_) => panic!("a failed activity status falls back"),
    }
    let ok = obj(vec![("code", Json::Int(0)), ("data", obj(vec![("todayCheckedIn", Json::Bool(true))]))]);
    match status_after_activity(&ok) {
        StatusStep::Finish(st) => assert_eq!(st.get("todayCheckedIn"), Some(&Json::Bool(true))),
        StatusStep::Query(_) => panic!("a successful status finishes"),
    }
    assert_eq!(
        status_after_legacy(&reply(500, "down")),
        obj(vec![("ok", Json::Bool(false)), ("error", s("down"))])
    );
    assert_eq!(
        status_after_legacy(&obj(vec![("code", Json::Int(-7))])),
        obj(vec![("ok", Json::Bool(false)), ("error", s("code=-7"))])
    );
    let missing_code = status_after_legacy(&obj(vec![]));
    assert_eq!(missing_code.get("error"), Some(&s("code=-1")));
}

#[test]
fn outcomes_are_classified() {
    let success = checkin_outcome(WbVariant::Cn, &obj(vec![("code", Json::Int(200)), ("data", obj(vec![("n", Json::Int(1))]))]));
    assert_eq!(success, obj(vec![("ok", Json::Bool(true)), ("raw", obj(vec![("n", Json::Int(1))]))]));
    let no_data = checkin_outcome(WbVariant::Cn, &obj(vec![("code", Json::Int(0))]));
    assert_eq!(no_data, obj(vec![("ok", Json::Bool(true)), ("raw", obj(vec![]))]));
    let already = checkin_outcome(WbVariant::Ai, &reply(1, "今日已签到"));
    assert_eq!(already.get("already"), Some(&Json::Bool(true)));
    let repeat = checkin_outcome(WbVariant::Cn, &reply(1, "REPEAT request"));
    assert_eq!(repeat.get("ok"), Some(&Json::Bool(true)));
    let inactive = checkin_outcome(WbVariant::Ai, &reply(1, "签到未开放"));
    assert_eq!(
        inactive,
        obj(vec![("ok", Json::Bool(false)), ("inactive", Json::Bool(true)), ("message", s("签到未开放"))])
    );
    let domestic = checkin_outcome(WbVariant::Cn, &reply(1, "签到未开放"));
    assert_eq!(domestic, obj(vec![("ok", Json::Bool(false)), ("error", s("签到未开放"))]));
    let no_message = checkin_outcome(WbVariant::Cn, &obj(vec![("code", Json::Int(12))]));
    assert_eq!(no_message.get("error"), Some(&s("code=12")));
}

#[test]
fn busy_account_is_reported() {
    let cn = obj(vec![("id", s("cn-1"))]);
    assert_eq!(
        checkin_start(false, &cn),
        Some(obj(vec![("result", s("error")), ("error", s("该账号正在签到，请稍后再试"))]))
    );
    assert_eq!(checkin_start(true, &cn), None);
}

#[test]
fn after_status_steps() {
    let already = obj(vec![("ok", Json::Bool(true)), ("todayCheckedIn", Json::Bool(true))]);
    assert_eq!(checkin_after_status(&already), Some(obj(vec![("result", s("already"))])));
    let failed = obj(vec![("ok", Json::Bool(false))]);
    assert_eq!(
        checkin_after_status(&failed),
        Some(obj(vec![("result", s("error")), ("error", s("查询签到状态失败"))]))
    );
    let open = obj(vec![("ok", Json::Bool(true))]);
    assert_eq!(checkin_after_status(&open), None);
}

#[test]
fn inactive_submission_is_not_logged() {
    let account = obj(vec![("id", s("ai-1")), ("variant", s("ai"))]);
    let outcome = obj(vec![("ok", Json::Bool(false)), ("inactive", Json::Bool(true)), ("message", s("未开放"))]);
    let (reply, log) = checkin_after_submit(&outcome, 5, &account, "ai@example.com");
    assert_eq!(log, None);
    assert_eq!(
        reply,
        obj(vec![("result", s("inactive")), ("inactive", Json::Bool(true)), ("message", s("未开放"))])
    );
}

#[test]
fn submissions_are_logged_with_their_result() {
    let account = obj(vec![("id", s("cn-1"))]);
    let success = obj(vec![("ok", Json::Bool(true)), ("raw", obj(vec![]))]);
    let (reply, log) = checkin_after_submit(&success, 1_700_000_000_000, &account, "a@example.com");
    assert_eq!(reply, obj(vec![("result", s("success")), ("error", Json::Null)]));
    assert_eq!(
        log,
        Some(obj(vec![
            ("result", s("success")),
            ("ts", Json::Int(1_700_000_000_000)),
            ("accountId", s("cn-1")),
            ("email", s("a@example.com")),
            ("variant", s("cn")),
        ]))
    );
    let failure = obj(vec![("ok", Json::Bool(false)), ("error", s("boom"))]);
    let (reply, log) = checkin_after_submit(&failure, 7, &obj(vec![]), "b");
    assert_eq!(reply, obj(vec![("result", s("error")), ("error", s("boom"))]));
    assert_eq!(
        log,
        Some(obj(vec![
            ("result", s("error")),
            ("ts", Json::Int(7)),
            ("accountId", Json::Null),
            ("email", s("b")),
            ("variant", s("cn")),
            ("error", s("boom")),
        ]))
    );
    let already = obj(vec![("ok", Json::Bool(true)), ("already", Json::Bool(true))]);
    let (reply, _) = checkin_after_submit(&already, 7, &account, "b");
    assert_eq!(reply.get("result"), Some(&s("already")));
}

#[test]
fn rows_mark_inactive_results_only() {
    let inactive = obj(vec![("result", s("inactive")), ("inactive", Json::Bool(true)), ("message", s("m"))]);
    assert_eq!(
        cycle_row("a@example.com", &inactive),
        obj(vec![
            ("email", s("a@example.com")),
            ("result", s("inactive")),
            ("error", Json::Null),
            ("inactive", Json::Bool(true)),
        ])
    );
    let ok = obj(vec![("result", s("success")), ("error", Json::Null)]);
    assert_eq!(
        all_row(&obj(vec![("id", s("x"))]), "x@example.com", &ok),
        obj(vec![
            ("accountId", s("x")),
            ("email", s("x@example.com")),
            ("result", s("success")),
            ("error", Json::Null),
        ])
    );
}

#[test]
fn cycle_start_variants() {
    let enabled = obj(vec![("enabled", Json::Bool(true))]);
    let accounts = vec![obj(vec![("id", s("ai")), ("variant", s("ai"))]), obj(vec![("id", s("cn"))])];
    assert_eq!(
        cycle_start(false, &enabled, &accounts).unwrap_err(),
        obj(vec![("status", s("skipped")), ("reason", s("already_running"))])
    );
    assert_eq!(
        cycle_start(true, &obj(vec![]), &accounts).unwrap_err(),
        obj(vec![("status", s("disabled"))])
    );
    assert_eq!(
        cycle_start(true, &enabled, &vec![obj(vec![("variant", s("ai"))])]).unwrap_err(),
        obj(vec![("status", s("no_accounts"))])
    );
    assert_eq!(cycle_start(true, &enabled, &accounts).unwrap(), vec![obj(vec![("id", s("cn"))])]);
    assert_eq!(
        cycle_summary(vec![]),
        obj(vec![("status", s("ok")), ("accounts", Json::Array(vec![]))])
    );
    assert_ne!(CheckinCycleMode::StartupVerify, CheckinCycleMode::PeriodicRecovery);
}

#[test]
fn check_in_all_filters_by_edition() {
    let accounts = vec![
        obj(vec![("id", s("ai")), ("variant", s("ai"))]),
        obj(vec![("id", s("cn-1"))]),
        obj(vec![("id", s("cn-2")), ("variant", s("cn"))]),
    ];
    assert_eq!(all_start(true, &accounts, None).unwrap().len(), 2);
    assert_eq!(all_start(true, &accounts, Some(WbVariant::Ai)).unwrap().len(), 0);
    assert_eq!(all_start(true, &accounts, Some(WbVariant::Cn)).unwrap().len(), 2);
}

#[test]
fn guard_keys_fall_back_to_the_display_name() {
    assert_eq!(guard_key(&obj(vec![("id", s("a"))]), "n"), "a");
    assert_eq!(guard_key(&obj(vec![("id", s(""))]), "n"), "n");
    assert_eq!(guard_key(&obj(vec![("id", Json::Int(3))]), "n"), "n");
    let mut running = RunningAccounts::new();
    assert!(running.try_acquire("a"));
    assert!(running.try_acquire("b"));
    assert!(running.is_running("a"));
    running.release("a");
    assert!(!running.is_running("a"));
    assert!(running.is_running("b"));
    running.release("a");
    assert!(running.is_running("b"));
}

#[test]
fn latest_row_of_today_decides() {
    let logs = vec![
        obj(vec![("accountId", s("a")), ("result", s("error"))]),
        obj(vec![("accountId", s("a")), ("result", s("success"))]),
        obj(vec![("accountId", s("a")), ("result", s("error"))]),
    ];
    let dates = vec!["2026-01-01".to_string(), "2026-01-02".to_string(), "2026-01-01".to_string()];
    assert_eq!(latest_today_result_of(&logs, &dates, "a", "2026-01-02"), Some("success"));
    assert_eq!(latest_today_result_of(&logs, &dates, "a", "2026-01-01"), Some("error"));
    assert_eq!(latest_today_result_of(&logs, &dates, "b", "2026-01-01"), None);
    let accounts = vec![obj(vec![("id", s("a"))])];
    assert!(accounts_checked_in_today_on(&accounts, &logs, &dates, "2026-01-02"));
    assert!(!accounts_checked_in_today_on(&accounts, &logs, &dates, "2026-01-01"));
    let no_id = vec![obj(vec![("uid", s("a"))])];
    assert!(!accounts_checked_in_today_on(&no_id, &logs, &dates, "2026-01-02"));
}

#[test]
fn dates_have_the_calendar_shape() {
    let d = date_str(Some(1_700_000_000_000));
    assert_eq!(d.len(), 10);
    assert_eq!(&d[4..5], "-");
    assert_eq!(&d[7..8], "-");
    assert!(d.starts_with("2023-11-1"));
    assert_eq!(date_str(None).len(), 10);
}

#[test]
fn tagging_replaces_a_non_text_variant_and_keeps_other_fields() {
    let logs = vec![
        obj(vec![("accountId", s("a")), ("variant", Json::Int(3)), ("result", s("success"))]),
        Json::Null,
    ];
    let accounts = vec![obj(vec![("id", s("a")), ("variant", s("cn"))]), obj(vec![("id", s("a")), ("variant", s("ai"))])];
    let rows = checkin_logs_with_variant(&logs, &accounts);
    assert_eq!(
        rows[0],
        obj(vec![("accountId", s("a")), ("variant", s("ai")), ("result", s("success"))])
    );
    assert_eq!(rows[1], obj(vec![("variant", s("cn"))]));
    assert_eq!(variant_of(&obj(vec![("variant", s("AI"))])), WbVariant::Cn);
}

#[test]
fn times_are_truncated_to_whole_seconds() {
    assert_eq!(timestamp_secs(None), None);
    assert_eq!(timestamp_secs(Some(1_700_000_000_999)), Some(1_700_000_000));
    assert_eq!(timestamp_secs(Some(0)), Some(0));
    assert_eq!(timestamp_secs(Some(-1)), Some(0));
    assert_eq!(timestamp_secs(Some(-1500)), Some(-1));
    assert_eq!(timestamp_secs(Some(i64::MIN)), Some(i64::MIN / 1000));
}

#[test]
fn a_missing_date_falls_back_to_today() {
    assert_eq!(date_or_today(Some("2020-02-02".to_string()), "2026-01-01".to_string()), "2020-02-02");
    assert_eq!(date_or_today(None, "2026-01-01".to_string()), "2026-01-01");
    assert_eq!(date_str(Some(i64::MAX)), date_str(None));
}

#[test]
fn log_rows_are_dated_by_their_time() {
    let logs = vec![
        obj(vec![("ts", Json::Int(1_700_000_000_000))]),
        obj(vec![("ts", s("1700000000000"))]),
        obj(vec![]),
    ];
    assert_eq!(log_ts(&logs[0]), Some(1_700_000_000_000));
    assert_eq!(log_ts(&logs[1]), None);
    assert_eq!(log_ts(&logs[2]), None);
    let dates = log_dates(&logs);
    assert_eq!(dates.len(), 3);
    assert_eq!(dates[0], date_str(Some(1_700_000_000_000)));
    assert_eq!(dates[1], date_str(None));
    assert_eq!(dates[2], date_str(None));
}

#[test]
fn reports_have_one_row_per_target_in_order() {
    let names = vec!["a@x".to_string(), "b@x".to_string()];
    let results = vec![
        obj(vec![("result", s("success"))]),
        obj(vec![("result", s("inactive")), ("error", s("closed")), ("inactive", Json::Bool(true))]),
    ];
    let report = cycle_report(&names, &results);
    assert_eq!(
        report,
        obj(vec![
            ("status", s("ok")),
            (
                "accounts",
                Json::Array(vec![
                    obj(vec![("email", s("a@x")), ("result", s("success")), ("error", Json::Null)]),
                    obj(vec![
                        ("email", s("b@x")),
                        ("result", s("inactive")),
                        ("error", s("closed")),
                        ("inactive", Json::Bool(true)),
                    ]),
                ]),
            ),
        ])
    );
    let targets = vec![obj(vec![("id", s("1"))]), obj(vec![])];
    let all = all_report(&targets, &names, &results);
    let rows = match all.get("accounts") {
        Some(Json::Array(rows)) => rows.clone(),
        _ => panic!("no rows"),
    };
    assert_eq!(rows.len(), 2);
    assert_eq!(rows[0].get("accountId"), Some(&s("1")));
    assert_eq!(rows[1].get("accountId"), Some(&Json::Null));
    assert_eq!(rows[1].get("inactive"), Some(&Json::Bool(true)));
    assert_eq!(cycle_report(&vec![], &vec![]), obj(vec![("status", s("ok")), ("accounts", Json::Array(vec![]))]));
}

use wb_switch_core::growth::{
    accept_step, accept_summary_from_reply, claim_path, claim_plan, claim_result_from_reply,
    claimed_entry_of, count_json, derive_id, growth_accept_step, growth_all_start, growth_gate,
    growth_headers, growth_should_retry, item_label_of, lottery_chances_of, new_draw_token, prefixed_uuid,
    profile_summary_from_replies, report_envelopes, report_uid, task_list_from_reply,
    task_progress_of, tasks_gate, tasks_to_accept, to_hex_lower, BlindboxRun, LotteryRun,
};
use wb_switch_core::json::Json;
use wb_switch_core::progress::{
    progress_result, reply_line, split_in_fives, stage_events, task_action, zero_padded4, ProgressStage, TaskAction,
};

fn s(t: &str) -> Json {
    Json::Str(t.to_string())
}

fn obj(fields: Vec<(&str, Json)>) -> Json {
    Json::Object(fields.into_iter().map(|(k, v)| (k.to_string(), v)).collect())
}

fn task(code: &str, status: &str, current: i64, target: i64) -> Json {
    obj(vec![
        ("taskCode", s(code)),
        ("name", s(code)),
        ("acceptStatus", s(status)),
        ("current", Json::Int(current)),
        ("target", Json::Int(target)),
    ])
}

#[test]
fn derive_id_matches_sha1_of_salt_and_uid() {
    assert_eq!(derive_id("uid-123", "machine"), "dba68104372af8e5f11e2c31c525dfdf2040");
    assert_eq!(derive_id("uid-123", "session"), "412e296fd401f0238405a95147696adadac1");
    assert_eq!(to_hex_lower(&vec![0x00, 0x0f, 0xab, 0xff]), "000fabff");
}

#[test]
fn task_list_is_read_from_its_reply() {
    let reply = obj(vec![
        ("code", Json::Int(0)),
        (
            "data",
            obj(vec![(
                "tasks",
                Json::Array(vec![
                    obj(vec![
                        ("task_code", s("template_5")),
                        ("accept_status", s("accepted")),
                        ("status", Json::Int(1)),
                        ("progress", obj(vec![("current", Json::Int(2)), ("target", Json::Int(5))])),
                    ]),
                    Json::Int(7),
                ]),
            )]),
        ),
    ]);
    let list = task_list_from_reply(&reply);
    let tasks = match list.get("tasks") {
        Some(Json::Array(items)) => items,
        other => panic!("{other:?}"),
    };
    assert_eq!(tasks.len(), 1);
    assert_eq!(tasks[0].get("name"), Some(&s("使用5个模板")));
    assert_eq!(tasks[0].get("current"), Some(&Json::Int(2)));
    assert_eq!(tasks[0].get("target"), Some(&Json::Int(5)));
    assert_eq!(tasks[0].get("acceptStatus"), Some(&s("accepted")));

    let failed = task_list_from_reply(&obj(vec![("code", Json::Int(5)), ("message", s(""))]));
    assert_eq!(failed, obj(vec![("ok", Json::Bool(false)), ("error", s("code=5"))]));
    let failed = task_list_from_reply(&obj(vec![("code", Json::Int(5)), ("msg", s("busy"))]));
    assert_eq!(failed.get("error"), Some(&s("busy")));
}

#[test]
fn accepted_results_are_counted() {
    assert_eq!(
        accept_step(&vec![]),
        Some(obj(vec![("ok", Json::Bool(true)), ("accepted", Json::Int(0)), ("results", Json::Array(vec![]))]))
    );
    assert_eq!(accept_step(&vec!["a".to_string()]), None);
    assert_eq!(
        growth_accept_step(&vec![]),
        Some(obj(vec![("accepted", Json::Int(0)), ("results", Json::Array(vec![]))]))
    );
    let reply = obj(vec![(
        "data",
        obj(vec![(
            "results",
            Json::Array(vec![
                obj(vec![("status", s("accepted"))]),
                obj(vec![("status", s("failed"))]),
                obj(vec![("status", s("accepted"))]),
            ]),
        )]),
    )]);
    let summary = accept_summary_from_reply(&reply);
    assert_eq!(summary.get("accepted"), Some(&Json::Int(2)));
    assert_eq!(summary.get("ok"), Some(&Json::Bool(true)));
    assert_eq!(count_json(3), Json::Int(3));
}

#[test]
fn only_finished_unclaimed_tasks_are_claimed() {
    let list = obj(vec![(
        "tasks",
        Json::Array(vec![
            task("a", "accepted", 5, 5),
            task("b", "claimed", 5, 5),
            task("c", "accepted", 1, 5),
            task("d", "accepted", 0, 0),
            task("e", "completed", 9, 3),
        ]),
    )]);
    let (codes, already) = claim_plan(&list);
    assert_eq!(codes, vec!["a".to_string(), "e".to_string()]);
    assert_eq!(already, 1);
    assert_eq!(claim_path("a"), "/activity/growth/tasks/a/claim");
    let result = claim_result_from_reply("a", &obj(vec![("data", obj(vec![("already_claimed", Json::Bool(true))]))]));
    assert_eq!(result.get("already_claimed"), Some(&Json::Bool(true)));
    let entry = claimed_entry_of("template_5", &result).unwrap();
    assert_eq!(entry.get("name"), Some(&s("使用5个模板")));
    assert_eq!(claimed_entry_of("x", &obj(vec![("ok", Json::Bool(false))])), None);
}

#[test]
fn pending_tasks_and_progress_are_read() {
    let list = obj(vec![(
        "tasks",
        Json::Array(vec![task("a", "not_accepted", 0, 1), task("b", "accepted", 2, 3), task("a", "claimed", 9, 9)]),
    )]);
    assert_eq!(tasks_to_accept(&list), vec!["a".to_string()]);
    assert_eq!(task_progress_of(&list, "a"), ("not_accepted".to_string(), 0, 1));
    assert_eq!(task_progress_of(&list, "b"), ("accepted".to_string(), 2, 3));
    assert_eq!(task_progress_of(&list, "zz"), (String::new(), 0, 0));
}

#[test]
fn events_are_wrapped_in_envelopes() {
    let events = vec![obj(vec![("eventCode", s("x")), ("mode", s("LOCAL"))]), Json::Int(1)];
    let out = report_envelopes("uid-123", "nick", 42, &events);
    assert_eq!(out.len(), 2);
    assert_eq!(out[0].get("eventCode"), Some(&s("x")));
    assert_eq!(out[0].get("mode"), Some(&s("LOCAL")));
    assert_eq!(out[0].get("machineId"), Some(&s("dba68104372af8e5f11e2c31c525dfdf2040")));
    assert_eq!(out[0].get("timestamp"), Some(&Json::Int(42)));
    assert_eq!(out[1].get("mode"), Some(&s("CLOUD")));
    assert_eq!(out[1].get("eventCode"), None);
    assert_eq!(report_uid(&obj(vec![("uid", Json::Int(1))])), None);
}

#[test]
fn growth_headers_override_auth_headers() {
    let auth = vec![("origin".to_string(), "x".to_string()), ("authorization".to_string(), "t".to_string())];
    let headers = growth_headers(&auth, "https://example.test");
    assert_eq!(
        headers,
        vec![
            ("authorization".to_string(), "t".to_string()),
            ("x-client-platform".to_string(), "web".to_string()),
            ("origin".to_string(), "https://example.test".to_string()),
            ("referer".to_string(), "https://example.test/profile/growth-center".to_string()),
        ]
    );
    let account = obj(vec![("refresh_token", s("r"))]);
    assert!(growth_should_retry(&obj(vec![("code", Json::Int(403))]), &account));
    assert!(growth_should_retry(&obj(vec![("code", Json::Int(1)), ("msg", s("登录已过期"))]), &account));
    assert!(!growth_should_retry(&obj(vec![("code", Json::Int(0))]), &account));
}

#[test]
fn profile_summary_reads_three_replies() {
    let profile = obj(vec![("data", obj(vec![("level", Json::Int(3)), ("points", Json::Int(10))]))]);
    let energy = obj(vec![("data", obj(vec![("balance", Json::Int(7))]))]);
    let streak = obj(vec![("data", obj(vec![("streak", obj(vec![("days", Json::Int(4))]))]))]);
    let summary = profile_summary_from_replies(&profile, &energy, &streak);
    assert_eq!(summary.get("level"), Some(&Json::Int(3)));
    assert_eq!(summary.get("energy"), Some(&Json::Int(7)));
    assert_eq!(summary.get("streakDays"), Some(&Json::Int(4)));
    let empty = profile_summary_from_replies(&obj(vec![]), &obj(vec![]), &obj(vec![]));
    assert_eq!(empty.get("energy"), Some(&Json::Null));
    assert_eq!(empty.get("profile"), Some(&obj(vec![])));
}

#[test]
fn lottery_draws_at_most_the_chances_and_stops_on_failure() {
    let chances = obj(vec![("data", obj(vec![("chances", Json::Int(3))]))]);
    assert_eq!(lottery_chances_of(&chances), 3);
    assert_eq!(lottery_chances_of(&obj(vec![("data", obj(vec![("balance", Json::Int(-2))]))])), 0);
    let many = obj(vec![("data", obj(vec![("remaining", Json::Int((1i64 << 32) + 5))]))]);
    assert_eq!(lottery_chances_of(&many), (1i64 << 32) + 5);
    let mut capped = LotteryRun::start(&many, 2);
    capped.record_draw(&obj(vec![("code", Json::Int(0))]));
    assert!(capped.wants_draw());
    capped.record_draw(&obj(vec![("code", Json::Int(0))]));
    assert!(!capped.wants_draw());
    let mut run = LotteryRun::start(&chances, 2);
    let win = obj(vec![("code", Json::Int(0)), ("data", obj(vec![("prize_name", s("cup"))]))]);
    assert!(run.wants_draw());
    assert!(!run.pauses_before_draw());
    run.record_draw(&win);
    assert!(run.pauses_before_draw());
    run.record_draw(&obj(vec![("code", Json::Int(0))]));
    assert!(!run.wants_draw());
    assert_eq!(
        run.summary(),
        obj(vec![("ok", Json::Bool(true)), ("drawn", Json::Int(2)), ("prizes", Json::Array(vec![s("cup"), s("?")]))])
    );
    let mut stopped = LotteryRun::start(&chances, 50);
    stopped.record_draw(&obj(vec![("code", Json::Int(1))]));
    assert!(!stopped.wants_draw());
    assert_eq!(stopped.summary().get("drawn"), Some(&Json::Int(0)));
    let token = new_draw_token();
    assert!(token.starts_with("draw-"));
    assert_eq!(token.len(), 41);
    assert_ne!(new_draw_token(), token);
}

fn is_v4_uuid(id: &str) -> bool {
    let b = id.as_bytes();
    b.len() == 36
        && b.iter().enumerate().all(|(i, c)| match i {
            8 | 13 | 18 | 23 => *c == b'-',
            14 => *c == b'4',
            19 => matches!(c, b'8' | b'9' | b'a' | b'b'),
            _ => c.is_ascii_digit() || (b'a'..=b'f').contains(c),
        })
}

#[test]
fn random_ids_are_hyphenated_v4_uuids() {
    let token = new_draw_token();
    assert!(is_v4_uuid(&token[5..]));
    let conv = prefixed_uuid("conv-");
    assert!(conv.starts_with("conv-"));
    assert!(is_v4_uuid(&conv[5..]));
}

#[test]
fn a_lottery_with_more_chances_than_the_cap_draws_the_cap() {
    let huge = obj(vec![("data", obj(vec![("balance", Json::Int(1i64 << 32))]))]);
    assert_eq!(lottery_chances_of(&huge), 1i64 << 32);
    let mut run = LotteryRun::start(&huge, 50);
    let mut drawn = 0;
    while run.wants_draw() {
        run.record_draw(&obj(vec![("code", Json::Int(0))]));
        drawn += 1;
    }
    assert_eq!(drawn, 50);
    assert_eq!(run.summary().get("drawn"), Some(&Json::Int(50)));
}

#[test]
fn blind_boxes_are_labelled() {
    let item = obj(vec![
        ("instance", obj(vec![("name", s("cat"))])),
        ("template", obj(vec![("name", s("dog")), ("rarity", s("SSR"))])),
    ]);
    assert_eq!(item_label_of(&item), "cat(SSR)");
    assert_eq!(item_label_of(&obj(vec![])), "?");
    let mut run = BlindboxRun::start(3);
    let opened = obj(vec![("code", Json::Int(0)), ("data", obj(vec![("results", Json::Array(vec![item]))]))]);
    run.record_open(&opened);
    run.record_open(&obj(vec![("code", Json::Int(0))]));
    assert!(run.wants_open());
    run.record_open(&obj(vec![("code", Json::Int(9))]));
    assert!(!run.wants_open());
    assert_eq!(
        run.summary(),
        obj(vec![("ok", Json::Bool(true)), ("opened", Json::Int(1)), ("items", Json::Array(vec![s("cat(SSR)")]))])
    );
}

#[test]
fn growth_is_for_the_domestic_edition() {
    let ai = obj(vec![("variant", s("ai"))]);
    assert_eq!(
        growth_gate(&ai),
        Some(obj(vec![("ok", Json::Bool(false)), ("skipped", Json::Bool(true)), ("reason", s("仅国内版支持成长中心"))]))
    );
    assert_eq!(growth_gate(&obj(vec![])), None);
    assert_eq!(tasks_gate(&ai).unwrap().get("tasks"), Some(&Json::Array(vec![])));
    assert_eq!(
        growth_all_start(false, &vec![]).unwrap_err(),
        obj(vec![("ok", Json::Bool(false)), ("status", s("skipped")), ("reason", s("already_running"))])
    );
    assert_eq!(
        growth_all_start(true, &vec![ai]).unwrap_err(),
        obj(vec![("ok", Json::Bool(true)), ("accounts", Json::Array(vec![]))])
    );
}

#[test]
fn progress_stages_run_in_order() {
    let mut codes = Vec::new();
    let mut stage = Some(ProgressStage::first());
    while let Some(current) = stage {
        codes.push(current.task_code());
        stage = current.next();
    }
    assert_eq!(
        codes,
        vec![
            "template_5", "create_canvas", "automation_1", "playbook_prompt", "Library_read", "Buddy_App",
            "Buddy_App_QQ", "expert_5", "Expert_team_use_3"
        ]
    );
    assert!(ProgressStage::Template.is_due("accepted", 1, 5));
    assert!(!ProgressStage::Template.is_due("accepted", 5, 5));
    assert!(ProgressStage::Canvas.is_due("accepted", 5, 5));
    assert!(!ProgressStage::Canvas.is_due("claimed", 0, 5));
    assert_eq!(ProgressStage::Expert.batch_count(2, 5), 3);
    assert_eq!(ProgressStage::Template.batch_count(2, 5), 5);
    assert_eq!(ProgressStage::Library.pause_secs(), 2);
    let expert = stage_events(ProgressStage::Expert, 7, "u", "n", 1, "r");
    assert_eq!(expert[0].get("id"), Some(&s("expert-web-0007")));
    assert_eq!(expert[0].get("name"), Some(&s("在线助手7")));
    assert_eq!(zero_padded4(12345), "12345");
    let template = stage_events(ProgressStage::Template, 4, "u", "n", 1, "r");
    assert_eq!(template[1].get("templateId"), Some(&s("05-Report")));
}

#[test]
fn listed_tasks_get_events_notes_or_nothing() {
    match task_action(&task("RichMeow_Chat", "accepted", 0, 1), "c", "q", "m") {
        TaskAction::Report(code, batches) => {
            assert_eq!(code, "RichMeow_Chat");
            assert_eq!(batches.len(), 2);
            assert_eq!(batches[0].len(), 5);
            assert_eq!(batches[1].len(), 1);
            assert_eq!(batches[0][1].get("messageId"), Some(&s("m-assistant")));
        }
        _ => panic!("chat events expected"),
    }
    match task_action(&task("black_cat", "accepted", 0, 1), "c", "q", "m") {
        TaskAction::Note(n) => assert_eq!(n, "跳过:black_cat(black_cat) 需夜间真实对话"),
        _ => panic!("note expected"),
    }
    match task_action(&task("mystery", "accepted", 0, 1), "c", "q", "m") {
        TaskAction::Note(n) => assert_eq!(n, "未识别:mystery(mystery)"),
        _ => panic!("note expected"),
    }
    assert!(matches!(task_action(&task("skill_1", "completed", 0, 1), "c", "q", "m"), TaskAction::Nothing));
    assert!(matches!(task_action(&task("skill_1", "accepted", 1, 1), "c", "q", "m"), TaskAction::Nothing));
    assert_eq!(split_in_fives((0..11).map(|_| Json::Null).collect()).iter().map(|b| b.len()).collect::<Vec<_>>(), vec![5, 5, 1]);
    assert_eq!(reply_line("x", "{}"), "  [x] resp: {}");
}

#[test]
fn the_progress_result_lists_stages_then_tasks_in_order() {
    let p = |st: &str, cur: i64, tgt: i64| (st.to_string(), cur, tgt);
    let progress = vec![
        p("", 0, 5),
        p("completed", 0, 0),
        p("", 0, 0),
        p("claimed", 0, 0),
        p("accepted", 0, 1),
        p("", 0, 0),
        p("completed", 0, 0),
        p("", 5, 5),
        p("", 1, 3),
    ];
    let actions = vec![
        TaskAction::Nothing,
        TaskAction::Note("跳过:x(chat_5) 需真实对话".to_string()),
        TaskAction::Report("skill_1".to_string(), vec![vec![Json::Null], vec![Json::Null]]),
    ];
    let raws = vec![vec![], vec![], vec!["{\"code\":0}".to_string(), "null".to_string()]];
    assert_eq!(
        progress_result(&progress, &actions, &raws),
        vec![
            "template_5",
            "automation_1",
            "Library_read",
            "Buddy_App",
            "Expert_team_use_3",
            "跳过:x(chat_5) 需真实对话",
            "  [skill_1] resp: {\"code\":0}",
            "  [skill_1] resp: null",
            "skill_1",
        ]
    );
}

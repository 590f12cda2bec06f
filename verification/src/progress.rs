//! Progressing the growth center's event-driven tasks: which tasks are due,
//! which events to report for each, in which batches, with which pauses.

use vstd::prelude::*;
use crate::events::{
    automation_created_event, automation_created_event_view, automation_run_event, automation_run_event_view, automation_task_event, automation_task_event_view, buddy_auth_event, buddy_auth_event_local, buddy_auth_event_local_view, buddy_auth_event_view, buddy_discover_event, buddy_discover_event_local, buddy_discover_event_local_view, buddy_discover_event_view, buddy_enter_event, buddy_enter_event_local, buddy_enter_event_local_view, buddy_enter_event_view, buddy_show_event, buddy_show_event_local, buddy_show_event_local_view, buddy_show_event_view, buddy_skip_bind_event, buddy_skip_bind_event_local, buddy_skip_bind_event_local_view, buddy_skip_bind_event_view, canvas_created_event, canvas_created_event_view, chat_message_response_event, chat_message_response_event_view, chat_message_sent_event, chat_message_sent_event_view, chat_message_status_event, chat_message_status_event_view, chat_request_response_event, chat_request_response_event_view, chat_request_sent_event, chat_request_sent_event_view, chat_task_event, chat_task_event_view, design_task_event, design_task_event_view, expert_summoned_event, expert_summoned_event_view, expert_used_event, expert_used_event_view, library_click_event, library_click_event_view, lighthouse_summoned_event, lighthouse_summoned_event_view, lighthouse_used_event, lighthouse_used_event_view, playbook_prompt_event, playbook_prompt_event_view, skill_info_event, skill_info_event_view, skin_applied_event, skin_applied_event_view, team_used_event, team_used_event_view, template_created_event, template_created_event_view, template_used_event, template_used_event_view,
};
use crate::growth::{derived_id, derive_id, int_or, int_or_of, new_uuid, string_texts, text_or_empty, text_or_empty_of, uuid_text};
use crate::json::{field, items_view, lemma_items_view_push, Json, JsonV};
use crate::text::{digits, nat_to_text, text_eq};

verus! {

/// The fixed stages of progressing the core tasks, in the order they run.
#[derive(Clone, Copy, Debug, PartialEq, Eq, Structural)]
pub enum ProgressStage {
    Template,
    Canvas,
    Automation,
    Playbook,
    Library,
    BuddyApp,
    BuddyAppQq,
    Expert,
    Team,
}

/// The task whose progress a stage reads.
pub open spec fn stage_code(stage: ProgressStage) -> Seq<char> {
    match stage {
        ProgressStage::Template => "template_5"@,
        ProgressStage::Canvas => "create_canvas"@,
        ProgressStage::Automation => "automation_1"@,
        ProgressStage::Playbook => "playbook_prompt"@,
        ProgressStage::Library => "Library_read"@,
        ProgressStage::BuddyApp => "Buddy_App"@,
        ProgressStage::BuddyAppQq => "Buddy_App_QQ"@,
        ProgressStage::Expert => "expert_5"@,
        ProgressStage::Team => "Expert_team_use_3"@,
    }
}

/// The stage that follows.
pub open spec fn stage_next(stage: ProgressStage) -> Option<ProgressStage> {
    match stage {
        ProgressStage::Template => Some(ProgressStage::Canvas),
        ProgressStage::Canvas => Some(ProgressStage::Automation),
        ProgressStage::Automation => Some(ProgressStage::Playbook),
        ProgressStage::Playbook => Some(ProgressStage::Library),
        ProgressStage::Library => Some(ProgressStage::BuddyApp),
        ProgressStage::BuddyApp => Some(ProgressStage::BuddyAppQq),
        ProgressStage::BuddyAppQq => Some(ProgressStage::Expert),
        ProgressStage::Expert => Some(ProgressStage::Team),
        ProgressStage::Team => None,
    }
}

/// The stages that also require the progress to be below its target.
pub open spec fn checks_target(stage: ProgressStage) -> bool {
    stage == ProgressStage::Template || stage == ProgressStage::Expert || stage == ProgressStage::Team
}

/// A stage runs unless its task is completed or claimed (or, for the stages
/// that check it, its progress reached the target).
pub open spec fn stage_due(stage: ProgressStage, status: Seq<char>, current: int, target: int) -> bool {
    &&& status != "completed"@
    &&& status != "claimed"@
    &&& (checks_target(stage) ==> current < target)
}

/// The number of report batches of a due stage: one per template scene, one
/// per missing unit of progress for the expert stages, one otherwise.
pub open spec fn stage_batch_count(stage: ProgressStage, current: int, target: int) -> nat {
    match stage {
        ProgressStage::Template => 5,
        ProgressStage::Expert | ProgressStage::Team => if current < target {
            (target - current) as nat
        } else {
            0
        },
        _ => 1,
    }
}

/// The pause, in seconds, after each batch of a stage.
pub open spec fn stage_pause(stage: ProgressStage) -> nat {
    match stage {
        ProgressStage::Canvas | ProgressStage::Automation | ProgressStage::Playbook => 0,
        ProgressStage::Library => 2,
        _ => 1,
    }
}

/// The template scenes: id and name.
pub open spec fn scene(index: int) -> (Seq<char>, Seq<char>) {
    if index == 0 {
        ("01-ProductDesign"@, "产品设计"@)
    } else if index == 1 {
        ("02-Marketing"@, "营销文案"@)
    } else if index == 2 {
        ("03-DataAnalysis"@, "数据分析"@)
    } else if index == 3 {
        ("04-CodeReview"@, "代码审查"@)
    } else {
        ("05-Report"@, "报告撰写"@)
    }
}

/// Decimal digits padded with zeros to at least four.
pub open spec fn zero_pad4(ds: Seq<char>) -> Seq<char> {
    if ds.len() >= 4 {
        ds
    } else {
        Seq::new((4 - ds.len()) as nat, |_i: int| '0') + ds
    }
}

/// The five events of walking through a buddy app.
pub open spec fn buddy_events_view(id: Seq<char>, name: Seq<char>) -> Seq<JsonV> {
    seq![
        buddy_discover_event_view(id, name),
        buddy_show_event_view(id, name),
        buddy_enter_event_view(id, name),
        buddy_auth_event_view(id, name),
        buddy_skip_bind_event_view(id, name),
    ]
}

/// The five events of walking through a buddy app, in local mode.
pub open spec fn buddy_local_events_view(id: Seq<char>, name: Seq<char>) -> Seq<JsonV> {
    seq![
        buddy_discover_event_local_view(id, name),
        buddy_show_event_local_view(id, name),
        buddy_enter_event_local_view(id, name),
        buddy_auth_event_local_view(id, name),
        buddy_skip_bind_event_local_view(id, name),
    ]
}

/// The events of batch `index` of a stage, for the user `uid` (display name
/// `nick`) at time `now`; `rid` is the playbook prompt's request id.
pub open spec fn stage_events_view(
    stage: ProgressStage,
    index: nat,
    uid: Seq<char>,
    nick: Seq<char>,
    now: int,
    rid: Seq<char>,
) -> Seq<JsonV> {
    match stage {
        ProgressStage::Template => {
            let (tid, name) = scene(index as int);
            seq![template_created_event_view(tid, name), template_used_event_view(tid, name)]
        },
        ProgressStage::Canvas => seq![design_task_event_view(), canvas_created_event_view()],
        ProgressStage::Automation => seq![
            automation_task_event_view(),
            automation_created_event_view(),
            automation_run_event_view(),
        ],
        ProgressStage::Playbook => seq![playbook_prompt_event_view(rid)],
        ProgressStage::Library => seq![
            library_click_event_view(now, derived_id(uid, "webmachine"@), uid, nick),
        ],
        ProgressStage::BuddyApp => buddy_events_view("buddy-app-default"@, "发现应用"@),
        ProgressStage::BuddyAppQq => buddy_events_view("cb_y5Dy46tPQGGWtueMxXbe"@, "企鹅教师助手"@),
        ProgressStage::Expert => {
            let eid = "expert-web-"@ + zero_pad4(digits(index));
            let ename = "在线助手"@ + digits(index);
            seq![expert_summoned_event_view(eid, ename), expert_used_event_view(eid, ename)]
        },
        ProgressStage::Team => {
            let tid = "team-web-"@ + zero_pad4(digits(index));
            let tname = "专家团"@ + digits(index);
            seq![team_used_event_view(tid, tname)]
        },
    }
}

/// A batch of events to report, then a pause.
pub struct EventBatch {
    pub events: Vec<Json>,
    pub pause_secs: u64,
}

impl ProgressStage {
    /// The first stage.
    pub fn first() -> (res: ProgressStage)
        ensures
            res == ProgressStage::Template,
    {
        ProgressStage::Template
    }

    /// The stage that follows, if any.
    pub fn next(&self) -> (res: Option<ProgressStage>)
        ensures
            res == stage_next(*self),
    {
        match self {
            ProgressStage::Template => Some(ProgressStage::Canvas),
            ProgressStage::Canvas => Some(ProgressStage::Automation),
            ProgressStage::Automation => Some(ProgressStage::Playbook),
            ProgressStage::Playbook => Some(ProgressStage::Library),
            ProgressStage::Library => Some(ProgressStage::BuddyApp),
            ProgressStage::BuddyApp => Some(ProgressStage::BuddyAppQq),
            ProgressStage::BuddyAppQq => Some(ProgressStage::Expert),
            ProgressStage::Expert => Some(ProgressStage::Team),
            ProgressStage::Team => None,
        }
    }

    /// The task whose progress the stage reads; also the label recorded
    /// once the stage ran.
    pub fn task_code(&self) -> (res: &'static str)
        ensures
            res@ == stage_code(*self),
    {
        match self {
            ProgressStage::Template => "template_5",
            ProgressStage::Canvas => "create_canvas",
            ProgressStage::Automation => "automation_1",
            ProgressStage::Playbook => "playbook_prompt",
            ProgressStage::Library => "Library_read",
            ProgressStage::BuddyApp => "Buddy_App",
            ProgressStage::BuddyAppQq => "Buddy_App_QQ",
            ProgressStage::Expert => "expert_5",
            ProgressStage::Team => "Expert_team_use_3",
        }
    }

    /// Whether the stage runs, given its task's progress.
    pub fn is_due(&self, status: &str, current: i64, target: i64) -> (res: bool)
        ensures
            res == stage_due(*self, status@, current as int, target as int),
    {
        let checks = match self {
            ProgressStage::Template | ProgressStage::Expert | ProgressStage::Team => true,
            _ => false,
        };
        !text_eq(status, "completed") && !text_eq(status, "claimed") && (!checks || current < target)
    }

    /// The number of report batches of the stage.
    pub fn batch_count(&self, current: i64, target: i64) -> (res: u64)
        ensures
            res as nat == stage_batch_count(*self, current as int, target as int),
    {
        match self {
            ProgressStage::Template => 5,
            ProgressStage::Expert | ProgressStage::Team => if current < target {
                let d: i128 = target as i128 - current as i128;
                d as u64
            } else {
                0
            },
            _ => 1,
        }
    }

    /// The pause after each batch of the stage, in seconds.
    pub fn pause_secs(&self) -> (res: u64)
        ensures
            res as nat == stage_pause(*self),
    {
        match self {
            ProgressStage::Canvas | ProgressStage::Automation | ProgressStage::Playbook => 0,
            ProgressStage::Library => 2,
            _ => 1,
        }
    }
}

fn scene_of(index: u64) -> (res: (&'static str, &'static str))
    requires
        index < 5,
    ensures
        (res.0@, res.1@) == scene(index as int),
{
    if index == 0 {
        ("01-ProductDesign", "产品设计")
    } else if index == 1 {
        ("02-Marketing", "营销文案")
    } else if index == 2 {
        ("03-DataAnalysis", "数据分析")
    } else if index == 3 {
        ("04-CodeReview", "代码审查")
    } else {
        ("05-Report", "报告撰写")
    }
}

/// Decimal digits of a number, padded with zeros to at least four.
pub fn zero_padded4(n: u64) -> (res: String)
    ensures
        res@ == zero_pad4(digits(n as nat)),
{
    let ds = nat_to_text(n);
    let len = ds.as_str().unicode_len();
    if len >= 4 {
        return ds;
    }
    let mut out = String::new();
    let mut k: usize = 0;
    proof {
        reveal_strlit("0");
    }
    while k < 4 - len
        invariant
            len == ds@.len(),
            len < 4,
            k <= 4 - len,
            out@ == Seq::new(k as nat, |_i: int| '0'),
        decreases 4 - len - k,
    {
        proof {
            reveal_strlit("0");
        }
        out.append("0");
        k = k + 1;
        assert(out@ =~= Seq::new(k as nat, |_i: int| '0'));
    }
    out.append(ds.as_str());
    out
}

fn prefixed(prefix: &str, tail: &str) -> (res: String)
    ensures
        res@ == prefix@ + tail@,
{
    let mut t = String::from_str(prefix);
    t.append(tail);
    t
}

fn buddy_events(id: &str, name: &str) -> (res: Vec<Json>)
    ensures
        items_view(res@) == buddy_events_view(id@, name@),
{
    let v = vec![
        buddy_discover_event(id, name),
        buddy_show_event(id, name),
        buddy_enter_event(id, name),
        buddy_auth_event(id, name),
        buddy_skip_bind_event(id, name),
    ];
    assert(items_view(v@) =~= buddy_events_view(id@, name@));
    v
}

fn buddy_local_events(id: &str, name: &str) -> (res: Vec<Json>)
    ensures
        items_view(res@) == buddy_local_events_view(id@, name@),
{
    let v = vec![
        buddy_discover_event_local(id, name),
        buddy_show_event_local(id, name),
        buddy_enter_event_local(id, name),
        buddy_auth_event_local(id, name),
        buddy_skip_bind_event_local(id, name),
    ];
    assert(items_view(v@) =~= buddy_local_events_view(id@, name@));
    v
}

/// The events of batch `index` of a stage (see [`stage_events_view`]).
pub fn stage_events(stage: ProgressStage, index: u64, uid: &str, nick: &str, now: i64, rid: &str) -> (res: Vec<Json>)
    requires
        stage == ProgressStage::Template ==> index < 5,
    ensures
        items_view(res@) == stage_events_view(stage, index as nat, uid@, nick@, now as int, rid@),
{
    match stage {
        ProgressStage::Template => {
            let (tid, name) = scene_of(index);
            let v = vec![template_created_event(tid, name), template_used_event(tid, name)];
            assert(items_view(v@) =~= stage_events_view(stage, index as nat, uid@, nick@, now as int, rid@));
            v
        },
        ProgressStage::Canvas => {
            let v = vec![design_task_event(), canvas_created_event()];
            assert(items_view(v@) =~= stage_events_view(stage, index as nat, uid@, nick@, now as int, rid@));
            v
        },
        ProgressStage::Automation => {
            let v = vec![automation_task_event(), automation_created_event(), automation_run_event()];
            assert(items_view(v@) =~= stage_events_view(stage, index as nat, uid@, nick@, now as int, rid@));
            v
        },
        ProgressStage::Playbook => {
            let v = vec![playbook_prompt_event(rid)];
            assert(items_view(v@) =~= stage_events_view(stage, index as nat, uid@, nick@, now as int, rid@));
            v
        },
        ProgressStage::Library => {
            let web_machine = derive_id(uid, "webmachine");
            let v = vec![library_click_event(now, web_machine.as_str(), uid, nick)];
            assert(items_view(v@) =~= stage_events_view(stage, index as nat, uid@, nick@, now as int, rid@));
            v
        },
        ProgressStage::BuddyApp => buddy_events("buddy-app-default", "发现应用"),
        ProgressStage::BuddyAppQq => buddy_events("cb_y5Dy46tPQGGWtueMxXbe", "企鹅教师助手"),
        ProgressStage::Expert => {
            let pad = zero_padded4(index);
            let n = nat_to_text(index);
            let eid = prefixed("expert-web-", pad.as_str());
            let ename = prefixed("在线助手", n.as_str());
            let v = vec![
                expert_summoned_event(eid.as_str(), ename.as_str()),
                expert_used_event(eid.as_str(), ename.as_str()),
            ];
            assert(items_view(v@) =~= stage_events_view(stage, index as nat, uid@, nick@, now as int, rid@));
            v
        },
        ProgressStage::Team => {
            let pad = zero_padded4(index);
            let n = nat_to_text(index);
            let tid = prefixed("team-web-", pad.as_str());
            let tname = prefixed("专家团", n.as_str());
            let v = vec![team_used_event(tid.as_str(), tname.as_str())];
            assert(items_view(v@) =~= stage_events_view(stage, index as nat, uid@, nick@, now as int, rid@));
            v
        },
    }
}

/// Batch `index` of a stage, with a fresh random request id for the
/// playbook prompt, and the stage's pause.
pub fn stage_batch(stage: ProgressStage, index: u64, uid: &str, nick: &str, now: i64) -> (res: EventBatch)
    requires
        stage == ProgressStage::Template ==> index < 5,
    ensures
        res.pause_secs as nat == stage_pause(stage),
        exists|rid: Seq<char>|
            uuid_text(rid) && items_view(res.events@) == stage_events_view(stage, index as nat, uid@, nick@, now as int, rid),
{
    let rid = new_uuid();
    let events = stage_events(stage, index, uid, nick, now, rid.as_str());
    EventBatch { events, pause_secs: stage.pause_secs() }
}

/// Events split into batches of five, in order (the last may be shorter).
pub open spec fn chunks_of_five(events: Seq<JsonV>) -> Seq<Seq<JsonV>> {
    Seq::new(
        ((events.len() + 4) / 5) as nat,
        |k: int|
            events.subrange(5 * k, if 5 * k + 5 <= events.len() {
                5 * k + 5
            } else {
                events.len() as int
            }),
    )
}

/// The models of batches of values.
pub open spec fn batches_view(batches: Seq<Vec<Json>>) -> Seq<Seq<JsonV>> {
    batches.map_values(|b: Vec<Json>| items_view(b@))
}

/// Splits events into batches of five.
pub fn split_in_fives(events: Vec<Json>) -> (res: Vec<Vec<Json>>)
    ensures
        batches_view(res@) == chunks_of_five(items_view(events@)),
{
    let ghost all = items_view(events@);
    let n = events.len();
    let mut out: Vec<Vec<Json>> = Vec::new();
    let mut current: Vec<Json> = Vec::new();
    let mut i: usize = 0;
    while i < n
        invariant
            n == events@.len(),
            all == items_view(events@),
            i <= n,
            out@.len() == i / 5,
            current@.len() == i % 5,
            forall|k: int| 0 <= k < out@.len() ==> items_view(#[trigger] out@[k]@) == all.subrange(5 * k, 5 * k + 5),
            items_view(current@) == all.subrange(5 * (i / 5) as int, i as int),
        decreases n - i,
    {
        let c = events[i].deep_clone();
        proof {
            lemma_items_view_push(current@, c);
            assert(all.subrange(5 * (i / 5) as int, i + 1) =~= all.subrange(5 * (i / 5) as int, i as int).push(c@));
        }
        current.push(c);
        i = i + 1;
        if current.len() == 5 {
            let mut full: Vec<Json> = Vec::new();
            std::mem::swap(&mut full, &mut current);
            out.push(full);
            proof {
                crate::json::lemma_empty_items();
                assert(items_view(current@) =~= all.subrange(5 * (i / 5) as int, i as int));
            }
        }
    }
    if current.len() > 0 {
        out.push(current);
    }
    assert(batches_view(out@) =~= chunks_of_five(all)) by {
        assert forall|k: int| 0 <= k < out@.len() implies batches_view(out@)[k] == chunks_of_five(all)[k] by {
            if 5 * k + 5 <= all.len() {
            } else {
            }
        }
    }
    out
}

/// The six events of one chat with the fast model.
pub open spec fn chat_events_view(conv: Seq<char>, req: Seq<char>, msg: Seq<char>) -> Seq<JsonV> {
    let reply_msg = msg + "-assistant"@;
    seq![
        chat_task_event_view(conv, msg),
        chat_message_sent_event_view(conv, req, reply_msg),
        chat_request_sent_event_view(conv, req),
        chat_message_response_event_view(conv, req, reply_msg),
        chat_message_status_event_view(conv, req, reply_msg),
        chat_request_response_event_view(conv, req),
    ]
}

/// The events reported for a listed task, by code, when there are any.
pub open spec fn task_events(code: Seq<char>, conv: Seq<char>, req: Seq<char>, msg: Seq<char>) -> Option<Seq<JsonV>> {
    if code == "RichMeow_Chat"@ {
        Some(chat_events_view(conv, req, msg))
    } else if code == "Expert_lighthouse"@ {
        Some(seq![lighthouse_summoned_event_view(), lighthouse_used_event_view(conv, req, msg)])
    } else if code == "Hp_Appearance"@ {
        Some(seq![skin_applied_event_view()])
    } else if code == "skill_1"@ {
        Some(seq![skill_info_event_view()])
    } else if code == "Buddy_App_QQ"@ {
        Some(buddy_local_events_view("cb_y5Dy46tPQGGWtueMxXbe"@, "企鹅教师助手"@))
    } else {
        None
    }
}

/// Why a listed task is left to the user, by code, when it is.
pub open spec fn skip_reason(code: Seq<char>) -> Option<Seq<char>> {
    if code == "black_cat"@ {
        Some("需夜间真实对话"@)
    } else if code == "Expert_Philanthropy"@ {
        Some("需真实捐款"@)
    } else if code == "wb_wechat_oa_subscribe_task"@ {
        Some("需真实关注"@)
    } else if code == "Model_chat_GLM5.2"@ || code == "chat_5"@ {
        Some("需真实对话"@)
    } else {
        None
    }
}

/// What is done for one listed task.
pub enum TaskAction {
    /// Nothing: it is completed, claimed or at its target.
    Nothing,
    /// A note only: it is left to the user, or not recognised.
    Note(String),
    /// Report these batches of events of the task with this code.
    Report(String, Vec<Vec<Json>>),
}

/// The model of a [`TaskAction`].
pub enum TaskActionV {
    Nothing,
    Note(Seq<char>),
    Report(Seq<char>, Seq<Seq<JsonV>>),
}

impl TaskAction {
    pub open spec fn view(&self) -> TaskActionV {
        match self {
            TaskAction::Nothing => TaskActionV::Nothing,
            TaskAction::Note(n) => TaskActionV::Note(n@),
            TaskAction::Report(c, b) => TaskActionV::Report(c@, batches_view(b@)),
        }
    }
}

/// What is done for a listed (shown) task: nothing when it is completed,
/// claimed, or has a positive target that its progress reached (the target
/// defaults to 1, the progress to 0); otherwise its events, in batches of
/// five (with the task's code), when its code has events; otherwise a note saying that it is left to
/// the user (`跳过:<name>(<code>) <reason>`) or not recognised
/// (`未识别:<name>(<code>)`).
pub open spec fn task_action_view(task: JsonV, conv: Seq<char>, req: Seq<char>, msg: Seq<char>) -> TaskActionV {
    let code = text_or_empty(field(task, "taskCode"@));
    let name = text_or_empty(field(task, "name"@));
    let status = text_or_empty(field(task, "acceptStatus"@));
    let current = int_or(field(task, "current"@), 0);
    let target = int_or(field(task, "target"@), 1);
    if status == "completed"@ || status == "claimed"@ {
        TaskActionV::Nothing
    } else if current >= target && target > 0 {
        TaskActionV::Nothing
    } else {
        match task_events(code, conv, req, msg) {
            Some(events) => TaskActionV::Report(code, chunks_of_five(events)),
            None => match skip_reason(code) {
                Some(reason) => TaskActionV::Note("跳过:"@ + name + "("@ + code + ") "@ + reason),
                None => TaskActionV::Note("未识别:"@ + name + "("@ + code + ")"@),
            },
        }
    }
}

fn task_events_of(code: &str, conv: &str, req: &str, msg: &str) -> (res: Option<Vec<Json>>)
    ensures
        match res {
            Some(v) => task_events(code@, conv@, req@, msg@) == Some(items_view(v@)),
            None => task_events(code@, conv@, req@, msg@) is None,
        },
{
    if text_eq(code, "RichMeow_Chat") {
        let reply_msg = prefixed(msg, "-assistant");
        let v = vec![
            chat_task_event(conv, msg),
            chat_message_sent_event(conv, req, reply_msg.as_str()),
            chat_request_sent_event(conv, req),
            chat_message_response_event(conv, req, reply_msg.as_str()),
            chat_message_status_event(conv, req, reply_msg.as_str()),
            chat_request_response_event(conv, req),
        ];
        assert(items_view(v@) =~= chat_events_view(conv@, req@, msg@));
        Some(v)
    } else if text_eq(code, "Expert_lighthouse") {
        let v = vec![lighthouse_summoned_event(), lighthouse_used_event(conv, req, msg)];
        assert(items_view(v@) =~= seq![lighthouse_summoned_event_view(), lighthouse_used_event_view(conv@, req@, msg@)]);
        Some(v)
    } else if text_eq(code, "Hp_Appearance") {
        let v = vec![skin_applied_event()];
        assert(items_view(v@) =~= seq![skin_applied_event_view()]);
        Some(v)
    } else if text_eq(code, "skill_1") {
        let v = vec![skill_info_event()];
        assert(items_view(v@) =~= seq![skill_info_event_view()]);
        Some(v)
    } else if text_eq(code, "Buddy_App_QQ") {
        Some(buddy_local_events("cb_y5Dy46tPQGGWtueMxXbe", "企鹅教师助手"))
    } else {
        None
    }
}

fn skip_reason_of(code: &str) -> (res: Option<&'static str>)
    ensures
        crate::json::opt_text(res) == skip_reason(code@),
{
    if text_eq(code, "black_cat") {
        Some("需夜间真实对话")
    } else if text_eq(code, "Expert_Philanthropy") {
        Some("需真实捐款")
    } else if text_eq(code, "wb_wechat_oa_subscribe_task") {
        Some("需真实关注")
    } else if text_eq(code, "Model_chat_GLM5.2") || text_eq(code, "chat_5") {
        Some("需真实对话")
    } else {
        None
    }
}

/// What is done for a listed task, with the given conversation, request and
/// message ids (see [`task_action_view`]).
pub fn task_action(task: &Json, conv: &str, req: &str, msg: &str) -> (res: TaskAction)
    ensures
        res@ == task_action_view(task@, conv@, req@, msg@),
{
    let code = text_or_empty_of(task.get("taskCode"));
    let name = text_or_empty_of(task.get("name"));
    let status = text_or_empty_of(task.get("acceptStatus"));
    let current = int_or_of(task.get("current"), 0);
    let target = int_or_of(task.get("target"), 1);
    if text_eq(status, "completed") || text_eq(status, "claimed") {
        return TaskAction::Nothing;
    }
    if current >= target && target > 0 {
        return TaskAction::Nothing;
    }
    match task_events_of(code, conv, req, msg) {
        Some(events) => TaskAction::Report(code.to_owned(), split_in_fives(events)),
        None => match skip_reason_of(code) {
            Some(reason) => {
                let mut t = String::from_str("跳过:");
                t.append(name);
                t.append("(");
                t.append(code);
                t.append(") ");
                t.append(reason);
                TaskAction::Note(t)
            },
            None => {
                let mut t = String::from_str("未识别:");
                t.append(name);
                t.append("(");
                t.append(code);
                t.append(")");
                TaskAction::Note(t)
            },
        },
    }
}

/// What is done for a listed task, with fresh random conversation, request
/// and message ids (`conv-`, `req-` and `msg-` followed by a random id).
pub fn task_action_fresh(task: &Json) -> (res: TaskAction)
    ensures
        exists|conv: Seq<char>, req: Seq<char>, msg: Seq<char>|
            uuid_text(conv) && uuid_text(req) && uuid_text(msg)
                && res@ == task_action_view(task@, "conv-"@ + conv, "req-"@ + req, "msg-"@ + msg),
{
    let conv = crate::growth::prefixed_uuid("conv-");
    let req = crate::growth::prefixed_uuid("req-");
    let msg = crate::growth::prefixed_uuid("msg-");
    let res = task_action(task, conv.as_str(), req.as_str(), msg.as_str());
    proof {
        let c = choose|id: Seq<char>| uuid_text(id) && conv@ == "conv-"@ + id;
        let r = choose|id: Seq<char>| uuid_text(id) && req@ == "req-"@ + id;
        let m = choose|id: Seq<char>| uuid_text(id) && msg@ == "msg-"@ + id;
        assert(uuid_text(c) && uuid_text(r) && uuid_text(m));
        assert(res@ == task_action_view(task@, "conv-"@ + c, "req-"@ + r, "msg-"@ + m));
    }
    res
}

/// The progress line recorded after a batch of a listed task was reported:
/// the task code and the reply, as JSON text.
pub fn reply_line(code: &str, raw_reply_text: &str) -> (res: String)
    ensures
        res@ == "  ["@ + code@ + "] resp: "@ + raw_reply_text@,
{
    let mut t = String::from_str("  [");
    t.append(code);
    t.append("] resp: ");
    t.append(raw_reply_text);
    t
}

/// The stages, in the order they run.
pub open spec fn stage_order() -> Seq<ProgressStage> {
    seq![
        ProgressStage::Template,
        ProgressStage::Canvas,
        ProgressStage::Automation,
        ProgressStage::Playbook,
        ProgressStage::Library,
        ProgressStage::BuddyApp,
        ProgressStage::BuddyAppQq,
        ProgressStage::Expert,
        ProgressStage::Team,
    ]
}

/// A task's progress as read from the task list: status, current, target.
pub open spec fn progress_view(p: (String, i64, i64)) -> (Seq<char>, int, int) {
    (p.0@, p.1 as int, p.2 as int)
}

/// The models of the progress of each stage.
pub open spec fn progress_views(ps: Seq<(String, i64, i64)>) -> Seq<(Seq<char>, int, int)> {
    ps.map_values(|p: (String, i64, i64)| progress_view(p))
}

/// What a stage adds to the result: its task code when it ran, else nothing.
pub open spec fn stage_entry(stage: ProgressStage, p: (Seq<char>, int, int)) -> Seq<Seq<char>> {
    if stage_due(stage, p.0, p.1, p.2) {
        seq![stage_code(stage)]
    } else {
        Seq::empty()
    }
}

/// What the first `n` stages add, in order; `progress[k]` is the progress of
/// the `k`-th stage's task.
pub open spec fn stage_entries(progress: Seq<(Seq<char>, int, int)>, n: nat) -> Seq<Seq<char>>
    decreases n,
{
    if n == 0 {
        Seq::empty()
    } else {
        stage_entries(progress, (n - 1) as nat) + stage_entry(stage_order()[n - 1], progress[n - 1])
    }
}

/// The line recorded after a batch of a listed task was reported.
pub open spec fn reply_line_text(code: Seq<char>, raw: Seq<char>) -> Seq<char> {
    "  ["@ + code + "] resp: "@ + raw
}

/// What a listed task adds to the result: nothing, its note, or one line per
/// reported batch (`raws[j]` being the JSON text of batch `j`'s reply)
/// followed by the task's code.
pub open spec fn task_entries(action: TaskActionV, raws: Seq<Seq<char>>) -> Seq<Seq<char>> {
    match action {
        TaskActionV::Nothing => Seq::empty(),
        TaskActionV::Note(n) => seq![n],
        TaskActionV::Report(code, _) => Seq::new(raws.len(), |j: int| reply_line_text(code, raws[j])).push(code),
    }
}

/// What the first `n` listed tasks add, in order.
pub open spec fn task_entries_upto(actions: Seq<TaskActionV>, raws: Seq<Seq<Seq<char>>>, n: nat) -> Seq<Seq<char>>
    decreases n,
{
    if n == 0 {
        Seq::empty()
    } else {
        task_entries_upto(actions, raws, (n - 1) as nat) + task_entries(actions[n - 1], raws[n - 1])
    }
}

/// The models of task actions.
pub open spec fn action_views(actions: Seq<TaskAction>) -> Seq<TaskActionV> {
    actions.map_values(|a: TaskAction| a@)
}

/// The models of the reply texts of each listed task.
pub open spec fn raw_views(raws: Seq<Vec<String>>) -> Seq<Seq<Seq<char>>> {
    raws.map_values(|r: Vec<String>| r@.map_values(|t: String| t@))
}

/// The result of progressing the core tasks: the code of each stage that ran,
/// in stage order, then what each listed task added, in list order.
pub open spec fn progress_result_view(
    progress: Seq<(Seq<char>, int, int)>,
    actions: Seq<TaskActionV>,
    raws: Seq<Seq<Seq<char>>>,
) -> Seq<Seq<char>> {
    stage_entries(progress, 9) + task_entries_upto(actions, raws, actions.len())
}

/// Each reported task has one reply text per batch.
pub open spec fn one_reply_per_batch(actions: Seq<TaskActionV>, raws: Seq<Seq<Seq<char>>>) -> bool {
    &&& actions.len() == raws.len()
    &&& forall|i: int|
        0 <= i < actions.len() ==> match #[trigger] actions[i] {
            TaskActionV::Report(_, batches) => raws[i].len() == batches.len(),
            _ => true,
        }
}

fn stage_at(k: usize) -> (res: ProgressStage)
    requires
        k < 9,
    ensures
        res == stage_order()[k as int],
{
    match k {
        0 => ProgressStage::Template,
        1 => ProgressStage::Canvas,
        2 => ProgressStage::Automation,
        3 => ProgressStage::Playbook,
        4 => ProgressStage::Library,
        5 => ProgressStage::BuddyApp,
        6 => ProgressStage::BuddyAppQq,
        7 => ProgressStage::Expert,
        _ => ProgressStage::Team,
    }
}

/// The result of progressing the core tasks, from the progress read for each
/// stage (`progress[k]` for the `k`-th stage, in the order of
/// `ProgressStage::first` and `next`), the action taken for each listed task
/// and the JSON texts of the replies to its reported batches (`raws[i][j]`
/// for batch `j` of listed task `i`).
pub fn progress_result(progress: &Vec<(String, i64, i64)>, actions: &Vec<TaskAction>, raws: &Vec<Vec<String>>) -> (res: Vec<String>)
    requires
        progress@.len() == 9,
        one_reply_per_batch(action_views(actions@), raw_views(raws@)),
    ensures
        string_texts(res@) == progress_result_view(progress_views(progress@), action_views(actions@), raw_views(raws@)),
{
    let ghost pv = progress_views(progress@);
    let ghost av = action_views(actions@);
    let ghost rv = raw_views(raws@);
    let mut out: Vec<String> = Vec::new();
    let mut k: usize = 0;
    assert(string_texts(out@) =~= stage_entries(pv, 0));
    while k < 9
        invariant
            k <= 9,
            progress@.len() == 9,
            pv == progress_views(progress@),
            string_texts(out@) == stage_entries(pv, k as nat),
        decreases 9 - k,
    {
        let stage = stage_at(k);
        let p = &progress[k];
        assert(pv[k as int] == progress_view(*p));
        let ghost before = string_texts(out@);
        if stage.is_due(p.0.as_str(), p.1, p.2) {
            let code = stage.task_code().to_owned();
            out.push(code);
            assert(string_texts(out@) =~= before + seq![stage_code(stage)]);
        } else {
            assert(string_texts(out@) =~= before + Seq::<Seq<char>>::empty());
        }
        k = k + 1;
    }
    let mut i: usize = 0;
    assert(task_entries_upto(av, rv, 0) =~= Seq::<Seq<char>>::empty());
    assert(stage_entries(pv, 9) + Seq::<Seq<char>>::empty() =~= stage_entries(pv, 9));
    while i < actions.len()
        invariant
            i <= actions@.len(),
            pv == progress_views(progress@),
            av == action_views(actions@),
            rv == raw_views(raws@),
            one_reply_per_batch(av, rv),
            string_texts(out@) == stage_entries(pv, 9) + task_entries_upto(av, rv, i as nat),
        decreases actions@.len() - i,
    {
        let ghost base = string_texts(out@);
        assert(av[i as int] == actions@[i as int]@);
        assert(rv[i as int] == raws@[i as int]@.map_values(|t: String| t@));
        match &actions[i] {
            TaskAction::Nothing => {
                assert(base =~= base + task_entries(av[i as int], rv[i as int]));
            },
            TaskAction::Note(n) => {
                let t = n.as_str().to_owned();
                out.push(t);
                assert(string_texts(out@) =~= base + task_entries(av[i as int], rv[i as int]));
            },
            TaskAction::Report(code, _batches) => {
                let lines = &raws[i];
                let mut j: usize = 0;
                while j < lines.len()
                    invariant
                        j <= lines@.len(),
                        lines@.map_values(|t: String| t@) == rv[i as int],
                        string_texts(out@) == base + Seq::new(j as nat, |jj: int| reply_line_text(code@, rv[i as int][jj])),
                    decreases lines@.len() - j,
                {
                    let ghost b2 = string_texts(out@);
                    let line = reply_line(code.as_str(), lines[j].as_str());
                    assert(rv[i as int][j as int] == lines@[j as int]@);
                    assert(line@ == reply_line_text(code@, rv[i as int][j as int]));
                    out.push(line);
                    assert(string_texts(out@) =~= b2.push(line@));
                    assert(string_texts(out@) =~= base + Seq::new((j + 1) as nat, |jj: int| reply_line_text(code@, rv[i as int][jj])));
                    j = j + 1;
                }
                let ghost b3 = string_texts(out@);
                let c = code.as_str().to_owned();
                out.push(c);
                assert(string_texts(out@) =~= b3.push(code@));
                assert(string_texts(out@) =~= base + task_entries(av[i as int], rv[i as int]));
            },
        }
        i = i + 1;
    }
    out
}

} // verus!

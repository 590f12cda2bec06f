//! Event payloads reported to the growth center, one builder per event.

use vstd::prelude::*;
use crate::json::{array, entry, fields_view, lemma_empty_items, object, Json, JsonV};

verus! {

/// The envelope of a reported event: the desktop client's fingerprint, the user and the time.
pub open spec fn report_envelope_view(uid: Seq<char>, nick: Seq<char>, now: int, machine: Seq<char>, session: Seq<char>) -> JsonV {
    JsonV::Object(
        seq![
            ("timestamp"@, JsonV::Int(now)),
            ("reportDelay"@, JsonV::Int(0)),
            ("userId"@, JsonV::Str(uid)),
            ("userNickname"@, JsonV::Str(nick)),
            ("ideName"@, JsonV::Str("WorkBuddy"@)),
            ("ideType"@, JsonV::Str("WorkBuddy"@)),
            ("ideVersion"@, JsonV::Str("5.5.6"@)),
            ("machineId"@, JsonV::Str(machine)),
            ("sessionId"@, JsonV::Str(session)),
            ("mode"@, JsonV::Str("CLOUD"@)),
            ("userAgent"@, JsonV::Str("Mozilla/5.0 (Windows NT 10.0; Win64; x64) AppleWebKit/537.36 WorkBuddy/5.5.4"@)),
            ("os"@, JsonV::Str("Win32"@)),
            ("arch"@, JsonV::Str("x64"@)),
            ("osVersion"@, JsonV::Str("10.0.26220"@)),
            ("timezone"@, JsonV::Str("Asia/Shanghai"@)),
            ("product"@, JsonV::Str("SaaS"@)),
            ("releaseDate"@, JsonV::Int(1789036585355)),
            ("commit"@, JsonV::Str("5f9692923c93033111c51ad7b003eb80204a9b75"@)),
            ("extName"@, JsonV::Str("workbuddy-desktop"@)),
            ("extVersion"@, JsonV::Str("5.5.6"@)),
            ("cpuCores"@, JsonV::Int(20)),
            ("memorySize"@, JsonV::Int(24)),
        ],
    )
}

/// The envelope of a reported event: the desktop client's fingerprint, the user and the time.
pub fn report_envelope(uid: &str, nick: &str, now: i64, machine: &str, session: &str) -> (res: Json)
    ensures
        res@ == report_envelope_view(uid@, nick@, now as int, machine@, session@),
{
    let fields = vec![
        entry("timestamp", Json::Int(now)),
        entry("reportDelay", Json::Int(0)),
        entry("userId", Json::text(uid)),
        entry("userNickname", Json::text(nick)),
        entry("ideName", Json::text("WorkBuddy")),
        entry("ideType", Json::text("WorkBuddy")),
        entry("ideVersion", Json::text("5.5.6")),
        entry("machineId", Json::text(machine)),
        entry("sessionId", Json::text(session)),
        entry("mode", Json::text("CLOUD")),
        entry("userAgent", Json::text("Mozilla/5.0 (Windows NT 10.0; Win64; x64) AppleWebKit/537.36 WorkBuddy/5.5.4")),
        entry("os", Json::text("Win32")),
        entry("arch", Json::text("x64")),
        entry("osVersion", Json::text("10.0.26220")),
        entry("timezone", Json::text("Asia/Shanghai")),
        entry("product", Json::text("SaaS")),
        entry("releaseDate", Json::Int(1789036585355)),
        entry("commit", Json::text("5f9692923c93033111c51ad7b003eb80204a9b75")),
        entry("extName", Json::text("workbuddy-desktop")),
        entry("extVersion", Json::text("5.5.6")),
        entry("cpuCores", Json::Int(20)),
        entry("memorySize", Json::Int(24)),
    ];
    assert(fields_view(fields@) =~= seq![
        ("timestamp"@, JsonV::Int(now as int)),
        ("reportDelay"@, JsonV::Int(0)),
        ("userId"@, JsonV::Str(uid@)),
        ("userNickname"@, JsonV::Str(nick@)),
        ("ideName"@, JsonV::Str("WorkBuddy"@)),
        ("ideType"@, JsonV::Str("WorkBuddy"@)),
        ("ideVersion"@, JsonV::Str("5.5.6"@)),
        ("machineId"@, JsonV::Str(machine@)),
        ("sessionId"@, JsonV::Str(session@)),
        ("mode"@, JsonV::Str("CLOUD"@)),
        ("userAgent"@, JsonV::Str("Mozilla/5.0 (Windows NT 10.0; Win64; x64) AppleWebKit/537.36 WorkBuddy/5.5.4"@)),
        ("os"@, JsonV::Str("Win32"@)),
        ("arch"@, JsonV::Str("x64"@)),
        ("osVersion"@, JsonV::Str("10.0.26220"@)),
        ("timezone"@, JsonV::Str("Asia/Shanghai"@)),
        ("product"@, JsonV::Str("SaaS"@)),
        ("releaseDate"@, JsonV::Int(1789036585355)),
        ("commit"@, JsonV::Str("5f9692923c93033111c51ad7b003eb80204a9b75"@)),
        ("extName"@, JsonV::Str("workbuddy-desktop"@)),
        ("extVersion"@, JsonV::Str("5.5.6"@)),
        ("cpuCores"@, JsonV::Int(20)),
        ("memorySize"@, JsonV::Int(24)),
    ]);
    object(fields)
}

/// A task created from a template.
pub open spec fn template_created_event_view(tid: Seq<char>, name: Seq<char>) -> JsonV {
    JsonV::Object(
        seq![
            ("eventCode"@, JsonV::Str("agent_task_created"@)),
            ("source"@, JsonV::Str("CLOUD"@)),
            ("name"@, JsonV::Str(""@)),
            ("mode"@, JsonV::Str("craft"@)),
            ("requestModelId"@, JsonV::Str("default"@)),
            ("action"@, JsonV::Str(tid)),
            ("has_template"@, JsonV::Bool(true)),
            ("template_id"@, JsonV::Str(tid)),
            ("template_name"@, JsonV::Str(name)),
        ],
    )
}

/// A task created from a template.
pub fn template_created_event(tid: &str, name: &str) -> (res: Json)
    ensures
        res@ == template_created_event_view(tid@, name@),
{
    let fields = vec![
        entry("eventCode", Json::text("agent_task_created")),
        entry("source", Json::text("CLOUD")),
        entry("name", Json::text("")),
        entry("mode", Json::text("craft")),
        entry("requestModelId", Json::text("default")),
        entry("action", Json::text(tid)),
        entry("has_template", Json::Bool(true)),
        entry("template_id", Json::text(tid)),
        entry("template_name", Json::text(name)),
    ];
    assert(fields_view(fields@) =~= seq![
        ("eventCode"@, JsonV::Str("agent_task_created"@)),
        ("source"@, JsonV::Str("CLOUD"@)),
        ("name"@, JsonV::Str(""@)),
        ("mode"@, JsonV::Str("craft"@)),
        ("requestModelId"@, JsonV::Str("default"@)),
        ("action"@, JsonV::Str(tid@)),
        ("has_template"@, JsonV::Bool(true)),
        ("template_id"@, JsonV::Str(tid@)),
        ("template_name"@, JsonV::Str(name@)),
    ]);
    object(fields)
}

/// A template used to create a task.
pub open spec fn template_used_event_view(tid: Seq<char>, name: Seq<char>) -> JsonV {
    JsonV::Object(
        seq![
            ("eventCode"@, JsonV::Str("agent_task_created_with_template"@)),
            ("templateId"@, JsonV::Str(tid)),
            ("templateName"@, JsonV::Str(name)),
            ("isCustomModel"@, JsonV::Bool(true)),
            ("id"@, JsonV::Str(tid)),
            ("name"@, JsonV::Str(name)),
        ],
    )
}

/// A template used to create a task.
pub fn template_used_event(tid: &str, name: &str) -> (res: Json)
    ensures
        res@ == template_used_event_view(tid@, name@),
{
    let fields = vec![
        entry("eventCode", Json::text("agent_task_created_with_template")),
        entry("templateId", Json::text(tid)),
        entry("templateName", Json::text(name)),
        entry("isCustomModel", Json::Bool(true)),
        entry("id", Json::text(tid)),
        entry("name", Json::text(name)),
    ];
    assert(fields_view(fields@) =~= seq![
        ("eventCode"@, JsonV::Str("agent_task_created_with_template"@)),
        ("templateId"@, JsonV::Str(tid@)),
        ("templateName"@, JsonV::Str(name@)),
        ("isCustomModel"@, JsonV::Bool(true)),
        ("id"@, JsonV::Str(tid@)),
        ("name"@, JsonV::Str(name@)),
    ]);
    object(fields)
}

/// A task created in design mode.
pub open spec fn design_task_event_view() -> JsonV {
    JsonV::Object(
        seq![
            ("eventCode"@, JsonV::Str("agent_task_created"@)),
            ("source"@, JsonV::Str("CLOUD"@)),
            ("name"@, JsonV::Str(""@)),
            ("mode"@, JsonV::Str("craft"@)),
            ("requestModelId"@, JsonV::Str("default"@)),
            ("task_mode"@, JsonV::Str("design"@)),
        ],
    )
}

/// A task created in design mode.
pub fn design_task_event() -> (res: Json)
    ensures
        res@ == design_task_event_view(),
{
    let fields = vec![
        entry("eventCode", Json::text("agent_task_created")),
        entry("source", Json::text("CLOUD")),
        entry("name", Json::text("")),
        entry("mode", Json::text("craft")),
        entry("requestModelId", Json::text("default")),
        entry("task_mode", Json::text("design")),
    ];
    assert(fields_view(fields@) =~= seq![
        ("eventCode"@, JsonV::Str("agent_task_created"@)),
        ("source"@, JsonV::Str("CLOUD"@)),
        ("name"@, JsonV::Str(""@)),
        ("mode"@, JsonV::Str("craft"@)),
        ("requestModelId"@, JsonV::Str("default"@)),
        ("task_mode"@, JsonV::Str("design"@)),
    ]);
    object(fields)
}

/// A design canvas created.
pub open spec fn canvas_created_event_view() -> JsonV {
    JsonV::Object(
        seq![
            ("eventCode"@, JsonV::Str("wbx_design_canvas_task_create"@)),
        ],
    )
}

/// A design canvas created.
pub fn canvas_created_event() -> (res: Json)
    ensures
        res@ == canvas_created_event_view(),
{
    let fields = vec![
        entry("eventCode", Json::text("wbx_design_canvas_task_create")),
    ];
    assert(fields_view(fields@) =~= seq![
        ("eventCode"@, JsonV::Str("wbx_design_canvas_task_create"@)),
    ]);
    object(fields)
}

/// A task created in automation mode.
pub open spec fn automation_task_event_view() -> JsonV {
    JsonV::Object(
        seq![
            ("eventCode"@, JsonV::Str("agent_task_created"@)),
            ("source"@, JsonV::Str("CLOUD"@)),
            ("name"@, JsonV::Str(""@)),
            ("mode"@, JsonV::Str("craft"@)),
            ("requestModelId"@, JsonV::Str("default"@)),
            ("task_mode"@, JsonV::Str("automation"@)),
            ("isAutomationBackground"@, JsonV::Bool(true)),
        ],
    )
}

/// A task created in automation mode.
pub fn automation_task_event() -> (res: Json)
    ensures
        res@ == automation_task_event_view(),
{
    let fields = vec![
        entry("eventCode", Json::text("agent_task_created")),
        entry("source", Json::text("CLOUD")),
        entry("name", Json::text("")),
        entry("mode", Json::text("craft")),
        entry("requestModelId", Json::text("default")),
        entry("task_mode", Json::text("automation")),
        entry("isAutomationBackground", Json::Bool(true)),
    ];
    assert(fields_view(fields@) =~= seq![
        ("eventCode"@, JsonV::Str("agent_task_created"@)),
        ("source"@, JsonV::Str("CLOUD"@)),
        ("name"@, JsonV::Str(""@)),
        ("mode"@, JsonV::Str("craft"@)),
        ("requestModelId"@, JsonV::Str("default"@)),
        ("task_mode"@, JsonV::Str("automation"@)),
        ("isAutomationBackground"@, JsonV::Bool(true)),
    ]);
    object(fields)
}

/// An automated task created.
pub open spec fn automation_created_event_view() -> JsonV {
    JsonV::Object(
        seq![
            ("eventCode"@, JsonV::Str("automated_task_create_suc"@)),
            ("action"@, JsonV::Str("create"@)),
        ],
    )
}

/// An automated task created.
pub fn automation_created_event() -> (res: Json)
    ensures
        res@ == automation_created_event_view(),
{
    let fields = vec![
        entry("eventCode", Json::text("automated_task_create_suc")),
        entry("action", Json::text("create")),
    ];
    assert(fields_view(fields@) =~= seq![
        ("eventCode"@, JsonV::Str("automated_task_create_suc"@)),
        ("action"@, JsonV::Str("create"@)),
    ]);
    object(fields)
}

/// An automated task run.
pub open spec fn automation_run_event_view() -> JsonV {
    JsonV::Object(
        seq![
            ("eventCode"@, JsonV::Str("automated_task_execute"@)),
            ("action"@, JsonV::Str("execute"@)),
        ],
    )
}

/// An automated task run.
pub fn automation_run_event() -> (res: Json)
    ensures
        res@ == automation_run_event_view(),
{
    let fields = vec![
        entry("eventCode", Json::text("automated_task_execute")),
        entry("action", Json::text("execute")),
    ];
    assert(fields_view(fields@) =~= seq![
        ("eventCode"@, JsonV::Str("automated_task_execute"@)),
        ("action"@, JsonV::Str("execute"@)),
    ]);
    object(fields)
}

/// A playbook prompt sent, under a request id.
pub open spec fn playbook_prompt_event_view(rid: Seq<char>) -> JsonV {
    JsonV::Object(
        seq![
            ("eventCode"@, JsonV::Str("playbook_prompt_send"@)),
            ("ext1"@, JsonV::Str(rid)),
            ("requestId"@, JsonV::Str(rid)),
            ("id"@, JsonV::Str("01-ProductDesign"@)),
            ("name"@, JsonV::Str("产品设计"@)),
            ("type"@, JsonV::Str("other"@)),
            ("promptLength"@, JsonV::Int(30)),
            ("isOfficial"@, JsonV::Int(1)),
            ("source"@, JsonV::Str("growth-center"@)),
        ],
    )
}

/// A playbook prompt sent, under a request id.
pub fn playbook_prompt_event(rid: &str) -> (res: Json)
    ensures
        res@ == playbook_prompt_event_view(rid@),
{
    let fields = vec![
        entry("eventCode", Json::text("playbook_prompt_send")),
        entry("ext1", Json::text(rid)),
        entry("requestId", Json::text(rid)),
        entry("id", Json::text("01-ProductDesign")),
        entry("name", Json::text("产品设计")),
        entry("type", Json::text("other")),
        entry("promptLength", Json::Int(30)),
        entry("isOfficial", Json::Int(1)),
        entry("source", Json::text("growth-center")),
    ];
    assert(fields_view(fields@) =~= seq![
        ("eventCode"@, JsonV::Str("playbook_prompt_send"@)),
        ("ext1"@, JsonV::Str(rid@)),
        ("requestId"@, JsonV::Str(rid@)),
        ("id"@, JsonV::Str("01-ProductDesign"@)),
        ("name"@, JsonV::Str("产品设计"@)),
        ("type"@, JsonV::Str("other"@)),
        ("promptLength"@, JsonV::Int(30)),
        ("isOfficial"@, JsonV::Int(1)),
        ("source"@, JsonV::Str("growth-center"@)),
    ]);
    object(fields)
}

/// A click on the library introduction page.
pub open spec fn library_click_event_view(now: int, web_machine: Seq<char>, uid: Seq<char>, nick: Seq<char>) -> JsonV {
    JsonV::Object(
        seq![
            ("eventCode"@, JsonV::Str("web_element_click"@)),
            ("timestamp"@, JsonV::Int(now)),
            ("reportDelay"@, JsonV::Int(0)),
            ("pageURL"@, JsonV::Str("https://www.workbuddy.cn/library/doc/intro"@)),
            ("elementId"@, JsonV::Str("library_doc_intro_click"@)),
            ("elementName"@, JsonV::Str("WorkBuddy资料库介绍"@)),
            ("os"@, JsonV::Str("Win32"@)),
            ("arch"@, JsonV::Str("x64"@)),
            ("osVersion"@, JsonV::Str("10.0"@)),
            ("userAgent"@, JsonV::Str("Mozilla/5.0 (Windows NT 10.0; Win64; x64) AppleWebKit/537.36"@)),
            ("machineId"@, JsonV::Str(web_machine)),
            ("userId"@, JsonV::Str(uid)),
            ("userNickname"@, JsonV::Str(nick)),
        ],
    )
}

/// A click on the library introduction page.
pub fn library_click_event(now: i64, web_machine: &str, uid: &str, nick: &str) -> (res: Json)
    ensures
        res@ == library_click_event_view(now as int, web_machine@, uid@, nick@),
{
    let fields = vec![
        entry("eventCode", Json::text("web_element_click")),
        entry("timestamp", Json::Int(now)),
        entry("reportDelay", Json::Int(0)),
        entry("pageURL", Json::text("https://www.workbuddy.cn/library/doc/intro")),
        entry("elementId", Json::text("library_doc_intro_click")),
        entry("elementName", Json::text("WorkBuddy资料库介绍")),
        entry("os", Json::text("Win32")),
        entry("arch", Json::text("x64")),
        entry("osVersion", Json::text("10.0")),
        entry("userAgent", Json::text("Mozilla/5.0 (Windows NT 10.0; Win64; x64) AppleWebKit/537.36")),
        entry("machineId", Json::text(web_machine)),
        entry("userId", Json::text(uid)),
        entry("userNickname", Json::text(nick)),
    ];
    assert(fields_view(fields@) =~= seq![
        ("eventCode"@, JsonV::Str("web_element_click"@)),
        ("timestamp"@, JsonV::Int(now as int)),
        ("reportDelay"@, JsonV::Int(0)),
        ("pageURL"@, JsonV::Str("https://www.workbuddy.cn/library/doc/intro"@)),
        ("elementId"@, JsonV::Str("library_doc_intro_click"@)),
        ("elementName"@, JsonV::Str("WorkBuddy资料库介绍"@)),
        ("os"@, JsonV::Str("Win32"@)),
        ("arch"@, JsonV::Str("x64"@)),
        ("osVersion"@, JsonV::Str("10.0"@)),
        ("userAgent"@, JsonV::Str("Mozilla/5.0 (Windows NT 10.0; Win64; x64) AppleWebKit/537.36"@)),
        ("machineId"@, JsonV::Str(web_machine@)),
        ("userId"@, JsonV::Str(uid@)),
        ("userNickname"@, JsonV::Str(nick@)),
    ]);
    object(fields)
}

/// A buddy app discovered.
pub open spec fn buddy_discover_event_view(id: Seq<char>, name: Seq<char>) -> JsonV {
    JsonV::Object(
        seq![
            ("eventCode"@, JsonV::Str("buddyapp_discover_click"@)),
            ("buddyId"@, JsonV::Str(id)),
            ("buddyName"@, JsonV::Str(name)),
        ],
    )
}

/// A buddy app discovered.
pub fn buddy_discover_event(id: &str, name: &str) -> (res: Json)
    ensures
        res@ == buddy_discover_event_view(id@, name@),
{
    let fields = vec![
        entry("eventCode", Json::text("buddyapp_discover_click")),
        entry("buddyId", Json::text(id)),
        entry("buddyName", Json::text(name)),
    ];
    assert(fields_view(fields@) =~= seq![
        ("eventCode"@, JsonV::Str("buddyapp_discover_click"@)),
        ("buddyId"@, JsonV::Str(id@)),
        ("buddyName"@, JsonV::Str(name@)),
    ]);
    object(fields)
}

/// A buddy app shown.
pub open spec fn buddy_show_event_view(id: Seq<char>, name: Seq<char>) -> JsonV {
    JsonV::Object(
        seq![
            ("eventCode"@, JsonV::Str("buddyapp_show"@)),
            ("elementId"@, JsonV::Str(id)),
            ("elementName"@, JsonV::Str(name)),
            ("position"@, JsonV::Int(2)),
            ("buddyId"@, JsonV::Str(id)),
            ("buddyName"@, JsonV::Str(name)),
        ],
    )
}

/// A buddy app shown.
pub fn buddy_show_event(id: &str, name: &str) -> (res: Json)
    ensures
        res@ == buddy_show_event_view(id@, name@),
{
    let fields = vec![
        entry("eventCode", Json::text("buddyapp_show")),
        entry("elementId", Json::text(id)),
        entry("elementName", Json::text(name)),
        entry("position", Json::Int(2)),
        entry("buddyId", Json::text(id)),
        entry("buddyName", Json::text(name)),
    ];
    assert(fields_view(fields@) =~= seq![
        ("eventCode"@, JsonV::Str("buddyapp_show"@)),
        ("elementId"@, JsonV::Str(id@)),
        ("elementName"@, JsonV::Str(name@)),
        ("position"@, JsonV::Int(2)),
        ("buddyId"@, JsonV::Str(id@)),
        ("buddyName"@, JsonV::Str(name@)),
    ]);
    object(fields)
}

/// A buddy app entered.
pub open spec fn buddy_enter_event_view(id: Seq<char>, name: Seq<char>) -> JsonV {
    JsonV::Object(
        seq![
            ("eventCode"@, JsonV::Str("buddyapp_enter_click"@)),
            ("elementId"@, JsonV::Str(id)),
            ("elementName"@, JsonV::Str(name)),
            ("position"@, JsonV::Int(2)),
            ("isFirstPage"@, JsonV::Str("1"@)),
            ("buddyId"@, JsonV::Str(id)),
            ("buddyName"@, JsonV::Str(name)),
        ],
    )
}

/// A buddy app entered.
pub fn buddy_enter_event(id: &str, name: &str) -> (res: Json)
    ensures
        res@ == buddy_enter_event_view(id@, name@),
{
    let fields = vec![
        entry("eventCode", Json::text("buddyapp_enter_click")),
        entry("elementId", Json::text(id)),
        entry("elementName", Json::text(name)),
        entry("position", Json::Int(2)),
        entry("isFirstPage", Json::text("1")),
        entry("buddyId", Json::text(id)),
        entry("buddyName", Json::text(name)),
    ];
    assert(fields_view(fields@) =~= seq![
        ("eventCode"@, JsonV::Str("buddyapp_enter_click"@)),
        ("elementId"@, JsonV::Str(id@)),
        ("elementName"@, JsonV::Str(name@)),
        ("position"@, JsonV::Int(2)),
        ("isFirstPage"@, JsonV::Str("1"@)),
        ("buddyId"@, JsonV::Str(id@)),
        ("buddyName"@, JsonV::Str(name@)),
    ]);
    object(fields)
}

/// A buddy app authorised.
pub open spec fn buddy_auth_event_view(id: Seq<char>, name: Seq<char>) -> JsonV {
    JsonV::Object(
        seq![
            ("eventCode"@, JsonV::Str("buddyapp_auth_confirm_click"@)),
            ("elementId"@, JsonV::Str(id)),
            ("elementName"@, JsonV::Str(name)),
            ("buddyId"@, JsonV::Str(id)),
            ("buddyName"@, JsonV::Str(name)),
        ],
    )
}

/// A buddy app authorised.
pub fn buddy_auth_event(id: &str, name: &str) -> (res: Json)
    ensures
        res@ == buddy_auth_event_view(id@, name@),
{
    let fields = vec![
        entry("eventCode", Json::text("buddyapp_auth_confirm_click")),
        entry("elementId", Json::text(id)),
        entry("elementName", Json::text(name)),
        entry("buddyId", Json::text(id)),
        entry("buddyName", Json::text(name)),
    ];
    assert(fields_view(fields@) =~= seq![
        ("eventCode"@, JsonV::Str("buddyapp_auth_confirm_click"@)),
        ("elementId"@, JsonV::Str(id@)),
        ("elementName"@, JsonV::Str(name@)),
        ("buddyId"@, JsonV::Str(id@)),
        ("buddyName"@, JsonV::Str(name@)),
    ]);
    object(fields)
}

/// Account binding of a buddy app skipped.
pub open spec fn buddy_skip_bind_event_view(id: Seq<char>, name: Seq<char>) -> JsonV {
    JsonV::Object(
        seq![
            ("eventCode"@, JsonV::Str("buddyapp_bindaccount_skip_click"@)),
            ("elementId"@, JsonV::Str(id)),
            ("elementName"@, JsonV::Str(name)),
            ("buddyId"@, JsonV::Str(id)),
            ("buddyName"@, JsonV::Str(name)),
        ],
    )
}

/// Account binding of a buddy app skipped.
pub fn buddy_skip_bind_event(id: &str, name: &str) -> (res: Json)
    ensures
        res@ == buddy_skip_bind_event_view(id@, name@),
{
    let fields = vec![
        entry("eventCode", Json::text("buddyapp_bindaccount_skip_click")),
        entry("elementId", Json::text(id)),
        entry("elementName", Json::text(name)),
        entry("buddyId", Json::text(id)),
        entry("buddyName", Json::text(name)),
    ];
    assert(fields_view(fields@) =~= seq![
        ("eventCode"@, JsonV::Str("buddyapp_bindaccount_skip_click"@)),
        ("elementId"@, JsonV::Str(id@)),
        ("elementName"@, JsonV::Str(name@)),
        ("buddyId"@, JsonV::Str(id@)),
        ("buddyName"@, JsonV::Str(name@)),
    ]);
    object(fields)
}

/// A buddy app discovered (local mode).
pub open spec fn buddy_discover_event_local_view(id: Seq<char>, name: Seq<char>) -> JsonV {
    JsonV::Object(
        seq![
            ("eventCode"@, JsonV::Str("buddyapp_discover_click"@)),
            ("buddyId"@, JsonV::Str(id)),
            ("buddyName"@, JsonV::Str(name)),
            ("mode"@, JsonV::Str("LOCAL"@)),
        ],
    )
}

/// A buddy app discovered (local mode).
pub fn buddy_discover_event_local(id: &str, name: &str) -> (res: Json)
    ensures
        res@ == buddy_discover_event_local_view(id@, name@),
{
    let fields = vec![
        entry("eventCode", Json::text("buddyapp_discover_click")),
        entry("buddyId", Json::text(id)),
        entry("buddyName", Json::text(name)),
        entry("mode", Json::text("LOCAL")),
    ];
    assert(fields_view(fields@) =~= seq![
        ("eventCode"@, JsonV::Str("buddyapp_discover_click"@)),
        ("buddyId"@, JsonV::Str(id@)),
        ("buddyName"@, JsonV::Str(name@)),
        ("mode"@, JsonV::Str("LOCAL"@)),
    ]);
    object(fields)
}

/// A buddy app shown (local mode).
pub open spec fn buddy_show_event_local_view(id: Seq<char>, name: Seq<char>) -> JsonV {
    JsonV::Object(
        seq![
            ("eventCode"@, JsonV::Str("buddyapp_show"@)),
            ("elementId"@, JsonV::Str(id)),
            ("elementName"@, JsonV::Str(name)),
            ("position"@, JsonV::Int(2)),
            ("buddyId"@, JsonV::Str(id)),
            ("buddyName"@, JsonV::Str(name)),
            ("mode"@, JsonV::Str("LOCAL"@)),
        ],
    )
}

/// A buddy app shown (local mode).
pub fn buddy_show_event_local(id: &str, name: &str) -> (res: Json)
    ensures
        res@ == buddy_show_event_local_view(id@, name@),
{
    let fields = vec![
        entry("eventCode", Json::text("buddyapp_show")),
        entry("elementId", Json::text(id)),
        entry("elementName", Json::text(name)),
        entry("position", Json::Int(2)),
        entry("buddyId", Json::text(id)),
        entry("buddyName", Json::text(name)),
        entry("mode", Json::text("LOCAL")),
    ];
    assert(fields_view(fields@) =~= seq![
        ("eventCode"@, JsonV::Str("buddyapp_show"@)),
        ("elementId"@, JsonV::Str(id@)),
        ("elementName"@, JsonV::Str(name@)),
        ("position"@, JsonV::Int(2)),
        ("buddyId"@, JsonV::Str(id@)),
        ("buddyName"@, JsonV::Str(name@)),
        ("mode"@, JsonV::Str("LOCAL"@)),
    ]);
    object(fields)
}

/// A buddy app entered (local mode).
pub open spec fn buddy_enter_event_local_view(id: Seq<char>, name: Seq<char>) -> JsonV {
    JsonV::Object(
        seq![
            ("eventCode"@, JsonV::Str("buddyapp_enter_click"@)),
            ("elementId"@, JsonV::Str(id)),
            ("elementName"@, JsonV::Str(name)),
            ("position"@, JsonV::Int(2)),
            ("isFirstPage"@, JsonV::Str("1"@)),
            ("buddyId"@, JsonV::Str(id)),
            ("buddyName"@, JsonV::Str(name)),
            ("mode"@, JsonV::Str("LOCAL"@)),
        ],
    )
}

/// A buddy app entered (local mode).
pub fn buddy_enter_event_local(id: &str, name: &str) -> (res: Json)
    ensures
        res@ == buddy_enter_event_local_view(id@, name@),
{
    let fields = vec![
        entry("eventCode", Json::text("buddyapp_enter_click")),
        entry("elementId", Json::text(id)),
        entry("elementName", Json::text(name)),
        entry("position", Json::Int(2)),
        entry("isFirstPage", Json::text("1")),
        entry("buddyId", Json::text(id)),
        entry("buddyName", Json::text(name)),
        entry("mode", Json::text("LOCAL")),
    ];
    assert(fields_view(fields@) =~= seq![
        ("eventCode"@, JsonV::Str("buddyapp_enter_click"@)),
        ("elementId"@, JsonV::Str(id@)),
        ("elementName"@, JsonV::Str(name@)),
        ("position"@, JsonV::Int(2)),
        ("isFirstPage"@, JsonV::Str("1"@)),
        ("buddyId"@, JsonV::Str(id@)),
        ("buddyName"@, JsonV::Str(name@)),
        ("mode"@, JsonV::Str("LOCAL"@)),
    ]);
    object(fields)
}

/// A buddy app authorised (local mode).
pub open spec fn buddy_auth_event_local_view(id: Seq<char>, name: Seq<char>) -> JsonV {
    JsonV::Object(
        seq![
            ("eventCode"@, JsonV::Str("buddyapp_auth_confirm_click"@)),
            ("elementId"@, JsonV::Str(id)),
            ("elementName"@, JsonV::Str(name)),
            ("buddyId"@, JsonV::Str(id)),
            ("buddyName"@, JsonV::Str(name)),
            ("mode"@, JsonV::Str("LOCAL"@)),
        ],
    )
}

/// A buddy app authorised (local mode).
pub fn buddy_auth_event_local(id: &str, name: &str) -> (res: Json)
    ensures
        res@ == buddy_auth_event_local_view(id@, name@),
{
    let fields = vec![
        entry("eventCode", Json::text("buddyapp_auth_confirm_click")),
        entry("elementId", Json::text(id)),
        entry("elementName", Json::text(name)),
        entry("buddyId", Json::text(id)),
        entry("buddyName", Json::text(name)),
        entry("mode", Json::text("LOCAL")),
    ];
    assert(fields_view(fields@) =~= seq![
        ("eventCode"@, JsonV::Str("buddyapp_auth_confirm_click"@)),
        ("elementId"@, JsonV::Str(id@)),
        ("elementName"@, JsonV::Str(name@)),
        ("buddyId"@, JsonV::Str(id@)),
        ("buddyName"@, JsonV::Str(name@)),
        ("mode"@, JsonV::Str("LOCAL"@)),
    ]);
    object(fields)
}

/// Account binding of a buddy app skipped (local mode).
pub open spec fn buddy_skip_bind_event_local_view(id: Seq<char>, name: Seq<char>) -> JsonV {
    JsonV::Object(
        seq![
            ("eventCode"@, JsonV::Str("buddyapp_bindaccount_skip_click"@)),
            ("elementId"@, JsonV::Str(id)),
            ("elementName"@, JsonV::Str(name)),
            ("buddyId"@, JsonV::Str(id)),
            ("buddyName"@, JsonV::Str(name)),
            ("mode"@, JsonV::Str("LOCAL"@)),
        ],
    )
}

/// Account binding of a buddy app skipped (local mode).
pub fn buddy_skip_bind_event_local(id: &str, name: &str) -> (res: Json)
    ensures
        res@ == buddy_skip_bind_event_local_view(id@, name@),
{
    let fields = vec![
        entry("eventCode", Json::text("buddyapp_bindaccount_skip_click")),
        entry("elementId", Json::text(id)),
        entry("elementName", Json::text(name)),
        entry("buddyId", Json::text(id)),
        entry("buddyName", Json::text(name)),
        entry("mode", Json::text("LOCAL")),
    ];
    assert(fields_view(fields@) =~= seq![
        ("eventCode"@, JsonV::Str("buddyapp_bindaccount_skip_click"@)),
        ("elementId"@, JsonV::Str(id@)),
        ("elementName"@, JsonV::Str(name@)),
        ("buddyId"@, JsonV::Str(id@)),
        ("buddyName"@, JsonV::Str(name@)),
        ("mode"@, JsonV::Str("LOCAL"@)),
    ]);
    object(fields)
}

/// An expert summoned.
pub open spec fn expert_summoned_event_view(eid: Seq<char>, ename: Seq<char>) -> JsonV {
    JsonV::Object(
        seq![
            ("eventCode"@, JsonV::Str("expert_summoned"@)),
            ("id"@, JsonV::Str(eid)),
            ("name"@, JsonV::Str(ename)),
            ("type"@, JsonV::Str("agent"@)),
            ("expertTitle"@, JsonV::Str("智能助手"@)),
            ("expertType"@, JsonV::Str("agent"@)),
        ],
    )
}

/// An expert summoned.
pub fn expert_summoned_event(eid: &str, ename: &str) -> (res: Json)
    ensures
        res@ == expert_summoned_event_view(eid@, ename@),
{
    let fields = vec![
        entry("eventCode", Json::text("expert_summoned")),
        entry("id", Json::text(eid)),
        entry("name", Json::text(ename)),
        entry("type", Json::text("agent")),
        entry("expertTitle", Json::text("智能助手")),
        entry("expertType", Json::text("agent")),
    ];
    assert(fields_view(fields@) =~= seq![
        ("eventCode"@, JsonV::Str("expert_summoned"@)),
        ("id"@, JsonV::Str(eid@)),
        ("name"@, JsonV::Str(ename@)),
        ("type"@, JsonV::Str("agent"@)),
        ("expertTitle"@, JsonV::Str("智能助手"@)),
        ("expertType"@, JsonV::Str("agent"@)),
    ]);
    object(fields)
}

/// An expert used.
pub open spec fn expert_used_event_view(eid: Seq<char>, ename: Seq<char>) -> JsonV {
    JsonV::Object(
        seq![
            ("eventCode"@, JsonV::Str("expert_actual_use"@)),
            ("id"@, JsonV::Str(eid)),
            ("name"@, JsonV::Str(ename)),
            ("type"@, JsonV::Str("agent"@)),
            ("expertTitle"@, JsonV::Str("智能助手"@)),
            ("expertType"@, JsonV::Str("agent"@)),
            ("source"@, JsonV::Str("builtin"@)),
            ("version"@, JsonV::Str(""@)),
            ("cost"@, JsonV::Int(0)),
            ("characterCount"@, JsonV::Int(12)),
        ],
    )
}

/// An expert used.
pub fn expert_used_event(eid: &str, ename: &str) -> (res: Json)
    ensures
        res@ == expert_used_event_view(eid@, ename@),
{
    let fields = vec![
        entry("eventCode", Json::text("expert_actual_use")),
        entry("id", Json::text(eid)),
        entry("name", Json::text(ename)),
        entry("type", Json::text("agent")),
        entry("expertTitle", Json::text("智能助手")),
        entry("expertType", Json::text("agent")),
        entry("source", Json::text("builtin")),
        entry("version", Json::text("")),
        entry("cost", Json::Int(0)),
        entry("characterCount", Json::Int(12)),
    ];
    assert(fields_view(fields@) =~= seq![
        ("eventCode"@, JsonV::Str("expert_actual_use"@)),
        ("id"@, JsonV::Str(eid@)),
        ("name"@, JsonV::Str(ename@)),
        ("type"@, JsonV::Str("agent"@)),
        ("expertTitle"@, JsonV::Str("智能助手"@)),
        ("expertType"@, JsonV::Str("agent"@)),
        ("source"@, JsonV::Str("builtin"@)),
        ("version"@, JsonV::Str(""@)),
        ("cost"@, JsonV::Int(0)),
        ("characterCount"@, JsonV::Int(12)),
    ]);
    object(fields)
}

/// An expert team used.
pub open spec fn team_used_event_view(tid: Seq<char>, tname: Seq<char>) -> JsonV {
    JsonV::Object(
        seq![
            ("eventCode"@, JsonV::Str("expert_actual_use"@)),
            ("id"@, JsonV::Str(tid)),
            ("name"@, JsonV::Str(tname)),
            ("expertTitle"@, JsonV::Str("行业专家"@)),
            ("type"@, JsonV::Str("team"@)),
            ("expertType"@, JsonV::Str("team"@)),
            ("source"@, JsonV::Str("builtin"@)),
            ("version"@, JsonV::Str(""@)),
            ("cost"@, JsonV::Int(8)),
            ("characterCount"@, JsonV::Int(20)),
        ],
    )
}

/// An expert team used.
pub fn team_used_event(tid: &str, tname: &str) -> (res: Json)
    ensures
        res@ == team_used_event_view(tid@, tname@),
{
    let fields = vec![
        entry("eventCode", Json::text("expert_actual_use")),
        entry("id", Json::text(tid)),
        entry("name", Json::text(tname)),
        entry("expertTitle", Json::text("行业专家")),
        entry("type", Json::text("team")),
        entry("expertType", Json::text("team")),
        entry("source", Json::text("builtin")),
        entry("version", Json::text("")),
        entry("cost", Json::Int(8)),
        entry("characterCount", Json::Int(20)),
    ];
    assert(fields_view(fields@) =~= seq![
        ("eventCode"@, JsonV::Str("expert_actual_use"@)),
        ("id"@, JsonV::Str(tid@)),
        ("name"@, JsonV::Str(tname@)),
        ("expertTitle"@, JsonV::Str("行业专家"@)),
        ("type"@, JsonV::Str("team"@)),
        ("expertType"@, JsonV::Str("team"@)),
        ("source"@, JsonV::Str("builtin"@)),
        ("version"@, JsonV::Str(""@)),
        ("cost"@, JsonV::Int(8)),
        ("characterCount"@, JsonV::Int(20)),
    ]);
    object(fields)
}

/// A local chat task created.
pub open spec fn chat_task_event_view(conv: Seq<char>, msg: Seq<char>) -> JsonV {
    JsonV::Object(
        seq![
            ("eventCode"@, JsonV::Str("agent_task_created"@)),
            ("source"@, JsonV::Str("LOCAL"@)),
            ("name"@, JsonV::Str("working"@)),
            ("task_target"@, JsonV::Str("local"@)),
            ("mode"@, JsonV::Str("craft"@)),
            ("requestModelId"@, JsonV::Str("fast-model"@)),
            ("requestModelName"@, JsonV::Str("fast-model"@)),
            ("has_repo"@, JsonV::Bool(false)),
            ("repo_type"@, JsonV::Str("none"@)),
            ("workspace_type"@, JsonV::Str("empty"@)),
            ("has_connector"@, JsonV::Bool(false)),
            ("connector_types"@, JsonV::Array(Seq::empty())),
            ("has_mention"@, JsonV::Bool(false)),
            ("mention_types"@, JsonV::Array(Seq::empty())),
            ("has_template"@, JsonV::Bool(false)),
            ("action"@, JsonV::Str(""@)),
            ("template_name"@, JsonV::Str(""@)),
            ("has_expert"@, JsonV::Bool(false)),
            ("expert_id"@, JsonV::Str(""@)),
            ("expert_name"@, JsonV::Str(""@)),
            ("expert_industry_id"@, JsonV::Str(""@)),
            ("has_skill"@, JsonV::Bool(false)),
            ("skill_names"@, JsonV::Array(Seq::empty())),
            ("conversationId"@, JsonV::Str(conv)),
            ("messageId"@, JsonV::Str(msg)),
            ("buddyId"@, JsonV::Str(""@)),
            ("buddyName"@, JsonV::Str(""@)),
        ],
    )
}

/// A local chat task created.
pub fn chat_task_event(conv: &str, msg: &str) -> (res: Json)
    ensures
        res@ == chat_task_event_view(conv@, msg@),
{
    proof {
        lemma_empty_items();
    }
    let fields = vec![
        entry("eventCode", Json::text("agent_task_created")),
        entry("source", Json::text("LOCAL")),
        entry("name", Json::text("working")),
        entry("task_target", Json::text("local")),
        entry("mode", Json::text("craft")),
        entry("requestModelId", Json::text("fast-model")),
        entry("requestModelName", Json::text("fast-model")),
        entry("has_repo", Json::Bool(false)),
        entry("repo_type", Json::text("none")),
        entry("workspace_type", Json::text("empty")),
        entry("has_connector", Json::Bool(false)),
        entry("connector_types", array(Vec::new())),
        entry("has_mention", Json::Bool(false)),
        entry("mention_types", array(Vec::new())),
        entry("has_template", Json::Bool(false)),
        entry("action", Json::text("")),
        entry("template_name", Json::text("")),
        entry("has_expert", Json::Bool(false)),
        entry("expert_id", Json::text("")),
        entry("expert_name", Json::text("")),
        entry("expert_industry_id", Json::text("")),
        entry("has_skill", Json::Bool(false)),
        entry("skill_names", array(Vec::new())),
        entry("conversationId", Json::text(conv)),
        entry("messageId", Json::text(msg)),
        entry("buddyId", Json::text("")),
        entry("buddyName", Json::text("")),
    ];
    assert(fields_view(fields@) =~= seq![
        ("eventCode"@, JsonV::Str("agent_task_created"@)),
        ("source"@, JsonV::Str("LOCAL"@)),
        ("name"@, JsonV::Str("working"@)),
        ("task_target"@, JsonV::Str("local"@)),
        ("mode"@, JsonV::Str("craft"@)),
        ("requestModelId"@, JsonV::Str("fast-model"@)),
        ("requestModelName"@, JsonV::Str("fast-model"@)),
        ("has_repo"@, JsonV::Bool(false)),
        ("repo_type"@, JsonV::Str("none"@)),
        ("workspace_type"@, JsonV::Str("empty"@)),
        ("has_connector"@, JsonV::Bool(false)),
        ("connector_types"@, JsonV::Array(Seq::empty())),
        ("has_mention"@, JsonV::Bool(false)),
        ("mention_types"@, JsonV::Array(Seq::empty())),
        ("has_template"@, JsonV::Bool(false)),
        ("action"@, JsonV::Str(""@)),
        ("template_name"@, JsonV::Str(""@)),
        ("has_expert"@, JsonV::Bool(false)),
        ("expert_id"@, JsonV::Str(""@)),
        ("expert_name"@, JsonV::Str(""@)),
        ("expert_industry_id"@, JsonV::Str(""@)),
        ("has_skill"@, JsonV::Bool(false)),
        ("skill_names"@, JsonV::Array(Seq::empty())),
        ("conversationId"@, JsonV::Str(conv@)),
        ("messageId"@, JsonV::Str(msg@)),
        ("buddyId"@, JsonV::Str(""@)),
        ("buddyName"@, JsonV::Str(""@)),
    ]);
    object(fields)
}

/// A chat message sent.
pub open spec fn chat_message_sent_event_view(conv: Seq<char>, req: Seq<char>, reply_msg: Seq<char>) -> JsonV {
    JsonV::Object(
        seq![
            ("eventCode"@, JsonV::Str("chat_message_send"@)),
            ("messageId"@, JsonV::Str(reply_msg)),
            ("historyCount"@, JsonV::Int(0)),
            ("isContextTruncated"@, JsonV::Bool(false)),
            ("currentStepCount"@, JsonV::Int(1)),
            ("traceId"@, JsonV::Str(req)),
            ("rootRequestId"@, JsonV::Str(req)),
            ("parentConversationId"@, JsonV::Str(conv)),
            ("agentName"@, JsonV::Str("cli"@)),
            ("agentType"@, JsonV::Str("main"@)),
        ],
    )
}

/// A chat message sent.
pub fn chat_message_sent_event(conv: &str, req: &str, reply_msg: &str) -> (res: Json)
    ensures
        res@ == chat_message_sent_event_view(conv@, req@, reply_msg@),
{
    let fields = vec![
        entry("eventCode", Json::text("chat_message_send")),
        entry("messageId", Json::text(reply_msg)),
        entry("historyCount", Json::Int(0)),
        entry("isContextTruncated", Json::Bool(false)),
        entry("currentStepCount", Json::Int(1)),
        entry("traceId", Json::text(req)),
        entry("rootRequestId", Json::text(req)),
        entry("parentConversationId", Json::text(conv)),
        entry("agentName", Json::text("cli")),
        entry("agentType", Json::text("main")),
    ];
    assert(fields_view(fields@) =~= seq![
        ("eventCode"@, JsonV::Str("chat_message_send"@)),
        ("messageId"@, JsonV::Str(reply_msg@)),
        ("historyCount"@, JsonV::Int(0)),
        ("isContextTruncated"@, JsonV::Bool(false)),
        ("currentStepCount"@, JsonV::Int(1)),
        ("traceId"@, JsonV::Str(req@)),
        ("rootRequestId"@, JsonV::Str(req@)),
        ("parentConversationId"@, JsonV::Str(conv@)),
        ("agentName"@, JsonV::Str("cli"@)),
        ("agentType"@, JsonV::Str("main"@)),
    ]);
    object(fields)
}

/// A chat request sent.
pub open spec fn chat_request_sent_event_view(conv: Seq<char>, req: Seq<char>) -> JsonV {
    JsonV::Object(
        seq![
            ("eventCode"@, JsonV::Str("chat_request_send"@)),
            ("inputLength"@, JsonV::Int(24)),
            ("isPlan"@, JsonV::Bool(false)),
            ("isAutoExecuteTerminal"@, JsonV::Bool(false)),
            ("isAutoModify"@, JsonV::Bool(false)),
            ("codebaseEnable"@, JsonV::Bool(false)),
            ("maxToken"@, JsonV::Int(0)),
            ("maxSteps"@, JsonV::Int(500)),
            ("temperature"@, JsonV::Int(0)),
            ("maxRetries"@, JsonV::Int(0)),
            ("mentionContexts"@, JsonV::Array(Seq::empty())),
            ("knowledgeId"@, JsonV::Array(Seq::empty())),
            ("knowledgeName"@, JsonV::Array(Seq::empty())),
            ("codebaseId"@, JsonV::Str(""@)),
            ("mentionContextCount"@, JsonV::Int(0)),
            ("command"@, JsonV::Str(""@)),
            ("recommendId"@, JsonV::Str(""@)),
            ("skillId"@, JsonV::Str(""@)),
            ("skillCount"@, JsonV::Int(0)),
            ("totalCount"@, JsonV::Int(0)),
            ("traceId"@, JsonV::Str(req)),
            ("rootRequestId"@, JsonV::Str(req)),
            ("parentConversationId"@, JsonV::Str(conv)),
            ("agentName"@, JsonV::Str("cli"@)),
            ("agentType"@, JsonV::Str("main"@)),
        ],
    )
}

/// A chat request sent.
pub fn chat_request_sent_event(conv: &str, req: &str) -> (res: Json)
    ensures
        res@ == chat_request_sent_event_view(conv@, req@),
{
    proof {
        lemma_empty_items();
    }
    let fields = vec![
        entry("eventCode", Json::text("chat_request_send")),
        entry("inputLength", Json::Int(24)),
        entry("isPlan", Json::Bool(false)),
        entry("isAutoExecuteTerminal", Json::Bool(false)),
        entry("isAutoModify", Json::Bool(false)),
        entry("codebaseEnable", Json::Bool(false)),
        entry("maxToken", Json::Int(0)),
        entry("maxSteps", Json::Int(500)),
        entry("temperature", Json::Int(0)),
        entry("maxRetries", Json::Int(0)),
        entry("mentionContexts", array(Vec::new())),
        entry("knowledgeId", array(Vec::new())),
        entry("knowledgeName", array(Vec::new())),
        entry("codebaseId", Json::text("")),
        entry("mentionContextCount", Json::Int(0)),
        entry("command", Json::text("")),
        entry("recommendId", Json::text("")),
        entry("skillId", Json::text("")),
        entry("skillCount", Json::Int(0)),
        entry("totalCount", Json::Int(0)),
        entry("traceId", Json::text(req)),
        entry("rootRequestId", Json::text(req)),
        entry("parentConversationId", Json::text(conv)),
        entry("agentName", Json::text("cli")),
        entry("agentType", Json::text("main")),
    ];
    assert(fields_view(fields@) =~= seq![
        ("eventCode"@, JsonV::Str("chat_request_send"@)),
        ("inputLength"@, JsonV::Int(24)),
        ("isPlan"@, JsonV::Bool(false)),
        ("isAutoExecuteTerminal"@, JsonV::Bool(false)),
        ("isAutoModify"@, JsonV::Bool(false)),
        ("codebaseEnable"@, JsonV::Bool(false)),
        ("maxToken"@, JsonV::Int(0)),
        ("maxSteps"@, JsonV::Int(500)),
        ("temperature"@, JsonV::Int(0)),
        ("maxRetries"@, JsonV::Int(0)),
        ("mentionContexts"@, JsonV::Array(Seq::empty())),
        ("knowledgeId"@, JsonV::Array(Seq::empty())),
        ("knowledgeName"@, JsonV::Array(Seq::empty())),
        ("codebaseId"@, JsonV::Str(""@)),
        ("mentionContextCount"@, JsonV::Int(0)),
        ("command"@, JsonV::Str(""@)),
        ("recommendId"@, JsonV::Str(""@)),
        ("skillId"@, JsonV::Str(""@)),
        ("skillCount"@, JsonV::Int(0)),
        ("totalCount"@, JsonV::Int(0)),
        ("traceId"@, JsonV::Str(req@)),
        ("rootRequestId"@, JsonV::Str(req@)),
        ("parentConversationId"@, JsonV::Str(conv@)),
        ("agentName"@, JsonV::Str("cli"@)),
        ("agentType"@, JsonV::Str("main"@)),
    ]);
    object(fields)
}

/// A chat message answered.
pub open spec fn chat_message_response_event_view(conv: Seq<char>, req: Seq<char>, reply_msg: Seq<char>) -> JsonV {
    JsonV::Object(
        seq![
            ("eventCode"@, JsonV::Str("chat_message_response"@)),
            ("messageId"@, JsonV::Str(reply_msg)),
            ("responseModelId"@, JsonV::Str("fast-model"@)),
            ("inputToken"@, JsonV::Int(120)),
            ("outputToken"@, JsonV::Int(80)),
            ("totalToken"@, JsonV::Int(200)),
            ("cachedTokens"@, JsonV::Int(0)),
            ("cachedWriteTokens"@, JsonV::Int(0)),
            ("cachedMissTokens"@, JsonV::Int(0)),
            ("isSuccessful"@, JsonV::Bool(true)),
            ("messageErrorCode"@, JsonV::Str(""@)),
            ("finishReason"@, JsonV::Str("stop"@)),
            ("traceId"@, JsonV::Str(req)),
            ("conversationId"@, JsonV::Str(conv)),
            ("rootRequestId"@, JsonV::Str(req)),
            ("parentConversationId"@, JsonV::Str(conv)),
            ("agentName"@, JsonV::Str("cli"@)),
            ("agentType"@, JsonV::Str("main"@)),
        ],
    )
}

/// A chat message answered.
pub fn chat_message_response_event(conv: &str, req: &str, reply_msg: &str) -> (res: Json)
    ensures
        res@ == chat_message_response_event_view(conv@, req@, reply_msg@),
{
    let fields = vec![
        entry("eventCode", Json::text("chat_message_response")),
        entry("messageId", Json::text(reply_msg)),
        entry("responseModelId", Json::text("fast-model")),
        entry("inputToken", Json::Int(120)),
        entry("outputToken", Json::Int(80)),
        entry("totalToken", Json::Int(200)),
        entry("cachedTokens", Json::Int(0)),
        entry("cachedWriteTokens", Json::Int(0)),
        entry("cachedMissTokens", Json::Int(0)),
        entry("isSuccessful", Json::Bool(true)),
        entry("messageErrorCode", Json::text("")),
        entry("finishReason", Json::text("stop")),
        entry("traceId", Json::text(req)),
        entry("conversationId", Json::text(conv)),
        entry("rootRequestId", Json::text(req)),
        entry("parentConversationId", Json::text(conv)),
        entry("agentName", Json::text("cli")),
        entry("agentType", Json::text("main")),
    ];
    assert(fields_view(fields@) =~= seq![
        ("eventCode"@, JsonV::Str("chat_message_response"@)),
        ("messageId"@, JsonV::Str(reply_msg@)),
        ("responseModelId"@, JsonV::Str("fast-model"@)),
        ("inputToken"@, JsonV::Int(120)),
        ("outputToken"@, JsonV::Int(80)),
        ("totalToken"@, JsonV::Int(200)),
        ("cachedTokens"@, JsonV::Int(0)),
        ("cachedWriteTokens"@, JsonV::Int(0)),
        ("cachedMissTokens"@, JsonV::Int(0)),
        ("isSuccessful"@, JsonV::Bool(true)),
        ("messageErrorCode"@, JsonV::Str(""@)),
        ("finishReason"@, JsonV::Str("stop"@)),
        ("traceId"@, JsonV::Str(req@)),
        ("conversationId"@, JsonV::Str(conv@)),
        ("rootRequestId"@, JsonV::Str(req@)),
        ("parentConversationId"@, JsonV::Str(conv@)),
        ("agentName"@, JsonV::Str("cli"@)),
        ("agentType"@, JsonV::Str("main"@)),
    ]);
    object(fields)
}

/// A chat message's status.
pub open spec fn chat_message_status_event_view(conv: Seq<char>, req: Seq<char>, reply_msg: Seq<char>) -> JsonV {
    JsonV::Object(
        seq![
            ("eventCode"@, JsonV::Str("chat_message_status"@)),
            ("messageId"@, JsonV::Str(reply_msg)),
            ("messageErrorCode"@, JsonV::Str("0"@)),
            ("traceId"@, JsonV::Str(req)),
            ("rootRequestId"@, JsonV::Str(req)),
            ("parentConversationId"@, JsonV::Str(conv)),
            ("agentName"@, JsonV::Str("cli"@)),
            ("agentType"@, JsonV::Str("main"@)),
        ],
    )
}

/// A chat message's status.
pub fn chat_message_status_event(conv: &str, req: &str, reply_msg: &str) -> (res: Json)
    ensures
        res@ == chat_message_status_event_view(conv@, req@, reply_msg@),
{
    let fields = vec![
        entry("eventCode", Json::text("chat_message_status")),
        entry("messageId", Json::text(reply_msg)),
        entry("messageErrorCode", Json::text("0")),
        entry("traceId", Json::text(req)),
        entry("rootRequestId", Json::text(req)),
        entry("parentConversationId", Json::text(conv)),
        entry("agentName", Json::text("cli")),
        entry("agentType", Json::text("main")),
    ];
    assert(fields_view(fields@) =~= seq![
        ("eventCode"@, JsonV::Str("chat_message_status"@)),
        ("messageId"@, JsonV::Str(reply_msg@)),
        ("messageErrorCode"@, JsonV::Str("0"@)),
        ("traceId"@, JsonV::Str(req@)),
        ("rootRequestId"@, JsonV::Str(req@)),
        ("parentConversationId"@, JsonV::Str(conv@)),
        ("agentName"@, JsonV::Str("cli"@)),
        ("agentType"@, JsonV::Str("main"@)),
    ]);
    object(fields)
}

/// A chat request answered.
pub open spec fn chat_request_response_event_view(conv: Seq<char>, req: Seq<char>) -> JsonV {
    JsonV::Object(
        seq![
            ("eventCode"@, JsonV::Str("chat_request_response"@)),
            ("mode"@, JsonV::Str("craft"@)),
            ("toolCallCount"@, JsonV::Int(0)),
            ("inputToken"@, JsonV::Int(120)),
            ("outputToken"@, JsonV::Int(80)),
            ("totalToken"@, JsonV::Int(200)),
            ("cachedTokens"@, JsonV::Int(0)),
            ("cachedWriteTokens"@, JsonV::Int(0)),
            ("cachedMissTokens"@, JsonV::Int(0)),
            ("isSuccessful"@, JsonV::Bool(true)),
            ("messageErrorCode"@, JsonV::Str(""@)),
            ("finishReason"@, JsonV::Str("stop"@)),
            ("rootRequestId"@, JsonV::Str(req)),
            ("parentConversationId"@, JsonV::Str(conv)),
            ("agentName"@, JsonV::Str("cli"@)),
            ("agentType"@, JsonV::Str("main"@)),
        ],
    )
}

/// A chat request answered.
pub fn chat_request_response_event(conv: &str, req: &str) -> (res: Json)
    ensures
        res@ == chat_request_response_event_view(conv@, req@),
{
    let fields = vec![
        entry("eventCode", Json::text("chat_request_response")),
        entry("mode", Json::text("craft")),
        entry("toolCallCount", Json::Int(0)),
        entry("inputToken", Json::Int(120)),
        entry("outputToken", Json::Int(80)),
        entry("totalToken", Json::Int(200)),
        entry("cachedTokens", Json::Int(0)),
        entry("cachedWriteTokens", Json::Int(0)),
        entry("cachedMissTokens", Json::Int(0)),
        entry("isSuccessful", Json::Bool(true)),
        entry("messageErrorCode", Json::text("")),
        entry("finishReason", Json::text("stop")),
        entry("rootRequestId", Json::text(req)),
        entry("parentConversationId", Json::text(conv)),
        entry("agentName", Json::text("cli")),
        entry("agentType", Json::text("main")),
    ];
    assert(fields_view(fields@) =~= seq![
        ("eventCode"@, JsonV::Str("chat_request_response"@)),
        ("mode"@, JsonV::Str("craft"@)),
        ("toolCallCount"@, JsonV::Int(0)),
        ("inputToken"@, JsonV::Int(120)),
        ("outputToken"@, JsonV::Int(80)),
        ("totalToken"@, JsonV::Int(200)),
        ("cachedTokens"@, JsonV::Int(0)),
        ("cachedWriteTokens"@, JsonV::Int(0)),
        ("cachedMissTokens"@, JsonV::Int(0)),
        ("isSuccessful"@, JsonV::Bool(true)),
        ("messageErrorCode"@, JsonV::Str(""@)),
        ("finishReason"@, JsonV::Str("stop"@)),
        ("rootRequestId"@, JsonV::Str(req@)),
        ("parentConversationId"@, JsonV::Str(conv@)),
        ("agentName"@, JsonV::Str("cli"@)),
        ("agentType"@, JsonV::Str("main"@)),
    ]);
    object(fields)
}

/// The lightweight-cloud expert summoned.
pub open spec fn lighthouse_summoned_event_view() -> JsonV {
    JsonV::Object(
        seq![
            ("eventCode"@, JsonV::Str("expert_summoned"@)),
            ("id"@, JsonV::Str("expert-lh"@)),
            ("name"@, JsonV::Str("轻量云专家"@)),
            ("type"@, JsonV::Str("agent"@)),
            ("expertTitle"@, JsonV::Str("轻量云专家"@)),
            ("expertType"@, JsonV::Str("agent"@)),
            ("source"@, JsonV::Str("builtin"@)),
        ],
    )
}

/// The lightweight-cloud expert summoned.
pub fn lighthouse_summoned_event() -> (res: Json)
    ensures
        res@ == lighthouse_summoned_event_view(),
{
    let fields = vec![
        entry("eventCode", Json::text("expert_summoned")),
        entry("id", Json::text("expert-lh")),
        entry("name", Json::text("轻量云专家")),
        entry("type", Json::text("agent")),
        entry("expertTitle", Json::text("轻量云专家")),
        entry("expertType", Json::text("agent")),
        entry("source", Json::text("builtin")),
    ];
    assert(fields_view(fields@) =~= seq![
        ("eventCode"@, JsonV::Str("expert_summoned"@)),
        ("id"@, JsonV::Str("expert-lh"@)),
        ("name"@, JsonV::Str("轻量云专家"@)),
        ("type"@, JsonV::Str("agent"@)),
        ("expertTitle"@, JsonV::Str("轻量云专家"@)),
        ("expertType"@, JsonV::Str("agent"@)),
        ("source"@, JsonV::Str("builtin"@)),
    ]);
    object(fields)
}

/// The lightweight-cloud expert used in a conversation.
pub open spec fn lighthouse_used_event_view(conv: Seq<char>, req: Seq<char>, msg: Seq<char>) -> JsonV {
    JsonV::Object(
        seq![
            ("eventCode"@, JsonV::Str("expert_actual_use"@)),
            ("id"@, JsonV::Str("expert-lh"@)),
            ("name"@, JsonV::Str("轻量云专家"@)),
            ("expertTitle"@, JsonV::Str("轻量云专家"@)),
            ("type"@, JsonV::Str("agent"@)),
            ("expertType"@, JsonV::Str("agent"@)),
            ("source"@, JsonV::Str("builtin"@)),
            ("version"@, JsonV::Str(""@)),
            ("cost"@, JsonV::Int(0)),
            ("characterCount"@, JsonV::Int(12)),
            ("conversationId"@, JsonV::Str(conv)),
            ("requestId"@, JsonV::Str(req)),
            ("messageId"@, JsonV::Str(msg)),
            ("requestModelId"@, JsonV::Str("deepseek-v4-flash"@)),
            ("requestModelName"@, JsonV::Str("DeepSeek V4 Flash"@)),
        ],
    )
}

/// The lightweight-cloud expert used in a conversation.
pub fn lighthouse_used_event(conv: &str, req: &str, msg: &str) -> (res: Json)
    ensures
        res@ == lighthouse_used_event_view(conv@, req@, msg@),
{
    let fields = vec![
        entry("eventCode", Json::text("expert_actual_use")),
        entry("id", Json::text("expert-lh")),
        entry("name", Json::text("轻量云专家")),
        entry("expertTitle", Json::text("轻量云专家")),
        entry("type", Json::text("agent")),
        entry("expertType", Json::text("agent")),
        entry("source", Json::text("builtin")),
        entry("version", Json::text("")),
        entry("cost", Json::Int(0)),
        entry("characterCount", Json::Int(12)),
        entry("conversationId", Json::text(conv)),
        entry("requestId", Json::text(req)),
        entry("messageId", Json::text(msg)),
        entry("requestModelId", Json::text("deepseek-v4-flash")),
        entry("requestModelName", Json::text("DeepSeek V4 Flash")),
    ];
    assert(fields_view(fields@) =~= seq![
        ("eventCode"@, JsonV::Str("expert_actual_use"@)),
        ("id"@, JsonV::Str("expert-lh"@)),
        ("name"@, JsonV::Str("轻量云专家"@)),
        ("expertTitle"@, JsonV::Str("轻量云专家"@)),
        ("type"@, JsonV::Str("agent"@)),
        ("expertType"@, JsonV::Str("agent"@)),
        ("source"@, JsonV::Str("builtin"@)),
        ("version"@, JsonV::Str(""@)),
        ("cost"@, JsonV::Int(0)),
        ("characterCount"@, JsonV::Int(12)),
        ("conversationId"@, JsonV::Str(conv@)),
        ("requestId"@, JsonV::Str(req@)),
        ("messageId"@, JsonV::Str(msg@)),
        ("requestModelId"@, JsonV::Str("deepseek-v4-flash"@)),
        ("requestModelName"@, JsonV::Str("DeepSeek V4 Flash"@)),
    ]);
    object(fields)
}

/// An appearance skin applied.
pub open spec fn skin_applied_event_view() -> JsonV {
    JsonV::Object(
        seq![
            ("eventCode"@, JsonV::Str("appearance_skin_apply"@)),
            ("action"@, JsonV::Str("apply"@)),
            ("source"@, JsonV::Str("settings_close"@)),
            ("id"@, JsonV::Str("theme-tkmw7j"@)),
            ("vipLevel"@, JsonV::Str("free"@)),
            ("series"@, JsonV::Str("craft"@)),
            ("type"@, JsonV::Str("personal"@)),
        ],
    )
}

/// An appearance skin applied.
pub fn skin_applied_event() -> (res: Json)
    ensures
        res@ == skin_applied_event_view(),
{
    let fields = vec![
        entry("eventCode", Json::text("appearance_skin_apply")),
        entry("action", Json::text("apply")),
        entry("source", Json::text("settings_close")),
        entry("id", Json::text("theme-tkmw7j")),
        entry("vipLevel", Json::text("free")),
        entry("series", Json::text("craft")),
        entry("type", Json::text("personal")),
    ];
    assert(fields_view(fields@) =~= seq![
        ("eventCode"@, JsonV::Str("appearance_skin_apply"@)),
        ("action"@, JsonV::Str("apply"@)),
        ("source"@, JsonV::Str("settings_close"@)),
        ("id"@, JsonV::Str("theme-tkmw7j"@)),
        ("vipLevel"@, JsonV::Str("free"@)),
        ("series"@, JsonV::Str("craft"@)),
        ("type"@, JsonV::Str("personal"@)),
    ]);
    object(fields)
}

/// A skill looked at.
pub open spec fn skill_info_event_view() -> JsonV {
    JsonV::Object(
        seq![
            ("eventCode"@, JsonV::Str("skill_info"@)),
            ("skillId"@, JsonV::Str("skill-algo"@)),
            ("skillName"@, JsonV::Str("algorithmic-trading"@)),
            ("mode"@, JsonV::Str("LOCAL"@)),
            ("source"@, JsonV::Str("builtin"@)),
        ],
    )
}

/// A skill looked at.
pub fn skill_info_event() -> (res: Json)
    ensures
        res@ == skill_info_event_view(),
{
    let fields = vec![
        entry("eventCode", Json::text("skill_info")),
        entry("skillId", Json::text("skill-algo")),
        entry("skillName", Json::text("algorithmic-trading")),
        entry("mode", Json::text("LOCAL")),
        entry("source", Json::text("builtin")),
    ];
    assert(fields_view(fields@) =~= seq![
        ("eventCode"@, JsonV::Str("skill_info"@)),
        ("skillId"@, JsonV::Str("skill-algo"@)),
        ("skillName"@, JsonV::Str("algorithmic-trading"@)),
        ("mode"@, JsonV::Str("LOCAL"@)),
        ("source"@, JsonV::Str("builtin"@)),
    ]);
    object(fields)
}

} // verus!

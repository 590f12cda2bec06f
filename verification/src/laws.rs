//! Properties of the check-in and growth-center decisions that hold across
//! functions and inputs.

use vstd::prelude::*;
use crate::checkin::{
    checkin_retry_wanted, status_view, cycle_report_view, cycle_row_view, cycle_start_view, is_checkin_target, decision_of, falls_back, outcome_inactive, outcome_view, skips_refresh,
    submit_log_view, submit_reply_view, unsupported_status_view, DecisionV,
};
use crate::checkin_log::{
    account_checked_in, checked_in_today, date_str_gives, fallback_variant, latest_today_result, log_ts_arg,
    row_of_today, taggable, tagged_row, texts,
};
use crate::events::report_envelope_view;
use crate::growth::{claimable_code, count_accepted, merge_fields, reported_event, task_item_view, task_name, text_or_empty};
use crate::json::{as_flag, as_text, field, first_key_at, lookup, set_field, JsonV};
use crate::progress::{task_action_view, TaskActionV};
use crate::reply::{message_or_code, reply_code};
use crate::variant::{account_variant, variant_supports_checkin, WbVariant};

verus! {

/// Only a missing route (code 404) makes a check-in request try its next
/// candidate path; the reply to the last candidate is always the answer.
pub proof fn law_only_missing_route_falls_back(index: int, count: int, reply: JsonV)
    ensures
        falls_back(index, count, reply) ==> reply_code(reply) == 404,
        index + 1 >= count ==> !falls_back(index, count, reply),
{
}

/// The domestic edition never returns a reply before the refresh-and-retry
/// decision: its behaviour is that of a plain authenticated request.
pub proof fn law_domestic_replies_never_skip_refresh(reply: JsonV)
    ensures
        !skips_refresh(WbVariant::Cn, reply),
{
}

/// An international "campaign not open" reply is never answered with a token
/// refresh and a second request.
pub proof fn law_inactive_reply_is_not_retried(reply: JsonV, account: JsonV)
    requires
        skips_refresh(WbVariant::Ai, reply),
    ensures
        !checkin_retry_wanted(WbVariant::Ai, reply, account),
{
}

/// A submission classified as inactive is never a success, and the domestic
/// edition never classifies a submission as inactive.
pub proof fn law_inactive_outcome_is_never_success(variant: WbVariant, reply: JsonV)
    ensures
        as_flag(field(outcome_view(variant, reply), "inactive"@)) == Some(true) ==> as_flag(
            field(outcome_view(variant, reply), "ok"@),
        ) == Some(false),
        variant == WbVariant::Cn ==> field(outcome_view(variant, reply), "inactive"@) is None,
{
    reveal_strlit("ok");
    reveal_strlit("raw");
    reveal_strlit("already");
    reveal_strlit("inactive");
    reveal_strlit("message");
    reveal_strlit("error");
    assert("ok"@.len() == 2);
    assert("raw"@.len() == 3);
    assert("already"@.len() == 7);
    assert("inactive"@.len() == 8);
    assert("message"@.len() == 7);
    assert("error"@.len() == 5);
    let fs = outcome_view(variant, reply)->Object_0;
    assert(fs[0].0 == "ok"@);
    assert(first_key_at(fs, "ok"@, 0));
    lemma_lookup_first(fs, "ok"@);
    lemma_lookup_first(fs, "inactive"@);
    if fs[1].0 == "inactive"@ {
        assert(first_key_at(fs, "inactive"@, 1));
    } else {
        assert(forall|j: int| 0 <= j < fs.len() ==> fs[j].0 != "inactive"@);
    }
}

/// An inactive submission writes no log entry (it is neither a success nor
/// a failure); every other submission writes one, with the same result as
/// its reply.
pub proof fn law_only_decided_submissions_are_logged(outcome: JsonV, ts: int, account: JsonV, display_name: Seq<char>)
    ensures
        outcome_inactive(outcome) ==> submit_log_view(outcome, ts, account, display_name) is None,
        !outcome_inactive(outcome) ==> submit_log_view(outcome, ts, account, display_name) is Some
            && field(submit_log_view(outcome, ts, account, display_name)->0, "result"@) == field(
            submit_reply_view(outcome),
            "result"@,
        ),
{
    reveal_with_fuel(lookup, 2);
}

/// A status that failed, from an edition that has a status service, never
/// leads to a submission.
pub proof fn law_failed_status_never_submits(status: JsonV)
    requires
        as_flag(field(status, "statusUnsupported"@)) != Some(true),
        as_flag(field(status, "ok"@)) != Some(true),
    ensures
        decision_of(status) is Error,
{
}

/// An edition without a status service submits once, relying on the
/// submission's own idempotence.
pub proof fn law_unsupported_status_submits()
    ensures
        decision_of(unsupported_status_view()) == DecisionV::Submit,
{
    reveal_strlit("ok");
    reveal_strlit("statusUnsupported");
    reveal_strlit("error");
    let s = unsupported_status_view();
    let fs = s->Object_0;
    assert(fs.len() == 3);
    assert(fs[0].0 == "ok"@);
    assert("ok"@.len() == 2);
    assert("statusUnsupported"@.len() == 17);
    assert(fs[0].0 != "statusUnsupported"@);
    assert(first_key_at(fs, "statusUnsupported"@, 1));
    assert(first_key_at(fs, "ok"@, 0));
    lemma_lookup_first(fs, "statusUnsupported"@);
    lemma_lookup_first(fs, "ok"@);
}

/// One check-in per account at a time: once an account is marked as in
/// progress, marking it again fails; once released, it can be marked again.
pub proof fn law_guard_is_exclusive(running: Set<Seq<char>>, key: Seq<char>, other: Seq<char>)
    requires
        other != key,
    ensures
        running.insert(key).contains(key),
        !running.insert(key).remove(key).contains(key),
        running.insert(key).contains(other) == running.contains(other),
{
}

/// With no stored account, the accounts are not all checked in.
pub proof fn law_no_accounts_not_checked_in(logs: Seq<JsonV>, dates: Seq<Seq<char>>, today: Seq<char>)
    ensures
        !checked_in_today(Seq::empty(), logs, dates, today),
{
}

/// Accounts of editions without check-in never keep the answer at "not yet":
/// a non-empty list of such accounts counts as checked in, and adding one to
/// a non-empty list does not change the answer.
pub proof fn law_accounts_without_checkin_do_not_count(
    accounts: Seq<JsonV>,
    extra: JsonV,
    logs: Seq<JsonV>,
    dates: Seq<Seq<char>>,
    today: Seq<char>,
)
    requires
        accounts.len() > 0,
        !variant_supports_checkin(account_variant(extra)),
    ensures
        (forall|i: int| 0 <= i < accounts.len() ==> !variant_supports_checkin(account_variant(#[trigger] accounts[i])))
            ==> checked_in_today(accounts, logs, dates, today),
        checked_in_today(accounts.push(extra), logs, dates, today) == checked_in_today(accounts, logs, dates, today),
{
    let more = accounts.push(extra);
    if checked_in_today(accounts, logs, dates, today) {
        assert forall|i: int|
            0 <= i < more.len() && variant_supports_checkin(account_variant(more[i])) implies account_checked_in(
            #[trigger] more[i],
            logs,
            dates,
            today,
        ) by {
            if i < accounts.len() {
                assert(more[i] == accounts[i]);
            }
        }
    }
    if checked_in_today(more, logs, dates, today) {
        assert forall|i: int|
            0 <= i < accounts.len() && variant_supports_checkin(account_variant(accounts[i])) implies account_checked_in(
            #[trigger] accounts[i],
            logs,
            dates,
            today,
        ) by {
            assert(more[i] == accounts[i]);
        }
    }
}

/// Looking a key up finds the value of its first field, or nothing when no
/// field has that name.
pub proof fn lemma_lookup_first(fields: Seq<(Seq<char>, JsonV)>, key: Seq<char>)
    ensures
        forall|p: int| first_key_at(fields, key, p) ==> lookup(fields, key) == Some(fields[p].1),
        (forall|j: int| 0 <= j < fields.len() ==> fields[j].0 != key) ==> lookup(fields, key) is None,
    decreases fields.len(),
{
    if fields.len() > 0 {
        let rest = fields.drop_first();
        lemma_lookup_first(rest, key);
        assert forall|p: int| first_key_at(fields, key, p) implies lookup(fields, key) == Some(fields[p].1) by {
            if p > 0 {
                assert(fields[0].0 != key);
                assert(first_key_at(rest, key, p - 1)) by {
                    assert forall|j: int| 0 <= j < p - 1 implies rest[j].0 != key by {
                        assert(rest[j] == fields[j + 1]);
                    }
                }
            }
        }
        if forall|j: int| 0 <= j < fields.len() ==> fields[j].0 != key {
            assert(fields[0].0 != key);
            assert forall|j: int| 0 <= j < rest.len() implies rest[j].0 != key by {
                assert(rest[j] == fields[j + 1]);
            }
        }
    }
}

/// Setting a field, then reading it, gives the value set.
pub proof fn lemma_set_then_get(fields: Seq<(Seq<char>, JsonV)>, key: Seq<char>, value: JsonV)
    ensures
        lookup(set_field(fields, key, value), key) == Some(value),
{
    let s = set_field(fields, key, value);
    if exists|i: int| first_key_at(fields, key, i) {
        let p = choose|i: int| first_key_at(fields, key, i);
        assert(first_key_at(s, key, p));
        lemma_lookup_first(s, key);
    } else {
        assert forall|j: int| 0 <= j < fields.len() implies fields[j].0 != key by {
            if fields[j].0 == key {
                lemma_first_occurrence(fields, key, j);
                let q = choose|q: int| 0 <= q <= j && fields[q].0 == key && forall|r: int| 0 <= r < q ==> fields[r].0 != key;
                assert(first_key_at(fields, key, q));
            }
        }
        assert(first_key_at(s, key, fields.len() as int));
        lemma_lookup_first(s, key);
    }
}

/// A field named `key` at `j` means there is a first one at or before `j`.
proof fn lemma_first_occurrence(fields: Seq<(Seq<char>, JsonV)>, key: Seq<char>, j: int)
    requires
        0 <= j < fields.len(),
        fields[j].0 == key,
    ensures
        exists|q: int| 0 <= q <= j && fields[q].0 == key && forall|r: int| 0 <= r < q ==> fields[r].0 != key,
    decreases j,
{
    if exists|r: int| 0 <= r < j && fields[r].0 == key {
        let r = choose|r: int| 0 <= r < j && fields[r].0 == key;
        lemma_first_occurrence(fields, key, r);
    } else {
        assert(forall|r: int| 0 <= r < j ==> fields[r].0 != key);
    }
}

/// Every tagged log row names its edition: a row that named one is kept as
/// it is; any other names that of its account, or the domestic edition.
pub proof fn law_tagged_rows_name_their_edition(row: JsonV, accounts: Seq<JsonV>)
    requires
        taggable(row),
    ensures
        as_text(field(tagged_row(row, accounts), "variant"@)) is Some,
        as_text(field(row, "variant"@)) is Some ==> tagged_row(row, accounts) == row,
        as_text(field(row, "variant"@)) is None ==> as_text(field(tagged_row(row, accounts), "variant"@))
            == Some(fallback_variant(row, accounts)),
{
    if as_text(field(row, "variant"@)) is None {
        let v = JsonV::Str(fallback_variant(row, accounts));
        match row {
            JsonV::Object(fs) => {
                lemma_set_then_get(fs, "variant"@, v);
            },
            _ => {
                reveal_with_fuel(lookup, 2);
            },
        }
    }
}

/// No more tasks are counted as accepted than there are results.
pub proof fn law_accepted_at_most_results(results: Seq<JsonV>)
    ensures
        count_accepted(results) <= results.len(),
    decreases results.len(),
{
    if results.len() > 0 {
        law_accepted_at_most_results(results.drop_last());
    }
}

/// A task already claimed, or whose target is zero or not reached, is never
/// claimed.
pub proof fn law_only_finished_tasks_are_claimed(task: JsonV)
    ensures
        claimable_code(task) is Some ==> {
            &&& text_or_empty(field(task, "acceptStatus"@)) != "claimed"@
            &&& crate::growth::int_or(field(task, "target"@), 0) != 0
            &&& crate::growth::int_or(field(task, "current"@), 0) >= crate::growth::int_or(field(task, "target"@), 0)
        },
{
}

/// A listed task that is completed or claimed gets no event.
pub proof fn law_finished_tasks_get_no_events(task: JsonV, conv: Seq<char>, req: Seq<char>, msg: Seq<char>)
    requires
        text_or_empty(field(task, "acceptStatus"@)) == "completed"@ || text_or_empty(field(task, "acceptStatus"@))
            == "claimed"@,
    ensures
        task_action_view(task, conv, req, msg) == TaskActionV::Nothing,
{
}

/// A started automatic cycle (run flag free, check-in enabled, at least one
/// account whose edition has check-in) handles exactly the accounts whose
/// edition has check-in, in their stored order, and reports `"ok"` with one
/// row per such account: row `i` carries the display name and the result of
/// the `i`-th of them.
pub proof fn law_cycle_reports_every_target(
    acquired: bool,
    config: JsonV,
    accounts: Seq<JsonV>,
    names: Seq<Seq<char>>,
    results: Seq<JsonV>,
)
    requires
        acquired,
        as_flag(field(config, "enabled"@)) == Some(true),
        exists|k: int| 0 <= k < accounts.len() && variant_supports_checkin(account_variant(#[trigger] accounts[k])),
        names.len() == results.len(),
        names.len() == accounts.filter(|a: JsonV| is_checkin_target(a, None)).len(),
    ensures
        cycle_start_view(acquired, config, accounts) == Ok::<Seq<JsonV>, JsonV>(
            accounts.filter(|a: JsonV| is_checkin_target(a, None)),
        ),
        exists|rows: Seq<JsonV>|
            cycle_report_view(names, results) == JsonV::Object(
                seq![("status"@, JsonV::Str("ok"@)), ("accounts"@, JsonV::Array(rows))],
            ) && rows.len() == accounts.filter(|a: JsonV| is_checkin_target(a, None)).len()
                && forall|i: int| 0 <= i < rows.len() ==> #[trigger] rows[i] == cycle_row_view(names[i], results[i]),
{
    broadcast use vstd::seq_lib::group_filter_ensures;
    let pred = |a: JsonV| is_checkin_target(a, None);
    let k = choose|k: int| 0 <= k < accounts.len() && variant_supports_checkin(account_variant(#[trigger] accounts[k]));
    assert(pred(accounts[k]));
    assert(accounts.filter(pred).contains(accounts[k]));
    assert(accounts.filter(pred).len() > 0);
    let rows = Seq::new(names.len(), |i: int| cycle_row_view(names[i], results[i]));
    assert(cycle_report_view(names, results) == JsonV::Object(
        seq![("status"@, JsonV::Str("ok"@)), ("accounts"@, JsonV::Array(rows))],
    ));
}

/// The "already checked in" rule is the same for every edition: a refused
/// submission whose message says "已签到" is answered `{"ok": true,
/// "already": true, "message": <the message>}`, and both editions answer it
/// alike.
pub proof fn law_already_checked_in_counts_for_every_edition(variant: WbVariant, reply: JsonV)
    requires
        reply_code(reply) != 0,
        reply_code(reply) != 200,
        crate::text::contains_text(message_or_code(reply), "已签到"@),
    ensures
        outcome_view(variant, reply) == JsonV::Object(
            seq![
                ("ok"@, JsonV::Bool(true)),
                ("already"@, JsonV::Bool(true)),
                ("message"@, JsonV::Str(message_or_code(reply))),
            ],
        ),
        outcome_view(WbVariant::Cn, reply) == outcome_view(WbVariant::Ai, reply),
{
}

/// How a submission's reply is classified, for every edition: a reply with
/// code 0 or 200 is a success carrying its data; a refused reply whose
/// message mentions "repeat" in any case is an "already" success; a refused
/// reply to the domestic edition that says neither is an error carrying the
/// message. The message is the reply's `message` text (else its `msg` text).
pub proof fn law_submission_outcomes(variant: WbVariant, reply: JsonV)
    ensures
        (reply_code(reply) == 0 || reply_code(reply) == 200) ==> outcome_view(variant, reply) == JsonV::Object(
            seq![("ok"@, JsonV::Bool(true)), ("raw"@, crate::reply::data_or_empty(reply))],
        ),
        (reply_code(reply) != 0 && reply_code(reply) != 200 && crate::text::contains_text(
            crate::text::lowercase_text(message_or_code(reply)),
            "repeat"@,
        )) ==> outcome_view(variant, reply) == JsonV::Object(
            seq![
                ("ok"@, JsonV::Bool(true)),
                ("already"@, JsonV::Bool(true)),
                ("message"@, JsonV::Str(message_or_code(reply))),
            ],
        ),
        (reply_code(reply) != 0 && reply_code(reply) != 200 && !crate::text::contains_text(message_or_code(reply), "已签到"@)
            && !crate::text::contains_text(crate::text::lowercase_text(message_or_code(reply)), "repeat"@))
            ==> outcome_view(WbVariant::Cn, reply) == JsonV::Object(
            seq![("ok"@, JsonV::Bool(false)), ("error"@, JsonV::Str(message_or_code(reply)))],
        ),
        forall|m: Seq<char>| field(reply, "message"@) == Some(JsonV::Str(m)) ==> message_or_code(reply) == m,
        forall|m: Seq<char>|
            field(reply, "message"@) is None && field(reply, "msg"@) == Some(JsonV::Str(m)) ==> message_or_code(reply) == m,
{
}

/// A successful status reply whose data holds a boolean `today_checked_in`
/// (or, without that field, a boolean `todayCheckedIn`) reports exactly that
/// boolean as `todayCheckedIn` (so `false` means the check-in is still to be
/// submitted), with the data as `raw`.
pub proof fn law_status_reports_the_today_flag(reply: JsonV, data: JsonV, checked: bool)
    requires
        reply_code(reply) == 0 || reply_code(reply) == 200,
        field(reply, "data"@) == Some(data),
        field(data, "today_checked_in"@) == Some(JsonV::Bool(checked))
            || (field(data, "today_checked_in"@) is None && field(data, "todayCheckedIn"@) == Some(JsonV::Bool(checked))),
    ensures
        status_view(reply) == Some(
            JsonV::Object(
                seq![
                    ("ok"@, JsonV::Bool(true)),
                    ("todayCheckedIn"@, JsonV::Bool(checked)),
                    ("raw"@, data),
                ],
            ),
        ),
{
}

/// A status reply with a code other than 0 or 200 is no status; a
/// successful one whose `today_checked_in` is present but not a boolean
/// reports `false`.
pub proof fn law_status_failures_and_odd_flags(reply: JsonV)
    ensures
        reply_code(reply) != 0 && reply_code(reply) != 200 ==> status_view(reply) is None,
        (reply_code(reply) == 0 || reply_code(reply) == 200) && field(crate::reply::data_or_empty(reply), "today_checked_in"@) is Some
            && as_flag(field(crate::reply::data_or_empty(reply), "today_checked_in"@)) is None ==> status_view(reply) == Some(
            JsonV::Object(
                seq![
                    ("ok"@, JsonV::Bool(true)),
                    ("todayCheckedIn"@, JsonV::Bool(false)),
                    ("raw"@, crate::reply::data_or_empty(reply)),
                ],
            ),
        ),
{
}

/// A listed task is shown under the code of its raw `task_code`: the shown
/// `taskCode` is that text, the shown name is that code's display name, and
/// the raw task is kept as `raw`.
pub proof fn law_shown_task_keeps_its_code(task: JsonV, code: Seq<char>)
    requires
        field(task, "task_code"@) == Some(JsonV::Str(code)),
    ensures
        field(task_item_view(task), "taskCode"@) == Some(JsonV::Str(code)),
        forall|v: JsonV| field(task, "accept_status"@) == Some(v) ==> field(task_item_view(task), "acceptStatus"@) == Some(v),
        forall|p: Seq<(Seq<char>, JsonV)>|
            field(task, "progress"@) == Some(JsonV::Object(p)) && (#[trigger] field(JsonV::Object(p), "current"@)) is Some
                ==> field(task_item_view(task), "current"@) == field(JsonV::Object(p), "current"@),
        forall|p: Seq<(Seq<char>, JsonV)>|
            field(task, "progress"@) == Some(JsonV::Object(p)) && (#[trigger] field(JsonV::Object(p), "target"@)) is Some
                ==> field(task_item_view(task), "target"@) == field(JsonV::Object(p), "target"@),
        field(task_item_view(task), "name"@) == Some(JsonV::Str(task_name(code))),
        field(task_item_view(task), "raw"@) == Some(task),
{
    reveal_strlit("taskCode");
    reveal_strlit("name");
    reveal_strlit("acceptStatus");
    reveal_strlit("status");
    reveal_strlit("current");
    reveal_strlit("target");
    reveal_strlit("raw");
    let fields = task_item_view(task)->Object_0;
    lemma_lookup_first(fields, "taskCode"@);
    lemma_lookup_first(fields, "name"@);
    lemma_lookup_first(fields, "raw"@);
    lemma_lookup_first(fields, "acceptStatus"@);
    lemma_lookup_first(fields, "current"@);
    lemma_lookup_first(fields, "target"@);
    assert forall|j: int| 0 <= j < 2 implies fields[j].0 != "acceptStatus"@ by {
        assert(fields[j].0[0] != "acceptStatus"@[0]);
    }
    assert(first_key_at(fields, "acceptStatus"@, 2));
    assert forall|j: int| 0 <= j < 4 implies fields[j].0 != "current"@ by {
        assert(fields[j].0[0] != "current"@[0]);
    }
    assert(first_key_at(fields, "current"@, 4));
    assert forall|j: int| 0 <= j < 5 implies fields[j].0 != "target"@ by {
        assert(fields[j].0[0] != "target"@[0] || fields[j].0.len() != "target"@.len());
    }
    assert(first_key_at(fields, "target"@, 5));
    assert(first_key_at(fields, "taskCode"@, 0));
    assert(fields[0].0[0] != "name"@[0]);
    assert(first_key_at(fields, "name"@, 1));
    assert forall|j: int| 0 <= j < 6 implies fields[j].0 != "raw"@ by {
        assert(fields[j].0[0] != "raw"@[0]);
    }
    assert(first_key_at(fields, "raw"@, 6));
}

/// Every report envelope names the reporting user by the uid it was made
/// for (`userId`) and by the display name (`userNickname`), at the given
/// time, with the machine and session ids given.
pub proof fn law_envelope_names_the_user(uid: Seq<char>, nick: Seq<char>, now: int, machine: Seq<char>, session: Seq<char>)
    ensures
        field(report_envelope_view(uid, nick, now, machine, session), "userId"@) == Some(JsonV::Str(uid)),
        field(report_envelope_view(uid, nick, now, machine, session), "userNickname"@) == Some(JsonV::Str(nick)),
        field(report_envelope_view(uid, nick, now, machine, session), "timestamp"@) == Some(JsonV::Int(now)),
        field(report_envelope_view(uid, nick, now, machine, session), "machineId"@) == Some(JsonV::Str(machine)),
        field(report_envelope_view(uid, nick, now, machine, session), "sessionId"@) == Some(JsonV::Str(session)),
{
    reveal_strlit("timestamp");
    reveal_strlit("reportDelay");
    reveal_strlit("userId");
    reveal_strlit("userNickname");
    reveal_strlit("ideName");
    reveal_strlit("ideType");
    reveal_strlit("ideVersion");
    reveal_strlit("machineId");
    reveal_strlit("sessionId");
    let fields = report_envelope_view(uid, nick, now, machine, session)->Object_0;
    lemma_lookup_first(fields, "timestamp"@);
    lemma_lookup_first(fields, "userId"@);
    lemma_lookup_first(fields, "userNickname"@);
    lemma_lookup_first(fields, "machineId"@);
    lemma_lookup_first(fields, "sessionId"@);
    assert(first_key_at(fields, "timestamp"@, 0));
    assert forall|j: int| 0 <= j < 2 implies fields[j].0 != "userId"@ by {
        assert(fields[j].0[0] != "userId"@[0]);
    }
    assert(first_key_at(fields, "userId"@, 2));
    assert forall|j: int| 0 <= j < 3 implies fields[j].0 != "userNickname"@ by {
        assert(fields[j].0.len() != "userNickname"@.len());
    }
    assert(first_key_at(fields, "userNickname"@, 3));
    assert forall|j: int| 0 <= j < 7 implies fields[j].0 != "machineId"@ by {
        assert(fields[j].0[0] != "machineId"@[0]);
    }
    assert(first_key_at(fields, "machineId"@, 7));
    assert forall|j: int| 0 <= j < 8 implies fields[j].0 != "sessionId"@ by {
        assert(fields[j].0[0] != "sessionId"@[0]);
    }
    assert(first_key_at(fields, "sessionId"@, 8));
}

/// Setting one field leaves every other field as it was.
pub proof fn lemma_set_keeps_others(fields: Seq<(Seq<char>, JsonV)>, key: Seq<char>, value: JsonV, other: Seq<char>)
    requires
        key != other,
    ensures
        lookup(set_field(fields, key, value), other) == lookup(fields, other),
{
    let s = set_field(fields, key, value);
    assert forall|j: int| 0 <= j < fields.len() implies #[trigger] s[j].0 == fields[j].0 && (fields[j].0 == other ==> s[j].1 == fields[j].1) by {
        if exists|i: int| first_key_at(fields, key, i) {
            let p = choose|i: int| first_key_at(fields, key, i);
            if j == p {
                assert(fields[j].0 == key);
            }
        }
    }
    lemma_lookup_first(fields, other);
    lemma_lookup_first(s, other);
    if exists|q: int| first_key_at(fields, other, q) {
        let q = choose|q: int| first_key_at(fields, other, q);
        assert(first_key_at(s, other, q));
    } else {
        assert forall|j: int| 0 <= j < fields.len() implies fields[j].0 != other by {
            if fields[j].0 == other {
                lemma_first_occurrence(fields, other, j);
                let q = choose|q: int| 0 <= q <= j && fields[q].0 == other && forall|r: int| 0 <= r < q ==> fields[r].0 != other;
                assert(first_key_at(fields, other, q));
            }
        }
        assert forall|j: int| 0 <= j < s.len() implies s[j].0 != other by {
            if j >= fields.len() {
                assert(s[j].0 == key);
            }
        }
    }
}

/// Merging fields that do not name `other` leaves `other` as it was.
pub proof fn lemma_merge_keeps_unnamed(base: Seq<(Seq<char>, JsonV)>, event: Seq<(Seq<char>, JsonV)>, other: Seq<char>)
    requires
        forall|j: int| 0 <= j < event.len() ==> (#[trigger] event[j]).0 != other,
    ensures
        lookup(merge_fields(base, event), other) == lookup(base, other),
    decreases event.len(),
{
    if event.len() > 0 {
        let rest = event.drop_last();
        assert forall|j: int| 0 <= j < rest.len() implies (#[trigger] rest[j]).0 != other by {
            assert(rest[j] == event[j]);
        }
        lemma_merge_keeps_unnamed(base, rest, other);
        assert(event.last() == event[event.len() - 1]);
        lemma_set_keeps_others(merge_fields(base, rest), event.last().0, event.last().1, other);
    }
}

/// An event that does not set a field keeps the envelope's field when
/// reported.
pub proof fn lemma_reported_keeps_envelope_field(uid: Seq<char>, nick: Seq<char>, now: int, event: JsonV, key: Seq<char>)
    requires
        field(event, key) is None,
    ensures
        field(reported_event(uid, nick, now, event), key) == field(
            report_envelope_view(uid, nick, now, crate::growth::derived_id(uid, "machine"@), crate::growth::derived_id(uid, "session"@)),
            key,
        ),
{
    let env = report_envelope_view(uid, nick, now, crate::growth::derived_id(uid, "machine"@), crate::growth::derived_id(uid, "session"@));
    if let JsonV::Object(e) = event {
        lemma_lookup_first(e, key);
        assert forall|j: int| 0 <= j < e.len() implies (#[trigger] e[j]).0 != key by {
            if e[j].0 == key {
                lemma_first_occurrence(e, key, j);
                let q = choose|q: int| 0 <= q <= j && e[q].0 == key && forall|r: int| 0 <= r < q ==> e[r].0 != key;
                assert(first_key_at(e, key, q));
            }
        }
        lemma_merge_keeps_unnamed(env->Object_0, e, key);
    }
}

/// Every reported event names the reporting user by the uid it is reported
/// for (`userId`), by the display name (`userNickname`), at the report's time,
/// with the machine and session ids derived from that uid, unless the event
/// itself sets the field.
pub proof fn law_reported_events_name_the_uid(uid: Seq<char>, nick: Seq<char>, now: int, event: JsonV)
    ensures
        field(event, "userId"@) is None ==> field(reported_event(uid, nick, now, event), "userId"@) == Some(JsonV::Str(uid)),
        field(event, "userNickname"@) is None ==> field(reported_event(uid, nick, now, event), "userNickname"@) == Some(
            JsonV::Str(nick),
        ),
        field(event, "timestamp"@) is None ==> field(reported_event(uid, nick, now, event), "timestamp"@) == Some(JsonV::Int(now)),
        field(event, "machineId"@) is None ==> field(reported_event(uid, nick, now, event), "machineId"@) == Some(
            JsonV::Str(crate::growth::derived_id(uid, "machine"@)),
        ),
        field(event, "sessionId"@) is None ==> field(reported_event(uid, nick, now, event), "sessionId"@) == Some(
            JsonV::Str(crate::growth::derived_id(uid, "session"@)),
        ),
{
    law_envelope_names_the_user(uid, nick, now, crate::growth::derived_id(uid, "machine"@), crate::growth::derived_id(uid, "session"@));
    if field(event, "userId"@) is None {
        lemma_reported_keeps_envelope_field(uid, nick, now, event, "userId"@);
    }
    if field(event, "userNickname"@) is None {
        lemma_reported_keeps_envelope_field(uid, nick, now, event, "userNickname"@);
    }
    if field(event, "timestamp"@) is None {
        lemma_reported_keeps_envelope_field(uid, nick, now, event, "timestamp"@);
    }
    if field(event, "machineId"@) is None {
        lemma_reported_keeps_envelope_field(uid, nick, now, event, "machineId"@);
    }
    if field(event, "sessionId"@) is None {
        lemma_reported_keeps_envelope_field(uid, nick, now, event, "sessionId"@);
    }
}

/// The latest log row of today of an account is one of the rows: of that
/// account, dated today, with that result.
pub proof fn lemma_latest_today_is_a_row(logs: Seq<JsonV>, dates: Seq<Seq<char>>, id: Seq<char>, today: Seq<char>)
    requires
        logs.len() == dates.len(),
        latest_today_result(logs, dates, id, today) is Some,
    ensures
        exists|k: int|
            0 <= k < logs.len() && row_of_today(#[trigger] logs[k], dates[k], id, today)
                && as_text(field(logs[k], "result"@)) == latest_today_result(logs, dates, id, today),
    decreases logs.len(),
{
    let n = logs.len() - 1;
    if row_of_today(logs.last(), dates.last(), id, today) {
        assert(logs[n] == logs.last() && dates[n] == dates.last());
    } else {
        lemma_latest_today_is_a_row(logs.drop_last(), dates.drop_last(), id, today);
        let k = choose|k: int|
            0 <= k < logs.drop_last().len() && row_of_today(#[trigger] logs.drop_last()[k], dates.drop_last()[k], id, today)
                && as_text(field(logs.drop_last()[k], "result"@)) == latest_today_result(
                logs.drop_last(),
                dates.drop_last(),
                id,
                today,
            );
        assert(logs[k] == logs.drop_last()[k] && dates[k] == dates.drop_last()[k]);
    }
}

/// When the accounts count as checked in today, each account whose edition
/// has check-in has a log row of its own id, with a `success` or `already`
/// result, whose date is today, that date being what `date_str` gives for
/// that row's own time.
pub proof fn law_checked_in_means_a_row_of_today(
    accounts: Seq<JsonV>,
    logs: Seq<JsonV>,
    dates: Seq<String>,
    today: Seq<char>,
    i: int,
)
    requires
        dates.len() == logs.len(),
        forall|k: int| 0 <= k < logs.len() ==> date_str_gives(log_ts_arg(logs[k]), #[trigger] dates[k]),
        checked_in_today(accounts, logs, texts(dates), today),
        0 <= i < accounts.len(),
        variant_supports_checkin(account_variant(accounts[i])),
    ensures
        exists|k: int|
            0 <= k < logs.len() && as_text(field(#[trigger] logs[k], "accountId"@)) == as_text(field(accounts[i], "id"@))
                && as_text(field(accounts[i], "id"@)) is Some && dates[k]@ == today && date_str_gives(log_ts_arg(logs[k]), dates[k])
                && (as_text(field(logs[k], "result"@)) == Some("success"@) || as_text(field(logs[k], "result"@)) == Some("already"@)),
{
    assert(account_checked_in(accounts[i], logs, texts(dates), today));
    let id = as_text(field(accounts[i], "id"@))->0;
    lemma_latest_today_is_a_row(logs, texts(dates), id, today);
    let k = choose|k: int|
        0 <= k < logs.len() && row_of_today(#[trigger] logs[k], texts(dates)[k], id, today)
            && as_text(field(logs[k], "result"@)) == latest_today_result(logs, texts(dates), id, today);
    assert(texts(dates)[k] == dates[k]@);
}

} // verus!

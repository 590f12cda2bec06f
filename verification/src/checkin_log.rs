//! The check-in log: which accounts checked in today, and the edition of
//! each log row.

use vstd::prelude::*;
use crate::json::{as_int, as_text, field, items_view, opt_text, set_field, Json, JsonV};
use crate::text::text_eq;
use crate::variant::{
    account_variant, variant_name, variant_of, variant_supports_checkin, WbVariant,
};

verus! {

/// A decimal digit.
pub open spec fn is_decimal_digit(c: char) -> bool {
    '0' <= c <= '9'
}

/// The value of a two-digit decimal number.
pub open spec fn two_digit_value(tens: char, ones: char) -> int {
    10 * (tens as int - '0' as int) + (ones as int - '0' as int)
}

/// The year part of a `%Y` date: at least four digits, after an optional sign
/// (chrono writes a sign for years outside 0..=9999).
pub open spec fn year_text(y: Seq<char>) -> bool {
    &&& y.len() >= 4
    &&& (is_decimal_digit(y[0]) || y[0] == '+' || y[0] == '-')
    &&& forall|i: int| 1 <= i < y.len() ==> is_decimal_digit(#[trigger] y[i])
    &&& (y[0] == '+' || y[0] == '-') ==> y.len() >= 5
}

/// A `%Y-%m-%d` date as chrono writes it: the year, a hyphen, the month as two
/// digits (01 to 12), a hyphen, the day as two digits (01 to 31).
pub open spec fn calendar_date_text(s: Seq<char>) -> bool {
    let n = s.len() as int;
    &&& n >= 10
    &&& year_text(s.take(n - 6))
    &&& s[n - 6] == '-'
    &&& is_decimal_digit(s[n - 5])
    &&& is_decimal_digit(s[n - 4])
    &&& s[n - 3] == '-'
    &&& is_decimal_digit(s[n - 2])
    &&& is_decimal_digit(s[n - 1])
    &&& 1 <= two_digit_value(s[n - 5], s[n - 4]) <= 12
    &&& 1 <= two_digit_value(s[n - 2], s[n - 1]) <= 31
}

/// `chrono`: `DateTime::from_timestamp(secs, 0)` shown in the machine's time
/// zone with the format `%Y-%m-%d`; `None` when the time is out of chrono's
/// range. The contract states the form of the text (chrono's `%Y`, `%m` and
/// `%d`); which date it is depends on the machine's time zone and is not
/// stated.
#[verifier::external_body]
fn local_date_of_secs(secs: i64) -> (res: Option<String>)
    ensures
        match res {
            Some(d) => calendar_date_text(d@),
            None => true,
        },
{
    match chrono::DateTime::from_timestamp(secs, 0) {
        Some(t) => Some(t.with_timezone(&chrono::Local).format("%Y-%m-%d").to_string()),
        None => None,
    }
}

/// `chrono::Local::now()` with the format `%Y-%m-%d`: today's date in the
/// machine's time zone. The contract states the form of the text; which date
/// it is depends on the clock and is not stated.
#[verifier::external_body]
fn local_date_today() -> (res: String)
    ensures
        calendar_date_text(res@),
{
    chrono::Local::now().format("%Y-%m-%d").to_string()
}

/// A time in milliseconds as whole seconds, truncated toward zero.
pub open spec fn whole_seconds(ms: int) -> int {
    if ms >= 0 {
        ms / 1000
    } else {
        -((-ms) / 1000)
    }
}

/// The seconds handed to chrono for a time in milliseconds: the time
/// truncated toward zero to whole seconds; none without a time.
pub fn timestamp_secs(ts_ms: Option<i64>) -> (res: Option<i64>)
    ensures
        res is Some <==> ts_ms is Some,
        ts_ms is Some ==> res->0 as int == whole_seconds(ts_ms->0 as int),
{
    match ts_ms {
        Some(ms) => Some(ms / 1000),
        None => None,
    }
}

/// The date shown for a time: the date chrono gave for its seconds, or
/// today's date when it gave none (no time, or a time out of its range).
pub fn date_or_today(converted: Option<String>, today: String) -> (res: String)
    ensures
        res@ == match converted {
            Some(d) => d@,
            None => today@,
        },
{
    match converted {
        Some(d) => d,
        None => today,
    }
}

/// The local calendar date (`%Y-%m-%d`) of a time in milliseconds (truncated
/// to whole seconds), or today's date when there is no time or it is out of
/// range.
pub fn date_str(ts_ms: Option<i64>) -> (res: String)
    ensures
        calendar_date_text(res@),
{
    let today = local_date_today();
    let converted = match timestamp_secs(ts_ms) {
        Some(secs) => local_date_of_secs(secs),
        None => None,
    };
    date_or_today(converted, today)
}

/// The texts of a list of strings.
pub open spec fn texts(items: Seq<String>) -> Seq<Seq<char>> {
    items.map_values(|s: String| s@)
}

/// A log row of the account `id` dated `today` (its date being `date`).
pub open spec fn row_of_today(row: JsonV, date: Seq<char>, id: Seq<char>, today: Seq<char>) -> bool {
    as_text(field(row, "accountId"@)) == Some(id) && date == today
}

/// The `result` text of the latest log row of account `id` dated `today`;
/// `dates[k]` is the date of `logs[k]`.
pub open spec fn latest_today_result(logs: Seq<JsonV>, dates: Seq<Seq<char>>, id: Seq<char>, today: Seq<char>) -> Option<Seq<char>>
    decreases logs.len(),
{
    if logs.len() == 0 || dates.len() == 0 {
        None
    } else if row_of_today(logs.last(), dates.last(), id, today) {
        as_text(field(logs.last(), "result"@))
    } else {
        latest_today_result(logs.drop_last(), dates.drop_last(), id, today)
    }
}

/// The account's latest log row of today says `success` or `already`.
pub open spec fn account_checked_in(account: JsonV, logs: Seq<JsonV>, dates: Seq<Seq<char>>, today: Seq<char>) -> bool {
    match as_text(field(account, "id"@)) {
        Some(id) => match latest_today_result(logs, dates, id, today) {
            Some(r) => r == "success"@ || r == "already"@,
            None => false,
        },
        None => false,
    }
}

/// Every account whose edition has check-in checked in today. An empty account
/// list is not (so the tray keeps offering a check-in); a list in which no
/// edition has check-in is.
pub open spec fn checked_in_today(accounts: Seq<JsonV>, logs: Seq<JsonV>, dates: Seq<Seq<char>>, today: Seq<char>) -> bool {
    &&& accounts.len() > 0
    &&& forall|i: int|
        0 <= i < accounts.len() && variant_supports_checkin(account_variant(accounts[i]))
            ==> account_checked_in(#[trigger] accounts[i], logs, dates, today)
}

/// The result of the latest log row of account `id` dated `today`.
pub fn latest_today_result_of<'a>(logs: &'a Vec<Json>, dates: &Vec<String>, id: &str, today: &str) -> (res: Option<&'a str>)
    requires
        logs@.len() == dates@.len(),
    ensures
        opt_text(res) == latest_today_result(items_view(logs@), texts(dates@), id@, today@),
{
    let mut i: usize = logs.len();
    assert(items_view(logs@).take(i as int) =~= items_view(logs@));
    assert(texts(dates@).take(i as int) =~= texts(dates@));
    while i > 0
        invariant
            i <= logs@.len(),
            logs@.len() == dates@.len(),
            latest_today_result(items_view(logs@), texts(dates@), id@, today@) == latest_today_result(
                items_view(logs@).take(i as int),
                texts(dates@).take(i as int),
                id@,
                today@,
            ),
        decreases i,
    {
        let k = i - 1;
        let ghost lt = items_view(logs@).take(i as int);
        let ghost dt = texts(dates@).take(i as int);
        assert(lt.last() == logs@[k as int]@);
        assert(dt.last() == dates@[k as int]@);
        assert(lt.drop_last() =~= items_view(logs@).take(k as int));
        assert(dt.drop_last() =~= texts(dates@).take(k as int));
        let row = &logs[k];
        let same_account = match row.get("accountId") {
            Some(v) => match v.as_str() {
                Some(a) => text_eq(a, id),
                None => false,
            },
            None => false,
        };
        if same_account && text_eq(dates[k].as_str(), today) {
            return match row.get("result") {
                Some(v) => v.as_str(),
                None => None,
            };
        }
        i = k;
    }
    None
}

/// Whether every account whose edition has check-in checked in today, given the
/// date of each log row (`dates[k]` is the date of `logs[k]`).
pub fn accounts_checked_in_today_on(accounts: &Vec<Json>, logs: &Vec<Json>, dates: &Vec<String>, today: &str) -> (res: bool)
    requires
        logs@.len() == dates@.len(),
    ensures
        res == checked_in_today(items_view(accounts@), items_view(logs@), texts(dates@), today@),
{
    if accounts.len() == 0 {
        return false;
    }
    let mut i: usize = 0;
    while i < accounts.len()
        invariant
            i <= accounts@.len(),
            logs@.len() == dates@.len(),
            forall|j: int|
                0 <= j < i && variant_supports_checkin(account_variant(items_view(accounts@)[j]))
                    ==> account_checked_in(
                    #[trigger] items_view(accounts@)[j],
                    items_view(logs@),
                    texts(dates@),
                    today@,
                ),
        decreases accounts@.len() - i,
    {
        let account = &accounts[i];
        assert(items_view(accounts@)[i as int] == account@);
        if variant_of(account).supports_checkin() {
            let done = match account.get("id") {
                Some(v) => match v.as_str() {
                    Some(id) => match latest_today_result_of(logs, dates, id, today) {
                        Some(r) => text_eq(r, "success") || text_eq(r, "already"),
                        None => false,
                    },
                    None => false,
                },
                None => false,
            };
            if !done {
                return false;
            }
        }
        i = i + 1;
    }
    true
}

/// The time of a log row, in milliseconds: its `ts` as an integer.
pub open spec fn log_time(row: JsonV) -> Option<int> {
    as_int(field(row, "ts"@))
}

/// The time of a log row, in milliseconds.
pub fn log_ts(row: &Json) -> (res: Option<i64>)
    ensures
        res is Some <==> log_time(row@) is Some,
        res is Some ==> log_time(row@) == Some(res->0 as int),
{
    match row.get("ts") {
        Some(v) => v.as_i64(),
        None => None,
    }
}

/// The time of a log row as `date_str` takes it.
pub open spec fn log_ts_arg(row: JsonV) -> Option<i64> {
    match log_time(row) {
        Some(t) => Some(t as i64),
        None => None,
    }
}

/// `date` is a text that `date_str` can return for the time `ts`.
pub open spec fn date_str_gives(ts: Option<i64>, date: String) -> bool {
    call_ensures(date_str, (ts,), date)
}

/// Every date of a list is a `%Y-%m-%d` calendar date.
pub open spec fn all_calendar_dates(dates: Seq<Seq<char>>) -> bool {
    forall|i: int| 0 <= i < dates.len() ==> calendar_date_text(#[trigger] dates[i])
}

/// The local date of each log row, from its `ts` (`date_str` of the row's
/// time; today's date for a row without an integer `ts`).
pub fn log_dates(logs: &Vec<Json>) -> (res: Vec<String>)
    ensures
        res@.len() == logs@.len(),
        all_calendar_dates(texts(res@)),
        forall|k: int| 0 <= k < logs@.len() ==> date_str_gives(log_ts_arg(logs@[k]@), #[trigger] res@[k]),
{
    let mut out: Vec<String> = Vec::new();
    let mut i: usize = 0;
    while i < logs.len()
        invariant
            i <= logs@.len(),
            out@.len() == i,
            all_calendar_dates(texts(out@)),
            forall|k: int| 0 <= k < i ==> date_str_gives(log_ts_arg(logs@[k]@), #[trigger] out@[k]),
        decreases logs@.len() - i,
    {
        let ts = log_ts(&logs[i]);
        assert(ts == log_ts_arg(logs@[i as int]@));
        // Called through a function value, so that the proof keeps that `d`
        // is what `date_str` gave for this row's own time.
        let dating = date_str;
        let d = dating(ts);
        let ghost before = out@;
        out.push(d);
        assert(texts(out@) =~= texts(before).push(d@));
        i = i + 1;
    }
    out
}

/// Whether every account whose edition has check-in has a log row of `today`
/// with a `success` or `already` result, the date of each row being its local
/// date (`log_dates`). An empty account list gives false; a non-empty list in
/// which no edition has check-in gives true.
pub fn accounts_checked_in_today(accounts: &Vec<Json>, logs: &Vec<Json>, today: &str) -> (res: bool)
    ensures
        exists|dates: Seq<Seq<char>>|
            dates.len() == logs@.len() && all_calendar_dates(dates) && res == checked_in_today(
                items_view(accounts@),
                items_view(logs@),
                dates,
                today@,
            ),
        exists|dates: Seq<String>|
            dates.len() == logs@.len() && (forall|k: int|
                0 <= k < logs@.len() ==> date_str_gives(log_ts_arg(logs@[k]@), #[trigger] dates[k]))
                && res == checked_in_today(items_view(accounts@), items_view(logs@), texts(dates), today@),
{
    let dates = log_dates(logs);
    let res = accounts_checked_in_today_on(accounts, logs, &dates, today);
    assert(texts(dates@).len() == logs@.len());
    res
}

/// Whether every stored account whose edition has check-in checked in today
/// (today being the local date now, `date_str(None)`).
pub fn all_accounts_checked_in_today(accounts: &Vec<Json>, logs: &Vec<Json>) -> (res: bool)
    ensures
        exists|dates: Seq<Seq<char>>, today: Seq<char>|
            dates.len() == logs@.len() && all_calendar_dates(dates) && calendar_date_text(today)
                && res == checked_in_today(items_view(accounts@), items_view(logs@), dates, today),
        exists|dates: Seq<String>, today: String|
            dates.len() == logs@.len() && date_str_gives(None, today) && (forall|k: int|
                0 <= k < logs@.len() ==> date_str_gives(log_ts_arg(logs@[k]@), #[trigger] dates[k]))
                && res == checked_in_today(items_view(accounts@), items_view(logs@), texts(dates), today@),
{
    let dating = date_str;
    let today = dating(None);
    let res = accounts_checked_in_today(accounts, logs, today.as_str());
    assert(calendar_date_text(today@));
    res
}

/// The edition of the last account whose `id` is `id` (later accounts
/// override earlier ones with the same id).
pub open spec fn known_variant(accounts: Seq<JsonV>, id: Seq<char>) -> Option<WbVariant>
    decreases accounts.len(),
{
    if accounts.len() == 0 {
        None
    } else if as_text(field(accounts.last(), "id"@)) == Some(id) {
        Some(account_variant(accounts.last()))
    } else {
        known_variant(accounts.drop_last(), id)
    }
}

/// The edition name given to a log row without one: that of its account in
/// the account list, else the domestic edition.
pub open spec fn fallback_variant(row: JsonV, accounts: Seq<JsonV>) -> Seq<char> {
    match as_text(field(row, "accountId"@)) {
        Some(id) => match known_variant(accounts, id) {
            Some(v) => variant_name(v),
            None => variant_name(WbVariant::Cn),
        },
        None => variant_name(WbVariant::Cn),
    }
}

/// `row[key] = value`, for an object or `null` (which becomes an object).
pub open spec fn with_field(row: JsonV, key: Seq<char>, value: JsonV) -> JsonV {
    match row {
        JsonV::Object(fields) => JsonV::Object(set_field(fields, key, value)),
        _ => JsonV::Object(seq![(key, value)]),
    }
}

/// A log row tagged with its edition: a row with a `variant` text is kept as
/// it is; any other gets `variant` set to its fallback edition.
pub open spec fn tagged_row(row: JsonV, accounts: Seq<JsonV>) -> JsonV {
    if as_text(field(row, "variant"@)) is Some {
        row
    } else {
        with_field(row, "variant"@, JsonV::Str(fallback_variant(row, accounts)))
    }
}

/// A log row can be tagged: it is an object or `null`.
pub open spec fn taggable(row: JsonV) -> bool {
    row is Object || row is Null
}

/// The edition of the last account with the given id.
pub fn known_variant_of(accounts: &Vec<Json>, id: &str) -> (res: Option<WbVariant>)
    ensures
        res == known_variant(items_view(accounts@), id@),
{
    let mut i: usize = accounts.len();
    assert(items_view(accounts@).take(i as int) =~= items_view(accounts@));
    while i > 0
        invariant
            i <= accounts@.len(),
            known_variant(items_view(accounts@), id@) == known_variant(
                items_view(accounts@).take(i as int),
                id@,
            ),
        decreases i,
    {
        let k = i - 1;
        let ghost t = items_view(accounts@).take(i as int);
        assert(t.last() == accounts@[k as int]@);
        assert(t.drop_last() =~= items_view(accounts@).take(k as int));
        let same = match accounts[k].get("id") {
            Some(v) => match v.as_str() {
                Some(a) => text_eq(a, id),
                None => false,
            },
            None => false,
        };
        if same {
            return Some(variant_of(&accounts[k]));
        }
        i = k;
    }
    None
}

/// Sets a field of an object or `null`.
pub fn set_field_of(row: &Json, key: &str, value: Json) -> (res: Json)
    requires
        taggable(row@),
    ensures
        res@ == with_field(row@, key@, value@),
{
    match row {
        Json::Object(fields) => {
            assert(row@ == JsonV::Object(crate::json::fields_view(fields@))) by {
                if let JsonV::Object(f) = row@ {
                    assert(f =~= crate::json::fields_view(fields@));
                }
            }
            crate::json::object(crate::json::fields_with(fields, key, value))
        },
        _ => {
            let ghost vv = value@;
            let fields = vec![(key.to_owned(), value)];
            assert(crate::json::fields_view(fields@) =~= seq![(key@, vv)]);
            crate::json::object(fields)
        },
    }
}

/// Tags one log row with its edition.
pub fn tag_row(row: &Json, accounts: &Vec<Json>) -> (res: Json)
    requires
        taggable(row@),
    ensures
        res@ == tagged_row(row@, items_view(accounts@)),
{
    let has_variant = match row.get("variant") {
        Some(v) => v.as_str().is_some(),
        None => false,
    };
    if has_variant {
        return row.deep_clone();
    }
    let fallback: &str = match row.get("accountId") {
        Some(v) => match v.as_str() {
            Some(id) => match known_variant_of(accounts, id) {
                Some(k) => k.as_str(),
                None => WbVariant::Cn.as_str(),
            },
            None => WbVariant::Cn.as_str(),
        },
        None => WbVariant::Cn.as_str(),
    };
    set_field_of(row, "variant", Json::text(fallback))
}

/// The log rows, each tagged with its edition, in order.
pub fn checkin_logs_with_variant(logs: &Vec<Json>, accounts: &Vec<Json>) -> (res: Vec<Json>)
    requires
        forall|i: int| 0 <= i < logs@.len() ==> taggable(#[trigger] logs@[i]@),
    ensures
        res@.len() == logs@.len(),
        forall|i: int|
            0 <= i < logs@.len() ==> (#[trigger] res@[i])@ == tagged_row(
                logs@[i]@,
                items_view(accounts@),
            ),
{
    let mut out: Vec<Json> = Vec::new();
    let mut i: usize = 0;
    while i < logs.len()
        invariant
            i <= logs@.len(),
            out@.len() == i,
            forall|j: int| 0 <= j < logs@.len() ==> taggable(#[trigger] logs@[j]@),
            forall|j: int|
                0 <= j < i ==> (#[trigger] out@[j])@ == tagged_row(logs@[j]@, items_view(accounts@)),
        decreases logs@.len() - i,
    {
        out.push(tag_row(&logs[i], accounts));
        i = i + 1;
    }
    out
}

} // verus!

use vstd::prelude::*;

use time::format_description::well_known::Rfc3339;
use time::{OffsetDateTime, UtcOffset};

use crate::storage_error::{StorageErrorCode, StorageOperation, StorageServiceError};
use crate::storage_rules::{decimal, push_decimal};
use crate::storage_types::{job_status_name, ListIndexedJobsOptions};
use crate::text::{chars_of, trim_chars, trim_spec};

verus! {

/// The checks of a job summary that the index stores, besides its progress:
/// non-blank identities and timestamps and an attempt of at least one.
pub open spec fn job_fields_valid(
    job_id: Seq<char>,
    stage_run_id: Seq<char>,
    stage_id: Seq<char>,
    attempt: u32,
    created_at: Seq<char>,
    updated_at: Seq<char>,
) -> bool {
    &&& trim_spec(job_id).len() > 0
    &&& trim_spec(stage_run_id).len() > 0
    &&& trim_spec(stage_id).len() > 0
    &&& attempt > 0
    &&& trim_spec(created_at).len() > 0
    &&& trim_spec(updated_at).len() > 0
}

/// Whether the trimmed text is empty.
fn blank(value: &str) -> (result: bool)
    ensures
        result == (trim_spec(value@).len() == 0),
{
    trim_chars(&chars_of(value)).len() == 0
}

/// Checks a job summary before it is stored; `progress_in_range` says
/// whether its progress is a finite number between 0 and 1.
pub fn validate_job_upsert(
    job_id: &str,
    stage_run_id: &str,
    stage_id: &str,
    attempt: u32,
    progress_in_range: bool,
    created_at: &str,
    updated_at: &str,
    operation: StorageOperation,
) -> (result: Result<(), StorageServiceError>)
    ensures
        result is Ok <==> progress_in_range && job_fields_valid(
            job_id@,
            stage_run_id@,
            stage_id@,
            attempt,
            created_at@,
            updated_at@,
        ),
        result matches Err(error) ==> {
            &&& error.code == StorageErrorCode::InvalidRequest
            &&& error.operation == operation
            &&& error.message@ == "任务摘要字段不完整或 progress/attempt 越界。"@
        },
{
    if blank(job_id) || blank(stage_run_id) || blank(stage_id) || attempt == 0 || !progress_in_range
        || blank(created_at) || blank(updated_at) {
        return Err(
            StorageServiceError::new(
                StorageErrorCode::InvalidRequest,
                operation,
                "任务摘要字段不完整或 progress/attempt 越界。",
            ),
        );
    }
    Ok(())
}

/// A time's calendar fields in UTC: year, month, day, hour, minute, second
/// and nanosecond.
pub type UtcFields = (i32, u8, u8, u8, u8, u8, u32);

/// The UTC fields of an RFC 3339 time as the `time` crate reads it: `None`
/// when the text does not parse, `Some(None)` when the time has no UTC
/// equivalent in the supported range.
pub uninterp spec fn rfc3339_utc_fields(value: Seq<char>) -> Option<Option<UtcFields>>;

/// `time::OffsetDateTime::parse` with the RFC 3339 description, then
/// `checked_to_offset` to UTC and the field getters. The contract claims only
/// that the outcome is the named function of the text; the parse error's
/// description is passed on unstated.
#[verifier::external_body]
fn parse_rfc3339_utc(value: &str) -> (parsed: Result<Option<UtcFields>, String>)
    ensures
        parsed matches Ok(fields) ==> rfc3339_utc_fields(value@) == Some(fields),
        parsed is Err ==> rfc3339_utc_fields(value@) is None,
{
    match OffsetDateTime::parse(value, &Rfc3339) {
        Ok(time) => Ok(time.checked_to_offset(UtcOffset::UTC).map(|utc| {
            (utc.year(), u8::from(utc.month()), utc.day(), utc.hour(), utc.minute(), utc.second(), utc.nanosecond())
        })),
        Err(error) => Err(error.to_string()),
    }
}

/// The decimal digits of `n`, left-padded with zeros to `width`.
pub open spec fn zero_padded(n: nat, width: nat) -> Seq<char> {
    let digits = decimal(n);
    if digits.len() >= width {
        digits
    } else {
        Seq::new((width - digits.len()) as nat, |i: int| '0') + digits
    }
}

/// A signed number padded to `width` as Rust's `{:0width}` writes it: a
/// minus sign first, counted in the width.
pub open spec fn signed_padded(n: int, width: nat) -> Seq<char> {
    if n < 0 {
        "-"@ + zero_padded((-n) as nat, if width > 0 { (width - 1) as nat } else { 0 })
    } else {
        zero_padded(n as nat, width)
    }
}

/// The canonical text of a UTC time: `YYYY-MM-DDTHH:MM:SS.nnnnnnnnnZ`.
pub open spec fn utc_timestamp_text(fields: UtcFields) -> Seq<char> {
    signed_padded(fields.0 as int, 4) + "-"@ + zero_padded(fields.1 as nat, 2) + "-"@ + zero_padded(
        fields.2 as nat,
        2,
    ) + "T"@ + zero_padded(fields.3 as nat, 2) + ":"@ + zero_padded(fields.4 as nat, 2) + ":"@
        + zero_padded(fields.5 as nat, 2) + "."@ + zero_padded(fields.6 as nat, 9) + "Z"@
}

/// Appends `n` padded with zeros to `width`.
fn push_zero_padded(text: &mut String, n: u64, width: usize)
    ensures
        final(text)@ == old(text)@ + zero_padded(n as nat, width as nat),
{
    let mut digits = String::new();
    push_decimal(&mut digits, n);
    let count = chars_of(digits.as_str()).len();
    let ghost start = text@;
    proof {
        reveal_strlit("0");
    }
    if count < width {
        let mut k: usize = 0;
        while k < width - count
            invariant
                count < width,
                0 <= k <= width - count,
                text@ == start + Seq::new(k as nat, |i: int| '0'),
            decreases width - count - k,
        {
            text.append("0");
            proof {
                reveal_strlit("0");
            }
            assert(text@ =~= start + Seq::new((k + 1) as nat, |i: int| '0'));
            k = k + 1;
        }
    }
    text.append(digits.as_str());
    proof {
        assert(digits@ =~= Seq::<char>::empty() + decimal(n as nat));
        if count >= width {
            assert(text@ =~= start + decimal(n as nat));
        }
    }
}

/// The canonical text of UTC time fields (see [`utc_timestamp_text`]).
pub fn format_utc_timestamp(fields: UtcFields) -> (text: String)
    ensures
        text@ == utc_timestamp_text(fields),
{
    let mut text = String::new();
    let year = fields.0;
    if year < 0 {
        text.append("-");
        let magnitude: u64 = if year == i32::MIN {
            2147483648u64
        } else {
            (-year) as u64
        };
        push_zero_padded(&mut text, magnitude, 3);
    } else {
        push_zero_padded(&mut text, year as u64, 4);
    }
    text.append("-");
    push_zero_padded(&mut text, fields.1 as u64, 2);
    text.append("-");
    push_zero_padded(&mut text, fields.2 as u64, 2);
    text.append("T");
    push_zero_padded(&mut text, fields.3 as u64, 2);
    text.append(":");
    push_zero_padded(&mut text, fields.4 as u64, 2);
    text.append(":");
    push_zero_padded(&mut text, fields.5 as u64, 2);
    text.append(".");
    push_zero_padded(&mut text, fields.6 as u64, 9);
    text.append("Z");
    proof {
        reveal_strlit("-");
        assert(text@ =~= utc_timestamp_text(fields));
    }
    text
}

/// A job summary timestamp in canonical UTC form; refused when it is not an
/// RFC 3339 time (or has no UTC equivalent in the supported range).
pub fn canonical_job_timestamp(value: &str, field_name: &str, operation: StorageOperation) -> (result:
    Result<String, StorageServiceError>)
    ensures
        result is Ok <==> rfc3339_utc_fields(value@) matches Some(Some(_)),
        result matches Ok(text) ==> rfc3339_utc_fields(value@) matches Some(Some(fields))
            && text@ == utc_timestamp_text(fields),
        result matches Err(error) ==> {
            &&& error.code == StorageErrorCode::InvalidRequest
            &&& error.operation == operation
            &&& crate::identifiers::has_prefix(error.message@, "任务摘要 "@ + field_name@ + " 不是 RFC 3339 时间："@)
        },
{
    match parse_rfc3339_utc(value) {
        Ok(Some(fields)) => Ok(format_utc_timestamp(fields)),
        Ok(None) => Err(timestamp_error(field_name, "超出支持的 UTC 时间范围", operation)),
        Err(reason) => Err(timestamp_error(field_name, reason.as_str(), operation)),
    }
}

/// The refusal of a job summary timestamp that is not an RFC 3339 time.
fn timestamp_error(field_name: &str, reason: &str, operation: StorageOperation) -> (error:
    StorageServiceError)
    ensures
        error.code == StorageErrorCode::InvalidRequest,
        error.operation == operation,
        error.message@ == "任务摘要 "@ + field_name@ + " 不是 RFC 3339 时间："@ + reason@,
        crate::identifiers::has_prefix(error.message@, "任务摘要 "@ + field_name@ + " 不是 RFC 3339 时间："@),
{
    let mut message = String::from_str("任务摘要 ");
    message.append(field_name);
    message.append(" 不是 RFC 3339 时间：");
    message.append(reason);
    proof {
        let prefix = "任务摘要 "@ + field_name@ + " 不是 RFC 3339 时间："@;
        assert(message@.take(prefix.len() as int) =~= prefix);
    }
    StorageServiceError { code: StorageErrorCode::InvalidRequest, operation, message, path: None, artifact_id: None }
}


/// A value bound to a query placeholder.
#[derive(Debug, Clone, PartialEq, Eq)]
pub enum SqlValue {
    Text(String),
    Integer(i64),
}

/// The text of a bound value, if it is text.
pub open spec fn sql_text(value: SqlValue) -> Option<Seq<char>> {
    match value {
        SqlValue::Text(text) => Some(text@),
        SqlValue::Integer(_) => None,
    }
}

/// The integer of a bound value, if it is an integer.
pub open spec fn sql_integer(value: SqlValue) -> Option<i64> {
    match value {
        SqlValue::Text(_) => None,
        SqlValue::Integer(n) => Some(n),
    }
}

/// The columns and table of the job listing query.
pub const JOB_QUERY_SELECT: &'static str = "SELECT owner_project_id, job_id, stage_run_id, stage_id, status, attempt, progress, message, created_at, updated_at FROM job_summaries";

/// `n` placeholders separated by commas (one for `n` of 0 or 1).
pub open spec fn placeholders(n: nat) -> Seq<char>
    decreases n,
{
    if n <= 1 {
        "?"@
    } else {
        placeholders((n - 1) as nat) + ", ?"@
    }
}

/// The job listing query: all jobs, or those of one project, of some states,
/// or both, the most recently updated first, then by job, up to a limit.
pub open spec fn job_query_sql(has_owner: bool, status_count: nat) -> Seq<char> {
    let owner_clause = "owner_project_id = ?"@;
    let status_clause = "status IN ("@ + placeholders(status_count) + ")"@;
    let filter = if has_owner && status_count > 0 {
        " WHERE "@ + owner_clause + " AND "@ + status_clause
    } else if has_owner {
        " WHERE "@ + owner_clause
    } else if status_count > 0 {
        " WHERE "@ + status_clause
    } else {
        Seq::empty()
    };
    JOB_QUERY_SELECT@ + filter + " ORDER BY updated_at DESC, job_id ASC LIMIT ?"@
}

/// The job listing query and the values of its placeholders, in order: the
/// project, the state names, the limit.
pub fn build_job_query(options: &ListIndexedJobsOptions) -> (query: (String, Vec<SqlValue>))
    ensures
        query.0@ == job_query_sql(options.owner_project_id is Some, options.statuses@.len()),
        ({
            let values = query.1@;
            let k: int = if options.owner_project_id is Some { 1 } else { 0 };
            let n = options.statuses@.len() as int;
            &&& values.len() == k + n + 1
            &&& options.owner_project_id matches Some(owner) ==> sql_text(values[0]) == Some(owner@)
            &&& forall|i: int|
                0 <= i < n ==> sql_text(#[trigger] values[k + i]) == Some(
                    job_status_name(options.statuses@[i]),
                )
            &&& sql_integer(values[k + n]) == Some(options.limit as i64)
        }),
{
    let mut sql = String::from_str(JOB_QUERY_SELECT);
    let mut values: Vec<SqlValue> = Vec::new();
    let has_owner = options.owner_project_id.is_some();
    let n = options.statuses.len();
    if has_owner || n > 0 {
        sql.append(" WHERE ");
    }
    if let Some(owner) = &options.owner_project_id {
        sql.append("owner_project_id = ?");
        values.push(SqlValue::Text(owner.clone()));
    }
    let k = values.len();
    if n > 0 {
        if has_owner {
            sql.append(" AND ");
        }
        let ghost head = sql@;
        sql.append("status IN (");
        sql.append("?");
        let mut j: usize = 1;
        while j < n
            invariant
                1 <= j <= n,
                sql@ == head + "status IN ("@ + placeholders(j as nat),
            decreases n - j,
        {
            let ghost before = sql@;
            sql.append(", ?");
            assert(placeholders((j + 1) as nat) == placeholders(j as nat) + ", ?"@);
            assert(sql@ =~= head + "status IN ("@ + placeholders((j + 1) as nat));
            j = j + 1;
        }
        sql.append(")");
    }
    let mut i: usize = 0;
    while i < n
        invariant
            0 <= i <= n,
            n == options.statuses@.len(),
            k as int == if options.owner_project_id is Some { 1int } else { 0int },
            values@.len() == k + i,
            options.owner_project_id matches Some(owner) ==> sql_text(values@[0]) == Some(owner@),
            forall|q: int|
                0 <= q < i ==> sql_text(#[trigger] values@[k + q]) == Some(
                    job_status_name(options.statuses@[q]),
                ),
        decreases n - i,
    {
        let name = options.statuses[i].as_str();
        values.push(SqlValue::Text(name.to_owned()));
        i = i + 1;
    }
    sql.append(" ORDER BY updated_at DESC, job_id ASC LIMIT ?");
    values.push(SqlValue::Integer(options.limit as i64));
    assert(sql@ =~= job_query_sql(has_owner, n as nat));
    (sql, values)
}

} // verus!

//! The execution envelope: the service's answer about one execution of a
//! query, and how it is read from a JSON document.
//!
//! Decoding asks that every declared field is there and has its type, and
//! nothing more. Members that are not declared are passed over. The state is
//! kept as the text that the service sent.

use vstd::prelude::*;
use serde_json::Value;
use crate::error::DuneError;
use crate::json::{
    boolean, copy, is_null, items, json_bool, json_document, json_i64, json_is_null, json_items,
    json_member, json_text, json_u64, member, parse, signed, text, unsigned,
};

verus! {

/// Counters and column descriptions of a result.
#[derive(Debug)]
pub struct Metadata {
    pub column_names: Vec<String>,
    pub column_types: Vec<String>,
    pub row_count: usize,
    pub result_set_bytes: usize,
    pub total_row_count: usize,
    pub total_result_set_bytes: usize,
    pub datapoint_count: usize,
    pub pending_time_millis: i64,
    pub execution_time_millis: i64,
}

/// The rows of a completed execution, in the service's order, and their
/// metadata.
#[derive(Debug)]
pub struct ResultData {
    pub rows: Vec<Value>,
    pub metadata: Metadata,
}

/// One snapshot of a remote execution.
#[derive(Debug)]
pub struct ExecutionInfo {
    pub execution_id: String,
    pub query_id: u64,
    pub is_execution_finished: bool,
    pub state: String,
    pub submitted_at: String,
    pub expires_at: String,
    pub execution_started_at: String,
    pub execution_ended_at: String,
    pub result: Option<ResultData>,
}

/// What `Metadata` holds, as mathematical values.
pub struct MetadataView {
    pub column_names: Seq<Seq<char>>,
    pub column_types: Seq<Seq<char>>,
    pub row_count: usize,
    pub result_set_bytes: usize,
    pub total_row_count: usize,
    pub total_result_set_bytes: usize,
    pub datapoint_count: usize,
    pub pending_time_millis: i64,
    pub execution_time_millis: i64,
}

/// What `ResultData` holds, as mathematical values.
pub struct ResultView {
    pub rows: Seq<Value>,
    pub metadata: MetadataView,
}

/// What `ExecutionInfo` holds, as mathematical values.
pub struct EnvelopeView {
    pub execution_id: Seq<char>,
    pub query_id: u64,
    pub is_execution_finished: bool,
    pub state: Seq<char>,
    pub submitted_at: Seq<char>,
    pub expires_at: Seq<char>,
    pub execution_started_at: Seq<char>,
    pub execution_ended_at: Seq<char>,
    pub result: Option<ResultView>,
}

impl View for Metadata {
    type V = MetadataView;

    open spec fn view(&self) -> MetadataView {
        MetadataView {
            column_names: self.column_names.deep_view(),
            column_types: self.column_types.deep_view(),
            row_count: self.row_count,
            result_set_bytes: self.result_set_bytes,
            total_row_count: self.total_row_count,
            total_result_set_bytes: self.total_result_set_bytes,
            datapoint_count: self.datapoint_count,
            pending_time_millis: self.pending_time_millis,
            execution_time_millis: self.execution_time_millis,
        }
    }
}

impl View for ResultData {
    type V = ResultView;

    open spec fn view(&self) -> ResultView {
        ResultView { rows: self.rows@, metadata: self.metadata@ }
    }
}

impl View for ExecutionInfo {
    type V = EnvelopeView;

    open spec fn view(&self) -> EnvelopeView {
        EnvelopeView {
            execution_id: self.execution_id@,
            query_id: self.query_id,
            is_execution_finished: self.is_execution_finished,
            state: self.state@,
            submitted_at: self.submitted_at@,
            expires_at: self.expires_at@,
            execution_started_at: self.execution_started_at@,
            execution_ended_at: self.execution_ended_at@,
            result: match self.result {
                Some(data) => Some(data@),
                None => None,
            },
        }
    }
}

/// The text of the member under `key`, where there is one and it is a string.
pub open spec fn member_text(value: Value, key: Seq<char>) -> Option<Seq<char>> {
    match json_member(value, key) {
        Some(found) => json_text(found),
        None => None,
    }
}

/// The number of the member under `key`, where it fits a `u64`.
pub open spec fn member_u64(value: Value, key: Seq<char>) -> Option<u64> {
    match json_member(value, key) {
        Some(found) => json_u64(found),
        None => None,
    }
}

/// The number of the member under `key`, where it fits a `usize`.
pub open spec fn member_usize(value: Value, key: Seq<char>) -> Option<usize> {
    match member_u64(value, key) {
        Some(n) => if n <= usize::MAX {
            Some(n as usize)
        } else {
            None
        },
        None => None,
    }
}

/// The number of the member under `key`, where it fits an `i64`.
pub open spec fn member_i64(value: Value, key: Seq<char>) -> Option<i64> {
    match json_member(value, key) {
        Some(found) => json_i64(found),
        None => None,
    }
}

/// The truth value of the member under `key`, where it is a boolean.
pub open spec fn member_bool(value: Value, key: Seq<char>) -> Option<bool> {
    match json_member(value, key) {
        Some(found) => json_bool(found),
        None => None,
    }
}

/// The elements of the member under `key`, where it is an array.
pub open spec fn member_items(value: Value, key: Seq<char>) -> Option<Seq<Value>> {
    match json_member(value, key) {
        Some(found) => json_items(found),
        None => None,
    }
}

/// The texts of a sequence of values, where each of them is a string.
pub open spec fn texts_of(items: Seq<Value>) -> Option<Seq<Seq<char>>> {
    if forall|i: int| 0 <= i < items.len() ==> (#[trigger] json_text(items[i])).is_some() {
        Some(Seq::new(items.len(), |i: int| json_text(items[i]).unwrap()))
    } else {
        None
    }
}

/// The texts of the member under `key`, where it is an array of strings.
pub open spec fn member_texts(value: Value, key: Seq<char>) -> Option<Seq<Seq<char>>> {
    match member_items(value, key) {
        Some(items) => texts_of(items),
        None => None,
    }
}

/// The metadata that a value holds: all nine members, each of its type.
pub open spec fn metadata_of(value: Value) -> Option<MetadataView> {
    if member_texts(value, "column_names"@).is_some()
        && member_texts(value, "column_types"@).is_some()
        && member_usize(value, "row_count"@).is_some()
        && member_usize(value, "result_set_bytes"@).is_some()
        && member_usize(value, "total_row_count"@).is_some()
        && member_usize(value, "total_result_set_bytes"@).is_some()
        && member_usize(value, "datapoint_count"@).is_some()
        && member_i64(value, "pending_time_millis"@).is_some()
        && member_i64(value, "execution_time_millis"@).is_some() {
        Some(
            MetadataView {
                column_names: member_texts(value, "column_names"@).unwrap(),
                column_types: member_texts(value, "column_types"@).unwrap(),
                row_count: member_usize(value, "row_count"@).unwrap(),
                result_set_bytes: member_usize(value, "result_set_bytes"@).unwrap(),
                total_row_count: member_usize(value, "total_row_count"@).unwrap(),
                total_result_set_bytes: member_usize(value, "total_result_set_bytes"@).unwrap(),
                datapoint_count: member_usize(value, "datapoint_count"@).unwrap(),
                pending_time_millis: member_i64(value, "pending_time_millis"@).unwrap(),
                execution_time_millis: member_i64(value, "execution_time_millis"@).unwrap(),
            },
        )
    } else {
        None
    }
}

/// The result that a value holds: an array `rows`, taken as it is, and
/// `metadata`.
pub open spec fn result_of(value: Value) -> Option<ResultView> {
    match (member_items(value, "rows"@), json_member(value, "metadata"@)) {
        (Some(rows), Some(found)) => match metadata_of(found) {
            Some(metadata) => Some(ResultView { rows, metadata }),
            None => None,
        },
        _ => None,
    }
}

/// Whether a value has no member `result`, or `null` for it.
pub open spec fn result_absent(value: Value) -> bool {
    match json_member(value, "result"@) {
        Some(found) => json_is_null(found),
        None => true,
    }
}

/// Whether the member `result` of a value is absent or a well-formed result.
pub open spec fn result_acceptable(value: Value) -> bool {
    result_absent(value) || result_of(json_member(value, "result"@).unwrap()).is_some()
}

/// The envelope that a value holds: the eight required members, each of its
/// type, and a `result` that is absent, `null` or well formed.
pub open spec fn envelope_of(value: Value) -> Option<EnvelopeView> {
    if member_text(value, "execution_id"@).is_some()
        && member_u64(value, "query_id"@).is_some()
        && member_bool(value, "is_execution_finished"@).is_some()
        && member_text(value, "state"@).is_some()
        && member_text(value, "submitted_at"@).is_some()
        && member_text(value, "expires_at"@).is_some()
        && member_text(value, "execution_started_at"@).is_some()
        && member_text(value, "execution_ended_at"@).is_some()
        && result_acceptable(value) {
        Some(
            EnvelopeView {
                execution_id: member_text(value, "execution_id"@).unwrap(),
                query_id: member_u64(value, "query_id"@).unwrap(),
                is_execution_finished: member_bool(value, "is_execution_finished"@).unwrap(),
                state: member_text(value, "state"@).unwrap(),
                submitted_at: member_text(value, "submitted_at"@).unwrap(),
                expires_at: member_text(value, "expires_at"@).unwrap(),
                execution_started_at: member_text(value, "execution_started_at"@).unwrap(),
                execution_ended_at: member_text(value, "execution_ended_at"@).unwrap(),
                result: if result_absent(value) {
                    None
                } else {
                    result_of(json_member(value, "result"@).unwrap())
                },
            },
        )
    } else {
        None
    }
}

/// The envelope that a response body holds.
pub open spec fn decode_of(body: Seq<char>) -> Option<EnvelopeView> {
    match json_document(body) {
        Some(value) => envelope_of(value),
        None => None,
    }
}

fn read_text(value: &Value, key: &str) -> (r: Option<String>)
    ensures
        match r {
            Some(found) => member_text(*value, key@) == Some(found@),
            None => member_text(*value, key@).is_none(),
        },
{
    match member(value, key) {
        Some(found) => match text(found) {
            Some(s) => Some(s.to_owned()),
            None => None,
        },
        None => None,
    }
}

fn read_u64(value: &Value, key: &str) -> (r: Option<u64>)
    ensures
        r == member_u64(*value, key@),
{
    match member(value, key) {
        Some(found) => unsigned(found),
        None => None,
    }
}

fn read_usize(value: &Value, key: &str) -> (r: Option<usize>)
    ensures
        r == member_usize(*value, key@),
{
    match read_u64(value, key) {
        Some(n) => if n <= usize::MAX as u64 {
            Some(n as usize)
        } else {
            None
        },
        None => None,
    }
}

fn read_i64(value: &Value, key: &str) -> (r: Option<i64>)
    ensures
        r == member_i64(*value, key@),
{
    match member(value, key) {
        Some(found) => signed(found),
        None => None,
    }
}

fn read_bool(value: &Value, key: &str) -> (r: Option<bool>)
    ensures
        r == member_bool(*value, key@),
{
    match member(value, key) {
        Some(found) => boolean(found),
        None => None,
    }
}

fn read_items<'a>(value: &'a Value, key: &str) -> (r: Option<&'a Vec<Value>>)
    ensures
        match r {
            Some(found) => member_items(*value, key@) == Some(found@),
            None => member_items(*value, key@).is_none(),
        },
{
    match member(value, key) {
        Some(found) => items(found),
        None => None,
    }
}

fn read_texts(value: &Value, key: &str) -> (r: Option<Vec<String>>)
    ensures
        match r {
            Some(found) => member_texts(*value, key@) == Some(found.deep_view()),
            None => member_texts(*value, key@).is_none(),
        },
{
    let list = match read_items(value, key) {
        Some(list) => list,
        None => {
            return None;
        },
    };
    let mut out: Vec<String> = Vec::new();
    let mut i: usize = 0;
    while i < list.len()
        invariant
            i <= list.len(),
            out.len() == i,
            member_items(*value, key@) == Some(list@),
            forall|j: int| 0 <= j < i ==> json_text(list@[j]) == Some(#[trigger] out@[j]@),
        decreases list.len() - i,
    {
        match text(&list[i]) {
            Some(s) => {
                out.push(s.to_owned());
            },
            None => {
                proof {
                    assert(json_text(list@[i as int]).is_none());
                }
                return None;
            },
        }
        i += 1;
    }
    proof {
        assert forall|j: int| 0 <= j < list@.len() implies (#[trigger] json_text(
            list@[j],
        )).is_some() by {
            assert(json_text(list@[j]) == Some(out@[j]@));
        }
        assert(out.deep_view() =~= texts_of(list@).unwrap());
    }
    Some(out)
}

fn copy_rows(rows: &Vec<Value>) -> (r: Vec<Value>)
    ensures
        r@ == rows@,
{
    let mut out: Vec<Value> = Vec::new();
    let mut i: usize = 0;
    while i < rows.len()
        invariant
            i <= rows.len(),
            out.len() == i,
            forall|j: int| 0 <= j < i ==> out@[j] == rows@[j],
        decreases rows.len() - i,
    {
        out.push(copy(&rows[i]));
        i += 1;
    }
    assert(out@ =~= rows@);
    out
}

impl Metadata {
    /// Reads metadata from a JSON value.
    pub fn from_value(value: &Value) -> (r: Option<Metadata>)
        ensures
            match r {
                Some(metadata) => metadata_of(*value) == Some(metadata@),
                None => metadata_of(*value).is_none(),
            },
    {
        let column_names = read_texts(value, "column_names")?;
        let column_types = read_texts(value, "column_types")?;
        let row_count = read_usize(value, "row_count")?;
        let result_set_bytes = read_usize(value, "result_set_bytes")?;
        let total_row_count = read_usize(value, "total_row_count")?;
        let total_result_set_bytes = read_usize(value, "total_result_set_bytes")?;
        let datapoint_count = read_usize(value, "datapoint_count")?;
        let pending_time_millis = read_i64(value, "pending_time_millis")?;
        let execution_time_millis = read_i64(value, "execution_time_millis")?;
        Some(
            Metadata {
                column_names,
                column_types,
                row_count,
                result_set_bytes,
                total_row_count,
                total_result_set_bytes,
                datapoint_count,
                pending_time_millis,
                execution_time_millis,
            },
        )
    }
}

impl ResultData {
    /// Reads a result from a JSON value. The rows are copied as they are.
    pub fn from_value(value: &Value) -> (r: Option<ResultData>)
        ensures
            match r {
                Some(data) => result_of(*value) == Some(data@),
                None => result_of(*value).is_none(),
            },
    {
        let rows = read_items(value, "rows")?;
        let found = member(value, "metadata")?;
        let metadata = Metadata::from_value(found)?;
        Some(ResultData { rows: copy_rows(rows), metadata })
    }
}

impl ExecutionInfo {
    /// Reads an envelope from a JSON value.
    pub fn from_value(value: &Value) -> (r: Option<ExecutionInfo>)
        ensures
            match r {
                Some(info) => envelope_of(*value) == Some(info@),
                None => envelope_of(*value).is_none(),
            },
    {
        let execution_id = read_text(value, "execution_id")?;
        let query_id = read_u64(value, "query_id")?;
        let is_execution_finished = read_bool(value, "is_execution_finished")?;
        let state = read_text(value, "state")?;
        let submitted_at = read_text(value, "submitted_at")?;
        let expires_at = read_text(value, "expires_at")?;
        let execution_started_at = read_text(value, "execution_started_at")?;
        let execution_ended_at = read_text(value, "execution_ended_at")?;
        let result = match member(value, "result") {
            Some(found) => if is_null(found) {
                None
            } else {
                Some(ResultData::from_value(found)?)
            },
            None => None,
        };
        Some(
            ExecutionInfo {
                execution_id,
                query_id,
                is_execution_finished,
                state,
                submitted_at,
                expires_at,
                execution_started_at,
                execution_ended_at,
                result,
            },
        )
    }

    /// Decodes a response body. It fails with `Decode` exactly when the body
    /// is no JSON document or the document is no envelope.
    pub fn decode(body: &str) -> (r: Result<ExecutionInfo, DuneError>)
        ensures
            match r {
                Ok(info) => decode_of(body@) == Some(info@),
                Err(e) => e == DuneError::Decode && decode_of(body@).is_none(),
            },
    {
        match parse(body) {
            Ok(value) => match ExecutionInfo::from_value(&value) {
                Some(info) => Ok(info),
                None => Err(DuneError::Decode),
            },
            Err(_) => Err(DuneError::Decode),
        }
    }

    /// Whether the state is the one that the service gives to an execution
    /// that completed successfully.
    pub fn is_completed(&self) -> (r: bool)
        ensures
            r == completed_state(self@.state),
    {
        let completed = "QUERY_STATE_COMPLETED".to_owned();
        self.state == completed
    }
}

/// Whether a state text is that of a successfully completed execution.
pub open spec fn completed_state(state: Seq<char>) -> bool {
    state == "QUERY_STATE_COMPLETED"@
}

/// The states that the service gives to an execution that is pending,
/// running, failed, cancelled or expired are all different from the completed
/// one.
pub proof fn other_states_are_not_completed()
    ensures
        completed_state("QUERY_STATE_COMPLETED"@),
        !completed_state("QUERY_STATE_PENDING"@),
        !completed_state("QUERY_STATE_EXECUTING"@),
        !completed_state("QUERY_STATE_FAILED"@),
        !completed_state("QUERY_STATE_CANCELLED"@),
        !completed_state("QUERY_STATE_EXPIRED"@),
{
    reveal_strlit("QUERY_STATE_COMPLETED");
    reveal_strlit("QUERY_STATE_PENDING");
    reveal_strlit("QUERY_STATE_EXECUTING");
    reveal_strlit("QUERY_STATE_FAILED");
    reveal_strlit("QUERY_STATE_CANCELLED");
    reveal_strlit("QUERY_STATE_EXPIRED");
    assert("QUERY_STATE_EXECUTING"@[12] != "QUERY_STATE_COMPLETED"@[12]);
    assert("QUERY_STATE_CANCELLED"@[13] != "QUERY_STATE_COMPLETED"@[13]);
}

} // verus!

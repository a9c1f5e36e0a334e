use duners::envelope::{ExecutionInfo, Metadata, ResultData};
use duners::error::DuneError;
use serde_json::Value;

fn metadata_text() -> String {
    String::from(
        "{\"column_names\":[\"txs\",\"unique_senders_addresses\"],\
         \"column_types\":[\"double\",\"string\"],\
         \"row_count\":2,\"result_set_bytes\":32,\"total_row_count\":3,\
         \"total_result_set_bytes\":48,\"datapoint_count\":4,\
         \"pending_time_millis\":120,\"execution_time_millis\":-7}",
    )
}

fn rows_text() -> String {
    String::from(
        "[{\"txs\":0.07152323,\"unique_senders_addresses\":\"0xab\"},\
         {\"unique_senders_addresses\":null,\"txs\":2}]",
    )
}

fn envelope_text(state: &str, result: Option<&str>) -> String {
    let mut body = format!(
        "{{\"execution_id\":\"01HV\",\"query_id\":3557348,\"is_execution_finished\":true,\
         \"state\":\"{}\",\"submitted_at\":\"2024-03-25T10:00:00Z\",\
         \"expires_at\":\"2024-06-23T10:00:00Z\",\
         \"execution_started_at\":\"2024-03-25T10:00:01Z\",\
         \"execution_ended_at\":\"2024-03-25T10:00:02Z\"",
        state
    );
    if let Some(result) = result {
        body.push_str(",\"result\":");
        body.push_str(result);
    }
    body.push('}');
    body
}

fn result_text() -> String {
    format!("{{\"rows\":{},\"metadata\":{}}}", rows_text(), metadata_text())
}

fn value(text: &str) -> Value {
    serde_json::from_str::<Value>(text).unwrap()
}

#[test]
fn decode_reads_every_field() {
    let body = envelope_text("QUERY_STATE_COMPLETED", Some(&result_text()));
    let info = ExecutionInfo::decode(&body).unwrap();
    assert_eq!(info.execution_id, "01HV");
    assert_eq!(info.query_id, 3557348);
    assert!(info.is_execution_finished);
    assert_eq!(info.state, "QUERY_STATE_COMPLETED");
    assert_eq!(info.submitted_at, "2024-03-25T10:00:00Z");
    assert_eq!(info.expires_at, "2024-06-23T10:00:00Z");
    assert_eq!(info.execution_started_at, "2024-03-25T10:00:01Z");
    assert_eq!(info.execution_ended_at, "2024-03-25T10:00:02Z");
    assert!(info.is_completed());
    let data = info.result.unwrap();
    let expected: Vec<Value> = value(&rows_text()).as_array().unwrap().clone();
    assert_eq!(data.rows, expected);
    assert_eq!(data.rows[0].get("txs").unwrap().as_f64(), Some(0.07152323));
    assert_eq!(data.rows[1].get("txs").unwrap().as_u64(), Some(2));
    let m = data.metadata;
    assert_eq!(m.column_names, vec!["txs", "unique_senders_addresses"]);
    assert_eq!(m.column_types, vec!["double", "string"]);
    assert_eq!(m.row_count, 2);
    assert_eq!(m.result_set_bytes, 32);
    assert_eq!(m.total_row_count, 3);
    assert_eq!(m.total_result_set_bytes, 48);
    assert_eq!(m.datapoint_count, 4);
    assert_eq!(m.pending_time_millis, 120);
    assert_eq!(m.execution_time_millis, -7);
}

#[test]
fn decode_keeps_the_state_as_sent() {
    for state in [
        "QUERY_STATE_PENDING",
        "QUERY_STATE_EXECUTING",
        "QUERY_STATE_FAILED",
        "QUERY_STATE_CANCELLED",
        "QUERY_STATE_EXPIRED",
        "something else",
        "",
    ] {
        let info = ExecutionInfo::decode(&envelope_text(state, None)).unwrap();
        assert_eq!(info.state, state);
        assert!(!info.is_completed());
        assert!(info.result.is_none());
    }
}

#[test]
fn decode_takes_a_null_result_as_absent() {
    let info = ExecutionInfo::decode(&envelope_text("QUERY_STATE_COMPLETED", Some("null")));
    assert!(info.unwrap().result.is_none());
}

#[test]
fn decode_passes_over_undeclared_members() {
    let body = envelope_text("QUERY_STATE_PENDING", None).replacen('{', "{\"extra\":[1,2],", 1);
    let info = ExecutionInfo::decode(&body).unwrap();
    assert_eq!(info.execution_id, "01HV");
}

#[test]
fn decode_refuses_what_is_not_json() {
    for body in ["", "not json", "{\"execution_id\":", "{} trailing"] {
        assert!(matches!(ExecutionInfo::decode(body), Err(DuneError::Decode)));
    }
}

#[test]
fn decode_refuses_what_is_no_object() {
    for body in ["null", "3", "\"text\"", "[]", "{}"] {
        assert!(matches!(ExecutionInfo::decode(body), Err(DuneError::Decode)));
    }
}

#[test]
fn decode_refuses_a_missing_field() {
    let full = envelope_text("QUERY_STATE_COMPLETED", Some(&result_text()));
    assert!(ExecutionInfo::decode(&full).is_ok());
    for key in [
        "execution_id",
        "query_id",
        "is_execution_finished",
        "state",
        "submitted_at",
        "expires_at",
        "execution_started_at",
        "execution_ended_at",
        "rows",
        "metadata",
        "column_names",
        "column_types",
        "row_count",
        "result_set_bytes",
        "total_row_count",
        "total_result_set_bytes",
        "datapoint_count",
        "pending_time_millis",
        "execution_time_millis",
    ] {
        let renamed = full.replacen(&format!("\"{}\":", key), "\"renamed\":", 1);
        assert_ne!(renamed, full);
        assert!(matches!(ExecutionInfo::decode(&renamed), Err(DuneError::Decode)), "{}", key);
    }
}

#[test]
fn decode_refuses_a_field_of_another_type() {
    let full = envelope_text("QUERY_STATE_COMPLETED", Some(&result_text()));
    let cases = [
        ("\"execution_id\":\"01HV\"", "\"execution_id\":7"),
        ("\"query_id\":3557348", "\"query_id\":\"3557348\""),
        ("\"query_id\":3557348", "\"query_id\":-1"),
        ("\"query_id\":3557348", "\"query_id\":1.5"),
        ("\"is_execution_finished\":true", "\"is_execution_finished\":\"true\""),
        ("\"state\":\"QUERY_STATE_COMPLETED\"", "\"state\":null"),
        ("\"row_count\":2", "\"row_count\":-2"),
        ("\"pending_time_millis\":120", "\"pending_time_millis\":1.5"),
        ("\"pending_time_millis\":120", "\"pending_time_millis\":9223372036854775808"),
        ("\"column_types\":[\"double\",\"string\"]", "\"column_types\":[\"double\",1]"),
        ("\"column_types\":[\"double\",\"string\"]", "\"column_types\":\"double\""),
        ("\"rows\":[", "\"rows\":[[],"),
    ];
    for (from, to) in cases {
        let changed = full.replacen(from, to, 1);
        assert_ne!(changed, full);
        if to == "\"rows\":[[]," {
            assert!(ExecutionInfo::decode(&changed).is_ok());
        } else {
            assert!(matches!(ExecutionInfo::decode(&changed), Err(DuneError::Decode)), "{}", to);
        }
    }
    let rows_object = full.replacen(&rows_text(), "{}", 1);
    assert!(matches!(ExecutionInfo::decode(&rows_object), Err(DuneError::Decode)));
    let result_number = envelope_text("QUERY_STATE_COMPLETED", Some("1"));
    assert!(matches!(ExecutionInfo::decode(&result_number), Err(DuneError::Decode)));
}

#[test]
fn decode_accepts_the_largest_numbers() {
    let full = envelope_text("QUERY_STATE_COMPLETED", Some(&result_text()));
    let changed = full
        .replacen("\"query_id\":3557348", "\"query_id\":18446744073709551615", 1)
        .replacen("\"pending_time_millis\":120", "\"pending_time_millis\":9223372036854775807", 1)
        .replacen("\"execution_time_millis\":-7", "\"execution_time_millis\":-9223372036854775808", 1);
    let info = ExecutionInfo::decode(&changed).unwrap();
    assert_eq!(info.query_id, u64::MAX);
    let m = info.result.unwrap().metadata;
    assert_eq!(m.pending_time_millis, i64::MAX);
    assert_eq!(m.execution_time_millis, i64::MIN);
}

#[test]
fn from_value_reads_the_parts() {
    let m = Metadata::from_value(&value(&metadata_text())).unwrap();
    assert_eq!(m.column_names.len(), 2);
    assert_eq!(m.datapoint_count, 4);
    assert!(Metadata::from_value(&value("{}")).is_none());
    let data = ResultData::from_value(&value(&result_text())).unwrap();
    assert_eq!(data.rows.len(), 2);
    assert_eq!(data.rows[1], value("{\"txs\":2,\"unique_senders_addresses\":null}"));
    assert!(ResultData::from_value(&value("{\"rows\":[]}")).is_none());
    let empty = format!("{{\"rows\":[],\"metadata\":{}}}", metadata_text());
    assert!(ResultData::from_value(&value(&empty)).unwrap().rows.is_empty());
    let body = envelope_text("QUERY_STATE_FAILED", None);
    let info = ExecutionInfo::from_value(&value(&body)).unwrap();
    assert_eq!(info.state, "QUERY_STATE_FAILED");
    assert!(ExecutionInfo::from_value(&value("[]")).is_none());
}

#[test]
fn error_messages() {
    assert_eq!(DuneError::MissingCredential.message(), "no credential is set");
    assert_eq!(
        DuneError::Transport(String::from("timed out")).message(),
        "transport failure: timed out"
    );
    assert_eq!(DuneError::Decode.message(), "the response is not an execution envelope");
    assert_eq!(DuneError::ExecutionNotReady.message(), "the execution has not completed");
    assert_eq!(
        DuneError::MalformedSuccess.message(),
        "the completed execution holds no result"
    );
    assert_eq!(DuneError::Storage.message(), "the result could not be cached");
}

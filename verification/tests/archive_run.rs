use pinaivu_indexer::archive::{
    ArchiveAction, ArchiveError, ArchiveEvent, ArchiveJob, ReplyError, WalrusClient,
};
use pinaivu_indexer::json::Json;

fn obj(fields: Vec<(&str, Json)>) -> Json {
    Json::Object(fields.into_iter().map(|(k, v)| (k.to_string(), v)).collect())
}

fn s(x: &str) -> Json {
    Json::Str(x.to_string())
}

#[test]
fn blobs_url_appends_path() {
    let w = WalrusClient::new("https://publisher.walrus.site".to_string());
    assert_eq!(w.blobs_url(), "https://publisher.walrus.site/v1/blobs");
}

#[test]
fn blob_id_from_newly_created() {
    let body = obj(vec![(
        "newlyCreated",
        obj(vec![("blobObject", obj(vec![("id", s("0x1")), ("blobId", s("abc"))]))]),
    )]);
    assert_eq!(WalrusClient::blob_id(&body), Some("abc".to_string()));
}

#[test]
fn blob_id_from_already_certified() {
    let body = obj(vec![
        ("alreadyCertified", obj(vec![("blobObject", obj(vec![("blobId", s("xyz"))]))])),
        ("other", Json::Null),
    ]);
    assert_eq!(WalrusClient::blob_id(&body), Some("xyz".to_string()));
}

#[test]
fn blob_id_does_not_fall_back_past_a_present_newly_created() {
    let body = obj(vec![
        ("newlyCreated", Json::Null),
        ("alreadyCertified", obj(vec![("blobObject", obj(vec![("blobId", s("xyz"))]))])),
    ]);
    assert_eq!(WalrusClient::blob_id(&body), None);
}

#[test]
fn blob_id_must_be_a_string() {
    let body = obj(vec![(
        "newlyCreated",
        obj(vec![("blobObject", obj(vec![("blobId", Json::Number("7".to_string()))]))]),
    )]);
    assert_eq!(WalrusClient::blob_id(&body), None);
    assert_eq!(WalrusClient::blob_id(&Json::Array(vec![])), None);
    assert_eq!(WalrusClient::blob_id(&obj(vec![])), None);
}

fn start(job: &mut ArchiveJob, minutes: Option<&str>) -> ArchiveAction {
    job.step(ArchiveEvent::Started { archive_after_minutes: minutes.map(|m| m.to_string()) })
}

#[test]
fn start_asks_for_old_unarchived_rows() {
    let mut job = ArchiveJob::new();
    assert_eq!(
        start(&mut job, Some("12")),
        ArchiveAction::FetchUnarchived { older_than_minutes: 12, limit: 500 }
    );
    let mut job = ArchiveJob::new();
    assert_eq!(
        start(&mut job, Some("soon")),
        ArchiveAction::FetchUnarchived { older_than_minutes: 5, limit: 500 }
    );
    let mut job = ArchiveJob::new();
    assert_eq!(start(&mut job, None), ArchiveAction::FetchUnarchived { older_than_minutes: 5, limit: 500 });
}

#[test]
fn empty_batch_finishes_without_upload() {
    let mut job = ArchiveJob::new();
    start(&mut job, None);
    let act = job.step(ArchiveEvent::RowsFetched { rows: vec![] });
    assert_eq!(act, ArchiveAction::Finish { outcome: Ok(()) });
    assert!(job.is_finished());
}

fn receipt(peer: &str, n: &str) -> Json {
    obj(vec![
        ("helper_peer_ids", Json::Array(vec![s("h1"), s("h2")])),
        ("n", Json::Number(n.to_string())),
        ("ok", Json::Bool(true)),
        ("primary_peer_id", s(peer)),
        ("x", Json::Null),
    ])
}

fn receipt_value(peer: &str, n: serde_json::Value) -> serde_json::Value {
    let mut m = serde_json::Map::new();
    m.insert(
        "helper_peer_ids".to_string(),
        serde_json::Value::Array(vec![serde_json::Value::from("h1"), serde_json::Value::from("h2")]),
    );
    m.insert("n".to_string(), n);
    m.insert("ok".to_string(), serde_json::Value::Bool(true));
    m.insert("primary_peer_id".to_string(), serde_json::Value::from(peer));
    m.insert("x".to_string(), serde_json::Value::Null);
    serde_json::Value::Object(m)
}

fn ciborium_bytes(values: &Vec<&serde_json::Value>) -> Vec<u8> {
    let mut buf = Vec::new();
    ciborium::into_writer(values, &mut buf).unwrap();
    buf
}

#[test]
fn upload_body_is_the_cbor_array_of_the_receipts() {
    for count in [1usize, 2, 23, 24, 300] {
        let mut job = ArchiveJob::new();
        start(&mut job, None);
        let rows: Vec<(u128, Json)> =
            (0..count).map(|i| (i as u128, receipt(&format!("p{i}"), &i.to_string()))).collect();
        let values: Vec<serde_json::Value> = (0..count)
            .map(|i| receipt_value(&format!("p{i}"), serde_json::Value::from(i as u64)))
            .collect();
        let refs: Vec<&serde_json::Value> = values.iter().collect();
        let act = job.step(ArchiveEvent::RowsFetched { rows });
        assert_eq!(act, ArchiveAction::Upload { body: ciborium_bytes(&refs), count });
    }
}

#[test]
fn upload_body_keeps_fractional_and_negative_numbers() {
    let mut job = ArchiveJob::new();
    start(&mut job, None);
    let act = job.step(ArchiveEvent::RowsFetched {
        rows: vec![(1, receipt("a", "-1.5")), (2, receipt("b", "-7"))],
    });
    let values = vec![
        receipt_value("a", serde_json::Value::from(-1.5f64)),
        receipt_value("b", serde_json::Value::from(-7i64)),
    ];
    let refs: Vec<&serde_json::Value> = values.iter().collect();
    assert_eq!(act, ArchiveAction::Upload { body: ciborium_bytes(&refs), count: 2 });
}

#[test]
fn every_row_is_stamped_even_after_a_failed_stamp() {
    let mut job = ArchiveJob::new();
    start(&mut job, None);
    let act = job.step(ArchiveEvent::RowsFetched {
        rows: vec![(11, Json::Bool(true)), (22, s("ab")), (33, Json::Null)],
    });
    assert_eq!(
        act,
        ArchiveAction::Upload { body: vec![0x83, 0xf5, 0x62, 0x61, 0x62, 0xf6], count: 3 }
    );
    let act = job.step(ArchiveEvent::Uploaded { blob_id: "B".to_string() });
    assert_eq!(act, ArchiveAction::Stamp { request_id: 11, blob_id: "B".to_string() });
    let act = job.step(ArchiveEvent::Stamped { ok: false });
    assert_eq!(act, ArchiveAction::Stamp { request_id: 22, blob_id: "B".to_string() });
    let act = job.step(ArchiveEvent::Stamped { ok: true });
    assert_eq!(act, ArchiveAction::Stamp { request_id: 33, blob_id: "B".to_string() });
    assert!(!job.is_finished());
    let act = job.step(ArchiveEvent::Stamped { ok: false });
    assert_eq!(act, ArchiveAction::Finish { outcome: Ok(()) });
    assert!(job.is_finished());
    // A finished run asks for nothing more.
    assert_eq!(job.step(ArchiveEvent::Stamped { ok: true }), ArchiveAction::Ignore);
}

#[test]
fn fetch_failure_ends_the_run() {
    let mut job = ArchiveJob::new();
    start(&mut job, None);
    let act = job.step(ArchiveEvent::FetchFailed { reason: "db down".to_string() });
    assert_eq!(act, ArchiveAction::Finish { outcome: Err(ArchiveError::Fetch("db down".to_string())) });
    assert!(job.is_finished());
    assert_eq!(job.step(ArchiveEvent::Uploaded { blob_id: "B".to_string() }), ArchiveAction::Ignore);
}

#[test]
fn encode_failure_ends_the_run() {
    let mut job = ArchiveJob::new();
    start(&mut job, None);
    let act = job.step(ArchiveEvent::RowsFetched {
        rows: vec![(1, Json::Array(vec![Json::Number("not a number".to_string())]))],
    });
    assert!(matches!(act, ArchiveAction::Finish { outcome: Err(ArchiveError::Encode(_)) }));
    assert!(job.is_finished());
    assert_eq!(job.step(ArchiveEvent::Uploaded { blob_id: "B".to_string() }), ArchiveAction::Ignore);
}

#[test]
fn upload_failure_stamps_nothing() {
    let mut job = ArchiveJob::new();
    start(&mut job, None);
    job.step(ArchiveEvent::RowsFetched { rows: vec![(1, Json::Null)] });
    let act = job.step(ArchiveEvent::UploadFailed { reason: "503".to_string() });
    assert_eq!(act, ArchiveAction::Finish { outcome: Err(ArchiveError::Upload("503".to_string())) });
    assert_eq!(job.step(ArchiveEvent::Stamped { ok: true }), ArchiveAction::Ignore);
}

#[test]
fn events_out_of_turn_are_ignored() {
    let mut job = ArchiveJob::new();
    assert_eq!(job.step(ArchiveEvent::Stamped { ok: true }), ArchiveAction::Ignore);
    assert_eq!(job.step(ArchiveEvent::RowsFetched { rows: vec![] }), ArchiveAction::Ignore);
    start(&mut job, None);
    assert_eq!(job.step(ArchiveEvent::Uploaded { blob_id: "B".to_string() }), ArchiveAction::Ignore);
    assert_eq!(start(&mut job, None), ArchiveAction::Ignore);
    assert!(!job.is_finished());
}

#[test]
fn blob_id_read_from_reply_bytes() {
    let newly = br#"{"newlyCreated":{"blobObject":{"id":"0x1","blobId":"abc","size":12}},"cost":5}"#;
    assert_eq!(WalrusClient::blob_id_in_reply(&newly.to_vec()), Ok("abc".to_string()));
    let certified = br#"{"alreadyCertified":{"blobObject":{"blobId":"xyz"},"event":null}}"#;
    assert_eq!(WalrusClient::blob_id_in_reply(&certified.to_vec()), Ok("xyz".to_string()));
    let missing = br#"{"newlyCreated":{"blobObject":{}}}"#;
    assert_eq!(WalrusClient::blob_id_in_reply(&missing.to_vec()), Err(ReplyError::MissingBlobId));
    let numeric = br#"{"newlyCreated":{"blobObject":{"blobId":7}}}"#;
    assert_eq!(WalrusClient::blob_id_in_reply(&numeric.to_vec()), Err(ReplyError::MissingBlobId));
    assert_eq!(WalrusClient::blob_id_in_reply(&b"not json".to_vec()), Err(ReplyError::NotJson));
    assert_eq!(WalrusClient::blob_id_in_reply(&vec![]), Err(ReplyError::NotJson));
}

use zenoh_backend_s3::config::OnClosure;
use zenoh_backend_s3::config::S3Config;
use zenoh_backend_s3::error::StorageError;
use zenoh_backend_s3::error::StoreOperation;
use zenoh_backend_s3::key_expr::KeyExpression;
use zenoh_backend_s3::listing::Candidate;
use zenoh_backend_s3::metadata::Metadata;
use zenoh_backend_s3::storage::S3Storage;
use zenoh_backend_s3::store::ObjectHead;
use zenoh_backend_s3::store::StoreFault;
use zenoh_backend_s3::store::StoreRequest;
use zenoh_backend_s3::timestamp::Timestamp;

fn key(text: &str) -> KeyExpression {
    KeyExpression::new(text).unwrap()
}

fn storage(path_prefix: Option<&str>, filter: &str) -> S3Storage {
    S3Storage::new(S3Config {
        bucket: "zenoh-bucket".to_string(),
        path_prefix: path_prefix.map(|p| p.to_string()),
        key_expr: key(filter),
        is_read_only: false,
        on_closure: OnClosure::DoNothing,
        reuse_bucket_is_enabled: true,
    })
}

fn listed(keys: &[&str]) -> Vec<Option<String>> {
    keys.iter().map(|k| Some(k.to_string())).collect()
}

fn candidate(object_key: &str, key_expr: &str) -> Candidate {
    Candidate { object_key: object_key.to_string(), key_expr: key(key_expr) }
}

fn head(entries: &[(&str, &str)]) -> Result<ObjectHead, StoreFault> {
    let mut metadata = Metadata::new();
    for (name, text) in entries {
        metadata.insert(name.to_string(), text.to_string());
    }
    Ok(ObjectHead { metadata: Some(metadata) })
}

fn second(n: u64, id: u128) -> Timestamp {
    Timestamp::new((n << 32) + 1, id).unwrap()
}

#[test]
fn inventory_begins_with_a_listing() {
    match storage(None, "**").begin_get_all_entries() {
        StoreRequest::ListObjects => {}
        other => panic!("{:?}", other),
    }
}

#[test]
fn select_entries_keeps_what_meets_the_filter() {
    let storage = storage(None, "a/*");
    assert_eq!(
        storage.select_entries(Ok(listed(&["a/1", "a/2", "b/1"]))),
        Ok(vec![candidate("a/1", "a/1"), candidate("a/2", "a/2")])
    );
}

#[test]
fn select_entries_translates_the_keys_back() {
    let storage = storage(Some("a"), "a/*");
    assert_eq!(
        storage.select_entries(Ok(listed(&["1", "2", "1/x", "/3"]))),
        Ok(vec![candidate("1", "a/1"), candidate("2", "a/2")])
    );
}

#[test]
fn select_entries_leaves_out_the_none_key() {
    let storage = storage(None, "**");
    assert_eq!(
        storage.select_entries(Ok(listed(&["@@none_key@@", "a", "@@none_key@@"]))),
        Ok(vec![candidate("a", "a")])
    );
}

#[test]
fn select_entries_leaves_out_what_is_no_key_expression() {
    let storage = storage(None, "**");
    let mut listing = listed(&["a#b", "a", "", "b//c", "b?", "c/"]);
    listing.push(None);
    listing.push(Some("d".to_string()));
    assert_eq!(
        storage.select_entries(Ok(listing)),
        Ok(vec![candidate("a", "a"), candidate("d", "d")])
    );
}

#[test]
fn select_entries_of_an_empty_bucket_is_empty() {
    assert_eq!(storage(None, "**").select_entries(Ok(vec![])), Ok(vec![]));
}

#[test]
fn select_entries_hands_on_the_failure_of_the_listing() {
    let storage = storage(None, "**");
    assert_eq!(
        storage.select_entries(Err(StoreFault::Service { message: "access denied".to_string() })),
        Err(StorageError::StoreFailure {
            operation: StoreOperation::ListObjects,
            key: "zenoh-bucket".to_string(),
            cause: "access denied".to_string()
        })
    );
    assert_eq!(
        storage.select_entries(Err(StoreFault::Dispatch { cause: "cancelled".to_string() })),
        Err(StorageError::DispatchFailure { cause: "cancelled".to_string() })
    );
}

#[test]
fn candidate_asks_for_the_head_of_its_object() {
    match candidate("1", "a/1").head_request() {
        StoreRequest::HeadObject { key } => assert_eq!(key, "1"),
        other => panic!("{:?}", other),
    }
}

#[test]
fn entry_carries_the_key_expression_and_the_timestamp() {
    assert_eq!(
        S3Storage::entry(&candidate("1", "a/1"), &head(&[("timestamp_uhlc", "1970-01-01T00:00:05Z/7")])),
        Ok((Some(key("a/1")), second(5, 7)))
    );
}

#[test]
fn entry_fails_with_the_reason() {
    let c = candidate("1", "a/1");
    assert_eq!(
        S3Storage::entry(&c, &Ok(ObjectHead { metadata: None })),
        Err(StorageError::MetadataMissing { key: "1".to_string() })
    );
    assert_eq!(
        S3Storage::entry(&c, &head(&[])),
        Err(StorageError::MetadataMissing { key: "1".to_string() })
    );
    assert_eq!(
        S3Storage::entry(&c, &head(&[("timestamp_uhlc", "soon")])),
        Err(StorageError::StoreFailure {
            operation: StoreOperation::HeadObject,
            key: "1".to_string(),
            cause: "soon".to_string()
        })
    );
    assert_eq!(
        S3Storage::entry(&c, &Err(StoreFault::Service { message: "NoSuchKey".to_string() })),
        Err(StorageError::StoreFailure {
            operation: StoreOperation::HeadObject,
            key: "1".to_string(),
            cause: "NoSuchKey".to_string()
        })
    );
    assert_eq!(
        S3Storage::entry(&c, &Err(StoreFault::Dispatch { cause: "cancelled".to_string() })),
        Err(StorageError::DispatchFailure { cause: "cancelled".to_string() })
    );
}

#[test]
fn inventory_holds_exactly_what_meets_the_filter() {
    let storage = storage(None, "a/*");
    let candidates = storage.select_entries(Ok(listed(&["a/1", "@@none_key@@", "a/2", "b/1"]))).unwrap();
    let answers: Vec<(Candidate, Result<ObjectHead, StoreFault>)> = candidates
        .into_iter()
        .map(|c| (c, head(&[("timestamp_uhlc", "1970-01-01T00:00:05Z/7")])))
        .collect();
    assert_eq!(
        S3Storage::finish_get_all_entries(&answers),
        vec![(Some(key("a/1")), second(5, 7)), (Some(key("a/2")), second(5, 7))]
    );
}

#[test]
fn inventory_tolerates_a_lookup_that_fails() {
    let answers = vec![
        (candidate("a/1", "a/1"), head(&[("timestamp_uhlc", "1970-01-01T00:00:01Z/1")])),
        (
            candidate("a/2", "a/2"),
            Err(StoreFault::Service { message: "connection reset".to_string() }),
        ),
        (candidate("a/3", "a/3"), head(&[("timestamp_uhlc", "1970-01-01T00:00:03Z/3")])),
        (candidate("a/4", "a/4"), Ok(ObjectHead { metadata: None })),
        (candidate("a/5", "a/5"), head(&[("timestamp_uhlc", "never")])),
        (candidate("a/6", "a/6"), Err(StoreFault::Dispatch { cause: "cancelled".to_string() })),
        (candidate("a/7", "a/7"), head(&[("something", "else")])),
    ];
    assert_eq!(
        S3Storage::finish_get_all_entries(&answers),
        vec![(Some(key("a/1")), second(1, 1)), (Some(key("a/3")), second(3, 3))]
    );
}

#[test]
fn inventory_reads_the_legacy_name_of_the_timestamp() {
    let answers = vec![
        (candidate("a/1", "a/1"), head(&[("timestamp", "1970-01-01T00:00:01Z/1")])),
        (
            candidate("a/2", "a/2"),
            head(&[("timestamp", "1970-01-01T00:00:01Z/1"), ("timestamp_uhlc", "1970-01-01T00:00:02Z/2")]),
        ),
    ];
    assert_eq!(
        S3Storage::finish_get_all_entries(&answers),
        vec![(Some(key("a/1")), second(1, 1)), (Some(key("a/2")), second(2, 2))]
    );
}

#[test]
fn inventory_keeps_an_entry_of_the_year_2106() {
    let answers = vec![
        (candidate("a/1", "a/1"), head(&[("timestamp_uhlc", "2106-01-15T00:00:00Z/1")])),
        (candidate("a/2", "a/2"), head(&[("timestamp_uhlc", "2106-02-07T06:28:16Z/1")])),
    ];
    assert_eq!(
        S3Storage::finish_get_all_entries(&answers),
        vec![(Some(key("a/1")), Timestamp::new((4292956800u64 << 32) + 1, 1).unwrap())]
    );
}

#[test]
fn inventory_of_no_answers_is_empty() {
    assert_eq!(S3Storage::finish_get_all_entries(&vec![]), vec![]);
}

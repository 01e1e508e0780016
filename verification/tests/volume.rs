use zenoh_backend_s3::config::OnClosure;
use zenoh_backend_s3::config::Properties;
use zenoh_backend_s3::config::PropertyValue;
use zenoh_backend_s3::config::S3Config;
use zenoh_backend_s3::error::StorageError;
use zenoh_backend_s3::error::StoreOperation;
use zenoh_backend_s3::key_expr::KeyExpression;
use zenoh_backend_s3::store::BucketCreation;
use zenoh_backend_s3::store::StoreFault;
use zenoh_backend_s3::store::StoreRequest;
use zenoh_backend_s3::volume::get_optional_string_property;
use zenoh_backend_s3::volume::load_tls_config;
use zenoh_backend_s3::volume::BucketStatus;
use zenoh_backend_s3::volume::Capability;
use zenoh_backend_s3::volume::History;
use zenoh_backend_s3::volume::Persistence;
use zenoh_backend_s3::volume::S3Backend;
use zenoh_backend_s3::volume::S3Volume;
use zenoh_backend_s3::volume::PROP_S3_ENDPOINT;
use zenoh_backend_s3::volume::PROP_S3_REGION;
use zenoh_backend_s3::volume::TLS_PROP;

fn text(value: &str) -> PropertyValue {
    PropertyValue::Text(value.to_string())
}

fn properties(rest: Vec<(&str, PropertyValue)>) -> Properties {
    Properties { entries: rest.into_iter().map(|(name, value)| (name.to_string(), value)).collect() }
}

fn config(reuse_bucket_is_enabled: bool) -> S3Config {
    S3Config {
        bucket: "zenoh-bucket".to_string(),
        path_prefix: None,
        key_expr: KeyExpression::new("demo/**").unwrap(),
        is_read_only: false,
        on_closure: OnClosure::DoNothing,
        reuse_bucket_is_enabled,
    }
}

fn volume() -> S3Volume {
    S3Backend::start("0.11.0", &properties(vec![])).unwrap()
}

#[test]
fn names_of_the_properties() {
    assert_eq!(PROP_S3_ENDPOINT, "url");
    assert_eq!(PROP_S3_REGION, "region");
    assert_eq!(TLS_PROP, "tls");
    assert_eq!(S3Backend::DEFAULT_NAME, "s3_backend");
}

#[test]
fn properties_are_found_by_name() {
    let config = properties(vec![("url", text("http://localhost:9000")), ("region", PropertyValue::Other)]);
    assert_eq!(config.get("url"), Some(&text("http://localhost:9000")));
    assert_eq!(config.get("region"), Some(&PropertyValue::Other));
    assert_eq!(config.get("tls"), None);
}

#[test]
fn string_property_may_be_absent() {
    let config = properties(vec![("region", text("eu-west-1"))]);
    assert_eq!(get_optional_string_property("url", &config), Ok(None));
    assert_eq!(get_optional_string_property("region", &config), Ok(Some("eu-west-1".to_string())));
}

#[test]
fn string_property_must_be_a_text() {
    let config = properties(vec![("url", PropertyValue::Other), ("region", PropertyValue::Object)]);
    assert_eq!(
        get_optional_string_property("url", &config),
        Err(StorageError::ConfigurationError { property: "url".to_string() })
    );
    assert_eq!(
        get_optional_string_property("region", &config),
        Err(StorageError::ConfigurationError { property: "region".to_string() })
    );
}

#[test]
fn tls_config_must_be_a_group_of_properties() {
    assert_eq!(load_tls_config(&properties(vec![])), Ok(false));
    assert_eq!(load_tls_config(&properties(vec![("tls", PropertyValue::Object)])), Ok(true));
    assert_eq!(
        load_tls_config(&properties(vec![("tls", text("yes"))])),
        Err(StorageError::ConfigurationError { property: "tls".to_string() })
    );
    assert_eq!(
        load_tls_config(&properties(vec![("tls", PropertyValue::Other)])),
        Err(StorageError::ConfigurationError { property: "tls".to_string() })
    );
}

#[test]
fn start_reads_endpoint_region_and_tls() {
    let config = properties(vec![
        ("url", text("http://localhost:9000")),
        ("region", text("eu-west-1")),
        ("tls", PropertyValue::Object),
        ("other", PropertyValue::Other),
    ]);
    let volume = S3Backend::start("0.11.0", &config).unwrap();
    assert_eq!(volume.version, "0.11.0");
    assert_eq!(volume.endpoint, Some("http://localhost:9000".to_string()));
    assert_eq!(volume.region, Some("eu-west-1".to_string()));
    assert!(volume.has_tls_config);
}

#[test]
fn start_without_properties_gives_a_plain_volume() {
    let volume = volume();
    assert_eq!(volume.endpoint, None);
    assert_eq!(volume.region, None);
    assert!(!volume.has_tls_config);
}

#[test]
fn start_fails_on_a_property_of_the_wrong_shape() {
    match S3Backend::start("0.11.0", &properties(vec![("url", PropertyValue::Other)])) {
        Err(e) => assert_eq!(e, StorageError::ConfigurationError { property: "url".to_string() }),
        other => panic!("{:?}", other),
    }
    match S3Backend::start("0.11.0", &properties(vec![("region", PropertyValue::Object)])) {
        Err(e) => assert_eq!(e, StorageError::ConfigurationError { property: "region".to_string() }),
        other => panic!("{:?}", other),
    }
    match S3Backend::start("0.11.0", &properties(vec![("tls", text("on"))])) {
        Err(e) => assert_eq!(e, StorageError::ConfigurationError { property: "tls".to_string() }),
        other => panic!("{:?}", other),
    }
}

#[test]
fn capability_is_durable_and_latest() {
    assert_eq!(
        volume().get_capability(),
        Capability { persistence: Persistence::Durable, history: History::Latest, read_cost: 1 }
    );
}

#[test]
fn create_storage_asks_for_the_bucket() {
    match volume().begin_create_storage(&config(true)) {
        StoreRequest::CreateBucket => {}
        other => panic!("{:?}", other),
    }
}

#[test]
fn create_storage_with_a_new_bucket() {
    for reuse in [true, false] {
        match volume().finish_create_storage(config(reuse), Ok(BucketCreation::Created)) {
            Ok((storage, status)) => {
                assert_eq!(status, BucketStatus::Created);
                assert_eq!(storage.config.bucket, "zenoh-bucket");
                assert_eq!(storage.config.reuse_bucket_is_enabled, reuse);
            }
            other => panic!("{:?}", other),
        }
    }
}

#[test]
fn create_storage_reuses_a_bucket_where_allowed() {
    match volume().finish_create_storage(config(true), Ok(BucketCreation::AlreadyExists)) {
        Ok((_, status)) => assert_eq!(status, BucketStatus::Reused),
        other => panic!("{:?}", other),
    }
}

#[test]
fn create_storage_is_a_conflict_where_reuse_is_not_allowed() {
    match volume().finish_create_storage(config(false), Ok(BucketCreation::AlreadyExists)) {
        Err(e) => assert_eq!(e, StorageError::BucketConflict),
        other => panic!("{:?}", other),
    }
}

#[test]
fn create_storage_hands_on_the_failure_of_the_store() {
    match volume().finish_create_storage(
        config(true),
        Err(StoreFault::Service { message: "access denied".to_string() }),
    ) {
        Err(e) => assert_eq!(
            e,
            StorageError::StoreFailure {
                operation: StoreOperation::CreateBucket,
                key: "zenoh-bucket".to_string(),
                cause: "access denied".to_string()
            }
        ),
        other => panic!("{:?}", other),
    }
    match volume()
        .finish_create_storage(config(true), Err(StoreFault::Dispatch { cause: "cancelled".to_string() }))
    {
        Err(e) => assert_eq!(e, StorageError::DispatchFailure { cause: "cancelled".to_string() }),
        other => panic!("{:?}", other),
    }
}

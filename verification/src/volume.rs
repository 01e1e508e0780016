//! The volume: the backend as a whole, from which storages are made.
//!
//! A volume is started from a list of properties. It makes a storage by
//! asking the store to create the storage's bucket, and takes over a bucket
//! that exists already where the storage's configuration allows it.

use crate::config::property_of;
use crate::config::Properties;
use crate::config::PropertyValue;
use crate::config::S3Config;
use crate::config::S3ConfigView;
use crate::error::outcome_view;
use crate::error::StorageError;
use crate::error::StorageErrorView;
use crate::error::StoreOperation;
use crate::storage::error_of_fault;
use crate::storage::fault_error;
use crate::storage::S3Storage;
use crate::store::answers_create;
use crate::store::plain_reply_view;
use crate::store::Bucket;
use crate::store::BucketCreation;
use crate::store::StoreFault;
use crate::store::StoreFaultView;
use crate::store::StoreRequest;
use crate::store::StoreRequestView;
use vstd::prelude::*;

verus! {

/// Property that names the address of the store.
pub const PROP_S3_ENDPOINT: &'static str = "url";

/// Property that names the region of the store.
pub const PROP_S3_REGION: &'static str = "region";

/// Property that holds the settings of the secured connection to the store.
pub const TLS_PROP: &'static str = "tls";

/// How well a value persists.
#[derive(Clone, Copy, Debug, PartialEq, Eq, Structural)]
pub enum Persistence {
    Volatile,
    Durable,
}

/// How much of the past of a key is kept.
#[derive(Clone, Copy, Debug, PartialEq, Eq, Structural)]
pub enum History {
    Latest,
    All,
}

/// What a volume offers to the storages made from it.
#[derive(Clone, Copy, Debug, PartialEq, Eq, Structural)]
pub struct Capability {
    pub persistence: Persistence,
    pub history: History,
    pub read_cost: u32,
}

/// How a storage came by its bucket.
#[derive(Clone, Copy, Debug, PartialEq, Eq, Structural)]
pub enum BucketStatus {
    Created,
    Reused,
}

impl View for BucketStatus {
    type V = BucketStatus;

    open spec fn view(&self) -> BucketStatus {
        *self
    }
}

/// The text of the property `name`, which may be absent but may not be
/// anything but a text.
pub open spec fn string_property_spec(name: Seq<char>, found: Option<PropertyValue>) -> Result<
    Option<Seq<char>>,
    StorageErrorView,
> {
    match found {
        None => Ok(None),
        Some(PropertyValue::Text(text)) => Ok(Some(text@)),
        Some(_) => Err(StorageErrorView::ConfigurationError { property: name }),
    }
}

/// Whether the settings of the secured connection are given. They may be
/// absent but may not be anything but a group of properties.
pub open spec fn tls_config_spec(found: Option<PropertyValue>) -> Result<bool, StorageErrorView> {
    match found {
        None => Ok(false),
        Some(PropertyValue::Object) => Ok(true),
        Some(_) => Err(StorageErrorView::ConfigurationError { property: TLS_PROP@ }),
    }
}

/// Mathematical form of a [`S3Volume`].
pub struct S3VolumeView {
    pub version: Seq<char>,
    pub endpoint: Option<Seq<char>>,
    pub region: Option<Seq<char>>,
    pub has_tls_config: bool,
}

/// The volume that a list of properties describes.
pub open spec fn start_spec(version: Seq<char>, entries: Seq<(String, PropertyValue)>) -> Result<
    S3VolumeView,
    StorageErrorView,
> {
    match string_property_spec(PROP_S3_ENDPOINT@, property_of(entries, PROP_S3_ENDPOINT@)) {
        Err(e) => Err(e),
        Ok(endpoint) => match string_property_spec(
            PROP_S3_REGION@,
            property_of(entries, PROP_S3_REGION@),
        ) {
            Err(e) => Err(e),
            Ok(region) => match tls_config_spec(property_of(entries, TLS_PROP@)) {
                Err(e) => Err(e),
                Ok(has_tls_config) => Ok(
                    S3VolumeView { version, endpoint, region, has_tls_config },
                ),
            },
        },
    }
}

/// What the answer to `CreateBucket` means for a storage: it has its bucket,
/// new or taken over, or it cannot be made.
pub open spec fn bucket_status_spec(
    config: S3ConfigView,
    reply: Result<BucketCreation, StoreFaultView>,
) -> Result<BucketStatus, StorageErrorView> {
    match reply {
        Err(fault) => Err(fault_error(StoreOperation::CreateBucket, config.bucket, fault)),
        Ok(BucketCreation::Created) => Ok(BucketStatus::Created),
        Ok(BucketCreation::AlreadyExists) => if config.reuse_bucket_is_enabled {
            Ok(BucketStatus::Reused)
        } else {
            Err(StorageErrorView::BucketConflict)
        },
    }
}

/// Reads the property `property`, which holds a text where it is given.
pub fn get_optional_string_property(property: &str, config: &Properties) -> (res: Result<
    Option<String>,
    StorageError,
>)
    ensures
        (match res {
            Ok(Some(text)) => string_property_spec(property@, property_of(config.entries@, property@))
                == Ok::<Option<Seq<char>>, StorageErrorView>(Some(text@)),
            Ok(None) => string_property_spec(property@, property_of(config.entries@, property@))
                == Ok::<Option<Seq<char>>, StorageErrorView>(None),
            Err(e) => string_property_spec(property@, property_of(config.entries@, property@))
                == Err::<Option<Seq<char>>, StorageErrorView>(e@),
        }),
{
    match config.get(property) {
        Some(PropertyValue::Text(value)) => Ok(Some(value.clone())),
        None => Ok(None),
        _ => Err(StorageError::ConfigurationError { property: property.to_owned() }),
    }
}

/// Reads whether the settings of the secured connection are given.
pub fn load_tls_config(config: &Properties) -> (res: Result<bool, StorageError>)
    ensures
        (match res {
            Ok(given) => tls_config_spec(property_of(config.entries@, TLS_PROP@)) == Ok::<
                bool,
                StorageErrorView,
            >(given),
            Err(e) => tls_config_spec(property_of(config.entries@, TLS_PROP@)) == Err::<
                bool,
                StorageErrorView,
            >(e@),
        }),
{
    match config.get(TLS_PROP) {
        Some(PropertyValue::Object) => Ok(true),
        None => Ok(false),
        _ => Err(StorageError::ConfigurationError { property: TLS_PROP.to_owned() }),
    }
}

/// The backend, from which its volume is started.
#[derive(Debug)]
pub struct S3Backend {}

/// The volume of the backend.
#[derive(Debug)]
pub struct S3Volume {
    /// Version of the backend, which the volume reports as its status.
    pub version: String,
    /// Address of the store, where it is not the default one.
    pub endpoint: Option<String>,
    /// Region of the store.
    pub region: Option<String>,
    /// Whether settings of a secured connection are given.
    pub has_tls_config: bool,
}

impl View for S3Volume {
    type V = S3VolumeView;

    open spec fn view(&self) -> S3VolumeView {
        S3VolumeView {
            version: self.version@,
            endpoint: crate::store::text_view(self.endpoint),
            region: crate::store::text_view(self.region),
            has_tls_config: self.has_tls_config,
        }
    }
}

impl S3Backend {
    /// Name under which the backend is known.
    pub const DEFAULT_NAME: &'static str = "s3_backend";

    /// Starts the volume of the backend of version `version` that `config`
    /// describes.
    pub fn start(version: &str, config: &Properties) -> (res: Result<S3Volume, StorageError>)
        ensures
            outcome_view(res) == start_spec(version@, config.entries@),
    {
        let endpoint = match get_optional_string_property(PROP_S3_ENDPOINT, config) {
            Ok(endpoint) => endpoint,
            Err(e) => {
                return Err(e);
            },
        };
        let region = match get_optional_string_property(PROP_S3_REGION, config) {
            Ok(region) => region,
            Err(e) => {
                return Err(e);
            },
        };
        let has_tls_config = match load_tls_config(config) {
            Ok(given) => given,
            Err(e) => {
                return Err(e);
            },
        };
        Ok(S3Volume { version: version.to_owned(), endpoint, region, has_tls_config })
    }
}

impl S3Volume {
    /// What the volume offers: values outlast the process, and of each key
    /// the latest value is kept.
    pub fn get_capability(&self) -> (res: Capability)
        ensures
            res == (Capability {
                persistence: Persistence::Durable,
                history: History::Latest,
                read_cost: 1,
            }),
    {
        Capability { persistence: Persistence::Durable, history: History::Latest, read_cost: 1 }
    }

    /// Decides what making a storage asks of the store: to create the
    /// bucket.
    pub fn begin_create_storage(&self, config: &S3Config) -> (res: StoreRequest)
        ensures
            res@ == StoreRequestView::CreateBucket,
    {
        StoreRequest::CreateBucket
    }

    /// Makes the storage once the store has answered, and says how it came
    /// by its bucket. A bucket that exists already is taken over where the
    /// configuration allows it, and is a `BucketConflict` where it does not.
    pub fn finish_create_storage(
        &self,
        config: S3Config,
        reply: Result<BucketCreation, StoreFault>,
    ) -> (res: Result<(S3Storage, BucketStatus), StorageError>)
        ensures
            (match res {
                Ok((storage, status)) => storage.config == config && bucket_status_spec(
                    config@,
                    plain_reply_view(reply),
                ) == Ok::<BucketStatus, StorageErrorView>(status),
                Err(e) => bucket_status_spec(config@, plain_reply_view(reply)) == Err::<
                    BucketStatus,
                    StorageErrorView,
                >(e@),
            }),
    {
        let status = match reply {
            Err(fault) => {
                return Err(
                    error_of_fault(StoreOperation::CreateBucket, config.bucket.as_str(), &fault),
                );
            },
            Ok(BucketCreation::Created) => BucketStatus::Created,
            Ok(BucketCreation::AlreadyExists) => {
                if !config.reuse_bucket_is_enabled {
                    return Err(StorageError::BucketConflict);
                }
                BucketStatus::Reused
            },
        };
        Ok((S3Storage::new(config), status))
    }
}

/// Where the bucket exists already, a storage that may reuse it is made and
/// has taken the bucket over; a storage that may not is refused with
/// `BucketConflict`.
pub proof fn lemma_existing_bucket(
    config: S3ConfigView,
    bucket: Bucket,
    reply: Result<BucketCreation, StoreFaultView>,
)
    requires
        bucket.exists,
        answers_create(bucket, reply),
    ensures
        config.reuse_bucket_is_enabled ==> bucket_status_spec(config, reply) == Ok::<
            BucketStatus,
            StorageErrorView,
        >(BucketStatus::Reused),
        !config.reuse_bucket_is_enabled ==> bucket_status_spec(config, reply) == Err::<
            BucketStatus,
            StorageErrorView,
        >(StorageErrorView::BucketConflict),
{
}

/// Where there is no bucket yet, the storage is made with a new one,
/// whatever its configuration says of reuse.
pub proof fn lemma_new_bucket(
    config: S3ConfigView,
    bucket: Bucket,
    reply: Result<BucketCreation, StoreFaultView>,
)
    requires
        !bucket.exists,
        answers_create(bucket, reply),
    ensures
        bucket_status_spec(config, reply) == Ok::<BucketStatus, StorageErrorView>(
            BucketStatus::Created,
        ),
{
}

} // verus!

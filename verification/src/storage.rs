//! The storage engine: reading, writing and deleting the value of one key.
//!
//! Each operation comes in two steps. `begin_..` decides what is asked of the
//! object store, or fails before anything is asked. `finish_..` says what
//! the store's answer means for the caller.

use crate::config::OnClosure;
use crate::config::S3Config;
use crate::config::S3ConfigView;
use crate::dispatch::settle_spec;
use crate::error::outcome_view;
use crate::error::StorageError;
use crate::error::StorageErrorView;
use crate::error::StoreOperation;
use crate::key_expr::KeyExpression;
use crate::key_translation::forward;
use crate::key_translation::forward_spec;
use crate::key_translation::NONE_KEY;
use crate::metadata::Metadata;
use crate::store::answers_get;
use crate::store::bucket_after;
use crate::store::bucket_after_optional;
use crate::store::object_reply_view;
use crate::store::plain_reply_view;
use crate::store::Bucket;
use crate::store::StoreFault;
use crate::store::StoreFaultView;
use crate::store::StoreRequest;
use crate::store::StoreRequestView;
use crate::store::StoredObject;
use crate::store::StoredObjectView;
use crate::store::NO_SUCH_KEY;
use crate::text::contains;
use crate::text::contains_text;
use crate::timestamp::parse_spec;
use crate::timestamp::timestamp_parse;
use crate::timestamp::timestamp_text;
use crate::timestamp::within_clock_range;
use crate::timestamp::Timestamp;
use vstd::prelude::*;

verus! {

/// Name under which the timestamp of a value travels in the metadata of its
/// object.
pub const TIMESTAMP_METADATA_KEY: &'static str = "timestamp_uhlc";

/// Name under which objects written long ago carry their timestamp. It is
/// read where the other name is absent, and never written.
pub const LEGACY_TIMESTAMP_METADATA_KEY: &'static str = "timestamp";

/// Encoding of a value whose object names none.
pub const DEFAULT_ENCODING: &'static str = "application/octet-stream";

/// A value: its bytes and the name of their encoding.
#[derive(Debug, PartialEq, Eq)]
pub struct StoredValue {
    pub payload: Vec<u8>,
    pub encoding: String,
}

/// Mathematical form of a [`StoredValue`].
pub struct StoredValueView {
    pub payload: Seq<u8>,
    pub encoding: Seq<char>,
}

impl View for StoredValue {
    type V = StoredValueView;

    open spec fn view(&self) -> StoredValueView {
        StoredValueView { payload: self.payload@, encoding: self.encoding@ }
    }
}

/// A value and the timestamp of the write that stored it.
#[derive(Debug, PartialEq, Eq)]
pub struct StoredData {
    pub value: StoredValue,
    pub timestamp: Timestamp,
}

/// Mathematical form of a [`StoredData`].
pub struct StoredDataView {
    pub value: StoredValueView,
    pub timestamp: (u64, u128),
}

impl View for StoredData {
    type V = StoredDataView;

    open spec fn view(&self) -> StoredDataView {
        StoredDataView { value: self.value@, timestamp: self.timestamp@ }
    }
}

/// What a write or a delete did.
#[derive(Clone, Copy, Debug, PartialEq, Eq, Structural)]
pub enum StorageInsertionResult {
    Inserted,
    Deleted,
}

impl View for StorageInsertionResult {
    type V = StorageInsertionResult;

    open spec fn view(&self) -> StorageInsertionResult {
        *self
    }
}

/// Mathematical form of a key expression that may be absent.
pub open spec fn key_view(key: Option<&KeyExpression>) -> Option<Seq<char>> {
    match key {
        Some(k) => Some(k@),
        None => None,
    }
}

/// Mathematical form of the values that a read hands back.
pub open spec fn values_view(values: Seq<StoredData>) -> Seq<StoredDataView> {
    values.map_values(|data: StoredData| data@)
}

/// The key of the object of `key`. The absent key expression stands for the
/// path prefix itself, whose object is kept under [`NONE_KEY`].
pub open spec fn object_key_spec(prefix: Seq<char>, key: Option<Seq<char>>) -> Result<
    Seq<char>,
    StorageErrorView,
> {
    match key {
        Some(k) => forward_spec(prefix, k),
        None => Ok(NONE_KEY@),
    }
}

/// The failure that the caller sees when the store did not answer as hoped.
pub open spec fn fault_error(
    operation: StoreOperation,
    key: Seq<char>,
    fault: StoreFaultView,
) -> StorageErrorView {
    match fault {
        StoreFaultView::Dispatch { cause } => StorageErrorView::DispatchFailure { cause },
        StoreFaultView::Service { message } => StorageErrorView::StoreFailure {
            operation,
            key,
            cause: message,
        },
    }
}

/// The text of the timestamp in the metadata of an object: what stands under
/// [`TIMESTAMP_METADATA_KEY`], else what stands under
/// [`LEGACY_TIMESTAMP_METADATA_KEY`].
pub open spec fn timestamp_entry(metadata: Map<Seq<char>, Seq<char>>) -> Option<Seq<char>> {
    if metadata.contains_key(TIMESTAMP_METADATA_KEY@) {
        Some(metadata[TIMESTAMP_METADATA_KEY@])
    } else if metadata.contains_key(LEGACY_TIMESTAMP_METADATA_KEY@) {
        Some(metadata[LEGACY_TIMESTAMP_METADATA_KEY@])
    } else {
        None
    }
}

/// The timestamp of the object under `key`, read from the metadata that
/// `operation` brought.
///
/// An object without metadata, or without a timestamp in it, gives
/// `MetadataMissing`. A timestamp that cannot be read is an answer that the
/// store should not have given: `StoreFailure`, with the text as its cause.
pub open spec fn read_timestamp_spec(
    operation: StoreOperation,
    key: Seq<char>,
    metadata: Option<Map<Seq<char>, Seq<char>>>,
) -> Result<(u64, u128), StorageErrorView> {
    match metadata {
        None => Err(StorageErrorView::MetadataMissing { key }),
        Some(m) => match timestamp_entry(m) {
            None => Err(StorageErrorView::MetadataMissing { key }),
            Some(text) => match parse_spec(text) {
                Some(ts) => Ok(ts),
                None => Err(StorageErrorView::StoreFailure { operation, key, cause: text }),
            },
        },
    }
}

/// The request that reads the value of `key`.
pub open spec fn begin_get_spec(config: S3ConfigView, key: Option<Seq<char>>) -> Result<
    StoreRequestView,
    StorageErrorView,
> {
    match object_key_spec(config.path_prefix, key) {
        Ok(object_key) => Ok(StoreRequestView::GetObject { key: object_key }),
        Err(e) => Err(e),
    }
}

/// `fault` is the store saying that there is no object under the key.
pub open spec fn is_not_found(fault: StoreFaultView) -> bool {
    fault matches StoreFaultView::Service { message } && contains_text(message, NO_SUCH_KEY@)
}

/// The encoding of a value whose object names `content_encoding`.
pub open spec fn encoding_spec(content_encoding: Option<Seq<char>>) -> Seq<char> {
    match content_encoding {
        Some(encoding) => encoding,
        None => DEFAULT_ENCODING@,
    }
}

/// What the answer to `GetObject` for `key` holds: nothing where the store
/// has no such object, else the value and its timestamp.
pub open spec fn get_stored_value_spec(
    key: Seq<char>,
    reply: Result<StoredObjectView, StoreFaultView>,
) -> Result<Option<StoredDataView>, StorageErrorView> {
    match reply {
        Err(fault) => if is_not_found(fault) {
            Ok(None)
        } else {
            Err(fault_error(StoreOperation::GetObject, key, fault))
        },
        Ok(object) => match read_timestamp_spec(StoreOperation::GetObject, key, object.metadata) {
            Err(e) => Err(e),
            Ok(timestamp) => Ok(
                Some(
                    StoredDataView {
                        value: StoredValueView {
                            payload: object.body,
                            encoding: encoding_spec(object.content_encoding),
                        },
                        timestamp,
                    },
                ),
            ),
        },
    }
}

/// What a read of `key` hands back: no value, or the one that is stored.
pub open spec fn finish_get_spec(
    key: Seq<char>,
    reply: Result<StoredObjectView, StoreFaultView>,
) -> Result<Seq<StoredDataView>, StorageErrorView> {
    match get_stored_value_spec(key, reply) {
        Ok(Some(data)) => Ok(seq![data]),
        Ok(None) => Ok(Seq::empty()),
        Err(e) => Err(e),
    }
}

/// The metadata that is written with a value of `timestamp`.
pub open spec fn metadata_spec(timestamp: (u64, u128)) -> Map<Seq<char>, Seq<char>> {
    Map::<Seq<char>, Seq<char>>::empty().insert(
        TIMESTAMP_METADATA_KEY@,
        timestamp_text(timestamp.0, timestamp.1),
    )
}

/// The request that writes a value under `key`. A storage that only allows
/// reading refuses every write, whatever the key.
pub open spec fn begin_put_spec(
    config: S3ConfigView,
    key: Option<Seq<char>>,
    value: StoredValueView,
    timestamp: (u64, u128),
) -> Result<StoreRequestView, StorageErrorView> {
    if config.is_read_only {
        Err(StorageErrorView::ReadOnlyViolation)
    } else {
        match object_key_spec(config.path_prefix, key) {
            Ok(object_key) => Ok(
                StoreRequestView::PutObject {
                    key: object_key,
                    body: value.payload,
                    content_encoding: value.encoding,
                    metadata: metadata_spec(timestamp),
                },
            ),
            Err(e) => Err(e),
        }
    }
}

/// The request that deletes the value of `key`. A storage that only allows
/// reading refuses every delete, whatever the key.
pub open spec fn begin_delete_spec(config: S3ConfigView, key: Option<Seq<char>>) -> Result<
    StoreRequestView,
    StorageErrorView,
> {
    if config.is_read_only {
        Err(StorageErrorView::ReadOnlyViolation)
    } else {
        match object_key_spec(config.path_prefix, key) {
            Ok(object_key) => Ok(StoreRequestView::DeleteObject { key: object_key }),
            Err(e) => Err(e),
        }
    }
}

/// What a write or a delete hands back once the store has answered:
/// `done`, or the store's failure.
pub open spec fn finish_write_spec(
    operation: StoreOperation,
    done: StorageInsertionResult,
    key: Seq<char>,
    reply: Result<(), StoreFaultView>,
) -> Result<StorageInsertionResult, StorageErrorView> {
    match reply {
        Ok(_) => Ok(done),
        Err(fault) => Err(fault_error(operation, key, fault)),
    }
}

/// Turns a fault of the store into the failure that the caller sees.
pub fn error_of_fault(operation: StoreOperation, key: &str, fault: &StoreFault) -> (res:
    StorageError)
    ensures
        res@ == fault_error(operation, key@, fault@),
{
    match fault {
        StoreFault::Dispatch { cause } => StorageError::DispatchFailure { cause: cause.clone() },
        StoreFault::Service { message } => StorageError::StoreFailure {
            operation,
            key: key.to_owned(),
            cause: message.clone(),
        },
    }
}

/// Reads the timestamp of the object under `key` from the metadata that
/// `operation` brought.
pub fn read_timestamp(operation: StoreOperation, key: &str, metadata: &Option<Metadata>) -> (res:
    Result<Timestamp, StorageError>)
    ensures
        outcome_view(res) == read_timestamp_spec(
            operation,
            key@,
            crate::store::metadata_view(*metadata),
        ),
{
    let entries = match metadata {
        Some(m) => m,
        None => {
            return Err(StorageError::MetadataMissing { key: key.to_owned() });
        },
    };
    let text = match entries.get(TIMESTAMP_METADATA_KEY) {
        Some(text) => text,
        None => match entries.get(LEGACY_TIMESTAMP_METADATA_KEY) {
            Some(text) => text,
            None => {
                return Err(StorageError::MetadataMissing { key: key.to_owned() });
            },
        },
    };
    match Timestamp::parse(text.as_str()) {
        Some(timestamp) => Ok(timestamp),
        None => Err(
            StorageError::StoreFailure { operation, key: key.to_owned(), cause: text.clone() },
        ),
    }
}

/// The engine of one storage.
#[derive(Debug)]
pub struct S3Storage {
    pub config: S3Config,
}

impl View for S3Storage {
    type V = S3ConfigView;

    open spec fn view(&self) -> S3ConfigView {
        self.config@
    }
}

impl S3Storage {
    /// The engine of the storage that `config` describes.
    pub fn new(config: S3Config) -> (res: S3Storage)
        ensures
            res.config == config,
    {
        S3Storage { config }
    }

    /// The key of the object that holds the value of `key`.
    pub fn object_key(&self, key: Option<&KeyExpression>) -> (res: Result<String, StorageError>)
        ensures
            outcome_view(res) == object_key_spec(self@.path_prefix, key_view(key)),
    {
        match key {
            Some(key_expr) => forward(self.config.prefix(), key_expr),
            None => Ok(NONE_KEY.to_owned()),
        }
    }

    /// Decides what a read of `key` asks of the store.
    pub fn begin_get(&self, key: Option<&KeyExpression>) -> (res: Result<
        StoreRequest,
        StorageError,
    >)
        ensures
            outcome_view(res) == begin_get_spec(self@, key_view(key)),
    {
        match self.object_key(key) {
            Ok(object_key) => Ok(StoreRequest::GetObject { key: object_key }),
            Err(e) => Err(e),
        }
    }

    /// Reads the answer to `GetObject` for the object under `key`.
    pub fn get_stored_value(key: &str, reply: Result<StoredObject, StoreFault>) -> (res: Result<
        Option<StoredData>,
        StorageError,
    >)
        ensures
            (match res {
                Ok(Some(data)) => get_stored_value_spec(key@, object_reply_view(reply)) == Ok::<
                    Option<StoredDataView>,
                    StorageErrorView,
                >(Some(data@)),
                Ok(None) => get_stored_value_spec(key@, object_reply_view(reply)) == Ok::<
                    Option<StoredDataView>,
                    StorageErrorView,
                >(None),
                Err(e) => get_stored_value_spec(key@, object_reply_view(reply)) == Err::<
                    Option<StoredDataView>,
                    StorageErrorView,
                >(e@),
            }),
    {
        let object = match reply {
            Ok(object) => object,
            Err(fault) => {
                let not_found = match &fault {
                    StoreFault::Service { message } => contains(message.as_str(), NO_SUCH_KEY),
                    StoreFault::Dispatch { .. } => false,
                };
                if not_found {
                    return Ok(None);
                }
                return Err(error_of_fault(StoreOperation::GetObject, key, &fault));
            },
        };
        let timestamp = match read_timestamp(StoreOperation::GetObject, key, &object.metadata) {
            Ok(timestamp) => timestamp,
            Err(e) => {
                return Err(e);
            },
        };
        let encoding = match object.content_encoding {
            Some(encoding) => encoding,
            None => DEFAULT_ENCODING.to_owned(),
        };
        Ok(Some(StoredData { value: StoredValue { payload: object.body, encoding }, timestamp }))
    }

    /// Says what a read of the object under `key` hands back, given the
    /// store's answer: no value, or one.
    pub fn finish_get(key: &str, reply: Result<StoredObject, StoreFault>) -> (res: Result<
        Vec<StoredData>,
        StorageError,
    >)
        ensures
            (match res {
                Ok(values) => finish_get_spec(key@, object_reply_view(reply)) == Ok::<
                    Seq<StoredDataView>,
                    StorageErrorView,
                >(values_view(values@)),
                Err(e) => finish_get_spec(key@, object_reply_view(reply)) == Err::<
                    Seq<StoredDataView>,
                    StorageErrorView,
                >(e@),
            }),
    {
        match S3Storage::get_stored_value(key, reply) {
            Ok(Some(data)) => {
                let mut values: Vec<StoredData> = Vec::new();
                values.push(data);
                proof {
                    assert(values_view(values@) =~= seq![data@]);
                }
                Ok(values)
            },
            Ok(None) => {
                let values: Vec<StoredData> = Vec::new();
                proof {
                    assert(values_view(values@) =~= Seq::<StoredDataView>::empty());
                }
                Ok(values)
            },
            Err(e) => Err(e),
        }
    }

    /// Decides what a write of `value` under `key` asks of the store.
    pub fn begin_put(
        &self,
        key: Option<&KeyExpression>,
        value: StoredValue,
        timestamp: Timestamp,
    ) -> (res: Result<StoreRequest, StorageError>)
        ensures
            outcome_view(res) == begin_put_spec(self@, key_view(key), value@, timestamp@),
    {
        if self.config.is_read_only {
            return Err(StorageError::ReadOnlyViolation);
        }
        let object_key = match self.object_key(key) {
            Ok(object_key) => object_key,
            Err(e) => {
                return Err(e);
            },
        };
        let mut metadata = Metadata::new();
        metadata.insert(TIMESTAMP_METADATA_KEY.to_owned(), timestamp.to_text());
        Ok(
            StoreRequest::PutObject {
                key: object_key,
                body: value.payload,
                content_encoding: value.encoding,
                metadata,
            },
        )
    }

    /// Says what a write to the object under `key` hands back, given the
    /// store's answer.
    pub fn finish_put(key: &str, reply: Result<(), StoreFault>) -> (res: Result<
        StorageInsertionResult,
        StorageError,
    >)
        ensures
            outcome_view(res) == finish_write_spec(
                StoreOperation::PutObject,
                StorageInsertionResult::Inserted,
                key@,
                plain_reply_view(reply),
            ),
    {
        match reply {
            Ok(_) => Ok(StorageInsertionResult::Inserted),
            Err(fault) => Err(error_of_fault(StoreOperation::PutObject, key, &fault)),
        }
    }

    /// Decides what a delete of `key` asks of the store. The timestamp of the
    /// delete plays no part: the store deletes without condition.
    pub fn begin_delete(&self, key: Option<&KeyExpression>, timestamp: Timestamp) -> (res: Result<
        StoreRequest,
        StorageError,
    >)
        ensures
            outcome_view(res) == begin_delete_spec(self@, key_view(key)),
    {
        if self.config.is_read_only {
            return Err(StorageError::ReadOnlyViolation);
        }
        match self.object_key(key) {
            Ok(object_key) => Ok(StoreRequest::DeleteObject { key: object_key }),
            Err(e) => Err(e),
        }
    }

    /// Says what a delete of the object under `key` hands back, given the
    /// store's answer.
    pub fn finish_delete(key: &str, reply: Result<(), StoreFault>) -> (res: Result<
        StorageInsertionResult,
        StorageError,
    >)
        ensures
            outcome_view(res) == finish_write_spec(
                StoreOperation::DeleteObject,
                StorageInsertionResult::Deleted,
                key@,
                plain_reply_view(reply),
            ),
    {
        match reply {
            Ok(_) => Ok(StorageInsertionResult::Deleted),
            Err(fault) => Err(error_of_fault(StoreOperation::DeleteObject, key, &fault)),
        }
    }
}

/// The request that closing a storage sends: to delete the bucket with all
/// that is in it, where the storage is configured so, else none.
pub open spec fn begin_close_spec(config: S3ConfigView) -> Option<StoreRequestView> {
    match config.on_closure {
        OnClosure::DestroyBucket => Some(StoreRequestView::DeleteBucket),
        OnClosure::DoNothing => None,
    }
}

/// What is worth a note when the store has answered the closing request: the
/// store's failure, if it failed.
pub open spec fn finish_close_spec(bucket: Seq<char>, reply: Result<(), StoreFaultView>) -> Option<
    StorageErrorView,
> {
    match reply {
        Ok(_) => None,
        Err(fault) => Some(fault_error(StoreOperation::DeleteBucket, bucket, fault)),
    }
}

impl S3Storage {
    /// Decides what closing the storage asks of the store.
    pub fn begin_close(&self) -> (res: Option<StoreRequest>)
        ensures
            (match res {
                Some(request) => begin_close_spec(self@) == Some(request@),
                None => begin_close_spec(self@) is None,
            }),
    {
        match self.config.on_closure {
            OnClosure::DestroyBucket => Some(StoreRequest::DeleteBucket),
            OnClosure::DoNothing => None,
        }
    }

    /// Reads the answer to the closing request of the storage of `bucket`,
    /// which may be gone by now. Closing never fails: a failure of the store
    /// is handed back to be noted, not to be acted on.
    pub fn finish_close(bucket: &str, reply: Result<(), StoreFault>) -> (res: Option<StorageError>)
        ensures
            (match res {
                Some(e) => finish_close_spec(bucket@, plain_reply_view(reply)) == Some(e@),
                None => finish_close_spec(bucket@, plain_reply_view(reply)) is None,
            }),
    {
        match reply {
            Ok(_) => None,
            Err(fault) => Some(error_of_fault(StoreOperation::DeleteBucket, bucket, &fault)),
        }
    }
}

/// Closing a storage that is configured to destroy its bucket leaves neither
/// the bucket nor any object; closing any other storage leaves the bucket as
/// it was.
pub proof fn lemma_closure_policy(config: S3ConfigView, bucket: Bucket)
    ensures
        config.on_closure == OnClosure::DestroyBucket ==> bucket_after_optional(
            bucket,
            begin_close_spec(config),
        ) == (Bucket { exists: false, objects: Map::empty() }),
        config.on_closure == OnClosure::DoNothing ==> bucket_after_optional(
            bucket,
            begin_close_spec(config),
        ) == bucket,
{
}

/// A value that was written is the one value that a read of the same key
/// hands back, with its encoding and its timestamp, provided that the
/// timestamp survives being written as text and read again.
pub proof fn lemma_get_after_put(
    config: S3ConfigView,
    bucket: Bucket,
    key: Option<Seq<char>>,
    value: StoredValueView,
    timestamp: (u64, u128),
    reply: Result<StoredObjectView, StoreFaultView>,
)
    requires
        begin_put_spec(config, key, value, timestamp) is Ok,
        parse_spec(timestamp_text(timestamp.0, timestamp.1)) == Some(timestamp),
        answers_get(
            bucket_after(bucket, begin_put_spec(config, key, value, timestamp)->Ok_0),
            object_key_spec(config.path_prefix, key)->Ok_0,
            reply,
        ),
    ensures
        begin_get_spec(config, key) == Ok::<StoreRequestView, StorageErrorView>(
            StoreRequestView::GetObject { key: object_key_spec(config.path_prefix, key)->Ok_0 },
        ),
        finish_get_spec(object_key_spec(config.path_prefix, key)->Ok_0, reply) == Ok::<
            Seq<StoredDataView>,
            StorageErrorView,
        >(seq![StoredDataView { value, timestamp }]),
{
    let object_key = object_key_spec(config.path_prefix, key)->Ok_0;
    let metadata = metadata_spec(timestamp);
    assert(metadata.contains_key(TIMESTAMP_METADATA_KEY@));
    assert(timestamp_entry(metadata) == Some(timestamp_text(timestamp.0, timestamp.1)));
}

/// A read of a key under which the bucket holds no object hands back no
/// value, and does not fail.
pub proof fn lemma_get_of_absent_key(
    config: S3ConfigView,
    bucket: Bucket,
    key: Option<Seq<char>>,
    reply: Result<StoredObjectView, StoreFaultView>,
)
    requires
        begin_get_spec(config, key) is Ok,
        !bucket.objects.contains_key(object_key_spec(config.path_prefix, key)->Ok_0),
        answers_get(bucket, object_key_spec(config.path_prefix, key)->Ok_0, reply),
    ensures
        finish_get_spec(object_key_spec(config.path_prefix, key)->Ok_0, reply) == Ok::<
            Seq<StoredDataView>,
            StorageErrorView,
        >(Seq::empty()),
{
}

/// Where the store has the object, a read hands back its value, and fails
/// only where the object carries no timestamp that can be read: where the
/// metadata is missing, or names no timestamp, or names one from which uhlc
/// reads none. It never hands back nothing.
pub proof fn lemma_get_of_present_object(key: Seq<char>, object: StoredObjectView)
    ensures
        get_stored_value_spec(key, Ok(object)) is Ok <==> (object.metadata matches Some(metadata)
            && timestamp_entry(metadata) matches Some(text) && parse_spec(text) is Some),
        get_stored_value_spec(key, Ok(object)) matches Ok(found) ==> found is Some,
        finish_get_spec(key, Ok(object)) matches Ok(values) ==> values.len() == 1,
        object.metadata matches Some(metadata) ==> (timestamp_entry(metadata) matches Some(text)
            ==> (within_clock_range(text) ==> (get_stored_value_spec(key, Ok(object)) is Ok
            <==> timestamp_parse(text) is Some))),
{
}

/// A read of a key whose value was deleted hands back no value.
pub proof fn lemma_get_after_delete(
    config: S3ConfigView,
    bucket: Bucket,
    key: Option<Seq<char>>,
    reply: Result<StoredObjectView, StoreFaultView>,
)
    requires
        begin_delete_spec(config, key) is Ok,
        answers_get(
            bucket_after(bucket, begin_delete_spec(config, key)->Ok_0),
            object_key_spec(config.path_prefix, key)->Ok_0,
            reply,
        ),
    ensures
        finish_get_spec(object_key_spec(config.path_prefix, key)->Ok_0, reply) == Ok::<
            Seq<StoredDataView>,
            StorageErrorView,
        >(Seq::empty()),
{
}

/// A request that the scheduler did not run and a request that the store
/// failed are told apart, whatever the operation: the first is a
/// `DispatchFailure`, the second a `StoreFailure`.
pub proof fn lemma_dispatch_failure_is_distinct<T>(
    operation: StoreOperation,
    key: Seq<char>,
    ran: Result<Result<T, String>, String>,
)
    ensures
        ran is Err ==> settle_spec(ran) is Err && fault_error(
            operation,
            key,
            settle_spec(ran)->Err_0,
        ) is DispatchFailure,
        ran matches Ok(Err(_)) ==> settle_spec(ran) is Err && fault_error(
            operation,
            key,
            settle_spec(ran)->Err_0,
        ) is StoreFailure,
        ran matches Ok(Ok(answer)) ==> settle_spec(ran) == Ok::<T, StoreFaultView>(answer),
{
}

/// A storage that only allows reading refuses every write and every delete
/// with `ReadOnlyViolation`, asks nothing of the store, and so leaves the
/// bucket as it was.
pub proof fn lemma_read_only_refuses_writes(
    config: S3ConfigView,
    bucket: Bucket,
    key: Option<Seq<char>>,
    value: StoredValueView,
    timestamp: (u64, u128),
)
    requires
        config.is_read_only,
    ensures
        begin_put_spec(config, key, value, timestamp) == Err::<StoreRequestView, StorageErrorView>(
            StorageErrorView::ReadOnlyViolation,
        ),
        begin_delete_spec(config, key) == Err::<StoreRequestView, StorageErrorView>(
            StorageErrorView::ReadOnlyViolation,
        ),
        bucket_after_optional(bucket, request_of(begin_put_spec(config, key, value, timestamp)))
            == bucket,
        bucket_after_optional(bucket, request_of(begin_delete_spec(config, key))) == bucket,
{
}

/// The request that reaches the store: the one that was decided on, none
/// where the operation failed before.
pub open spec fn request_of(decided: Result<StoreRequestView, StorageErrorView>) -> Option<
    StoreRequestView,
> {
    match decided {
        Ok(request) => Some(request),
        Err(_) => None,
    }
}

} // verus!

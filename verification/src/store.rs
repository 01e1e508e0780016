//! What the engine asks of the object store, what the store answers, and a
//! mathematical model of a bucket against which the engine's laws are
//! stated.
//!
//! The engine never talks to the store. It names a request; its caller
//! carries the request out and hands the answer back.

use crate::metadata::Metadata;
use vstd::prelude::*;

verus! {

/// An object as the store hands it out.
#[derive(Debug)]
pub struct StoredObject {
    pub body: Vec<u8>,
    pub content_encoding: Option<String>,
    pub metadata: Option<Metadata>,
}

/// Mathematical form of a [`StoredObject`].
pub struct StoredObjectView {
    pub body: Seq<u8>,
    pub content_encoding: Option<Seq<char>>,
    pub metadata: Option<Map<Seq<char>, Seq<char>>>,
}

/// Mathematical form of the metadata that an answer of the store may carry.
pub open spec fn metadata_view(metadata: Option<Metadata>) -> Option<Map<Seq<char>, Seq<char>>> {
    match metadata {
        Some(m) => Some(m@),
        None => None,
    }
}

/// Mathematical form of a text that may be absent.
pub open spec fn text_view(text: Option<String>) -> Option<Seq<char>> {
    match text {
        Some(t) => Some(t@),
        None => None,
    }
}

impl View for StoredObject {
    type V = StoredObjectView;

    open spec fn view(&self) -> StoredObjectView {
        StoredObjectView {
            body: self.body@,
            content_encoding: text_view(self.content_encoding),
            metadata: metadata_view(self.metadata),
        }
    }
}

/// What the store tells of an object without handing out its body.
#[derive(Debug)]
pub struct ObjectHead {
    pub metadata: Option<Metadata>,
}

impl View for ObjectHead {
    type V = Option<Map<Seq<char>, Seq<char>>>;

    open spec fn view(&self) -> Option<Map<Seq<char>, Seq<char>>> {
        metadata_view(self.metadata)
    }
}

/// Why a request brought no answer of the expected kind.
#[derive(Debug, PartialEq, Eq)]
pub enum StoreFault {
    /// The scheduler did not run the request.
    Dispatch { cause: String },
    /// The store, or the way to it, failed.
    Service { message: String },
}

/// Mathematical form of a [`StoreFault`].
pub enum StoreFaultView {
    Dispatch { cause: Seq<char> },
    Service { message: Seq<char> },
}

impl View for StoreFault {
    type V = StoreFaultView;

    open spec fn view(&self) -> StoreFaultView {
        match self {
            StoreFault::Dispatch { cause } => StoreFaultView::Dispatch { cause: cause@ },
            StoreFault::Service { message } => StoreFaultView::Service { message: message@ },
        }
    }
}

/// How a request to create the bucket ended at the store.
#[derive(Clone, Copy, Debug, PartialEq, Eq, Structural)]
pub enum BucketCreation {
    Created,
    AlreadyExists,
}

/// A request to the object store. The store is bound to one bucket.
#[derive(Debug)]
pub enum StoreRequest {
    CreateBucket,
    DeleteBucket,
    ListObjects,
    GetObject { key: String },
    HeadObject { key: String },
    PutObject { key: String, body: Vec<u8>, content_encoding: String, metadata: Metadata },
    DeleteObject { key: String },
}

/// Mathematical form of a [`StoreRequest`].
pub enum StoreRequestView {
    CreateBucket,
    DeleteBucket,
    ListObjects,
    GetObject { key: Seq<char> },
    HeadObject { key: Seq<char> },
    PutObject {
        key: Seq<char>,
        body: Seq<u8>,
        content_encoding: Seq<char>,
        metadata: Map<Seq<char>, Seq<char>>,
    },
    DeleteObject { key: Seq<char> },
}

impl View for StoreRequest {
    type V = StoreRequestView;

    open spec fn view(&self) -> StoreRequestView {
        match self {
            StoreRequest::CreateBucket => StoreRequestView::CreateBucket,
            StoreRequest::DeleteBucket => StoreRequestView::DeleteBucket,
            StoreRequest::ListObjects => StoreRequestView::ListObjects,
            StoreRequest::GetObject { key } => StoreRequestView::GetObject { key: key@ },
            StoreRequest::HeadObject { key } => StoreRequestView::HeadObject { key: key@ },
            StoreRequest::PutObject {
                key,
                body,
                content_encoding,
                metadata,
            } => StoreRequestView::PutObject {
                key: key@,
                body: body@,
                content_encoding: content_encoding@,
                metadata: metadata@,
            },
            StoreRequest::DeleteObject { key } => StoreRequestView::DeleteObject { key: key@ },
        }
    }
}

/// The key of the object that a request is about, empty for a request that
/// is about the bucket.
pub open spec fn request_key(request: StoreRequestView) -> Seq<char> {
    match request {
        StoreRequestView::GetObject { key } => key,
        StoreRequestView::HeadObject { key } => key,
        StoreRequestView::PutObject { key, .. } => key,
        StoreRequestView::DeleteObject { key } => key,
        _ => Seq::empty(),
    }
}

impl StoreRequest {
    /// The key of the object that the request is about, empty for a request
    /// that is about the bucket.
    pub fn key(&self) -> (res: &str)
        ensures
            res@ == request_key(self@),
    {
        match self {
            StoreRequest::GetObject { key } => key.as_str(),
            StoreRequest::HeadObject { key } => key.as_str(),
            StoreRequest::PutObject { key, .. } => key.as_str(),
            StoreRequest::DeleteObject { key } => key.as_str(),
            _ => {
                proof {
                    reveal_strlit("");
                    assert(""@ =~= Seq::<char>::empty());
                }
                ""
            },
        }
    }
}

/// Mathematical form of the answer to `GetObject`.
pub open spec fn object_reply_view(reply: Result<StoredObject, StoreFault>) -> Result<
    StoredObjectView,
    StoreFaultView,
> {
    match reply {
        Ok(object) => Ok(object@),
        Err(fault) => Err(fault@),
    }
}

/// Mathematical form of the answer to `HeadObject`.
pub open spec fn head_reply_view(reply: Result<ObjectHead, StoreFault>) -> Result<
    Option<Map<Seq<char>, Seq<char>>>,
    StoreFaultView,
> {
    match reply {
        Ok(head) => Ok(head@),
        Err(fault) => Err(fault@),
    }
}

/// Mathematical form of an answer that carries a plain value, as the answers
/// to `PutObject`, `DeleteObject`, `CreateBucket` and `DeleteBucket` do.
pub open spec fn plain_reply_view<T>(reply: Result<T, StoreFault>) -> Result<T, StoreFaultView> {
    match reply {
        Ok(value) => Ok(value),
        Err(fault) => Err(fault@),
    }
}

/// Mathematical form of the keys that `ListObjects` found. The store may
/// list an object without a key.
pub open spec fn listing_view(listing: Seq<Option<String>>) -> Seq<Option<Seq<char>>> {
    listing.map_values(|key: Option<String>| text_view(key))
}

/// Mathematical form of the answer to `ListObjects`.
pub open spec fn listing_reply_view(reply: Result<Vec<Option<String>>, StoreFault>) -> Result<
    Seq<Option<Seq<char>>>,
    StoreFaultView,
> {
    match reply {
        Ok(listing) => Ok(listing_view(listing@)),
        Err(fault) => Err(fault@),
    }
}

/// Text by which the store says that there is no object under a key.
pub const NO_SUCH_KEY: &'static str = "NoSuchKey";

/// A bucket of the store: whether it exists, and the objects in it by key.
pub struct Bucket {
    pub exists: bool,
    pub objects: Map<Seq<char>, StoredObjectView>,
}

/// The bucket after the store has carried out `request`.
pub open spec fn bucket_after(bucket: Bucket, request: StoreRequestView) -> Bucket {
    match request {
        StoreRequestView::CreateBucket => Bucket { exists: true, objects: bucket.objects },
        StoreRequestView::DeleteBucket => Bucket { exists: false, objects: Map::empty() },
        StoreRequestView::PutObject { key, body, content_encoding, metadata } => Bucket {
            exists: bucket.exists,
            objects: bucket.objects.insert(
                key,
                StoredObjectView {
                    body,
                    content_encoding: Some(content_encoding),
                    metadata: Some(metadata),
                },
            ),
        },
        StoreRequestView::DeleteObject { key } => Bucket {
            exists: bucket.exists,
            objects: bucket.objects.remove(key),
        },
        _ => bucket,
    }
}

/// The bucket after the store has carried out `request`, if there was one.
pub open spec fn bucket_after_optional(bucket: Bucket, request: Option<StoreRequestView>) -> Bucket {
    match request {
        Some(r) => bucket_after(bucket, r),
        None => bucket,
    }
}

/// `reply` is an answer that a store in working order gives to `GetObject`
/// for `key`: the object, or a failure that says that there is none.
pub open spec fn answers_get(
    bucket: Bucket,
    key: Seq<char>,
    reply: Result<StoredObjectView, StoreFaultView>,
) -> bool {
    if bucket.objects.contains_key(key) {
        reply == Ok::<StoredObjectView, StoreFaultView>(bucket.objects[key])
    } else {
        reply matches Err(StoreFaultView::Service { message }) && crate::text::contains_text(
            message,
            NO_SUCH_KEY@,
        )
    }
}

/// `reply` is the answer that a store in working order gives to
/// `CreateBucket`.
pub open spec fn answers_create(bucket: Bucket, reply: Result<BucketCreation, StoreFaultView>) -> bool {
    reply == Ok::<BucketCreation, StoreFaultView>(
        if bucket.exists {
            BucketCreation::AlreadyExists
        } else {
            BucketCreation::Created
        },
    )
}

} // verus!

//! The configuration of one storage, and the properties it is read from.

use crate::error::StorageError;
use crate::error::StorageErrorView;
use crate::key_expr::KeyExpression;
use crate::text::same_text;
use vstd::prelude::*;

verus! {

/// Property that names the bucket of a storage.
pub const PROP_S3_BUCKET: &'static str = "bucket";

/// Property that says whether a storage refuses writes and deletes.
pub const PROP_STORAGE_READ_ONLY: &'static str = "read_only";

/// Property that says what becomes of the bucket when its storage is closed.
pub const PROP_STORAGE_ON_CLOSURE: &'static str = "on_closure";

/// Property that says whether a bucket that exists already is taken over.
pub const PROP_STORAGE_REUSE_BUCKET: &'static str = "reuse_bucket";

/// Text of [`PROP_STORAGE_ON_CLOSURE`] that has the bucket destroyed.
pub const DESTROY_BUCKET: &'static str = "destroy_bucket";

/// Text of [`PROP_STORAGE_ON_CLOSURE`] that has the bucket kept.
pub const DO_NOTHING: &'static str = "do_nothing";

/// The value of a property, as far as the backend looks at it.
#[derive(Debug, PartialEq, Eq)]
pub enum PropertyValue {
    /// A text.
    Text(String),
    /// Yes or no.
    Flag(bool),
    /// A group of further properties.
    Object,
    /// Anything else.
    Other,
}

/// A list of named properties.
#[derive(Debug)]
pub struct Properties {
    pub entries: Vec<(String, PropertyValue)>,
}

/// The first property of `entries` that is named `name`.
pub open spec fn property_of(entries: Seq<(String, PropertyValue)>, name: Seq<char>) -> Option<
    PropertyValue,
>
    decreases entries.len(),
{
    if entries.len() == 0 {
        None
    } else if entries[0].0@ == name {
        Some(entries[0].1)
    } else {
        property_of(entries.drop_first(), name)
    }
}

impl Properties {
    /// The first property named `name`, if there is one.
    pub fn get(&self, name: &str) -> (res: Option<&PropertyValue>)
        ensures
            (match res {
                Some(value) => property_of(self.entries@, name@) == Some(*value),
                None => property_of(self.entries@, name@) is None,
            }),
    {
        let mut i: usize = 0;
        proof {
            assert(self.entries@.skip(0) =~= self.entries@);
        }
        while i < self.entries.len()
            invariant
                i <= self.entries@.len(),
                property_of(self.entries@, name@) == property_of(
                    self.entries@.skip(i as int),
                    name@,
                ),
            decreases self.entries@.len() - i,
        {
            if same_text(self.entries[i].0.as_str(), name) {
                return Some(&self.entries[i].1);
            }
            proof {
                assert(self.entries@.skip(i as int).drop_first() =~= self.entries@.skip(
                    i as int + 1,
                ));
            }
            i = i + 1;
        }
        None
    }
}

/// What becomes of the bucket when its storage is closed.
#[derive(Clone, Copy, Debug, PartialEq, Eq, Structural)]
pub enum OnClosure {
    DestroyBucket,
    DoNothing,
}

/// The configuration of one storage. It does not change once the storage is
/// made.
#[derive(Debug)]
pub struct S3Config {
    /// Name of the bucket.
    pub bucket: String,
    /// What is taken from the front of a key expression to name its object.
    pub path_prefix: Option<String>,
    /// The key expressions that the storage answers for.
    pub key_expr: KeyExpression,
    /// Whether writes and deletes are refused.
    pub is_read_only: bool,
    /// What becomes of the bucket when the storage is closed.
    pub on_closure: OnClosure,
    /// Whether a bucket that exists already is taken over.
    pub reuse_bucket_is_enabled: bool,
}

/// Mathematical form of an [`S3Config`]. An absent prefix is the empty one.
pub struct S3ConfigView {
    pub bucket: Seq<char>,
    pub path_prefix: Seq<char>,
    pub key_expr: Seq<char>,
    pub is_read_only: bool,
    pub on_closure: OnClosure,
    pub reuse_bucket_is_enabled: bool,
}

/// Mathematical form of a path prefix that may be absent.
pub open spec fn prefix_view(path_prefix: Option<String>) -> Seq<char> {
    match path_prefix {
        Some(prefix) => prefix@,
        None => Seq::empty(),
    }
}

impl View for S3Config {
    type V = S3ConfigView;

    open spec fn view(&self) -> S3ConfigView {
        S3ConfigView {
            bucket: self.bucket@,
            path_prefix: prefix_view(self.path_prefix),
            key_expr: self.key_expr@,
            is_read_only: self.is_read_only,
            on_closure: self.on_closure,
            reuse_bucket_is_enabled: self.reuse_bucket_is_enabled,
        }
    }
}

/// The failure that names the property `name`.
pub open spec fn property_error<T>(name: Seq<char>) -> Result<T, StorageErrorView> {
    Err(StorageErrorView::ConfigurationError { property: name })
}

/// The bucket that the properties name. It must be named, by a text.
pub open spec fn bucket_spec(found: Option<PropertyValue>) -> Result<Seq<char>, StorageErrorView> {
    match found {
        Some(PropertyValue::Text(name)) => Ok(name@),
        _ => property_error(PROP_S3_BUCKET@),
    }
}

/// The yes or no of the property `name`, which is no where the property is
/// absent.
pub open spec fn flag_spec(name: Seq<char>, found: Option<PropertyValue>) -> Result<
    bool,
    StorageErrorView,
> {
    match found {
        None => Ok(false),
        Some(PropertyValue::Flag(flag)) => Ok(flag),
        Some(_) => property_error(name),
    }
}

/// What the properties say of the bucket at closure: to keep it, where they
/// say nothing.
pub open spec fn on_closure_spec(found: Option<PropertyValue>) -> Result<
    OnClosure,
    StorageErrorView,
> {
    match found {
        None => Ok(OnClosure::DoNothing),
        Some(PropertyValue::Text(text)) => if text@ == DESTROY_BUCKET@ {
            Ok(OnClosure::DestroyBucket)
        } else if text@ == DO_NOTHING@ {
            Ok(OnClosure::DoNothing)
        } else {
            property_error(PROP_STORAGE_ON_CLOSURE@)
        },
        Some(_) => property_error(PROP_STORAGE_ON_CLOSURE@),
    }
}

/// The configuration that a list of properties describes, for a storage that
/// answers for `key_expr` under `path_prefix`. The properties are read in the
/// order bucket, read-only, closure, reuse, and the first that is missing or
/// has the wrong shape is the one that the failure names.
pub open spec fn config_spec(
    entries: Seq<(String, PropertyValue)>,
    key_expr: Seq<char>,
    path_prefix: Seq<char>,
) -> Result<S3ConfigView, StorageErrorView> {
    match bucket_spec(property_of(entries, PROP_S3_BUCKET@)) {
        Err(e) => Err(e),
        Ok(bucket) => match flag_spec(
            PROP_STORAGE_READ_ONLY@,
            property_of(entries, PROP_STORAGE_READ_ONLY@),
        ) {
            Err(e) => Err(e),
            Ok(is_read_only) => match on_closure_spec(
                property_of(entries, PROP_STORAGE_ON_CLOSURE@),
            ) {
                Err(e) => Err(e),
                Ok(on_closure) => match flag_spec(
                    PROP_STORAGE_REUSE_BUCKET@,
                    property_of(entries, PROP_STORAGE_REUSE_BUCKET@),
                ) {
                    Err(e) => Err(e),
                    Ok(reuse_bucket_is_enabled) => Ok(
                        S3ConfigView {
                            bucket,
                            path_prefix,
                            key_expr,
                            is_read_only,
                            on_closure,
                            reuse_bucket_is_enabled,
                        },
                    ),
                },
            },
        },
    }
}

/// Reads the yes or no of the property `name`.
pub fn get_optional_flag(name: &str, properties: &Properties) -> (res: Result<bool, StorageError>)
    ensures
        (match res {
            Ok(flag) => flag_spec(name@, property_of(properties.entries@, name@)) == Ok::<
                bool,
                StorageErrorView,
            >(flag),
            Err(e) => flag_spec(name@, property_of(properties.entries@, name@)) == Err::<
                bool,
                StorageErrorView,
            >(e@),
        }),
{
    match properties.get(name) {
        None => Ok(false),
        Some(PropertyValue::Flag(flag)) => Ok(*flag),
        Some(_) => Err(StorageError::ConfigurationError { property: name.to_owned() }),
    }
}

/// Reads what becomes of the bucket at closure.
pub fn get_on_closure(properties: &Properties) -> (res: Result<OnClosure, StorageError>)
    ensures
        (match res {
            Ok(on_closure) => on_closure_spec(
                property_of(properties.entries@, PROP_STORAGE_ON_CLOSURE@),
            ) == Ok::<OnClosure, StorageErrorView>(on_closure),
            Err(e) => on_closure_spec(property_of(properties.entries@, PROP_STORAGE_ON_CLOSURE@))
                == Err::<OnClosure, StorageErrorView>(e@),
        }),
{
    match properties.get(PROP_STORAGE_ON_CLOSURE) {
        None => Ok(OnClosure::DoNothing),
        Some(PropertyValue::Text(text)) => {
            if same_text(text.as_str(), DESTROY_BUCKET) {
                Ok(OnClosure::DestroyBucket)
            } else if same_text(text.as_str(), DO_NOTHING) {
                Ok(OnClosure::DoNothing)
            } else {
                Err(
                    StorageError::ConfigurationError {
                        property: PROP_STORAGE_ON_CLOSURE.to_owned(),
                    },
                )
            }
        },
        Some(_) => Err(
            StorageError::ConfigurationError { property: PROP_STORAGE_ON_CLOSURE.to_owned() },
        ),
    }
}

impl S3Config {
    /// Reads the configuration of a storage that answers for `key_expr` under
    /// `path_prefix` from its properties.
    pub fn new(properties: &Properties, key_expr: KeyExpression, path_prefix: Option<String>) -> (res:
        Result<S3Config, StorageError>)
        ensures
            (match res {
                Ok(config) => config_spec(
                    properties.entries@,
                    key_expr@,
                    prefix_view(path_prefix),
                ) == Ok::<S3ConfigView, StorageErrorView>(config@) && config.path_prefix
                    == path_prefix && config.key_expr == key_expr,
                Err(e) => config_spec(properties.entries@, key_expr@, prefix_view(path_prefix))
                    == Err::<S3ConfigView, StorageErrorView>(e@),
            }),
    {
        let bucket = match properties.get(PROP_S3_BUCKET) {
            Some(PropertyValue::Text(name)) => name.clone(),
            _ => {
                return Err(
                    StorageError::ConfigurationError { property: PROP_S3_BUCKET.to_owned() },
                );
            },
        };
        let is_read_only = match get_optional_flag(PROP_STORAGE_READ_ONLY, properties) {
            Ok(flag) => flag,
            Err(e) => {
                return Err(e);
            },
        };
        let on_closure = match get_on_closure(properties) {
            Ok(on_closure) => on_closure,
            Err(e) => {
                return Err(e);
            },
        };
        let reuse_bucket_is_enabled = match get_optional_flag(
            PROP_STORAGE_REUSE_BUCKET,
            properties,
        ) {
            Ok(flag) => flag,
            Err(e) => {
                return Err(e);
            },
        };
        Ok(
            S3Config {
                bucket,
                path_prefix,
                key_expr,
                is_read_only,
                on_closure,
                reuse_bucket_is_enabled,
            },
        )
    }

    /// The path prefix, empty where none is configured.
    pub fn prefix(&self) -> (res: &str)
        ensures
            res@ == self@.path_prefix,
    {
        match &self.path_prefix {
            Some(prefix) => prefix.as_str(),
            None => {
                proof {
                    reveal_strlit("");
                    assert(""@ =~= Seq::<char>::empty());
                }
                ""
            },
        }
    }
}

} // verus!

//! Translation between key expressions and the keys of the objects that hold
//! their values.
//!
//! A storage is configured with a path prefix. The object of a key expression
//! is named by what is left of the key expression once the prefix is taken
//! from its front. The key expression that is the prefix itself leaves
//! nothing, and its object is named by a reserved key.

use crate::error::outcome_view;
use crate::error::StorageError;
use crate::error::StorageErrorView;
use crate::key_expr::is_key_expression;
use crate::key_expr::key_expr_is_valid;
use crate::key_expr::KeyExpression;
use crate::text::lemma_trim_skips_slash;
use crate::text::lemma_trim_without_leading_slash;
use crate::text::same_text;
use crate::text::skip_chars;
use crate::text::starts_with;
use crate::text::trim_leading_slashes;
use crate::text::trim_start_slashes;
use vstd::prelude::*;
use vstd::string::*;

verus! {

/// Key of the object that holds the value of the key expression that equals
/// the path prefix.
pub const NONE_KEY: &'static str = "@@none_key@@";

/// `key` is `prefix`, or continues it with a `/`. Every key begins with the
/// empty prefix.
pub open spec fn begins_with_prefix(prefix: Seq<char>, key: Seq<char>) -> bool {
    prefix.len() == 0 || key == prefix || (prefix + seq!['/']).is_prefix_of(key)
}

/// What is left of `key` once `prefix` and the `/` behind it are taken from
/// its front.
pub open spec fn remainder(prefix: Seq<char>, key: Seq<char>) -> Seq<char> {
    if prefix.len() == 0 {
        key
    } else if key == prefix {
        Seq::empty()
    } else {
        key.skip(prefix.len() as int + 1)
    }
}

/// The object key of a key expression.
///
/// The key must begin with the prefix. An empty remainder is written as
/// [`NONE_KEY`]; a remainder that reads like [`NONE_KEY`] is refused, so that
/// no other key expression shares the object of the prefix.
pub open spec fn forward_spec(prefix: Seq<char>, key: Seq<char>) -> Result<
    Seq<char>,
    StorageErrorView,
> {
    let rest = remainder(prefix, key);
    if !begins_with_prefix(prefix, key) || rest == NONE_KEY@ {
        Err(StorageErrorView::InvalidKey { key })
    } else if rest.len() == 0 {
        Ok(NONE_KEY@)
    } else {
        Ok(rest)
    }
}

/// The text that is read as a key expression when `object_key` is translated
/// back: prefix, `/` and object key, without the `/` characters at the front.
pub open spec fn rejoined(prefix: Seq<char>, object_key: Seq<char>) -> Seq<char> {
    trim_leading_slashes(prefix + seq!['/'] + object_key)
}

/// The key expression of an object key: none for [`NONE_KEY`], else the
/// prefix put back in front, if that reads as a key expression.
pub open spec fn reverse_spec(prefix: Seq<char>, object_key: Seq<char>) -> Result<
    Option<Seq<char>>,
    StorageErrorView,
> {
    if object_key == NONE_KEY@ {
        Ok(None)
    } else if key_expr_is_valid(rejoined(prefix, object_key)) {
        Ok(Some(rejoined(prefix, object_key)))
    } else {
        Err(StorageErrorView::InvalidKey { key: object_key })
    }
}

/// Translates a key expression to the key of its object.
pub fn forward(prefix: &str, key_expr: &KeyExpression) -> (res: Result<String, StorageError>)
    ensures
        outcome_view(res) == forward_spec(prefix@, key_expr@),
{
    let key = key_expr.as_str();
    let rest: String = if prefix.unicode_len() == 0 {
        key.to_owned()
    } else if same_text(key, prefix) {
        String::new()
    } else {
        let mut front = prefix.to_owned();
        front.append("/");
        proof {
            reveal_strlit("/");
            assert(front@ =~= prefix@ + seq!['/']);
        }
        if !starts_with(key, front.as_str()) {
            return Err(StorageError::InvalidKey { key: key.to_owned() });
        }
        skip_chars(key, front.as_str().unicode_len())
    };
    if same_text(rest.as_str(), NONE_KEY) {
        Err(StorageError::InvalidKey { key: key.to_owned() })
    } else if rest.as_str().unicode_len() == 0 {
        Ok(NONE_KEY.to_owned())
    } else {
        Ok(rest)
    }
}

/// Translates the key of an object back to its key expression.
pub fn reverse(prefix: &str, object_key: &str) -> (res: Result<Option<KeyExpression>, StorageError>)
    ensures
        (match res {
            Ok(Some(key_expr)) => reverse_spec(prefix@, object_key@) == Ok::<
                Option<Seq<char>>,
                StorageErrorView,
            >(Some(key_expr@)),
            Ok(None) => reverse_spec(prefix@, object_key@) == Ok::<
                Option<Seq<char>>,
                StorageErrorView,
            >(None),
            Err(e) => reverse_spec(prefix@, object_key@) == Err::<
                Option<Seq<char>>,
                StorageErrorView,
            >(e@),
        }),
{
    if same_text(object_key, NONE_KEY) {
        return Ok(None);
    }
    let mut joined = prefix.to_owned();
    joined.append("/");
    joined.append(object_key);
    proof {
        reveal_strlit("/");
        assert(joined@ =~= prefix@ + seq!['/'] + object_key@);
    }
    let text = trim_start_slashes(joined.as_str());
    match KeyExpression::new(text.as_str()) {
        Ok(key_expr) => Ok(Some(key_expr)),
        Err(_) => Err(StorageError::InvalidKey { key: object_key.to_owned() }),
    }
}

/// A key expression that continues the prefix comes back from the key of its
/// object.
pub proof fn lemma_reverse_of_forward(prefix: Seq<char>, key: Seq<char>)
    requires
        is_key_expression(key),
        key != prefix,
        forward_spec(prefix, key) is Ok,
    ensures
        reverse_spec(prefix, forward_spec(prefix, key)->Ok_0) == Ok::<
            Option<Seq<char>>,
            StorageErrorView,
        >(Some(key)),
{
    reveal_strlit("@@none_key@@");
    let object_key = forward_spec(prefix, key)->Ok_0;
    let rest = remainder(prefix, key);
    if prefix.len() == 0 {
        assert(prefix + seq!['/'] + object_key =~= seq!['/'] + key);
        lemma_trim_skips_slash(key);
        lemma_trim_without_leading_slash(key);
    } else {
        let front = prefix + seq!['/'];
        assert(front.is_prefix_of(key));
        assert(key.subrange(0, front.len() as int) == front);
        assert(rest.len() > 0) by {
            if key.len() == front.len() {
                assert(key.last() == front[front.len() - 1]);
            }
        }
        assert(prefix + seq!['/'] + object_key =~= key);
        lemma_trim_without_leading_slash(key);
    }
}

/// Two key expressions that have an object have different objects.
pub proof fn lemma_forward_is_injective(prefix: Seq<char>, first: Seq<char>, second: Seq<char>)
    requires
        is_key_expression(first),
        is_key_expression(second),
        forward_spec(prefix, first) is Ok,
        forward_spec(prefix, first) == forward_spec(prefix, second),
    ensures
        first == second,
{
    if first == prefix || second == prefix {
        lemma_none_key_is_reserved(prefix, first);
        lemma_none_key_is_reserved(prefix, second);
    } else {
        lemma_reverse_of_forward(prefix, first);
        lemma_reverse_of_forward(prefix, second);
    }
}

/// The key expression that equals the prefix is kept under [`NONE_KEY`], and
/// [`NONE_KEY`] translates back to no key expression at all.
pub proof fn lemma_prefix_maps_to_none_key(prefix: Seq<char>)
    ensures
        forward_spec(prefix, prefix) == Ok::<Seq<char>, StorageErrorView>(NONE_KEY@),
        reverse_spec(prefix, NONE_KEY@) == Ok::<Option<Seq<char>>, StorageErrorView>(None),
{
    reveal_strlit("@@none_key@@");
}

/// [`forward`] never hands out [`NONE_KEY`] for a key expression other than
/// the prefix.
pub proof fn lemma_none_key_is_reserved(prefix: Seq<char>, key: Seq<char>)
    requires
        is_key_expression(key),
        forward_spec(prefix, key) == Ok::<Seq<char>, StorageErrorView>(NONE_KEY@),
    ensures
        key == prefix,
{
    reveal_strlit("@@none_key@@");
    let front = prefix + seq!['/'];
    if key != prefix && prefix.len() > 0 {
        assert(key.subrange(0, front.len() as int) == front);
        assert(key.last() == front[front.len() - 1]);
    }
}

} // verus!

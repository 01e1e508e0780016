//! Key expressions: the hierarchical, wildcard-capable addresses of the
//! namespace. Their grammar and their intersection are those of zenoh.

use crate::error::outcome_view;
use crate::error::StorageError;
use crate::error::StorageErrorView;
use std::str::FromStr;
use vstd::prelude::*;
use zenoh::key_expr::keyexpr;
use zenoh::key_expr::OwnedKeyExpr;

verus! {

/// Whether zenoh accepts `text` as a key expression: what
/// `OwnedKeyExpr::from_str` decides.
pub uninterp spec fn key_expr_is_valid(text: Seq<char>) -> bool;

/// Whether two key expressions have a key in common: what
/// `keyexpr::intersects` returns for them.
pub uninterp spec fn key_exprs_intersect(left: Seq<char>, right: Seq<char>) -> bool;

/// What holds of the text of every [`KeyExpression`]: zenoh accepts it, and so
/// it is not empty and neither begins nor ends with `/`.
pub open spec fn is_key_expression(text: Seq<char>) -> bool {
    &&& key_expr_is_valid(text)
    &&& text.len() > 0
    &&& text[0] != '/'
    &&& text.last() != '/'
}

/// What reading `text` as a key expression gives: the text itself where
/// zenoh accepts it, else `InvalidKey`.
pub open spec fn key_expression_spec(text: Seq<char>) -> Result<Seq<char>, StorageErrorView> {
    if key_expr_is_valid(text) {
        Ok(text)
    } else {
        Err(StorageErrorView::InvalidKey { key: text })
    }
}

/// Calls `OwnedKeyExpr::from_str` and hands back the text of the key
/// expression it built.
///
/// zenoh accepts a text as it stands or not at all, so the text that comes
/// back is the one that went in. It splits the text at each `/` and refuses
/// it when a chunk is empty, which an empty text and a text that begins or
/// ends with `/` all have.
#[verifier::external_body]
fn parse_owned_key_expr(text: &str) -> (res: Option<String>)
    ensures
        res is Some <==> key_expr_is_valid(text@),
        res matches Some(parsed) ==> parsed@ == text@ && text@.len() > 0 && text@[0] != '/'
            && text@.last() != '/',
{
    OwnedKeyExpr::from_str(text).ok().map(String::from)
}

/// Calls `keyexpr::intersects` on two texts that zenoh accepts as key
/// expressions.
#[verifier::external_body]
fn key_expr_intersects(left: &str, right: &str) -> (res: bool)
    requires
        key_expr_is_valid(left@),
        key_expr_is_valid(right@),
    ensures
        res == key_exprs_intersect(left@, right@),
{
    match (keyexpr::new(left), keyexpr::new(right)) {
        (Ok(l), Ok(r)) => l.intersects(r),
        _ => false,
    }
}

/// A key expression that zenoh accepts.
#[derive(Debug, PartialEq, Eq)]
pub struct KeyExpression {
    text: String,
}

impl View for KeyExpression {
    type V = Seq<char>;

    closed spec fn view(&self) -> Seq<char> {
        self.text@
    }
}

impl Clone for KeyExpression {
    fn clone(&self) -> (res: Self)
        ensures
            res@ == self@,
    {
        proof {
            use_type_invariant(self);
        }
        KeyExpression { text: self.text.clone() }
    }
}

impl KeyExpression {
    #[verifier::type_invariant]
    spec fn well_formed(&self) -> bool {
        is_key_expression(self.text@)
    }

    /// Reads `text` as a key expression. Fails with `InvalidKey` exactly when
    /// zenoh does not accept `text`.
    pub fn new(text: &str) -> (res: Result<KeyExpression, StorageError>)
        ensures
            outcome_view(res) == key_expression_spec(text@),
    {
        match parse_owned_key_expr(text) {
            Some(parsed) => Ok(KeyExpression { text: parsed }),
            None => Err(StorageError::InvalidKey { key: text.to_owned() }),
        }
    }

    /// The text of the key expression.
    pub fn as_str(&self) -> (res: &str)
        ensures
            res@ == self@,
            is_key_expression(res@),
    {
        proof {
            use_type_invariant(self);
        }
        self.text.as_str()
    }

    /// Whether some key belongs to both `self` and `other`.
    pub fn intersects(&self, other: &KeyExpression) -> (res: bool)
        ensures
            res == key_exprs_intersect(self@, other@),
    {
        key_expr_intersects(self.as_str(), other.as_str())
    }
}

} // verus!

use zenoh_backend_s3::error::StorageError;
use zenoh_backend_s3::key_expr::KeyExpression;

#[test]
fn key_expression_keeps_its_text() {
    let key_expr = KeyExpression::new("demo/example/**").unwrap();
    assert_eq!(key_expr.as_str(), "demo/example/**");
    assert_eq!(key_expr.clone(), key_expr);
}

#[test]
fn key_expression_refuses_what_zenoh_refuses() {
    for text in ["", "/", "/a", "a/", "a//b", "a#b", "a?b", "a$b", "a/**/**", "a/**/*", "a/$*", "a*b"] {
        assert_eq!(
            KeyExpression::new(text),
            Err(StorageError::InvalidKey { key: text.to_string() }),
            "{:?}",
            text
        );
    }
}

#[test]
fn key_expression_accepts_wildcards_in_canon_form() {
    for text in ["a", "a/b", "*", "**", "a/*/b", "a/**/b", "a/b$*", "a/*/**", "@@none_key@@"] {
        assert!(KeyExpression::new(text).is_ok(), "{:?}", text);
    }
}

#[test]
fn key_expressions_intersect_where_they_share_a_key() {
    let filter = KeyExpression::new("a/*").unwrap();
    assert!(KeyExpression::new("a/1").unwrap().intersects(&filter));
    assert!(KeyExpression::new("a/2").unwrap().intersects(&filter));
    assert!(filter.intersects(&KeyExpression::new("*/1").unwrap()));
    assert!(KeyExpression::new("a/b/c").unwrap().intersects(&KeyExpression::new("a/**").unwrap()));
    assert!(KeyExpression::new("a/b").unwrap().intersects(&KeyExpression::new("a/b").unwrap()));
}

#[test]
fn key_expressions_do_not_intersect_where_they_share_none() {
    let filter = KeyExpression::new("a/*").unwrap();
    assert!(!KeyExpression::new("b/1").unwrap().intersects(&filter));
    assert!(!KeyExpression::new("a/1/2").unwrap().intersects(&filter));
    assert!(!KeyExpression::new("a").unwrap().intersects(&filter));
    assert!(!KeyExpression::new("a/b").unwrap().intersects(&KeyExpression::new("a/c").unwrap()));
}

use static_site_generator::errors::BuildError;
use static_site_generator::records::{load_groups, load_statuses};
use static_site_generator::text::{str_eq, u64_to_dec};

const GOOD_STATUSES: &str = r#"[
  {"code": "404", "reason": "Not Found",
   "description": "The requested resource could not be found.",
   "link": "https://httpstatuses.io/404"},
  {"code": "500", "reason": "Internal Server Error",
   "description": "The server met an unexpected condition.",
   "link": "https://httpstatuses.io/500"}
]"#;

#[test]
fn loads_valid_statuses() {
    let v = load_statuses(GOOD_STATUSES).unwrap();
    assert_eq!(v.len(), 2);
    assert_eq!(v[0].code, "404");
    assert_eq!(v[0].reason, "Not Found");
    assert_eq!(v[0].description, "The requested resource could not be found.");
    assert_eq!(v[0].link, "https://httpstatuses.io/404");
    assert_eq!(v[1].code, "500");
}

#[test]
fn empty_array_loads_zero_records() {
    let v = load_statuses("[]").unwrap();
    assert_eq!(v.len(), 0);
}

#[test]
fn malformed_text_is_a_schema_error() {
    let e = load_statuses("not json at all").unwrap_err();
    assert!(matches!(e, BuildError::Schema(_)));
}

#[test]
fn non_array_top_level_is_a_schema_error() {
    let e = load_statuses(r#"{"code": "404"}"#).unwrap_err();
    assert!(matches!(e, BuildError::Schema(_)));
}

#[test]
fn missing_field_is_a_schema_error() {
    let e = load_statuses(r#"[{"code": "404", "description": "d", "link": "l"}]"#).unwrap_err();
    assert!(matches!(e, BuildError::Schema(_)));
}

#[test]
fn extra_field_is_a_schema_error() {
    let e = load_statuses(
        r#"[{"code": "404", "reason": "r", "description": "d", "link": "l", "more": "x"}]"#,
    )
    .unwrap_err();
    assert!(matches!(e, BuildError::Schema(_)));
}

#[test]
fn mistyped_field_is_a_schema_error() {
    let e = load_statuses(r#"[{"code": 404, "reason": "r", "description": "d", "link": "l"}]"#)
        .unwrap_err();
    assert!(matches!(e, BuildError::Schema(_)));
}

#[test]
fn empty_code_is_a_schema_error() {
    let e = load_statuses(r#"[{"code": "", "reason": "r", "description": "d", "link": "l"}]"#)
        .unwrap_err();
    assert!(matches!(e, BuildError::Schema(_)));
}

#[test]
fn path_separator_in_code_is_a_schema_error() {
    let e = load_statuses(r#"[{"code": "a/b", "reason": "r", "description": "d", "link": "l"}]"#)
        .unwrap_err();
    assert!(matches!(e, BuildError::Schema(_)));
}

#[test]
fn loads_valid_groups() {
    let v = load_groups(
        r#"[{"title": "Client errors", "description": "4xx", "link": "https://example.net/4xx",
             "codes": [400, 401, 404]}]"#,
    )
    .unwrap();
    assert_eq!(v.len(), 1);
    assert_eq!(v[0].title, "Client errors");
    assert_eq!(v[0].description, "4xx");
    assert_eq!(v[0].link, "https://example.net/4xx");
    assert_eq!(v[0].codes, vec![400, 401, 404]);
}

#[test]
fn negative_group_code_is_a_schema_error() {
    let e = load_groups(
        r#"[{"title": "t", "description": "d", "link": "l", "codes": [-1]}]"#,
    )
    .unwrap_err();
    assert!(matches!(e, BuildError::Schema(_)));
}

#[test]
fn fractional_group_code_is_a_schema_error() {
    let e = load_groups(
        r#"[{"title": "t", "description": "d", "link": "l", "codes": [4.5]}]"#,
    )
    .unwrap_err();
    assert!(matches!(e, BuildError::Schema(_)));
}

#[test]
fn group_missing_codes_is_a_schema_error() {
    let e = load_groups(r#"[{"title": "t", "description": "d", "link": "l"}]"#).unwrap_err();
    assert!(matches!(e, BuildError::Schema(_)));
}

#[test]
fn str_eq_compares_by_content() {
    assert!(str_eq("abc", "abc"));
    assert!(!str_eq("abc", "abd"));
    assert!(!str_eq("abc", "ab"));
    assert!(str_eq("", ""));
}

#[test]
fn renders_decimals_exactly() {
    assert_eq!(u64_to_dec(0), "0");
    assert_eq!(u64_to_dec(7), "7");
    assert_eq!(u64_to_dec(404), "404");
    assert_eq!(u64_to_dec(1000), "1000");
    assert_eq!(u64_to_dec(u64::MAX), "18446744073709551615");
}

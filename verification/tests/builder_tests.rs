use static_site_generator::builder::{plan_site, BuildInputs, IndexInputs};
use static_site_generator::context::{build_page_context, join_codes};
use static_site_generator::errors::BuildError;
use static_site_generator::records::StatusRecord;
use static_site_generator::template::{compile, render};

const ONE_STATUS: &str = r#"[
  {"code": "404", "reason": "Not Found",
   "description": "The requested resource could not be found.",
   "link": "https://httpstatuses.io/404"}
]"#;

const TWO_STATUSES: &str = r#"[
  {"code": "404", "reason": "Not Found",
   "description": "The requested resource could not be found.",
   "link": "https://httpstatuses.io/404"},
  {"code": "200", "reason": "OK",
   "description": "The request succeeded.",
   "link": "https://httpstatuses.io/200"}
]"#;

const GROUPS: &str = r#"[
  {"title": "Client errors", "description": "4xx", "link": "https://example.net/4xx",
   "codes": [400, 404]},
  {"title": "Server errors", "description": "5xx", "link": "https://example.net/5xx",
   "codes": [500]}
]"#;

fn inputs(statuses: &str, page_template: &str, index: Option<(&str, &str)>) -> BuildInputs {
    BuildInputs {
        statuses_text: statuses.to_string(),
        page_template: page_template.to_string(),
        index: index.map(|(g, t)| IndexInputs {
            groups_text: g.to_string(),
            template: t.to_string(),
        }),
    }
}

#[test]
fn one_file_per_record() {
    let files = plan_site(&inputs(TWO_STATUSES, "{status_code}", None)).unwrap();
    assert_eq!(files.len(), 2);
    assert_eq!(files[0].name, "404.html");
    assert_eq!(files[1].name, "200.html");
}

#[test]
fn renders_the_documented_page() {
    let files = plan_site(&inputs(
        ONE_STATUS,
        "<title>{title}</title><p>{status_description}</p>",
        None,
    ))
    .unwrap();
    assert_eq!(files.len(), 1);
    assert_eq!(files[0].name, "404.html");
    assert_eq!(
        files[0].contents,
        "<title>404 - Not Found</title><p>The requested resource could not be found.</p>"
    );
}

#[test]
fn page_context_holds_the_computed_fields() {
    let rec = StatusRecord {
        code: "404".to_string(),
        reason: "Not Found".to_string(),
        description: "The requested resource could not be found.".to_string(),
        link: "https://httpstatuses.io/404".to_string(),
    };
    let ctx = build_page_context(&rec);
    let t = compile("page".to_string(), "{title}|{description}|{status_spec_link}").unwrap();
    let out = render(&t, &ctx).unwrap();
    assert_eq!(
        out,
        "404 - Not Found|Http Status Page - Returns the status, while presenting a page \
         with the code, reason, and description. In this case: 404 - Not Found - \
         The requested resource could not be found.|https://httpstatuses.io/404"
    );
}

#[test]
fn rerunning_the_plan_is_idempotent() {
    let index = Some((GROUPS, "<h2>{title}</h2><p>{codes}</p>"));
    let a = plan_site(&inputs(TWO_STATUSES, "<p>{title}</p>", index)).unwrap();
    let b = plan_site(&inputs(TWO_STATUSES, "<p>{title}</p>", index)).unwrap();
    assert_eq!(a.len(), b.len());
    for (x, y) in a.iter().zip(b.iter()) {
        assert_eq!(x.name, y.name);
        assert_eq!(x.contents, y.contents);
    }
}

#[test]
fn empty_collection_plans_only_the_index() {
    let index = Some(("[]", "nothing to list"));
    let files = plan_site(&inputs("[]", "{title}", index)).unwrap();
    assert_eq!(files.len(), 1);
    assert_eq!(files[0].name, "index.html");
    assert_eq!(files[0].contents, "");

    let none = plan_site(&inputs("[]", "{title}", None)).unwrap();
    assert_eq!(none.len(), 0);
}

#[test]
fn index_concatenates_one_fragment_per_group() {
    let index = Some((GROUPS, "<h2>{title}</h2><p>{description}: {codes}</p>"));
    let files = plan_site(&inputs("[]", "{title}", index)).unwrap();
    assert_eq!(files[0].name, "index.html");
    assert_eq!(
        files[0].contents,
        "<h2>Client errors</h2><p>4xx: 400, 404</p><h2>Server errors</h2><p>5xx: 500</p>"
    );
}

#[test]
fn schema_error_plans_no_file() {
    let bad = r#"[{"code": "404", "description": "d", "link": "l"}]"#;
    let e = plan_site(&inputs(bad, "{title}", None)).unwrap_err();
    assert!(matches!(e, BuildError::Schema(_)));
}

#[test]
fn bad_group_data_is_a_schema_error() {
    let index = Some(("[3]", "{title}"));
    let e = plan_site(&inputs("[]", "{title}", index)).unwrap_err();
    assert!(matches!(e, BuildError::Schema(_)));
}

#[test]
fn bad_page_template_is_a_syntax_error() {
    let e = plan_site(&inputs("[]", "broken {", None)).unwrap_err();
    assert!(matches!(e, BuildError::TemplateSyntax(_)));
}

#[test]
fn bad_index_template_is_a_syntax_error() {
    let index = Some(("[]", "also } broken"));
    let e = plan_site(&inputs("[]", "{title}", index)).unwrap_err();
    assert!(matches!(e, BuildError::TemplateSyntax(_)));
}

#[test]
fn unknown_page_placeholder_is_a_missing_field_error() {
    let e = plan_site(&inputs(ONE_STATUS, "{no_such_field}", None)).unwrap_err();
    assert!(matches!(e, BuildError::MissingField(_)));
}

#[test]
fn unknown_index_placeholder_is_a_missing_field_error() {
    let index = Some((GROUPS, "{no_such_field}"));
    let e = plan_site(&inputs("[]", "{title}", index)).unwrap_err();
    assert!(matches!(e, BuildError::MissingField(_)));
}

#[test]
fn duplicate_codes_plan_duplicate_names_last_wins_on_write() {
    let dup = r#"[
      {"code": "404", "reason": "a", "description": "d1", "link": "l"},
      {"code": "404", "reason": "b", "description": "d2", "link": "l"}
    ]"#;
    let files = plan_site(&inputs(dup, "{status_reason}", None)).unwrap();
    assert_eq!(files.len(), 2);
    assert_eq!(files[0].name, "404.html");
    assert_eq!(files[1].name, "404.html");
    assert_eq!(files[1].contents, "b");
}

#[test]
fn joins_codes_with_comma_and_space() {
    assert_eq!(join_codes(&vec![100, 101, 102]), "100, 101, 102");
    assert_eq!(join_codes(&vec![500]), "500");
    assert_eq!(join_codes(&vec![]), "");
}

#[test]
fn outer_error_variants_carry_their_detail() {
    let a = BuildError::Asset("styles".to_string());
    assert_eq!(a.detail(), "styles");
    let o = BuildError::Output("result".to_string());
    assert_eq!(o.detail(), "result");
}

use sone_commands::json::JsonValue;
use sone_commands::page_debug::{
    bearer_authorization, debug_endpoints, debug_query, debug_report, endpoint_url,
    push_report_part, require_access_token, status_is_success, CommandError, EndpointReport,
    EndpointResult,
};
use sone_commands::text::{push_bool, push_debug_quoted, push_decimal, push_padded};

fn s(t: &str) -> JsonValue {
    JsonValue::Str(t.to_string())
}

fn obj(members: Vec<(&str, JsonValue)>) -> JsonValue {
    JsonValue::Object(members.into_iter().map(|(k, v)| (k.to_string(), v)).collect())
}

fn report(endpoint: &str, result: EndpointResult) -> EndpointReport {
    EndpointReport { endpoint: endpoint.to_string(), result }
}

#[test]
fn decimal_and_padding() {
    let mut t = String::new();
    push_decimal(&mut t, 0);
    t.push('|');
    push_decimal(&mut t, 1907);
    t.push('|');
    push_padded(&mut t, "abc", 6);
    t.push('|');
    push_padded(&mut t, "abcdef", 3);
    t.push('|');
    push_padded(&mut t, "é", 3);
    t.push('|');
    push_bool(&mut t, true);
    push_bool(&mut t, false);
    assert_eq!(t, "0|1907|abc   |abcdef|é  |truefalse");
}

#[test]
fn debug_quoting() {
    let mut t = String::new();
    push_debug_quoted(&mut t, "say \"hi\"");
    assert_eq!(t, "\"say \\\"hi\\\"\"");
}

#[test]
fn json_navigation() {
    let doc = obj(vec![
        ("a", s("x")),
        ("b", JsonValue::Array(vec![JsonValue::Null, JsonValue::Bool(true)])),
        ("a", s("second")),
    ]);
    match doc.get(&"a".to_string()) {
        Some(JsonValue::Str(v)) => assert_eq!(v, "x"),
        other => panic!("unexpected {:?}", other),
    }
    assert!(doc.get(&"c".to_string()).is_none());
    assert_eq!(doc.get(&"b".to_string()).unwrap().as_array().unwrap().len(), 2);
    assert!(doc.get(&"a".to_string()).unwrap().as_array().is_none());
    assert_eq!(doc.get(&"a".to_string()).unwrap().as_str().unwrap(), "x");
    assert_eq!(doc.keys(), vec!["a".to_string(), "b".to_string(), "a".to_string()]);
    assert!(JsonValue::Number("3".to_string()).keys().is_empty());
    assert!(s("x").get(&"a".to_string()).is_none());
}

#[test]
fn endpoints_and_request_parts() {
    let endpoints = debug_endpoints();
    assert_eq!(endpoints.len(), 8);
    assert_eq!(endpoints[0], "pages/home");
    assert_eq!(endpoints[7], "pages/show/essential_album");
    assert_eq!(endpoint_url("pages/home"), "https://api.tidal.com/v1/pages/home");
    assert_eq!(bearer_authorization("tok"), "Bearer tok");
    assert_eq!(
        debug_query(),
        vec![("countryCode", "US"), ("deviceType", "BROWSER"), ("locale", "en_US")]
    );
}

#[test]
fn access_token_required() {
    assert_eq!(require_access_token(Some("abc".to_string())), Ok("abc".to_string()));
    assert_eq!(require_access_token(None), Err(CommandError::NotAuthenticated));
}

#[test]
fn success_statuses() {
    assert!(status_is_success(200));
    assert!(status_is_success(204));
    assert!(status_is_success(299));
    assert!(!status_is_success(199));
    assert!(!status_is_success(300));
    assert!(!status_is_success(404));
}

#[test]
fn error_reports() {
    let reports = vec![
        report("pages/home", EndpointResult::FetchError("timed out".to_string())),
        report("pages/explore", EndpointResult::HttpError(404)),
        report("pages/for_you", EndpointResult::ParseError("EOF while parsing".to_string())),
        report("pages/x", EndpointResult::HttpError(799)),
    ];
    assert_eq!(
        debug_report(&reports),
        "=== pages/home ===\n  FETCH ERROR: timed out\n\n\
         === pages/explore ===\n  ERROR: status 404 Not Found\n\n\
         === pages/for_you ===\n  PARSE ERROR: EOF while parsing\n\n\
         === pages/x ===\n  ERROR: status 799 <unknown status code>\n\n"
    );
}

#[test]
fn rows_report() {
    let module_paged = obj(vec![
        ("pagedList", obj(vec![("items", JsonValue::Array(vec![JsonValue::Null, JsonValue::Null]))])),
        ("showMore", JsonValue::Null),
        ("title", s("Mixes")),
        ("type", s("MIX_LIST")),
    ]);
    let module_highlights = obj(vec![
        ("highlights", JsonValue::Array(vec![JsonValue::Null])),
        ("title", JsonValue::Number("5".to_string())),
    ]);
    let doc = obj(vec![(
        "rows",
        JsonValue::Array(vec![
            obj(vec![("modules", JsonValue::Array(vec![module_paged]))]),
            obj(vec![("other", JsonValue::Null)]),
            obj(vec![("modules", JsonValue::Array(vec![module_highlights]))]),
        ]),
    )]);
    let mut t = String::new();
    push_report_part(&mut t, &report("pages/home", EndpointResult::Document(doc)));
    let expected = format!(
        "=== pages/home ===\n  Top-level keys: [\"rows\"]\n  FORMAT: V1 (rows), 3 rows\n\
         {}\n{}\n\n",
        format!(
            "    Row 0: type={:<30} title=\"Mixes\" items=2 more=true",
            "MIX_LIST"
        ),
        format!("    Row 2: type={:<30} title=\"(no title)\" items=1 more=false", "?")
    );
    assert_eq!(t, expected);
}

#[test]
fn sections_report() {
    let first = obj(vec![
        ("items", JsonValue::Array(vec![obj(vec![("type", s("ALBUM"))]), JsonValue::Null])),
        ("title", s("New")),
        ("type", s("HORIZONTAL_LIST")),
        ("viewAll", s("pages/x")),
    ]);
    let second = obj(vec![
        ("titleTextInfo", obj(vec![("text", s("Because you liked"))])),
        ("items", JsonValue::Array(vec![])),
    ]);
    let third = obj(vec![("showMore", JsonValue::Bool(false))]);
    let doc = obj(vec![
        ("items", JsonValue::Array(vec![first, second, third])),
        ("title", s("Home")),
    ]);
    let reports = vec![report("pages/home", EndpointResult::Document(doc))];
    let expected = format!(
        "=== pages/home ===\n  Top-level keys: [\"items\", \"title\"]\n  FORMAT: V2 (items), 3 sections\n\
         {}\n{}\n{}\n\n",
        format!(
            "    Sec 0: type={:<35} title=\"New\" items=2 first=ALBUM more=true",
            "HORIZONTAL_LIST"
        ),
        format!(
            "    Sec 1: type={:<35} title=\"Because you liked\" items=0 first=? more=false",
            "?"
        ),
        format!("    Sec 2: type={:<35} title=\"(no title)\" items=0 first=? more=true", "?")
    );
    assert_eq!(debug_report(&reports), expected);
}

#[test]
fn non_object_document() {
    let reports = vec![report("pages/home", EndpointResult::Document(JsonValue::Array(vec![])))];
    assert_eq!(debug_report(&reports), "=== pages/home ===\n  Top-level keys: []\n\n");
    assert_eq!(debug_report(&vec![]), "");
}

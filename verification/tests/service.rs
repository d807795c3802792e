use hello_actix::handlers::create_sample;
use hello_actix::handlers::dispatch;
use hello_actix::handlers::get_sample;
use hello_actix::handlers::get_samples;
use hello_actix::handlers::health_check;
use hello_actix::json::encode_json_string;
use hello_actix::json::encode_sample;
use hello_actix::json::encode_samples;
use hello_actix::model::DataError;
use hello_actix::model::NewCategory;
use hello_actix::model::Sample;
use hello_actix::responses::create_sample_reply;
use hello_actix::responses::get_sample_reply;
use hello_actix::responses::get_samples_reply;
use hello_actix::responses::handle_db_error;
use hello_actix::routing::match_route;
use hello_actix::routing::percent_decode;
use hello_actix::routing::Route;
use hello_actix::table::Table;

fn table_with(names: &[&str]) -> Table {
    let mut t = Table::new();
    for n in names {
        t.insert(String::from(*n)).unwrap();
    }
    t
}

#[test]
fn test_health_check() {
    let r = health_check();
    assert!(200 <= r.status && r.status < 300);
    assert_eq!(r.body, "\"OK\"");
}

#[test]
fn test_get_sample() {
    let mut t = table_with(&["Test Sample"]);
    let sample = t.find_by_name("Test Sample").expect("Failed to fetch test data");
    assert_eq!(sample.name, "Test Sample", "Test data is incorrect");
    let r = dispatch(&mut t, "GET", "/samples/Test%20Sample", None);
    assert!(200 <= r.status && r.status < 300);
    assert_eq!(r.body, "{\"name\":\"Test Sample\"}");
}

#[test]
fn test_create_sample() {
    let mut t = Table::new();
    let payload = NewCategory { name: String::from("Test Sample") };
    let r = dispatch(&mut t, "POST", "/samples", Some(payload));
    assert!(200 <= r.status && r.status < 300);
    assert_eq!(r.body, "{\"name\":\"Test Sample\"}");
}

#[test]
fn test_get_samples() {
    let mut t = table_with(&["Test Sample"]);
    assert_eq!(t.len(), 1, "Test data is incorrect");
    let r = dispatch(&mut t, "GET", "/samples", None);
    assert!(200 <= r.status && r.status < 300);
    assert_eq!(r.body, "[{\"name\":\"Test Sample\"}]");
}

#[test]
fn insert_then_find_returns_inserted() {
    let mut t = Table::new();
    let stored = t.insert(String::from("alpha")).unwrap();
    assert_eq!(stored.name, "alpha");
    let found = t.find_by_name("alpha").unwrap();
    assert_eq!(found.name, stored.name);
}

#[test]
fn find_missing_yields_not_found() {
    let t = table_with(&["alpha", "beta"]);
    assert!(matches!(t.find_by_name("gamma"), Err(DataError::NotFound)));
    let r = get_sample(&t, "gamma");
    assert_eq!(r.status, 404);
    assert_eq!(r.body, "\"Sample not found\"");
}

#[test]
fn empty_table_lists_empty_array() {
    let t = Table::new();
    let rows = t.list_all().unwrap();
    assert!(rows.is_empty());
    let r = get_samples(&t);
    assert_eq!(r.status, 200);
    assert_eq!(r.body, "[]");
}

#[test]
fn scenario_create_then_list_then_fetch() {
    let mut t = Table::new();
    let created = dispatch(
        &mut t,
        "POST",
        "/samples",
        Some(NewCategory { name: String::from("Test Sample") }),
    );
    assert_eq!(created.status, 201);
    assert_eq!(created.body, "{\"name\":\"Test Sample\"}");
    let listed = dispatch(&mut t, "GET", "/samples", None);
    assert_eq!(listed.status, 200);
    assert_eq!(listed.body, "[{\"name\":\"Test Sample\"}]");
    let fetched = dispatch(&mut t, "GET", "/samples/Test%20Sample", None);
    assert_eq!(fetched.status, 200);
    assert_eq!(fetched.body, "{\"name\":\"Test Sample\"}");
}

#[test]
fn scenario_fetch_nonexistent_is_404() {
    let mut t = Table::new();
    let r = dispatch(&mut t, "GET", "/samples/Nonexistent", None);
    assert_eq!(r.status, 404);
}

#[test]
fn repeated_listing_is_identical() {
    let t = table_with(&["alpha", "beta", "alpha"]);
    let first = get_samples(&t);
    let second = get_samples(&t);
    assert_eq!(first.status, second.status);
    assert_eq!(first.body, second.body);
}

#[test]
fn duplicate_names_find_first_match() {
    let mut t = table_with(&["alpha"]);
    t.insert(String::from("alpha")).unwrap();
    assert_eq!(t.len(), 2);
    let found = t.find_by_name("alpha").unwrap();
    assert_eq!(found.name, "alpha");
}

#[test]
fn create_reply_translates_conflict_to_500() {
    let r = create_sample_reply(Err(DataError::Conflict));
    assert_eq!(r.status, 500);
    assert_eq!(r.body, "\"Internal server error\"");
}

#[test]
fn create_reply_translates_not_found_to_404() {
    let r = handle_db_error(DataError::NotFound);
    assert_eq!(r.status, 404);
    assert_eq!(r.body, "\"Resource not found\"");
}

#[test]
fn create_reply_translates_other_to_500() {
    let r = create_sample_reply(Err(DataError::Other));
    assert_eq!(r.status, 500);
    assert_eq!(r.body, "\"Internal server error\"");
}

#[test]
fn list_failure_maps_to_500() {
    let r = get_samples_reply(Err(DataError::Other));
    assert_eq!(r.status, 500);
    assert_eq!(r.body, "\"Failed to fetch samples\"");
}

#[test]
fn fetch_failure_maps_to_404() {
    let r = get_sample_reply(Err(DataError::Other));
    assert_eq!(r.status, 404);
    assert_eq!(r.body, "\"Sample not found\"");
}

#[test]
fn json_escapes_quotes_and_backslashes() {
    let s = Sample { name: String::from("a\"b\\c") };
    assert_eq!(encode_sample(&s), "{\"name\":\"a\\\"b\\\\c\"}");
}

#[test]
fn json_escapes_control_characters() {
    assert_eq!(encode_json_string("a\nb\tc"), "\"a\\nb\\tc\"");
    assert_eq!(encode_json_string("\u{1}\u{1f}"), "\"\\u0001\\u001f\"");
    assert_eq!(encode_json_string("\u{8}\u{c}\r"), "\"\\b\\f\\r\"");
}

#[test]
fn json_keeps_plain_text() {
    assert_eq!(encode_json_string(""), "\"\"");
    assert_eq!(encode_json_string("héllo"), "\"héllo\"");
}

#[test]
fn json_array_of_several_samples() {
    let rows = vec![
        Sample { name: String::from("a") },
        Sample { name: String::from("b") },
    ];
    assert_eq!(encode_samples(&rows), "[{\"name\":\"a\"},{\"name\":\"b\"}]");
}

#[test]
fn percent_decode_decodes_ascii_escapes() {
    assert_eq!(percent_decode("%41%20b").as_deref(), Some("A b"));
    assert_eq!(percent_decode("plain").as_deref(), Some("plain"));
}

#[test]
fn percent_decode_rejects_bad_escapes() {
    assert_eq!(percent_decode("%zz"), None);
    assert_eq!(percent_decode("%4"), None);
    assert_eq!(percent_decode("%e9"), None);
}

#[test]
fn routes_match_method_and_path() {
    assert!(matches!(match_route("GET", "/health"), Route::Health));
    assert!(matches!(match_route("GET", "/samples"), Route::ListSamples));
    assert!(matches!(match_route("POST", "/samples"), Route::CreateSample));
    match match_route("GET", "/samples/Test%20Sample") {
        Route::GetSample(name) => assert_eq!(name, "Test Sample"),
        _ => panic!("expected the single-record route"),
    }
    assert!(matches!(match_route("PUT", "/samples"), Route::NoMatch));
    assert!(matches!(match_route("GET", "/samples/"), Route::NoMatch));
    assert!(matches!(match_route("GET", "/samples/a/b"), Route::NoMatch));
    assert!(matches!(match_route("POST", "/health"), Route::NoMatch));
}

#[test]
fn missing_creation_payload_is_400() {
    let mut t = Table::new();
    let r = dispatch(&mut t, "POST", "/samples", None);
    assert_eq!(r.status, 400);
    assert_eq!(t.len(), 0);
}

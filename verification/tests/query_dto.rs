use rosemary::client::translations::Language;
use rosemary::dto::generic_response::{GenericResponse, Status};
use rosemary::dto::get_paintings_query::GetPaintingsQuery;
use rosemary::dto::paginated_result::PaginatedResult;
use rosemary::dto::salute_you::SaluteYou;
use rosemary::dto::employee::Employee;
use rosemary::models::user_entries::UserEntryType;

fn raw_query() -> GetPaintingsQuery {
    GetPaintingsQuery {
        limit: None,
        offset: None,
        sort: None,
        order: None,
        search: None,
        lang: None,
    }
}

#[test]
fn default_query_page() {
    let parsed = GetPaintingsQuery::default(Some(Language::En));
    assert_eq!(parsed.limit, 20);
    assert_eq!(parsed.offset, 0);
    assert_eq!(parsed.sort, "created");
    assert_eq!(parsed.order, "desc");
    assert_eq!(parsed.lang, "en");
    assert!(parsed.search.is_none());

    let fallback = GetPaintingsQuery::default(None);
    assert_eq!(fallback.lang, "cs");
}

#[test]
fn safe_parse_clamps_and_defaults() {
    let mut query = raw_query();
    query.limit = Some(101);
    query.offset = Some(40);
    query.sort = Some(String::from("price"));
    query.order = Some(String::from("ASC"));
    query.search = Some(String::from("sea"));

    let parsed = query.safe_parse(Some(Language::En));
    assert_eq!(parsed.limit, 0);
    assert_eq!(parsed.offset, 40);
    assert_eq!(parsed.sort, "price");
    assert_eq!(parsed.order, "asc");
    assert_eq!(parsed.search.as_deref(), Some("sea"));
    assert_eq!(parsed.lang, "en");
}

#[test]
fn safe_parse_localizes_text_columns() {
    let mut query = raw_query();
    query.sort = Some(String::from("painting_title"));
    let parsed = query.safe_parse(None);
    assert_eq!(parsed.sort, "painting_title->>'cs'");

    let mut query = raw_query();
    query.sort = Some(String::from("painting_description"));
    let parsed = query.safe_parse(Some(Language::En));
    assert_eq!(parsed.sort, "painting_description->>'en'");
}

#[test]
fn safe_parse_refuses_unknown_columns() {
    let mut query = raw_query();
    query.sort = Some(String::from("id; DROP TABLE paintings"));
    query.order = Some(String::from("sideways"));
    let parsed = query.safe_parse(None);
    assert_eq!(parsed.sort, "created");
    assert_eq!(parsed.order, "desc");
    assert_eq!(parsed.limit, 0);
}

#[test]
fn empty_paginated_result() {
    let page: PaginatedResult<Employee> = PaginatedResult::new();
    assert_eq!(page.rows.len(), 0);
    assert_eq!(page.count, 0);
}

#[test]
fn response_envelope_holds_its_payload() {
    let salute = SaluteYou {
        first_name: String::from("Rose"),
        last_name: String::from("Mary"),
    };
    let response = GenericResponse::new(Status::Success, String::from("ok"), Some(salute));
    assert!(matches!(response.status, Status::Success));
    assert_eq!(response.message, "ok");
    assert_eq!(response.data.unwrap().first_name, "Rose");
}

#[test]
fn entry_type_names() {
    assert_eq!(UserEntryType::ContactForm.to_str(), "contact_form");
    assert_eq!(UserEntryType::ContactForm.to_string(), String::from("contact_form"));
}

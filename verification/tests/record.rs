use gravatar_fdw::cell::{Cell, Column, TypeOid};
use gravatar_fdw::json::Document;
use gravatar_fdw::record::{shape_of, ProfileRecord, Shape};

fn record(body: &str, key: &str) -> ProfileRecord {
    ProfileRecord::new(Document::parse(body).expect("the body is JSON"), key)
}

fn columns(names: &[&str]) -> Vec<Column> {
    names.iter().map(|n| Column::new(n, TypeOid::String)).collect()
}

fn string(s: &str) -> Option<Cell> {
    Some(Cell::String(s.to_string()))
}

fn json(s: &str) -> Option<Cell> {
    Some(Cell::Json(s.to_string()))
}

#[test]
fn missing_named_field_has_no_value() {
    let r = record(r#"{"hash":"h","display_name":"D"}"#, "me@example.com");
    let row = r.project(&columns(&["hash", "display_name", "company"]));
    assert_eq!(row, vec![string("h"), string("D"), None]);
}

#[test]
fn lookup_key_is_the_email_column() {
    let r = record(r#"{"hash":"h"}"#, " Me@Example.com");
    assert_eq!(r.project(&columns(&["email"])), vec![string(" Me@Example.com")]);
}

#[test]
fn lookup_key_replaces_an_email_of_the_document() {
    let r = record(r#"{"email":"other@example.com"}"#, "me@example.com");
    assert_eq!(r.project(&columns(&["email"])), vec![string("me@example.com")]);
}

#[test]
fn cells_come_in_the_order_of_the_columns() {
    let r = record(r#"{"location":"L","company":"C","hash":"h"}"#, "k");
    let row = r.project(&columns(&["company", "hash", "company", "location"]));
    assert_eq!(row, vec![string("C"), string("h"), string("C"), string("L")]);
    assert!(r.project(&Vec::new()).is_empty());
}

#[test]
fn every_string_field_is_read_as_a_string() {
    let names = [
        "hash", "display_name", "profile_url", "avatar_url", "avatar_alt_text", "location",
        "description", "job_title", "company", "pronunciation", "pronouns", "timezone",
        "first_name", "last_name", "last_profile_edit", "registration_date",
    ];
    for name in names {
        let body = format!(r#"{{"{}":"v-{}"}}"#, name, name);
        let r = record(&body, "k");
        let cols = vec![Column::new(name, TypeOid::I64)];
        assert_eq!(r.project(&cols), vec![string(&format!("v-{}", name))], "{}", name);
        assert!(matches!(shape_of(name), Some(Shape::Text)));
    }
    assert!(matches!(shape_of("email"), Some(Shape::Text)));
}

#[test]
fn string_field_of_another_shape_has_no_value() {
    let r = record(r#"{"hash":12,"company":null,"location":["x"],"job_title":true}"#, "k");
    let row = r.project(&columns(&["hash", "company", "location", "job_title"]));
    assert_eq!(row, vec![None, None, None, None]);
}

#[test]
fn nested_fields_are_serialized() {
    let body = r#"{
        "verified_accounts": [{"service_type": "github", "is_hidden": false}],
        "languages": [],
        "links": [{"label": "Blog", "url": "https://example.com"}],
        "interests": [{"id": 1, "name": "rust"}],
        "payments": {"links": [], "crypto_wallets": []},
        "contact_info": null
    }"#;
    let r = record(body, "k");
    let row = r.project(&columns(&[
        "verified_accounts", "languages", "links", "interests", "payments", "contact_info",
    ]));
    assert_eq!(
        row,
        vec![
            json(r#"[{"is_hidden":false,"service_type":"github"}]"#),
            json("[]"),
            json(r#"[{"label":"Blog","url":"https://example.com"}]"#),
            json(r#"[{"id":1,"name":"rust"}]"#),
            json(r#"{"crypto_wallets":[],"links":[]}"#),
            json("null"),
        ]
    );
    for name in ["verified_accounts", "languages", "links", "interests", "payments", "contact_info"] {
        assert!(matches!(shape_of(name), Some(Shape::Nested)));
    }
}

#[test]
fn nested_field_holding_a_string_keeps_its_quotes() {
    let r = record(r#"{"links":"plain"}"#, "k");
    assert_eq!(r.project(&columns(&["links"])), vec![json("\"plain\"")]);
}

#[test]
fn flag_and_count_have_their_own_shapes() {
    let r = record(r#"{"is_organization":true,"number_verified_accounts":3}"#, "k");
    let row = r.project(&columns(&["is_organization", "number_verified_accounts"]));
    assert_eq!(row, vec![Some(Cell::Bool(true)), Some(Cell::I64(3))]);
    assert!(matches!(shape_of("is_organization"), Some(Shape::Flag)));
    assert!(matches!(shape_of("number_verified_accounts"), Some(Shape::Integer)));

    let r = record(r#"{"is_organization":"yes","number_verified_accounts":"3"}"#, "k");
    let row = r.project(&columns(&["is_organization", "number_verified_accounts"]));
    assert_eq!(row, vec![None, None]);
}

#[test]
fn count_must_be_a_64_bit_integer() {
    let count = columns(&["number_verified_accounts"]);
    let cell = |body: &str| record(body, "k").project(&count).remove(0);
    assert_eq!(cell(r#"{"number_verified_accounts":-9223372036854775808}"#), Some(Cell::I64(i64::MIN)));
    assert_eq!(cell(r#"{"number_verified_accounts":9223372036854775807}"#), Some(Cell::I64(i64::MAX)));
    assert_eq!(cell(r#"{"number_verified_accounts":9223372036854775808}"#), None);
    assert_eq!(cell(r#"{"number_verified_accounts":3.0}"#), None);
    assert_eq!(cell(r#"{"number_verified_accounts":1e2}"#), None);
}

#[test]
fn whole_record_is_the_json_column() {
    let r = record(r#"{"hash":"h"}"#, "me@example.com");
    assert_eq!(
        r.project(&columns(&["json"])),
        vec![json(r#"{"email":"me@example.com","hash":"h"}"#)]
    );
    assert!(matches!(shape_of("json"), Some(Shape::Whole)));
}

#[test]
fn document_that_is_no_object_has_only_the_json_column() {
    for body in ["[1,2]", "\"text\"", "17", "null", "true"] {
        let r = record(body, "me@example.com");
        let row = r.project(&columns(&["hash", "email", "json", "links"]));
        let whole = Document::parse(body).unwrap().text();
        assert_eq!(row, vec![None, None, Some(Cell::Json(whole)), None], "{}", body);
    }
}

#[test]
fn unknown_column_is_read_in_its_declared_type() {
    let body = r#"{"s":"text","b":false,"i":-12,"j":{"k":[1,2]}}"#;
    let r = record(body, "k");
    let cols = vec![
        Column::new("s", TypeOid::String),
        Column::new("b", TypeOid::Bool),
        Column::new("i", TypeOid::I32),
        Column::new("i", TypeOid::I64),
        Column::new("j", TypeOid::Json),
        Column::new("s", TypeOid::Json),
        Column::new("i", TypeOid::Json),
    ];
    assert_eq!(
        r.project(&cols),
        vec![
            string("text"),
            Some(Cell::Bool(false)),
            Some(Cell::I32(-12)),
            Some(Cell::I64(-12)),
            json(r#"{"k":[1,2]}"#),
            json("\"text\""),
            json("-12"),
        ]
    );
    assert!(shape_of("s").is_none());
}

#[test]
fn unknown_column_of_another_shape_or_type_has_no_value() {
    let body = r#"{"s":"text","b":false,"i":-12}"#;
    let r = record(body, "k");
    let cols = vec![
        Column::new("s", TypeOid::Bool),
        Column::new("s", TypeOid::I64),
        Column::new("b", TypeOid::String),
        Column::new("i", TypeOid::Bool),
        Column::new("s", TypeOid::Other),
        Column::new("b", TypeOid::Other),
        Column::new("absent", TypeOid::String),
        Column::new("absent", TypeOid::Json),
    ];
    assert_eq!(r.project(&cols), vec![None; 8]);
}

#[test]
fn narrow_integer_keeps_the_low_32_bits() {
    let r = record(r#"{"a":4294967297,"b":2147483648,"c":-2147483649,"d":2147483647}"#, "k");
    let cols = vec![
        Column::new("a", TypeOid::I32),
        Column::new("b", TypeOid::I32),
        Column::new("c", TypeOid::I32),
        Column::new("d", TypeOid::I32),
    ];
    assert_eq!(
        r.project(&cols),
        vec![
            Some(Cell::I32(1)),
            Some(Cell::I32(i32::MIN)),
            Some(Cell::I32(i32::MAX)),
            Some(Cell::I32(i32::MAX)),
        ]
    );
}

#[test]
fn named_field_ignores_the_declared_type() {
    let r = record(r#"{"hash":"h","is_organization":false}"#, "k");
    let cols = vec![Column::new("hash", TypeOid::Bool), Column::new("is_organization", TypeOid::String)];
    assert_eq!(r.project(&cols), vec![string("h"), Some(Cell::Bool(false))]);
}

#[test]
fn column_names_are_case_sensitive() {
    let r = record(r#"{"hash":"h","Hash":"H"}"#, "k");
    let cols = vec![Column::new("Hash", TypeOid::String), Column::new("HASH", TypeOid::String)];
    assert_eq!(r.project(&cols), vec![string("H"), None]);
}

#[test]
fn one_cell_is_what_the_row_holds() {
    let r = record(r#"{"hash":"h"}"#, "k");
    assert_eq!(r.cell(&Column::new("hash", TypeOid::String)), string("h"));
    assert_eq!(r.cell(&Column::new("company", TypeOid::String)), None);
}

#[test]
fn text_that_is_no_json_is_no_document() {
    for body in ["", "{", "not json", "{\"a\":}", "{'a':1}", "[1,]", "{\"a\":1} x"] {
        assert!(Document::parse(body).is_err(), "{:?}", body);
    }
    let failure = Document::parse("").unwrap_err();
    assert!(!failure.message.is_empty());
}

#[test]
fn document_reads_its_members() {
    let mut d = Document::parse(r#"{"s":"x","b":true,"i":5,"n":{"a":1}}"#).unwrap();
    assert_eq!(d.member_str("s"), Some("x".to_string()));
    assert_eq!(d.member_str("b"), None);
    assert_eq!(d.member_bool("b"), Some(true));
    assert_eq!(d.member_bool("s"), None);
    assert_eq!(d.member_i64("i"), Some(5));
    assert_eq!(d.member_i64("s"), None);
    assert_eq!(d.member_text("n"), Some(r#"{"a":1}"#.to_string()));
    assert_eq!(d.member_text("absent"), None);
    d.set_text("s", "y");
    d.set_text("t", "z");
    assert_eq!(d.text(), r#"{"b":true,"i":5,"n":{"a":1},"s":"y","t":"z"}"#);
}

use diaspora_be::items::{
    new_item, validate_item, CreateItemRequest, Dimensions, Field, Item, Price, ValidationError,
};
use diaspora_be::json::{member, JsonNumber, JsonValue};
use diaspora_be::outcome::{
    begin_ingest, finish_write, persistence_started, status_code, LogLevel, Outcome,
};

fn num(x: f64) -> JsonValue {
    JsonValue::Number(JsonNumber { bits: x.to_bits(), text: x.to_string() })
}

fn text(s: &str) -> JsonValue {
    JsonValue::Str(s.to_string())
}

fn obj(entries: Vec<(&str, JsonValue)>) -> JsonValue {
    JsonValue::Object(entries.into_iter().map(|(k, v)| (k.to_string(), v)).collect())
}

fn dims() -> JsonValue {
    obj(vec![("length", num(20.0)), ("width", num(15.0)), ("height", num(10.0))])
}

fn body_without(skip: &str, dimensions: JsonValue) -> JsonValue {
    let all = vec![
        ("description", text("Integration test item")),
        ("weight", num(2.0)),
        ("dimensions", dimensions),
        ("origin_country", text("Nigeria")),
        ("destination_country", text("Canada")),
        ("price", num(65.0)),
    ];
    obj(all.into_iter().filter(|(k, _)| *k != skip).collect())
}

fn valid_body() -> JsonValue {
    body_without("", dims())
}

fn with(body: JsonValue, key: &str, v: JsonValue) -> JsonValue {
    match body {
        JsonValue::Object(mut entries) => {
            entries.retain(|(k, _)| k != key);
            entries.push((key.to_string(), v));
            JsonValue::Object(entries)
        }
        other => other,
    }
}

fn rejection(body: &JsonValue) -> ValidationError {
    match validate_item(body) {
        Err(e) => e,
        Ok(_) => panic!("body was accepted"),
    }
}

#[test]
fn valid_submission_is_accepted_exactly() {
    let req = validate_item(&valid_body()).expect("valid body");
    assert_eq!(req.description, "Integration test item");
    assert_eq!(req.weight, 2.0f64.to_bits());
    assert_eq!(
        req.dimensions,
        Dimensions { length: 20.0f64.to_bits(), width: 15.0f64.to_bits(), height: 10.0f64.to_bits() }
    );
    assert_eq!(req.origin_country, "Nigeria");
    assert_eq!(req.destination_country, "Canada");
    assert_eq!(req.price, Some(Price { mantissa: 65, scale: 0 }));
    assert_eq!(req.pickup_required, None);
}

#[test]
fn valid_submission_is_stored_with_status_created() {
    let item = begin_ingest(&valid_body()).ok().expect("valid body");
    assert_eq!(f64::from_bits(item.weight), 2.0);
    assert_eq!(item.destination_country, "Canada");
    assert_eq!(item.status, "pending");
    assert_eq!(item.created_at, item.updated_at);
    let (outcome, event) = finish_write(Ok(()));
    assert_eq!(status_code(&outcome), 201);
    assert_eq!(event.level, LogLevel::Info);
}

#[test]
fn missing_description_is_rejected() {
    let body = body_without("description", dims());
    assert_eq!(rejection(&body), ValidationError::Missing(Field::Description));
    let out = begin_ingest(&body).err().expect("rejected");
    assert_eq!(status_code(&out), 400);
}

#[test]
fn missing_dimensions_is_rejected() {
    let body = body_without("dimensions", dims());
    assert_eq!(rejection(&body), ValidationError::Missing(Field::Dimensions));
}

#[test]
fn empty_dimensions_is_rejected() {
    let body = body_without("", obj(vec![]));
    assert_eq!(rejection(&body), ValidationError::IncompleteDimensions);
    let out = begin_ingest(&body).err().expect("rejected");
    assert_eq!(status_code(&out), 400);
}

#[test]
fn dimensions_without_height_is_rejected() {
    let body = body_without("", obj(vec![("length", num(20.0)), ("width", num(15.0))]));
    assert_eq!(rejection(&body), ValidationError::IncompleteDimensions);
    let out = begin_ingest(&body).err().expect("rejected");
    assert_eq!(status_code(&out), 400);
}

#[test]
fn each_missing_extent_is_rejected() {
    for key in ["length", "width", "height"] {
        let d = match dims() {
            JsonValue::Object(e) => JsonValue::Object(e.into_iter().filter(|(k, _)| k != key).collect()),
            other => other,
        };
        assert_eq!(rejection(&body_without("", d)), ValidationError::IncompleteDimensions);
    }
}

#[test]
fn absent_options_take_defaults() {
    let body = body_without("price", dims());
    let req = validate_item(&body).expect("valid body");
    assert_eq!(req.price, None);
    let item = Item::from_request(req, 7, 1_700_000_000_000_000);
    assert_eq!(item.id, 7);
    assert_eq!(item.price, Price { mantissa: 0, scale: 0 });
    assert!(!item.pickup_required);
    assert_eq!(item.status, "pending");
    assert_eq!(item.created_at, 1_700_000_000_000_000);
    assert_eq!(item.updated_at, 1_700_000_000_000_000);
}

#[test]
fn given_options_are_kept() {
    let body = with(with(valid_body(), "pickup_required", JsonValue::Bool(true)), "price", num(12.5));
    let req = validate_item(&body).expect("valid body");
    let item = Item::from_request(req, 1, 2);
    assert!(item.pickup_required);
    assert_eq!(item.price, Price { mantissa: 125, scale: 1 });
}

#[test]
fn null_options_count_as_absent() {
    let body = with(with(valid_body(), "pickup_required", JsonValue::Null), "price", JsonValue::Null);
    let req = validate_item(&body).expect("valid body");
    assert_eq!(req.price, None);
    assert_eq!(req.pickup_required, None);
}

#[test]
fn wrong_types_are_rejected() {
    assert_eq!(rejection(&with(valid_body(), "weight", text("2"))), ValidationError::WrongType(Field::Weight));
    assert_eq!(rejection(&with(valid_body(), "price", text("65"))), ValidationError::WrongType(Field::Price));
    assert_eq!(
        rejection(&with(valid_body(), "pickup_required", text("yes"))),
        ValidationError::WrongType(Field::PickupRequired)
    );
    assert_eq!(rejection(&with(valid_body(), "dimensions", num(3.0))), ValidationError::WrongType(Field::Dimensions));
    assert_eq!(
        rejection(&with(valid_body(), "origin_country", JsonValue::Bool(false))),
        ValidationError::WrongType(Field::OriginCountry)
    );
    assert_eq!(rejection(&JsonValue::Array(vec![])), ValidationError::NotAnObject);
}

#[test]
fn out_of_domain_values_are_rejected() {
    assert_eq!(rejection(&with(valid_body(), "description", text(""))), ValidationError::Invalid(Field::Description));
    assert_eq!(rejection(&with(valid_body(), "weight", num(-2.0))), ValidationError::Invalid(Field::Weight));
    assert_eq!(rejection(&with(valid_body(), "weight", num(0.0))), ValidationError::Invalid(Field::Weight));
    assert_eq!(rejection(&with(valid_body(), "price", num(-1.5))), ValidationError::Invalid(Field::Price));
    assert_eq!(rejection(&with(valid_body(), "price", num(1e300))), ValidationError::Invalid(Field::Price));
    let d = obj(vec![("length", num(20.0)), ("width", num(-15.0)), ("height", num(10.0))]);
    assert_eq!(rejection(&body_without("", d)), ValidationError::Invalid(Field::Width));
}

#[test]
fn first_failure_is_reported() {
    let body = with(body_without("description", dims()), "weight", text("x"));
    assert_eq!(rejection(&body), ValidationError::Missing(Field::Description));
}

#[test]
fn member_skips_null_and_finds_first() {
    let body = obj(vec![("a", JsonValue::Null), ("b", num(1.0)), ("b", num(2.0))]);
    assert!(member(&body, "a").is_none());
    assert!(member(&body, "c").is_none());
    match member(&body, "b") {
        Some(JsonValue::Number(n)) => assert_eq!(n.bits, 1.0f64.to_bits()),
        _ => panic!("member not found"),
    }
}

#[test]
fn identical_submissions_give_distinct_records() {
    let a = new_item(validate_item(&valid_body()).expect("valid"));
    let b = new_item(validate_item(&valid_body()).expect("valid"));
    assert_ne!(a.id, b.id);
    assert_eq!((a.id >> 76) & 0xF, 4);
    assert_eq!((a.id >> 62) & 3, 2);
    assert_eq!(a.created_at, a.updated_at);
}

#[test]
fn failed_write_maps_to_server_error_with_detail() {
    let (outcome, event) = finish_write(Err("connection refused".to_string()));
    assert_eq!(status_code(&outcome), 500);
    assert_eq!(event.level, LogLevel::Error);
    assert_eq!(event.message, "Failed to save item: connection refused");
    match outcome {
        Outcome::PersistenceFailed(d) => assert_eq!(d, "connection refused"),
        _ => panic!("wrong outcome"),
    }
}

#[test]
fn write_start_is_logged_at_info() {
    let e = persistence_started();
    assert_eq!(e.level, LogLevel::Info);
    assert_eq!(e.message, "Processing new item creation request");
}

#[test]
fn request_fields_are_moved_into_record() {
    let req = CreateItemRequest {
        description: "box".to_string(),
        weight: 3,
        dimensions: Dimensions { length: 1, width: 2, height: 3 },
        origin_country: "Ghana".to_string(),
        destination_country: "Kenya".to_string(),
        price: Some(Price { mantissa: 5, scale: 2 }),
        pickup_required: Some(true),
    };
    let item = Item::from_request(req, 42, -5);
    assert_eq!(item.description, "box");
    assert_eq!(item.weight, 3);
    assert_eq!(item.dimensions, Dimensions { length: 1, width: 2, height: 3 });
    assert_eq!(item.origin_country, "Ghana");
    assert_eq!(item.destination_country, "Kenya");
    assert_eq!(item.price, Price { mantissa: 5, scale: 2 });
    assert!(item.pickup_required);
}

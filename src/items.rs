use vstd::prelude::*;
use crate::json::{member, present, JsonValue};

verus! {

/// A field of an item submission.
#[derive(PartialEq, Eq, Structural, Clone, Copy, Debug)]
pub enum Field {
    Description,
    Weight,
    Dimensions,
    Length,
    Width,
    Height,
    OriginCountry,
    DestinationCountry,
    Price,
    PickupRequired,
}

/// Why a submission is rejected.
#[derive(PartialEq, Eq, Structural, Clone, Copy, Debug)]
pub enum ValidationError {
    /// The body is not a JSON object.
    NotAnObject,
    /// A mandatory field is absent or `null`.
    Missing(Field),
    /// A field holds a value of another JSON type.
    WrongType(Field),
    /// A field holds a value of the right type outside its domain: empty
    /// text, a number that is not positive, a price that is negative or not
    /// a decimal.
    Invalid(Field),
    /// The dimensions object lacks one of length, width and height.
    IncompleteDimensions,
}

/// A decimal amount: `mantissa / 10^scale`.
#[derive(PartialEq, Eq, Structural, Clone, Copy, Debug)]
pub struct Price {
    pub mantissa: i128,
    pub scale: u32,
}

/// The three extents of a parcel, each the bit pattern of a positive finite
/// double.
#[derive(PartialEq, Eq, Structural, Clone, Copy, Debug)]
pub struct Dimensions {
    pub length: u64,
    pub width: u64,
    pub height: u64,
}

/// A validated item submission. Weight and extents are bit patterns of
/// positive finite doubles.
pub struct CreateItemRequest {
    pub description: String,
    pub weight: u64,
    pub dimensions: Dimensions,
    pub origin_country: String,
    pub destination_country: String,
    pub price: Option<Price>,
    pub pickup_required: Option<bool>,
}

/// The bit patterns of the positive finite doubles: sign clear, exponent
/// not all ones, not zero.
pub open spec fn is_positive_finite(bits: u64) -> bool {
    0 < bits < 0x7FF0_0000_0000_0000u64
}

/// The earlier of two failures.
pub open spec fn first_of(a: Option<ValidationError>, b: Option<ValidationError>) -> Option<
    ValidationError,
> {
    if a is Some {
        a
    } else {
        b
    }
}

/// Failure of a text field, if any.
pub open spec fn text_error(v: JsonValue, key: Seq<char>, f: Field, nonempty: bool) -> Option<
    ValidationError,
> {
    match present(v, key) {
        None => Some(ValidationError::Missing(f)),
        Some(JsonValue::Str(s)) => if nonempty && s@.len() == 0 {
            Some(ValidationError::Invalid(f))
        } else {
            None
        },
        Some(_) => Some(ValidationError::WrongType(f)),
    }
}

/// The text of a present string member.
pub open spec fn text_value(v: JsonValue, key: Seq<char>) -> Seq<char> {
    match present(v, key) {
        Some(JsonValue::Str(s)) => s@,
        _ => Seq::empty(),
    }
}

/// Failure of a positive number field, if any; `missing` is the failure
/// where it is absent.
pub open spec fn positive_error(
    v: JsonValue,
    key: Seq<char>,
    missing: ValidationError,
    f: Field,
) -> Option<ValidationError> {
    match present(v, key) {
        None => Some(missing),
        Some(JsonValue::Number(n)) => if is_positive_finite(n.bits) {
            None
        } else {
            Some(ValidationError::Invalid(f))
        },
        Some(_) => Some(ValidationError::WrongType(f)),
    }
}

/// The bit pattern of a present number member.
pub open spec fn number_value(v: JsonValue, key: Seq<char>) -> u64 {
    match present(v, key) {
        Some(JsonValue::Number(n)) => n.bits,
        _ => 0,
    }
}

/// Failure of the dimensions member, if any.
pub open spec fn dimensions_error(v: JsonValue) -> Option<ValidationError> {
    match present(v, "dimensions"@) {
        None => Some(ValidationError::Missing(Field::Dimensions)),
        Some(d) => if d is Object {
            first_of(
                positive_error(d, "length"@, ValidationError::IncompleteDimensions, Field::Length),
                first_of(
                    positive_error(d, "width"@, ValidationError::IncompleteDimensions, Field::Width),
                    positive_error(
                        d,
                        "height"@,
                        ValidationError::IncompleteDimensions,
                        Field::Height,
                    ),
                ),
            )
        } else {
            Some(ValidationError::WrongType(Field::Dimensions))
        },
    }
}

/// The extents of a present dimensions member.
pub open spec fn dimensions_value(v: JsonValue) -> Dimensions {
    match present(v, "dimensions"@) {
        Some(d) => Dimensions {
            length: number_value(d, "length"@),
            width: number_value(d, "width"@),
            height: number_value(d, "height"@),
        },
        None => Dimensions { length: 0, width: 0, height: 0 },
    }
}

/// What `rust_decimal`'s `Decimal::from_str` returns on a text, as mantissa
/// and scale.
pub uninterp spec fn decimal_of(s: Seq<char>) -> Option<(i128, u32)>;

/// Relies on `rust_decimal::Decimal::from_str`, with `Decimal::mantissa` and
/// `Decimal::scale` to take the parsed value apart.
#[verifier::external_body]
fn parse_decimal(s: &str) -> (r: Option<(i128, u32)>)
    ensures
        r == decimal_of(s@),
{
    match <rust_decimal::Decimal as std::str::FromStr>::from_str(s) {
        Ok(d) => Some((d.mantissa(), d.scale())),
        Err(_) => None,
    }
}

/// Failure of the optional price member, if any.
pub open spec fn price_error(v: JsonValue) -> Option<ValidationError> {
    match present(v, "price"@) {
        None => None,
        Some(JsonValue::Number(n)) => match decimal_of(n.text@) {
            Some(d) => if d.0 >= 0 {
                None
            } else {
                Some(ValidationError::Invalid(Field::Price))
            },
            None => Some(ValidationError::Invalid(Field::Price)),
        },
        Some(_) => Some(ValidationError::WrongType(Field::Price)),
    }
}

/// The price of a submission, where it has one.
pub open spec fn price_value(v: JsonValue) -> Option<Price> {
    match present(v, "price"@) {
        Some(JsonValue::Number(n)) => match decimal_of(n.text@) {
            Some(d) => Some(Price { mantissa: d.0, scale: d.1 }),
            None => None,
        },
        _ => None,
    }
}

/// Failure of the optional pickup flag, if any.
pub open spec fn pickup_error(v: JsonValue) -> Option<ValidationError> {
    match present(v, "pickup_required"@) {
        None => None,
        Some(JsonValue::Bool(_)) => None,
        Some(_) => Some(ValidationError::WrongType(Field::PickupRequired)),
    }
}

/// The pickup flag of a submission, where it has one.
pub open spec fn pickup_value(v: JsonValue) -> Option<bool> {
    match present(v, "pickup_required"@) {
        Some(JsonValue::Bool(b)) => Some(b),
        _ => None,
    }
}

/// The first failure of a submission, fields taken in the order
/// description, weight, dimensions (length, width, height), origin country,
/// destination country, price, pickup flag; `None` where it is valid.
pub open spec fn submission_error(v: JsonValue) -> Option<ValidationError> {
    if !(v is Object) {
        Some(ValidationError::NotAnObject)
    } else {
        first_of(
            text_error(v, "description"@, Field::Description, true),
            first_of(
                positive_error(
                    v,
                    "weight"@,
                    ValidationError::Missing(Field::Weight),
                    Field::Weight,
                ),
                first_of(
                    dimensions_error(v),
                    first_of(
                        text_error(v, "origin_country"@, Field::OriginCountry, false),
                        first_of(
                            text_error(
                                v,
                                "destination_country"@,
                                Field::DestinationCountry,
                                false,
                            ),
                            first_of(price_error(v), pickup_error(v)),
                        ),
                    ),
                ),
            ),
        )
    }
}

/// `req` holds exactly what the valid submission `v` holds.
pub open spec fn request_of(v: JsonValue, req: CreateItemRequest) -> bool {
    &&& req.description@ == text_value(v, "description"@)
    &&& req.weight == number_value(v, "weight"@)
    &&& req.dimensions == dimensions_value(v)
    &&& req.origin_country@ == text_value(v, "origin_country"@)
    &&& req.destination_country@ == text_value(v, "destination_country"@)
    &&& req.price == price_value(v)
    &&& req.pickup_required == pickup_value(v)
}

fn take_text(v: &JsonValue, key: &str, f: Field, nonempty: bool) -> (r: Result<
    String,
    ValidationError,
>)
    ensures
        match r {
            Ok(s) => text_error(*v, key@, f, nonempty) is None && s@ == text_value(*v, key@),
            Err(e) => text_error(*v, key@, f, nonempty) == Some(e),
        },
{
    match member(v, key) {
        None => Err(ValidationError::Missing(f)),
        Some(JsonValue::Str(s)) => {
            if nonempty && s.unicode_len() == 0 {
                Err(ValidationError::Invalid(f))
            } else {
                Ok(s.clone())
            }
        },
        Some(_) => Err(ValidationError::WrongType(f)),
    }
}

fn take_positive(v: &JsonValue, key: &str, missing: ValidationError, f: Field) -> (r: Result<
    u64,
    ValidationError,
>)
    ensures
        match r {
            Ok(b) => positive_error(*v, key@, missing, f) is None && b == number_value(*v, key@),
            Err(e) => positive_error(*v, key@, missing, f) == Some(e),
        },
{
    match member(v, key) {
        None => Err(missing),
        Some(JsonValue::Number(n)) => {
            if 0 < n.bits && n.bits < 0x7FF0_0000_0000_0000u64 {
                Ok(n.bits)
            } else {
                Err(ValidationError::Invalid(f))
            }
        },
        Some(_) => Err(ValidationError::WrongType(f)),
    }
}

fn take_dimensions(v: &JsonValue) -> (r: Result<Dimensions, ValidationError>)
    ensures
        match r {
            Ok(d) => dimensions_error(*v) is None && d == dimensions_value(*v),
            Err(e) => dimensions_error(*v) == Some(e),
        },
{
    match member(v, "dimensions") {
        None => Err(ValidationError::Missing(Field::Dimensions)),
        Some(d) => {
            match d {
                JsonValue::Object(_) => {},
                _ => {
                    return Err(ValidationError::WrongType(Field::Dimensions));
                },
            }
            let length = take_positive(d, "length", ValidationError::IncompleteDimensions, Field::Length)?;
            let width = take_positive(d, "width", ValidationError::IncompleteDimensions, Field::Width)?;
            let height = take_positive(d, "height", ValidationError::IncompleteDimensions, Field::Height)?;
            Ok(Dimensions { length, width, height })
        },
    }
}

fn take_price(v: &JsonValue) -> (r: Result<Option<Price>, ValidationError>)
    ensures
        match r {
            Ok(p) => price_error(*v) is None && p == price_value(*v),
            Err(e) => price_error(*v) == Some(e),
        },
{
    match member(v, "price") {
        None => Ok(None),
        Some(JsonValue::Number(n)) => {
            match parse_decimal(n.text.as_str()) {
                Some((mantissa, scale)) => {
                    if mantissa >= 0 {
                        Ok(Some(Price { mantissa, scale }))
                    } else {
                        Err(ValidationError::Invalid(Field::Price))
                    }
                },
                None => Err(ValidationError::Invalid(Field::Price)),
            }
        },
        Some(_) => Err(ValidationError::WrongType(Field::Price)),
    }
}

fn take_pickup(v: &JsonValue) -> (r: Result<Option<bool>, ValidationError>)
    ensures
        match r {
            Ok(p) => pickup_error(*v) is None && p == pickup_value(*v),
            Err(e) => pickup_error(*v) == Some(e),
        },
{
    match member(v, "pickup_required") {
        None => Ok(None),
        Some(JsonValue::Bool(b)) => Ok(Some(*b)),
        Some(_) => Err(ValidationError::WrongType(Field::PickupRequired)),
    }
}

/// Validates a submitted body: the typed request where every field is
/// well-formed, else the first failure.
pub fn validate_item(v: &JsonValue) -> (r: Result<CreateItemRequest, ValidationError>)
    ensures
        match r {
            Ok(req) => submission_error(*v) is None && request_of(*v, req),
            Err(e) => submission_error(*v) == Some(e),
        },
{
    match v {
        JsonValue::Object(_) => {},
        _ => {
            return Err(ValidationError::NotAnObject);
        },
    }
    let description = take_text(v, "description", Field::Description, true)?;
    let weight = take_positive(v, "weight", ValidationError::Missing(Field::Weight), Field::Weight)?;
    let dimensions = take_dimensions(v)?;
    let origin_country = take_text(v, "origin_country", Field::OriginCountry, false)?;
    let destination_country = take_text(v, "destination_country", Field::DestinationCountry, false)?;
    let price = take_price(v)?;
    let pickup_required = take_pickup(v)?;
    Ok(CreateItemRequest {
        description,
        weight,
        dimensions,
        origin_country,
        destination_country,
        price,
        pickup_required,
    })
}


/// A stored item record. `created_at` and `updated_at` count microseconds
/// since the Unix epoch.
pub struct Item {
    pub id: u128,
    pub description: String,
    pub weight: u64,
    pub dimensions: Dimensions,
    pub origin_country: String,
    pub destination_country: String,
    pub price: Price,
    pub pickup_required: bool,
    pub status: String,
    pub created_at: i64,
    pub updated_at: i64,
}

/// The price stored where the submission gave none: zero.
pub open spec fn zero_price() -> Price {
    Price { mantissa: 0, scale: 0 }
}

/// `item` is the record of `req` under identifier `id`, created at `now`:
/// the submitted values unchanged, zero price and no pickup where they were
/// not given, status `pending`, both timestamps `now`.
pub open spec fn record_of(req: CreateItemRequest, id: u128, now: i64, item: Item) -> bool {
    &&& item.id == id
    &&& item.description@ == req.description@
    &&& item.weight == req.weight
    &&& item.dimensions == req.dimensions
    &&& item.origin_country@ == req.origin_country@
    &&& item.destination_country@ == req.destination_country@
    &&& item.price == match req.price {
        Some(p) => p,
        None => zero_price(),
    }
    &&& item.pickup_required == match req.pickup_required {
        Some(b) => b,
        None => false,
    }
    &&& item.status@ == "pending"@
    &&& item.created_at == now
    &&& item.updated_at == now
}

impl Item {
    /// The record of a validated request, under a given identifier and
    /// creation instant.
    pub fn from_request(req: CreateItemRequest, id: u128, now: i64) -> (r: Item)
        ensures
            record_of(req, id, now, r),
    {
        let price = match req.price {
            Some(p) => p,
            None => Price { mantissa: 0, scale: 0 },
        };
        let pickup_required = match req.pickup_required {
            Some(b) => b,
            None => false,
        };
        Item {
            id,
            description: req.description,
            weight: req.weight,
            dimensions: req.dimensions,
            origin_country: req.origin_country,
            destination_country: req.destination_country,
            price,
            pickup_required,
            status: String::from_str("pending"),
            created_at: now,
            updated_at: now,
        }
    }
}

/// The identifiers of random (version 4, RFC 4122 variant) UUIDs, read as
/// big-endian integers: version nibble 4, variant bits `10`.
pub open spec fn is_random_uuid(id: u128) -> bool {
    &&& (id >> 76u128) & 0xFu128 == 4u128
    &&& (id >> 62u128) & 3u128 == 2u128
}

/// Relies on `uuid::Uuid::new_v4`, read as a 128-bit integer by
/// `Uuid::as_u128`: random bits with the version and variant fields set.
#[verifier::external_body]
fn fresh_id() -> (r: u128)
    ensures
        is_random_uuid(r),
{
    uuid::Uuid::new_v4().as_u128()
}

/// Relies on `chrono::Utc::now` and `DateTime::timestamp_micros`: the
/// current instant, in microseconds since the Unix epoch.
#[verifier::external_body]
fn now_micros() -> (r: i64) {
    chrono::Utc::now().timestamp_micros()
}

/// The record to store for a validated request: a fresh random identifier,
/// the current instant for both timestamps, and the defaults.
pub fn new_item(req: CreateItemRequest) -> (r: Item)
    ensures
        record_of(req, r.id, r.created_at, r),
        is_random_uuid(r.id),
{
    let id = fresh_id();
    let now = now_micros();
    Item::from_request(req, id, now)
}

} // verus!

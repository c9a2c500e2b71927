//! Error taxonomy of the sale workflow and its outward translations.
//!
//! The engine reports one tagged [`SaleError`] per rejection condition.
//! At the service boundary it is translated into a [`ServiceError`]
//! carrying a message, and at the transport boundary a [`ServiceError`]
//! becomes an [`ApiError`] with a status code. Internal failures keep
//! their detail out of the user-visible message.

use vstd::prelude::*;
use vstd::string::StrSliceExecFns;
use vstd::string::StringExecFns;

use crate::ids::{PaymentMethodId, ProductId};

verus! {

/// The code a document store reports for a duplicate-key write error.
pub const DUPLICATE_KEY_CODE: i32 = 11000;

/// Why a sale-creation request was rejected. Every rejection of the
/// reconciliation engine is one of these, and no partial sale is ever
/// persisted alongside any of them.
#[derive(Clone, Copy, Debug, PartialEq, Eq, Structural)]
pub enum SaleError {
    /// The request carried no line items.
    EmptyOrder,
    /// The paid amount was negative.
    InvalidPayment,
    /// A line's product is not owned by the caller or does not exist.
    LineProductNotFound { product_id: ProductId },
    /// A line's quantity was not a positive integer.
    InvalidQuantity { product_id: ProductId },
    /// The requested payment method does not exist.
    PaymentMethodNotFound { method_id: PaymentMethodId },
    /// The requested payment method exists but is not active.
    PaymentMethodInactive { method_id: PaymentMethodId },
    /// The free-text note exceeds the stored bound.
    NoteTooLong,
    /// The exact total does not fit the machine representation.
    AmountOverflow,
    /// A uniqueness conflict was reported by the storage layer.
    Conflict,
    /// The storage layer failed; the caller may retry.
    StorageError,
}

/// Service-level error, carrying a message for the caller.
#[derive(Debug)]
pub enum ServiceError {
    NotFound(String),
    InvalidId(String),
    DatabaseError(String),
    Unexpected(String),
    HashingError(String),
    Conflict(String),
    BadRequest(String),
    Unauthorized(String),
}

/// Transport-level error: what the outward edge reports, with a status
/// code and a user-visible message.
#[derive(Debug)]
pub enum ApiError {
    InternalError(String),
    NotFound(String),
    BadRequest(String),
    Conflict(String),
    ValidationError(String),
    Unauthorized(String),
    Forbidden(String),
}

impl SaleError {
    /// Translates the engine's rejection into the service-level error
    /// reported for that condition: each kind keeps its own category
    /// and its own message.
    pub fn service_error(&self) -> (r: ServiceError)
        ensures
            *self is EmptyOrder ==> {
                &&& r matches ServiceError::BadRequest(m)
                &&& m@ == "items must not be empty"@
            },
            *self is InvalidPayment ==> {
                &&& r matches ServiceError::BadRequest(m)
                &&& m@ == "paid amount must not be negative"@
            },
            *self matches SaleError::LineProductNotFound { .. } ==> {
                &&& r matches ServiceError::NotFound(m)
                &&& m@ == "product not found"@
            },
            *self matches SaleError::InvalidQuantity { .. } ==> {
                &&& r matches ServiceError::BadRequest(m)
                &&& m@ == "quantity must be at least 1"@
            },
            *self matches SaleError::PaymentMethodNotFound { .. } ==> {
                &&& r matches ServiceError::NotFound(m)
                &&& m@ == "payment method not found"@
            },
            *self matches SaleError::PaymentMethodInactive { .. } ==> {
                &&& r matches ServiceError::BadRequest(m)
                &&& m@ == "payment method is not active"@
            },
            *self is NoteTooLong ==> {
                &&& r matches ServiceError::BadRequest(m)
                &&& m@ == "note is too long"@
            },
            *self is AmountOverflow ==> {
                &&& r matches ServiceError::BadRequest(m)
                &&& m@ == "total amount is out of range"@
            },
            *self is Conflict ==> {
                &&& r matches ServiceError::Conflict(m)
                &&& m@ == "duplicate value"@
            },
            *self is StorageError ==> {
                &&& r matches ServiceError::DatabaseError(m)
                &&& m@ == "storage unavailable"@
            },
    {
        match self {
            SaleError::EmptyOrder => ServiceError::BadRequest(
                String::from_str("items must not be empty"),
            ),
            SaleError::InvalidPayment => ServiceError::BadRequest(
                String::from_str("paid amount must not be negative"),
            ),
            SaleError::LineProductNotFound { .. } => ServiceError::NotFound(
                String::from_str("product not found"),
            ),
            SaleError::InvalidQuantity { .. } => ServiceError::BadRequest(
                String::from_str("quantity must be at least 1"),
            ),
            SaleError::PaymentMethodNotFound { .. } => ServiceError::NotFound(
                String::from_str("payment method not found"),
            ),
            SaleError::PaymentMethodInactive { .. } => ServiceError::BadRequest(
                String::from_str("payment method is not active"),
            ),
            SaleError::NoteTooLong => ServiceError::BadRequest(
                String::from_str("note is too long"),
            ),
            SaleError::AmountOverflow => ServiceError::BadRequest(
                String::from_str("total amount is out of range"),
            ),
            SaleError::Conflict => ServiceError::Conflict(
                String::from_str("duplicate value"),
            ),
            SaleError::StorageError => ServiceError::DatabaseError(
                String::from_str("storage unavailable"),
            ),
        }
    }
}

/// How a service-level error maps onto the transport-level one. User
/// messages pass through; internal detail is folded into the internal
/// category.
pub open spec fn api_error_spec(e: ServiceError) -> ApiError {
    match e {
        ServiceError::NotFound(msg) => ApiError::NotFound(msg),
        ServiceError::InvalidId(msg) => ApiError::BadRequest(msg),
        ServiceError::BadRequest(msg) => ApiError::BadRequest(msg),
        ServiceError::DatabaseError(msg) => ApiError::InternalError(msg),
        ServiceError::HashingError(msg) => ApiError::InternalError(msg),
        ServiceError::Unexpected(msg) => ApiError::InternalError(msg),
        ServiceError::Conflict(msg) => ApiError::Conflict(msg),
        ServiceError::Unauthorized(msg) => ApiError::Unauthorized(msg),
    }
}

impl From<ServiceError> for ApiError {
    fn from(error: ServiceError) -> (r: ApiError) {
        match error {
            ServiceError::NotFound(msg) => ApiError::NotFound(msg),
            ServiceError::InvalidId(msg) => ApiError::BadRequest(msg),
            ServiceError::BadRequest(msg) => ApiError::BadRequest(msg),
            ServiceError::DatabaseError(msg) => ApiError::InternalError(msg),
            ServiceError::HashingError(msg) => ApiError::InternalError(msg),
            ServiceError::Unexpected(msg) => ApiError::InternalError(msg),
            ServiceError::Conflict(msg) => ApiError::Conflict(msg),
            ServiceError::Unauthorized(msg) => ApiError::Unauthorized(msg),
        }
    }
}

impl vstd::std_specs::convert::FromSpecImpl<ServiceError> for ApiError {
    open spec fn obeys_from_spec() -> bool {
        true
    }

    open spec fn from_spec(e: ServiceError) -> ApiError {
        api_error_spec(e)
    }
}

impl ApiError {
    /// The HTTP status code that the outward edge reports for this
    /// error.
    pub fn status_code(&self) -> (code: u16)
        ensures
            code == match *self {
                ApiError::InternalError(_) => 500u16,
                ApiError::NotFound(_) => 404u16,
                ApiError::BadRequest(_) => 400u16,
                ApiError::Conflict(_) => 409u16,
                ApiError::ValidationError(_) => 422u16,
                ApiError::Unauthorized(_) => 401u16,
                ApiError::Forbidden(_) => 403u16,
            },
    {
        match self {
            ApiError::InternalError(_) => 500,
            ApiError::NotFound(_) => 404,
            ApiError::BadRequest(_) => 400,
            ApiError::Conflict(_) => 409,
            ApiError::ValidationError(_) => 422,
            ApiError::Unauthorized(_) => 401,
            ApiError::Forbidden(_) => 403,
        }
    }

    /// The user-visible message. The internal category shows a fixed
    /// text and keeps its stored detail out of the response.
    pub fn message(&self) -> (r: String)
        ensures
            *self matches ApiError::InternalError(_) ==> r@ == "Internal Server Error"@,
            *self matches ApiError::NotFound(_) ==> r@ == "Not Found"@,
            *self matches ApiError::BadRequest(m) ==> r@ == "Bad Request: "@ + m@,
            *self matches ApiError::Conflict(m) ==> r@ == "Conflict: "@ + m@,
            *self matches ApiError::ValidationError(m) ==> r@ == "ValidationError: "@ + m@,
            *self matches ApiError::Unauthorized(m) ==> r@ == "Unauthorized: "@ + m@,
            *self matches ApiError::Forbidden(m) ==> r@ == "Forbidden: "@ + m@,
    {
        match self {
            ApiError::InternalError(_) => String::from_str("Internal Server Error"),
            ApiError::NotFound(_) => String::from_str("Not Found"),
            ApiError::BadRequest(m) => String::from_str("Bad Request: ").concat(m.as_str()),
            ApiError::Conflict(m) => String::from_str("Conflict: ").concat(m.as_str()),
            ApiError::ValidationError(m) => String::from_str("ValidationError: ").concat(
                m.as_str(),
            ),
            ApiError::Unauthorized(m) => String::from_str("Unauthorized: ").concat(m.as_str()),
            ApiError::Forbidden(m) => String::from_str("Forbidden: ").concat(m.as_str()),
        }
    }
}

/// Whether the duplicate-key marker `"dup key: { "` stands in `s` at
/// position `i`.
pub open spec fn marker_at(s: Seq<char>, i: int) -> bool {
    &&& 0 <= i
    &&& i + 11 <= s.len()
    &&& forall|j: int| 0 <= j < 11 ==> s[i + j] == #[trigger] "dup key: { "@[j]
}

/// Whether `i` is the first position of the duplicate-key marker.
pub open spec fn first_marker(s: Seq<char>, i: int) -> bool {
    &&& marker_at(s, i)
    &&& forall|k: int| 0 <= k < i ==> !marker_at(s, k)
}

/// Whether `c` is the first colon at or after `start`.
pub open spec fn first_colon_from(s: Seq<char>, start: int, c: int) -> bool {
    &&& start <= c < s.len()
    &&& s[c] == ':'
    &&& forall|k: int| start <= k < c ==> s[k] != ':'
}

/// Whether the message names a duplicated field: the first marker is
/// followed by at least one character and then a colon.
pub open spec fn has_dup_field(s: Seq<char>) -> bool {
    exists|i: int, c: int|
        {
            &&& #[trigger] first_marker(s, i)
            &&& #[trigger] first_colon_from(s, i + 11, c)
            &&& c > i + 11
        }
}

/// Whether the marker stands at position `i` of `s`.
fn marker_matches(s: &str, i: usize) -> (r: bool)
    requires
        i + 11 <= s@.len(),
        i + 11 <= usize::MAX,
    ensures
        r == marker_at(s@, i as int),
{
    proof {
        reveal_strlit("dup key: { ");
    }
    let r = s.get_char(i) == 'd' && s.get_char(i + 1) == 'u' && s.get_char(i + 2) == 'p'
        && s.get_char(i + 3) == ' ' && s.get_char(i + 4) == 'k' && s.get_char(i + 5) == 'e'
        && s.get_char(i + 6) == 'y' && s.get_char(i + 7) == ':' && s.get_char(i + 8) == ' '
        && s.get_char(i + 9) == '{' && s.get_char(i + 10) == ' ';
    proof {
        if !r && marker_at(s@, i as int) {
            assert(s@[i + 0] == "dup key: { "@[0]);
            assert(s@[i + 1] == "dup key: { "@[1]);
            assert(s@[i + 2] == "dup key: { "@[2]);
            assert(s@[i + 3] == "dup key: { "@[3]);
            assert(s@[i + 4] == "dup key: { "@[4]);
            assert(s@[i + 5] == "dup key: { "@[5]);
            assert(s@[i + 6] == "dup key: { "@[6]);
            assert(s@[i + 7] == "dup key: { "@[7]);
            assert(s@[i + 8] == "dup key: { "@[8]);
            assert(s@[i + 9] == "dup key: { "@[9]);
            assert(s@[i + 10] == "dup key: { "@[10]);
        }
        if r {
            assert forall|j: int| 0 <= j < 11 implies s@[i + j] == "dup key: { "@[j] by {
                if j == 0 {
                } else if j == 1 {
                } else if j == 2 {
                } else if j == 3 {
                } else if j == 4 {
                } else if j == 5 {
                } else if j == 6 {
                } else if j == 7 {
                } else if j == 8 {
                } else if j == 9 {
                } else {
                    assert(j == 10);
                }
            }
        }
    }
    r
}

/// The position of the first marker in `s`, if it occurs at all.
fn find_first_marker(s: &str) -> (r: Option<usize>)
    ensures
        match r {
            Some(i) => first_marker(s@, i as int) && i + 11 <= s@.len() && i + 11 <= usize::MAX,
            None => forall|k: int| !marker_at(s@, k),
        },
{
    let n = s.unicode_len();
    if n < 11 {
        assert forall|k: int| !marker_at(s@, k) by {
            if marker_at(s@, k) {
                assert(k + 11 <= n);
            }
        }
        return None;
    }
    for i in 0..n - 10
        invariant
            n == s@.len(),
            n >= 11,
            forall|k: int| 0 <= k < i ==> !marker_at(s@, k),
    {
        if marker_matches(s, i) {
            return Some(i);
        }
    }
    assert forall|k: int| !marker_at(s@, k) by {
        if marker_at(s@, k) {
            assert(0 <= k < n - 10);
            assert(!marker_at(s@, k));
        }
    }
    None
}

/// The position of the first colon of `s` at or after `from`, if any.
fn find_first_colon(s: &str, from: usize) -> (r: Option<usize>)
    requires
        from <= s@.len(),
    ensures
        match r {
            Some(c) => first_colon_from(s@, from as int, c as int) && c < s@.len(),
            None => forall|k: int| from <= k < s@.len() ==> s@[k] != ':',
        },
{
    let n = s.unicode_len();
    for c in from..n
        invariant
            n == s@.len(),
            forall|k: int| from <= k < c ==> s@[k] != ':',
    {
        if s.get_char(c) == ':' {
            return Some(c);
        }
    }
    None
}

/// Reads the duplicated field name out of a duplicate-key error
/// message: the text between the first `"dup key: { "` marker and the
/// next colon. Nothing is read when the marker is absent, when no
/// colon follows it, or when the colon follows it immediately.
pub fn extract_duplicate_field(message: &str) -> (r: Option<String>)
    ensures
        r is Some <==> has_dup_field(message@),
        r matches Some(f) ==> exists|i: int, c: int|
            {
                &&& #[trigger] first_marker(message@, i)
                &&& #[trigger] first_colon_from(message@, i + 11, c)
                &&& c > i + 11
                &&& f@ == message@.subrange(i + 11, c)
            },
{
    let start = match find_first_marker(message) {
        Some(i) => i,
        None => {
            assert(!has_dup_field(message@)) by {
                if has_dup_field(message@) {
                    let (i, c) = choose|i: int, c: int|
                        {
                            &&& #[trigger] first_marker(message@, i)
                            &&& #[trigger] first_colon_from(message@, i + 11, c)
                            &&& c > i + 11
                        };
                    assert(marker_at(message@, i));
                }
            }
            return None;
        },
    };
    let field_start = start + 11;
    let colon = match find_first_colon(message, field_start) {
        Some(c) => c,
        None => {
            assert(!has_dup_field(message@)) by {
                if has_dup_field(message@) {
                    let (i, c) = choose|i: int, c: int|
                        {
                            &&& #[trigger] first_marker(message@, i)
                            &&& #[trigger] first_colon_from(message@, i + 11, c)
                            &&& c > i + 11
                        };
                    lemma_first_marker_unique(message@, i, start as int);
                    assert(message@[c] == ':');
                }
            }
            return None;
        },
    };
    if colon == field_start {
        assert(!has_dup_field(message@)) by {
            if has_dup_field(message@) {
                let (i, c) = choose|i: int, c: int|
                    {
                        &&& #[trigger] first_marker(message@, i)
                        &&& #[trigger] first_colon_from(message@, i + 11, c)
                        &&& c > i + 11
                    };
                lemma_first_marker_unique(message@, i, start as int);
                lemma_first_colon_unique(message@, i + 11, c, colon as int);
            }
        }
        return None;
    }
    let field = message.substring_char(field_start, colon);
    let out = String::from_str(field);
    assert(has_dup_field(message@)) by {
        assert(first_marker(message@, start as int) && first_colon_from(
            message@,
            start as int + 11,
            colon as int,
        ) && colon as int > start as int + 11);
    }
    Some(out)
}

/// There is only one first marker position.
proof fn lemma_first_marker_unique(s: Seq<char>, i: int, j: int)
    requires
        first_marker(s, i),
        first_marker(s, j),
    ensures
        i == j,
{
    if i < j {
        assert(!marker_at(s, i));
    } else if j < i {
        assert(!marker_at(s, j));
    }
}

/// There is only one first colon after a given start.
proof fn lemma_first_colon_unique(s: Seq<char>, start: int, c1: int, c2: int)
    requires
        first_colon_from(s, start, c1),
        first_colon_from(s, start, c2),
    ensures
        c1 == c2,
{
    if c1 < c2 {
        assert(s[c1] != ':');
    } else if c2 < c1 {
        assert(s[c2] != ':');
    }
}

/// Translates a storage write failure into the domain conflict it
/// represents: the duplicate-key code with a readable field name in
/// the message becomes a conflict naming that field; anything else is
/// not a conflict and is left to the generic storage handling.
pub fn handle_duplicate_key_error(code: i32, message: &str) -> (r: Option<ServiceError>)
    ensures
        r is Some <==> (code == DUPLICATE_KEY_CODE && has_dup_field(message@)),
        r matches Some(e) ==> e matches ServiceError::Conflict(f) && exists|i: int, c: int|
            {
                &&& #[trigger] first_marker(message@, i)
                &&& #[trigger] first_colon_from(message@, i + 11, c)
                &&& c > i + 11
                &&& f@ == message@.subrange(i + 11, c)
            },
{
    if code != DUPLICATE_KEY_CODE {
        return None;
    }
    match extract_duplicate_field(message) {
        Some(field) => Some(ServiceError::Conflict(field)),
        None => None,
    }
}

} // verus!

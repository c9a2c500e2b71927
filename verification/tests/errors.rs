use sales_core::errors::{
    extract_duplicate_field, handle_duplicate_key_error, ApiError, SaleError, ServiceError,
};
use sales_core::ids::{PaymentMethodId, ProductId};

#[test]
fn status_codes_match_the_transport_mapping() {
    assert_eq!(ApiError::InternalError("d".to_string()).status_code(), 500);
    assert_eq!(ApiError::NotFound("d".to_string()).status_code(), 404);
    assert_eq!(ApiError::BadRequest("d".to_string()).status_code(), 400);
    assert_eq!(ApiError::Conflict("d".to_string()).status_code(), 409);
    assert_eq!(ApiError::ValidationError("d".to_string()).status_code(), 422);
    assert_eq!(ApiError::Unauthorized("d".to_string()).status_code(), 401);
    assert_eq!(ApiError::Forbidden("d".to_string()).status_code(), 403);
}

#[test]
fn internal_detail_stays_out_of_the_message() {
    let e = ApiError::InternalError("connection string SECRET-REDACTED".to_string());
    assert_eq!(e.message(), "Internal Server Error");
    let e = ApiError::NotFound("users collection".to_string());
    assert_eq!(e.message(), "Not Found");
}

#[test]
fn user_facing_messages_carry_their_detail() {
    assert_eq!(
        ApiError::BadRequest("quantity".to_string()).message(),
        "Bad Request: quantity"
    );
    assert_eq!(ApiError::Conflict("username".to_string()).message(), "Conflict: username");
    assert_eq!(
        ApiError::ValidationError("email".to_string()).message(),
        "ValidationError: email"
    );
    assert_eq!(ApiError::Unauthorized("token".to_string()).message(), "Unauthorized: token");
    assert_eq!(ApiError::Forbidden("csrf".to_string()).message(), "Forbidden: csrf");
}

#[test]
fn service_errors_translate_once_at_the_edge() {
    let cases: Vec<(ServiceError, u16)> = vec![
        (ServiceError::NotFound("m".to_string()), 404),
        (ServiceError::InvalidId("m".to_string()), 400),
        (ServiceError::BadRequest("m".to_string()), 400),
        (ServiceError::DatabaseError("m".to_string()), 500),
        (ServiceError::HashingError("m".to_string()), 500),
        (ServiceError::Unexpected("m".to_string()), 500),
        (ServiceError::Conflict("m".to_string()), 409),
        (ServiceError::Unauthorized("m".to_string()), 401),
    ];
    for (service, code) in cases {
        let api = ApiError::from(service);
        assert_eq!(api.status_code(), code);
    }
}

#[test]
fn each_sale_error_keeps_its_own_message() {
    fn msg(e: SaleError) -> String {
        match e.service_error() {
            ServiceError::NotFound(m)
            | ServiceError::BadRequest(m)
            | ServiceError::Conflict(m)
            | ServiceError::DatabaseError(m) => m,
            other => panic!("unexpected category {:?}", other),
        }
    }
    assert_eq!(msg(SaleError::EmptyOrder), "items must not be empty");
    assert_eq!(msg(SaleError::InvalidPayment), "paid amount must not be negative");
    assert_eq!(
        msg(SaleError::LineProductNotFound { product_id: ProductId(1) }),
        "product not found"
    );
    assert_eq!(
        msg(SaleError::InvalidQuantity { product_id: ProductId(1) }),
        "quantity must be at least 1"
    );
    assert_eq!(
        msg(SaleError::PaymentMethodNotFound { method_id: PaymentMethodId(1) }),
        "payment method not found"
    );
    assert_eq!(
        msg(SaleError::PaymentMethodInactive { method_id: PaymentMethodId(1) }),
        "payment method is not active"
    );
    assert_eq!(msg(SaleError::NoteTooLong), "note is too long");
    assert_eq!(msg(SaleError::AmountOverflow), "total amount is out of range");
    assert_eq!(msg(SaleError::Conflict), "duplicate value");
    assert_eq!(msg(SaleError::StorageError), "storage unavailable");
}

#[test]
fn sale_errors_map_to_the_original_service_categories() {
    let not_found = SaleError::LineProductNotFound { product_id: ProductId(3) }.service_error();
    assert!(matches!(not_found, ServiceError::NotFound(_)));
    let method_missing =
        SaleError::PaymentMethodNotFound { method_id: PaymentMethodId(2) }.service_error();
    assert!(matches!(method_missing, ServiceError::NotFound(_)));
    let inactive =
        SaleError::PaymentMethodInactive { method_id: PaymentMethodId(2) }.service_error();
    assert!(matches!(inactive, ServiceError::BadRequest(_)));
    assert!(matches!(SaleError::EmptyOrder.service_error(), ServiceError::BadRequest(_)));
    assert!(matches!(SaleError::InvalidPayment.service_error(), ServiceError::BadRequest(_)));
    assert!(matches!(
        SaleError::InvalidQuantity { product_id: ProductId(1) }.service_error(),
        ServiceError::BadRequest(_)
    ));
    assert!(matches!(SaleError::NoteTooLong.service_error(), ServiceError::BadRequest(_)));
    assert!(matches!(SaleError::AmountOverflow.service_error(), ServiceError::BadRequest(_)));
    assert!(matches!(SaleError::Conflict.service_error(), ServiceError::Conflict(_)));
    assert!(matches!(SaleError::StorageError.service_error(), ServiceError::DatabaseError(_)));
}

#[test]
fn duplicate_field_read_from_store_message() {
    let message = r#"E11000 duplicate key error collection: shop.users index: username_1 dup key: { username: "bob" }"#;
    assert_eq!(extract_duplicate_field(message).as_deref(), Some("username"));
}

#[test]
fn no_marker_means_no_field() {
    assert_eq!(extract_duplicate_field("write error without the pattern"), None);
    assert_eq!(extract_duplicate_field(""), None);
    assert_eq!(extract_duplicate_field("dup key: {"), None);
}

#[test]
fn marker_without_colon_means_no_field() {
    assert_eq!(extract_duplicate_field("dup key: { username \"bob\" }"), None);
}

#[test]
fn empty_capture_means_no_field() {
    assert_eq!(extract_duplicate_field("dup key: { : \"bob\" }"), None);
}

#[test]
fn first_marker_wins() {
    let message = r#"dup key: { email: "a@b.c" } and later dup key: { username: "bob" }"#;
    assert_eq!(extract_duplicate_field(message).as_deref(), Some("email"));
}

#[test]
fn duplicate_key_code_becomes_conflict() {
    let message = r#"E11000 duplicate key error dup key: { email: "a@b.c" }"#;
    let e = handle_duplicate_key_error(11000, message).expect("a conflict");
    match e {
        ServiceError::Conflict(field) => assert_eq!(field, "email"),
        other => panic!("expected a conflict, got {:?}", other),
    }
}

#[test]
fn other_codes_are_not_conflicts() {
    let message = r#"E11000 duplicate key error dup key: { email: "a@b.c" }"#;
    assert!(handle_duplicate_key_error(11001, message).is_none());
    assert!(handle_duplicate_key_error(0, message).is_none());
}

#[test]
fn duplicate_code_without_field_is_not_a_conflict() {
    assert!(handle_duplicate_key_error(11000, "some other write failure").is_none());
}

use sales_core::engine::{create_sale, create_sale_now};
use sales_core::errors::SaleError;
use sales_core::ids::{CustomerId, PaymentMethodId, ProductId, SaleId, UserId};
use sales_core::money::SaleStatus;
use sales_core::payment_method::{PaymentMethod, PaymentMethodStore};
use sales_core::product::{Product, ProductStore};
use sales_core::repository::SaleRepository;
use sales_core::sale::{SaleDTO, SaleItemDTO};

fn product(id: u64, owner: u64, name: &str, sku: &str, price: i64) -> Product {
    Product {
        id: ProductId(id),
        user_id: UserId(owner),
        name: name.to_string(),
        sku: sku.to_string(),
        price,
        stock: 10,
    }
}

fn store_with(products: Vec<Product>) -> ProductStore {
    let mut store = ProductStore::new();
    for p in products {
        assert!(store.add_product(p));
    }
    store
}

fn request(items: Vec<(u64, i32)>, paid: i64) -> SaleDTO {
    SaleDTO {
        customer_id: None,
        items: items
            .into_iter()
            .map(|(id, quantity)| SaleItemDTO { product_id: ProductId(id), quantity })
            .collect(),
        payment_method_id: None,
        paid_amount: paid,
        notes: None,
    }
}

#[test]
fn single_line_fully_paid() {
    let products = store_with(vec![product(1, 7, "chair", "CH-1", 15000)]);
    let methods = PaymentMethodStore::new();
    let mut repo = SaleRepository::new();

    let id = create_sale(&products, &methods, &mut repo, UserId(7), request(vec![(1, 2)], 30000), 50)
        .expect("sale should be accepted");
    assert_eq!(id, SaleId(0));
    let sale = repo.get(id).expect("stored");
    assert_eq!(sale.total_amount, 30000);
    assert_eq!(sale.paid_amount, 30000);
    assert_eq!(sale.remaining_amount, 0);
    assert_eq!(sale.status, SaleStatus::Paid);
    assert_eq!(sale.status.label(), "paid");
    assert_eq!(sale.items.len(), 1);
    assert_eq!(sale.items[0].price, 15000);
    assert_eq!(sale.items[0].subtotal, 30000);
    assert_eq!(sale.items[0].quantity, 2);
    assert_eq!(sale.items[0].product_name, "chair");
    assert_eq!(sale.items[0].sku, "CH-1");
    assert!(sale.invoice_number.is_none());
    assert_eq!(sale.sale_date, 50);
    assert_eq!(sale.created_at, 50);
    assert_eq!(sale.updated_at, 50);
}

#[test]
fn single_line_partially_paid() {
    let products = store_with(vec![product(1, 7, "chair", "CH-1", 15000)]);
    let methods = PaymentMethodStore::new();
    let mut repo = SaleRepository::new();

    let id = create_sale(&products, &methods, &mut repo, UserId(7), request(vec![(1, 2)], 10000), 50)
        .expect("sale should be accepted");
    let sale = repo.get(id).expect("stored");
    assert_eq!(sale.total_amount, 30000);
    assert_eq!(sale.remaining_amount, 20000);
    assert_eq!(sale.status, SaleStatus::Partial);
    assert_eq!(sale.status.label(), "partial");
}

#[test]
fn nothing_paid_is_unpaid() {
    let products = store_with(vec![product(1, 7, "chair", "CH-1", 15000)]);
    let methods = PaymentMethodStore::new();
    let mut repo = SaleRepository::new();

    let id = create_sale(&products, &methods, &mut repo, UserId(7), request(vec![(1, 1)], 0), 50)
        .expect("sale should be accepted");
    let sale = repo.get(id).expect("stored");
    assert_eq!(sale.remaining_amount, 15000);
    assert_eq!(sale.status, SaleStatus::Unpaid);
    assert_eq!(sale.status.label(), "unpaid");
}

#[test]
fn overpayment_is_paid_with_negative_remainder() {
    let products = store_with(vec![product(1, 7, "chair", "CH-1", 15000)]);
    let methods = PaymentMethodStore::new();
    let mut repo = SaleRepository::new();

    let id = create_sale(&products, &methods, &mut repo, UserId(7), request(vec![(1, 1)], 20000), 50)
        .expect("sale should be accepted");
    let sale = repo.get(id).expect("stored");
    assert_eq!(sale.remaining_amount, -5000);
    assert_eq!(sale.status, SaleStatus::Paid);
}

#[test]
fn exact_decimal_total_in_minor_units() {
    // Three lines of one item at 19.99 in minor units must sum exactly.
    let products = store_with(vec![product(1, 7, "mug", "M-1", 1999)]);
    let methods = PaymentMethodStore::new();
    let mut repo = SaleRepository::new();

    let id = create_sale(&products, &methods, &mut repo, UserId(7), request(vec![(1, 3)], 0), 50)
        .expect("sale should be accepted");
    let sale = repo.get(id).expect("stored");
    assert_eq!(sale.total_amount, 5997);
    assert_eq!(sale.items[0].subtotal, 5997);
}

#[test]
fn total_sums_all_lines() {
    let products = store_with(vec![
        product(1, 7, "chair", "CH-1", 15000),
        product(2, 7, "desk", "DK-1", 99999),
        product(3, 7, "lamp", "LM-1", 1),
    ]);
    let methods = PaymentMethodStore::new();
    let mut repo = SaleRepository::new();

    let id = create_sale(
        &products,
        &methods,
        &mut repo,
        UserId(7),
        request(vec![(1, 2), (2, 1), (3, 5)], 0),
        50,
    )
    .expect("sale should be accepted");
    let sale = repo.get(id).expect("stored");
    assert_eq!(sale.total_amount, 30000 + 99999 + 5);
    assert_eq!(sale.items.len(), 3);
    assert_eq!(sale.items[1].product_name, "desk");
    assert_eq!(sale.items[2].subtotal, 5);
}

#[test]
fn stored_price_wins_over_any_client_belief() {
    // The request shape carries no price at all; the same request priced
    // against two stores differs exactly by the stored price change.
    let methods = PaymentMethodStore::new();

    let products_before = store_with(vec![product(1, 7, "chair", "CH-1", 15000)]);
    let mut repo_before = SaleRepository::new();
    let id_before = create_sale(
        &products_before,
        &methods,
        &mut repo_before,
        UserId(7),
        request(vec![(1, 2)], 0),
        50,
    )
    .expect("accepted");
    assert_eq!(repo_before.get(id_before).unwrap().total_amount, 30000);

    let products_after = store_with(vec![product(1, 7, "chair", "CH-1", 20000)]);
    let mut repo_after = SaleRepository::new();
    let id_after = create_sale(
        &products_after,
        &methods,
        &mut repo_after,
        UserId(7),
        request(vec![(1, 2)], 0),
        50,
    )
    .expect("accepted");
    assert_eq!(repo_after.get(id_after).unwrap().total_amount, 40000);
    assert_eq!(repo_after.get(id_after).unwrap().items[0].price, 20000);
}

#[test]
fn empty_order_rejected_idempotently() {
    let products = ProductStore::new();
    let methods = PaymentMethodStore::new();
    let mut repo = SaleRepository::new();

    for _ in 0..3 {
        let err = create_sale(&products, &methods, &mut repo, UserId(7), request(vec![], 0), 50)
            .expect_err("must be rejected");
        assert_eq!(err, SaleError::EmptyOrder);
        assert_eq!(repo.len(), 0);
    }
}

#[test]
fn negative_payment_rejected() {
    let products = store_with(vec![product(1, 7, "chair", "CH-1", 15000)]);
    let methods = PaymentMethodStore::new();
    let mut repo = SaleRepository::new();

    let err = create_sale(&products, &methods, &mut repo, UserId(7), request(vec![(1, 1)], -1), 50)
        .expect_err("must be rejected");
    assert_eq!(err, SaleError::InvalidPayment);
    assert_eq!(repo.len(), 0);
}

#[test]
fn zero_quantity_rejected() {
    let products = store_with(vec![product(1, 7, "chair", "CH-1", 15000)]);
    let methods = PaymentMethodStore::new();
    let mut repo = SaleRepository::new();

    let err = create_sale(&products, &methods, &mut repo, UserId(7), request(vec![(1, 0)], 0), 50)
        .expect_err("must be rejected");
    assert_eq!(err, SaleError::InvalidQuantity { product_id: ProductId(1) });
    assert_eq!(repo.len(), 0);
}

#[test]
fn negative_quantity_rejected() {
    let products = store_with(vec![product(1, 7, "chair", "CH-1", 15000)]);
    let methods = PaymentMethodStore::new();
    let mut repo = SaleRepository::new();

    let err = create_sale(&products, &methods, &mut repo, UserId(7), request(vec![(1, -3)], 0), 50)
        .expect_err("must be rejected");
    assert_eq!(err, SaleError::InvalidQuantity { product_id: ProductId(1) });
}

#[test]
fn unknown_product_rejected() {
    let products = store_with(vec![product(1, 7, "chair", "CH-1", 15000)]);
    let methods = PaymentMethodStore::new();
    let mut repo = SaleRepository::new();

    let err = create_sale(&products, &methods, &mut repo, UserId(7), request(vec![(2, 1)], 0), 50)
        .expect_err("must be rejected");
    assert_eq!(err, SaleError::LineProductNotFound { product_id: ProductId(2) });
    assert_eq!(repo.len(), 0);
}

#[test]
fn another_tenants_product_is_not_resolvable() {
    // The product exists, but belongs to user 7; user 8 cannot see it.
    let products = store_with(vec![product(1, 7, "chair", "CH-1", 15000)]);
    let methods = PaymentMethodStore::new();
    let mut repo = SaleRepository::new();

    let err = create_sale(&products, &methods, &mut repo, UserId(8), request(vec![(1, 1)], 0), 50)
        .expect_err("must be rejected");
    assert_eq!(err, SaleError::LineProductNotFound { product_id: ProductId(1) });
    assert_eq!(repo.len(), 0);
}

#[test]
fn failing_line_persists_nothing() {
    // First line resolves, second does not: the whole sale is aborted
    // and the repository receives no insert.
    let products = store_with(vec![product(1, 7, "chair", "CH-1", 15000)]);
    let methods = PaymentMethodStore::new();
    let mut repo = SaleRepository::new();

    let err = create_sale(
        &products,
        &methods,
        &mut repo,
        UserId(7),
        request(vec![(1, 2), (9, 1)], 0),
        50,
    )
    .expect_err("must be rejected");
    assert_eq!(err, SaleError::LineProductNotFound { product_id: ProductId(9) });
    assert_eq!(repo.len(), 0);
}

#[test]
fn first_failing_line_wins() {
    let products = store_with(vec![product(1, 7, "chair", "CH-1", 15000)]);
    let methods = PaymentMethodStore::new();
    let mut repo = SaleRepository::new();

    // Line order decides which error surfaces.
    let err = create_sale(
        &products,
        &methods,
        &mut repo,
        UserId(7),
        request(vec![(9, 1), (1, 0)], 0),
        50,
    )
    .expect_err("must be rejected");
    assert_eq!(err, SaleError::LineProductNotFound { product_id: ProductId(9) });
}

#[test]
fn overflowing_total_rejected() {
    let products = store_with(vec![product(1, 7, "gold", "AU-1", i64::MAX)]);
    let methods = PaymentMethodStore::new();
    let mut repo = SaleRepository::new();

    let err = create_sale(&products, &methods, &mut repo, UserId(7), request(vec![(1, 2)], 0), 50)
        .expect_err("must be rejected");
    assert_eq!(err, SaleError::AmountOverflow);
    assert_eq!(repo.len(), 0);
}

#[test]
fn note_too_long_rejected_before_lookups() {
    let products = ProductStore::new();
    let methods = PaymentMethodStore::new();
    let mut repo = SaleRepository::new();

    let mut req = request(vec![(1, 1)], 0);
    req.notes = Some("x".repeat(256));
    let err = create_sale(&products, &methods, &mut repo, UserId(7), req, 50)
        .expect_err("must be rejected");
    assert_eq!(err, SaleError::NoteTooLong);
    assert_eq!(repo.len(), 0);
}

#[test]
fn longest_allowed_note_accepted() {
    let products = store_with(vec![product(1, 7, "chair", "CH-1", 15000)]);
    let methods = PaymentMethodStore::new();
    let mut repo = SaleRepository::new();

    let mut req = request(vec![(1, 1)], 0);
    req.notes = Some("x".repeat(255));
    let id = create_sale(&products, &methods, &mut repo, UserId(7), req, 50).expect("accepted");
    assert_eq!(repo.get(id).unwrap().notes.as_deref(), Some("x".repeat(255).as_str()));
}

#[test]
fn inactive_payment_method_rejected() {
    let products = store_with(vec![product(1, 7, "chair", "CH-1", 15000)]);
    let mut methods = PaymentMethodStore::new();
    assert!(methods.add_method(PaymentMethod {
        id: PaymentMethodId(4),
        name: "transfer".to_string(),
        is_active: false,
    }));
    let mut repo = SaleRepository::new();

    let mut req = request(vec![(1, 1)], 0);
    req.payment_method_id = Some(PaymentMethodId(4));
    let err = create_sale(&products, &methods, &mut repo, UserId(7), req, 50)
        .expect_err("must be rejected");
    assert_eq!(err, SaleError::PaymentMethodInactive { method_id: PaymentMethodId(4) });
    assert_eq!(repo.len(), 0);
}

#[test]
fn unknown_payment_method_rejected() {
    let products = store_with(vec![product(1, 7, "chair", "CH-1", 15000)]);
    let methods = PaymentMethodStore::new();
    let mut repo = SaleRepository::new();

    let mut req = request(vec![(1, 1)], 0);
    req.payment_method_id = Some(PaymentMethodId(4));
    let err = create_sale(&products, &methods, &mut repo, UserId(7), req, 50)
        .expect_err("must be rejected");
    assert_eq!(err, SaleError::PaymentMethodNotFound { method_id: PaymentMethodId(4) });
    assert_eq!(repo.len(), 0);
}

#[test]
fn active_payment_method_embedded_as_snapshot() {
    let products = store_with(vec![product(1, 7, "chair", "CH-1", 15000)]);
    let mut methods = PaymentMethodStore::new();
    assert!(methods.add_method(PaymentMethod {
        id: PaymentMethodId(4),
        name: "transfer".to_string(),
        is_active: true,
    }));
    let mut repo = SaleRepository::new();

    let mut req = request(vec![(1, 1)], 0);
    req.payment_method_id = Some(PaymentMethodId(4));
    req.customer_id = Some(CustomerId(77));
    let id = create_sale(&products, &methods, &mut repo, UserId(7), req, 50).expect("accepted");
    let sale = repo.get(id).unwrap();
    let embedded = sale.payment_method.as_ref().expect("embedded snapshot");
    assert_eq!(embedded.id, PaymentMethodId(4));
    assert_eq!(embedded.name, "transfer");
    assert!(embedded.is_active);
    assert_eq!(sale.customer_id, Some(CustomerId(77)));
}

#[test]
fn identities_are_assigned_in_order() {
    let products = store_with(vec![product(1, 7, "chair", "CH-1", 15000)]);
    let methods = PaymentMethodStore::new();
    let mut repo = SaleRepository::new();

    let a = create_sale(&products, &methods, &mut repo, UserId(7), request(vec![(1, 1)], 0), 50)
        .expect("accepted");
    let b = create_sale(&products, &methods, &mut repo, UserId(7), request(vec![(1, 2)], 0), 51)
        .expect("accepted");
    assert_eq!(a, SaleId(0));
    assert_eq!(b, SaleId(1));
    assert_eq!(repo.len(), 2);
    assert_eq!(repo.get(a).unwrap().id, Some(SaleId(0)));
    assert_eq!(repo.get(b).unwrap().id, Some(SaleId(1)));
    assert!(repo.get(SaleId(2)).is_none());
}

#[test]
fn sales_listing_is_scoped_to_owner() {
    let products = store_with(vec![
        product(1, 7, "chair", "CH-1", 15000),
        product(2, 8, "desk", "DK-1", 20000),
    ]);
    let methods = PaymentMethodStore::new();
    let mut repo = SaleRepository::new();

    create_sale(&products, &methods, &mut repo, UserId(7), request(vec![(1, 1)], 0), 50)
        .expect("accepted");
    create_sale(&products, &methods, &mut repo, UserId(8), request(vec![(2, 1)], 0), 51)
        .expect("accepted");
    create_sale(&products, &methods, &mut repo, UserId(7), request(vec![(1, 2)], 0), 52)
        .expect("accepted");

    let of_seven = repo.sales_for_user(UserId(7));
    assert_eq!(of_seven.len(), 2);
    assert!(of_seven.iter().all(|s| s.user_id == UserId(7)));
    assert_eq!(of_seven[0].total_amount, 15000);
    assert_eq!(of_seven[1].total_amount, 30000);

    let of_nine = repo.sales_for_user(UserId(9));
    assert!(of_nine.is_empty());
}

#[test]
fn clock_stamped_sale_has_equal_timestamps() {
    let products = store_with(vec![product(1, 7, "chair", "CH-1", 15000)]);
    let methods = PaymentMethodStore::new();
    let mut repo = SaleRepository::new();

    let id = create_sale_now(&products, &methods, &mut repo, UserId(7), request(vec![(1, 1)], 0))
        .expect("accepted");
    let sale = repo.get(id).unwrap();
    assert_eq!(sale.created_at, sale.updated_at);
    assert_eq!(sale.created_at, sale.sale_date);
    assert!(sale.created_at > 0);
}

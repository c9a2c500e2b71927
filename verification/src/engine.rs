//! The sale reconciliation engine.
//!
//! Given a caller, an unvalidated request and the stores, the engine
//! either assembles a fully priced, internally consistent sale and
//! persists it atomically, or rejects the request with one specific
//! error and leaves the repository untouched. Every line is re-priced
//! from the stored product data; the request carries no price that
//! could influence the outcome.

use vstd::prelude::*;
use vstd::string::StrSliceExecFns;

use crate::errors::SaleError;
use crate::ids::{SaleId, UserId};
use crate::money::{classify_spec, classify_status};
use crate::payment_method::{find_method_spec, MethodLookup, PaymentMethod, PaymentMethodStore};
use crate::product::{find_owned_spec, lemma_find_owned_scoped, Product, ProductStore};
use crate::repository::SaleRepository;
use crate::sale::{subtotal_sum, Sale, SaleDTO, SaleItem, SaleItemDTO, NOTE_MAX_CHARS};
use crate::time::current_millis;

verus! {

/// A persisted line is the snapshot of product `p` for request line
/// `d`: identity and quantity from the request, name, SKU and price
/// from the stored product, and the exact line subtotal.
pub open spec fn item_snapshot(it: SaleItem, d: SaleItemDTO, p: Product) -> bool {
    &&& it.product_id == d.product_id
    &&& it.product_name@ == p.name@
    &&& it.sku@ == p.sku@
    &&& it.quantity == d.quantity
    &&& it.price == p.price
    &&& it.subtotal == p.price * d.quantity
}

/// Every persisted line is the snapshot of the product that a lookup
/// scoped to `caller` resolves for its request line.
pub open spec fn items_priced_from(
    items: Seq<SaleItem>,
    products: Seq<Product>,
    caller: UserId,
    reqs: Seq<SaleItemDTO>,
) -> bool {
    &&& items.len() == reqs.len()
    &&& forall|i: int|
        0 <= i < reqs.len() ==> {
            &&& find_owned_spec(products, (#[trigger] reqs[i]).product_id, caller) matches Some(p)
            &&& item_snapshot(items[i], reqs[i], p)
        }
}

/// The first per-line rejection of the request lines, walked in input
/// order with `acc` already accumulated: a line whose product does not
/// resolve for the caller, then a non-positive quantity, then a total
/// that leaves the machine range.
pub open spec fn line_error_from(
    products: Seq<Product>,
    caller: UserId,
    items: Seq<SaleItemDTO>,
    acc: int,
) -> Option<SaleError>
    decreases items.len(),
{
    if items.len() == 0 {
        None
    } else {
        let d = items[0];
        match find_owned_spec(products, d.product_id, caller) {
            None => Some(SaleError::LineProductNotFound { product_id: d.product_id }),
            Some(p) => if d.quantity < 1 {
                Some(SaleError::InvalidQuantity { product_id: d.product_id })
            } else if acc + p.price * d.quantity > i64::MAX {
                Some(SaleError::AmountOverflow)
            } else {
                line_error_from(products, caller, items.drop_first(), acc + p.price * d.quantity)
            },
        }
    }
}

/// The exact total of the request lines that resolve for the caller:
/// the sum of stored price times requested quantity.
pub open spec fn request_total(products: Seq<Product>, caller: UserId, items: Seq<SaleItemDTO>) -> int
    decreases items.len(),
{
    if items.len() == 0 {
        0
    } else {
        let d = items[0];
        let rest = request_total(products, caller, items.drop_first());
        match find_owned_spec(products, d.product_id, caller) {
            Some(p) => p.price * d.quantity + rest,
            None => rest,
        }
    }
}

/// Whether a request note is within the stored bound.
pub open spec fn note_len_ok(notes: Option<String>) -> bool {
    match notes {
        Some(n) => n@.len() <= NOTE_MAX_CHARS,
        None => true,
    }
}

/// The rejection, if any, that a sale-creation request receives: the
/// fail-fast checks first, then the per-line checks in input order,
/// then the payment-method resolution. `None` means the sale is
/// assembled and persisted.
pub open spec fn sale_error_spec(
    products: Seq<Product>,
    methods: Seq<PaymentMethod>,
    caller: UserId,
    req: SaleDTO,
) -> Option<SaleError> {
    if req.items@.len() == 0 {
        Some(SaleError::EmptyOrder)
    } else if req.paid_amount < 0 {
        Some(SaleError::InvalidPayment)
    } else if !note_len_ok(req.notes) {
        Some(SaleError::NoteTooLong)
    } else {
        match line_error_from(products, caller, req.items@, 0) {
            Some(e) => Some(e),
            None => match req.payment_method_id {
                Some(mid) => match find_method_spec(methods, mid) {
                    None => Some(SaleError::PaymentMethodNotFound { method_id: mid }),
                    Some(m) => if !m.is_active {
                        Some(SaleError::PaymentMethodInactive { method_id: mid })
                    } else {
                        None
                    },
                },
                None => None,
            },
        }
    }
}

/// What the persisted sale for an accepted request looks like: the
/// caller as owner, every line a snapshot priced from the store, the
/// derived monetary fields, no invoice number yet, the payment-method
/// snapshot exactly as stored, and `now` as every timestamp.
pub open spec fn sale_matches_request(
    sale: Sale,
    products: Seq<Product>,
    methods: Seq<PaymentMethod>,
    caller: UserId,
    req: SaleDTO,
    id: SaleId,
    now: i64,
) -> bool {
    &&& sale.id == Some(id)
    &&& sale.user_id == caller
    &&& sale.customer_id == req.customer_id
    &&& items_priced_from(sale.items@, products, caller, req.items@)
    &&& sale.total_amount == request_total(products, caller, req.items@)
    &&& sale.total_amount == subtotal_sum(sale.items@)
    &&& sale.paid_amount == req.paid_amount
    &&& sale.remaining_amount == sale.total_amount - sale.paid_amount
    &&& sale.status == classify_spec(sale.total_amount as int, sale.paid_amount as int)
    &&& sale.invoice_number is None
    &&& match req.payment_method_id {
        Some(mid) => sale.payment_method matches Some(m) && find_method_spec(methods, mid)
            == Some(m) && m.is_active,
        None => sale.payment_method is None,
    }
    &&& sale.sale_date == now
    &&& sale.notes == req.notes
    &&& sale.created_at == now
    &&& sale.updated_at == now
}

/// Re-prices every request line against the store, in input order.
///
/// On success the returned lines are exactly the snapshots of the
/// caller's stored products, and the returned total is both the exact
/// sum of stored price times quantity and the sum of the returned
/// subtotals. On failure the error is the first per-line rejection.
pub fn reconcile_items(products: &ProductStore, caller: UserId, items: &Vec<SaleItemDTO>) -> (r:
    Result<(Vec<SaleItem>, i64), SaleError>)
    requires
        products.wf(),
    ensures
        match r {
            Ok(pair) => {
                &&& line_error_from(products@, caller, items@, 0) is None
                &&& items_priced_from(pair.0@, products@, caller, items@)
                &&& forall|i: int| 0 <= i < pair.0@.len() ==> (#[trigger] pair.0@[i]).wf()
                &&& pair.1 == request_total(products@, caller, items@)
                &&& pair.1 == subtotal_sum(pair.0@)
                &&& pair.1 >= 0
            },
            Err(e) => line_error_from(products@, caller, items@, 0) == Some(e),
        },
{
    let n = items.len();
    let mut out: Vec<SaleItem> = Vec::new();
    let mut total: i64 = 0;
    assert(items@.skip(0) =~= items@);
    for k in 0..n
        invariant
            products.wf(),
            n == items@.len(),
            0 <= total,
            out@.len() == k,
            items_priced_from(out@, products@, caller, items@.take(k as int)),
            forall|i: int| 0 <= i < out@.len() ==> (#[trigger] out@[i]).wf(),
            total == subtotal_sum(out@),
            line_error_from(products@, caller, items@, 0) == line_error_from(
                products@,
                caller,
                items@.skip(k as int),
                total as int,
            ),
            request_total(products@, caller, items@) == total + request_total(
                products@,
                caller,
                items@.skip(k as int),
            ),
    {
        let d = items[k];
        assert(items@.skip(k as int)[0] == items@[k as int]);
        assert(items@.skip(k as int).drop_first() =~= items@.skip(k as int + 1));
        let p = match products.find_owned(d.product_id, caller) {
            Some(p) => p,
            None => {
                return Err(SaleError::LineProductNotFound { product_id: d.product_id });
            },
        };
        proof {
            lemma_find_owned_scoped(products@, d.product_id, caller);
        }
        if d.quantity < 1 {
            return Err(SaleError::InvalidQuantity { product_id: d.product_id });
        }
        assert(p.price * (d.quantity as i64) >= 0) by (nonlinear_arith)
            requires
                p.price >= 0,
                d.quantity >= 1,
        ;
        let sub = match p.price.checked_mul(d.quantity as i64) {
            Some(sub) => sub,
            None => {
                return Err(SaleError::AmountOverflow);
            },
        };
        let new_total = match total.checked_add(sub) {
            Some(t) => t,
            None => {
                return Err(SaleError::AmountOverflow);
            },
        };
        let item = SaleItem {
            product_id: d.product_id,
            product_name: p.name.clone(),
            sku: p.sku.clone(),
            quantity: d.quantity,
            price: p.price,
            subtotal: sub,
        };
        assert(out@.push(item).drop_last() =~= out@);
        out.push(item);
        total = new_total;
        assert(items@.take(k as int + 1).drop_last() =~= items@.take(k as int));
        assert(items_priced_from(out@, products@, caller, items@.take(k as int + 1))) by {
            assert(forall|i: int|
                0 <= i < k ==> items@.take(k as int + 1)[i] == #[trigger] items@.take(k as int)[i]);
            assert(items@.take(k as int + 1)[k as int] == items@[k as int]);
        }
    }
    assert(items@.take(n as int) =~= items@);
    assert(items@.skip(n as int) =~= Seq::<SaleItemDTO>::empty());
    Ok((out, total))
}

/// Creates a sale for `caller` from `request`, pricing every line from
/// the product store, resolving the optional payment method, deriving
/// the monetary fields, and persisting the aggregate atomically with
/// `now` as its timestamps.
///
/// On success the assigned identity is returned and the stored sale is
/// exactly the assembly that [`sale_matches_request`] describes. On
/// rejection the error is exactly [`sale_error_spec`] of the request
/// and nothing is persisted.
pub fn create_sale(
    products: &ProductStore,
    methods: &PaymentMethodStore,
    repo: &mut SaleRepository,
    caller: UserId,
    request: SaleDTO,
    now: i64,
) -> (r: Result<SaleId, SaleError>)
    requires
        products.wf(),
        old(repo).wf(),
    ensures
        final(repo).wf(),
        match r {
            Ok(id) => {
                &&& sale_error_spec(products@, methods@, caller, request) is None
                &&& id == SaleId(old(repo)@.len() as u64)
                &&& final(repo)@.len() == old(repo)@.len() + 1
                &&& forall|i: int|
                    0 <= i < old(repo)@.len() ==> final(repo)@[i] == #[trigger] old(repo)@[i]
                &&& final(repo)@.last().wf()
                &&& sale_matches_request(
                    final(repo)@.last(),
                    products@,
                    methods@,
                    caller,
                    request,
                    id,
                    now,
                )
            },
            Err(e) => {
                &&& sale_error_spec(products@, methods@, caller, request) == Some(e)
                &&& *final(repo) == *old(repo)
            },
        },
{
    if request.items.len() == 0 {
        return Err(SaleError::EmptyOrder);
    }
    if request.paid_amount < 0 {
        return Err(SaleError::InvalidPayment);
    }
    match &request.notes {
        Some(n) => {
            if n.as_str().unicode_len() > NOTE_MAX_CHARS {
                return Err(SaleError::NoteTooLong);
            }
        },
        None => {},
    }
    let (items, total) = match reconcile_items(products, caller, &request.items) {
        Ok(pair) => pair,
        Err(e) => {
            return Err(e);
        },
    };
    let payment_method = match &request.payment_method_id {
        Some(mid) => match methods.find_active(*mid) {
            MethodLookup::Active(m) => Some(m.clone()),
            MethodLookup::Inactive => {
                return Err(SaleError::PaymentMethodInactive { method_id: *mid });
            },
            MethodLookup::NotFound => {
                return Err(SaleError::PaymentMethodNotFound { method_id: *mid });
            },
        },
        None => None,
    };
    let remaining = total - request.paid_amount;
    let status = classify_status(total, request.paid_amount);
    let sale = Sale {
        id: None,
        user_id: caller,
        customer_id: request.customer_id,
        items,
        total_amount: total,
        paid_amount: request.paid_amount,
        remaining_amount: remaining,
        status,
        invoice_number: None,
        payment_method,
        sale_date: now,
        notes: request.notes,
        created_at: now,
        updated_at: now,
    };
    let id = repo.insert(sale);
    Ok(id)
}

/// Creates a sale as [`create_sale`] does, stamping it with the time
/// the clock reports at the moment of creation.
pub fn create_sale_now(
    products: &ProductStore,
    methods: &PaymentMethodStore,
    repo: &mut SaleRepository,
    caller: UserId,
    request: SaleDTO,
) -> (r: Result<SaleId, SaleError>)
    requires
        products.wf(),
        old(repo).wf(),
    ensures
        final(repo).wf(),
        match r {
            Ok(id) => {
                &&& sale_error_spec(products@, methods@, caller, request) is None
                &&& id == SaleId(old(repo)@.len() as u64)
                &&& final(repo)@.len() == old(repo)@.len() + 1
                &&& forall|i: int|
                    0 <= i < old(repo)@.len() ==> final(repo)@[i] == #[trigger] old(repo)@[i]
                &&& final(repo)@.last().wf()
                &&& exists|t: i64|
                    #[trigger] sale_matches_request(
                        final(repo)@.last(),
                        products@,
                        methods@,
                        caller,
                        request,
                        id,
                        t,
                    )
            },
            Err(e) => {
                &&& sale_error_spec(products@, methods@, caller, request) == Some(e)
                &&& *final(repo) == *old(repo)
            },
        },
{
    let now = current_millis();
    create_sale(products, methods, repo, caller, request, now)
}

/// Two requests with the same content: same customer, same lines in
/// the same order, same payment-method reference, same paid amount and
/// the same note text.
pub open spec fn same_request(a: SaleDTO, b: SaleDTO) -> bool {
    &&& a.customer_id == b.customer_id
    &&& a.items@ == b.items@
    &&& a.payment_method_id == b.payment_method_id
    &&& a.paid_amount == b.paid_amount
    &&& match (a.notes, b.notes) {
        (Some(x), Some(y)) => x@ == y@,
        (None, None) => true,
        _ => false,
    }
}

/// Resubmitting a request changes nothing about its outcome: the
/// rejection, if any, is a function of the request content and the
/// stores alone, so two submissions of the same content receive the
/// same error. Together with the contract of [`create_sale`] — whose
/// result is pinned to [`sale_error_spec`] and which leaves the
/// repository untouched on every rejection — a rejected request can be
/// resubmitted any number of times with the same answer and no effect.
pub proof fn lemma_idempotent_rejection(
    products: Seq<Product>,
    methods: Seq<PaymentMethod>,
    caller: UserId,
    a: SaleDTO,
    b: SaleDTO,
)
    requires
        same_request(a, b),
    ensures
        sale_error_spec(products, methods, caller, a) == sale_error_spec(
            products,
            methods,
            caller,
            b,
        ),
{
    assert(note_len_ok(a.notes) == note_len_ok(b.notes));
}

/// Line `i` of a persisted item list snapshots some stored product of
/// the caller: same identity, same price.
pub open spec fn line_snapshots_owned_product(
    items: Seq<SaleItem>,
    products: Seq<Product>,
    caller: UserId,
    i: int,
) -> bool {
    exists|p: Product|
        {
            &&& #[trigger] products.contains(p)
            &&& p.user_id == caller
            &&& p.id == items[i].product_id
            &&& items[i].price == p.price
        }
}

/// Tenant isolation of the priced lines: every persisted line of an
/// accepted request snapshots a stored product that belongs to the
/// caller. A product of another user can never contribute a price or a
/// snapshot to the caller's sale.
pub proof fn lemma_items_tenant_scoped(
    items: Seq<SaleItem>,
    products: Seq<Product>,
    caller: UserId,
    reqs: Seq<SaleItemDTO>,
)
    requires
        items_priced_from(items, products, caller, reqs),
    ensures
        forall|i: int|
            0 <= i < items.len() ==> #[trigger] line_snapshots_owned_product(
                items,
                products,
                caller,
                i,
            ),
{
    assert forall|i: int|
        0 <= i < items.len() implies #[trigger] line_snapshots_owned_product(
        items,
        products,
        caller,
        i,
    ) by {
        assert(find_owned_spec(products, reqs[i].product_id, caller) is Some);
        let p = find_owned_spec(products, reqs[i].product_id, caller)->Some_0;
        lemma_find_owned_scoped(products, reqs[i].product_id, caller);
        assert(products.contains(p) && p.user_id == caller && p.id == items[i].product_id
            && items[i].price == p.price);
    }
}

} // verus!

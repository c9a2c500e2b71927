//! The sale aggregate and its request / response shapes.
//!
//! A sale is created once, from a request that carries product
//! references and quantities only. Every persisted line is a
//! point-in-time snapshot of the stored product, priced from the stored
//! price, never from anything the client supplied.

use vstd::prelude::*;

use crate::ids::{CustomerId, PaymentMethodId, ProductId, SaleId, UserId};
use crate::money::{classify_spec, SaleStatus};
use crate::payment_method::PaymentMethod;

verus! {

/// Longest note, in characters, that a sale may carry.
pub const NOTE_MAX_CHARS: usize = 255;

/// One persisted sale line: a snapshot of the product at reconciliation
/// time, with the line's exact subtotal.
#[derive(Debug, Clone)]
pub struct SaleItem {
    pub product_id: ProductId,
    pub product_name: String,
    pub sku: String,
    pub quantity: i32,
    pub price: i64,
    pub subtotal: i64,
}

impl SaleItem {
    /// A persisted line carries a positive quantity, a non-negative
    /// snapshot price, and the exact product of the two.
    pub open spec fn wf(self) -> bool {
        &&& self.quantity >= 1
        &&& self.price >= 0
        &&& self.subtotal == self.price * self.quantity
    }
}

/// Sum of the line subtotals of a persisted item list.
pub open spec fn subtotal_sum(items: Seq<SaleItem>) -> int
    decreases items.len(),
{
    if items.len() == 0 {
        0
    } else {
        subtotal_sum(items.drop_last()) + items.last().subtotal
    }
}

/// Sum of stored price times requested quantity over a persisted item
/// list.
pub open spec fn price_quantity_sum(items: Seq<SaleItem>) -> int
    decreases items.len(),
{
    if items.len() == 0 {
        0
    } else {
        price_quantity_sum(items.drop_last()) + items.last().price * items.last().quantity
    }
}

/// Total consistency: for well-formed lines, the sum of the stored
/// line subtotals is exactly the sum of price times quantity — the
/// total a sale carries is the exact arithmetic total of its lines.
pub proof fn lemma_total_consistency(items: Seq<SaleItem>)
    requires
        forall|i: int| 0 <= i < items.len() ==> (#[trigger] items[i]).wf(),
    ensures
        subtotal_sum(items) == price_quantity_sum(items),
    decreases items.len(),
{
    if items.len() > 0 {
        assert(items.last().wf());
        lemma_total_consistency(items.drop_last());
    }
}

/// One requested sale line: a product reference and a quantity. The
/// request carries no price; pricing is always taken from the store.
#[derive(Clone, Copy, Debug, PartialEq, Eq, Structural)]
pub struct SaleItemDTO {
    pub product_id: ProductId,
    pub quantity: i32,
}

/// An incoming sale-creation request.
#[derive(Debug)]
pub struct SaleDTO {
    pub customer_id: Option<CustomerId>,
    pub items: Vec<SaleItemDTO>,
    pub payment_method_id: Option<PaymentMethodId>,
    pub paid_amount: i64,
    pub notes: Option<String>,
}

/// The persisted sale aggregate: an ordered, non-empty list of line
/// snapshots with the derived monetary fields.
#[derive(Debug, Clone)]
pub struct Sale {
    pub id: Option<SaleId>,
    pub user_id: UserId,
    pub customer_id: Option<CustomerId>,
    pub items: Vec<SaleItem>,
    pub total_amount: i64,
    pub paid_amount: i64,
    pub remaining_amount: i64,
    pub status: SaleStatus,
    pub invoice_number: Option<String>,
    pub payment_method: Option<PaymentMethod>,
    pub sale_date: i64,
    pub notes: Option<String>,
    pub created_at: i64,
    pub updated_at: i64,
}

impl Sale {
    /// Internal consistency of a sale: the items are non-empty and well
    /// formed, the total is exactly the sum of the line subtotals, the
    /// remaining amount is total minus paid, the status is the
    /// classification of those two, an attached payment method was
    /// active when embedded, and the note is within its bound.
    pub open spec fn wf(self) -> bool {
        &&& self.items@.len() >= 1
        &&& forall|i: int| 0 <= i < self.items@.len() ==> (#[trigger] self.items@[i]).wf()
        &&& self.paid_amount >= 0
        &&& self.total_amount == subtotal_sum(self.items@)
        &&& self.remaining_amount == self.total_amount - self.paid_amount
        &&& self.status == classify_spec(self.total_amount as int, self.paid_amount as int)
        &&& (self.payment_method matches Some(m) ==> m.is_active)
        &&& (self.notes matches Some(n) ==> n@.len() <= NOTE_MAX_CHARS)
    }
}

/// The outward shape of a persisted sale, once an identity has been
/// assigned.
#[derive(Debug)]
pub struct SaleResponse {
    pub id: SaleId,
    pub user_id: UserId,
    pub customer_id: Option<CustomerId>,
    pub items: Vec<SaleItem>,
    pub total_amount: i64,
    pub paid_amount: i64,
    pub remaining_amount: i64,
    pub status: SaleStatus,
    pub invoice_number: Option<String>,
    pub payment_method: Option<PaymentMethod>,
    pub sale_date: i64,
    pub notes: Option<String>,
    pub created_at: i64,
    pub updated_at: i64,
}

impl SaleResponse {
    /// Projects a persisted sale into its outward shape. A sale only
    /// reaches the caller after persistence, so its identity is set.
    pub fn from_sale(sale: Sale) -> (r: SaleResponse)
        requires
            sale.id is Some,
        ensures
            r.id == sale.id->0,
            r.user_id == sale.user_id,
            r.customer_id == sale.customer_id,
            r.items == sale.items,
            r.total_amount == sale.total_amount,
            r.paid_amount == sale.paid_amount,
            r.remaining_amount == sale.remaining_amount,
            r.status == sale.status,
            r.invoice_number == sale.invoice_number,
            r.payment_method == sale.payment_method,
            r.sale_date == sale.sale_date,
            r.notes == sale.notes,
            r.created_at == sale.created_at,
            r.updated_at == sale.updated_at,
    {
        let id = match sale.id {
            Some(id) => id,
            None => SaleId(0),
        };
        SaleResponse {
            id,
            user_id: sale.user_id,
            customer_id: sale.customer_id,
            items: sale.items,
            total_amount: sale.total_amount,
            paid_amount: sale.paid_amount,
            remaining_amount: sale.remaining_amount,
            status: sale.status,
            invoice_number: sale.invoice_number,
            payment_method: sale.payment_method,
            sale_date: sale.sale_date,
            notes: sale.notes,
            created_at: sale.created_at,
            updated_at: sale.updated_at,
        }
    }
}

} // verus!

//! Money arithmetic and payment-status classification.
//!
//! Amounts are integers in the currency's minor unit. A sale's status is
//! derived from the aggregated total and the amount the caller has paid.

use vstd::prelude::*;
use vstd::string::StringExecFns;

verus! {

/// Payment status of a sale, derived from its total and paid amounts.
#[derive(Clone, Copy, Debug, PartialEq, Eq, Structural)]
pub enum SaleStatus {
    Paid,
    Partial,
    Unpaid,
}

/// Status that a sale with total `total` and paid amount `paid` must carry:
/// `Paid` when nothing remains to pay, otherwise `Partial` when something
/// was paid, otherwise `Unpaid`.
pub open spec fn classify_spec(total: int, paid: int) -> SaleStatus {
    if total - paid <= 0 {
        SaleStatus::Paid
    } else if paid > 0 {
        SaleStatus::Partial
    } else {
        SaleStatus::Unpaid
    }
}

/// Classifies a sale's payment status from its total and paid amounts.
///
/// The status is `Paid` exactly when the paid amount covers the total,
/// `Unpaid` exactly when nothing was paid and something remains, and
/// `Partial` otherwise.
pub fn classify_status(total: i64, paid: i64) -> (s: SaleStatus)
    ensures
        s == classify_spec(total as int, paid as int),
        s is Paid <==> paid >= total,
        s is Unpaid <==> paid <= 0 && total > paid,
        s is Partial <==> 0 < paid < total,
{
    if paid >= total {
        SaleStatus::Paid
    } else if paid > 0 {
        SaleStatus::Partial
    } else {
        SaleStatus::Unpaid
    }
}

impl SaleStatus {
    /// The status as the word stored alongside a persisted sale.
    pub fn label(&self) -> (r: String)
        ensures
            *self is Paid ==> r@ == "paid"@,
            *self is Partial ==> r@ == "partial"@,
            *self is Unpaid ==> r@ == "unpaid"@,
    {
        match self {
            SaleStatus::Paid => String::from_str("paid"),
            SaleStatus::Partial => String::from_str("partial"),
            SaleStatus::Unpaid => String::from_str("unpaid"),
        }
    }
}

} // verus!

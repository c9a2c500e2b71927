//! Identities of the stored records.
//!
//! Every stored record is addressed by a numeric identity. Distinct
//! newtypes keep a product identity from being confused with a user or
//! payment-method identity in a lookup.

use vstd::prelude::*;

verus! {

/// Identity of an owning user (the tenant).
#[derive(Clone, Copy, Debug, PartialEq, Eq, Structural, Hash)]
pub struct UserId(pub u64);

/// Identity of a stored product.
#[derive(Clone, Copy, Debug, PartialEq, Eq, Structural, Hash)]
pub struct ProductId(pub u64);

/// Identity of a payment method.
#[derive(Clone, Copy, Debug, PartialEq, Eq, Structural, Hash)]
pub struct PaymentMethodId(pub u64);

/// Identity of a customer attached to a sale.
#[derive(Clone, Copy, Debug, PartialEq, Eq, Structural, Hash)]
pub struct CustomerId(pub u64);

/// Identity assigned to a persisted sale.
#[derive(Clone, Copy, Debug, PartialEq, Eq, Structural, Hash)]
pub struct SaleId(pub u64);

} // verus!

//! Products and the product lookup gateway.
//!
//! A product belongs to exactly one user. The gateway resolves a product
//! by identity *and* owning user together, so a product of another user
//! is indistinguishable from a product that does not exist.

use vstd::prelude::*;
use vstd::string::StrSliceExecFns;

use crate::ids::{ProductId, UserId};
use crate::text::{is_blank, is_blank_chars};

verus! {

/// Lowest accepted unit price, in minor units.
pub const PRICE_MIN_MINOR: i64 = 100;

/// Highest accepted stock count.
pub const STOCK_MAX: u32 = 99999;

/// A stored product record. The unit price is authoritative and held in
/// the currency's minor unit.
#[derive(Debug, Clone)]
pub struct Product {
    pub id: ProductId,
    pub user_id: UserId,
    pub name: String,
    pub sku: String,
    pub price: i64,
    pub stock: u32,
}

impl Product {
    /// A stored product never carries a negative price.
    pub open spec fn wf(self) -> bool {
        self.price >= 0
    }

    /// The record after a partial update: each present field of the
    /// update replaces the stored one, identity and owner never change.
    pub fn apply_update(&self, dto: UpdateProductDTO) -> (r: Product)
        ensures
            r.id == self.id,
            r.user_id == self.user_id,
            r.name@ == (match dto.name {
                Some(n) => n@,
                None => self.name@,
            }),
            r.sku@ == (match dto.sku {
                Some(s) => s@,
                None => self.sku@,
            }),
            r.price == (match dto.price {
                Some(p) => p,
                None => self.price,
            }),
            r.stock == (match dto.stock {
                Some(s) => s,
                None => self.stock,
            }),
    {
        Product {
            id: self.id,
            user_id: self.user_id,
            name: match dto.name {
                Some(n) => n,
                None => self.name.clone(),
            },
            sku: match dto.sku {
                Some(s) => s,
                None => self.sku.clone(),
            },
            price: match dto.price {
                Some(p) => p,
                None => self.price,
            },
            stock: match dto.stock {
                Some(s) => s,
                None => self.stock,
            },
        }
    }
}

/// An incoming product record, before it is stored. A missing or blank
/// SKU is replaced by a generated one when the product is created.
#[derive(Debug)]
pub struct ProductDTO {
    pub name: String,
    pub sku: Option<String>,
    pub price: i64,
    pub stock: u32,
}

impl ProductDTO {
    /// Whether the record meets every bound: a non-empty name, a price
    /// of at least the minimum, a stock within the cap.
    pub fn validate(&self) -> (r: bool)
        ensures
            r == (self.name@.len() >= 1 && self.price >= PRICE_MIN_MINOR && self.stock
                <= STOCK_MAX),
    {
        self.name.as_str().unicode_len() >= 1 && self.price >= PRICE_MIN_MINOR && self.stock
            <= STOCK_MAX
    }
}

/// A partial update of a product record.
#[derive(Debug)]
pub struct UpdateProductDTO {
    pub name: Option<String>,
    pub sku: Option<String>,
    pub price: Option<i64>,
    pub stock: Option<u32>,
}

impl UpdateProductDTO {
    /// Whether the update carries anything to apply. An update with no
    /// field set is rejected by the service.
    pub fn has_updates(&self) -> (r: bool)
        ensures
            r <==> (self.name is Some || self.sku is Some || self.price is Some || self.stock
                is Some),
    {
        self.name.is_some() || self.sku.is_some() || self.price.is_some() || self.stock.is_some()
    }

    /// Whether every present field meets its bound.
    pub fn validate(&self) -> (r: bool)
        ensures
            r == {
                &&& (self.name matches Some(n) ==> n@.len() >= 1)
                &&& (self.price matches Some(p) ==> p >= PRICE_MIN_MINOR)
                &&& (self.stock matches Some(s) ==> s <= STOCK_MAX)
            },
    {
        let name_ok = match &self.name {
            Some(n) => n.as_str().unicode_len() >= 1,
            None => true,
        };
        let price_ok = match self.price {
            Some(p) => p >= PRICE_MIN_MINOR,
            None => true,
        };
        let stock_ok = match self.stock {
            Some(s) => s <= STOCK_MAX,
            None => true,
        };
        name_ok && price_ok && stock_ok
    }
}

/// The SKU a created product gets: the provided one where it is not
/// blank, otherwise the generated fallback.
pub fn choose_sku(provided: Option<String>, generated: String) -> (r: String)
    ensures
        r@ == (match provided {
            Some(s) => if is_blank_chars(s@) {
                generated@
            } else {
                s@
            },
            None => generated@,
        }),
{
    match provided {
        Some(s) => {
            if is_blank(s.as_str()) {
                generated
            } else {
                s
            }
        },
        None => generated,
    }
}

/// The product that a lookup scoped to `owner` resolves for `pid`:
/// the first stored product carrying both that identity and that owner.
pub open spec fn find_owned_spec(s: Seq<Product>, pid: ProductId, owner: UserId) -> Option<Product>
    decreases s.len(),
{
    if s.len() == 0 {
        None
    } else if s[0].id == pid && s[0].user_id == owner {
        Some(s[0])
    } else {
        find_owned_spec(s.drop_first(), pid, owner)
    }
}

/// A scoped lookup only ever resolves a product of the requesting owner:
/// whatever it returns carries the requested identity and owner, and it
/// returns nothing exactly when no stored product carries both.
pub proof fn lemma_find_owned_scoped(s: Seq<Product>, pid: ProductId, owner: UserId)
    ensures
        find_owned_spec(s, pid, owner) matches Some(p) ==> p.id == pid && p.user_id == owner
            && s.contains(p),
        find_owned_spec(s, pid, owner) is None <==> (forall|i: int|
            0 <= i < s.len() ==> !((#[trigger] s[i]).id == pid && s[i].user_id == owner)),
    decreases s.len(),
{
    if s.len() != 0 {
        lemma_find_owned_scoped(s.drop_first(), pid, owner);
        if s[0].id == pid && s[0].user_id == owner {
            assert(find_owned_spec(s, pid, owner) == Some(s[0]));
            assert(s.contains(s[0]));
            assert(!(forall|i: int|
                0 <= i < s.len() ==> !((#[trigger] s[i]).id == pid && s[i].user_id
                    == owner))) by {
                assert(s[0].id == pid && s[0].user_id == owner);
            }
        } else {
            assert(find_owned_spec(s, pid, owner) == find_owned_spec(s.drop_first(), pid, owner));
            if find_owned_spec(s, pid, owner) is None {
                assert forall|i: int|
                    0 <= i < s.len() implies !((#[trigger] s[i]).id == pid && s[i].user_id
                    == owner) by {
                    if i > 0 {
                        assert(s.drop_first()[i - 1] == s[i]);
                    }
                }
            } else {
                let p = find_owned_spec(s, pid, owner)->Some_0;
                let i = choose|i: int| 0 <= i < s.drop_first().len() && s.drop_first()[i] == p;
                assert(s[i + 1] == p);
                assert(s.contains(p));
                assert(!(forall|j: int|
                    0 <= j < s.len() ==> !((#[trigger] s[j]).id == pid && s[j].user_id
                        == owner))) by {
                    assert(s[i + 1].id == pid && s[i + 1].user_id == owner);
                }
            }
        }
    }
}

/// In-memory model of the product collection: the gateway the
/// reconciliation engine reads products through.
#[derive(Debug)]
pub struct ProductStore {
    products: Vec<Product>,
}

impl View for ProductStore {
    type V = Seq<Product>;

    closed spec fn view(&self) -> Seq<Product> {
        self.products@
    }
}

impl ProductStore {
    /// Every stored product is well formed and identities are unique.
    pub open spec fn wf(self) -> bool {
        &&& forall|i: int| 0 <= i < self@.len() ==> (#[trigger] self@[i]).wf()
        &&& forall|i: int, j: int|
            0 <= i < j < self@.len() ==> (#[trigger] self@[i]).id != (#[trigger] self@[j]).id
    }

    /// An empty store.
    pub fn new() -> (s: ProductStore)
        ensures
            s@ =~= Seq::<Product>::empty(),
            s.wf(),
    {
        ProductStore { products: Vec::new() }
    }

    /// How many products are stored.
    pub fn len(&self) -> (n: usize)
        ensures
            n == self@.len(),
    {
        self.products.len()
    }

    /// Whether some stored product carries the identity `id`.
    pub fn contains_id(&self, id: ProductId) -> (r: bool)
        ensures
            r <==> exists|i: int| 0 <= i < self@.len() && (#[trigger] self@[i]).id == id,
    {
        let n = self.products.len();
        for k in 0..n
            invariant
                n == self@.len(),
                forall|i: int| 0 <= i < k ==> (#[trigger] self@[i]).id != id,
        {
            if self.products[k].id == id {
                return true;
            }
        }
        false
    }

    /// Stores a new product. The product is refused (and the store left
    /// unchanged) when it carries a negative price or an identity that is
    /// already taken.
    pub fn add_product(&mut self, p: Product) -> (r: bool)
        requires
            old(self).wf(),
        ensures
            final(self).wf(),
            r <==> (p.wf() && (forall|i: int|
                0 <= i < old(self)@.len() ==> (#[trigger] old(self)@[i]).id != p.id)),
            r ==> final(self)@ == old(self)@.push(p),
            !r ==> final(self)@ == old(self)@,
    {
        if p.price < 0 {
            return false;
        }
        if self.contains_id(p.id) {
            return false;
        }
        self.products.push(p);
        true
    }

    /// Resolves the product with identity `id` owned by `owner`, or
    /// nothing when no stored product carries both.
    pub fn find_owned(&self, id: ProductId, owner: UserId) -> (r: Option<&Product>)
        ensures
            match r {
                Some(p) => find_owned_spec(self@, id, owner) == Some(*p),
                None => find_owned_spec(self@, id, owner) is None,
            },
    {
        let n = self.products.len();
        assert(self@.skip(0) =~= self@);
        for k in 0..n
            invariant
                n == self@.len(),
                find_owned_spec(self@, id, owner) == find_owned_spec(
                    self@.skip(k as int),
                    id,
                    owner,
                ),
        {
            let p = &self.products[k];
            assert(self@.skip(k as int)[0] == self@[k as int]);
            if p.id == id && p.user_id == owner {
                return Some(p);
            }
            assert(self@.skip(k as int).drop_first() =~= self@.skip(k as int + 1));
        }
        assert(self@.skip(n as int) =~= Seq::<Product>::empty());
        None
    }

    /// The stored products of one owner, in storage order.
    pub fn products_for_user(&self, owner: UserId) -> (r: Vec<&Product>)
        ensures
            forall|i: int| 0 <= i < r@.len() ==> (#[trigger] r@[i]).user_id == owner,
            r@.map_values(|p: &Product| *p) =~= self@.filter(|p: Product| p.user_id == owner),
    {
        let n = self.products.len();
        let mut out: Vec<&Product> = Vec::new();
        for k in 0..n
            invariant
                n == self@.len(),
                forall|i: int| 0 <= i < out@.len() ==> (#[trigger] out@[i]).user_id == owner,
                out@.map_values(|p: &Product| *p) =~= self@.take(k as int).filter(
                    |p: Product| p.user_id == owner,
                ),
        {
            let p = &self.products[k];
            assert(self@.take(k as int + 1).drop_last() =~= self@.take(k as int));
            assert(self@.take(k as int + 1).last() == self@[k as int]);
            reveal_with_fuel(Seq::filter, 2);
            if p.user_id == owner {
                out.push(p);
            }
        }
        assert(self@.take(n as int) =~= self@);
        out
    }
}

} // verus!

//! The sale repository: atomic persistence of assembled aggregates.
//!
//! A sale is inserted as one whole record and assigned its identity by
//! the store. Sales are immutable history: nothing here updates or
//! deletes one. Reads are scoped to the owning user, like the product
//! lookups.

use vstd::prelude::*;

use crate::ids::{SaleId, UserId};
use crate::sale::Sale;

verus! {

/// The sale to be stored for an assembled aggregate and an assigned
/// identity: the aggregate itself, with the identity set.
pub open spec fn with_id(sale: Sale, id: SaleId) -> Sale {
    Sale { id: Some(id), ..sale }
}

/// In-memory model of the sale collection. The identity of a sale is
/// its position in the store.
#[derive(Debug)]
pub struct SaleRepository {
    sales: Vec<Sale>,
}

impl View for SaleRepository {
    type V = Seq<Sale>;

    closed spec fn view(&self) -> Seq<Sale> {
        self.sales@
    }
}

impl SaleRepository {
    /// Every stored sale is internally consistent and carries the
    /// identity it was assigned at insertion.
    pub open spec fn wf(self) -> bool {
        forall|i: int|
            0 <= i < self@.len() ==> (#[trigger] self@[i]).id == Some(SaleId(i as u64))
                && self@[i].wf()
    }

    /// An empty repository.
    pub fn new() -> (r: SaleRepository)
        ensures
            r@ =~= Seq::<Sale>::empty(),
            r.wf(),
    {
        SaleRepository { sales: Vec::new() }
    }

    /// How many sales have been persisted.
    pub fn len(&self) -> (n: usize)
        ensures
            n == self@.len(),
    {
        self.sales.len()
    }

    /// Persists one assembled aggregate atomically and returns the
    /// identity assigned to it. Nothing else changes.
    pub fn insert(&mut self, sale: Sale) -> (id: SaleId)
        requires
            old(self).wf(),
            sale.wf(),
        ensures
            final(self).wf(),
            id == SaleId(old(self)@.len() as u64),
            final(self)@ == old(self)@.push(with_id(sale, id)),
    {
        let id = SaleId(self.sales.len() as u64);
        let stored = Sale { id: Some(id), ..sale };
        self.sales.push(stored);
        id
    }

    /// The stored sale carrying identity `id`, if one has been assigned
    /// that identity.
    pub fn get(&self, id: SaleId) -> (r: Option<&Sale>)
        ensures
            match r {
                Some(s) => id.0 < self@.len() && *s == self@[id.0 as int],
                None => id.0 >= self@.len(),
            },
    {
        if id.0 < self.sales.len() as u64 {
            Some(&self.sales[id.0 as usize])
        } else {
            None
        }
    }

    /// The stored sales of one owner, in insertion order.
    pub fn sales_for_user(&self, owner: UserId) -> (r: Vec<&Sale>)
        ensures
            forall|i: int| 0 <= i < r@.len() ==> (#[trigger] r@[i]).user_id == owner,
            r@.map_values(|s: &Sale| *s) =~= self@.filter(|s: Sale| s.user_id == owner),
    {
        let n = self.sales.len();
        let mut out: Vec<&Sale> = Vec::new();
        for k in 0..n
            invariant
                n == self@.len(),
                forall|i: int| 0 <= i < out@.len() ==> (#[trigger] out@[i]).user_id == owner,
                out@.map_values(|s: &Sale| *s) =~= self@.take(k as int).filter(
                    |s: Sale| s.user_id == owner,
                ),
        {
            let s = &self.sales[k];
            assert(self@.take(k as int + 1).drop_last() =~= self@.take(k as int));
            assert(self@.take(k as int + 1).last() == self@[k as int]);
            reveal_with_fuel(Seq::filter, 2);
            if s.user_id == owner {
                out.push(s);
            }
        }
        assert(self@.take(n as int) =~= self@);
        out
    }
}

} // verus!

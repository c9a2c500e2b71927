//! Payment methods and their lookup gateway.
//!
//! A payment method can be attached to a new sale only while it is
//! active. The gateway reports a missing method and an inactive method
//! as two distinct conditions, because the engine rejects them with
//! different errors.

use vstd::prelude::*;
use vstd::string::StrSliceExecFns;

use crate::ids::PaymentMethodId;

verus! {

/// A stored payment method.
#[derive(Debug)]
pub struct PaymentMethod {
    pub id: PaymentMethodId,
    pub name: String,
    pub is_active: bool,
}

impl Clone for PaymentMethod {
    /// A clone is the same record; the engine embeds one in a sale as
    /// the point-in-time snapshot.
    fn clone(&self) -> (r: Self)
        ensures
            r == *self,
    {
        PaymentMethod { id: self.id, name: self.name.clone(), is_active: self.is_active }
    }
}

/// An incoming payment-method record, before it is stored.
#[derive(Debug)]
pub struct PaymentMethodDTO {
    pub name: String,
    pub is_active: bool,
}

impl PaymentMethodDTO {
    /// A payment-method record is accepted only with a non-empty name.
    pub fn validate(&self) -> (r: bool)
        ensures
            r <==> self.name@.len() >= 1,
    {
        self.name.as_str().unicode_len() >= 1
    }
}

/// Outcome of resolving a payment method for a new sale.
#[derive(Debug)]
pub enum MethodLookup<'a> {
    /// The method exists and is active.
    Active(&'a PaymentMethod),
    /// The method exists but is not active.
    Inactive,
    /// No method carries the requested identity.
    NotFound,
}

/// The stored payment method carrying identity `id`: the first match.
pub open spec fn find_method_spec(s: Seq<PaymentMethod>, id: PaymentMethodId) -> Option<
    PaymentMethod,
>
    decreases s.len(),
{
    if s.len() == 0 {
        None
    } else if s[0].id == id {
        Some(s[0])
    } else {
        find_method_spec(s.drop_first(), id)
    }
}

/// In-memory model of the payment-method collection.
#[derive(Debug)]
pub struct PaymentMethodStore {
    methods: Vec<PaymentMethod>,
}

impl View for PaymentMethodStore {
    type V = Seq<PaymentMethod>;

    closed spec fn view(&self) -> Seq<PaymentMethod> {
        self.methods@
    }
}

impl PaymentMethodStore {
    /// Identities of stored methods are unique.
    pub open spec fn wf(self) -> bool {
        forall|i: int, j: int|
            0 <= i < j < self@.len() ==> (#[trigger] self@[i]).id != (#[trigger] self@[j]).id
    }

    /// An empty store.
    pub fn new() -> (s: PaymentMethodStore)
        ensures
            s@ =~= Seq::<PaymentMethod>::empty(),
            s.wf(),
    {
        PaymentMethodStore { methods: Vec::new() }
    }

    /// How many methods are stored.
    pub fn len(&self) -> (n: usize)
        ensures
            n == self@.len(),
    {
        self.methods.len()
    }

    /// Stores a new method; refused when its identity is already taken.
    pub fn add_method(&mut self, m: PaymentMethod) -> (r: bool)
        requires
            old(self).wf(),
        ensures
            final(self).wf(),
            r <==> (forall|i: int|
                0 <= i < old(self)@.len() ==> (#[trigger] old(self)@[i]).id != m.id),
            r ==> final(self)@ == old(self)@.push(m),
            !r ==> final(self)@ == old(self)@,
    {
        let n = self.methods.len();
        for k in 0..n
            invariant
                n == self@.len(),
                self.wf(),
                forall|i: int| 0 <= i < k ==> (#[trigger] self@[i]).id != m.id,
        {
            if self.methods[k].id == m.id {
                return false;
            }
        }
        self.methods.push(m);
        true
    }

    /// Resolves the method for a new sale: `Active` with the stored
    /// record when it exists and is active, `Inactive` when it exists
    /// but is not, `NotFound` when no method carries the identity.
    pub fn find_active(&self, id: PaymentMethodId) -> (r: MethodLookup<'_>)
        ensures
            match r {
                MethodLookup::Active(m) => find_method_spec(self@, id) == Some(*m)
                    && m.is_active,
                MethodLookup::Inactive => find_method_spec(self@, id) matches Some(m)
                    && !m.is_active,
                MethodLookup::NotFound => find_method_spec(self@, id) is None,
            },
    {
        let n = self.methods.len();
        assert(self@.skip(0) =~= self@);
        for k in 0..n
            invariant
                n == self@.len(),
                find_method_spec(self@, id) == find_method_spec(self@.skip(k as int), id),
        {
            let m = &self.methods[k];
            assert(self@.skip(k as int)[0] == self@[k as int]);
            if m.id == id {
                if m.is_active {
                    return MethodLookup::Active(m);
                } else {
                    return MethodLookup::Inactive;
                }
            }
            assert(self@.skip(k as int).drop_first() =~= self@.skip(k as int + 1));
        }
        assert(self@.skip(n as int) =~= Seq::<PaymentMethod>::empty());
        MethodLookup::NotFound
    }
}

} // verus!

use vstd::prelude::*;

verus! {

/// A catalog entry. Identity is by `id`; the other fields are descriptive.
#[derive(Clone, Debug)]
pub struct Product {
    pub id: u64,
    pub name: String,
    pub price_cents: u64,
}

impl Product {
    pub fn new(id: u64, name: String, price_cents: u64) -> (r: Product)
        ensures
            r.id == id,
            r.name == name,
            r.price_cents == price_cents,
    {
        Product { id, name, price_cents }
    }

    /// A copy of this product, field for field.
    pub fn duplicate(&self) -> (r: Product)
        ensures
            r == *self,
    {
        Product { id: self.id, name: self.name.clone(), price_cents: self.price_cents }
    }
}

impl PartialEq for Product {
    fn eq(&self, o: &Product) -> (r: bool) {
        self.id == o.id && self.name == o.name && self.price_cents == o.price_cents
    }
}

impl vstd::std_specs::cmp::PartialEqSpecImpl for Product {
    open spec fn obeys_eq_spec() -> bool {
        true
    }

    open spec fn eq_spec(&self, o: &Product) -> bool {
        self.id == o.id && self.name@ == o.name@ && self.price_cents == o.price_cents
    }
}

} // verus!

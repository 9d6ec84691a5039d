use vstd::prelude::*;

use crate::product::Product;
use crate::store::{find_first, ProductStore};

verus! {

/// What a lookup by id yields. `NotFound` is an ordinary outcome, not a
/// failure.
#[derive(Debug)]
pub enum ProductLookup {
    Found(Product),
    NotFound,
}

/// The outcome of looking `id` up in the products `s`.
pub open spec fn lookup_outcome(s: Seq<Product>, id: u64) -> ProductLookup {
    match find_first(s, id) {
        Some(p) => ProductLookup::Found(p),
        None => ProductLookup::NotFound,
    }
}

/// Whether some product of `s` has the id `id`.
pub open spec fn holds_id(s: Seq<Product>, id: u64) -> bool {
    exists|i: int| 0 <= i < s.len() && #[trigger] s[i].id == id
}

/// The product with id `id`, the first one from the front if several share
/// it, or `NotFound` when none has it.
pub fn get_product(store: &ProductStore, id: u64) -> (r: ProductLookup)
    ensures
        r == lookup_outcome(store@, id),
        r is NotFound <==> !holds_id(store@, id),
{
    proof {
        lemma_absent_iff_not_found(store@, id);
    }
    match store.get(id) {
        Some(p) => ProductLookup::Found(p),
        None => ProductLookup::NotFound,
    }
}

/// Every product of the store, in insertion order; empty for an empty store.
pub fn get_products(store: &ProductStore) -> (r: Vec<Product>)
    ensures
        r@ == store@,
        r@.len() == store@.len(),
{
    store.list()
}

/// A lookup finds nothing exactly when no product carries the id.
pub proof fn lemma_absent_iff_not_found(s: Seq<Product>, id: u64)
    ensures
        find_first(s, id) is None <==> !holds_id(s, id),
    decreases s.len(),
{
    if s.len() > 0 && s[0].id != id {
        lemma_absent_iff_not_found(s.drop_first(), id);
        if holds_id(s, id) {
            let i = choose|i: int| 0 <= i < s.len() && #[trigger] s[i].id == id;
            assert(s.drop_first()[i - 1].id == id);
        }
        if holds_id(s.drop_first(), id) {
            let i = choose|i: int| 0 <= i < s.drop_first().len() && #[trigger] s.drop_first()[i].id == id;
            assert(s[i + 1].id == id);
        }
    } else if s.len() > 0 {
        assert(s[0].id == id);
    }
}

/// When exactly one product of the store carries `id`, looking `id` up yields
/// that very product.
pub proof fn lemma_unique_id_is_found(store: &ProductStore, id: u64, i: int)
    requires
        0 <= i < store@.len(),
        store@[i].id == id,
        forall|j: int| 0 <= j < store@.len() && j != i ==> #[trigger] store@[j].id != id,
    ensures
        lookup_outcome(store@, id) == ProductLookup::Found(store@[i]),
{
    lemma_first_of_unique(store@, id, i);
}

proof fn lemma_first_of_unique(s: Seq<Product>, id: u64, i: int)
    requires
        0 <= i < s.len(),
        s[i].id == id,
        forall|j: int| 0 <= j < s.len() && j != i ==> #[trigger] s[j].id != id,
    ensures
        find_first(s, id) == Some(s[i]),
    decreases s.len(),
{
    if i > 0 {
        let t = s.drop_first();
        assert forall|j: int| 0 <= j < t.len() && j != i - 1 implies #[trigger] t[j].id != id by {
            assert(t[j] == s[j + 1]);
        }
        lemma_first_of_unique(t, id, i - 1);
    }
}

/// When no product of the store carries `id`, looking `id` up yields
/// `NotFound`.
pub proof fn lemma_absent_id_is_not_found(store: &ProductStore, id: u64)
    requires
        forall|j: int| 0 <= j < store@.len() ==> #[trigger] store@[j].id != id,
    ensures
        lookup_outcome(store@, id) == ProductLookup::NotFound,
{
    lemma_absent_iff_not_found(store@, id);
}

/// A lookup and a listing of the same store agree, as in a single-threaded
/// run: a found product is the first product of the listing that carries the
/// id, and `NotFound` comes only when no product of the listing carries it.
pub proof fn lemma_lookup_agrees_with_listing(store: &ProductStore, id: u64)
    ensures
        match lookup_outcome(store@, id) {
            ProductLookup::Found(p) => exists|i: int|
                0 <= i < store@.len() && #[trigger] store@[i] == p && p.id == id && (forall|j: int|
                    0 <= j < i ==> #[trigger] store@[j].id != id),
            ProductLookup::NotFound => forall|j: int|
                0 <= j < store@.len() ==> #[trigger] store@[j].id != id,
        },
{
    lemma_first_is_earliest(store@, id);
    lemma_absent_iff_not_found(store@, id);
}

proof fn lemma_first_is_earliest(s: Seq<Product>, id: u64)
    ensures
        find_first(s, id) is Some ==> exists|i: int|
            0 <= i < s.len() && #[trigger] s[i] == find_first(s, id)->0 && s[i].id == id
                && (forall|j: int| 0 <= j < i ==> #[trigger] s[j].id != id),
    decreases s.len(),
{
    if s.len() > 0 {
        if s[0].id == id {
            assert(s[0] == find_first(s, id)->0);
        } else {
            let t = s.drop_first();
            lemma_first_is_earliest(t, id);
            if find_first(t, id) is Some {
                let k = choose|k: int|
                    0 <= k < t.len() && #[trigger] t[k] == find_first(t, id)->0 && t[k].id == id
                        && (forall|j: int| 0 <= j < k ==> #[trigger] t[j].id != id);
                assert(s[k + 1] == t[k]);
                assert forall|j: int| 0 <= j < k + 1 implies #[trigger] s[j].id != id by {
                    if j > 0 {
                        assert(s[j] == t[j - 1]);
                    }
                }
            }
        }
    }
}

} // verus!

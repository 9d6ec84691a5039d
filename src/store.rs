use vstd::prelude::*;
use vstd::rwlock::RwLock;

use crate::product::Product;

verus! {

/// The first product of `s`, from the front, whose id is `id`; `None` when no
/// product of `s` has that id.
pub open spec fn find_first(s: Seq<Product>, id: u64) -> Option<Product>
    decreases s.len(),
{
    if s.len() == 0 {
        None
    } else if s[0].id == id {
        Some(s[0])
    } else {
        find_first(s.drop_first(), id)
    }
}

/// The in-memory product collection, shared by reference among concurrent
/// callers. Reads go through a read-write lock whose invariant pins the
/// protected vector to the contents fixed at construction; the store offers
/// no way to change them, so every read sees the same sequence.
pub struct ProductStore {
    lock: RwLock<Vec<Product>, spec_fn(Vec<Product>) -> bool>,
    contents: Ghost<Seq<Product>>,
}

impl View for ProductStore {
    type V = Seq<Product>;

    /// The products held, in insertion order.
    closed spec fn view(&self) -> Seq<Product> {
        self.contents@
    }
}

impl ProductStore {
    #[verifier::type_invariant]
    spec fn wf(&self) -> bool {
        forall|v: Vec<Product>| #[trigger] self.lock.inv(v) ==> v@ == self.contents@
    }

    /// A store holding `products`, in the given order.
    pub fn new(products: Vec<Product>) -> (r: ProductStore)
        ensures
            r@ == products@,
    {
        let ghost contents = products@;
        let ghost pred = |v: Vec<Product>| v@ == contents;
        let lock = RwLock::new(products, Ghost(pred));
        ProductStore { lock, contents: Ghost(contents) }
    }

    /// Number of products held.
    pub fn len(&self) -> (r: usize)
        ensures
            r == self@.len(),
    {
        proof {
            use_type_invariant(self);
        }
        let handle = self.lock.acquire_read();
        let n = handle.borrow().len();
        handle.release_read();
        n
    }

    /// A copy of the first product whose id is `id`, or `None`.
    pub fn get(&self, id: u64) -> (r: Option<Product>)
        ensures
            r == find_first(self@, id),
    {
        proof {
            use_type_invariant(self);
        }
        let handle = self.lock.acquire_read();
        let products = handle.borrow();
        let n = products.len();
        let mut i: usize = 0;
        assert(self@.subrange(0, n as int) =~= self@);
        while i < n && products[i].id != id
            invariant
                i <= n,
                n == products@.len(),
                products@ == self@,
                find_first(self@, id) == find_first(self@.subrange(i as int, n as int), id),
            decreases n - i,
        {
            assert(self@.subrange(i as int, n as int).drop_first() =~= self@.subrange(
                i + 1,
                n as int,
            ));
            i += 1;
        }
        let r = if i < n {
            assert(self@.subrange(i as int, n as int)[0] == self@[i as int]);
            Some(products[i].duplicate())
        } else {
            None
        };
        handle.release_read();
        r
    }

    /// A copy of every product, in insertion order.
    pub fn list(&self) -> (r: Vec<Product>)
        ensures
            r@ == self@,
    {
        proof {
            use_type_invariant(self);
        }
        let handle = self.lock.acquire_read();
        let products = handle.borrow();
        let n = products.len();
        let mut out: Vec<Product> = Vec::with_capacity(n);
        let mut i: usize = 0;
        while i < n
            invariant
                i <= n,
                n == products@.len(),
                products@ == self@,
                out@ == self@.subrange(0, i as int),
            decreases n - i,
        {
            out.push(products[i].duplicate());
            i += 1;
            assert(out@ =~= self@.subrange(0, i as int));
        }
        handle.release_read();
        assert(out@ =~= self@);
        out
    }
}

} // verus!

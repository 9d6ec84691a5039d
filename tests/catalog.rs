use std::sync::Arc;

use product_service::catalog::{get_product, get_products, ProductLookup};
use product_service::product::Product;
use product_service::store::ProductStore;

fn product(id: u64, name: &str) -> Product {
    Product::new(id, name.to_string(), 100 * id)
}

fn two_products() -> ProductStore {
    ProductStore::new(vec![product(1, "A"), product(2, "B")])
}

#[test]
fn lookup_list_scenario() {
    let store = two_products();
    match get_product(&store, 1) {
        ProductLookup::Found(p) => {
            assert_eq!(p.id, 1);
            assert_eq!(p.name, "A");
        }
        ProductLookup::NotFound => panic!("product 1 should be found"),
    }
    assert!(matches!(get_product(&store, 3), ProductLookup::NotFound));
    let all = get_products(&store);
    assert_eq!(all.len(), 2);
    assert_eq!(all[0].id, 1);
    assert_eq!(all[0].name, "A");
    assert_eq!(all[1].id, 2);
    assert_eq!(all[1].name, "B");
}

#[test]
fn unique_id_yields_that_product() {
    let store = ProductStore::new(vec![product(7, "x"), product(3, "y"), product(9, "z")]);
    for (id, name) in [(7u64, "x"), (3, "y"), (9, "z")] {
        match get_product(&store, id) {
            ProductLookup::Found(p) => {
                assert_eq!(p, product(id, name));
            }
            ProductLookup::NotFound => panic!("id {} should be found", id),
        }
    }
}

#[test]
fn absent_id_is_not_found() {
    let store = two_products();
    assert!(matches!(get_product(&store, 0), ProductLookup::NotFound));
    assert!(matches!(get_product(&store, u64::MAX), ProductLookup::NotFound));
}

#[test]
fn empty_store_lists_nothing_and_finds_nothing() {
    let store = ProductStore::new(Vec::new());
    assert_eq!(store.len(), 0);
    assert!(get_products(&store).is_empty());
    assert!(matches!(get_product(&store, 1), ProductLookup::NotFound));
}

#[test]
fn listing_keeps_insertion_order() {
    let items = vec![product(5, "e"), product(1, "a"), product(3, "c"), product(2, "b")];
    let store = ProductStore::new(items.clone());
    let all = get_products(&store);
    assert_eq!(all, items);
    assert_eq!(store.len(), 4);
}

#[test]
fn duplicate_id_yields_first_match() {
    let store = ProductStore::new(vec![product(1, "first"), product(2, "B"), product(1, "second")]);
    match get_product(&store, 1) {
        ProductLookup::Found(p) => assert_eq!(p.name, "first"),
        ProductLookup::NotFound => panic!("id 1 should be found"),
    }
}

#[test]
fn store_get_and_list_directly() {
    let store = two_products();
    assert_eq!(store.get(2), Some(product(2, "B")));
    assert_eq!(store.get(4), None);
    assert_eq!(store.list(), vec![product(1, "A"), product(2, "B")]);
}

#[test]
fn interleaved_reads_through_shared_handles_agree() {
    let store = Arc::new(ProductStore::new(vec![product(1, "A"), product(2, "B"), product(3, "C")]));
    let expected = get_products(&store);
    let readers: Vec<Arc<ProductStore>> = (0..4).map(|_| Arc::clone(&store)).collect();
    for k in 0..50u64 {
        let s = &readers[(k % 4) as usize];
        let id = k % 5;
        let found = match get_product(s, id) {
            ProductLookup::Found(p) => Some(p),
            ProductLookup::NotFound => None,
        };
        let want = expected.iter().find(|p| p.id == id).cloned();
        assert_eq!(found, want);
        assert_eq!(get_products(s), expected);
    }
}

#[test]
fn duplicate_copies_every_field() {
    let p = Product::new(4, "widget".to_string(), 1299);
    let q = p.duplicate();
    assert_eq!(q.id, 4);
    assert_eq!(q.name, "widget");
    assert_eq!(q.price_cents, 1299);
}

use wsrelay::router::{ContentTable, Router};
use wsrelay::shared::SharedStore;

#[test]
fn shared_store_starts_at_version_zero() {
    let store = SharedStore::new();
    let (v, p) = store.snapshot();
    assert_eq!(v, 0);
    assert_eq!(p, "");
}

#[test]
fn serve_writes_through_the_lock() {
    let mut t = ContentTable::new();
    t.insert("/go".to_string(), "GO".to_string());
    let router = Router::new(t, "page".to_string());
    let store = SharedStore::new();

    let body = router.serve(&store, "/go");
    assert_eq!(body, "page");
    let (v, p) = store.snapshot();
    assert_eq!(v, 1);
    assert_eq!(p, "GO");

    let body2 = router.serve(&store, "/none");
    assert_eq!(body2, "page");
    let (v2, _) = store.snapshot();
    assert_eq!(v2, 1);
}

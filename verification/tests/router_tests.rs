use wsrelay::router::{ContentTable, Router};
use wsrelay::session::{Action, Session};
use wsrelay::store::StoreState;

fn sample_router() -> Router {
    let mut t = ContentTable::new();
    t.insert("/a".to_string(), "X".to_string());
    t.insert("/b".to_string(), "Y".to_string());
    Router::new(t, "<html>main</html>".to_string())
}

#[test]
fn route_is_exact_match() {
    let router = sample_router();
    assert_eq!(router.table.route("/a"), Some(&"X".to_string()));
    assert_eq!(router.table.route("/b"), Some(&"Y".to_string()));
    assert_eq!(router.table.route("/aa"), None);
    assert_eq!(router.table.route("a"), None);
    assert_eq!(router.table.route(""), None);
}

#[test]
fn matched_request_writes_store_and_session_receives_it() {
    let router = sample_router();
    let mut store = StoreState::new();
    let mut session = Session::new(store.read().0);
    let _ = session.on_open();

    let body = router.handle_request(&mut store, "/a");
    assert_eq!(body, "<html>main</html>");
    let (v, p) = store.read();
    assert_eq!(v, 1);
    assert_eq!(p, "X");

    let acts = session.on_poll(v, p);
    assert_eq!(acts[0], Action::Send("X".to_string()));
}

#[test]
fn back_to_back_requests_yield_one_observed_change() {
    let router = sample_router();
    let mut store = StoreState::new();
    let mut session = Session::new(store.read().0);
    let _ = session.on_open();

    let _ = router.handle_request(&mut store, "/a");
    let _ = router.handle_request(&mut store, "/b");
    let (v, p) = store.read();
    assert_eq!(v, 2);
    assert_eq!(p, "Y");

    // the session polls once after both requests: exactly one change,
    // from its baseline straight to "Y"
    let acts = session.on_poll(v, p);
    assert_eq!(acts.len(), 2);
    assert_eq!(acts[0], Action::Send("Y".to_string()));
    assert_eq!(session.last_seen_version, 2);

    // with no further writes, the next poll pushes nothing
    let (v2, p2) = store.read();
    let acts2 = session.on_poll(v2, p2);
    assert_eq!(acts2.len(), 1);
}

#[test]
fn unmapped_path_returns_main_page_and_leaves_store_untouched() {
    let router = sample_router();
    let mut store = StoreState::new();
    let body = router.handle_request(&mut store, "/unknown");
    assert_eq!(body, "<html>main</html>");
    let (v, p) = store.read();
    assert_eq!(v, 0);
    assert_eq!(p, "");
}

#[test]
fn empty_table_matches_nothing() {
    let t = ContentTable::new();
    let router = Router::new(t, "page".to_string());
    let mut store = StoreState::new();
    let body = router.handle_request(&mut store, "/a");
    assert_eq!(body, "page");
    assert_eq!(store.read().0, 0);
}

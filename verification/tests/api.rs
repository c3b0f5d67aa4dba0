use postboard::api::create_post;
use postboard::api::delete_post;
use postboard::api::edit_post;
use postboard::api::get_post;
use postboard::api::list_posts;
use postboard::error::AppError;
use postboard::paginator::Paginator;
use postboard::store::Store;

const TOKEN: &str = "s3cret";

fn header() -> Option<&'static str> {
    Some("Bearer s3cret")
}

#[test]
fn create_then_fetch_matches() {
    let mut store = Store::new();
    let id = create_post(&mut store, header(), TOKEN, "hello".into(), "world".into()).unwrap();
    assert!(id > 0);
    assert_eq!(id, 1);
    let post = get_post(&store, id).unwrap();
    assert_eq!(post.id, id);
    assert_eq!(post.title, "hello");
    assert_eq!(post.body, "world");
    assert_eq!(post.created_at, post.modified_at);
}

#[test]
fn blank_title_is_rejected_and_nothing_inserted() {
    let mut store = Store::new();
    let r = create_post(&mut store, header(), TOKEN, "   ".into(), "body".into());
    assert!(matches!(r, Err(AppError::Validation)));
    assert_eq!(store.posts.len(), 0);
    let r = create_post(&mut store, header(), TOKEN, "".into(), "body".into());
    assert!(matches!(r, Err(AppError::Validation)));
    let r = create_post(&mut store, header(), TOKEN, "title".into(), " \t ".into());
    assert!(matches!(r, Err(AppError::Validation)));
    assert_eq!(store.posts.len(), 0);
}

#[test]
fn edit_updates_fields_and_stamps() {
    let mut store = Store::new();
    let id = create_post(&mut store, header(), TOKEN, "before".into(), "old body".into()).unwrap();
    let created = get_post(&store, id).unwrap();
    let status = edit_post(&mut store, header(), TOKEN, id, "after".into(), "new body".into())
        .unwrap();
    assert!(status);
    let post = get_post(&store, id).unwrap();
    assert_eq!(post.title, "after");
    assert_eq!(post.body, "new body");
    assert!(post.modified_at > created.modified_at);
    assert_eq!(post.created_at, created.created_at);
}

#[test]
fn edit_missing_id_reports_false_and_inserts_nothing() {
    let mut store = Store::new();
    create_post(&mut store, header(), TOKEN, "one".into(), "body".into()).unwrap();
    let status = edit_post(&mut store, header(), TOKEN, 99, "t".into(), "b".into()).unwrap();
    assert!(!status);
    assert_eq!(store.posts.len(), 1);
    let post = get_post(&store, 1).unwrap();
    assert_eq!(post.title, "one");
}

#[test]
fn edit_blank_body_is_rejected_unchanged() {
    let mut store = Store::new();
    let id = create_post(&mut store, header(), TOKEN, "one".into(), "body".into()).unwrap();
    let r = edit_post(&mut store, header(), TOKEN, id, "new".into(), "  ".into());
    assert!(matches!(r, Err(AppError::Validation)));
    let post = get_post(&store, id).unwrap();
    assert_eq!(post.title, "one");
    assert_eq!(post.body, "body");
}

#[test]
fn delete_then_fetch_fails() {
    let mut store = Store::new();
    let id = create_post(&mut store, header(), TOKEN, "gone".into(), "soon".into()).unwrap();
    let status = delete_post(&mut store, header(), TOKEN, id).unwrap();
    assert!(status);
    let r = get_post(&store, id);
    assert!(matches!(r, Err(AppError::NotFound)));
    let status = delete_post(&mut store, header(), TOKEN, id).unwrap();
    assert!(!status);
}

#[test]
fn delete_missing_id_reports_false() {
    let mut store = Store::new();
    let status = delete_post(&mut store, header(), TOKEN, 7).unwrap();
    assert!(!status);
}

#[test]
fn listing_pages_over_25_posts() {
    let mut store = Store::new();
    for k in 1..=25 {
        let title = format!("title {k}");
        let body = format!("body {k}");
        create_post(&mut store, header(), TOKEN, title, body).unwrap();
    }
    let page1 = list_posts(&store, Paginator { page_size: 10, page: 1 }).unwrap();
    let page2 = list_posts(&store, Paginator { page_size: 10, page: 2 }).unwrap();
    let page3 = list_posts(&store, Paginator { page_size: 10, page: 3 }).unwrap();
    let page4 = list_posts(&store, Paginator { page_size: 10, page: 4 }).unwrap();
    assert_eq!(page1.len(), 10);
    assert_eq!(page2.len(), 10);
    assert_eq!(page3.len(), 5);
    assert_eq!(page4.len(), 0);

    // Newest first: creation stamps fall strictly within and across pages.
    let all: Vec<_> = page1.iter().chain(page2.iter()).chain(page3.iter()).collect();
    for w in all.windows(2) {
        assert!(w[0].created_at > w[1].created_at);
    }
    // The three pages are disjoint and cover all 25 posts.
    let mut ids: Vec<i32> = all.iter().map(|p| p.id).collect();
    ids.sort();
    ids.dedup();
    assert_eq!(ids.len(), 25);
    // The newest post comes first on page 1.
    assert_eq!(page1[0].title, "title 25");
    assert_eq!(page3[4].title, "title 1");
}

#[test]
fn listing_negative_page_size_is_a_storage_error() {
    let mut store = Store::new();
    create_post(&mut store, header(), TOKEN, "t".into(), "b".into()).unwrap();
    let r = list_posts(&store, Paginator { page_size: -1, page: 1 });
    assert!(matches!(r, Err(AppError::Storage(_))));
}

#[test]
fn listing_empty_store_is_no_error() {
    let store = Store::new();
    let rows = list_posts(&store, Paginator { page_size: 10, page: 1 }).unwrap();
    assert!(rows.is_empty());
}

#[test]
fn mutations_without_token_are_rejected_uniformly() {
    let mut store = Store::new();
    let id = create_post(&mut store, header(), TOKEN, "kept".into(), "safe".into()).unwrap();

    // Missing header; the payload being valid or blank makes no difference.
    let r = create_post(&mut store, None, TOKEN, "valid".into(), "valid".into());
    assert!(matches!(r, Err(AppError::Auth)));
    let r = create_post(&mut store, None, TOKEN, "   ".into(), "".into());
    assert!(matches!(r, Err(AppError::Auth)));

    // Wrong token.
    let r = edit_post(&mut store, Some("Bearer wrong"), TOKEN, id, "x".into(), "y".into());
    assert!(matches!(r, Err(AppError::Auth)));
    let r = delete_post(&mut store, Some("Bearer wrong"), TOKEN, id);
    assert!(matches!(r, Err(AppError::Auth)));

    // Nothing changed.
    assert_eq!(store.posts.len(), 1);
    let post = get_post(&store, id).unwrap();
    assert_eq!(post.title, "kept");
    assert_eq!(post.body, "safe");
}

#[test]
fn reads_need_no_token() {
    let mut store = Store::new();
    let id = create_post(&mut store, header(), TOKEN, "open".into(), "read".into()).unwrap();
    let post = get_post(&store, id).unwrap();
    assert_eq!(post.title, "open");
    let rows = list_posts(&store, Paginator { page_size: 10, page: 1 }).unwrap();
    assert_eq!(rows.len(), 1);
}

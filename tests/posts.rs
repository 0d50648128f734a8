use alexandria::posts::{get_posts, CreateResource, GetParams, PostSelection, Resource, UploadProgress, LATEST_PAGE_SIZE};
use alexandria::rating::{RatedPost, Rating};
use alexandria::user::User;

fn resource(id: i64) -> Resource {
    CreateResource {
        title: format!("title {}", id),
        description: "about".to_string(),
        keywords: vec!["rust".to_string()],
    }
    .into_resource("a@b.c".to_string(), "alice".to_string(), id, 1234)
}

#[test]
fn new_resource_is_empty_and_unrated() {
    let r = resource(3);
    assert_eq!(r.id, 3);
    assert_eq!(r.title, "title 3");
    assert_eq!(r.description, "about");
    assert_eq!(r.keywords, vec!["rust".to_string()]);
    assert_eq!(r.author, "a@b.c");
    assert_eq!(r.author_name, "alice");
    assert!(r.files.is_empty());
    assert_eq!(r.rating, 0);
    assert_eq!(r.upload_time, 1234);
}

#[test]
fn send_resource_carries_rate() {
    let s = resource(4).into_send_resource(Rating::Down);
    assert_eq!(s.id, 4);
    assert_eq!(s.title, "title 4");
    assert_eq!(s.rate, Rating::Down);
    assert_eq!(s.upload_time, 1234);
}

#[test]
fn listing_shows_users_own_votes() {
    let mut u = User::new("a@b.c".to_string(), "alice".to_string(), "h".to_string(), 0);
    u.add_rated(RatedPost { post: 2, rating: Rating::Up });
    u.add_rated(RatedPost { post: 3, rating: Rating::Down });
    let shown = get_posts(vec![resource(1), resource(2), resource(3)], &u);
    assert_eq!(shown.len(), 3);
    assert_eq!(shown.iter().map(|s| s.id).collect::<Vec<_>>(), vec![1, 2, 3]);
    assert_eq!(shown[0].rate, Rating::Neutral);
    assert_eq!(shown[1].rate, Rating::Up);
    assert_eq!(shown[2].rate, Rating::Down);
    assert!(get_posts(vec![], &u).is_empty());
}

#[test]
fn trailing_zero_selects_latest() {
    let p = GetParams { posts: vec![5, 0], keywords: vec![] };
    assert!(matches!(p.selection(), PostSelection::Latest));
    assert_eq!(LATEST_PAGE_SIZE, 10);
}

#[test]
fn listed_selection_drops_last_identifier() {
    let p = GetParams { posts: vec![5, 6, 7], keywords: vec![] };
    match p.selection() {
        PostSelection::Listed(ids) => assert_eq!(ids, vec![5, 6]),
        PostSelection::Latest => panic!("expected a list"),
    }
    let empty = GetParams { posts: vec![], keywords: vec![] };
    match empty.selection() {
        PostSelection::Listed(ids) => assert!(ids.is_empty()),
        PostSelection::Latest => panic!("expected a list"),
    }
}

#[test]
fn upload_names_are_sanitised() {
    assert_eq!(UploadProgress::target_name(Some("a/b:c.txt")), Some("abc.txt".to_string()));
    assert_eq!(UploadProgress::target_name(Some("plain.pdf")), Some("plain.pdf".to_string()));
    assert_eq!(UploadProgress::target_name(None), None);
}

#[test]
fn upload_success() {
    let mut post = resource(8);
    let mut progress = UploadProgress::new();
    progress.stored(&mut post, "one.txt".to_string(), 12);
    progress.stored(&mut post, "two.txt".to_string(), 0);
    assert_eq!(post.files.len(), 2);
    assert_eq!(post.files[0].filename, "one.txt");
    assert_eq!(post.files[0].size, 12);
    assert_eq!(post.files[1].size, 0);
    let r = progress.finish();
    assert!(r.success);
    assert_eq!(r.message, "Files uploaded successfully");
    assert_eq!(r.file_paths, vec!["one.txt".to_string(), "two.txt".to_string()]);
}

#[test]
fn upload_with_failure() {
    let mut post = resource(8);
    let mut progress = UploadProgress::new();
    progress.stored(&mut post, "one.txt".to_string(), 12);
    progress.failed();
    let r = progress.finish();
    assert!(!r.success);
    assert_eq!(r.message, "Some files failed to upload");
    assert_eq!(r.file_paths.len(), 1);
}

#[test]
fn upload_of_nothing() {
    let r = UploadProgress::new().finish();
    assert!(!r.success);
    assert_eq!(r.message, "No files were uploaded");
    assert!(r.file_paths.is_empty());
}

use backend::models::post::{Post, PostStatus, PostSummary, UpdatePost};
use uuid::Uuid;

#[test]
fn test_post_creation() {
    let author_id = Uuid::new_v4();
    let post = Post::new(author_id, "Test Post".to_string(), "This is test content".to_string());

    assert_eq!(post.title, "Test Post");
    assert_eq!(post.slug, "test-post");
    assert_eq!(post.status, PostStatus::Draft);
    assert!(post.is_draft());
    assert!(!post.is_published());
}

#[test]
fn test_publish_post() {
    let author_id = Uuid::new_v4();
    let mut post = Post::new(author_id, "Test Post".to_string(), "Content".to_string());

    post.publish();
    assert!(post.is_published());
    assert!(post.published_at.is_some());
}

#[test]
fn publishing_twice_keeps_the_first_time() {
    let mut post = Post::new_at(Uuid::new_v4(), "T".to_string(), "C".to_string(), 1);
    post.publish_at(5);
    post.publish_at(9);
    assert_eq!(post.published_at, Some(5));
    assert_eq!(post.updated_at, 5);
    post.archive_at(12);
    assert_eq!(post.status, PostStatus::Archived);
    assert_eq!(post.updated_at, 12);
}

#[test]
fn test_unpublish_post() {
    let author_id = Uuid::new_v4();
    let mut post = Post::new(author_id, "Test Post".to_string(), "Content".to_string());

    post.publish();
    post.unpublish();
    assert!(post.is_draft());
    assert!(post.published_at.is_none());
}

#[test]
fn test_increment_views() {
    let author_id = Uuid::new_v4();
    let mut post = Post::new(author_id, "Test Post".to_string(), "Content".to_string());

    assert_eq!(post.view_count, 0);
    post.increment_views();
    assert_eq!(post.view_count, 1);
}

#[test]
fn test_like_count() {
    let author_id = Uuid::new_v4();
    let mut post = Post::new(author_id, "Test Post".to_string(), "Content".to_string());

    post.increment_likes();
    assert_eq!(post.like_count, 1);
    post.decrement_likes();
    assert_eq!(post.like_count, 0);
    post.decrement_likes();
    assert_eq!(post.like_count, 0);
}

#[test]
fn test_ensure_excerpt() {
    let author_id = Uuid::new_v4();
    let mut post = Post::new(
        author_id,
        "Test Post".to_string(),
        "This is a very long content that should be truncated for the excerpt".to_string(),
    );

    post.ensure_excerpt(20);
    assert!(post.excerpt.is_some());
    assert!(post.excerpt.unwrap().len() <= 23);
}

#[test]
fn excerpt_values() {
    let mut post = Post::new_at(Uuid::new_v4(), "T".to_string(), "Hello, world".to_string(), 0);
    post.ensure_excerpt(5);
    assert_eq!(post.excerpt, Some("Hello...".to_string()));
    post.ensure_excerpt(100);
    assert_eq!(post.excerpt, Some("Hello...".to_string()));

    let mut short = Post::new_at(Uuid::new_v4(), "T".to_string(), "Hi".to_string(), 0);
    short.ensure_excerpt(2);
    assert_eq!(short.excerpt, Some("Hi".to_string()));
}

#[test]
fn test_update_post() {
    let author_id = Uuid::new_v4();
    let mut post = Post::new(author_id, "Old Title".to_string(), "Old Content".to_string());

    let update = UpdatePost {
        title: Some("New Title".to_string()),
        content: Some("New Content".to_string()),
        excerpt: None,
        featured_image: None,
        tags: Some(vec!["rust".to_string(), "backend".to_string()]),
    };

    assert!(update.has_changes());
    update.apply_to(&mut post);

    assert_eq!(post.title, "New Title");
    assert_eq!(post.content, "New Content");
    assert_eq!(post.tags, vec!["rust", "backend"]);
}

#[test]
fn update_post_renews_the_slug() {
    let mut post = Post::new_at(Uuid::new_v4(), "Old Title".to_string(), "C".to_string(), 0);
    assert_eq!(post.slug, "old-title");
    let update = UpdatePost {
        title: Some("Brand New Title!".to_string()),
        content: None,
        excerpt: Some("short".to_string()),
        featured_image: None,
        tags: None,
    };
    update.apply_to_at(&mut post, 3);
    assert_eq!(post.slug, "brand-new-title");
    assert_eq!(post.content, "C");
    assert_eq!(post.excerpt, Some("short".to_string()));
    assert_eq!(post.updated_at, 3);
    let nothing = UpdatePost { title: None, content: None, excerpt: None, featured_image: None, tags: None };
    assert!(!nothing.has_changes());
}

#[test]
fn post_summary_keeps_the_fields() {
    let mut post = Post::new_at(Uuid::new_v4(), "Summary Title".to_string(), "Body".to_string(), 4);
    post.set_tags_at(vec!["a".to_string()], 6);
    let id = post.id;
    let summary = PostSummary::from(post);
    assert_eq!(summary.id, id);
    assert_eq!(summary.slug, "summary-title");
    assert_eq!(summary.tags, vec!["a".to_string()]);
    assert_eq!(summary.created_at, 4);
}

#[test]
fn status_names() {
    assert_eq!(PostStatus::Draft.to_string(), "draft");
    assert_eq!(PostStatus::Published.to_string(), "published");
    assert_eq!(PostStatus::Archived.to_string(), "archived");
}

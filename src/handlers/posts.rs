//! Requests on posts.

use crate::models::dto::PaginationParams;
use crate::models::post::PostStatus;
use uuid::Uuid;
use vstd::prelude::*;

verus! {

/// The query of a post listing.
#[derive(Debug)]
pub struct ListPostsQuery {
    pub pagination: PaginationParams,
    pub status: Option<PostStatus>,
    pub author_id: Option<Uuid>,
}

/// The body of a post creation.
#[derive(Debug)]
pub struct CreatePostRequest {
    pub title: String,
    pub slug: Option<String>,
    pub content: String,
    pub excerpt: Option<String>,
    pub status: Option<PostStatus>,
    pub tags: Option<Vec<String>>,
    pub featured_image_url: Option<String>,
}

/// The body of a post update; an absent field stays as it is.
#[derive(Debug)]
pub struct UpdatePostRequest {
    pub title: Option<String>,
    pub slug: Option<String>,
    pub content: Option<String>,
    pub excerpt: Option<String>,
    pub status: Option<PostStatus>,
    pub tags: Option<Vec<String>>,
    pub featured_image_url: Option<String>,
}

/// The query of a post search.
#[derive(Debug)]
pub struct SearchPostsQuery {
    pub q: String,
    pub tag: Option<String>,
    pub limit: Option<u32>,
}

} // verus!

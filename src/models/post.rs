//! Blog posts and the changes made to them.

use crate::clock::now_millis;
use crate::ids::new_uuid;
use crate::slug::{slug_of, slugify};
use crate::text::utf8_len;
use uuid::Uuid;
use vstd::prelude::*;
use vstd::string::StringExecFns;
use vstd::utf8::{decode_utf8, encode_utf8, is_char_boundary};

verus! {

/// Where a post stands in its life.
#[derive(Debug, Clone, Copy, PartialEq, Eq, Structural)]
pub enum PostStatus {
    Draft,
    Published,
    Archived,
}

/// The name a status prints as.
pub open spec fn status_name(s: PostStatus) -> Seq<char> {
    match s {
        PostStatus::Draft => "draft"@,
        PostStatus::Published => "published"@,
        PostStatus::Archived => "archived"@,
    }
}

impl PostStatus {
    /// The status's name: `draft`, `published` or `archived`.
    pub fn to_string(&self) -> (r: String)
        ensures
            r@ == status_name(*self),
    {
        match self {
            PostStatus::Draft => String::from_str("draft"),
            PostStatus::Published => String::from_str("published"),
            PostStatus::Archived => String::from_str("archived"),
        }
    }
}

/// A blog post. Times are in milliseconds since the Unix epoch.
#[derive(Debug)]
pub struct Post {
    pub id: Uuid,
    pub author_id: Uuid,
    pub title: String,
    /// The post's address, made from its title.
    pub slug: String,
    pub content: String,
    pub excerpt: Option<String>,
    pub featured_image: Option<String>,
    pub status: PostStatus,
    pub view_count: i32,
    pub like_count: i32,
    pub comment_count: i32,
    pub tags: Vec<String>,
    pub created_at: i64,
    pub updated_at: i64,
    /// When the post was last published; `None` while it is a draft.
    pub published_at: Option<i64>,
}

/// The excerpt made from `content` for at most `max` bytes: the content
/// itself when it fits, and otherwise its first `max` bytes followed by `...`.
pub open spec fn excerpt_of(content: Seq<char>, max: nat) -> Seq<char> {
    if utf8_len(content) > max {
        decode_utf8(encode_utf8(content).subrange(0, max as int)) + "..."@
    } else {
        content
    }
}

/// Whether an excerpt of `content` may be cut after `max` bytes: when the
/// content is longer, byte `max` must start a character.
pub open spec fn cuttable(content: Seq<char>, max: nat) -> bool {
    utf8_len(content) > max ==> is_char_boundary(encode_utf8(content), max as int)
}

fn clone_strings(v: &Vec<String>) -> (r: Vec<String>)
    ensures
        r@ == v@,
{
    let mut r: Vec<String> = Vec::new();
    let mut i: usize = 0;
    while i < v.len()
        invariant
            i <= v@.len(),
            r@ == v@.take(i as int),
        decreases v@.len() - i,
    {
        r.push(v[i].clone());
        i = i + 1;
        assert(r@ =~= v@.take(i as int));
    }
    assert(v@.take(v@.len() as int) =~= v@);
    r
}

impl Post {
    /// A new draft by `author_id`, created at `now`, whose slug is made from its title.
    pub fn new_at(author_id: Uuid, title: String, content: String, now: i64) -> (p: Post)
        ensures
            p.author_id == author_id,
            p.title == title,
            p.slug@ == slug_of(title@),
            p.content == content,
            p.excerpt is None,
            p.featured_image is None,
            p.status == PostStatus::Draft,
            p.view_count == 0,
            p.like_count == 0,
            p.comment_count == 0,
            p.tags@.len() == 0,
            p.created_at == now,
            p.updated_at == now,
            p.published_at is None,
    {
        let slug = slugify(title.as_str());
        Post {
            id: new_uuid(),
            author_id,
            title,
            slug,
            content,
            excerpt: None,
            featured_image: None,
            status: PostStatus::Draft,
            view_count: 0,
            like_count: 0,
            comment_count: 0,
            tags: Vec::new(),
            created_at: now,
            updated_at: now,
            published_at: None,
        }
    }

    /// A new draft by `author_id`, created now, whose slug is made from its title.
    pub fn new(author_id: Uuid, title: String, content: String) -> (p: Post)
        ensures
            p.author_id == author_id,
            p.title == title,
            p.slug@ == slug_of(title@),
            p.content == content,
            p.excerpt is None,
            p.featured_image is None,
            p.status == PostStatus::Draft,
            p.view_count == 0,
            p.like_count == 0,
            p.comment_count == 0,
            p.tags@.len() == 0,
            p.updated_at == p.created_at,
            p.published_at is None,
    {
        Post::new_at(author_id, title, content, now_millis())
    }

    /// Publishes the post at `now`; a published post stays as it is.
    pub fn publish_at(&mut self, now: i64)
        ensures
            old(self).status == PostStatus::Published ==> *final(self) == *old(self),
            old(self).status != PostStatus::Published ==> *final(self) == (Post {
                status: PostStatus::Published,
                published_at: Some(now),
                updated_at: now,
                ..*old(self)
            }),
    {
        if self.status != PostStatus::Published {
            self.status = PostStatus::Published;
            self.published_at = Some(now);
            self.updated_at = now;
        }
    }

    /// Publishes the post now; a published post stays as it is.
    pub fn publish(&mut self)
        ensures
            final(self).status == PostStatus::Published,
            old(self).status == PostStatus::Published ==> *final(self) == *old(self),
            old(self).status != PostStatus::Published ==> final(self).published_at == Some(final(self).updated_at)
                && *final(self) == (Post {
                status: PostStatus::Published,
                published_at: final(self).published_at,
                updated_at: final(self).updated_at,
                ..*old(self)
            }),
    {
        self.publish_at(now_millis());
    }

    /// Turns the post back into a draft at `now`.
    pub fn unpublish_at(&mut self, now: i64)
        ensures
            *final(self) == (Post { status: PostStatus::Draft, published_at: None, updated_at: now, ..*old(self) }),
    {
        self.status = PostStatus::Draft;
        self.published_at = None;
        self.updated_at = now;
    }

    /// Turns the post back into a draft now.
    pub fn unpublish(&mut self)
        ensures
            *final(self) == (Post {
                status: PostStatus::Draft,
                published_at: None,
                updated_at: final(self).updated_at,
                ..*old(self)
            }),
    {
        self.unpublish_at(now_millis());
    }

    /// Archives the post at `now`.
    pub fn archive_at(&mut self, now: i64)
        ensures
            *final(self) == (Post { status: PostStatus::Archived, updated_at: now, ..*old(self) }),
    {
        self.status = PostStatus::Archived;
        self.updated_at = now;
    }

    /// Archives the post now.
    pub fn archive(&mut self)
        ensures
            *final(self) == (Post { status: PostStatus::Archived, updated_at: final(self).updated_at, ..*old(self) }),
    {
        self.archive_at(now_millis());
    }

    /// Whether the post is published.
    pub fn is_published(&self) -> (r: bool)
        ensures
            r == (self.status == PostStatus::Published),
    {
        self.status == PostStatus::Published
    }

    /// Whether the post is a draft.
    pub fn is_draft(&self) -> (r: bool)
        ensures
            r == (self.status == PostStatus::Draft),
    {
        self.status == PostStatus::Draft
    }

    /// Counts one more view.
    pub fn increment_views(&mut self)
        requires
            old(self).view_count < i32::MAX,
        ensures
            *final(self) == (Post { view_count: (old(self).view_count + 1) as i32, ..*old(self) }),
    {
        self.view_count = self.view_count + 1;
    }

    /// Counts one more like.
    pub fn increment_likes(&mut self)
        requires
            old(self).like_count < i32::MAX,
        ensures
            *final(self) == (Post { like_count: (old(self).like_count + 1) as i32, ..*old(self) }),
    {
        self.like_count = self.like_count + 1;
    }

    /// Counts one like fewer; the count never goes below zero.
    pub fn decrement_likes(&mut self)
        ensures
            old(self).like_count > 0 ==> *final(self) == (Post {
                like_count: (old(self).like_count - 1) as i32,
                ..*old(self)
            }),
            old(self).like_count <= 0 ==> *final(self) == *old(self),
    {
        if self.like_count > 0 {
            self.like_count = self.like_count - 1;
        }
    }

    /// Replaces the tags at `now`.
    pub fn set_tags_at(&mut self, tags: Vec<String>, now: i64)
        ensures
            *final(self) == (Post { tags, updated_at: now, ..*old(self) }),
    {
        self.tags = tags;
        self.updated_at = now;
    }

    /// Replaces the tags now.
    pub fn set_tags(&mut self, tags: Vec<String>)
        ensures
            *final(self) == (Post { tags, updated_at: final(self).updated_at, ..*old(self) }),
    {
        self.set_tags_at(tags, now_millis());
    }

    /// Gives the post an excerpt of its content, cut after `max_length`
    /// bytes, unless it already has one.
    pub fn ensure_excerpt(&mut self, max_length: usize)
        requires
            old(self).excerpt is None ==> cuttable(old(self).content@, max_length as nat),
        ensures
            old(self).excerpt is Some ==> *final(self) == *old(self),
            old(self).excerpt is None ==> (final(self).excerpt matches Some(e) && e@ == excerpt_of(
                old(self).content@,
                max_length as nat,
            )),
            old(self).excerpt is None ==> *final(self) == (Post { excerpt: final(self).excerpt, ..*old(self) }),
    {
        if self.excerpt.is_none() {
            let e = if self.content.as_str().len() > max_length {
                let (head, _) = self.content.as_str().split_at(max_length);
                proof {
                    vstd::utf8::encode_utf8_decode_utf8(head@);
                }
                let mut e = String::from_str(head);
                e.append("...");
                e
            } else {
                self.content.clone()
            };
            self.excerpt = Some(e);
        }
    }
}

/// What a listing shows of a post.
#[derive(Debug)]
pub struct PostSummary {
    pub id: Uuid,
    pub author_id: Uuid,
    pub title: String,
    pub slug: String,
    pub excerpt: Option<String>,
    pub featured_image: Option<String>,
    pub status: PostStatus,
    pub view_count: i32,
    pub like_count: i32,
    pub comment_count: i32,
    pub tags: Vec<String>,
    pub created_at: i64,
    pub published_at: Option<i64>,
}

impl From<Post> for PostSummary {
    fn from(post: Post) -> (s: PostSummary) {
        PostSummary {
            id: post.id,
            author_id: post.author_id,
            title: post.title,
            slug: post.slug,
            excerpt: post.excerpt,
            featured_image: post.featured_image,
            status: post.status,
            view_count: post.view_count,
            like_count: post.like_count,
            comment_count: post.comment_count,
            tags: post.tags,
            created_at: post.created_at,
            published_at: post.published_at,
        }
    }
}

impl vstd::std_specs::convert::FromSpecImpl<Post> for PostSummary {
    open spec fn obeys_from_spec() -> bool {
        true
    }

    open spec fn from_spec(post: Post) -> PostSummary {
        PostSummary {
            id: post.id,
            author_id: post.author_id,
            title: post.title,
            slug: post.slug,
            excerpt: post.excerpt,
            featured_image: post.featured_image,
            status: post.status,
            view_count: post.view_count,
            like_count: post.like_count,
            comment_count: post.comment_count,
            tags: post.tags,
            created_at: post.created_at,
            published_at: post.published_at,
        }
    }
}

/// The body of a post creation.
#[derive(Debug)]
pub struct CreatePost {
    pub title: String,
    pub content: String,
    pub excerpt: Option<String>,
    pub featured_image: Option<String>,
    pub tags: Option<Vec<String>>,
}

/// Changes to a post; an absent field stays as it is.
#[derive(Debug)]
pub struct UpdatePost {
    pub title: Option<String>,
    pub content: Option<String>,
    pub excerpt: Option<String>,
    pub featured_image: Option<String>,
    pub tags: Option<Vec<String>>,
}

/// `new` when given, otherwise `current`.
pub open spec fn or_keep<T>(new: Option<T>, current: T) -> T {
    match new {
        Some(v) => v,
        None => current,
    }
}

/// `Some(new)` when given, otherwise `current`.
pub open spec fn or_keep_opt<T>(new: Option<T>, current: Option<T>) -> Option<T> {
    match new {
        Some(v) => Some(v),
        None => current,
    }
}

impl UpdatePost {
    /// Whether the update changes anything.
    pub fn has_changes(&self) -> (r: bool)
        ensures
            r == (self.title is Some || self.content is Some || self.excerpt is Some
                || self.featured_image is Some || self.tags is Some),
    {
        self.title.is_some() || self.content.is_some() || self.excerpt.is_some()
            || self.featured_image.is_some() || self.tags.is_some()
    }

    /// Applies the update to `post` at `now`; a new title brings a new slug.
    pub fn apply_to_at(&self, post: &mut Post, now: i64)
        ensures
            final(post).title == or_keep(self.title, old(post).title),
            final(post).slug@ == (match self.title {
                Some(t) => slug_of(t@),
                None => old(post).slug@,
            }),
            final(post).content == or_keep(self.content, old(post).content),
            final(post).excerpt == or_keep_opt(self.excerpt, old(post).excerpt),
            final(post).featured_image == or_keep_opt(self.featured_image, old(post).featured_image),
            final(post).tags@ == (match self.tags {
                Some(t) => t@,
                None => old(post).tags@,
            }),
            final(post).updated_at == now,
            *final(post) == (Post {
                title: final(post).title,
                slug: final(post).slug,
                content: final(post).content,
                excerpt: final(post).excerpt,
                featured_image: final(post).featured_image,
                tags: final(post).tags,
                updated_at: now,
                ..*old(post)
            }),
    {
        match &self.title {
            Some(t) => {
                post.title = t.clone();
                post.slug = slugify(t.as_str());
            },
            None => {},
        }
        match &self.content {
            Some(c) => {
                post.content = c.clone();
            },
            None => {},
        }
        match &self.excerpt {
            Some(e) => {
                post.excerpt = Some(e.clone());
            },
            None => {},
        }
        match &self.featured_image {
            Some(f) => {
                post.featured_image = Some(f.clone());
            },
            None => {},
        }
        match &self.tags {
            Some(t) => {
                post.tags = clone_strings(t);
            },
            None => {},
        }
        post.updated_at = now;
    }

    /// Applies the update to `post` now; a new title brings a new slug.
    pub fn apply_to(&self, post: &mut Post)
        ensures
            final(post).title == or_keep(self.title, old(post).title),
            final(post).slug@ == (match self.title {
                Some(t) => slug_of(t@),
                None => old(post).slug@,
            }),
            final(post).content == or_keep(self.content, old(post).content),
            final(post).excerpt == or_keep_opt(self.excerpt, old(post).excerpt),
            final(post).featured_image == or_keep_opt(self.featured_image, old(post).featured_image),
            final(post).tags@ == (match self.tags {
                Some(t) => t@,
                None => old(post).tags@,
            }),
            *final(post) == (Post {
                title: final(post).title,
                slug: final(post).slug,
                content: final(post).content,
                excerpt: final(post).excerpt,
                featured_image: final(post).featured_image,
                tags: final(post).tags,
                updated_at: final(post).updated_at,
                ..*old(post)
            }),
    {
        self.apply_to_at(post, now_millis());
    }
}

} // verus!

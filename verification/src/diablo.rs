//! The Diablo forum tracker source: the poster, the kinds and categories of
//! a tracked post, and the normalized shape of one post.

use vstd::prelude::*;

verus! {

use vstd::string::StrSliceExecFns;
use vstd::string::StringExecFns;

/// The author of a tracked post.
pub struct User {
    pub id: u32,
    pub name: String,
    pub avatar_url: String,
}

impl User {
    /// The URL of the author's activity page on the forum.
    pub fn profile_url(&self) -> (r: String)
        ensures
            r@ == "https://us.forums.blizzard.com/en/d4/u/"@ + self.name@ + "/activity"@,
    {
        let mut r: String = "https://us.forums.blizzard.com/en/d4/u/".to_owned();
        r.append(self.name.as_str());
        r.append("/activity");
        r
    }
}

/// Whether a post is an official news post (possibly with a header image)
/// or an ordinary tracked post.
pub enum PostKind {
    News { post_image_url: Option<String> },
    Other,
}

/// The forum category a post was made in.
#[derive(Clone, Copy, PartialEq, Eq, Structural, Debug)]
pub enum PostCategory {
    PcGeneralDiscussion,
    ConsoleDiscussion,
    ConsoleBugReport,
    Other,
}

impl PostCategory {
    /// The category for a raw numeric category id of the forum's feed; ids
    /// not singled out below all map to `Other`.
    pub fn from_category_id(id: u16) -> (r: PostCategory)
        ensures
            r == PostCategory::spec_from_category_id(id),
    {
        match id {
            5 => PostCategory::PcGeneralDiscussion,
            6 => PostCategory::ConsoleDiscussion,
            11 => PostCategory::ConsoleBugReport,
            _ => PostCategory::Other,
        }
    }

    /// The category mapping, as a specification value.
    pub open spec fn spec_from_category_id(id: u16) -> PostCategory {
        if id == 5 {
            PostCategory::PcGeneralDiscussion
        } else if id == 6 {
            PostCategory::ConsoleDiscussion
        } else if id == 11 {
            PostCategory::ConsoleBugReport
        } else {
            PostCategory::Other
        }
    }

    /// Console-related posts are filtered out of the newsletter.
    pub fn is_console_related(&self) -> (r: bool)
        ensures
            r == (*self == PostCategory::ConsoleDiscussion || *self
                == PostCategory::ConsoleBugReport),
    {
        match self {
            PostCategory::ConsoleDiscussion => true,
            PostCategory::ConsoleBugReport => true,
            _ => false,
        }
    }
}

/// One tracked Diablo forum post, normalized by the site adapter:
/// `pub_date` is the publication instant in Unix seconds.
pub struct DiabloPost {
    pub title: String,
    pub id: u32,
    pub description: String,
    pub url: String,
    pub pub_date: i64,
    pub user: User,
    pub kind: PostKind,
    pub category: PostCategory,
}

} // verus!

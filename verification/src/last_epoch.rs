//! The Last Epoch forum source: its subforums, the normalized shape of one
//! announcement thread, and the pinned-thread detection over the dates of a
//! subforum's thread list.

use vstd::prelude::*;

verus! {

use vstd::string::StrSliceExecFns;
use vstd::string::StringExecFns;
use crate::item::NormalizedItem;

/// One watched Last Epoch subforum.
#[derive(Clone, Copy, PartialEq, Eq, Structural, Debug)]
pub enum Subforum {
    Announcements,
    News,
    DeveloperBlogs,
    PatchNotes,
}

/// The footer title shown for a subforum, as a specification value.
pub open spec fn spec_subforum_title(subforum: Subforum) -> Seq<char> {
    match subforum {
        Subforum::Announcements => "Announcements 📢"@,
        Subforum::News => "News 📰"@,
        Subforum::DeveloperBlogs => "Developer Blogs 👨‍💻"@,
        Subforum::PatchNotes => "Patch Notes ✏️"@,
    }
}

/// The footer title shown for a subforum: its name and an emoji.
pub fn subforum_title(subforum: Subforum) -> (r: String)
    ensures
        r@ == spec_subforum_title(subforum),
{
    match subforum {
        Subforum::Announcements => "Announcements 📢".to_owned(),
        Subforum::News => "News 📰".to_owned(),
        Subforum::DeveloperBlogs => "Developer Blogs 👨‍💻".to_owned(),
        Subforum::PatchNotes => "Patch Notes ✏️".to_owned(),
    }
}

impl Subforum {
    /// The path segment of the subforum in the forum's URLs.
    pub fn slug(&self) -> (r: &'static str)
        ensures
            r@ == self.spec_slug(),
    {
        match self {
            Subforum::Announcements => "announcements",
            Subforum::News => "news",
            Subforum::DeveloperBlogs => "developer-blogs",
            Subforum::PatchNotes => "patch-notes",
        }
    }

    /// The URL path segment, as a specification value.
    pub open spec fn spec_slug(&self) -> Seq<char> {
        match *self {
            Subforum::Announcements => "announcements"@,
            Subforum::News => "news"@,
            Subforum::DeveloperBlogs => "developer-blogs"@,
            Subforum::PatchNotes => "patch-notes"@,
        }
    }
}

/// One thread of a subforum's list, as the site adapter hands it over:
/// `datetime` is the posting instant in Unix seconds, `content` the post
/// body as markdown, `is_pinned` whether the thread sits pinned at the top
/// of the list.
pub struct NewsThreadInfo {
    pub url: String,
    pub title: String,
    pub datetime: i64,
    pub content: Option<String>,
    pub author: Option<String>,
    pub subforum: Subforum,
    pub is_pinned: bool,
}

impl NewsThreadInfo {
    /// The normalized item for this thread: keyed by its URL, published at
    /// its posting instant, carrying its body.
    pub fn to_item(&self, source_id: &str) -> (it: NormalizedItem)
        ensures
            it.source_id@ == source_id@,
            it.item_key@ == self.url@,
            it.title@ == self.title@,
            it.url@ == self.url@,
            it.published_at == self.datetime,
            match (it.author, self.author) {
                (Some(a), Some(b)) => a@ == b@,
                (None, None) => true,
                _ => false,
            },
            match (it.body, self.content) {
                (Some(a), Some(b)) => a@ == b@,
                (None, None) => true,
                _ => false,
            },
            it.media_urls@.len() == 0,
    {
        NormalizedItem {
            source_id: source_id.to_owned(),
            item_key: self.url.as_str().to_owned(),
            title: self.title.as_str().to_owned(),
            url: self.url.as_str().to_owned(),
            author: match &self.author {
                Some(a) => Some(a.as_str().to_owned()),
                None => None,
            },
            published_at: self.datetime,
            body: match &self.content {
                Some(c) => Some(c.as_str().to_owned()),
                None => None,
            },
            media_urls: Vec::new(),
        }
    }
}

/// The boundary below which the thread list's entries count as pinned,
/// scanning positions `k` downward: the largest position whose date is
/// strictly newer than its predecessor's, or 1 when no such position
/// exists.
pub open spec fn pinned_boundary(dates: Seq<i64>, k: int) -> int
    decreases k,
{
    if k <= 1 {
        1
    } else if dates[k] > dates[k - 1] {
        k
    } else {
        pinned_boundary(dates, k - 1)
    }
}

/// Which entries of a subforum's thread list are pinned. The list shows
/// pinned threads first, then the rest newest-first; so the entries before
/// the last ascending step of the date column are the pinned ones. Dates
/// are given as day numbers.
pub fn analyze_dates(dates: Vec<i64>) -> (r: Vec<bool>)
    requires
        dates@.len() >= 2,
    ensures
        r@.len() == dates@.len(),
        forall|i: int|
            0 <= i < r@.len() ==> r@[i] == (i < pinned_boundary(
                dates@,
                dates@.len() - 1,
            )),
{
    let mut k: usize = dates.len() - 1;
    while k > 1 && !(dates[k] > dates[k - 1])
        invariant
            1 <= k <= dates@.len() - 1,
            pinned_boundary(dates@, dates@.len() - 1) == pinned_boundary(dates@, k as int),
        decreases k,
    {
        k = k - 1;
    }
    let boundary: usize = if dates[k] > dates[k - 1] {
        k
    } else {
        1
    };
    proof {
        assert(pinned_boundary(dates@, k as int) == boundary);
    }
    let mut r: Vec<bool> = Vec::new();
    let mut i: usize = 0;
    while i < dates.len()
        invariant
            i <= dates@.len(),
            r@.len() == i,
            boundary == pinned_boundary(dates@, dates@.len() - 1),
            forall|j: int| 0 <= j < i ==> r@[j] == (j < boundary),
        decreases dates@.len() - i,
    {
        r.push(i < boundary);
        i = i + 1;
    }
    r
}

} // verus!

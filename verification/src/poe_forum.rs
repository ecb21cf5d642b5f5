//! The Path of Exile forum source: its watched subforums in both website
//! languages, the normalized shape of one news thread, and the details of
//! one post's page.

use vstd::prelude::*;

verus! {

use vstd::string::StrSliceExecFns;
use vstd::string::StringExecFns;
use crate::item::NormalizedItem;

/// One watched Path of Exile subforum.
#[derive(Clone, Copy, PartialEq, Eq, Structural, Debug)]
pub enum Subforum {
    News,
    PatchNotes,
    EarlyAccessPatchNotesEn,
    EarlyAccessPatchNotesRu,
    EarlyAccessAnnouncementsEn,
    EarlyAccessAnnouncementsRu,
}

impl Subforum {
    /// The path segment of the subforum in the forum's URLs.
    pub fn slug(&self) -> (r: &'static str)
        ensures
            r@ == self.spec_slug(),
    {
        match self {
            Subforum::News => "news",
            Subforum::PatchNotes => "patch-notes",
            Subforum::EarlyAccessPatchNotesEn => "2212",
            Subforum::EarlyAccessPatchNotesRu => "2272",
            Subforum::EarlyAccessAnnouncementsEn => "2211",
            Subforum::EarlyAccessAnnouncementsRu => "2271",
        }
    }

    /// The URL path segment, as a specification value.
    pub open spec fn spec_slug(&self) -> Seq<char> {
        match *self {
            Subforum::News => "news"@,
            Subforum::PatchNotes => "patch-notes"@,
            Subforum::EarlyAccessPatchNotesEn => "2212"@,
            Subforum::EarlyAccessPatchNotesRu => "2272"@,
            Subforum::EarlyAccessAnnouncementsEn => "2211"@,
            Subforum::EarlyAccessAnnouncementsRu => "2271"@,
        }
    }
}

/// Which language edition of the website a source watches.
#[derive(Clone, Copy, PartialEq, Eq, Structural, Debug)]
pub enum WebsiteLanguage {
    Ru,
    En,
}

impl WebsiteLanguage {
    /// The language tag used in the footer titles.
    pub fn tag(&self) -> (r: &'static str)
        ensures
            r@ == self.spec_tag(),
    {
        match self {
            WebsiteLanguage::Ru => "RU",
            WebsiteLanguage::En => "EN",
        }
    }

    /// The language tag, as a specification value.
    pub open spec fn spec_tag(&self) -> Seq<char> {
        match *self {
            WebsiteLanguage::Ru => "RU"@,
            WebsiteLanguage::En => "EN"@,
        }
    }

    /// The subdomain of that language's website.
    pub fn subdomain(&self) -> (r: &'static str)
        ensures
            r@ == self.spec_subdomain(),
    {
        match self {
            WebsiteLanguage::Ru => "ru.",
            WebsiteLanguage::En => "www.",
        }
    }

    /// The subdomain, as a specification value.
    pub open spec fn spec_subdomain(&self) -> Seq<char> {
        match *self {
            WebsiteLanguage::Ru => "ru."@,
            WebsiteLanguage::En => "www."@,
        }
    }
}

/// The display name and emoji of a subforum in the footer titles.
pub open spec fn spec_subforum_name(subforum: Subforum) -> Seq<char> {
    match subforum {
        Subforum::News => "PoE News"@,
        Subforum::PatchNotes => "PoE Patch Notes"@,
        Subforum::EarlyAccessPatchNotesEn => "PoE2 Patch Notes"@,
        Subforum::EarlyAccessPatchNotesRu => "PoE2 Patch Notes"@,
        Subforum::EarlyAccessAnnouncementsEn => "PoE2 Announcements"@,
        Subforum::EarlyAccessAnnouncementsRu => "PoE2 Announcements"@,
    }
}

/// The emoji shown beside a subforum's name.
pub open spec fn spec_subforum_emoji(subforum: Subforum) -> Seq<char> {
    match subforum {
        Subforum::News => "📢"@,
        Subforum::PatchNotes => "✏️"@,
        Subforum::EarlyAccessPatchNotesEn => "🆕"@,
        Subforum::EarlyAccessPatchNotesRu => "🆕"@,
        Subforum::EarlyAccessAnnouncementsEn => "📣"@,
        Subforum::EarlyAccessAnnouncementsRu => "📣"@,
    }
}

/// The footer title of a subforum, as a specification value: its name, the
/// language tag in brackets, and an emoji.
pub open spec fn spec_subforum_title(lang: WebsiteLanguage, subforum: Subforum) -> Seq<char> {
    spec_subforum_name(subforum) + " ["@ + lang.spec_tag() + "] "@ + spec_subforum_emoji(subforum)
}

/// The footer title shown for a subforum in one language.
pub fn subforum_title(lang: WebsiteLanguage, subforum: Subforum) -> (r: String)
    ensures
        r@ == spec_subforum_title(lang, subforum),
{
    let mut r: String = match subforum {
        Subforum::News => "PoE News".to_owned(),
        Subforum::PatchNotes => "PoE Patch Notes".to_owned(),
        Subforum::EarlyAccessPatchNotesEn => "PoE2 Patch Notes".to_owned(),
        Subforum::EarlyAccessPatchNotesRu => "PoE2 Patch Notes".to_owned(),
        Subforum::EarlyAccessAnnouncementsEn => "PoE2 Announcements".to_owned(),
        Subforum::EarlyAccessAnnouncementsRu => "PoE2 Announcements".to_owned(),
    };
    r.append(" [");
    r.append(lang.tag());
    r.append("] ");
    match subforum {
        Subforum::News => r.append("📢"),
        Subforum::PatchNotes => r.append("✏️"),
        Subforum::EarlyAccessPatchNotesEn => r.append("🆕"),
        Subforum::EarlyAccessPatchNotesRu => r.append("🆕"),
        Subforum::EarlyAccessAnnouncementsEn => r.append("📣"),
        Subforum::EarlyAccessAnnouncementsRu => r.append("📣"),
    }
    r
}

/// One thread of a subforum's news list, as the site adapter hands it over:
/// `posted_date` is the posting instant in Unix seconds.
pub struct NewsThreadInfo {
    pub url: String,
    pub posted_date: i64,
    pub title: String,
    pub author: Option<String>,
}

impl NewsThreadInfo {
    /// The normalized item for this thread: keyed by its URL, published at
    /// its posting instant. The body, when the post page was fetched, is
    /// handed in separately.
    pub fn to_item(&self, source_id: &str, body: Option<&String>) -> (it: NormalizedItem)
        ensures
            it.source_id@ == source_id@,
            it.item_key@ == self.url@,
            it.title@ == self.title@,
            it.url@ == self.url@,
            it.published_at == self.posted_date,
            match (it.author, self.author) {
                (Some(a), Some(b)) => a@ == b@,
                (None, None) => true,
                _ => false,
            },
            match (it.body, body) {
                (Some(a), Some(b)) => a@ == b@,
                (None, None) => true,
                _ => false,
            },
            it.media_urls@.len() == 0,
    {
        NormalizedItem {
            source_id: source_id.to_owned(),
            item_key: self.url.as_str().to_owned(),
            title: self.title.as_str().to_owned(),
            url: self.url.as_str().to_owned(),
            author: match &self.author {
                Some(a) => Some(a.as_str().to_owned()),
                None => None,
            },
            published_at: self.posted_date,
            body: match body {
                Some(b) => Some(b.as_str().to_owned()),
                None => None,
            },
            media_urls: Vec::new(),
        }
    }
}

/// The details scraped from one post's page: the post body as markdown and
/// its header image, when it has one.
pub struct PostDetails {
    pub content: String,
    pub image_src: Option<String>,
}

} // verus!

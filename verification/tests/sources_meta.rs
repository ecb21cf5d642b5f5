use rusty_vinnie::channel::AppChannel;
use rusty_vinnie::diablo::{PostCategory, User};
use rusty_vinnie::ea_live_updates::{add, LiveUpdatesThread};
use rusty_vinnie::last_epoch;
use rusty_vinnie::last_epoch::Subforum as LE;
use rusty_vinnie::poe_forum::{self, Subforum, WebsiteLanguage};
use rusty_vinnie::teasers::{Lang, ParseTeasersThreadError, TeasersForumThread};

#[test]
fn last_epoch_subforum_titles() {
    assert_eq!(last_epoch::subforum_title(LE::Announcements), "Announcements 📢");
    assert_eq!(last_epoch::subforum_title(LE::News), "News 📰");
    assert_eq!(last_epoch::subforum_title(LE::DeveloperBlogs), "Developer Blogs 👨‍💻");
    assert_eq!(last_epoch::subforum_title(LE::PatchNotes), "Patch Notes ✏️");
}

#[test]
fn last_epoch_slugs() {
    assert_eq!(LE::Announcements.slug(), "announcements");
    assert_eq!(LE::DeveloperBlogs.slug(), "developer-blogs");
}

#[test]
fn poe_subforum_titles() {
    assert_eq!(
        poe_forum::subforum_title(WebsiteLanguage::En, Subforum::News),
        "PoE News [EN] 📢"
    );
    assert_eq!(
        poe_forum::subforum_title(WebsiteLanguage::Ru, Subforum::PatchNotes),
        "PoE Patch Notes [RU] ✏️"
    );
    assert_eq!(
        poe_forum::subforum_title(WebsiteLanguage::En, Subforum::EarlyAccessPatchNotesEn),
        "PoE2 Patch Notes [EN] 🆕"
    );
    assert_eq!(
        poe_forum::subforum_title(WebsiteLanguage::Ru, Subforum::EarlyAccessAnnouncementsRu),
        "PoE2 Announcements [RU] 📣"
    );
}

#[test]
fn poe_slugs_and_subdomains() {
    assert_eq!(Subforum::News.slug(), "news");
    assert_eq!(Subforum::EarlyAccessPatchNotesRu.slug(), "2272");
    assert_eq!(WebsiteLanguage::Ru.subdomain(), "ru.");
    assert_eq!(WebsiteLanguage::En.subdomain(), "www.");
    assert_eq!(WebsiteLanguage::En.tag(), "EN");
}

#[test]
fn teasers_thread_urls_and_titles() {
    assert_eq!(
        TeasersForumThread::Poe2(Lang::Ru).url(),
        "https://ru.pathofexile.com/forum/view-thread/3584454"
    );
    assert_eq!(
        TeasersForumThread::Poe1_3_25Russian.url(),
        "https://ru.pathofexile.com/forum/view-thread/3530604/page/1"
    );
    assert_eq!(
        TeasersForumThread::Poe1_3_26En.url(),
        "https://www.pathofexile.com/forum/view-thread/3784648"
    );
    assert_eq!(TeasersForumThread::Poe2(Lang::En).title(), "Path of Exile 2 Teasers");
    assert_eq!(
        TeasersForumThread::Poe1_3_26Ru.title(),
        "Тизеры Path of Exile: Секреты Атласа"
    );
    assert_eq!(
        ParseTeasersThreadError::NoNewsPost.message(),
        "Invalid thread. No news post found"
    );
}

#[test]
fn live_updates_thread_urls_and_titles() {
    assert_eq!(
        LiveUpdatesThread::Ru.url(),
        "https://ru.pathofexile.com/forum/view-thread/3741051"
    );
    assert_eq!(
        LiveUpdatesThread::En.url(),
        "https://www.pathofexile.com/forum/view-thread/3741050"
    );
    assert_eq!(
        LiveUpdatesThread::En.title(),
        "Path of Exile 2: Dawn of the Hunt Launch - Live Updates 🔴"
    );
    assert_eq!(add(2, 2), 4);
}

#[test]
fn diablo_user_profile_url() {
    let user = User {
        id: 1,
        name: "BlizzardEntertainment".to_string(),
        avatar_url: "https://example.com/avatar.png".to_string(),
    };
    assert_eq!(
        user.profile_url(),
        "https://us.forums.blizzard.com/en/d4/u/BlizzardEntertainment/activity"
    );
}

#[test]
fn diablo_category_mapping() {
    assert_eq!(PostCategory::from_category_id(5), PostCategory::PcGeneralDiscussion);
    assert_eq!(PostCategory::from_category_id(6), PostCategory::ConsoleDiscussion);
    assert_eq!(PostCategory::from_category_id(11), PostCategory::ConsoleBugReport);
    assert_eq!(PostCategory::from_category_id(7), PostCategory::Other);
    assert!(PostCategory::ConsoleDiscussion.is_console_related());
    assert!(PostCategory::ConsoleBugReport.is_console_related());
    assert!(!PostCategory::PcGeneralDiscussion.is_console_related());
    assert!(!PostCategory::Other.is_console_related());
}

#[test]
fn channel_ids() {
    assert_eq!(AppChannel::General.id(), 356012941083934722);
    assert_eq!(AppChannel::Poe.id(), 356013349496029184);
    assert_eq!(AppChannel::Poe2.id(), 1399352084515520654);
    assert_eq!(AppChannel::LastEpoch.id(), 1362313267879350363);
    assert_eq!(AppChannel::Dev.id(), 841929108829372460);
}

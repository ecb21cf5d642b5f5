use rusty_vinnie::ledger::DeliveryLedger;
use rusty_vinnie::teasers::{select_new_teasers, Lang, Teaser, TeasersForumThread};

fn teaser(heading: &str, thread: TeasersForumThread) -> Teaser {
    Teaser {
        heading: heading.to_string(),
        images_urls: vec!["https://web.poecdn.com/public/news/example.png".to_string()],
        videos_urls: Vec::new(),
        forum_thread: thread,
    }
}

#[test]
fn only_unpublished_teasers_are_selected() {
    let thread = TeasersForumThread::Poe2(Lang::En);
    let teasers = vec![
        teaser("Teaser A", thread),
        teaser("Teaser B", thread),
        teaser("Teaser C", thread),
    ];

    let mut ledger = DeliveryLedger::new();
    ledger.commit(thread.url(), "Teaser B", 1);

    let selected = select_new_teasers(&teasers, &ledger);
    assert_eq!(selected, vec![0, 2]);
}

#[test]
fn headings_are_scoped_to_their_thread() {
    // The same heading in a different thread is still new.
    let en = TeasersForumThread::Poe1_3_26En;
    let ru = TeasersForumThread::Poe1_3_26Ru;
    let teasers = vec![teaser("Teaser A", ru)];

    let mut ledger = DeliveryLedger::new();
    ledger.commit(en.url(), "Teaser A", 1);

    let selected = select_new_teasers(&teasers, &ledger);
    assert_eq!(selected, vec![0]);
}

#[test]
fn publish_then_reselect_sends_nothing_new() {
    let thread = TeasersForumThread::Poe2_02(Lang::Ru);
    let teasers = vec![teaser("Первый тизер", thread), teaser("Второй тизер", thread)];

    let mut ledger = DeliveryLedger::new();
    let first = select_new_teasers(&teasers, &ledger);
    assert_eq!(first, vec![0, 1]);

    let sent: Vec<String> = first
        .iter()
        .map(|&i| teasers[i].heading.clone())
        .collect();
    ledger.commit_batch(thread.url(), &sent, 1);

    let second = select_new_teasers(&teasers, &ledger);
    assert!(second.is_empty());
}

use rusty_vinnie::channel::AppChannel;
use rusty_vinnie::item::{FetchError, NormalizedItem};
use rusty_vinnie::ledger::DeliveryLedger;
use rusty_vinnie::publisher::DeliveryOutcome;
use rusty_vinnie::source::Source;
use rusty_vinnie::watcher::{plan_tick, plan_tick_for_source, record_outcome, select_deliverable};

fn item(source_id: &str, key: &str, published_at: i64) -> NormalizedItem {
    NormalizedItem {
        source_id: source_id.to_string(),
        item_key: key.to_string(),
        title: format!("title of {}", key),
        url: format!("https://example.com/{}", key),
        author: None,
        published_at,
        body: None,
        media_urls: Vec::new(),
    }
}

const NOW: i64 = 1_700_000_000;
const WINDOW: i64 = 10;

#[test]
fn delivered_item_is_sent_exactly_once() {
    // Deliver an item, then replay the same fetch (an overlapping or later
    // tick): the second pass selects nothing, so exactly one chat send and
    // one ledger record result.
    let mut ledger = DeliveryLedger::new();
    let fetched: Result<Vec<NormalizedItem>, FetchError> = Ok(vec![item("src", "t1", NOW)]);

    let first = plan_tick(&fetched, &ledger, NOW, WINDOW);
    assert_eq!(first, vec![0]);
    let mut sends = 0;
    for &i in &first {
        sends += 1; // the primary send succeeded
        record_outcome(
            &mut ledger,
            &fetched.as_ref().unwrap()[i],
            &DeliveryOutcome::Delivered,
            NOW,
        );
    }
    assert_eq!(sends, 1);
    assert!(ledger.contains("src", "t1"));
    assert_eq!(ledger.len(), 1);

    let second = plan_tick(&fetched, &ledger, NOW + 1, WINDOW);
    assert!(second.is_empty(), "a delivered item must not be re-sent");
    assert_eq!(ledger.len(), 1);
}

#[test]
fn failed_primary_send_is_retried_next_tick() {
    // A simulated primary send failure: the ledger stays clean and the next
    // tick selects the same item again.
    let mut ledger = DeliveryLedger::new();
    let fetched: Result<Vec<NormalizedItem>, FetchError> = Ok(vec![item("src", "t1", NOW)]);

    let first = plan_tick(&fetched, &ledger, NOW, WINDOW);
    assert_eq!(first, vec![0]);
    record_outcome(
        &mut ledger,
        &fetched.as_ref().unwrap()[0],
        &DeliveryOutcome::PrimaryFailed,
        NOW,
    );
    assert!(!ledger.contains("src", "t1"));

    let second = plan_tick(&fetched, &ledger, NOW + 30, WINDOW);
    assert_eq!(second, vec![0], "an uncommitted item is retried");
}

#[test]
fn failing_source_never_disturbs_its_sibling() {
    // Source A's fetch fails on every tick; source B keeps delivering on
    // schedule over three ticks.
    let mut ledger = DeliveryLedger::new();
    let mut b_sends = 0;
    for tick in 0..3i64 {
        let now = NOW + tick * 600;

        let a_fetched: Result<Vec<NormalizedItem>, FetchError> = Err(FetchError {
            message: "connection reset".to_string(),
        });
        let a_plan = plan_tick(&a_fetched, &ledger, now, WINDOW);
        assert!(a_plan.is_empty(), "a failed fetch plans nothing");

        let b_item = item("src-b", &format!("post-{}", tick), now - 60);
        let b_fetched: Result<Vec<NormalizedItem>, FetchError> = Ok(vec![b_item]);
        let b_plan = plan_tick(&b_fetched, &ledger, now, WINDOW);
        assert_eq!(b_plan, vec![0], "source B delivers on schedule at tick {}", tick);
        for &i in &b_plan {
            b_sends += 1;
            record_outcome(
                &mut ledger,
                &b_fetched.as_ref().unwrap()[i],
                &DeliveryOutcome::Delivered,
                now,
            );
        }
    }
    assert_eq!(b_sends, 3);
    assert_eq!(ledger.len(), 3);
}

#[test]
fn stale_items_are_dropped_silently() {
    let ledger = DeliveryLedger::new();
    let items = vec![
        item("src", "fresh", NOW - 599),
        item("src", "boundary", NOW - 600),
        item("src", "stale", NOW - 601),
        item("src", "future", NOW + 120),
    ];
    let selected = select_deliverable(&items, &ledger, NOW, WINDOW);
    assert_eq!(selected, vec![0, 1, 3]);
    // Stale items are not written to the ledger either.
    assert!(!ledger.contains("src", "stale"));
}

#[test]
fn selection_keeps_source_order_and_skips_delivered() {
    let mut ledger = DeliveryLedger::new();
    ledger.commit("src", "b", NOW);
    let items = vec![
        item("src", "a", NOW),
        item("src", "b", NOW),
        item("src", "c", NOW),
    ];
    let selected = select_deliverable(&items, &ledger, NOW, WINDOW);
    assert_eq!(selected, vec![0, 2]);
}

#[test]
fn source_config_drives_the_window() {
    let source = Source::new(
        "poe-news-en",
        "PoE News (EN)",
        "en",
        AppChannel::Poe,
        10,
        90,
        "poe:news:en",
    );
    assert_eq!(source.freshness_window_mins, 90);
    assert_eq!(source.channel.id(), 356013349496029184);

    let ledger = DeliveryLedger::new();
    let fetched: Result<Vec<NormalizedItem>, FetchError> =
        Ok(vec![item("poe-news-en", "t1", NOW - 89 * 60)]);
    let plan = plan_tick_for_source(&source, &fetched, &ledger, NOW);
    assert_eq!(plan, vec![0], "an 89-minute-old item fits a 90-minute window");
}

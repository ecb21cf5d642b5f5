//! Source watcher: the per-tick decision logic of one polling loop.
//! Each tick: the fetched and parsed items pass through the freshness
//! filter, survivors are checked against the delivery ledger, and only
//! items that are both fresh and undelivered are selected for publishing;
//! a key is committed only after the primary send succeeded.

use vstd::prelude::*;

verus! {

use crate::interval::spec_is_fresh;
use crate::interval::is_within_last_minutes;
use crate::item::FetchError;
use crate::item::NormalizedItem;
use crate::ledger::DeliveryLedger;
use crate::publisher::DeliveryOutcome;

/// Is `item` worth delivering: fresh at `now` for the given window, and not
/// yet recorded as delivered?
pub open spec fn deliverable(
    item: NormalizedItem,
    committed: Set<(Seq<char>, Seq<char>)>,
    now: int,
    window_mins: int,
) -> bool {
    spec_is_fresh(item.published_at as int, now, window_mins) && !committed.contains(
        item.ledger_pair(),
    )
}

/// `r` is exactly the positions of the deliverable items of `items`, in
/// their source order.
pub open spec fn selection_correct(
    r: Seq<usize>,
    items: Seq<NormalizedItem>,
    committed: Set<(Seq<char>, Seq<char>)>,
    now: int,
    window_mins: int,
) -> bool {
    &&& forall|k: int|
        0 <= k < r.len() ==> (#[trigger] r[k]) < items.len() && deliverable(
            items[r[k] as int],
            committed,
            now,
            window_mins,
        )
    &&& forall|k1: int, k2: int| 0 <= k1 < k2 < r.len() ==> r[k1] < r[k2]
    &&& forall|i: usize|
        i < items.len() && deliverable(items[i as int], committed, now, window_mins)
            ==> r.contains(i)
}

/// Selects the items of one tick that are to be published: those whose
/// `published_at` lies within the freshness window of `now` and whose key
/// the ledger does not hold. Order among the selected items is the order in
/// which they arrived.
pub fn select_deliverable(
    items: &Vec<NormalizedItem>,
    ledger: &DeliveryLedger,
    now: i64,
    window_mins: i64,
) -> (r: Vec<usize>)
    ensures
        selection_correct(r@, items@, ledger.committed(), now as int, window_mins as int),
{
    let mut r: Vec<usize> = Vec::new();
    let mut i: usize = 0;
    while i < items.len()
        invariant
            i <= items@.len(),
            forall|k: int|
                0 <= k < r@.len() ==> (#[trigger] r@[k]) < i && deliverable(
                    items@[r@[k] as int],
                    ledger.committed(),
                    now as int,
                    window_mins as int,
                ),
            forall|k1: int, k2: int| 0 <= k1 < k2 < r@.len() ==> r@[k1] < r@[k2],
            forall|j: usize|
                j < i && deliverable(items@[j as int], ledger.committed(), now as int, window_mins as int)
                    ==> r@.contains(j),
        decreases items@.len() - i,
    {
        let item = &items[i];
        let fresh = is_within_last_minutes(window_mins, item.published_at, now);
        if fresh && !ledger.contains(item.source_id.as_str(), item.item_key.as_str()) {
            let ghost prev = r@;
            r.push(i);
            proof {
                assert(r@ == prev.push(i));
                assert(r@[r@.len() - 1] == i);
                assert forall|j: usize|
                    j < i + 1 && deliverable(
                        items@[j as int],
                        ledger.committed(),
                        now as int,
                        window_mins as int,
                    ) implies r@.contains(j) by {
                    if j < i {
                        assert(prev.contains(j));
                        let k = choose|k: int| 0 <= k < prev.len() && (#[trigger] prev[k]) == j;
                        assert(r@[k] == j);
                        assert(r@.contains(j));
                    } else {
                        assert(r@[r@.len() - 1] == j);
                        assert(r@.contains(j));
                    }
                }
            }
        } else {
            proof {
                assert(!deliverable(
                    items@[i as int],
                    ledger.committed(),
                    now as int,
                    window_mins as int,
                ));
            }
        }
        i = i + 1;
    }
    r
}

/// Plans one tick from the fetch result: a failed fetch is logged by the
/// caller and selects nothing (the tick is skipped with no state change, so
/// one source's failing fetch never disturbs another source's schedule); a
/// successful fetch selects exactly the fresh, undelivered items.
pub fn plan_tick(
    fetched: &Result<Vec<NormalizedItem>, FetchError>,
    ledger: &DeliveryLedger,
    now: i64,
    window_mins: i64,
) -> (r: Vec<usize>)
    ensures
        fetched is Err ==> r@ == Seq::<usize>::empty(),
        fetched is Ok ==> selection_correct(
            r@,
            fetched->Ok_0@,
            ledger.committed(),
            now as int,
            window_mins as int,
        ),
{
    match fetched {
        Ok(items) => select_deliverable(items, ledger, now, window_mins),
        Err(_) => Vec::new(),
    }
}

/// Relies on chrono::Utc::now for the current wall-clock time, in whole
/// seconds since the Unix epoch. The value depends on the machine's clock,
/// so nothing is assumed about it.
#[verifier::external_body]
fn now_utc_secs() -> i64 {
    chrono::Utc::now().timestamp()
}

/// One tick's plan together with the instant it was planned against.
pub struct TickPlan {
    pub now: i64,
    pub selected: Vec<usize>,
}

/// Reads the wall clock and plans the tick against it. Whatever instant the
/// clock returned — it stands in the result as `now` — the selection is
/// exactly the one [`plan_tick`] makes for that instant.
pub fn plan_tick_at_current_time(
    fetched: &Result<Vec<NormalizedItem>, FetchError>,
    ledger: &DeliveryLedger,
    window_mins: i64,
) -> (p: TickPlan)
    ensures
        fetched is Err ==> p.selected@ == Seq::<usize>::empty(),
        fetched is Ok ==> selection_correct(
            p.selected@,
            fetched->Ok_0@,
            ledger.committed(),
            p.now as int,
            window_mins as int,
        ),
{
    let now = now_utc_secs();
    TickPlan { now, selected: plan_tick(fetched, ledger, now, window_mins) }
}

/// Plans one tick for a configured source, with that source's own
/// freshness window.
pub fn plan_tick_for_source(
    source: &crate::source::Source,
    fetched: &Result<Vec<NormalizedItem>, FetchError>,
    ledger: &DeliveryLedger,
    now: i64,
) -> (r: Vec<usize>)
    ensures
        fetched is Err ==> r@ == Seq::<usize>::empty(),
        fetched is Ok ==> selection_correct(
            r@,
            fetched->Ok_0@,
            ledger.committed(),
            now as int,
            source.freshness_window_mins as int,
        ),
{
    plan_tick(fetched, ledger, now, source.freshness_window_mins)
}

/// Records the outcome of one item's publish attempt: a delivered item is
/// committed to the ledger (idempotently, as exactly one record), a failed
/// primary send leaves the ledger untouched, so the item is retried on the
/// next tick.
pub fn record_outcome(
    ledger: &mut DeliveryLedger,
    item: &NormalizedItem,
    outcome: &DeliveryOutcome,
    now: i64,
)
    requires
        old(ledger).wf(),
    ensures
        final(ledger).wf(),
        outcome is Delivered ==> final(ledger).committed() == old(ledger).committed().insert(
            item.ledger_pair(),
        ),
        outcome is Delivered && !old(ledger).committed().contains(item.ledger_pair())
            ==> final(ledger)@ == old(ledger)@.push(item.ledger_pair()),
        outcome is Delivered && old(ledger).committed().contains(item.ledger_pair())
            ==> final(ledger)@ == old(ledger)@,
        outcome is PrimaryFailed ==> *final(ledger) == *old(ledger),
{
    match outcome {
        DeliveryOutcome::Delivered => {
            ledger.commit(item.source_id.as_str(), item.item_key.as_str(), now);
        },
        DeliveryOutcome::PrimaryFailed => {},
    }
}

/// Idempotence across overlapping ticks: once an item's pair is committed,
/// the item is no longer deliverable, so a second tick (or a replay of the
/// same tick) selects it zero times and sends nothing for it.
pub proof fn lemma_second_tick_skips_delivered(
    item: NormalizedItem,
    committed: Set<(Seq<char>, Seq<char>)>,
    now: int,
    window_mins: int,
)
    ensures
        !deliverable(item, committed.insert(item.ledger_pair()), now, window_mins),
{
}

/// Isolation between sources: what one source commits to the shared ledger
/// never changes whether another source's item is deliverable, so a source
/// whose fetch fails on every tick cannot disturb a sibling's deliveries.
pub proof fn lemma_sources_are_independent(
    item: NormalizedItem,
    committed: Set<(Seq<char>, Seq<char>)>,
    other: (Seq<char>, Seq<char>),
    now: int,
    window_mins: int,
)
    requires
        other.0 != item.source_id@,
    ensures
        deliverable(item, committed.insert(other), now, window_mins) == deliverable(
            item,
            committed,
            now,
            window_mins,
        ),
{
}

} // verus!

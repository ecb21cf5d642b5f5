//! Delivery ledger: the idempotent record of already-delivered item keys per
//! source. It is the single source of truth for "has this already been
//! sent"; a key is committed only after the primary chat send succeeded.

use vstd::prelude::*;

verus! {

use vstd::string::StringExecFns;

/// Are two string slices equal, character for character?
pub(crate) fn str_eq(a: &str, b: &str) -> (r: bool)
    ensures
        r == (a@ == b@),
{
    let a_owned: String = a.to_owned();
    let b_owned: String = b.to_owned();
    a_owned == b_owned
}

/// One record of a successful delivery: created exactly once per delivered
/// item, never updated.
pub struct DeliveryRecord {
    pub source_id: String,
    pub item_key: String,
    pub delivered_at: i64,
}

impl DeliveryRecord {
    /// The (source, key) pair this record certifies as delivered.
    pub open spec fn pair(&self) -> (Seq<char>, Seq<char>) {
        (self.source_id@, self.item_key@)
    }
}

/// The ledger of delivered items. Its view is the sequence of committed
/// (source id, item key) pairs, in commit order; `committed()` is the set of
/// those pairs.
pub struct DeliveryLedger {
    records: Vec<DeliveryRecord>,
}

impl View for DeliveryLedger {
    type V = Seq<(Seq<char>, Seq<char>)>;

    closed spec fn view(&self) -> Seq<(Seq<char>, Seq<char>)> {
        Seq::new(self.records@.len(), |i: int| self.records@[i].pair())
    }
}

impl DeliveryLedger {
    /// The set of delivered (source id, item key) pairs.
    pub open spec fn committed(&self) -> Set<(Seq<char>, Seq<char>)> {
        Set::new(|p: (Seq<char>, Seq<char>)| self@.contains(p))
    }

    /// No pair is ever recorded twice.
    pub open spec fn wf(&self) -> bool {
        forall|i: int, j: int| 0 <= i < j < self@.len() ==> self@[i] != self@[j]
    }

    /// An empty ledger: nothing has been delivered.
    pub fn new() -> (l: DeliveryLedger)
        ensures
            l@ == Seq::<(Seq<char>, Seq<char>)>::empty(),
            l.wf(),
    {
        DeliveryLedger { records: Vec::new() }
    }

    /// How many deliveries are recorded.
    pub fn len(&self) -> (n: usize)
        ensures
            n == self@.len(),
    {
        self.records.len()
    }

    /// Has `(source_id, item_key)` already been delivered?
    pub fn contains(&self, source_id: &str, item_key: &str) -> (r: bool)
        ensures
            r == self.committed().contains((source_id@, item_key@)),
    {
        let ghost p = (source_id@, item_key@);
        let mut i: usize = 0;
        while i < self.records.len()
            invariant
                p == (source_id@, item_key@),
                i <= self.records@.len(),
                self@.len() == self.records@.len(),
                forall|j: int| 0 <= j < i ==> self@[j] != p,
            decreases self.records@.len() - i,
        {
            let rec = &self.records[i];
            proof {
                assert(self@[i as int] == self.records@[i as int].pair());
                assert(self@[i as int].0 == rec.source_id@);
                assert(self@[i as int].1 == rec.item_key@);
            }
            if str_eq(rec.source_id.as_str(), source_id) && str_eq(
                rec.item_key.as_str(),
                item_key,
            ) {
                proof {
                    assert(self@[i as int] =~= p);
                }
                return true;
            }
            assert(self@[i as int] != p);
            i = i + 1;
        }
        assert(!self@.contains(p));
        false
    }

    /// Commits a delivered key. Committing an already-committed key is a
    /// no-op, not an error, so overlapping ticks can retry safely; a fresh
    /// key is appended as exactly one new record.
    pub fn commit(&mut self, source_id: &str, item_key: &str, delivered_at: i64)
        requires
            old(self).wf(),
        ensures
            final(self).wf(),
            final(self).committed() == old(self).committed().insert((source_id@, item_key@)),
            old(self).committed().contains((source_id@, item_key@)) ==> final(self)@ == old(
                self,
            )@,
            !old(self).committed().contains((source_id@, item_key@)) ==> final(self)@ == old(
                self,
            )@.push((source_id@, item_key@)),
    {
        let ghost p = (source_id@, item_key@);
        if self.contains(source_id, item_key) {
            proof {
                assert(old(self).committed().insert(p) =~= old(self).committed());
            }
        } else {
            let record = DeliveryRecord {
                source_id: source_id.to_owned(),
                item_key: item_key.to_owned(),
                delivered_at,
            };
            proof {
                assert(record.pair() == p);
            }
            self.records.push(record);
            proof {
                broadcast use vstd::seq_lib::lemma_seq_contains_after_push;

                assert(self@ =~= old(self)@.push(p));
                assert(final(self).committed() =~= old(self).committed().insert(p));
            }
        }
    }

    /// Commits every key of one source's batch, as one unit. The result is
    /// the union of the old ledger with the batch; keys already present are
    /// not duplicated, and existing records are never touched.
    pub fn commit_batch(&mut self, source_id: &str, item_keys: &Vec<String>, delivered_at: i64)
        requires
            old(self).wf(),
        ensures
            final(self).wf(),
            old(self)@.is_prefix_of(final(self)@),
            final(self).committed() == old(self).committed().union(
                batch_pairs(source_id@, item_keys.deep_view()),
            ),
    {
        let ghost keys = item_keys.deep_view();
        let mut i: usize = 0;
        while i < item_keys.len()
            invariant
                old(self).wf(),
                self.wf(),
                old(self)@.is_prefix_of(self@),
                i <= keys.len(),
                keys == item_keys.deep_view(),
                keys.len() == item_keys@.len(),
                self.committed() == old(self).committed().union(
                    batch_pairs(source_id@, keys.take(i as int)),
                ),
            decreases item_keys@.len() - i,
        {
            let ghost before = self.committed();
            self.commit(source_id, item_keys[i].as_str(), delivered_at);
            proof {
                assert(keys.take(i + 1).contains(keys[i as int])) by {
                    assert(keys.take(i + 1)[i as int] == keys[i as int]);
                }
                assert forall|k: Seq<char>| keys.take(i as int).contains(k) implies keys.take(
                    i + 1,
                ).contains(k) by {
                    let j = choose|j: int| 0 <= j < i && keys.take(i as int)[j] == k;
                    assert(keys.take(i + 1)[j] == k);
                }
                assert forall|k: Seq<char>| keys.take(i + 1).contains(k) && k != keys[i as int]
                    implies keys.take(i as int).contains(k) by {
                    let j = choose|j: int| 0 <= j < i + 1 && (#[trigger] keys.take(i + 1)[j]) == k;
                    assert(keys.take(i as int)[j] == k);
                }
                assert(self.committed() =~= old(self).committed().union(
                    batch_pairs(source_id@, keys.take(i + 1)),
                ));
            }
            i = i + 1;
        }
        proof {
            assert(keys.take(keys.len() as int) =~= keys);
        }
    }

    /// The records in commit order, for persisting or inspection.
    pub fn records(&self) -> (r: &Vec<DeliveryRecord>)
        ensures
            r@.len() == self@.len(),
            forall|i: int| 0 <= i < r@.len() ==> (#[trigger] r@[i]).pair() == self@[i],
    {
        &self.records
    }
}

/// The set of (source, key) pairs formed by one source id and a batch of keys.
pub open spec fn batch_pairs(source: Seq<char>, keys: Seq<Seq<char>>) -> Set<
    (Seq<char>, Seq<char>),
> {
    Set::new(|p: (Seq<char>, Seq<char>)| p.0 == source && keys.contains(p.1))
}

/// Delivering an item twice in sequence touches the ledger only once: after
/// the first commit the pair is contained, so the duplicate-send check
/// refuses a second send, and a second commit of the same pair adds nothing.
pub proof fn lemma_commit_idempotent(
    committed: Set<(Seq<char>, Seq<char>)>,
    p: (Seq<char>, Seq<char>),
)
    ensures
        committed.insert(p).contains(p),
        committed.insert(p).insert(p) == committed.insert(p),
{
    assert(committed.insert(p).insert(p) =~= committed.insert(p));
}

} // verus!

//! The teaser-thread source: the watched forum threads, the shape of one
//! teaser, and the selection of teasers not yet published. A teaser has no
//! timestamp; within one thread its heading is the stable item key.

use vstd::prelude::*;

verus! {

use crate::ledger::DeliveryLedger;

/// The language edition of a teasers thread.
#[derive(Clone, Copy, PartialEq, Eq, Structural, Debug)]
pub enum Lang {
    Ru,
    En,
}

/// One watched teasers forum thread.
#[derive(Clone, Copy, PartialEq, Eq, Structural, Debug)]
pub enum TeasersForumThread {
    Poe2(Lang),
    Poe1_3_25Russian,
    Poe2_02(Lang),
    Poe1_3_26Ru,
    Poe1_3_26En,
}

impl TeasersForumThread {
    /// The thread's URL.
    pub fn url(&self) -> (r: &'static str)
        ensures
            r@ == self.spec_url(),
    {
        match self {
            TeasersForumThread::Poe2(lang) => match lang {
                Lang::Ru => "https://ru.pathofexile.com/forum/view-thread/3584454",
                Lang::En => "https://www.pathofexile.com/forum/view-thread/3584453",
            },
            TeasersForumThread::Poe1_3_25Russian => {
                "https://ru.pathofexile.com/forum/view-thread/3530604/page/1"
            },
            TeasersForumThread::Poe2_02(lang) => match lang {
                Lang::Ru => "https://ru.pathofexile.com/forum/view-thread/3726161",
                Lang::En => "https://www.pathofexile.com/forum/view-thread/3726160",
            },
            TeasersForumThread::Poe1_3_26Ru => {
                "https://ru.pathofexile.com/forum/view-thread/3784649"
            },
            TeasersForumThread::Poe1_3_26En => {
                "https://www.pathofexile.com/forum/view-thread/3784648"
            },
        }
    }

    /// The thread's URL, as a specification value.
    pub open spec fn spec_url(&self) -> Seq<char> {
        match *self {
            TeasersForumThread::Poe2(lang) => match lang {
                Lang::Ru => "https://ru.pathofexile.com/forum/view-thread/3584454"@,
                Lang::En => "https://www.pathofexile.com/forum/view-thread/3584453"@,
            },
            TeasersForumThread::Poe1_3_25Russian => {
                "https://ru.pathofexile.com/forum/view-thread/3530604/page/1"@
            },
            TeasersForumThread::Poe2_02(lang) => match lang {
                Lang::Ru => "https://ru.pathofexile.com/forum/view-thread/3726161"@,
                Lang::En => "https://www.pathofexile.com/forum/view-thread/3726160"@,
            },
            TeasersForumThread::Poe1_3_26Ru => {
                "https://ru.pathofexile.com/forum/view-thread/3784649"@
            },
            TeasersForumThread::Poe1_3_26En => {
                "https://www.pathofexile.com/forum/view-thread/3784648"@
            },
        }
    }

    /// The thread's display title.
    pub fn title(&self) -> (r: &'static str)
        ensures
            r@ == self.spec_title(),
    {
        match self {
            TeasersForumThread::Poe2(lang) => match lang {
                Lang::Ru => "Тизеры Path of Exile 2",
                Lang::En => "Path of Exile 2 Teasers",
            },
            TeasersForumThread::Poe1_3_25Russian => "Тизеры Path of Exile: Поселенцы Калгуура",
            TeasersForumThread::Poe2_02(lang) => match lang {
                Lang::Ru => "Тизеры Path of Exile 2 0.2.0",
                Lang::En => "Path of Exile 2 - 0.2.0 Teasers",
            },
            TeasersForumThread::Poe1_3_26Ru => "Тизеры Path of Exile: Секреты Атласа",
            TeasersForumThread::Poe1_3_26En => "Path of Exile: Secrets of the Atlas Teasers",
        }
    }

    /// The thread's display title, as a specification value.
    pub open spec fn spec_title(&self) -> Seq<char> {
        match *self {
            TeasersForumThread::Poe2(lang) => match lang {
                Lang::Ru => "Тизеры Path of Exile 2"@,
                Lang::En => "Path of Exile 2 Teasers"@,
            },
            TeasersForumThread::Poe1_3_25Russian => "Тизеры Path of Exile: Поселенцы Калгуура"@,
            TeasersForumThread::Poe2_02(lang) => match lang {
                Lang::Ru => "Тизеры Path of Exile 2 0.2.0"@,
                Lang::En => "Path of Exile 2 - 0.2.0 Teasers"@,
            },
            TeasersForumThread::Poe1_3_26Ru => "Тизеры Path of Exile: Секреты Атласа"@,
            TeasersForumThread::Poe1_3_26En => "Path of Exile: Secrets of the Atlas Teasers"@,
        }
    }
}

/// One teaser of a thread: its heading (the unique key within the thread),
/// the images and videos it links, and the thread it came from.
pub struct Teaser {
    pub heading: String,
    pub images_urls: Vec<String>,
    pub videos_urls: Vec<String>,
    pub forum_thread: TeasersForumThread,
}

impl Teaser {
    /// The ledger pair of this teaser: its thread's URL as the source id,
    /// its heading as the item key.
    pub open spec fn ledger_pair(&self) -> (Seq<char>, Seq<char>) {
        (self.forum_thread.spec_url(), self.heading@)
    }
}

/// Parsing a teasers thread page can fail only when the page holds no news
/// post at all.
#[derive(Clone, Copy, PartialEq, Eq, Structural, Debug)]
pub enum ParseTeasersThreadError {
    NoNewsPost,
}

impl ParseTeasersThreadError {
    /// A human-readable description of the failure.
    pub fn message(&self) -> (r: &'static str)
        ensures
            r@ == "Invalid thread. No news post found"@,
    {
        "Invalid thread. No news post found"
    }
}

/// Selects the teasers that have not been published yet: exactly the
/// positions of `teasers` whose (thread URL, heading) pair the ledger does
/// not hold, in their thread order (oldest first).
pub fn select_new_teasers(teasers: &Vec<Teaser>, ledger: &DeliveryLedger) -> (r: Vec<usize>)
    ensures
        forall|k: int|
            0 <= k < r@.len() ==> (#[trigger] r@[k]) < teasers@.len() && !ledger.committed()
                .contains(teasers@[r@[k] as int].ledger_pair()),
        forall|k1: int, k2: int| 0 <= k1 < k2 < r@.len() ==> r@[k1] < r@[k2],
        forall|i: usize|
            i < teasers@.len() && !ledger.committed().contains(
                teasers@[i as int].ledger_pair(),
            ) ==> r@.contains(i),
{
    let mut r: Vec<usize> = Vec::new();
    let mut i: usize = 0;
    while i < teasers.len()
        invariant
            i <= teasers@.len(),
            forall|k: int|
                0 <= k < r@.len() ==> (#[trigger] r@[k]) < i && !ledger.committed().contains(
                    teasers@[r@[k] as int].ledger_pair(),
                ),
            forall|k1: int, k2: int| 0 <= k1 < k2 < r@.len() ==> r@[k1] < r@[k2],
            forall|j: usize|
                j < i && !ledger.committed().contains(teasers@[j as int].ledger_pair())
                    ==> r@.contains(j),
        decreases teasers@.len() - i,
    {
        let teaser = &teasers[i];
        if !ledger.contains(teaser.forum_thread.url(), teaser.heading.as_str()) {
            let ghost prev = r@;
            r.push(i);
            proof {
                assert forall|j: usize|
                    j < i + 1 && !ledger.committed().contains(
                        teasers@[j as int].ledger_pair(),
                    ) implies r@.contains(j) by {
                    if j < i {
                        assert(prev.contains(j));
                        let k = choose|k: int| 0 <= k < prev.len() && (#[trigger] prev[k]) == j;
                        assert(r@[k] == j);
                        assert(r@.contains(j));
                    } else {
                        assert(r@[r@.len() - 1] == j);
                        assert(r@.contains(j));
                    }
                }
            }
        }
        i = i + 1;
    }
    r
}

} // verus!

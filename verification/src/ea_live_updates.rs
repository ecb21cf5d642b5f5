//! The early-access live-updates source: the watched threads and the shape
//! of one live update. One update belongs to one early-access day; its
//! heading is its stable key within a thread.

use vstd::prelude::*;

verus! {

use vstd::string::StrSliceExecFns;
use vstd::string::StringExecFns;
use crate::markdown::lemma_split_lines_at_newline;
use crate::markdown::lemma_split_lines_no_newline;
use crate::markdown::split_lines_spec;
use crate::message::join_spec;
use crate::message_handler::chars_of;
use crate::message_handler::contains_chars;
use crate::message_handler::contains_pattern;
use crate::message_handler::is_match_at;
use crate::message_handler::match_at;

/// Checked addition of two counters, as the feed's totals are summed.
pub fn add(left: u64, right: u64) -> (r: u64)
    requires
        left + right <= u64::MAX,
    ensures
        r == left + right,
{
    left + right
}

/// One day of the early-access launch, counted from launch day 1.
#[derive(Clone, Copy, PartialEq, Eq, Structural, Debug)]
pub struct EarlyAccessDay(pub u32);

/// One live update: the day it belongs to, its heading and content, and the
/// thread it came from.
pub struct LiveUpdate {
    pub day: u32,
    pub heading: String,
    pub content: String,
    pub thread: LiveUpdatesThread,
}

/// One watched live-updates forum thread.
#[derive(Clone, Copy, PartialEq, Eq, Structural, Debug)]
pub enum LiveUpdatesThread {
    Ru,
    En,
}

impl LiveUpdatesThread {
    /// The thread's URL.
    pub fn url(&self) -> (r: &'static str)
        ensures
            r@ == self.spec_url(),
    {
        match self {
            LiveUpdatesThread::Ru => "https://ru.pathofexile.com/forum/view-thread/3741051",
            LiveUpdatesThread::En => "https://www.pathofexile.com/forum/view-thread/3741050",
        }
    }

    /// The thread's URL, as a specification value.
    pub open spec fn spec_url(&self) -> Seq<char> {
        match *self {
            LiveUpdatesThread::Ru => "https://ru.pathofexile.com/forum/view-thread/3741051"@,
            LiveUpdatesThread::En => "https://www.pathofexile.com/forum/view-thread/3741050"@,
        }
    }

    /// The thread's display title.
    pub fn title(&self) -> (r: &'static str)
        ensures
            r@ == self.spec_title(),
    {
        match self {
            LiveUpdatesThread::Ru => {
                "Запуск Path of Exile 2: Начало охоты - Обновления в реальном времени 🔴"
            },
            LiveUpdatesThread::En => {
                "Path of Exile 2: Dawn of the Hunt Launch - Live Updates 🔴"
            },
        }
    }

    /// The thread's display title, as a specification value.
    pub open spec fn spec_title(&self) -> Seq<char> {
        match *self {
            LiveUpdatesThread::Ru => {
                "Запуск Path of Exile 2: Начало охоты - Обновления в реальном времени 🔴"@
            },
            LiveUpdatesThread::En => {
                "Path of Exile 2: Dawn of the Hunt Launch - Live Updates 🔴"@
            },
        }
    }
}

/// The table row that ends the updates themselves on the thread page:
/// everything from this marker on is boilerplate, not day content.
pub open spec fn spec_info_row_marker() -> Seq<char> {
    "<tr class=\"newsPost newsPostInfo\">"@
}

/// The heading that opens one day's section.
pub open spec fn spec_day_heading_open() -> Seq<char> {
    "<h3>"@
}

/// The lines of the thread page before the first one that holds the
/// info-row marker, concatenated.
pub open spec fn kept_lines(lines: Seq<Seq<char>>) -> Seq<Seq<char>>
    decreases lines.len(),
{
    if lines.len() == 0 {
        Seq::empty()
    } else if contains_pattern(lines[0], spec_info_row_marker()) {
        Seq::empty()
    } else {
        seq![lines[0]] + kept_lines(lines.skip(1))
    }
}

/// The searched text: the page's lines up to the info-row marker, joined.
pub open spec fn flat_spec(markup: Seq<char>) -> Seq<char> {
    join_spec(kept_lines(split_lines_spec(markup)))
}

/// The positions at or after `from` where a day heading opens in `s`.
pub open spec fn heading_positions(s: Seq<char>, from: int) -> Seq<int>
    decreases s.len() - from,
{
    if from >= s.len() {
        Seq::empty()
    } else if is_match_at(s, spec_day_heading_open(), from) {
        seq![from] + heading_positions(s, from + 1)
    } else {
        heading_positions(s, from + 1)
    }
}

/// The sections of `s` cut at the given start positions: each runs from
/// its start to the next one, the last to the end of `s`.
pub open spec fn sections_at(s: Seq<char>, starts: Seq<int>) -> Seq<Seq<char>>
    decreases starts.len(),
{
    if starts.len() == 0 {
        Seq::empty()
    } else if starts.len() == 1 {
        seq![s.subrange(starts[0], s.len() as int)]
    } else {
        seq![s.subrange(starts[0], starts[1])] + sections_at(s, starts.skip(1))
    }
}

/// The day sections of a live-updates thread page: one per day heading, in
/// page order (newest day first), cut from the text above the info row.
pub open spec fn day_sections_spec(markup: Seq<char>) -> Seq<Seq<char>> {
    let flat = flat_spec(markup);
    sections_at(flat, heading_positions(flat, 0))
}

/// Cuts the thread markup into one section per day heading.
pub fn break_markup_into_day_sections(markup: &str) -> (r: Vec<String>)
    ensures
        r.deep_view() == day_sections_spec(markup@),
{
    let marker = chars_of("<tr class=\"newsPost newsPostInfo\">");
    let n = markup.unicode_len();
    let ghost ms = markup@;
    let mut flat = String::new();
    let mut pos: usize = 0;
    let mut done: bool = false;
    proof {
        assert(ms.skip(0) =~= ms);
        assert(flat@ + join_spec(kept_lines(split_lines_spec(ms))) =~= join_spec(
            kept_lines(split_lines_spec(ms)),
        ));
    }
    while !done
        invariant
            marker@ == spec_info_row_marker(),
            ms == markup@,
            n == ms.len(),
            pos <= n,
            !done ==> flat_spec(ms) == flat@ + join_spec(kept_lines(split_lines_spec(ms.skip(
                pos as int,
            )))),
            done ==> flat_spec(ms) == flat@,
        decreases n - pos, (if done { 0int } else { 1int }),
    {
        let mut j: usize = pos;
        while j < n && markup.get_char(j) != '\n'
            invariant
                ms == markup@,
                n == ms.len(),
                pos <= j <= n,
                forall|q: int| pos <= q < j ==> ms[q] != '\n',
            decreases n - j,
        {
            j = j + 1;
        }
        let line = markup.substring_char(pos, j);
        let ghost line_view = ms.subrange(pos as int, j as int);
        let line_chars = chars_of(line);
        let keeps = !contains_chars(&line_chars, &marker);
        proof {
            let rem = ms.skip(pos as int);
            if j < n {
                lemma_split_lines_at_newline(rem, j - pos);
                assert(rem.take(j - pos) =~= line_view);
                assert(rem.skip(j - pos + 1) =~= ms.skip(j + 1));
                assert(seq![rem.take(j - pos)] =~= seq![line_view]);
                assert(split_lines_spec(rem) == seq![line_view] + split_lines_spec(
                    ms.skip(j + 1),
                ));
            } else {
                lemma_split_lines_no_newline(rem);
                assert(rem =~= line_view);
                assert(split_lines_spec(rem) == seq![line_view]);
            }
            let lines = split_lines_spec(rem);
            assert(lines[0] == line_view);
            if keeps {
                assert(kept_lines(lines) == seq![line_view] + kept_lines(lines.skip(1)));
                assert(join_spec(seq![line_view] + kept_lines(lines.skip(1))) == line_view
                    + join_spec(kept_lines(lines.skip(1)))) by {
                    let whole = seq![line_view] + kept_lines(lines.skip(1));
                    assert(whole.skip(1) =~= kept_lines(lines.skip(1)));
                }
            } else {
                assert(kept_lines(lines) == Seq::<Seq<char>>::empty());
                assert(join_spec(Seq::<Seq<char>>::empty()) == Seq::<char>::empty());
            }
        }
        if !keeps {
            proof {
                assert(flat_spec(ms) =~= flat@);
            }
            done = true;
        } else {
            flat.append(line);
            if j < n {
                proof {
                    let lines = split_lines_spec(ms.skip(pos as int));
                    assert(lines.skip(1) =~= split_lines_spec(ms.skip(j + 1)));
                    assert(flat_spec(ms) =~= flat@ + join_spec(kept_lines(split_lines_spec(
                        ms.skip(j + 1),
                    ))));
                }
                pos = j + 1;
            } else {
                proof {
                    let lines = split_lines_spec(ms.skip(pos as int));
                    assert(lines.skip(1) =~= Seq::<Seq<char>>::empty());
                    assert(kept_lines(Seq::<Seq<char>>::empty()) == Seq::<Seq<char>>::empty());
                    assert(join_spec(Seq::<Seq<char>>::empty()) == Seq::<char>::empty());
                    assert(line_view + Seq::<char>::empty() =~= line_view);
                    assert(flat_spec(ms) =~= flat@);
                }
                done = true;
            }
        }
    }

    let heading = chars_of("<h3>");
    let flat_chars = chars_of(flat.as_str());
    let ghost fs = flat@;
    let fn_len = flat.as_str().unicode_len();
    let mut starts: Vec<usize> = Vec::new();
    let mut i: usize = 0;
    proof {
        reveal_strlit("<h3>");
        assert(spec_day_heading_open().len() == 4);
        assert(starts@.map_values(|x: usize| x as int) =~= Seq::<int>::empty());
    }
    while i < fn_len
        invariant
            heading@ == spec_day_heading_open(),
            spec_day_heading_open().len() == 4,
            fs == flat@,
            flat_chars@ == fs,
            fn_len == fs.len(),
            i <= fn_len,
            heading_positions(fs, 0) == starts@.map_values(|x: usize| x as int)
                + heading_positions(fs, i as int),
            forall|q: int| 0 <= q < starts@.len() ==> (#[trigger] starts@[q]) < i,
            forall|q1: int, q2: int|
                0 <= q1 < q2 < starts@.len() ==> starts@[q1] < starts@[q2],
        decreases fn_len - i,
    {
        let ghost prev = starts@;
        if fn_len - i >= 4 && match_at(&flat_chars, &heading, i) {
            starts.push(i);
            proof {
                assert(starts@.map_values(|x: usize| x as int) =~= prev.map_values(
                    |x: usize| x as int,
                ).push(i as int));
                assert(prev.map_values(|x: usize| x as int).push(i as int) =~= prev.map_values(
                    |x: usize| x as int,
                ) + seq![i as int]);
            }
        } else {
            proof {
                assert(!is_match_at(fs, spec_day_heading_open(), i as int));
            }
        }
        proof {
            assert(heading_positions(fs, i as int) == (if is_match_at(
                fs,
                spec_day_heading_open(),
                i as int,
            ) {
                seq![i as int] + heading_positions(fs, i + 1)
            } else {
                heading_positions(fs, i + 1)
            }));
        }
        i = i + 1;
    }
    proof {
        assert(heading_positions(fs, 0) == starts@.map_values(|x: usize| x as int));
    }

    let ghost all_starts = starts@.map_values(|x: usize| x as int);
    let mut r: Vec<String> = Vec::new();
    let mut k: usize = 0;
    proof {
        assert(all_starts.skip(0) =~= all_starts);
        assert(r.deep_view() =~= Seq::<Seq<char>>::empty());
        assert(Seq::<Seq<char>>::empty() + sections_at(fs, all_starts) =~= sections_at(
            fs,
            all_starts,
        ));
    }
    while k < starts.len()
        invariant
            fs == flat@,
            fn_len == fs.len(),
            all_starts == starts@.map_values(|x: usize| x as int),
            k <= starts@.len(),
            forall|q: int| 0 <= q < starts@.len() ==> (#[trigger] starts@[q]) < fn_len,
            forall|q1: int, q2: int|
                0 <= q1 < q2 < starts@.len() ==> starts@[q1] < starts@[q2],
            sections_at(fs, all_starts) == r.deep_view() + sections_at(
                fs,
                all_starts.skip(k as int),
            ),
        decreases starts@.len() - k,
    {
        let start = starts[k];
        let end = if k + 1 < starts.len() {
            starts[k + 1]
        } else {
            fn_len
        };
        let section = flat.as_str().substring_char(start, end).to_owned();
        let ghost prev = r.deep_view();
        r.push(section);
        proof {
            let rest = all_starts.skip(k as int);
            assert(rest[0] == start as int);
            if k + 1 < starts@.len() {
                assert(rest[1] == all_starts[k + 1]);
            }
            assert(rest.skip(1) =~= all_starts.skip(k + 1));
            assert(section@ == fs.subrange(
                rest[0],
                if rest.len() == 1 {
                    fs.len() as int
                } else {
                    rest[1]
                },
            ));
            assert(sections_at(fs, rest) == seq![section@] + sections_at(
                fs,
                all_starts.skip(k + 1),
            ));
            assert(r.deep_view() =~= prev.push(section@));
            assert(prev.push(section@) =~= prev + seq![section@]);
            assert(sections_at(fs, all_starts) =~= r.deep_view() + sections_at(
                fs,
                all_starts.skip(k + 1),
            ));
        }
        k = k + 1;
    }
    proof {
        assert(all_starts.skip(starts@.len() as int) =~= Seq::<int>::empty());
        assert(sections_at(fs, Seq::<int>::empty()) == Seq::<Seq<char>>::empty());
        assert(sections_at(fs, all_starts) =~= r.deep_view());
    }
    r
}

} // verus!

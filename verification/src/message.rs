//! Content chunker: splits long message bodies into codepoint-safe segments
//! no longer than a configured character count, so that overflow content can
//! be posted as sequential follow-up messages in a thread.

use vstd::prelude::*;

verus! {

use vstd::string::StrSliceExecFns;
use vstd::string::StringExecFns;

/// The segments of `s` when cut every `max` characters: all segments are
/// `max` characters long except the last, which holds the non-empty
/// remainder. An empty input yields no segments at all.
pub open spec fn split_spec(s: Seq<char>, max: nat) -> Seq<Seq<char>>
    recommends
        max >= 1,
    decreases s.len(),
{
    if s.len() == 0 || max == 0 {
        Seq::empty()
    } else if s.len() <= max {
        seq![s]
    } else {
        seq![s.take(max as int)] + split_spec(s.skip(max as int), max)
    }
}

/// The concatenation of a sequence of segments.
pub open spec fn join_spec(chunks: Seq<Seq<char>>) -> Seq<char>
    decreases chunks.len(),
{
    if chunks.len() == 0 {
        Seq::empty()
    } else {
        chunks[0] + join_spec(chunks.skip(1))
    }
}

/// Joining the segments of a split reproduces the input exactly, for every
/// string and every positive segment size.
pub proof fn lemma_split_join_round_trip(s: Seq<char>, max: nat)
    requires
        max >= 1,
    ensures
        join_spec(split_spec(s, max)) == s,
    decreases s.len(),
{
    if s.len() == 0 {
        assert(join_spec(split_spec(s, max)) =~= s);
    } else if s.len() <= max {
        let chunks = split_spec(s, max);
        assert(chunks.skip(1) =~= Seq::<Seq<char>>::empty());
        assert(join_spec(Seq::<Seq<char>>::empty()) == Seq::<char>::empty());
        assert(join_spec(chunks) =~= s);
    } else {
        let head = s.take(max as int);
        let tail = s.skip(max as int);
        lemma_split_join_round_trip(tail, max);
        let chunks = split_spec(s, max);
        assert(chunks.skip(1) =~= split_spec(tail, max));
        assert(join_spec(chunks) =~= head + join_spec(split_spec(tail, max)));
        assert(head + tail =~= s);
    }
}

/// Every segment of a split is non-empty and at most `max` characters long,
/// every segment but the last is exactly `max` characters long, and only the
/// empty input yields no segments.
pub proof fn lemma_split_segment_bounds(s: Seq<char>, max: nat)
    requires
        max >= 1,
    ensures
        forall|i: int|
            0 <= i < split_spec(s, max).len() ==> 1 <= (#[trigger] split_spec(s, max)[i]).len()
                <= max,
        forall|i: int|
            0 <= i < split_spec(s, max).len() - 1 ==> (#[trigger] split_spec(s, max)[i]).len()
                == max,
        split_spec(s, max).len() == 0 <==> s.len() == 0,
    decreases s.len(),
{
    if s.len() > max {
        lemma_split_segment_bounds(s.skip(max as int), max);
        let chunks = split_spec(s, max);
        let rest = split_spec(s.skip(max as int), max);
        assert forall|i: int| 0 <= i < chunks.len() implies 1 <= (#[trigger] chunks[i]).len()
            <= max by {
            if i > 0 {
                assert(chunks[i] == rest[i - 1]);
            }
        }
        assert forall|i: int| 0 <= i < chunks.len() - 1 implies (#[trigger] chunks[i]).len()
            == max by {
            if i > 0 {
                assert(chunks[i] == rest[i - 1]);
            }
        }
    }
}

/// Splits `body` into segments of at most `max_chars` characters each.
///
/// Characters are counted as Unicode scalar values, never as bytes, so a
/// segment boundary can never fall inside a multi-byte character.
pub fn split(body: &str, max_chars: usize) -> (r: Vec<String>)
    requires
        max_chars >= 1,
    ensures
        r.deep_view() == split_spec(body@, max_chars as nat),
{
    let ghost s = body@;
    let n = body.unicode_len();
    let mut r: Vec<String> = Vec::new();
    let mut i: usize = 0;
    proof {
        assert(r.deep_view() =~= Seq::<Seq<char>>::empty());
        assert(s.skip(0) =~= s);
        assert(r.deep_view() + split_spec(s, max_chars as nat) =~= split_spec(
            s,
            max_chars as nat,
        ));
    }
    while i < n
        invariant
            max_chars >= 1,
            n == s.len(),
            s == body@,
            i <= n,
            split_spec(s, max_chars as nat) == r.deep_view() + split_spec(
                s.skip(i as int),
                max_chars as nat,
            ),
        decreases n - i,
    {
        let end = if n - i < max_chars {
            n
        } else {
            i + max_chars
        };
        let segment = body.substring_char(i, end).to_owned();
        proof {
            let rest = s.skip(i as int);
            if rest.len() <= max_chars as nat {
                assert(segment@ =~= rest);
                assert(split_spec(rest, max_chars as nat) == seq![rest]);
                assert(s.skip(end as int) =~= Seq::<char>::empty());
            } else {
                assert(segment@ =~= rest.take(max_chars as int));
                assert(rest.skip(max_chars as int) =~= s.skip(end as int));
            }
        }
        let ghost prev = r.deep_view();
        r.push(segment);
        proof {
            assert(r.deep_view() =~= prev.push(segment@));
            assert(prev.push(segment@) =~= prev + seq![segment@]);
            assert(split_spec(s, max_chars as nat) =~= r.deep_view() + split_spec(
                s.skip(end as int),
                max_chars as nat,
            ));
        }
        i = end;
    }
    proof {
        assert(s.skip(n as int) =~= Seq::<char>::empty());
        assert(split_spec(s, max_chars as nat) =~= r.deep_view());
    }
    r
}

/// Concatenates segments back into one string.
pub fn join(chunks: &Vec<String>) -> (r: String)
    ensures
        r@ == join_spec(chunks.deep_view()),
{
    let mut r = String::new();
    let mut i: usize = 0;
    while i < chunks.len()
        invariant
            i <= chunks.len(),
            r@ == join_spec(chunks.deep_view().take(i as int)),
        decreases chunks.len() - i,
    {
        r.append(chunks[i].as_str());
        proof {
            lemma_join_take_step(chunks.deep_view(), i as int);
        }
        i = i + 1;
    }
    proof {
        assert(chunks.deep_view().take(chunks.len() as int) =~= chunks.deep_view());
    }
    r
}

/// Extending the joined prefix by one segment appends that segment's text.
proof fn lemma_join_take_step(chunks: Seq<Seq<char>>, i: int)
    requires
        0 <= i < chunks.len(),
    ensures
        join_spec(chunks.take(i + 1)) == join_spec(chunks.take(i)) + chunks[i],
    decreases i,
{
    if i == 0 {
        assert(chunks.take(1).skip(1) =~= Seq::<Seq<char>>::empty());
        assert(join_spec(Seq::<Seq<char>>::empty()) == Seq::<char>::empty());
        assert(chunks.take(1)[0] == chunks[0]);
        assert(join_spec(chunks.take(1)) =~= chunks[0] + Seq::<char>::empty());
        assert(join_spec(chunks.take(1)) =~= Seq::<char>::empty() + chunks[0]);
        assert(join_spec(chunks.take(0)) =~= Seq::<char>::empty());
        assert(join_spec(chunks.take(0)) + chunks[0] =~= chunks[0]);
        assert(join_spec(chunks.take(1)) =~= join_spec(chunks.take(0)) + chunks[0]);
    } else {
        lemma_join_take_step(chunks.skip(1), i - 1);
        assert(chunks.take(i + 1).skip(1) =~= chunks.skip(1).take(i));
        assert(chunks.take(i).skip(1) =~= chunks.skip(1).take(i - 1));
        assert(chunks.skip(1)[i - 1] == chunks[i]);
        assert(join_spec(chunks.take(i + 1)) == chunks[0] + join_spec(chunks.skip(1).take(i)));
        assert(join_spec(chunks.take(i)) == chunks[0] + join_spec(chunks.skip(1).take(i - 1)));
        assert(chunks[0] + (join_spec(chunks.skip(1).take(i - 1)) + chunks[i]) =~= (chunks[0]
            + join_spec(chunks.skip(1).take(i - 1))) + chunks[i]);
    }
}

/// The texts of the follow-up messages for overflow content: `content` cut
/// at the platform's hard embed-description limit.
pub fn create_details_message(content: &str) -> (r: Vec<String>)
    ensures
        r.deep_view() == split_spec(content@, crate::EMBED_DESCRIPTION_MAX_CHARS as nat),
{
    split(content, crate::EMBED_DESCRIPTION_MAX_CHARS)
}

} // verus!

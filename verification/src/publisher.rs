//! Publisher: plans what one publish attempt sends (summary plus overflow
//! chunks) and drives the send sequence as a state machine, isolating
//! per-message failures.

use vstd::prelude::*;

verus! {

use vstd::string::StrSliceExecFns;
use crate::message::split;
use crate::message::split_spec;

/// The outcome of one publish attempt. Only a delivered item may be
/// committed to the ledger; a failed primary send must not be.
#[derive(Clone, Copy, PartialEq, Eq, Structural, Debug)]
pub enum DeliveryOutcome {
    Delivered,
    PrimaryFailed,
}

/// The number of words of a text under UAX#29 word segmentation.
pub uninterp spec fn unicode_word_count(s: Seq<char>) -> nat;

/// Relies on unicode_segmentation's `unicode_words`: the words of a string
/// under UAX#29 word boundaries, a function of the characters alone. An
/// empty string has no words.
#[verifier::external_body]
fn count_unicode_words(text: &str) -> (n: usize)
    ensures
        n as nat == unicode_word_count(text@),
        text@.len() == 0 ==> n == 0,
{
    unicode_segmentation::UnicodeSegmentation::unicode_words(text).count()
}

/// What one publish attempt sends: the summary text of the primary message,
/// the body's word count for the summary's fields, and the overflow chunks
/// for the secondary thread (empty when the body fits the display limit).
pub struct PublishPlan {
    pub summary: String,
    pub word_count: usize,
    pub overflow: Vec<String>,
}

/// Plans a publish of `body`: the summary is `body` cut to the first
/// `display_limit` characters; when `body` exceeds that limit, the full body
/// is additionally split at the platform's `hard_limit` into the overflow
/// chunks for a secondary thread.
pub fn plan_publish(body: &str, display_limit: usize, hard_limit: usize) -> (p: PublishPlan)
    requires
        display_limit >= 1,
        hard_limit >= 1,
    ensures
        p.word_count as nat == unicode_word_count(body@),
        body@.len() <= display_limit ==> p.summary@ == body@ && p.overflow.deep_view()
            == Seq::<Seq<char>>::empty(),
        body@.len() > display_limit ==> p.summary@ == body@.take(display_limit as int)
            && p.overflow.deep_view() == split_spec(body@, hard_limit as nat),
{
    let word_count = count_unicode_words(body);
    let n = body.unicode_len();
    if n <= display_limit {
        PublishPlan { summary: body.to_owned(), word_count, overflow: Vec::new() }
    } else {
        let summary = body.substring_char(0, display_limit).to_owned();
        proof {
            assert(body@.subrange(0, display_limit as int) =~= body@.take(display_limit as int));
        }
        PublishPlan { summary, word_count, overflow: split(body, hard_limit) }
    }
}

/// Where one publish attempt stands. The sends happen outside the library;
/// each reported send result advances this state by [`publish_step`].
#[derive(Clone, Copy, PartialEq, Eq, Structural, Debug)]
pub enum PublishState {
    /// The primary summary message is being sent.
    SendingPrimary,
    /// The primary message went out; the overflow thread is being created.
    CreatingThread,
    /// Overflow chunk `index` is being sent to the thread.
    SendingChunk { index: usize },
    /// The attempt is over.
    Done { outcome: DeliveryOutcome },
}

/// The result of one send or thread-creation attempt, reported from outside.
#[derive(Clone, Copy, PartialEq, Eq, Structural, Debug)]
pub enum PublishEvent {
    Succeeded,
    Failed,
}

/// The transition relation of one publish attempt over `chunk_count`
/// overflow chunks:
/// - a failed primary send ends the attempt as `PrimaryFailed`;
/// - a successful primary send with no overflow is already `Delivered`;
/// - a failed thread creation ends as `Delivered` anyway (the accepted
///   lossy-overflow tradeoff: the primary message is out);
/// - a chunk send advances to the next chunk whether it succeeded or
///   failed, so one failed chunk never blocks the following ones.
pub open spec fn publish_step_spec(
    state: PublishState,
    event: PublishEvent,
    chunk_count: nat,
) -> PublishState {
    match state {
        PublishState::SendingPrimary => match event {
            PublishEvent::Failed => PublishState::Done {
                outcome: DeliveryOutcome::PrimaryFailed,
            },
            PublishEvent::Succeeded => if chunk_count == 0 {
                PublishState::Done { outcome: DeliveryOutcome::Delivered }
            } else {
                PublishState::CreatingThread
            },
        },
        PublishState::CreatingThread => match event {
            PublishEvent::Failed => PublishState::Done { outcome: DeliveryOutcome::Delivered },
            PublishEvent::Succeeded => PublishState::SendingChunk { index: 0 },
        },
        PublishState::SendingChunk { index } => if index + 1 < chunk_count {
            PublishState::SendingChunk { index: (index + 1) as usize }
        } else {
            PublishState::Done { outcome: DeliveryOutcome::Delivered }
        },
        PublishState::Done { .. } => state,
    }
}

/// Advances a publish attempt by one reported send result.
pub fn publish_step(state: &PublishState, event: PublishEvent, chunk_count: usize) -> (next:
    PublishState)
    ensures
        next == publish_step_spec(*state, event, chunk_count as nat),
{
    match state {
        PublishState::SendingPrimary => match event {
            PublishEvent::Failed => PublishState::Done {
                outcome: DeliveryOutcome::PrimaryFailed,
            },
            PublishEvent::Succeeded => if chunk_count == 0 {
                PublishState::Done { outcome: DeliveryOutcome::Delivered }
            } else {
                PublishState::CreatingThread
            },
        },
        PublishState::CreatingThread => match event {
            PublishEvent::Failed => PublishState::Done { outcome: DeliveryOutcome::Delivered },
            PublishEvent::Succeeded => PublishState::SendingChunk { index: 0 },
        },
        PublishState::SendingChunk { index } => {
            let i = *index;
            if i < usize::MAX && i + 1 < chunk_count {
                PublishState::SendingChunk { index: i + 1 }
            } else {
                proof {
                    if i == usize::MAX {
                        assert(!(i + 1 < chunk_count as nat));
                    }
                }
                PublishState::Done { outcome: DeliveryOutcome::Delivered }
            }
        },
        PublishState::Done { outcome } => PublishState::Done { outcome: *outcome },
    }
}

/// A failed chunk send advances the attempt exactly as a successful one
/// does: later chunks are never blocked by an earlier failure.
pub proof fn lemma_chunk_failure_isolated(index: usize, chunk_count: nat)
    ensures
        publish_step_spec(
            PublishState::SendingChunk { index },
            PublishEvent::Failed,
            chunk_count,
        ) == publish_step_spec(
            PublishState::SendingChunk { index },
            PublishEvent::Succeeded,
            chunk_count,
        ),
{
}

/// May the caller commit this outcome to the delivery ledger? Only a
/// delivered item: a failed primary send must be retried on a later tick.
pub fn outcome_commits(outcome: &DeliveryOutcome) -> (r: bool)
    ensures
        r == (outcome is Delivered),
{
    match outcome {
        DeliveryOutcome::Delivered => true,
        DeliveryOutcome::PrimaryFailed => false,
    }
}

} // verus!

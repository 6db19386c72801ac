//! Fixed sequences of steps that stop at the first failure.

use vstd::prelude::*;
use crate::error::Error;

verus! {

/// The reply to one step of a sequence.
pub type StepReply = Result<(), Error>;

/// Where a fixed sequence of steps stands.
#[derive(Clone, Copy, Debug, PartialEq, Eq, Structural)]
pub enum Sequence {
    /// The step with this index is due.
    Next(usize),
    /// A step failed with this error; no later step is performed.
    Failed(Error),
    /// Every step succeeded.
    Complete,
}

/// Where a sequence of `steps` steps stands when the steps before `at` all
/// succeeded and `replies[i]` is the reply to step `i`.
pub open spec fn sequence_from(replies: Seq<StepReply>, steps: nat, at: nat) -> Sequence
    decreases steps - at,
{
    if at >= steps {
        Sequence::Complete
    } else if at >= replies.len() {
        Sequence::Next(at as usize)
    } else {
        match replies[at as int] {
            Err(error) => Sequence::Failed(error),
            Ok(_) => sequence_from(replies, steps, at + 1),
        }
    }
}

/// Where a sequence of `steps` steps stands after the given replies.
pub open spec fn sequence_of(replies: Seq<StepReply>, steps: nat) -> Sequence {
    sequence_from(replies, steps, 0)
}

/// Decides what a sequence of `steps` steps does after the replies received
/// so far: it fails with the first error, performs the steps one by one in
/// order otherwise, and is complete once each has succeeded.
pub fn sequence_progress(replies: &Vec<StepReply>, steps: usize) -> (progress: Sequence)
    ensures
        progress == sequence_of(replies@, steps as nat),
        progress matches Sequence::Next(step) ==> step == replies@.len() && step < steps
            && forall|j: int| 0 <= j < replies@.len() ==> (#[trigger] replies@[j]) is Ok,
{
    let mut i: usize = 0;
    while i < steps && i < replies.len()
        invariant
            i <= steps,
            i <= replies@.len(),
            forall|j: int| 0 <= j < i ==> (#[trigger] replies@[j]) is Ok,
            sequence_of(replies@, steps as nat) == sequence_from(replies@, steps as nat, i as nat),
        decreases steps - i,
    {
        match replies[i] {
            Err(error) => {
                return Sequence::Failed(error);
            },
            Ok(_) => {},
        }
        i += 1;
    }
    if i >= steps {
        Sequence::Complete
    } else {
        Sequence::Next(i)
    }
}

/// A sequence whose steps so far all succeeded goes on with the step after
/// the last reply, or is complete when none is left.
pub proof fn lemma_sequence_advances(replies: Seq<StepReply>, steps: nat)
    requires
        forall|i: int| 0 <= i < replies.len() ==> (#[trigger] replies[i]) is Ok,
        steps <= usize::MAX,
    ensures
        replies.len() < steps ==> sequence_of(replies, steps) == Sequence::Next(
            replies.len() as usize,
        ),
        replies.len() >= steps ==> sequence_of(replies, steps) == Sequence::Complete,
{
    let reached = if replies.len() < steps {
        replies.len()
    } else {
        steps
    };
    lemma_sequence_skips_successes(replies, steps, reached, 0);
}

/// A sequence fails with the error of the first step that failed, whatever
/// was replied after it.
pub proof fn lemma_sequence_stops_at_first_failure(replies: Seq<StepReply>, steps: nat, k: int)
    requires
        0 <= k < replies.len(),
        k < steps,
        replies[k] is Err,
        forall|i: int| 0 <= i < k ==> (#[trigger] replies[i]) is Ok,
    ensures
        sequence_of(replies, steps) == Sequence::Failed(replies[k]->Err_0),
{
    lemma_sequence_skips_successes(replies, steps, k as nat, 0);
}

/// Once a sequence is complete or has failed, no later reply changes that.
pub proof fn lemma_sequence_result_is_final(
    replies: Seq<StepReply>,
    more: Seq<StepReply>,
    steps: nat,
)
    requires
        !(sequence_of(replies, steps) is Next),
    ensures
        sequence_of(replies + more, steps) == sequence_of(replies, steps),
{
    lemma_sequence_result_stays(replies, more, steps, 0);
}

proof fn lemma_sequence_result_stays(
    replies: Seq<StepReply>,
    more: Seq<StepReply>,
    steps: nat,
    at: nat,
)
    requires
        !(sequence_from(replies, steps, at) is Next),
    ensures
        sequence_from(replies + more, steps, at) == sequence_from(replies, steps, at),
    decreases steps - at,
{
    if at < steps && at < replies.len() {
        assert((replies + more)[at as int] == replies[at as int]);
        if replies[at as int] is Ok {
            lemma_sequence_result_stays(replies, more, steps, at + 1);
        }
    }
}

proof fn lemma_sequence_skips_successes(replies: Seq<StepReply>, steps: nat, k: nat, at: nat)
    requires
        at <= k <= steps,
        k <= replies.len(),
        forall|i: int| 0 <= i < k ==> (#[trigger] replies[i]) is Ok,
    ensures
        sequence_from(replies, steps, at) == sequence_from(replies, steps, k),
    decreases k - at,
{
    if at < k {
        assert(replies[at as int] is Ok);
        lemma_sequence_skips_successes(replies, steps, k, at + 1);
    }
}

} // verus!

//! Cancellation of a load by a newer one.
//!
//! Every load is given a generation number. A load belongs to the past as soon as the
//! shared counter no longer holds its number. Whoever asks says what the load has come to:
//! the question is asked with that at hand.
use std::sync::atomic::{AtomicUsize, Ordering};
use std::sync::Arc;

use vstd::prelude::*;

verus! {

/// A load of generation `generation` is cancelled when the counter has moved on.
pub fn is_superseded(current: usize, generation: usize) -> (r: bool)
    ensures
        r == (current != generation),
{
    current != generation
}

fn call_load<F: Fn(&AtomicUsize, Ordering) -> usize>(load: F, tracker: &AtomicUsize) -> (r: usize)
    requires
        call_requires(load, (tracker, Ordering::SeqCst)),
    ensures
        call_ensures(load, (tracker, Ordering::SeqCst), r),
{
    load(tracker, Ordering::SeqCst)
}

/// Reads the counter with `at_hand` at hand. Between two readings of a load another owner
/// may have changed the counter; what a reading is handed tells them apart. A reading cannot
/// be made before what it is handed exists.
pub fn read_generation<S>(tracker: &AtomicUsize, _at_hand: S) -> (r: usize)
    ensures
        call_ensures(AtomicUsize::load, (tracker, Ordering::SeqCst), r),
{
    call_load(AtomicUsize::load, tracker)
}

fn call_read<S, F: Fn(&AtomicUsize, S) -> usize>(
    read: F,
    tracker: &AtomicUsize,
    at_hand: S,
) -> (r: usize)
    requires
        call_requires(read, (tracker, at_hand)),
    ensures
        call_ensures(read, (tracker, at_hand), r),
{
    read(tracker, at_hand)
}

/// A reading with `at_hand` at hand may find that the counter holds `current`.
pub open spec fn may_hold<S>(tracker: AtomicUsize, at_hand: S, current: usize) -> bool {
    call_ensures(read_generation::<S>, (&tracker, at_hand), current)
}

/// `answer` is a possible answer to the question, asked with `at_hand` at hand, whether the
/// load that holds `token` is cancelled: a value that a reading may then find makes it the
/// right one. A load without a token is never cancelled.
pub open spec fn may_answer<S>(
    token: Option<(Arc<AtomicUsize>, usize)>,
    at_hand: S,
    answer: bool,
) -> bool {
    match token {
        Some((tracker, generation)) => exists|current: usize| #[trigger]
            may_hold(*tracker, at_hand, current) && answer == (current != generation),
        None => !answer,
    }
}

/// Whatever is at hand, a reading can only find that the counter of `token` holds `value`.
pub open spec fn holds_throughout<S>(
    token: Option<(Arc<AtomicUsize>, usize)>,
    value: usize,
) -> bool {
    token matches Some((tracker, _)) ==> forall|at_hand: S, current: usize| #[trigger]
        may_hold(*tracker, at_hand, current) ==> current == value
}

/// What a reading may find is what a sequentially consistent load may give: a counter whose
/// loads can only give `value` is found to hold it throughout.
pub proof fn lemma_constant_counter<S>(
    tracker: Arc<AtomicUsize>,
    generation: usize,
    value: usize,
)
    requires
        forall|current: usize| #[trigger]
            call_ensures(AtomicUsize::load, (&*tracker, Ordering::SeqCst), current) ==> current
                == value,
    ensures
        holds_throughout::<S>(Some((tracker, generation)), value),
{
}

/// Whether the load that holds `token` is cancelled at a moment at which `at_hand` is at
/// hand: whether the counter, read once, holds another generation than the load's own. A
/// load without a token cannot be cancelled. What the counter holds is up to its other
/// owners.
pub fn is_cancelled<S>(token: &Option<(Arc<AtomicUsize>, usize)>, at_hand: S) -> (r: bool)
    ensures
        may_answer(*token, at_hand, r),
        token is None ==> !r,
{
    match token {
        Some((tracker, generation)) => {
            let current: usize = call_read(read_generation::<S>, tracker, at_hand);
            assert(may_hold(**tracker, at_hand, current));
            is_superseded(current, *generation)
        },
        None => false,
    }
}

/// What a load that was found still wanted is given, to hand on to its next stage. Only
/// `clearance` makes one, and only once per question.
#[allow(dead_code)]
pub struct Clearance {
    /// The generation that was found to be the current one.
    generation: Option<usize>,
}

/// Asks with `at_hand` at hand whether the load that holds `token` is cancelled, and gives a
/// clearance if it is not.
pub fn clearance<S>(token: &Option<(Arc<AtomicUsize>, usize)>, at_hand: S) -> (r: Option<
    Clearance,
>)
    ensures
        may_answer(*token, at_hand, r is None),
{
    if is_cancelled(token, at_hand) {
        return None;
    }
    let generation: Option<usize> = match token {
        Some((_, generation)) => Some(*generation),
        None => None,
    };
    Some(Clearance { generation })
}

/// A load with a token is cancelled exactly if a load of the counter gives another generation
/// than its own, and gets a clearance exactly if it gives its own. One without a token is
/// never cancelled and always cleared.
pub proof fn lemma_question_decided<S>(
    token: &Option<(Arc<AtomicUsize>, usize)>,
    at_hand: S,
    cancelled: bool,
    cleared: Option<Clearance>,
)
    requires
        call_ensures(is_cancelled::<S>, (token, at_hand), cancelled),
        call_ensures(clearance::<S>, (token, at_hand), cleared),
    ensures
        token is None ==> !cancelled && cleared is Some,
        token matches Some((tracker, generation)) ==> exists|current: usize| #[trigger]
            call_ensures(AtomicUsize::load, (&**tracker, Ordering::SeqCst), current) && (cancelled
                <==> current != *generation),
        token matches Some((tracker, generation)) ==> exists|current: usize| #[trigger]
            call_ensures(AtomicUsize::load, (&**tracker, Ordering::SeqCst), current) && (
            cleared is None <==> current != *generation),
{
    if let Some((tracker, generation)) = *token {
        let a = choose|current: usize| #[trigger]
            may_hold(*tracker, at_hand, current) && cancelled == (current != generation);
        let b = choose|current: usize| #[trigger]
            may_hold(*tracker, at_hand, current) && (cleared is None) == (current != generation);
        assert(call_ensures(AtomicUsize::load, (&*tracker, Ordering::SeqCst), a));
        assert(call_ensures(AtomicUsize::load, (&*tracker, Ordering::SeqCst), b));
    }
}

/// A load belongs to the past exactly if the counter holds another number than its own.
pub proof fn lemma_superseded_gives(current: usize, generation: usize, r: bool)
    requires
        call_ensures(is_superseded, (current, generation), r),
    ensures
        !r <==> current == generation,
{
}

} // verus!

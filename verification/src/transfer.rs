//! The steps by which a crate is carried from its source to the object store.

use vstd::prelude::*;

verus! {

/// How far a transfer has come.
#[derive(Clone, Copy, Debug, PartialEq, Eq, Structural)]
pub enum TransferState {
    /// The crate is being received.
    Receiving,
    /// The store is being asked what it holds.
    Checking,
    /// The crate is being stored. This attempt and `attempts_left - 1` more
    /// may fail.
    Uploading { attempts_left: u32 },
    /// The crate is being entered in the search index.
    Indexing,
    /// There is nothing left to do.
    Done,
}

/// What came of the last action.
#[derive(Clone, Copy, Debug, PartialEq, Eq, Structural)]
pub enum TransferEvent {
    /// A piece of the crate arrived and was added to the buffer.
    Chunk,
    /// The source broke off.
    Broken,
    /// The source has no more to give.
    Ended,
    /// The store said whether it holds the very same content.
    Head { stored: bool },
    /// An attempt to store the crate succeeded or failed.
    Put { ok: bool },
    /// The search index answered, whatever it said, and the answer was
    /// reported. Where reporting it fails for good this event never comes, and
    /// the crate stays among the active downloads.
    Indexed,
}

/// What is to be done next.
#[derive(Clone, Copy, Debug, PartialEq, Eq, Structural)]
pub enum TransferAction {
    /// Wait for the next piece.
    AwaitChunk,
    /// Ask the store what it holds.
    HeadObject,
    /// Store what was received.
    PutObject,
    /// Enter the crate in the search index.
    IndexDocument,
    /// Take the crate off the active downloads, and stop.
    Forget,
    /// Stop. The crate stays among the active downloads.
    Stop,
    /// Nothing: the event does not belong to the state.
    Ignore,
}

/// How often storing a crate is tried.
pub const UPLOAD_ATTEMPTS: u32 = 10;

/// What follows on `event` in `state`.
pub open spec fn next(state: TransferState, event: TransferEvent) -> (
    TransferState,
    TransferAction,
) {
    match (state, event) {
        // Whatever was received is passed on, also where the source broke off.
        (TransferState::Receiving, TransferEvent::Chunk) => (
            TransferState::Receiving,
            TransferAction::AwaitChunk,
        ),
        (TransferState::Receiving, TransferEvent::Broken) => (
            TransferState::Checking,
            TransferAction::HeadObject,
        ),
        (TransferState::Receiving, TransferEvent::Ended) => (
            TransferState::Checking,
            TransferAction::HeadObject,
        ),
        (TransferState::Checking, TransferEvent::Head { stored: true }) => (
            TransferState::Done,
            TransferAction::Stop,
        ),
        (TransferState::Checking, TransferEvent::Head { stored: false }) => (
            TransferState::Uploading { attempts_left: UPLOAD_ATTEMPTS },
            TransferAction::PutObject,
        ),
        (TransferState::Uploading { .. }, TransferEvent::Put { ok: true }) => (
            TransferState::Indexing,
            TransferAction::IndexDocument,
        ),
        (TransferState::Uploading { attempts_left }, TransferEvent::Put { ok: false }) => {
            if attempts_left > 1 {
                (
                    TransferState::Uploading { attempts_left: (attempts_left - 1) as u32 },
                    TransferAction::PutObject,
                )
            } else {
                (TransferState::Done, TransferAction::Stop)
            }
        },
        (TransferState::Indexing, TransferEvent::Indexed) => (
            TransferState::Done,
            TransferAction::Forget,
        ),
        _ => (state, TransferAction::Ignore),
    }
}

impl TransferState {
    /// Goes on from `event`: the action that is to follow.
    pub fn step(&mut self, event: TransferEvent) -> (action: TransferAction)
        ensures
            (*final(self), action) == next(*old(self), event),
    {
        let (state, action) = match (*self, event) {
            (TransferState::Receiving, TransferEvent::Chunk) => (
                TransferState::Receiving,
                TransferAction::AwaitChunk,
            ),
            (TransferState::Receiving, TransferEvent::Broken | TransferEvent::Ended) => (
                TransferState::Checking,
                TransferAction::HeadObject,
            ),
            (TransferState::Checking, TransferEvent::Head { stored }) => {
                if stored {
                    (TransferState::Done, TransferAction::Stop)
                } else {
                    (
                        TransferState::Uploading { attempts_left: UPLOAD_ATTEMPTS },
                        TransferAction::PutObject,
                    )
                }
            },
            (TransferState::Uploading { attempts_left }, TransferEvent::Put { ok }) => {
                if ok {
                    (TransferState::Indexing, TransferAction::IndexDocument)
                } else if attempts_left > 1 {
                    (
                        TransferState::Uploading { attempts_left: attempts_left - 1 },
                        TransferAction::PutObject,
                    )
                } else {
                    (TransferState::Done, TransferAction::Stop)
                }
            },
            (TransferState::Indexing, TransferEvent::Indexed) => (
                TransferState::Done,
                TransferAction::Forget,
            ),
            (state, _) => (state, TransferAction::Ignore),
        };
        *self = state;
        action
    }
}

/// The state that `events` lead to from `state`.
pub open spec fn state_after(state: TransferState, events: Seq<TransferEvent>) -> TransferState
    decreases events.len(),
{
    if events.len() == 0 {
        state
    } else {
        next(state_after(state, events.drop_last()), events.last()).0
    }
}

/// The actions that follow on `events` from `state`, one on each.
pub open spec fn actions(state: TransferState, events: Seq<TransferEvent>) -> Seq<TransferAction>
    decreases events.len(),
{
    if events.len() == 0 {
        Seq::empty()
    } else {
        actions(state, events.drop_last()).push(
            next(state_after(state, events.drop_last()), events.last()).1,
        )
    }
}

/// How often `action` occurs in `actions`.
pub open spec fn occurrences(actions: Seq<TransferAction>, action: TransferAction) -> nat
    decreases actions.len(),
{
    if actions.len() == 0 {
        0
    } else {
        occurrences(actions.drop_last(), action) + if actions.last() == action {
            1nat
        } else {
            0nat
        }
    }
}

/// How many attempts a state shows to have been made.
spec fn attempts_made(state: TransferState) -> int {
    match state {
        TransferState::Receiving => 0,
        TransferState::Checking => 0,
        TransferState::Uploading { attempts_left } => UPLOAD_ATTEMPTS + 1 - attempts_left,
        TransferState::Indexing => 0,
        TransferState::Done => 0,
    }
}

/// What holds of every transfer from its start.
proof fn lemma_transfer(events: Seq<TransferEvent>)
    ensures
        ({
            let state = state_after(TransferState::Receiving, events);
            let done = actions(TransferState::Receiving, events);
            let puts = occurrences(done, TransferAction::PutObject);
            let indexed = occurrences(done, TransferAction::IndexDocument);
            let forgotten = occurrences(done, TransferAction::Forget);
            let stopped = occurrences(done, TransferAction::Stop);
            &&& done.len() == events.len()
            &&& indexed > 0 ==> events.contains(TransferEvent::Put { ok: true })
            &&& match state {
                TransferState::Receiving | TransferState::Checking => puts == 0 && indexed == 0
                    && forgotten == 0 && stopped == 0,
                TransferState::Uploading { attempts_left } => 1 <= attempts_left
                    <= UPLOAD_ATTEMPTS && puts == attempts_made(state) && indexed == 0 && forgotten
                    == 0 && stopped == 0,
                TransferState::Indexing => 1 <= puts <= UPLOAD_ATTEMPTS && indexed == 1 && forgotten
                    == 0 && stopped == 0,
                TransferState::Done => puts <= UPLOAD_ATTEMPTS && indexed == forgotten && forgotten
                    + stopped == 1 && (indexed == 1 ==> puts >= 1),
            }
        }),
    decreases events.len(),
{
    if events.len() > 0 {
        lemma_transfer(events.drop_last());
        let before = actions(TransferState::Receiving, events.drop_last());
        let done = actions(TransferState::Receiving, events);
        assert(done.drop_last() =~= before);
        if events.drop_last().contains(TransferEvent::Put { ok: true }) {
            let i = events.drop_last().index_of(TransferEvent::Put { ok: true });
            assert(events[i] == TransferEvent::Put { ok: true });
        }
        assert(events[events.len() - 1] == events.last());
    }
}

/// Storing a crate is tried at most ten times, whatever happens.
pub proof fn law_at_most_ten_attempts(events: Seq<TransferEvent>)
    ensures
        occurrences(
            actions(TransferState::Receiving, events),
            TransferAction::PutObject,
        ) <= 10,
{
    lemma_transfer(events);
}

/// A crate is entered in the search index at most once, and only after the
/// store took it. It is taken off the active downloads only after it was
/// entered there, and a transfer ends in one way only: by that or by stopping.
pub proof fn law_indexed_before_forgotten(events: Seq<TransferEvent>)
    ensures
        ({
            let done = actions(TransferState::Receiving, events);
            let indexed = occurrences(done, TransferAction::IndexDocument);
            let forgotten = occurrences(done, TransferAction::Forget);
            let stopped = occurrences(done, TransferAction::Stop);
            &&& indexed <= 1
            &&& indexed == 1 ==> occurrences(done, TransferAction::PutObject) >= 1
                && events.contains(TransferEvent::Put { ok: true })
            &&& forgotten <= indexed
            &&& forgotten + stopped <= 1
            &&& forgotten + stopped == 1 <==> state_after(TransferState::Receiving, events)
                == TransferState::Done
        }),
{
    lemma_transfer(events);
}

/// Once receiving has ended, with the end of the crate or with an error, no
/// event leads back to it.
pub proof fn law_receiving_is_never_resumed(state: TransferState, events: Seq<TransferEvent>)
    requires
        state != TransferState::Receiving || events.contains(TransferEvent::Broken)
            || events.contains(TransferEvent::Ended),
    ensures
        state_after(state, events) != TransferState::Receiving,
    decreases events.len(),
{
    if events.len() > 0 {
        let before = events.drop_last();
        if events.last() != TransferEvent::Broken && events.last() != TransferEvent::Ended {
            assert(events =~= before.push(events.last()));
            assert(events.contains(TransferEvent::Broken) ==> before.contains(
                TransferEvent::Broken,
            ));
            assert(events.contains(TransferEvent::Ended) ==> before.contains(
                TransferEvent::Ended,
            ));
            law_receiving_is_never_resumed(state, before);
        }
    }
}

/// As long as the answer of the search index has not been reported, a crate
/// that was entered there stays among the active downloads.
pub proof fn law_active_until_the_index_answered(events: Seq<TransferEvent>)
    requires
        !events.contains(TransferEvent::Indexed),
    ensures
        occurrences(actions(TransferState::Receiving, events), TransferAction::Forget) == 0,
    decreases events.len(),
{
    if events.len() > 0 {
        let before = events.drop_last();
        assert(events.last() == events[events.len() - 1]);
        assert(!before.contains(TransferEvent::Indexed)) by {
            if before.contains(TransferEvent::Indexed) {
                let i = before.index_of(TransferEvent::Indexed);
                assert(events[i] == TransferEvent::Indexed);
            }
        }
        law_active_until_the_index_answered(before);
        let done = actions(TransferState::Receiving, events);
        assert(done.drop_last() =~= actions(TransferState::Receiving, before));
    }
}

/// The answers of a store that refuses `refusals` times in a row.
pub open spec fn refusals(refusals: nat) -> Seq<TransferEvent> {
    Seq::new(refusals, |i: int| TransferEvent::Put { ok: false })
}

/// Refusals are met with further attempts, as long as any are left.
proof fn lemma_refusals(n: nat)
    requires
        n < UPLOAD_ATTEMPTS,
    ensures
        ({
            let events = seq![TransferEvent::Head { stored: false }] + refusals(n);
            &&& state_after(TransferState::Checking, events) == (TransferState::Uploading {
                attempts_left: (UPLOAD_ATTEMPTS - n) as u32,
            })
            &&& actions(TransferState::Checking, events) == Seq::new(
                n + 1,
                |i: int| TransferAction::PutObject,
            )
        }),
    decreases n,
{
    let events = seq![TransferEvent::Head { stored: false }] + refusals(n);
    if n == 0 {
        assert(events.drop_last() =~= Seq::<TransferEvent>::empty());
        assert(actions(TransferState::Checking, events.drop_last()) =~= Seq::<
            TransferAction,
        >::empty());
        assert(actions(TransferState::Checking, events) =~= Seq::new(
            n + 1,
            |i: int| TransferAction::PutObject,
        ));
    } else {
        let before = seq![TransferEvent::Head { stored: false }] + refusals((n - 1) as nat);
        assert(events.drop_last() =~= before);
        lemma_refusals((n - 1) as nat);
        assert(actions(TransferState::Checking, events) =~= Seq::new(
            n + 1,
            |i: int| TransferAction::PutObject,
        ));
    }
}

/// A crate that the store takes after fewer than ten refusals is entered in
/// the search index and taken off the active downloads.
pub proof fn law_stored_after_refusals(n: nat)
    requires
        n < 10,
    ensures
        ({
            let events = seq![TransferEvent::Head { stored: false }] + refusals(n)
                + seq![TransferEvent::Put { ok: true }, TransferEvent::Indexed];
            &&& state_after(TransferState::Checking, events) == TransferState::Done
            &&& actions(TransferState::Checking, events) == Seq::new(
                n + 1,
                |i: int| TransferAction::PutObject,
            ) + seq![TransferAction::IndexDocument, TransferAction::Forget]
        }),
{
    lemma_refusals(n);
    let refused = seq![TransferEvent::Head { stored: false }] + refusals(n);
    let taken = refused + seq![TransferEvent::Put { ok: true }];
    let events = refused + seq![TransferEvent::Put { ok: true }, TransferEvent::Indexed];
    assert(taken.drop_last() =~= refused);
    assert(taken.last() == TransferEvent::Put { ok: true });
    assert(state_after(TransferState::Checking, taken) == TransferState::Indexing);
    assert(actions(TransferState::Checking, taken) == actions(TransferState::Checking, refused).push(
        TransferAction::IndexDocument,
    ));
    assert(events.drop_last() =~= taken);
    assert(events.last() == TransferEvent::Indexed);
    assert(actions(TransferState::Checking, events) =~= Seq::new(
        n + 1,
        |i: int| TransferAction::PutObject,
    ) + seq![TransferAction::IndexDocument, TransferAction::Forget]);
}

/// A crate that the store refuses ten times is given up: it is not indexed and
/// stays among the active downloads.
pub proof fn law_given_up_after_ten_refusals()
    ensures
        ({
            let events = seq![TransferEvent::Head { stored: false }] + refusals(10);
            &&& state_after(TransferState::Checking, events) == TransferState::Done
            &&& actions(TransferState::Checking, events) == Seq::new(
                10,
                |i: int| TransferAction::PutObject,
            ) + seq![TransferAction::Stop]
        }),
{
    lemma_refusals(9);
    let before = seq![TransferEvent::Head { stored: false }] + refusals(9);
    let events = seq![TransferEvent::Head { stored: false }] + refusals(10);
    assert(events.drop_last() =~= before);
    assert(actions(TransferState::Checking, events) =~= Seq::new(
        10,
        |i: int| TransferAction::PutObject,
    ) + seq![TransferAction::Stop]);
}

/// A crate that the store holds already is neither stored nor indexed again,
/// and stays among the active downloads.
pub proof fn law_stored_content_is_left_alone(events: Seq<TransferEvent>)
    ensures
        ({
            let all = seq![TransferEvent::Head { stored: true }] + events;
            let done = actions(TransferState::Checking, all);
            &&& state_after(TransferState::Checking, all) == TransferState::Done
            &&& occurrences(done, TransferAction::PutObject) == 0
            &&& occurrences(done, TransferAction::IndexDocument) == 0
            &&& occurrences(done, TransferAction::Forget) == 0
        }),
    decreases events.len(),
{
    let all = seq![TransferEvent::Head { stored: true }] + events;
    let done = actions(TransferState::Checking, all);
    if events.len() == 0 {
        assert(all.drop_last() =~= Seq::<TransferEvent>::empty());
        assert(all.last() == TransferEvent::Head { stored: true });
        assert(state_after(TransferState::Checking, all.drop_last()) == TransferState::Checking);
        assert(actions(TransferState::Checking, all.drop_last()) =~= Seq::empty());
        assert(done.last() == TransferAction::Stop);
        assert(done.drop_last() =~= Seq::<TransferAction>::empty());
        reveal_with_fuel(occurrences, 2);
    } else {
        law_stored_content_is_left_alone(events.drop_last());
        assert(all.drop_last() =~= seq![TransferEvent::Head { stored: true }]
            + events.drop_last());
        assert(done.drop_last() =~= actions(TransferState::Checking, all.drop_last()));
    }
}

} // verus!

//! The event loop's decision core: a two-state machine (running or
//! terminated) driven purely by classified input events.  Each iteration
//! draws one frame, blocks for the next event, and either keeps running or
//! terminates; in the current build any key event terminates the session
//! and every other event keeps it running.

use vstd::prelude::*;

verus! {

/// An input event, classified as far as the state machine cares: a key
/// press, or anything else (resize, mouse, focus, ...).
#[derive(Clone, Copy, Debug, PartialEq, Eq, Structural)]
pub enum EventKind {
    Key,
    Other,
}

/// The loop's state.
#[derive(Clone, Copy, Debug, PartialEq, Eq, Structural)]
pub enum LoopState {
    Running,
    Terminated,
}

/// What one session did: how many frames it drew, and whether it
/// terminated or is still blocked waiting for input.
#[derive(Clone, Copy, Debug, PartialEq, Eq, Structural)]
pub struct SessionOutcome {
    pub frames: usize,
    pub terminated: bool,
}

/// The single transition: a key event terminates the loop, any other
/// event keeps it running.
pub fn handle_event(e: &EventKind) -> (r: LoopState)
    ensures
        r == (if e is Key {
            LoopState::Terminated
        } else {
            LoopState::Running
        }),
{
    match e {
        EventKind::Key => LoopState::Terminated,
        EventKind::Other => LoopState::Running,
    }
}

/// Whether the script contains any key event.
pub open spec fn has_key(s: Seq<EventKind>) -> bool {
    exists|i: int| 0 <= i < s.len() && s[i] is Key
}

/// Index of the first key event of the script (meaningful only when one
/// exists).
pub open spec fn first_key_index(s: Seq<EventKind>) -> int
    decreases s.len(),
{
    if s.len() == 0 {
        0
    } else if s[0] is Key {
        0
    } else {
        1 + first_key_index(s.skip(1))
    }
}

/// If the first `i` events are not keys and event `i` is, then `i` is the
/// first key index.
proof fn lemma_first_key_index(s: Seq<EventKind>, i: int)
    requires
        0 <= i < s.len(),
        forall|j: int| 0 <= j < i ==> !(#[trigger] s[j] is Key),
        s[i] is Key,
    ensures
        first_key_index(s) == i,
    decreases i,
{
    if i == 0 {
    } else {
        assert(!(s[0] is Key));
        lemma_first_key_index(s.skip(1), i - 1);
    }
}

/// Run one session against a scripted event sequence.  A frame is drawn
/// before each event is read, so the session draws exactly one more frame
/// than the number of events it consumes: it terminates right after
/// consuming the first key event, having drawn `first_key_index + 1`
/// frames; a script with no key event leaves the loop running (blocked on
/// input) after `len + 1` frames.
pub fn simulate(events: &Vec<EventKind>) -> (r: SessionOutcome)
    requires
        events@.len() < usize::MAX,
    ensures
        r.terminated == has_key(events@),
        has_key(events@) ==> r.frames == first_key_index(events@) + 1,
        !has_key(events@) ==> r.frames == events@.len() + 1,
{
    let mut frames: usize = 0;
    let mut i: usize = 0;
    loop
        invariant
            i <= events@.len(),
            events@.len() < usize::MAX,
            frames == i,
            forall|j: int| 0 <= j < i ==> !(#[trigger] events@[j] is Key),
        decreases events@.len() - i,
    {
        frames += 1;
        if i >= events.len() {
            proof {
                assert(!has_key(events@));
            }
            return SessionOutcome { frames, terminated: false };
        }
        let e = &events[i];
        i += 1;
        if matches!(handle_event(e), LoopState::Terminated) {
            proof {
                lemma_first_key_index(events@, i - 1);
            }
            return SessionOutcome { frames, terminated: true };
        }
    }
}

} // verus!

//! The animation frame machine.
//!
//! The stored index runs over `0..=FRAME_COUNT`: on each qualifying tick the
//! frame to show is the stored index, except that a stored index that has
//! reached `FRAME_COUNT` wraps to 0 first; the stored index then advances by
//! one. The wrap-on-read is deliberate: the stored index briefly holds
//! `FRAME_COUNT` for one qualifying tick, and the shown frames repeat
//! `0, 1, .., FRAME_COUNT - 1` forever.

use vstd::prelude::*;

verus! {

/// Number of icon frames per color variant.
pub const FRAME_COUNT: usize = 5;

/// The frame shown on a qualifying tick whose stored index is `i`: `i`
/// itself, or 0 if `i` has reached the frame count.
pub open spec fn shown_frame(i: nat) -> nat {
    if i >= FRAME_COUNT {
        0
    } else {
        i
    }
}

/// The stored index after a qualifying tick: one past the frame just shown.
pub open spec fn next_index(i: nat) -> nat {
    shown_frame(i) + 1
}

/// The stored index after `k` qualifying ticks, starting from `i`.
pub open spec fn index_after(i: nat, k: nat) -> nat
    decreases k,
{
    if k == 0 {
        i
    } else {
        next_index(index_after(i, (k - 1) as nat))
    }
}

/// Starting from index 0, the first `FRAME_COUNT` qualifying ticks show
/// frames `0, 1, .., FRAME_COUNT - 1` in order, and the tick after them —
/// the `FRAME_COUNT + 1`-st, one extra tick consumed by the wrap check —
/// shows frame 0 again.
pub proof fn lemma_frame_cycle()
    ensures
        forall|k: nat| k < FRAME_COUNT ==> #[trigger] shown_frame(index_after(0, k)) == k,
        index_after(0, FRAME_COUNT as nat) == FRAME_COUNT,
        shown_frame(index_after(0, FRAME_COUNT as nat)) == 0,
{
    reveal_with_fuel(index_after, 7);
    assert forall|k: nat| k < FRAME_COUNT implies #[trigger] shown_frame(index_after(0, k))
        == k by {
        reveal_with_fuel(index_after, 7);
        assert(index_after(0, 0) == 0);
        assert(index_after(0, 1) == 1);
        assert(index_after(0, 2) == 2);
        assert(index_after(0, 3) == 3);
        assert(index_after(0, 4) == 4);
    }
    assert(index_after(0, 5) == 5);
}

/// The shown frames are periodic: from any tick after the first, the machine
/// started at index 0 repeats its stored index every `FRAME_COUNT` qualifying
/// ticks.
pub proof fn lemma_frame_period(k: nat)
    requires
        k >= 1,
    ensures
        index_after(0, k + FRAME_COUNT as nat) == index_after(0, k),
    decreases k,
{
    if k == 1 {
        reveal_with_fuel(index_after, 7);
        assert(index_after(0, 6) == 1);
    } else {
        lemma_frame_period((k - 1) as nat);
        assert(index_after(0, k + FRAME_COUNT as nat) == next_index(
            index_after(0, (k - 1) as nat + FRAME_COUNT as nat),
        ));
    }
}

/// Wraps the stored index and returns the frame to show on this qualifying
/// tick; `state_index` holds the advanced index afterwards.
pub fn advance(state_index: &mut usize) -> (shown: usize)
    requires
        *old(state_index) <= FRAME_COUNT,
    ensures
        shown == shown_frame(*old(state_index) as nat),
        *final(state_index) == next_index(*old(state_index) as nat),
        shown < FRAME_COUNT,
        *final(state_index) <= FRAME_COUNT,
{
    if *state_index >= FRAME_COUNT {
        *state_index = 0;
    }
    let shown = *state_index;
    *state_index = shown + 1;
    shown
}

} // verus!

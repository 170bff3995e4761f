//! Frame-based sprite animation: which frame comes next.

use vstd::prelude::*;

verus! {

/// The animated sprites of the game.
#[derive(Clone, Copy, Debug, PartialEq, Eq, Hash, Structural)]
pub enum SpriteAnimationKind {
    WolfWalk,
    SpiderWalk,
    ShadowCrawlerWalk,
    Campfire,
}

/// The frame after `current` in an animation of `len` frames: looping
/// animations wrap to the first frame, the others stop on the last.
pub open spec fn spec_next_frame(current: nat, len: nat, looping: bool) -> nat {
    if current + 1 >= len {
        if looping { 0 } else { (len - 1) as nat }
    } else {
        current + 1
    }
}

/// Advances an animation by one frame.
pub fn next_frame(current: usize, len: usize, looping: bool) -> (f: usize)
    requires
        len >= 1,
    ensures
        f == spec_next_frame(current as nat, len as nat, looping),
        f < len,
{
    if current >= len - 1 {
        if looping { 0 } else { len - 1 }
    } else {
        current + 1
    }
}

/// The frame shown after `k` frame steps from the first frame.
pub open spec fn frame_after(k: nat, len: nat, looping: bool) -> nat
    decreases k,
{
    if k == 0 { 0 } else { spec_next_frame(frame_after((k - 1) as nat, len, looping), len, looping) }
}

/// A looping animation shows its frames in order, over and over: after `k`
/// steps it is on frame `k mod len`. One that does not loop walks to its
/// last frame and stays there.
pub proof fn law_frame_sequence(k: nat, len: nat)
    requires
        len >= 1,
    ensures
        frame_after(k, len, true) == k % len,
        frame_after(k, len, false) == if k < len { k } else { (len - 1) as nat },
    decreases k,
{
    if k > 0 {
        law_frame_sequence((k - 1) as nat, len);
        let p = (k - 1) as nat;
        assert(p % len < len) by (nonlinear_arith) requires len >= 1;
        if p % len + 1 >= len {
            assert(k % len == 0) by (nonlinear_arith)
                requires p % len + 1 >= len, p % len < len, k == p + 1, len >= 1;
        } else {
            assert(k % len == p % len + 1) by (nonlinear_arith)
                requires p % len + 1 < len, k == p + 1, len >= 1;
        }
    }
}

} // verus!

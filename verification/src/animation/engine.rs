//! How an animation waits for its turn, renders its frames and comes to its end.

use vstd::prelude::*;

use crate::animation::manager;
use crate::animation::manager::AnimationManager;
use crate::animation::manager::Claims;

verus! {

/// How long, in milliseconds, the end of all animations is waited for.
pub const MAX_WAIT_MS: u64 = 20000;

/// How long, in milliseconds, the end of a movement is waited for at a time.
pub const MOVEMENT_WAIT_MS: u64 = 10;

/// For how long, in milliseconds, one that renders keeps the slot at least.
pub const MIN_BUDGET_MS: u64 = 1000;

/// For how many times its duration one that renders keeps the slot.
pub const BUDGET_FACTOR: u64 = 4;

/// How often the end of a movement is waited for.
pub const MAX_MOVEMENT_WAITS: u32 = 2000;

/// What comes of waiting for the slot.
#[derive(Clone, Copy, Debug, PartialEq, Eq, Structural)]
pub enum WaitOutcome {
    /// The slot is taken, and rendering may start.
    Started,
    /// The slot is busy: wait until another animation lets go.
    Pending,
    /// A newer animation has been claimed, and may even be over: give up.
    Superseded,
}

/// What comes next in an animation that renders.
#[derive(Clone, Copy, Debug, PartialEq, Eq, Structural)]
pub enum FrameOutcome {
    /// Render the next frame.
    Render,
    /// A newer animation has been claimed, but the slot is still the own one: bring the
    /// window into a consistent state, and let go.
    CleanUp,
    /// The slot has been taken away: leave the window alone, and discard only what is the
    /// own one.
    Abandon,
}

#[derive(Clone, Copy, Debug, PartialEq, Eq, Structural)]
pub struct AnimationEngine {}

/// For how long an animation of a duration may render before it loses the slot: some times
/// its duration, and not less than a minimum.
pub open spec fn takeover_budget_of(duration_ms: int) -> int {
    if duration_ms * BUDGET_FACTOR < MIN_BUDGET_MS {
        MIN_BUDGET_MS as int
    } else if duration_ms * BUDGET_FACTOR > u64::MAX {
        u64::MAX as int
    } else {
        duration_ms * BUDGET_FACTOR
    }
}

/// What comes of waiting for the slot.
pub open spec fn wait_outcome(
    claims: Claims,
    key: Seq<char>,
    seq: u64,
    budget_ms: u64,
    now_ms: u64,
) -> WaitOutcome {
    let freed = manager::taken_over(claims, key, budget_ms, now_ms);
    if !manager::is_claimed(claims, key) || manager::newest(claims, key) != seq {
        WaitOutcome::Superseded
    } else if manager::may_start(freed, key, seq) {
        WaitOutcome::Started
    } else {
        WaitOutcome::Pending
    }
}

/// What comes next in an animation that renders.
pub open spec fn frame_outcome(
    claims: Claims,
    key: Seq<char>,
    seq: u64,
) -> FrameOutcome {
    if manager::leads(claims, key, seq) {
        FrameOutcome::Render
    } else if manager::owns(claims, key, seq) {
        FrameOutcome::CleanUp
    } else {
        FrameOutcome::Abandon
    }
}

impl AnimationEngine {
    /// Try to get the slot. One that renders for too long loses it to the newest claim.
    pub fn wait(
        manager: &mut AnimationManager,
        animation_key: &str,
        seq: u64,
        budget_ms: u64,
        now_ms: u64,
    ) -> (r: WaitOutcome)
        requires
            old(manager).wf(),
        ensures
            final(manager).wf(),
            r == wait_outcome(old(manager)@, animation_key@, seq, budget_ms, now_ms),
            final(manager)@ == (match r {
                WaitOutcome::Superseded => old(manager)@,
                _ => manager::started(
                    manager::taken_over(old(manager)@, animation_key@, budget_ms, now_ms),
                    animation_key@,
                    seq,
                    now_ms,
                ),
            }),
    {
        let is_latest = match manager.latest_claim(animation_key) {
            Some(latest) => latest == seq,
            None => false,
        };
        if !is_latest {
            return WaitOutcome::Superseded;
        }
        let _ = manager.takeover_if_stale(animation_key, budget_ms, now_ms);
        if manager.try_start(animation_key, seq, now_ms) {
            WaitOutcome::Started
        } else {
            WaitOutcome::Pending
        }
    }

    /// For how long, in milliseconds, an animation of a duration may render before it loses
    /// the slot to the newest claim.
    pub fn takeover_budget(duration_ms: u64) -> (r: u64)
        ensures
            r == takeover_budget_of(duration_ms as int),
    {
        let budget_ms: u64 = if duration_ms > u64::MAX / BUDGET_FACTOR {
            u64::MAX
        } else {
            duration_ms * BUDGET_FACTOR
        };
        if budget_ms < MIN_BUDGET_MS {
            MIN_BUDGET_MS
        } else {
            budget_ms
        }
    }

    /// Decide what comes before each frame.
    pub fn next_frame(manager: &AnimationManager, animation_key: &str, seq: u64) -> (r: FrameOutcome)
        requires
            manager.wf(),
        ensures
            r == frame_outcome(manager@, animation_key@, seq),
    {
        if manager.is_current(animation_key, seq) {
            FrameOutcome::Render
        } else if manager.is_owner(animation_key, seq) {
            FrameOutcome::CleanUp
        } else {
            FrameOutcome::Abandon
        }
    }

    /// How long a frame lasts, in milliseconds.
    pub fn frame_time(fps: u64) -> (r: u64)
        requires
            fps > 0,
        ensures
            r == 1000int / fps as int,
    {
        1000 / fps
    }

    /// How long, in milliseconds, to wait after a frame until the next one is due.
    pub fn wait_after_frame(frame_time_ms: u64, elapsed_ms: u64) -> (r: u64)
        ensures
            r == (if elapsed_ms < frame_time_ms {
                frame_time_ms - elapsed_ms
            } else {
                0
            }),
    {
        if elapsed_ms < frame_time_ms {
            frame_time_ms - elapsed_ms
        } else {
            0
        }
    }

    /// Whether another frame is rendered after one that was rendered some time after the
    /// start.
    pub fn has_next_frame(elapsed_ms: u64, duration_ms: u64) -> (r: bool)
        ensures
            r == (elapsed_ms < duration_ms),
    {
        elapsed_ms < duration_ms
    }

    /// Whether the final position is still to be rendered once the time is over: the last
    /// frame hardly ever falls on the end.
    pub fn needs_final_frame(elapsed_ms: u64, duration_ms: u64) -> (r: bool)
        ensures
            r == (elapsed_ms != duration_ms || duration_ms == 0),
    {
        elapsed_ms != duration_ms || duration_ms == 0
    }

    /// Whether to go on waiting until no more movements are in progress than before.
    pub fn waits_for_movement(in_progress: usize, before: usize, waits: u32) -> (r: bool)
        ensures
            r == (in_progress > before && waits < MAX_MOVEMENT_WAITS),
    {
        in_progress > before && waits < MAX_MOVEMENT_WAITS
    }

    /// Whether to go on waiting for the end of all claims.
    pub fn keeps_waiting(count: usize, spent_ms: u64) -> (r: bool)
        ensures
            r == (count > 0 && spent_ms < MAX_WAIT_MS),
    {
        count > 0 && spent_ms < MAX_WAIT_MS
    }
}

/// An animation that is told to start leads, and is told to render its first frame.
pub proof fn started_animations_render(
    claims: Claims,
    key: Seq<char>,
    seq: u64,
    budget_ms: u64,
    now_ms: u64,
)
    requires
        wait_outcome(claims, key, seq, budget_ms, now_ms) == WaitOutcome::Started,
    ensures
        frame_outcome(
            manager::started(
                manager::taken_over(claims, key, budget_ms, now_ms),
                key,
                seq,
                now_ms,
            ),
            key,
            seq,
        ) == FrameOutcome::Render,
{
}

/// An animation that renders is told to clean up once a newer one is claimed, and to leave
/// the window alone once that one has taken its slot.
pub proof fn superseded_animations_stop(
    claims: Claims,
    key: Seq<char>,
    seq: u64,
    budget_ms: u64,
    now_ms: u64,
)
    requires
        manager::leads(claims, key, seq),
        seq < u64::MAX,
    ensures
        ({
            let newer = (seq + 1) as u64;
            let claimed = manager::requested(claims, key);
            &&& frame_outcome(claimed, key, seq) == FrameOutcome::CleanUp
            &&& manager::is_stale(claimed, key, budget_ms, now_ms) ==> {
                &&& wait_outcome(claimed, key, newer, budget_ms, now_ms) == WaitOutcome::Started
                &&& frame_outcome(
                    manager::started(
                        manager::taken_over(claimed, key, budget_ms, now_ms),
                        key,
                        newer,
                        now_ms,
                    ),
                    key,
                    seq,
                ) == FrameOutcome::Abandon
            }
        }),
{
}

/// A claim never waits for ever for one that is stuck: once the one that renders has
/// exceeded its budget, the newest claim gets the slot.
pub proof fn stuck_animations_are_replaced(
    claims: Claims,
    key: Seq<char>,
    duration_ms: u64,
    now_ms: u64,
)
    requires
        manager::valid(claims),
        manager::state_of(claims, key).in_progress,
        manager::state_of(claims, key).phase == manager::AnimationPhase::Running,
        now_ms - manager::state_of(claims, key).started_at->0 > takeover_budget_of(
            duration_ms as int,
        ),
    ensures
        wait_outcome(
            claims,
            key,
            manager::newest(claims, key),
            takeover_budget_of(duration_ms as int) as u64,
            now_ms,
        ) == WaitOutcome::Started,
{
}

/// An animation never gets the slot while another one renders in time or has rendered its
/// last frame.
pub proof fn busy_slots_are_left_alone(
    claims: Claims,
    key: Seq<char>,
    owner: u64,
    seq: u64,
    budget_ms: u64,
    now_ms: u64,
)
    requires
        manager::owns(claims, key, owner),
        !manager::is_stale(claims, key, budget_ms, now_ms),
    ensures
        wait_outcome(claims, key, seq, budget_ms, now_ms) != WaitOutcome::Started,
{
}

} // verus!

//! The pet's animations: for each state a row of the spritesheet played
//! frame by frame, each frame shown for its own duration, looping.
use vstd::prelude::*;

use crate::pets::protocol::PetState;

verus! {

/// One frame of an animation: the cell of the spritesheet and how long it
/// is shown.
#[derive(Debug, Clone, Copy, PartialEq, Eq, Structural)]
pub struct Frame {
    pub row: u32,
    pub col: u32,
    pub duration_ms: u64,
}

/// A row of `n` frames in spritesheet row `row`, columns `0..n`, each shown
/// `duration_ms` except the last, shown `last_duration_ms`.
pub open spec fn frames_row_spec(row: u32, duration_ms: u64, last_duration_ms: u64, n: nat) -> Seq<
    Frame,
> {
    Seq::new(
        n,
        |i: int|
            Frame {
                row,
                col: i as u32,
                duration_ms: if i == n - 1 {
                    last_duration_ms
                } else {
                    duration_ms
                },
            },
    )
}

/// The idle animation: row 0, six frames with a long first and last pose.
pub open spec fn idle_frames() -> Seq<Frame> {
    seq![
        Frame { row: 0, col: 0, duration_ms: 280 },
        Frame { row: 0, col: 1, duration_ms: 110 },
        Frame { row: 0, col: 2, duration_ms: 110 },
        Frame { row: 0, col: 3, duration_ms: 140 },
        Frame { row: 0, col: 4, duration_ms: 140 },
        Frame { row: 0, col: 5, duration_ms: 320 },
    ]
}

/// The frames played for each state.
pub open spec fn animation_frames(state: PetState) -> Seq<Frame> {
    match state {
        PetState::Idle => idle_frames(),
        PetState::Running => frames_row_spec(7, 120, 220, 6),
        PetState::Waiting => frames_row_spec(6, 150, 260, 6),
        PetState::Review => frames_row_spec(8, 150, 280, 6),
        PetState::Failed => frames_row_spec(5, 140, 240, 8),
    }
}

/// Total duration of `frames`, in milliseconds.
pub open spec fn total_duration(frames: Seq<Frame>) -> int
    decreases frames.len(),
{
    if frames.len() == 0 {
        0
    } else {
        frames[0].duration_ms + total_duration(frames.drop_first())
    }
}

/// The frame shown `t` milliseconds into `frames`: the first whose
/// duration has not run out yet, or the last when all have.
pub open spec fn frame_at(frames: Seq<Frame>, t: int) -> Frame
    decreases frames.len(),
{
    if frames.len() <= 1 || t < frames[0].duration_ms {
        frames[0]
    } else {
        frame_at(frames.drop_first(), t - frames[0].duration_ms)
    }
}

/// The frame shown `elapsed_ms` milliseconds after the animation of
/// `state` started: the animation loops, so time runs modulo its total
/// duration (at least one millisecond).
pub open spec fn current_frame_spec(state: PetState, elapsed_ms: u64) -> Frame {
    let frames = animation_frames(state);
    let total = total_duration(frames);
    frame_at(frames, (elapsed_ms as int) % (if total > 1 {
        total
    } else {
        1
    }))
}

/// A row of `n` frames, as [`frames_row_spec`] describes.
pub fn frames_row(row: u32, duration_ms: u64, last_duration_ms: u64, n: u32) -> (frames: Vec<Frame>)
    ensures
        frames@ == frames_row_spec(row, duration_ms, last_duration_ms, n as nat),
{
    let mut frames: Vec<Frame> = Vec::new();
    let mut idx: u32 = 0;
    while idx < n
        invariant
            idx <= n,
            frames@ == frames_row_spec(row, duration_ms, last_duration_ms, n as nat).take(
                idx as int,
            ),
        decreases n - idx,
    {
        frames.push(
            Frame {
                row,
                col: idx,
                duration_ms: if idx == n - 1 {
                    last_duration_ms
                } else {
                    duration_ms
                },
            },
        );
        idx = idx + 1;
    }
    assert(frames_row_spec(row, duration_ms, last_duration_ms, n as nat).take(n as int)
        == frames_row_spec(row, duration_ms, last_duration_ms, n as nat));
    frames
}

/// The frames played for `state`.
pub fn frames_for_state(state: PetState) -> (frames: Vec<Frame>)
    ensures
        frames@ == animation_frames(state),
{
    match state {
        PetState::Idle => {
            let v = vec![
                Frame { row: 0, col: 0, duration_ms: 280 },
                Frame { row: 0, col: 1, duration_ms: 110 },
                Frame { row: 0, col: 2, duration_ms: 110 },
                Frame { row: 0, col: 3, duration_ms: 140 },
                Frame { row: 0, col: 4, duration_ms: 140 },
                Frame { row: 0, col: 5, duration_ms: 320 },
            ];
            assert(v@ == idle_frames());
            v
        },
        PetState::Running => frames_row(7, 120, 220, 6),
        PetState::Waiting => frames_row(6, 150, 260, 6),
        PetState::Review => frames_row(8, 150, 280, 6),
        PetState::Failed => frames_row(5, 140, 240, 8),
    }
}

/// Every animation has a frame, its frames lie in rows 0 to 8 and columns
/// 0 to 7 of the spritesheet, and it lasts under four seconds.
pub proof fn lemma_animation_shape(state: PetState)
    ensures
        animation_frames(state).len() >= 1,
        forall|i: int|
            0 <= i < animation_frames(state).len() ==> #[trigger] animation_frames(state)[i].row
                <= 8 && animation_frames(state)[i].col <= 7,
        0 <= total_duration(animation_frames(state)) < 4000,
{
    let f = animation_frames(state);
    reveal_with_fuel(total_duration, 9);
    assert(f.drop_first().drop_first().drop_first().drop_first().drop_first().drop_first().len()
        <= 2);
    if f.len() == 8 {
        assert(f.drop_first().drop_first().drop_first().drop_first().drop_first().drop_first().drop_first().drop_first().len() == 0);
    } else {
        assert(f.drop_first().drop_first().drop_first().drop_first().drop_first().drop_first().len() == 0);
    }
}

/// The frame shown `t` milliseconds into `frames`.
fn frame_at_exec(frames: &Vec<Frame>, t: u64) -> (f: Frame)
    requires
        frames@.len() >= 1,
    ensures
        f == frame_at(frames@, t as int),
{
    let mut remaining: u64 = t;
    let mut i: usize = 0;
    assert(frames@.skip(0) == frames@);
    while i < frames.len() - 1 && remaining >= frames[i].duration_ms
        invariant
            frames@.len() >= 1,
            i < frames@.len(),
            frame_at(frames@, t as int) == frame_at(frames@.skip(i as int), remaining as int),
        decreases frames@.len() - i,
    {
        let ghost rest = frames@.skip(i as int);
        assert(rest.drop_first() == frames@.skip(i + 1));
        remaining = remaining - frames[i].duration_ms;
        i = i + 1;
    }
    assert(frames@.skip(i as int)[0] == frames@[i as int]);
    frames[i]
}

/// Total duration of `frames`; none of the animations lasts long enough to
/// overflow.
fn total_duration_exec(frames: &Vec<Frame>) -> (total: u64)
    requires
        total_duration(frames@) < 4000,
        forall|i: int| 0 <= i < frames@.len() ==> #[trigger] frames@[i].duration_ms >= 0,
    ensures
        total as int == total_duration(frames@),
{
    let mut total: u64 = 0;
    let mut i: usize = frames.len();
    while i > 0
        invariant
            i <= frames@.len(),
            total_duration(frames@) < 4000,
            total as int == total_duration(frames@.skip(i as int)),
        decreases i,
    {
        i = i - 1;
        proof {
            lemma_total_duration_suffix(frames@, i as int);
        }
        total = total + frames[i].duration_ms;
    }
    assert(frames@.skip(0) == frames@);
    total
}

/// A suffix of frames lasts no longer than all of them, and one more frame
/// in front adds its duration.
proof fn lemma_total_duration_suffix(frames: Seq<Frame>, i: int)
    requires
        0 <= i < frames.len(),
    ensures
        total_duration(frames.skip(i)) == frames[i].duration_ms + total_duration(frames.skip(i + 1)),
        total_duration(frames.skip(i)) <= total_duration(frames),
        total_duration(frames.skip(i + 1)) >= 0,
    decreases i,
{
    assert(frames.skip(i).drop_first() == frames.skip(i + 1));
    lemma_total_nonneg(frames.skip(i + 1));
    if i > 0 {
        assert(frames.drop_first().skip(i - 1) == frames.skip(i));
        assert(frames.drop_first()[i - 1] == frames[i]);
        assert(frames.drop_first().skip(i) == frames.skip(i + 1));
        lemma_total_duration_suffix(frames.drop_first(), i - 1);
    } else {
        assert(frames.skip(0) == frames);
    }
}

proof fn lemma_total_nonneg(frames: Seq<Frame>)
    ensures
        total_duration(frames) >= 0,
    decreases frames.len(),
{
    if frames.len() > 0 {
        lemma_total_nonneg(frames.drop_first());
    }
}

/// The frame of `state`'s animation shown `elapsed_ms` milliseconds after
/// it started.
pub fn current_frame(state: PetState, elapsed_ms: u64) -> (frame: Frame)
    ensures
        frame == current_frame_spec(state, elapsed_ms),
        frame.row <= 8,
        frame.col <= 7,
{
    let frames = frames_for_state(state);
    proof {
        lemma_animation_shape(state);
    }
    let total = total_duration_exec(&frames);
    let period: u64 = if total > 1 {
        total
    } else {
        1
    };
    let t: u64 = elapsed_ms % period;
    let f = frame_at_exec(&frames, t);
    proof {
        lemma_frame_at_member(frames@, t as int);
    }
    f
}

/// The frame shown is one of the frames.
pub proof fn lemma_frame_at_member(frames: Seq<Frame>, t: int)
    requires
        frames.len() >= 1,
    ensures
        exists|i: int| 0 <= i < frames.len() && frames[i] == frame_at(frames, t),
    decreases frames.len(),
{
    if frames.len() <= 1 || t < frames[0].duration_ms {
        assert(frames[0] == frame_at(frames, t));
    } else {
        lemma_frame_at_member(frames.drop_first(), t - frames[0].duration_ms);
        let i = choose|i: int|
            0 <= i < frames.drop_first().len() && frames.drop_first()[i] == frame_at(
                frames.drop_first(),
                t - frames[0].duration_ms,
            );
        assert(frames[i + 1] == frame_at(frames, t));
    }
}

/// The animation loops: a full cycle later the same frame is shown.
pub proof fn lemma_animation_loops(state: PetState, elapsed_ms: u64)
    requires
        elapsed_ms + total_duration(animation_frames(state)) <= u64::MAX,
    ensures
        current_frame_spec(state, elapsed_ms) == current_frame_spec(
            state,
            (elapsed_ms + total_duration(animation_frames(state))) as u64,
        ),
{
    let total = total_duration(animation_frames(state));
    lemma_animation_shape(state);
    if total > 1 {
        vstd::arithmetic::div_mod::lemma_mod_add_multiples_vanish(elapsed_ms as int, total);
    } else {
        assert((elapsed_ms as int) % 1 == 0);
        assert(((elapsed_ms + total) as int) % 1 == 0);
    }
}

} // verus!

use vstd::prelude::*;
use crate::params::{BOUND_X, BOUND_Y};
use crate::vec2::Vec2;

verus! {

/// One scheduled enemy: the frame at which it enters the arena, where it
/// appears, and the velocity it keeps for the rest of its life.
#[derive(Clone, Copy, PartialEq, Eq, Structural, Debug)]
pub struct SpawnEvent {
    pub frame: u64,
    pub pos: Vec2,
    pub vel: Vec2,
}

impl SpawnEvent {
    pub fn new(frame: u64, x: i64, y: i64, vx: i64, vy: i64) -> (r: SpawnEvent)
        ensures
            r == ev(frame, x, y, vx, vy),
    {
        SpawnEvent { frame, pos: Vec2 { x, y }, vel: Vec2 { x: vx, y: vy } }
    }
}

pub open spec fn ev(frame: u64, x: i64, y: i64, vx: i64, vy: i64) -> SpawnEvent {
    SpawnEvent { frame, pos: Vec2 { x, y }, vel: Vec2 { x: vx, y: vy } }
}

/// Trigger frames never decrease along the schedule.
pub open spec fn sorted_schedule(s: Seq<SpawnEvent>) -> bool {
    forall|i: int, j: int| 0 <= i <= j < s.len() ==> s[i].frame <= s[j].frame
}

/// Every trigger frame in `s` is at most `f`.
pub open spec fn frames_at_most(s: Seq<SpawnEvent>, f: u64) -> bool {
    forall|i: int| 0 <= i < s.len() ==> s[i].frame <= f
}

/// A row of enemies that all enter at frame `f` along the top edge, the
/// first at `x`, each following one `step` further.
pub open spec fn wave_row(f: u64, x: i64, step: i64, n: nat) -> Seq<SpawnEvent>
    decreases n,
{
    if n == 0 {
        Seq::empty()
    } else {
        seq![ev(f, x, BOUND_Y, 0i64, -10000i64)] + wave_row(
            f,
            sat_step(x, step),
            step,
            (n - 1) as nat,
        )
    }
}

/// Advance a wave coordinate by one step (the schedules stay far inside
/// `i64`, so the clamp never fires for them).
pub open spec fn sat_step(x: i64, step: i64) -> i64 {
    crate::vec2::sat_i64(x + step)
}

/// Push one wave of top-edge enemies, keeping the schedule sorted.
fn push_wave(v: &mut Vec<SpawnEvent>, f: u64, x: i64, step: i64, n: usize)
    requires
        -2000000 <= x - 30000 * (n as int),
        x + 30000 * (n as int) <= 2000000,
        -30000 <= step <= 30000,
        n <= 12,
        sorted_schedule(old(v)@),
        frames_at_most(old(v)@, f),
    ensures
        final(v)@ == old(v)@ + wave_row(f, x, step, n as nat),
        sorted_schedule(final(v)@),
        frames_at_most(final(v)@, f),
    decreases n,
{
    if n == 0 {
        assert(v@ =~= v@ + wave_row(f, x, step, 0));
    } else {
        let e = SpawnEvent::new(f, x, BOUND_Y, 0, -10000);
        let ghost pre = v@;
        v.push(e);
        assert(sorted_schedule(v@));
        assert(frames_at_most(v@, f));
        push_wave(v, f, x + step, step, n - 1);
        assert(sat_step(x, step) == x + step);
        assert(v@ =~= pre + wave_row(f, x, step, n as nat));
    }
}

/// The whole spawn table: four scouts from the right edge, then falling
/// rows that alternate between the left and right halves of the top edge,
/// and one slow closer.
pub open spec fn schedule_spec() -> Seq<SpawnEvent> {
    seq![
        ev(10u64, BOUND_X, 0i64, -10000i64, 0i64),
        ev(20u64, BOUND_X, 30000i64, -10000i64, 0i64),
        ev(30u64, BOUND_X, -30000i64, -10000i64, 0i64),
        ev(40u64, BOUND_X, 0i64, -10000i64, 0i64),
    ] + wave_row(50u64, -300000i64, 30000i64, 11) + wave_row(70u64, 300000i64, -30000i64, 11)
        + wave_row(90u64, -300000i64, 30000i64, 11) + wave_row(110u64, 300000i64, -30000i64, 11)
        + wave_row(120u64, -300000i64, 30000i64, 11) + wave_row(130u64, 300000i64, -30000i64, 11)
        + wave_row(140u64, -300000i64, 30000i64, 11) + wave_row(150u64, 300000i64, -30000i64, 11)
        + wave_row(200u64, -330000i64, 30000i64, 12) + wave_row(200u64, 330000i64, -30000i64, 12)
        + seq![ev(230u64, 0i64, BOUND_X, 0i64, -3000i64)]
}

/// Build the fixed spawn schedule shared by every session.
pub fn default_schedule() -> (r: Vec<SpawnEvent>)
    ensures
        r@ == schedule_spec(),
        sorted_schedule(r@),
        r@.len() == 117,
{
    let mut v: Vec<SpawnEvent> = Vec::new();
    v.push(SpawnEvent::new(10, BOUND_X, 0, -10000, 0));
    v.push(SpawnEvent::new(20, BOUND_X, 30000, -10000, 0));
    v.push(SpawnEvent::new(30, BOUND_X, -30000, -10000, 0));
    v.push(SpawnEvent::new(40, BOUND_X, 0, -10000, 0));
    assert(sorted_schedule(v@));
    assert(frames_at_most(v@, 50));
    push_wave(&mut v, 50, -300000, 30000, 11);
    assert(frames_at_most(v@, 70));
    push_wave(&mut v, 70, 300000, -30000, 11);
    assert(frames_at_most(v@, 90));
    push_wave(&mut v, 90, -300000, 30000, 11);
    assert(frames_at_most(v@, 110));
    push_wave(&mut v, 110, 300000, -30000, 11);
    assert(frames_at_most(v@, 120));
    push_wave(&mut v, 120, -300000, 30000, 11);
    assert(frames_at_most(v@, 130));
    push_wave(&mut v, 130, 300000, -30000, 11);
    assert(frames_at_most(v@, 140));
    push_wave(&mut v, 140, -300000, 30000, 11);
    assert(frames_at_most(v@, 150));
    push_wave(&mut v, 150, 300000, -30000, 11);
    assert(frames_at_most(v@, 200));
    push_wave(&mut v, 200, -330000, 30000, 12);
    assert(frames_at_most(v@, 200));
    push_wave(&mut v, 200, 330000, -30000, 12);
    assert(frames_at_most(v@, 230));
    let ghost pre = v@;
    v.push(SpawnEvent::new(230, 0, BOUND_X, 0, -3000));
    assert(sorted_schedule(v@));
    assert(v@ =~= schedule_spec());
    proof {
        lemma_schedule_len();
    }
    v
}

/// `wave_row` has exactly `n` entries.
pub proof fn lemma_wave_row_len(f: u64, x: i64, step: i64, n: nat)
    ensures
        wave_row(f, x, step, n).len() == n,
    decreases n,
{
    if n > 0 {
        lemma_wave_row_len(f, sat_step(x, step), step, (n - 1) as nat);
    }
}

proof fn lemma_schedule_len()
    ensures
        schedule_spec().len() == 117,
{
    assert forall|f: u64, x: i64, step: i64, n: nat| wave_row(f, x, step, n).len() == n by {
        lemma_wave_row_len(f, x, step, n);
    }
}

} // verus!

use vstd::prelude::*;
use crate::input::InputMessage;
use crate::params::{IDLE_LIMIT, WIN_FRAME};
use crate::session::{after_physics, apply_one, apply_prefix, collides, drained, out_of_bounds,
    tick_next, tick_reward, wf, SessionModel};

verus! {

/// No queued input asks for a restart.
pub open spec fn no_restart(inputs: Seq<InputMessage>) -> bool {
    forall|i: int| 0 <= i < inputs.len() ==> inputs[i] != InputMessage::Restart
}

/// No queued input is a velocity update.
pub open spec fn no_vel(inputs: Seq<InputMessage>) -> bool {
    forall|i: int| 0 <= i < inputs.len() ==> !((#[trigger] inputs[i]) matches InputMessage::Vel(_))
}

/// A restart input rewinds any state whatsoever to the start: the player at
/// the origin with zero velocity, alive, frame zero, no obstacles, and the
/// spawn cursor at the head of the schedule.
pub proof fn lemma_restart_resets(m: SessionModel)
    ensures
        ({
            let r = apply_one(m, InputMessage::Restart);
            r.pos_x == 0 && r.pos_y == 0 && r.vel_x == 0 && r.vel_y == 0 && r.alive && r.frame == 0
                && r.enemies.len() == 0 && r.cursor == 0 && r.schedule == m.schedule
        }),
{
}

/// Applying a prefix of inputs that holds no restart can change nothing but
/// the stored velocity.
proof fn lemma_prefix_no_restart(m: SessionModel, inputs: Seq<InputMessage>, n: int)
    requires
        0 <= n <= inputs.len(),
        no_restart(inputs),
    ensures
        ({
            let a = apply_prefix(m, inputs, n);
            a.pos_x == m.pos_x && a.pos_y == m.pos_y && a.alive == m.alive && a.frame == m.frame
                && a.enemies == m.enemies && a.cursor == m.cursor && a.schedule == m.schedule
                && a.idle == m.idle
        }),
    decreases n,
{
    if n > 0 {
        lemma_prefix_no_restart(m, inputs, n - 1);
    }
}

/// Applying a prefix of inputs that holds neither a restart nor a velocity
/// update changes nothing at all.
proof fn lemma_prefix_inert(m: SessionModel, inputs: Seq<InputMessage>, n: int)
    requires
        0 <= n <= inputs.len(),
        no_restart(inputs),
        no_vel(inputs),
    ensures
        apply_prefix(m, inputs, n) == m,
    decreases n,
{
    if n > 0 {
        lemma_prefix_inert(m, inputs, n - 1);
    }
}

/// Death is permanent short of a restart: a tick whose inputs hold no
/// restart never revives a dead player.
pub proof fn lemma_dead_stays_dead(m: SessionModel, inputs: Seq<InputMessage>)
    requires
        !m.alive,
        no_restart(inputs),
        tick_next(m, inputs) is Some,
    ensures
        !tick_next(m, inputs).unwrap().alive,
{
    lemma_prefix_no_restart(m, inputs, inputs.len() as int);
}

/// Leaving the play area is fatal and final: a tick without restart on an
/// out-of-bounds state kills the player, freezes its position, and leaves
/// the state out of bounds again, so the player stays dead tick after tick
/// until a restart.
pub proof fn lemma_bounds_kill(m: SessionModel, inputs: Seq<InputMessage>)
    requires
        out_of_bounds(m),
        no_restart(inputs),
        tick_next(m, inputs) is Some,
    ensures
        ({
            let r = tick_next(m, inputs).unwrap();
            !r.alive && r.pos_x == m.pos_x && r.pos_y == m.pos_y && out_of_bounds(r)
        }),
{
    lemma_prefix_no_restart(m, inputs, inputs.len() as int);
}

/// A dropped packet cannot steer: a tick whose inputs hold neither a
/// velocity update nor a restart leaves the stored velocity exactly as it
/// was. With `route_update` rejecting every direction beyond the anti-cheat
/// bound, a cheating packet therefore never moves the stored velocity.
pub proof fn lemma_vel_unchanged(m: SessionModel, inputs: Seq<InputMessage>)
    requires
        no_restart(inputs),
        no_vel(inputs),
        tick_next(m, inputs) is Some,
    ensures
        tick_next(m, inputs).unwrap().vel_x == m.vel_x,
        tick_next(m, inputs).unwrap().vel_y == m.vel_y,
{
    lemma_prefix_inert(m, inputs, inputs.len() as int);
}

/// The frame counter never decreases, short of a restart: a tick that runs
/// advances it by one (until it would leave `u64`, where it holds still).
pub proof fn lemma_frame_monotonic(m: SessionModel, inputs: Seq<InputMessage>)
    requires
        no_restart(inputs),
        tick_next(m, inputs) is Some,
    ensures
        ({
            let r = tick_next(m, inputs).unwrap();
            r.frame == if m.frame < u64::MAX {
                m.frame + 1
            } else {
                m.frame
            }
        }),
{
    lemma_prefix_no_restart(m, inputs, inputs.len() as int);
}

/// Obstacles are exactly the due prefix of the schedule, in schedule order:
/// a tick without restart only moves the cursor forward, every event it
/// consumes was due at the session's current frame, the first event left
/// behind was not (so none is skipped or repeated), and the trigger frames
/// along the whole spawned prefix are non-decreasing.
pub proof fn lemma_spawn_order(m: SessionModel, inputs: Seq<InputMessage>)
    requires
        wf(m),
        no_restart(inputs),
        tick_next(m, inputs) is Some,
    ensures
        ({
            let r = tick_next(m, inputs).unwrap();
            m.cursor <= r.cursor <= m.schedule.len() && r.enemies.len() == r.cursor && (forall|
                j: int,
            |
                m.cursor <= j < r.cursor ==> m.schedule[j].frame <= m.frame) && (r.cursor
                < m.schedule.len() ==> m.schedule[r.cursor].frame > m.frame) && (forall|
                i: int,
                j: int,
            |
                0 <= i <= j < r.cursor ==> m.schedule[i].frame <= m.schedule[j].frame)
        }),
{
    lemma_prefix_no_restart(m, inputs, inputs.len() as int);
    let d = drained(m, inputs);
    crate::session::lemma_spawn_stop(d.schedule, d.cursor, d.frame);
}

/// The reward packet is owed on a tick exactly when that tick ends with the
/// player alive and the frame count (as it stood during the tick) beyond
/// the win threshold — on every such tick, not once.
pub proof fn lemma_win_trigger(m: SessionModel, inputs: Seq<InputMessage>)
    requires
        tick_next(m, inputs) is Some,
    ensures
        tick_reward(m, inputs) == (tick_next(m, inputs).unwrap().alive && drained(m, inputs).frame
            > WIN_FRAME),
{
}

/// The idle timeout, exactly: a tick terminates the session if and only if
/// nothing was queued and the session had already sat through the full
/// idle allowance.
pub proof fn lemma_idle_timeout(m: SessionModel, inputs: Seq<InputMessage>)
    requires
        0 <= m.idle,
    ensures
        tick_next(m, inputs) is None <==> (inputs.len() == 0 && m.idle >= IDLE_LIMIT),
{
}

/// Contact kills: a tick that ends with any obstacle within the collision
/// distance of the player on both axes at once leaves the player dead (and
/// `lemma_dead_stays_dead` keeps it so until a restart).
pub proof fn lemma_collision_kills(m: SessionModel, inputs: Seq<InputMessage>)
    requires
        tick_next(m, inputs) is Some,
        exists|i: int|
            0 <= i < tick_next(m, inputs).unwrap().enemies.len() && collides(
                #[trigger] tick_next(m, inputs).unwrap().enemies[i],
                tick_next(m, inputs).unwrap().pos_x,
                tick_next(m, inputs).unwrap().pos_y,
            ),
    ensures
        !tick_next(m, inputs).unwrap().alive,
{
    let d = drained(m, inputs);
    let p = after_physics(d);
    assert(tick_next(m, inputs).unwrap().enemies == p.enemies);
    assert(tick_next(m, inputs).unwrap().pos_x == p.pos_x);
    assert(tick_next(m, inputs).unwrap().pos_y == p.pos_y);
}

} // verus!

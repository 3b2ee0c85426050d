use vstd::prelude::*;
use crate::input::{valid_input, InputMessage};
use crate::params::{BOUND_X, BOUND_Y, CHEAT_LIMIT, COLLIDE_DIST, IDLE_LIMIT, PLAYER_SPEED,
    WIN_FRAME};
use crate::spawn::{sorted_schedule, SpawnEvent};
use crate::vec2::{abs, sat_i64, Vec2};

verus! {

/// One obstacle in flight: where it is and how it moves each tick.
#[derive(Clone, Copy, PartialEq, Eq, Structural, Debug)]
pub struct Enemy {
    pub pos: Vec2,
    pub vel: Vec2,
}

/// The mathematical image of an `Enemy`.
#[verifier::ext_equal]
pub ghost struct EnemyModel {
    pub pos_x: int,
    pub pos_y: int,
    pub vel_x: int,
    pub vel_y: int,
}

impl View for Enemy {
    type V = EnemyModel;

    open spec fn view(&self) -> EnemyModel {
        EnemyModel {
            pos_x: self.pos.x as int,
            pos_y: self.pos.y as int,
            vel_x: self.vel.x as int,
            vel_y: self.vel.y as int,
        }
    }
}

/// The mathematical image of a `Session`.
#[verifier::ext_equal]
pub ghost struct SessionModel {
    pub pos_x: int,
    pub pos_y: int,
    pub vel_x: int,
    pub vel_y: int,
    pub alive: bool,
    pub frame: int,
    pub idle: int,
    pub enemies: Seq<EnemyModel>,
    pub cursor: int,
    pub schedule: Seq<SpawnEvent>,
}

/// One client's whole simulation: the player, the obstacles spawned so
/// far, and the counters the tick loop runs on.
pub struct Session {
    pub pos: Vec2,
    pub vel: Vec2,
    pub alive: bool,
    pub frame: u64,
    pub idle: u64,
    pub enemies: Vec<Enemy>,
    pub cursor: usize,
    pub schedule: Vec<SpawnEvent>,
}

impl View for Session {
    type V = SessionModel;

    open spec fn view(&self) -> SessionModel {
        SessionModel {
            pos_x: self.pos.x as int,
            pos_y: self.pos.y as int,
            vel_x: self.vel.x as int,
            vel_y: self.vel.y as int,
            alive: self.alive,
            frame: self.frame as int,
            idle: self.idle as int,
            enemies: self.enemies@.map_values(|e: Enemy| e@),
            cursor: self.cursor as int,
            schedule: self.schedule@,
        }
    }
}

/// The state every session starts from, and returns to on restart.
pub open spec fn fresh_model(schedule: Seq<SpawnEvent>) -> SessionModel {
    SessionModel {
        pos_x: 0,
        pos_y: 0,
        vel_x: 0,
        vel_y: 0,
        alive: true,
        frame: 0,
        idle: 0,
        enemies: Seq::empty(),
        cursor: 0,
        schedule,
    }
}

/// What one queued input does to the state: a velocity update overwrites
/// the stored velocity, a restart rewinds everything but the idle counter
/// and the schedule.
pub open spec fn apply_one(m: SessionModel, input: InputMessage) -> SessionModel {
    match input {
        InputMessage::Vel(v) => SessionModel { vel_x: v.x as int, vel_y: v.y as int, ..m },
        InputMessage::Restart => SessionModel {
            pos_x: 0,
            pos_y: 0,
            vel_x: 0,
            vel_y: 0,
            alive: true,
            frame: 0,
            enemies: Seq::empty(),
            cursor: 0,
            ..m
        },
    }
}

/// The first `n` queued inputs applied in receipt order.
pub open spec fn apply_prefix(m: SessionModel, inputs: Seq<InputMessage>, n: int) -> SessionModel
    decreases n,
{
    if n <= 0 {
        m
    } else {
        apply_one(apply_prefix(m, inputs, n - 1), inputs[n - 1])
    }
}

/// The state after the whole queue is drained: inputs apply in order, and
/// the idle counter restarts at zero when anything arrived, else advances.
pub open spec fn drained(m: SessionModel, inputs: Seq<InputMessage>) -> SessionModel {
    let a = apply_prefix(m, inputs, inputs.len() as int);
    SessionModel {
        idle: if inputs.len() > 0 {
            0
        } else {
            m.idle + 1
        },
        ..a
    }
}

/// The player has left the play area on some axis.
pub open spec fn out_of_bounds(m: SessionModel) -> bool {
    abs(m.pos_x) >= BOUND_X || abs(m.pos_y) >= BOUND_Y
}

/// The first schedule index at or after `c` whose trigger frame is still
/// in the future, i.e. where this tick's spawning stops.
pub open spec fn spawn_stop(s: Seq<SpawnEvent>, c: int, frame: int) -> int
    decreases s.len() - c,
{
    if !(0 <= c < s.len()) {
        c
    } else if s[c].frame <= frame {
        spawn_stop(s, c + 1, frame)
    } else {
        c
    }
}

/// The obstacle a spawn event creates.
pub open spec fn enemy_of_event(e: SpawnEvent) -> EnemyModel {
    EnemyModel {
        pos_x: e.pos.x as int,
        pos_y: e.pos.y as int,
        vel_x: e.vel.x as int,
        vel_y: e.vel.y as int,
    }
}

/// One tick of obstacle motion (clamped at the limits of `i64`).
pub open spec fn step_enemy(e: EnemyModel) -> EnemyModel {
    EnemyModel {
        pos_x: sat_i64(e.pos_x + e.vel_x) as int,
        pos_y: sat_i64(e.pos_y + e.vel_y) as int,
        ..e
    }
}

/// The enemy's separation from `(px, py)` is below the collision distance
/// on both axes at once.
pub open spec fn collides(e: EnemyModel, px: int, py: int) -> bool {
    abs(e.pos_x - px) < COLLIDE_DIST && abs(e.pos_y - py) < COLLIDE_DIST
}

/// The physics of one tick, after the queue is drained: the bounds check,
/// the player's integration, the due spawns, the obstacles' motion and the
/// collision rule.
pub open spec fn after_physics(m: SessionModel) -> SessionModel {
    let alive1 = m.alive && !out_of_bounds(m);
    let px = if alive1 {
        m.pos_x + m.vel_x
    } else {
        m.pos_x
    };
    let py = if alive1 {
        m.pos_y + m.vel_y
    } else {
        m.pos_y
    };
    let stop = spawn_stop(m.schedule, m.cursor, m.frame);
    let spawned = m.enemies + Seq::new(
        (stop - m.cursor) as nat,
        |i: int| enemy_of_event(m.schedule[m.cursor + i]),
    );
    let moved = spawned.map_values(|e: EnemyModel| step_enemy(e));
    let hit = exists|i: int| 0 <= i < moved.len() && collides(moved[i], px, py);
    SessionModel {
        pos_x: px,
        pos_y: py,
        alive: alive1 && !hit,
        enemies: moved,
        cursor: stop,
        ..m
    }
}

/// The state one whole tick leaves behind, or `None` when the idle
/// timeout fires and the session terminates without sending anything.
pub open spec fn tick_next(m: SessionModel, inputs: Seq<InputMessage>) -> Option<SessionModel> {
    let d = drained(m, inputs);
    if d.idle > IDLE_LIMIT {
        None
    } else {
        let p = after_physics(d);
        Some(
            SessionModel {
                frame: if p.frame < u64::MAX {
                    p.frame + 1
                } else {
                    p.frame
                },
                ..p
            },
        )
    }
}

/// Whether a tick that ran owes the client a reward packet: the player is
/// alive at the end of the tick and its (pre-increment) frame count has
/// passed the win threshold.
pub open spec fn tick_reward(m: SessionModel, inputs: Seq<InputMessage>) -> bool {
    let p = after_physics(drained(m, inputs));
    p.alive && p.frame > WIN_FRAME
}

/// Every state a session can actually be in: velocity within the scaled
/// anti-cheat bound, position within one step of the play area, counters in
/// range, and the obstacle list exactly the spawned prefix of the schedule.
pub open spec fn wf(m: SessionModel) -> bool {
    &&& wf_except_idle(m)
    &&& 0 <= m.idle <= IDLE_LIMIT
}

/// `wf` without its idle-counter clause: what holds of the state midway
/// through a tick, between the drain and the idle bookkeeping.
pub open spec fn wf_except_idle(m: SessionModel) -> bool {
    &&& abs(m.vel_x) <= CHEAT_LIMIT * PLAYER_SPEED
    &&& abs(m.vel_y) <= CHEAT_LIMIT * PLAYER_SPEED
    &&& abs(m.pos_x) <= BOUND_X + CHEAT_LIMIT * PLAYER_SPEED
    &&& abs(m.pos_y) <= BOUND_Y + CHEAT_LIMIT * PLAYER_SPEED
    &&& 0 <= m.frame <= u64::MAX
    &&& 0 <= m.cursor <= m.schedule.len()
    &&& m.enemies.len() == m.cursor
    &&& sorted_schedule(m.schedule)
    &&& forall|i: int|
        0 <= i < m.cursor ==> (#[trigger] m.enemies[i]).vel_x == m.schedule[i].vel.x as int
            && m.enemies[i].vel_y == m.schedule[i].vel.y as int
}

/// `spawn_stop` lands between the cursor and the end, consumes exactly the
/// events already due, and stops at the first one still pending.
pub proof fn lemma_spawn_stop(s: Seq<SpawnEvent>, c: int, frame: int)
    requires
        0 <= c <= s.len(),
    ensures
        c <= spawn_stop(s, c, frame) <= s.len(),
        forall|j: int| c <= j < spawn_stop(s, c, frame) ==> s[j].frame <= frame,
        spawn_stop(s, c, frame) < s.len() ==> s[spawn_stop(s, c, frame)].frame > frame,
    decreases s.len() - c,
{
    if c < s.len() && s[c].frame <= frame {
        lemma_spawn_stop(s, c + 1, frame);
    }
}

/// The outcome of one tick of a live session.
#[derive(Clone, Copy, PartialEq, Eq, Structural, Debug)]
pub enum TickOutcome {
    /// The idle timeout fired: the tick loop must exit and the session
    /// disappears.
    Terminated,
    /// The tick ran; the state packet for the new state is owed to the
    /// client, and the reward packet too when `reward` holds.
    Ran { reward: bool },
}

/// The two coordinates are within the collision distance of each other
/// along one axis.
fn close_axis(a: i64, b: i64) -> (r: bool)
    ensures
        r == (abs(a - b) < COLLIDE_DIST),
{
    let d: i128 = a as i128 - b as i128;
    d < COLLIDE_DIST as i128 && d > -(COLLIDE_DIST as i128)
}

impl Session {
    /// Create the state of a brand-new session over the given schedule.
    pub fn new(schedule: Vec<SpawnEvent>) -> (r: Session)
        requires
            sorted_schedule(schedule@),
        ensures
            r@ == fresh_model(schedule@),
            wf(r@),
    {
        let r = Session {
            pos: Vec2 { x: 0, y: 0 },
            vel: Vec2 { x: 0, y: 0 },
            alive: true,
            frame: 0,
            idle: 0,
            enemies: Vec::new(),
            cursor: 0,
            schedule,
        };
        proof {
            assert(r@.enemies =~= Seq::<EnemyModel>::empty());
            assert(r@ =~= fresh_model(r.schedule@));
        }
        r
    }

    /// Rewind to the fresh state, as a restart input does: origin, zero
    /// velocity, alive again, frame zero, no obstacles, schedule cursor at
    /// the start. Only the idle counter and the schedule carry over.
    pub fn restart(&mut self)
        ensures
            final(self)@ == apply_one(old(self)@, InputMessage::Restart),
    {
        self.pos = Vec2 { x: 0, y: 0 };
        self.vel = Vec2 { x: 0, y: 0 };
        self.alive = true;
        self.frame = 0;
        self.enemies = Vec::new();
        self.cursor = 0;
        proof {
            assert(self@.enemies =~= Seq::<EnemyModel>::empty());
            assert(self@ =~= apply_one(old(self)@, InputMessage::Restart));
        }
    }

    /// Apply one queued input.
    pub fn apply_input(&mut self, input: InputMessage)
        ensures
            final(self)@ == apply_one(old(self)@, input),
    {
        match input {
            InputMessage::Vel(v) => {
                self.vel = v;
                assert(self@ =~= apply_one(old(self)@, input));
            },
            InputMessage::Restart => {
                self.restart();
            },
        }
    }

    /// Run one tick over the inputs that arrived since the last one.
    ///
    /// The result and the new state are exactly what `tick_next` and
    /// `tick_reward` say of the old state; on `Terminated` the state is
    /// meaningless and the caller must drop the session.
    #[verifier::loop_isolation(false)]
    #[verifier::rlimit(100)]
    pub fn tick(&mut self, inputs: &Vec<InputMessage>) -> (r: TickOutcome)
        requires
            wf(old(self)@),
            forall|i: int| 0 <= i < inputs@.len() ==> valid_input(#[trigger] inputs@[i]),
        ensures
            tick_next(old(self)@, inputs@) is None ==> r == TickOutcome::Terminated,
            tick_next(old(self)@, inputs@) matches Some(m) ==> final(self)@ == m && wf(
                final(self)@,
            ) && r == (TickOutcome::Ran { reward: tick_reward(old(self)@, inputs@) }),
    {
        let ghost m0 = old(self)@;
        // Drain the queue in receipt order.
        let mut k: usize = 0;
        while k < inputs.len()
            invariant
                0 <= k <= inputs.len(),
                self@ == apply_prefix(m0, inputs@, k as int),
                wf_except_idle(self@),
                self@.idle == m0.idle,
                self@.schedule == m0.schedule,
            decreases inputs.len() - k,
        {
            let input = inputs[k];
            self.apply_input(input);
            k = k + 1;
        }
        // Advance or reset the idle counter, and time out when it passes
        // the limit.
        if inputs.len() > 0 {
            self.idle = 0;
        } else {
            self.idle = self.idle + 1;
        }
        let ghost d = drained(m0, inputs@);
        assert(self@ =~= d);
        assert(wf_except_idle(d));
        if self.idle > IDLE_LIMIT {
            return TickOutcome::Terminated;
        }
        // The bounds rule: leaving the play area kills.
        if self.pos.x >= BOUND_X || self.pos.x <= -BOUND_X || self.pos.y >= BOUND_Y || self.pos.y
            <= -BOUND_Y {
            self.alive = false;
        }
        // A live player integrates one tick of motion.
        if self.alive {
            self.pos = self.pos.add(self.vel);
        }
        let ghost alive1 = d.alive && !out_of_bounds(d);
        let ghost px = if alive1 {
            d.pos_x + d.vel_x
        } else {
            d.pos_x
        };
        let ghost py = if alive1 {
            d.pos_y + d.vel_y
        } else {
            d.pos_y
        };
        assert(self@.alive == alive1);
        assert(self@.pos_x == px && self@.pos_y == py);
        // Spawn every obstacle whose trigger frame has come.
        let ghost stop = spawn_stop(d.schedule, d.cursor, d.frame);
        proof {
            lemma_spawn_stop(d.schedule, d.cursor, d.frame);
        }
        while self.cursor < self.schedule.len() && self.schedule[self.cursor].frame <= self.frame
            invariant
                d.cursor <= self.cursor as int <= stop,
                self@.enemies =~= d.enemies + Seq::new(
                    (self.cursor as int - d.cursor) as nat,
                    |i: int| enemy_of_event(d.schedule[d.cursor + i]),
                ),
                self@.pos_x == px,
                self@.pos_y == py,
                self@.vel_x == d.vel_x,
                self@.vel_y == d.vel_y,
                self@.alive == alive1,
                self@.idle == d.idle,
                self@.frame == d.frame,
                self@.schedule == d.schedule,
            decreases self.schedule.len() - self.cursor,
        {
            let e = self.schedule[self.cursor];
            let ghost c_old = self.cursor as int;
            let ghost e_old = self@.enemies;
            let en = Enemy { pos: e.pos, vel: e.vel };
            self.enemies.push(en);
            self.cursor = self.cursor + 1;
            proof {
                assert(self@.enemies =~= e_old.push(en@));
                assert(en@ == enemy_of_event(d.schedule[c_old]));
                assert(self@.enemies =~= d.enemies + Seq::new(
                    (self.cursor as int - d.cursor) as nat,
                    |i: int| enemy_of_event(d.schedule[d.cursor + i]),
                ));
            }
        }
        assert(self.cursor as int == stop);
        let ghost spawned = d.enemies + Seq::new(
            (stop - d.cursor) as nat,
            |i: int| enemy_of_event(d.schedule[d.cursor + i]),
        );
        assert(self@.enemies =~= spawned);
        // Move every obstacle one tick, and apply the collision rule.
        let px_e = self.pos.x;
        let py_e = self.pos.y;
        let ghost moved = spawned.map_values(|e: EnemyModel| step_enemy(e));
        let mut j: usize = 0;
        let n = self.enemies.len();
        while j < n
            invariant
                0 <= j <= n,
                n == self.enemies.len(),
                self@.enemies.len() == n,
                moved.len() == spawned.len() == n,
                forall|i: int| 0 <= i < j ==> self@.enemies[i] == moved[i],
                forall|i: int| j <= i < n as int ==> self@.enemies[i] == spawned[i],
                self@.alive == (alive1 && !(exists|i: int|
                    0 <= i < j && collides(moved[i], px, py))),
                self@.pos_x == px,
                self@.pos_y == py,
                self@.vel_x == d.vel_x,
                self@.vel_y == d.vel_y,
                self@.idle == d.idle,
                self@.frame == d.frame,
                self@.cursor == stop,
                self@.schedule == d.schedule,
            decreases n - j,
        {
            let e = self.enemies[j];
            let ne = Enemy { pos: e.pos.sat_add(e.vel), vel: e.vel };
            self.enemies[j] = ne;
            assert(self@.enemies[j as int] == step_enemy(spawned[j as int]));
            if close_axis(ne.pos.x, px_e) && close_axis(ne.pos.y, py_e) {
                self.alive = false;
                assert(collides(moved[j as int], px, py));
            }
            j = j + 1;
        }
        assert(self@.enemies =~= moved);
        // The win rule, then the frame advances.
        let reward = self.alive && self.frame > WIN_FRAME;
        if self.frame < u64::MAX {
            self.frame = self.frame + 1;
        }
        proof {
            let p = after_physics(d);
            assert(p.enemies == moved);
            assert(self@ =~= tick_next(m0, inputs@).unwrap());
            assert(reward == tick_reward(m0, inputs@));
            let mfin = self@;
            assert forall|i: int| 0 <= i < mfin.cursor implies (#[trigger] mfin.enemies[i]).vel_x
                == mfin.schedule[i].vel.x as int && mfin.enemies[i].vel_y
                == mfin.schedule[i].vel.y as int by {
                assert(mfin.enemies[i] == step_enemy(spawned[i]));
                if i < d.cursor {
                    assert(d.enemies[i].vel_x == d.schedule[i].vel.x as int);
                    assert(d.enemies[i].vel_y == d.schedule[i].vel.y as int);
                } else {
                    assert(spawned[i] == enemy_of_event(d.schedule[i]));
                }
            }
            assert(wf(self@));
        }
        TickOutcome::Ran { reward }
    }
}

} // verus!

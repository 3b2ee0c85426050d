use dodge_server::codec::{decode_client_packet, ClientPacket};
use dodge_server::input::{route_update, InputMessage};
use dodge_server::session::{Session, TickOutcome};
use dodge_server::spawn::{default_schedule, SpawnEvent};
use dodge_server::vec2::Vec2;

fn fresh() -> Session {
    Session::new(default_schedule())
}

fn milli_of_f32(v: f32) -> i64 {
    (v * 1000.0) as i64
}

#[test]
fn restart_resets_everything() {
    let mut s = fresh();
    // Drive the player around for a while.
    let push = vec![InputMessage::Vel(Vec2 { x: 8000, y: -8000 })];
    for _ in 0..20 {
        assert!(matches!(s.tick(&push), TickOutcome::Ran { .. }));
    }
    assert!(s.frame == 20 && s.pos.x != 0);
    // A restart input rewinds the whole session, whatever came before.
    let r = s.tick(&vec![InputMessage::Restart]);
    assert!(matches!(r, TickOutcome::Ran { reward: false }));
    assert_eq!((s.pos.x, s.pos.y), (0, 0));
    assert_eq!((s.vel.x, s.vel.y), (0, 0));
    assert!(s.alive);
    // The restarted state ran one tick: frame 0 became 1, nothing spawned yet.
    assert_eq!(s.frame, 1);
    assert_eq!(s.enemies.len(), 0);
    assert_eq!(s.cursor, 0);
    // The direct form, outside a tick, leaves frame at exactly zero.
    s.restart();
    assert_eq!(s.frame, 0);
    assert_eq!((s.pos.x, s.pos.y), (0, 0));
}

#[test]
fn bounds_kill_and_stay_dead() {
    let mut s = fresh();
    s.pos = Vec2 { x: 312000, y: 0 };
    assert!(matches!(s.tick(&Vec::new()), TickOutcome::Ran { .. }));
    assert!(!s.alive);
    assert_eq!(s.pos.x, 312000);
    // Dead stays dead, and the position stays frozen, tick after tick.
    for _ in 0..10 {
        assert!(matches!(s.tick(&Vec::new()), TickOutcome::Ran { .. }));
        assert!(!s.alive);
        assert_eq!(s.pos.x, 312000);
    }
    // Only a restart revives.
    s.tick(&vec![InputMessage::Restart]);
    assert!(s.alive);
}

#[test]
fn cheat_inputs_are_dropped() {
    assert_eq!(route_update(1101, 0, 0), None);
    assert_eq!(route_update(0, -1200, 0), None);
    assert_eq!(route_update(50000, 50000, 0), None);
    // The flag overrides the direction, however wild.
    assert_eq!(route_update(50000, 0, 1), Some(InputMessage::Restart));
    // The boundary itself is lawful and scales by the player speed.
    assert_eq!(
        route_update(1100, -1100, 0),
        Some(InputMessage::Vel(Vec2 { x: 8800, y: -8800 }))
    );
}

#[test]
fn cheat_input_leaves_velocity_unchanged() {
    let mut s = fresh();
    s.tick(&vec![InputMessage::Vel(Vec2 { x: 4000, y: 0 })]);
    assert_eq!((s.vel.x, s.vel.y), (4000, 0));
    // A packet beyond the anti-cheat bound yields no input at all.
    let mut queue: Vec<InputMessage> = Vec::new();
    if let Some(m) = route_update(9000, 0, 0) {
        queue.push(m);
    }
    assert!(queue.is_empty());
    s.tick(&queue);
    assert_eq!((s.vel.x, s.vel.y), (4000, 0));
}

#[test]
fn spawns_follow_the_schedule_in_order() {
    let mut s = fresh();
    let keep_alive = vec![InputMessage::Vel(Vec2 { x: 0, y: 0 })];
    let mut seen: usize = 0;
    for _ in 0..60 {
        s.tick(&keep_alive);
        // The obstacle list is always the already-due prefix of the schedule.
        assert_eq!(s.enemies.len(), s.cursor);
        assert!(s.cursor >= seen, "the spawn cursor never rewinds");
        for (i, e) in s.enemies.iter().enumerate() {
            assert_eq!(e.vel, s.schedule[i].vel);
        }
        seen = s.cursor;
    }
    // Frames 0..=59 have passed: triggers 10, 20, 30, 40 and the wave of
    // eleven at frame 50 are all in flight, and nothing further.
    assert_eq!(s.enemies.len(), 15);
    // Trigger frames of what spawned never decrease.
    for i in 1..s.cursor {
        assert!(s.schedule[i - 1].frame <= s.schedule[i].frame);
    }
}

#[test]
fn win_threshold_is_exact_and_repeats() {
    let mut s = fresh();
    s.frame = 300;
    // Frame 300 is not yet past the threshold.
    assert_eq!(s.tick(&Vec::new()), TickOutcome::Ran { reward: false });
    // Frame 301 is, and every following tick rewards again.
    assert_eq!(s.tick(&Vec::new()), TickOutcome::Ran { reward: true });
    assert_eq!(s.tick(&Vec::new()), TickOutcome::Ran { reward: true });
    // A dead player earns nothing.
    s.pos = Vec2 { x: 312000, y: 0 };
    assert_eq!(s.tick(&Vec::new()), TickOutcome::Ran { reward: false });
}

#[test]
fn idle_timeout_after_sixty_silent_ticks() {
    let mut s = fresh();
    for i in 0..60 {
        assert!(
            matches!(s.tick(&Vec::new()), TickOutcome::Ran { .. }),
            "tick {} should still run",
            i
        );
    }
    assert_eq!(s.tick(&Vec::new()), TickOutcome::Terminated);
    // Any input resets the allowance.
    let mut s2 = fresh();
    for _ in 0..59 {
        s2.tick(&Vec::new());
    }
    s2.tick(&vec![InputMessage::Vel(Vec2 { x: 0, y: 0 })]);
    for _ in 0..60 {
        assert!(matches!(s2.tick(&Vec::new()), TickOutcome::Ran { .. }));
    }
    assert_eq!(s2.tick(&Vec::new()), TickOutcome::Terminated);
    // A fresh session after a timeout starts from the reset state.
    let s3 = fresh();
    assert_eq!(s3.frame, 0);
    assert_eq!((s3.pos.x, s3.pos.y), (0, 0));
    assert!(s3.alive);
}

#[test]
fn collision_kills_on_contact() {
    // One obstacle due at frame 0, just under the collision distance away
    // once it has moved its first tick.
    let schedule = vec![SpawnEvent::new(0, 29999, 0, 0, 0)];
    let mut s = Session::new(schedule);
    assert!(matches!(s.tick(&Vec::new()), TickOutcome::Ran { .. }));
    assert!(!s.alive, "per-axis separation below 30 units on both axes kills");
    // And death persists without a restart.
    s.tick(&Vec::new());
    assert!(!s.alive);
}

#[test]
fn collision_requires_both_axes() {
    // Close on x, far on y: no contact.
    let schedule = vec![SpawnEvent::new(0, 0, 100000, 0, 0)];
    let mut s = Session::new(schedule);
    s.tick(&Vec::new());
    assert!(s.alive);
}

#[test]
fn update_packet_steers_next_state() {
    // The concrete round trip: [1][f32be 1.0][f32be 0.0][0] through the
    // codec, the anti-cheat gate, and one tick.
    let buf = [1u8, 0x3f, 0x80, 0x00, 0x00, 0x00, 0x00, 0x00, 0x00, 0x00];
    let decoded = decode_client_packet(&buf);
    let (dx_bits, dy_bits, flag) = match decoded {
        ClientPacket::Update { dx_bits, dy_bits, flag } => (dx_bits, dy_bits, flag),
        _ => panic!("a ten-byte opcode-1 packet must decode"),
    };
    let dx = milli_of_f32(f32::from_bits(dx_bits));
    let dy = milli_of_f32(f32::from_bits(dy_bits));
    let input = route_update(dx, dy, flag).expect("1.0 is within the anti-cheat bound");
    let mut s = fresh();
    s.tick(&vec![input]);
    // The state packet after that tick reports the scaled velocity, with
    // the position already advanced by it.
    assert_eq!((s.vel.x, s.vel.y), (8000, 0));
    assert_eq!((s.pos.x, s.pos.y), (8000, 0));
    // One tick later the position has advanced by the velocity again.
    s.tick(&Vec::new());
    assert_eq!((s.pos.x, s.pos.y), (16000, 0));
}

use dodge_server::spawn::default_schedule;
use dodge_server::vec2::Vec2;

#[test]
fn schedule_has_all_entries() {
    assert_eq!(default_schedule().len(), 117);
}

#[test]
fn schedule_triggers_never_decrease() {
    let s = default_schedule();
    for i in 1..s.len() {
        assert!(s[i - 1].frame <= s[i].frame);
    }
}

#[test]
fn schedule_first_scouts() {
    let s = default_schedule();
    assert_eq!(s[0].frame, 10);
    assert_eq!(s[0].pos, Vec2 { x: 312000, y: 0 });
    assert_eq!(s[0].vel, Vec2 { x: -10000, y: 0 });
    assert_eq!(s[1].frame, 20);
    assert_eq!(s[1].pos, Vec2 { x: 312000, y: 30000 });
    assert_eq!(s[2].frame, 30);
    assert_eq!(s[2].pos, Vec2 { x: 312000, y: -30000 });
    assert_eq!(s[3].frame, 40);
    assert_eq!(s[3].pos, Vec2 { x: 312000, y: 0 });
}

#[test]
fn schedule_first_wave_walks_right() {
    let s = default_schedule();
    // Eleven entries at frame 50, from -300 in steps of 30 up to 0, all
    // falling from the top edge.
    for k in 0..11 {
        let e = s[4 + k];
        assert_eq!(e.frame, 50);
        assert_eq!(e.pos, Vec2 { x: -300000 + 30000 * k as i64, y: 232000 });
        assert_eq!(e.vel, Vec2 { x: 0, y: -10000 });
    }
    assert_eq!(s[15].frame, 70);
}

#[test]
fn schedule_last_closer() {
    let s = default_schedule();
    let last = s[s.len() - 1];
    assert_eq!(last.frame, 230);
    assert_eq!(last.pos, Vec2 { x: 0, y: 312000 });
    assert_eq!(last.vel, Vec2 { x: 0, y: -3000 });
}

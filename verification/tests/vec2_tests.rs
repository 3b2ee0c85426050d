use dodge_server::vec2::{sat_add, Vec2};

#[test]
fn vector_arithmetic() {
    let a = Vec2::new(3000, -2000);
    let b = Vec2::new(-1000, 5000);
    assert_eq!(a.add(b), Vec2 { x: 2000, y: 3000 });
    assert_eq!(a.sub(b), Vec2 { x: 4000, y: -7000 });
    assert_eq!(a.mul(8), Vec2 { x: 24000, y: -16000 });
    let mut c = a;
    c.add_assign(b);
    assert_eq!(c, Vec2 { x: 2000, y: 3000 });
}

#[test]
fn saturating_addition_clamps() {
    assert_eq!(sat_add(1, 2), 3);
    assert_eq!(sat_add(i64::MAX, 1), i64::MAX);
    assert_eq!(sat_add(i64::MIN, -1), i64::MIN);
    assert_eq!(sat_add(i64::MAX, i64::MIN), -1);
    let far = Vec2 { x: i64::MAX - 5, y: i64::MIN + 5 };
    let v = Vec2 { x: 10, y: -10 };
    assert_eq!(far.sat_add(v), Vec2 { x: i64::MAX, y: i64::MIN });
}

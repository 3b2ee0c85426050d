use vstd::prelude::*;
use crate::params::{CHEAT_LIMIT, PLAYER_SPEED};
use crate::vec2::{abs, Vec2};

verus! {

/// One message on a session's input queue: either a fresh, already scaled
/// player velocity, or a restart request.
#[derive(Clone, Copy, PartialEq, Eq, Structural, Debug)]
pub enum InputMessage {
    Vel(Vec2),
    Restart,
}

/// A velocity update that passed the anti-cheat rule: each axis of the raw
/// direction was at most `CHEAT_LIMIT`, so each axis of the scaled velocity
/// is at most `CHEAT_LIMIT * PLAYER_SPEED`.
pub open spec fn valid_input(m: InputMessage) -> bool {
    match m {
        InputMessage::Vel(v) => abs(v.x as int) <= CHEAT_LIMIT * PLAYER_SPEED && abs(v.y as int)
            <= CHEAT_LIMIT * PLAYER_SPEED,
        InputMessage::Restart => true,
    }
}

/// Decide what an opcode-1 packet becomes: `dx` and `dy` are the raw
/// direction in fixed-point coordinates.
///
/// A non-zero flag asks for a restart and ignores the direction. Otherwise
/// the anti-cheat rule drops any direction whose magnitude exceeds
/// `CHEAT_LIMIT` on either axis (`None`: the session must not see it), and
/// a lawful direction is scaled by `PLAYER_SPEED` into the stored velocity.
pub fn route_update(dx: i64, dy: i64, flag: u8) -> (r: Option<InputMessage>)
    ensures
        flag != 0 ==> r == Some(InputMessage::Restart),
        flag == 0 && (abs(dx as int) > CHEAT_LIMIT || abs(dy as int) > CHEAT_LIMIT) ==> r is None,
        flag == 0 && abs(dx as int) <= CHEAT_LIMIT && abs(dy as int) <= CHEAT_LIMIT ==> r == Some(
            InputMessage::Vel(Vec2 { x: (dx * PLAYER_SPEED) as i64, y: (dy * PLAYER_SPEED) as i64 }),
        ),
        r matches Some(m) ==> valid_input(m),
{
    if flag != 0 {
        Some(InputMessage::Restart)
    } else if dx > CHEAT_LIMIT || dx < -CHEAT_LIMIT || dy > CHEAT_LIMIT || dy < -CHEAT_LIMIT {
        None
    } else {
        let v = Vec2::new(dx, dy).mul(PLAYER_SPEED);
        Some(InputMessage::Vel(v))
    }
}

} // verus!

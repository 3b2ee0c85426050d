use vstd::prelude::*;

verus! {

/// A decoded inbound datagram.
///
/// The two coordinate fields of an update travel as 32-bit words in
/// big-endian order; the codec neither inspects nor converts them.
#[derive(Clone, Copy, PartialEq, Eq, Structural, Debug)]
pub enum ClientPacket {
    /// Too short for its format.
    Malformed,
    /// First byte is not a known opcode.
    Unknown { opcode: u8 },
    /// Opcode 1: a direction update or, when `flag` is non-zero, a restart
    /// request.
    Update { dx_bits: u32, dy_bits: u32, flag: u8 },
}

/// The 32-bit word spelled by four bytes in big-endian order.
pub open spec fn be_word(b0: u8, b1: u8, b2: u8, b3: u8) -> u32 {
    (b0 * 0x1000000 + b1 * 0x10000 + b2 * 0x100 + b3) as u32
}

/// The four big-endian bytes of a 32-bit word.
pub open spec fn be_bytes(w: u32) -> Seq<u8> {
    seq![
        (w / 0x1000000) as u8,
        ((w / 0x10000) % 0x100) as u8,
        ((w / 0x100) % 0x100) as u8,
        (w % 0x100) as u8,
    ]
}

/// What `decode_client_packet` returns for any inbound buffer.
pub open spec fn decode_spec(b: Seq<u8>) -> ClientPacket {
    if b.len() == 0 {
        ClientPacket::Malformed
    } else if b[0] != 1 {
        ClientPacket::Unknown { opcode: b[0] }
    } else if b.len() < 10 {
        ClientPacket::Malformed
    } else {
        ClientPacket::Update {
            dx_bits: be_word(b[1], b[2], b[3], b[4]),
            dy_bits: be_word(b[5], b[6], b[7], b[8]),
            flag: b[9],
        }
    }
}

/// Parse one inbound datagram without ever indexing past its end.
pub fn decode_client_packet(b: &[u8]) -> (r: ClientPacket)
    ensures
        r == decode_spec(b@),
{
    if b.len() == 0 {
        ClientPacket::Malformed
    } else if b[0] != 1 {
        ClientPacket::Unknown { opcode: b[0] }
    } else if b.len() < 10 {
        ClientPacket::Malformed
    } else {
        ClientPacket::Update {
            dx_bits: word_from_bytes(b[1], b[2], b[3], b[4]),
            dy_bits: word_from_bytes(b[5], b[6], b[7], b[8]),
            flag: b[9],
        }
    }
}

/// Assemble a big-endian 32-bit word from its four bytes.
pub fn word_from_bytes(b0: u8, b1: u8, b2: u8, b3: u8) -> (r: u32)
    ensures
        r == be_word(b0, b1, b2, b3),
{
    b0 as u32 * 0x1000000 + b1 as u32 * 0x10000 + b2 as u32 * 0x100 + b3 as u32
}

/// Split a 32-bit word into its four big-endian bytes.
pub fn word_to_bytes(w: u32) -> (r: (u8, u8, u8, u8))
    ensures
        seq![r.0, r.1, r.2, r.3] == be_bytes(w),
{
    let r = (
        (w / 0x1000000) as u8,
        ((w / 0x10000) % 0x100) as u8,
        ((w / 0x100) % 0x100) as u8,
        (w % 0x100) as u8,
    );
    assert(seq![r.0, r.1, r.2, r.3] =~= be_bytes(w));
    r
}

/// One enemy as it crosses the wire: position then velocity, each axis a
/// big-endian 32-bit word.
#[derive(Clone, Copy, PartialEq, Eq, Structural, Debug)]
pub struct EnemyWire {
    pub px: u32,
    pub py: u32,
    pub vx: u32,
    pub vy: u32,
}

/// The sixteen bytes one enemy contributes to a state packet.
pub open spec fn enemy_bytes(e: EnemyWire) -> Seq<u8> {
    be_bytes(e.px) + be_bytes(e.py) + be_bytes(e.vx) + be_bytes(e.vy)
}

/// The bytes a whole enemy list contributes, in list order.
pub open spec fn enemies_bytes(s: Seq<EnemyWire>) -> Seq<u8>
    decreases s.len(),
{
    if s.len() == 0 {
        Seq::empty()
    } else {
        enemies_bytes(s.drop_last()) + enemy_bytes(s.last())
    }
}

/// A full outbound state packet: opcode 1, player position and velocity,
/// the dead flag, then every enemy in spawn order.
pub open spec fn state_bytes(
    px: u32,
    py: u32,
    vx: u32,
    vy: u32,
    dead: bool,
    enemies: Seq<EnemyWire>,
) -> Seq<u8> {
    seq![1u8] + be_bytes(px) + be_bytes(py) + be_bytes(vx) + be_bytes(vy) + seq![
        if dead {
            1u8
        } else {
            0u8
        },
    ] + enemies_bytes(enemies)
}

/// Append the four big-endian bytes of `w`.
fn push_word(v: &mut Vec<u8>, w: u32)
    ensures
        final(v)@ == old(v)@ + be_bytes(w),
{
    let (b0, b1, b2, b3) = word_to_bytes(w);
    v.push(b0);
    v.push(b1);
    v.push(b2);
    v.push(b3);
    assert(v@ =~= old(v)@ + be_bytes(w));
}

/// Serialize one state packet.
pub fn encode_state(
    px: u32,
    py: u32,
    vx: u32,
    vy: u32,
    dead: bool,
    enemies: &Vec<EnemyWire>,
) -> (r: Vec<u8>)
    ensures
        r@ == state_bytes(px, py, vx, vy, dead, enemies@),
{
    let mut out: Vec<u8> = Vec::new();
    out.push(1);
    push_word(&mut out, px);
    push_word(&mut out, py);
    push_word(&mut out, vx);
    push_word(&mut out, vy);
    out.push(if dead { 1 } else { 0 });
    let ghost header = out@;
    assert(header =~= seq![1u8] + be_bytes(px) + be_bytes(py) + be_bytes(vx) + be_bytes(vy) + seq![
        if dead {
            1u8
        } else {
            0u8
        },
    ]);
    let mut i: usize = 0;
    while i < enemies.len()
        invariant
            i <= enemies.len(),
            out@ == header + enemies_bytes(enemies@.take(i as int)),
        decreases enemies.len() - i,
    {
        let ghost pre = out@;
        let e = enemies[i];
        push_word(&mut out, e.px);
        push_word(&mut out, e.py);
        push_word(&mut out, e.vx);
        push_word(&mut out, e.vy);
        proof {
            let t = enemies@.take(i + 1);
            assert(t.drop_last() =~= enemies@.take(i as int));
            assert(t.last() == enemies@[i as int]);
            assert(out@ =~= pre + enemy_bytes(enemies@[i as int]));
            assert(out@ =~= header + enemies_bytes(t));
        }
        i = i + 1;
    }
    proof {
        assert(enemies@.take(enemies@.len() as int) =~= enemies@);
    }
    assert(out@ =~= state_bytes(px, py, vx, vy, dead, enemies@));
    out
}

/// The fixed reward payload behind opcode 2.
pub open spec fn reward_bytes() -> Seq<u8> {
    seq![
        2u8, 67u8, 84u8, 70u8, 123u8, 105u8, 95u8, 119u8, 97u8, 115u8, 116u8, 101u8, 100u8, 95u8,
        117u8, 114u8, 95u8, 116u8, 105u8, 109u8, 101u8, 63u8, 125u8,
    ]
}

/// Serialize the reward packet sent while the win condition holds.
pub fn encode_reward() -> (r: Vec<u8>)
    ensures
        r@ == reward_bytes(),
{
    let mut out: Vec<u8> = Vec::new();
    out.push(2);
    out.push(67);
    out.push(84);
    out.push(70);
    out.push(123);
    out.push(105);
    out.push(95);
    out.push(119);
    out.push(97);
    out.push(115);
    out.push(116);
    out.push(101);
    out.push(100);
    out.push(95);
    out.push(117);
    out.push(114);
    out.push(95);
    out.push(116);
    out.push(105);
    out.push(109);
    out.push(101);
    out.push(63);
    out.push(125);
    assert(out@ =~= reward_bytes());
    out
}

} // verus!

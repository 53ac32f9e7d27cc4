//! Actions and their fixed-width wire frame.
//!
//! A frame is exactly ten bytes: the action kind, the piece-type hint, and
//! the sender's timestamp as a big-endian signed 64-bit integer.

use vstd::prelude::*;
use crate::piece::PieceType;

verus! {

/// The length of a wire frame in bytes.
pub const FRAME_LEN: usize = 10;

/// The kind of an action.
#[derive(Debug, Clone, Copy, PartialEq, Eq, Structural)]
pub enum ActionType {
    Start,
    Rotate,
    Right,
    Left,
    Fall,
    HardDrop,
    ChangePiece,
    End,
    Ping,
}

impl ActionType {
    /// The wire code of an action kind.
    pub open spec fn code(self) -> u8 {
        match self {
            ActionType::Start => 0x00,
            ActionType::Rotate => 0x01,
            ActionType::Right => 0x02,
            ActionType::Left => 0x03,
            ActionType::Fall => 0x04,
            ActionType::HardDrop => 0x05,
            ActionType::ChangePiece => 0x06,
            ActionType::End => 0x07,
            ActionType::Ping => 0xFF,
        }
    }

    /// The action kind a wire code stands for; a code that names no kind
    /// stands for `End`.
    pub open spec fn of_code(code: u8) -> ActionType {
        if code == 0x00 {
            ActionType::Start
        } else if code == 0x01 {
            ActionType::Rotate
        } else if code == 0x02 {
            ActionType::Right
        } else if code == 0x03 {
            ActionType::Left
        } else if code == 0x04 {
            ActionType::Fall
        } else if code == 0x05 {
            ActionType::HardDrop
        } else if code == 0x06 {
            ActionType::ChangePiece
        } else if code == 0xFF {
            ActionType::Ping
        } else {
            ActionType::End
        }
    }

    pub fn to_u8(&self) -> (code: u8)
        ensures
            code == self.code(),
    {
        match self {
            ActionType::Start => 0x00,
            ActionType::Rotate => 0x01,
            ActionType::Right => 0x02,
            ActionType::Left => 0x03,
            ActionType::Fall => 0x04,
            ActionType::HardDrop => 0x05,
            ActionType::ChangePiece => 0x06,
            ActionType::End => 0x07,
            ActionType::Ping => 0xFF,
        }
    }

    pub fn from_u8(binary: u8) -> (kind: Self)
        ensures
            kind == Self::of_code(binary),
    {
        match binary {
            0x00 => ActionType::Start,
            0x01 => ActionType::Rotate,
            0x02 => ActionType::Right,
            0x03 => ActionType::Left,
            0x04 => ActionType::Fall,
            0x05 => ActionType::HardDrop,
            0x06 => ActionType::ChangePiece,
            0x07 => ActionType::End,
            0xFF => ActionType::Ping,
            _ => ActionType::End,
        }
    }
}

/// One player action: its kind, a piece-type hint and the sender's
/// timestamp.
#[derive(Debug, Clone, Copy, PartialEq, Eq, Structural)]
pub struct Action {
    pub action_type: ActionType,
    pub piece: PieceType,
    pub timestamp: i64,
}

/// The number that a sequence of bytes denotes when read big-endian.
pub open spec fn be_value(bytes: Seq<u8>) -> int
    decreases bytes.len(),
{
    if bytes.len() == 0 {
        0
    } else {
        be_value(bytes.drop_last()) * 256 + bytes.last()
    }
}

/// The `n` low-order base-256 digits of `value`, most significant first.
pub open spec fn be_digits(value: int, n: nat) -> Seq<u8>
    decreases n,
{
    if n == 0 {
        Seq::empty()
    } else {
        be_digits(value / 256, (n - 1) as nat).push((value % 256) as u8)
    }
}

/// The signed 64-bit integer whose two's-complement bit pattern is `bits`.
pub open spec fn signed_of(bits: int) -> int {
    if bits >= 0x8000_0000_0000_0000 {
        bits - 0x1_0000_0000_0000_0000
    } else {
        bits
    }
}

/// The two's-complement bit pattern of a signed 64-bit integer.
pub open spec fn bits_of(value: int) -> int {
    if value < 0 {
        value + 0x1_0000_0000_0000_0000
    } else {
        value
    }
}

/// The action that a ten-byte frame denotes.
pub open spec fn decoded(frame: Seq<u8>) -> Action {
    Action {
        action_type: ActionType::of_code(frame[0]),
        piece: PieceType::of_code(frame[1]),
        timestamp: signed_of(be_value(frame.subrange(2, 10))) as i64,
    }
}

/// The ten-byte frame of an action.
pub open spec fn encoded(action: Action) -> Seq<u8> {
    seq![action.action_type.code(), action.piece.code()] + be_digits(
        bits_of(action.timestamp as int),
        8,
    )
}

/// 256 to the `n`.
pub open spec fn radix_pow(n: nat) -> int
    decreases n,
{
    if n == 0 {
        1
    } else {
        256 * radix_pow((n - 1) as nat)
    }
}

/// A big-endian number of `n` bytes is below 256 to the `n`.
pub proof fn lemma_be_value_bound(bytes: Seq<u8>)
    ensures
        0 <= be_value(bytes) < radix_pow(bytes.len()),
    decreases bytes.len(),
{
    if bytes.len() > 0 {
        lemma_be_value_bound(bytes.drop_last());
    }
}

/// The number that eight bytes denote, written out: the first byte weighs
/// most.
pub proof fn lemma_be_value_of_eight(bytes: Seq<u8>)
    requires
        bytes.len() == 8,
    ensures
        be_value(bytes) == bytes[0] * 0x100_0000_0000_0000 + bytes[1] * 0x1_0000_0000_0000
            + bytes[2] * 0x100_0000_0000 + bytes[3] * 0x1_0000_0000 + bytes[4] * 0x100_0000
            + bytes[5] * 0x1_0000 + bytes[6] * 0x100 + bytes[7],
{
    let b7 = bytes.drop_last();
    let b6 = b7.drop_last();
    let b5 = b6.drop_last();
    let b4 = b5.drop_last();
    let b3 = b4.drop_last();
    let b2 = b3.drop_last();
    let b1 = b2.drop_last();
    let b0 = b1.drop_last();
    assert(be_value(b0) == 0);
    assert(be_value(b1) == bytes[0]);
    assert(be_value(b2) == be_value(b1) * 256 + bytes[1]);
    assert(be_value(b3) == be_value(b2) * 256 + bytes[2]);
    assert(be_value(b4) == be_value(b3) * 256 + bytes[3]);
    assert(be_value(b5) == be_value(b4) * 256 + bytes[4]);
    assert(be_value(b6) == be_value(b5) * 256 + bytes[5]);
    assert(be_value(b7) == be_value(b6) * 256 + bytes[6]);
    assert(be_value(bytes) == be_value(b7) * 256 + bytes[7]);
}

/// Reading back the `n` digits of a number below 256 to the `n` gives the
/// number.
pub proof fn lemma_digits_value(value: int, n: nat)
    requires
        0 <= value < radix_pow(n),
    ensures
        be_digits(value, n).len() == n,
        be_value(be_digits(value, n)) == value,
    decreases n,
{
    if n > 0 {
        let rest = be_digits(value / 256, (n - 1) as nat);
        assert(0 <= value / 256 < radix_pow((n - 1) as nat));
        lemma_digits_value(value / 256, (n - 1) as nat);
        assert(be_digits(value, n).drop_last() =~= rest);
    }
}

/// Writing out the digits of the number that `bytes` denotes gives `bytes`.
pub proof fn lemma_value_digits(bytes: Seq<u8>)
    ensures
        be_digits(be_value(bytes), bytes.len()) == bytes,
    decreases bytes.len(),
{
    if bytes.len() > 0 {
        let head = bytes.drop_last();
        lemma_value_digits(head);
        let v = be_value(bytes);
        assert(v / 256 == be_value(head) && v % 256 == bytes.last());
        assert(be_digits(v, bytes.len()) =~= bytes);
    } else {
        assert(be_digits(be_value(bytes), 0) =~= bytes);
    }
}

impl Action {
    /// Decodes the action of a frame of exactly `FRAME_LEN` bytes. Every
    /// such frame decodes: an unknown kind reads as `End`, an unknown piece
    /// type as `Void`.
    pub fn decode(frame: &[u8]) -> (action: Action)
        requires
            frame@.len() == FRAME_LEN,
        ensures
            action == decoded(frame@),
    {
        let ghost stamp = frame@.subrange(2, 10);
        let mut bits: u64 = 0;
        let mut k: usize = 2;
        while k < 10
            invariant
                frame@.len() == 10,
                stamp == frame@.subrange(2, 10),
                2 <= k <= 10,
                bits == be_value(stamp.take(k - 2)),
                bits < radix_pow((k - 2) as nat),
            decreases 10 - k,
        {
            proof {
                let read = stamp.take(k - 1);
                assert(read.drop_last() =~= stamp.take(k - 2));
                assert(read.last() == frame@[k as int]);
                lemma_radix_pow_8();
                lemma_pow_monotonic((k - 1) as nat, 8);
            }
            bits = bits * 256 + frame[k] as u64;
            k += 1;
        }
        assert(stamp.take(8) =~= stamp);
        let timestamp: i64 = if bits >= 0x8000_0000_0000_0000 {
            ((bits - 0x8000_0000_0000_0000) as i64) + i64::MIN
        } else {
            bits as i64
        };
        Action {
            action_type: ActionType::from_u8(frame[0]),
            piece: PieceType::from_u8(frame[1]),
            timestamp,
        }
    }

    /// Decodes a transport message: `None` exactly when its length is not
    /// `FRAME_LEN`, in which case no action is built.
    pub fn from_frame(message: &[u8]) -> (action: Option<Action>)
        ensures
            action == if message@.len() == FRAME_LEN {
                Some(decoded(message@))
            } else {
                None
            },
    {
        if message.len() == FRAME_LEN {
            Some(Action::decode(message))
        } else {
            None
        }
    }

    /// The frame of this action.
    pub fn encode(&self) -> (frame: Vec<u8>)
        ensures
            frame@ == encoded(*self),
            frame@.len() == FRAME_LEN,
    {
        let bits: u64 = if self.timestamp < 0 {
            ((self.timestamp - i64::MIN) as u64) + 0x8000_0000_0000_0000
        } else {
            self.timestamp as u64
        };
        let mut digits = digits_of(bits, 8);
        let mut frame: Vec<u8> = Vec::new();
        frame.push(self.action_type.to_u8());
        frame.push(self.piece.to_u8());
        frame.append(&mut digits);
        proof {
            lemma_digits_len(bits as int, 8);
            assert(frame@ =~= encoded(*self));
        }
        frame
    }
}

/// The `n` low-order base-256 digits of `value`, most significant first.
fn digits_of(value: u64, n: usize) -> (digits: Vec<u8>)
    ensures
        digits@ == be_digits(value as int, n as nat),
    decreases n,
{
    if n == 0 {
        Vec::new()
    } else {
        let mut digits = digits_of(value / 256, n - 1);
        digits.push((value % 256) as u8);
        digits
    }
}

/// A number written with `n` digits has `n` digits.
pub proof fn lemma_digits_len(value: int, n: nat)
    ensures
        be_digits(value, n).len() == n,
    decreases n,
{
    if n > 0 {
        lemma_digits_len(value / 256, (n - 1) as nat);
    }
}

/// 256 to the eighth is two to the sixty-fourth.
pub proof fn lemma_radix_pow_8()
    ensures
        radix_pow(8) == 0x1_0000_0000_0000_0000,
{
    reveal_with_fuel(radix_pow, 9);
}

/// Decoding the frame of an action gives the action back: the same kind,
/// the same piece hint, and the same timestamp bit for bit.
pub proof fn lemma_decode_encode(action: Action)
    ensures
        encoded(action).len() == FRAME_LEN,
        decoded(encoded(action)) == action,
{
    let bits = bits_of(action.timestamp as int);
    let frame = encoded(action);
    lemma_radix_pow_8();
    lemma_digits_value(bits, 8);
    assert(frame.subrange(2, 10) =~= be_digits(bits, 8));
    assert(frame[0] == action.action_type.code());
    assert(frame[1] == action.piece.code());
}

/// Encoding the action of a frame gives the frame back, where the frame
/// names its kind and its piece type by their own codes.
pub proof fn lemma_encode_decode(frame: Seq<u8>)
    requires
        frame.len() == FRAME_LEN,
        frame[0] <= 0x07 || frame[0] == 0xFF,
        frame[1] <= 0x07,
    ensures
        encoded(decoded(frame)) == frame,
{
    let stamp = frame.subrange(2, 10);
    let bits = be_value(stamp);
    lemma_be_value_bound(stamp);
    lemma_radix_pow_8();
    lemma_value_digits(stamp);
    assert(bits_of(signed_of(bits)) == bits);
    assert(encoded(decoded(frame)) =~= frame);
}

/// Larger exponents give larger powers.
pub proof fn lemma_pow_monotonic(a: nat, b: nat)
    requires
        a <= b,
    ensures
        0 < radix_pow(a) <= radix_pow(b),
    decreases b,
{
    if a < b {
        lemma_pow_monotonic(a, (b - 1) as nat);
    } else if a > 0 {
        lemma_pow_monotonic((a - 1) as nat, (a - 1) as nat);
    }
}

} // verus!

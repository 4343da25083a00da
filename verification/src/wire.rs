//! The byte form of a [`Message`], for control surfaces that reach the render
//! side only through a byte channel.
//!
//! All integers are little-endian. A message starts with a 32-bit tag:
//!
//! | tag | message     | body                                                   |
//! |-----|-------------|--------------------------------------------------------|
//! | 0   | `SetParams` | index (64 bit), shape, amplitude, frequency, phase     |
//! | 1   | `Reset`     | none                                                   |
//!
//! A shape is a 32-bit tag (0 sine, 1 triangle, 2 square, 3 sawtooth); a
//! square is followed by its duty cycle. Amplitude, frequency, phase and duty
//! cycle are the 64 bits of a binary64 number. Bytes after the message are
//! not looked at.

use crate::bytes::field_u32;
use crate::bytes::field_u64;
use crate::bytes::lemma_fields_round_trip;
use crate::bytes::put_u32;
use crate::bytes::put_u64;
use crate::bytes::read_u32;
use crate::bytes::read_u64;
use crate::bytes::u32_to_le;
use crate::bytes::u64_to_le;
use crate::message::ChannelParams;
use crate::message::Message;
use crate::message::WaveShape;
use vstd::prelude::*;

verus! {

/// Message tag of `SetParams`.
pub const TAG_SET_PARAMS: u32 = 0;

/// Message tag of `Reset`.
pub const TAG_RESET: u32 = 1;

/// Shape tag of a sine.
pub const TAG_SINE: u32 = 0;

/// Shape tag of a triangle.
pub const TAG_TRIANGLE: u32 = 1;

/// Shape tag of a square, which is followed by the duty cycle.
pub const TAG_SQUARE: u32 = 2;

/// Shape tag of a sawtooth.
pub const TAG_SAWTOOTH: u32 = 3;

/// Why a byte string is not a message.
#[derive(Clone, Copy, Debug, PartialEq, Eq, Structural)]
pub enum DecodeError {
    /// The bytes end before the message does.
    Truncated,
    /// The message tag, carried here, names no message.
    UnknownMessage(u32),
    /// The shape tag, carried here, names no shape.
    UnknownShape(u32),
    /// The channel index, carried here, is beyond what this machine can index.
    IndexTooLarge(u64),
}

impl DecodeError {
    /// The sentence that goes with each error.
    pub open spec fn spec_describe(self) -> Seq<char> {
        match self {
            DecodeError::Truncated => "malformed message received: unexpected end of input"@,
            DecodeError::UnknownMessage(_) => "malformed message received: unknown message tag"@,
            DecodeError::UnknownShape(_) => "malformed message received: unknown shape tag"@,
            DecodeError::IndexTooLarge(_) =>
                "malformed message received: channel index out of range"@,
        }
    }

    /// A sentence for the control surface.
    pub fn describe(&self) -> (r: &'static str)
        ensures
            r@ == self.spec_describe(),
    {
        match self {
            DecodeError::Truncated => "malformed message received: unexpected end of input",
            DecodeError::UnknownMessage(_) => "malformed message received: unknown message tag",
            DecodeError::UnknownShape(_) => "malformed message received: unknown shape tag",
            DecodeError::IndexTooLarge(_) =>
                "malformed message received: channel index out of range",
        }
    }
}

/// The bytes of a shape.
pub open spec fn shape_encoding(shape: WaveShape) -> Seq<u8> {
    match shape {
        WaveShape::Sine => u32_to_le(TAG_SINE),
        WaveShape::Triangle => u32_to_le(TAG_TRIANGLE),
        WaveShape::Square(duty) => u32_to_le(TAG_SQUARE) + u64_to_le(duty),
        WaveShape::Sawtooth => u32_to_le(TAG_SAWTOOTH),
    }
}

/// The bytes of a message.
pub open spec fn encoding(message: Message) -> Seq<u8> {
    match message {
        Message::SetParams(index, params) => u32_to_le(TAG_SET_PARAMS)
            + u64_to_le(index as u64) + shape_encoding(params.shape)
            + u64_to_le(params.amplitude_db) + u64_to_le(params.frequency)
            + u64_to_le(params.phase_degrees),
        Message::Reset => u32_to_le(TAG_RESET),
    }
}

/// The shape that starts at offset `at`, with the offset at which it ends.
pub open spec fn parsed_shape(bytes: Seq<u8>, at: int) -> Result<(WaveShape, int), DecodeError> {
    match field_u32(bytes, at) {
        None => Err(DecodeError::Truncated),
        Some(tag) => if tag == TAG_SINE {
            Ok((WaveShape::Sine, at + 4))
        } else if tag == TAG_TRIANGLE {
            Ok((WaveShape::Triangle, at + 4))
        } else if tag == TAG_SQUARE {
            match field_u64(bytes, at + 4) {
                None => Err(DecodeError::Truncated),
                Some(duty) => Ok((WaveShape::Square(duty), at + 12)),
            }
        } else if tag == TAG_SAWTOOTH {
            Ok((WaveShape::Sawtooth, at + 4))
        } else {
            Err(DecodeError::UnknownShape(tag))
        },
    }
}

/// The three numbers that follow a shape.
pub open spec fn parsed_params(bytes: Seq<u8>, shape: WaveShape, at: int) -> Result<
    ChannelParams,
    DecodeError,
> {
    match (field_u64(bytes, at), field_u64(bytes, at + 8), field_u64(bytes, at + 16)) {
        (Some(amplitude_db), Some(frequency), Some(phase_degrees)) => Ok(
            ChannelParams { shape, amplitude_db, frequency, phase_degrees },
        ),
        _ => Err(DecodeError::Truncated),
    }
}

/// What a byte string says, read field by field from the front: the message
/// it starts with, or the first reason why it starts with none.
pub open spec fn parsed(bytes: Seq<u8>) -> Result<Message, DecodeError> {
    match field_u32(bytes, 0) {
        None => Err(DecodeError::Truncated),
        Some(tag) => if tag == TAG_RESET {
            Ok(Message::Reset)
        } else if tag == TAG_SET_PARAMS {
            match field_u64(bytes, 4) {
                None => Err(DecodeError::Truncated),
                Some(index) => if index > usize::MAX {
                    Err(DecodeError::IndexTooLarge(index))
                } else {
                    match parsed_shape(bytes, 12) {
                        Err(e) => Err(e),
                        Ok((shape, next)) => match parsed_params(bytes, shape, next) {
                            Err(e) => Err(e),
                            Ok(params) => Ok(Message::SetParams(index as usize, params)),
                        },
                    }
                },
            }
        } else {
            Err(DecodeError::UnknownMessage(tag))
        },
    }
}

fn read_shape(bytes: &[u8], at: usize) -> (r: Result<(WaveShape, usize), DecodeError>)
    requires
        at + 12 <= usize::MAX,
    ensures
        match r {
            Ok((shape, next)) => parsed_shape(bytes@, at as int) == Ok::<_, DecodeError>(
                (shape, next as int),
            ),
            Err(e) => parsed_shape(bytes@, at as int) == Err::<(WaveShape, int), _>(e),
        },
{
    match read_u32(bytes, at) {
        None => Err(DecodeError::Truncated),
        Some(tag) => {
            if tag == TAG_SINE {
                Ok((WaveShape::Sine, at + 4))
            } else if tag == TAG_TRIANGLE {
                Ok((WaveShape::Triangle, at + 4))
            } else if tag == TAG_SQUARE {
                match read_u64(bytes, at + 4) {
                    None => Err(DecodeError::Truncated),
                    Some(duty) => Ok((WaveShape::Square(duty), at + 12)),
                }
            } else if tag == TAG_SAWTOOTH {
                Ok((WaveShape::Sawtooth, at + 4))
            } else {
                Err(DecodeError::UnknownShape(tag))
            }
        },
    }
}

/// Reads the message at the front of `bytes`.
pub fn decode(bytes: &[u8]) -> (r: Result<Message, DecodeError>)
    ensures
        r == parsed(bytes@),
{
    let tag = match read_u32(bytes, 0) {
        None => { return Err(DecodeError::Truncated); },
        Some(tag) => tag,
    };
    if tag == TAG_RESET {
        return Ok(Message::Reset);
    }
    if tag != TAG_SET_PARAMS {
        return Err(DecodeError::UnknownMessage(tag));
    }
    let index = match read_u64(bytes, 4) {
        None => { return Err(DecodeError::Truncated); },
        Some(index) => index,
    };
    if index > usize::MAX as u64 {
        return Err(DecodeError::IndexTooLarge(index));
    }
    let (shape, next) = match read_shape(bytes, 12) {
        Err(e) => { return Err(e); },
        Ok(found) => found,
    };
    let amplitude_db = read_u64(bytes, next);
    let frequency = read_u64(bytes, next + 8);
    let phase_degrees = read_u64(bytes, next + 16);
    match (amplitude_db, frequency, phase_degrees) {
        (Some(amplitude_db), Some(frequency), Some(phase_degrees)) => Ok(
            Message::SetParams(
                index as usize,
                ChannelParams { shape, amplitude_db, frequency, phase_degrees },
            ),
        ),
        _ => Err(DecodeError::Truncated),
    }
}

/// Writes a message as bytes.
pub fn encode(message: &Message) -> (out: Vec<u8>)
    ensures
        out@ == encoding(*message),
{
    let mut out: Vec<u8> = Vec::new();
    match message {
        Message::SetParams(index, params) => {
            put_u32(&mut out, TAG_SET_PARAMS);
            put_u64(&mut out, *index as u64);
            match params.shape {
                WaveShape::Sine => put_u32(&mut out, TAG_SINE),
                WaveShape::Triangle => put_u32(&mut out, TAG_TRIANGLE),
                WaveShape::Square(duty) => {
                    put_u32(&mut out, TAG_SQUARE);
                    put_u64(&mut out, duty);
                },
                WaveShape::Sawtooth => put_u32(&mut out, TAG_SAWTOOTH),
            }
            put_u64(&mut out, params.amplitude_db);
            put_u64(&mut out, params.frequency);
            put_u64(&mut out, params.phase_degrees);
        },
        Message::Reset => {
            put_u32(&mut out, TAG_RESET);
        },
    }
    assert(out@ =~= encoding(*message));
    out
}

/// Decoding undoes encoding, whatever bytes follow the message.
pub proof fn lemma_round_trip(message: Message, rest: Seq<u8>)
    ensures
        parsed(encoding(message) + rest) == Ok::<Message, DecodeError>(message),
{
    let bytes = encoding(message) + rest;
    lemma_fields_round_trip();
    match message {
        Message::Reset => {
            assert(bytes.subrange(0, 4) =~= u32_to_le(TAG_RESET));
        },
        Message::SetParams(index, params) => {
            assert(bytes.subrange(0, 4) =~= u32_to_le(TAG_SET_PARAMS));
            assert(bytes.subrange(4, 12) =~= u64_to_le(index as u64));
            let next: int = 12 + shape_encoding(params.shape).len() as int;
            match params.shape {
                WaveShape::Sine => {
                    assert(bytes.subrange(12, 16) =~= u32_to_le(TAG_SINE));
                },
                WaveShape::Triangle => {
                    assert(bytes.subrange(12, 16) =~= u32_to_le(TAG_TRIANGLE));
                },
                WaveShape::Square(duty) => {
                    assert(bytes.subrange(12, 16) =~= u32_to_le(TAG_SQUARE));
                    assert(bytes.subrange(16, 24) =~= u64_to_le(duty));
                },
                WaveShape::Sawtooth => {
                    assert(bytes.subrange(12, 16) =~= u32_to_le(TAG_SAWTOOTH));
                },
            }
            assert(parsed_shape(bytes, 12) == Ok::<_, DecodeError>((params.shape, next)));
            assert(bytes.subrange(next, next + 8) =~= u64_to_le(params.amplitude_db));
            assert(bytes.subrange(next + 8, next + 16) =~= u64_to_le(params.frequency));
            assert(bytes.subrange(next + 16, next + 24) =~= u64_to_le(
                params.phase_degrees,
            ));
        },
    }
}

/// A byte string that is accepted starts with the encoding of the message it
/// is read as: no two byte forms stand for one message.
pub proof fn lemma_accepted_is_encoding(bytes: Seq<u8>, message: Message)
    requires
        parsed(bytes) == Ok::<Message, DecodeError>(message),
    ensures
        encoding(message).len() <= bytes.len(),
        bytes.take(encoding(message).len() as int) == encoding(message),
{
    lemma_fields_round_trip();
    let tag = field_u32(bytes, 0).unwrap();
    assert(u32_to_le(tag) == bytes.subrange(0, 4));
    match message {
        Message::Reset => {
            assert(bytes.take(4) =~= bytes.subrange(0, 4));
        },
        Message::SetParams(index, params) => {
            assert(u64_to_le(index as u64) == bytes.subrange(4, 12));
            let shape_tag = field_u32(bytes, 12).unwrap();
            assert(u32_to_le(shape_tag) == bytes.subrange(12, 16));
            let next = parsed_shape(bytes, 12).unwrap().1;
            if params.shape is Square {
                assert(u64_to_le(params.shape->0) == bytes.subrange(16, 24));
            }
            assert(shape_encoding(params.shape) =~= bytes.subrange(12, next));
            assert(u64_to_le(params.amplitude_db) == bytes.subrange(next, next + 8));
            assert(u64_to_le(params.frequency) == bytes.subrange(next + 8, next + 16));
            assert(u64_to_le(params.phase_degrees) == bytes.subrange(
                next + 16,
                next + 24,
            ));
            assert(bytes.take(next + 24) =~= encoding(message));
        },
    }
}

} // verus!

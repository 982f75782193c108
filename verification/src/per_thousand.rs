//! A ratio expressed in thousandths.

use parity_scale_codec::Decode;
use rand::rngs::StdRng;
use rand::Rng;
use vstd::prelude::*;

verus! {

/// The standard generator of `rand`; nothing is known of its state.
#[verifier::external_type_specification]
#[verifier::external_body]
pub struct ExStdRng(rand::rngs::StdRng);

/// Calls `Rng::gen_range` of `rand` with the inclusive range from `low` to
/// `high`. The result lies in that range; which value it is depends on the
/// generator. `gen_range` panics on an empty range, which the precondition
/// rules out.
#[verifier::external_body]
fn gen_range_inclusive(rng: &mut StdRng, low: u16, high: u16) -> (r: u16)
    requires
        low <= high,
    ensures
        low <= r <= high,
{
    rng.gen_range(low..=high)
}

/// The number that two bytes stand for, the less significant byte first.
pub open spec fn spec_u16_le(b0: u8, b1: u8) -> u16 {
    (b0 as int + 256 * (b1 as int)) as u16
}

/// Calls `u16::decode` of `parity_scale_codec` on `input`. That function
/// reads two bytes and takes them as a little-endian number; it fails if
/// fewer than two bytes are there, and ignores what follows them.
#[verifier::external_body]
fn decode_u16(input: &[u8]) -> (r: Option<u16>)
    ensures
        r == (if input@.len() >= 2 {
            Some(spec_u16_le(input@[0], input@[1]))
        } else {
            None
        }),
{
    let mut input = input;
    u16::decode(&mut input).ok()
}

/// Why bytes could not be decoded into a `PerThousand`.
#[derive(Clone, Copy, Debug, PartialEq, Eq, Structural)]
pub enum PerThousandDecodeError {
    /// Fewer than two bytes were given.
    NotEnoughData,
    /// The bytes hold this number, which is more than one thousand.
    OutOfRange(u16),
}

/// A number of thousandths, never more than one thousand.
#[derive(Clone, Copy, Debug, PartialEq, Eq, Structural, PartialOrd, Ord)]
pub struct PerThousand(u16);

impl PerThousand {
    /// The invariant of the type: the stored number is at most 1000.
    pub closed spec fn wf(&self) -> bool {
        self.0 <= 1000
    }

    /// The stored number of thousandths.
    pub closed spec fn spec_value(&self) -> u16 {
        self.0
    }

    /// Accepts exactly the values from 0 to 1000.
    pub fn new(value: u16) -> (r: Option<Self>)
        ensures
            r.is_some() <==> value <= 1000,
            r.is_some() ==> r.unwrap().spec_value() == value && r.unwrap().wf(),
            r.is_none() <==> value > 1000,
    {
        if value <= 1000 {
            Some(Self(value))
        } else {
            None
        }
    }

    /// What `decode` returns for `input`: the number in its first two bytes,
    /// if it is at most one thousand.
    pub open spec fn spec_decode(input: Seq<u8>) -> Result<u16, PerThousandDecodeError> {
        if input.len() < 2 {
            Err(PerThousandDecodeError::NotEnoughData)
        } else if spec_u16_le(input[0], input[1]) > 1000 {
            Err(PerThousandDecodeError::OutOfRange(spec_u16_le(input[0], input[1])))
        } else {
            Ok(spec_u16_le(input[0], input[1]))
        }
    }

    /// Decodes a ratio from its encoding, a little-endian number of two
    /// bytes.
    pub fn decode(input: &[u8]) -> (r: Result<Self, PerThousandDecodeError>)
        ensures
            match (Self::spec_decode(input@), r) {
                (Ok(v), Ok(p)) => p.spec_value() == v && p.wf(),
                (Err(e1), Err(e2)) => e1 == e2,
                _ => false,
            },
    {
        match decode_u16(input) {
            None => Err(PerThousandDecodeError::NotEnoughData),
            Some(decoded_value) => match Self::new(decoded_value) {
                Some(p) => Ok(p),
                None => Err(PerThousandDecodeError::OutOfRange(decoded_value)),
            },
        }
    }

    /// A ratio drawn from `rng`: any number of thousandths from 0 to 1000.
    pub fn new_from_rng(rng: &mut StdRng) -> (r: Self)
        ensures
            r.wf(),
            r.spec_value() <= 1000,
    {
        Self(gen_range_inclusive(rng, 0, 1000))
    }

    /// The number of thousandths.
    pub fn value(&self) -> (v: u16)
        ensures
            v == self.spec_value(),
            self.wf() ==> v <= 1000,
    {
        self.0
    }
}

} // verus!

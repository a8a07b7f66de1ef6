//! The two-letter notation of strain bids, such as `1C`, `4s` or `3NT`.

use crate::auction::StrainBid;
use crate::contract::{ContractLevel, Strain};
use vstd::prelude::*;
use vstd::string::StringSliceAdditionalSpecFns;

verus! {

/// The digit `0` in ASCII.
pub const DIGIT_ZERO: u8 = 48;

/// The letter `a` in ASCII.
pub const LOWER_A: u8 = 97;

/// The letter `z` in ASCII.
pub const LOWER_Z: u8 = 122;

/// The letter `C` in ASCII.
pub const UPPER_C: u8 = 67;

/// The letter `D` in ASCII.
pub const UPPER_D: u8 = 68;

/// The letter `H` in ASCII.
pub const UPPER_H: u8 = 72;

/// The letter `N` in ASCII.
pub const UPPER_N: u8 = 78;

/// The letter `S` in ASCII.
pub const UPPER_S: u8 = 83;

/// The level that the digit `byte` stands for: `1` to `7`.
pub open spec fn level_of_digit(byte: u8) -> Option<ContractLevel> {
    if byte == DIGIT_ZERO + 1 {
        Some(ContractLevel::One)
    } else if byte == DIGIT_ZERO + 2 {
        Some(ContractLevel::Two)
    } else if byte == DIGIT_ZERO + 3 {
        Some(ContractLevel::Three)
    } else if byte == DIGIT_ZERO + 4 {
        Some(ContractLevel::Four)
    } else if byte == DIGIT_ZERO + 5 {
        Some(ContractLevel::Five)
    } else if byte == DIGIT_ZERO + 6 {
        Some(ContractLevel::Six)
    } else if byte == DIGIT_ZERO + 7 {
        Some(ContractLevel::Seven)
    } else {
        None
    }
}

/// The upper-case form of an ASCII letter; any other byte as it is.
pub open spec fn spec_upper_case(byte: u8) -> u8 {
    if LOWER_A <= byte <= LOWER_Z {
        (byte - 32) as u8
    } else {
        byte
    }
}

/// The strain that the letter `byte` stands for, in either case: `C`, `D`,
/// `H` and `S` for the suits, `N` for no-trump.
pub open spec fn strain_of_letter(byte: u8) -> Option<Strain> {
    let letter = spec_upper_case(byte);
    if letter == UPPER_N {
        Some(Strain::NoTrump)
    } else if letter == UPPER_S {
        Some(Strain::Spades)
    } else if letter == UPPER_H {
        Some(Strain::Hearts)
    } else if letter == UPPER_D {
        Some(Strain::Diamonds)
    } else if letter == UPPER_C {
        Some(Strain::Clubs)
    } else {
        None
    }
}

/// What is wrong with a text whose first byte is not a level.
pub open spec fn level_error() -> &'static str {
    "Should be between 1 and 7"
}

/// What is wrong with a text whose second byte is not a strain.
pub open spec fn strain_error() -> &'static str {
    "Should be either a suit or notrump"
}

/// The bid that `bytes` stands for. The first byte gives the level and the
/// second the strain; what follows them is not read. A text without a level
/// fails with [`level_error`], and one with a level and without a strain
/// fails with [`strain_error`].
pub open spec fn parse_strain_bid(bytes: Seq<u8>) -> Result<StrainBid, &'static str> {
    if bytes.len() < 1 || level_of_digit(bytes[0]) is None {
        Err(level_error())
    } else if bytes.len() < 2 || strain_of_letter(bytes[1]) is None {
        Err(strain_error())
    } else {
        Ok(
            StrainBid {
                level: level_of_digit(bytes[0])->Some_0,
                strain: strain_of_letter(bytes[1])->Some_0,
            },
        )
    }
}

/// Returns the upper-case form of an ASCII letter, and any other byte as it
/// is.
pub fn upper_case(byte: u8) -> (r: u8)
    ensures
        r == spec_upper_case(byte),
{
    if LOWER_A <= byte && byte <= LOWER_Z {
        byte - 32
    } else {
        byte
    }
}

impl StrainBid {
    /// Reads a bid from the bytes of its notation.
    pub fn from_bytes(bytes: &[u8]) -> (r: Result<StrainBid, &'static str>)
        ensures
            r == parse_strain_bid(bytes@),
    {
        if bytes.len() < 1 {
            return Err("Should be between 1 and 7");
        }
        let code: u8 = bytes[0];
        if code < DIGIT_ZERO {
            return Err("Should be between 1 and 7");
        }
        let level = match ContractLevel::from_u8(code - DIGIT_ZERO) {
            Some(level) => level,
            None => {
                return Err("Should be between 1 and 7");
            },
        };
        if bytes.len() < 2 {
            return Err("Should be either a suit or notrump");
        }
        let letter: u8 = upper_case(bytes[1]);
        let strain = if letter == UPPER_N {
            Strain::NoTrump
        } else if letter == UPPER_S {
            Strain::Spades
        } else if letter == UPPER_H {
            Strain::Hearts
        } else if letter == UPPER_D {
            Strain::Diamonds
        } else if letter == UPPER_C {
            Strain::Clubs
        } else {
            return Err("Should be either a suit or notrump");
        };
        Ok(StrainBid { level, strain })
    }
}

impl<'a> TryFrom<&'a str> for StrainBid {
    type Error = &'static str;

    fn try_from(value: &'a str) -> (r: Result<Self, Self::Error>) {
        StrainBid::from_bytes(value.as_bytes())
    }
}

impl<'a> vstd::std_specs::convert::TryFromSpecImpl<&'a str> for StrainBid {
    open spec fn obeys_try_from_spec() -> bool {
        true
    }

    open spec fn try_from_spec(v: &'a str) -> Result<Self, &'static str> {
        parse_strain_bid(v.spec_bytes())
    }
}

} // verus!

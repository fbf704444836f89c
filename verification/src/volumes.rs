//! Decoding the OS bitmask of mounted volumes into drive letters.
//!
//! The OS query itself is a read-only call made by the surrounding program;
//! this module holds the logic that interprets its result: each of the low
//! 26 bits of the mask stands for one drive letter, `A` for bit 0 through
//! `Z` for bit 25, and any higher bit set means the platform broke the
//! drive-letter encoding.

use vstd::prelude::*;
use crate::text::{dec_str, push_char, u32_to_decimal};

verus! {

/// The bits of the mask that lie beyond the 26 drive letters.
pub const INVALID_DRIVE_LETTER_BITMASK: u32 = 0b11111100_00000000_00000000_00000000;

/// An error from enumerating the mounted volumes.
pub enum GetLogicalDrivesError {
    /// The OS handed back a bitmask with bits set beyond the drive-letter range.
    TooManyDrivesError,
    /// The OS call itself failed, with its diagnostic code.
    ApiError(u32),
}

/// Whether bit `i` of `mask` is set.
pub open spec fn bit_set(mask: u32, i: u32) -> bool {
    mask & (1u32 << i) != 0
}

/// The drive letter for bit `i`: `A` for bit 0 through `Z` for bit 25.
pub open spec fn letter_of(i: int) -> char
    recommends
        0 <= i < 26,
{
    (('A' as u8) + i as u8) as char
}

/// The letters of the bits set among the low `n` bits of `mask`, in
/// ascending order.
pub open spec fn letters_upto(mask: u32, n: nat) -> Seq<char>
    decreases n,
{
    if n == 0 {
        Seq::empty()
    } else {
        letters_upto(mask, (n - 1) as nat)
            + (if bit_set(mask, (n - 1) as u32) { seq![letter_of(n - 1)] } else { Seq::empty() })
    }
}

/// The drive letters encoded by `mask`, in ascending order.
pub open spec fn drive_letters(mask: u32) -> Seq<char> {
    letters_upto(mask, 26)
}

impl GetLogicalDrivesError {
    /// The error rendered as text: `TooManyDrives`, or `ApiError(code)` with
    /// the OS diagnostic code in decimal.
    pub fn describe(&self) -> (s: String)
        ensures
            self is TooManyDrivesError ==> s@ == "TooManyDrives"@,
            self matches GetLogicalDrivesError::ApiError(code)
                ==> s@ == "ApiError("@ + dec_str(code as nat) + ")"@,
    {
        match self {
            GetLogicalDrivesError::TooManyDrivesError => "TooManyDrives".to_owned(),
            GetLogicalDrivesError::ApiError(code) => {
                let mut s = "ApiError(".to_owned();
                s.append(u32_to_decimal(*code).as_str());
                push_char(&mut s, ')');
                proof {
                    reveal_strlit(")");
                    assert(s@ =~= "ApiError("@ + dec_str(*code as nat) + ")"@);
                }
                s
            },
        }
    }
}

/// Decodes the result of the OS volume query.
///
/// `mask` is the bitmask the query returned; `api_error_code` is the OS
/// diagnostic fetched by the caller when the query reported failure (a zero
/// mask). A zero mask is the query's failure signal and yields `ApiError`
/// with that code; a mask with bits beyond the 26 letters yields
/// `TooManyDrivesError`; otherwise the set bits become drive letters in
/// ascending order.
pub fn decode_drives(mask: u32, api_error_code: u32) -> (r: Result<Vec<char>, GetLogicalDrivesError>)
    ensures
        mask == 0 ==> (r matches Err(GetLogicalDrivesError::ApiError(c)) && c == api_error_code),
        mask != 0 && mask & INVALID_DRIVE_LETTER_BITMASK != 0
            ==> r is Err && r->Err_0 is TooManyDrivesError,
        mask != 0 && mask & INVALID_DRIVE_LETTER_BITMASK == 0
            ==> (r matches Ok(v) && v@ == drive_letters(mask)),
{
    if mask == 0 {
        return Err(GetLogicalDrivesError::ApiError(api_error_code));
    }
    if mask & INVALID_DRIVE_LETTER_BITMASK != 0 {
        return Err(GetLogicalDrivesError::TooManyDrivesError);
    }
    let mut v: Vec<char> = Vec::new();
    let mut i: u32 = 0;
    while i < 26
        invariant
            i <= 26,
            v@ == letters_upto(mask, i as nat),
        decreases 26 - i,
    {
        if mask & (1u32 << i) != 0 {
            v.push((('A' as u8) + i as u8) as char);
            proof {
                assert(v@ =~= letters_upto(mask, (i + 1) as nat));
            }
        } else {
            proof {
                assert(v@ =~= letters_upto(mask, (i + 1) as nat));
            }
        }
        i = i + 1;
    }
    Ok(v)
}

} // verus!

//! Well-formedness of asset identifiers.
//!
//! An asset identifier names a fungible token type: an uppercase
//! alphanumeric ticker of 3 to 10 bytes, a dash, and a 6-byte lowercase
//! alphanumeric suffix.

use vstd::prelude::*;

verus! {

/// ASCII `A`.
pub const UPPER_A: u8 = 65;

/// ASCII `Z`.
pub const UPPER_Z: u8 = 90;

/// ASCII `a`.
pub const LOWER_A: u8 = 97;

/// ASCII `z`.
pub const LOWER_Z: u8 = 122;

/// ASCII `0`.
pub const DIGIT_0: u8 = 48;

/// ASCII `9`.
pub const DIGIT_9: u8 = 57;

/// ASCII `-`.
pub const DASH: u8 = 45;

/// A byte allowed in the ticker part: `A`..`Z` or `0`..`9`.
pub open spec fn spec_ticker_byte(b: u8) -> bool {
    (UPPER_A <= b && b <= UPPER_Z) || (DIGIT_0 <= b && b <= DIGIT_9)
}

/// A byte allowed in the suffix part: `a`..`z` or `0`..`9`.
pub open spec fn spec_suffix_byte(b: u8) -> bool {
    (LOWER_A <= b && b <= LOWER_Z) || (DIGIT_0 <= b && b <= DIGIT_9)
}

/// A well-formed asset identifier: `TICKER-suffix` with a ticker of 3 to
/// 10 uppercase alphanumeric bytes and a suffix of exactly 6 lowercase
/// alphanumeric bytes.
pub open spec fn spec_valid_asset_id(s: Seq<u8>) -> bool {
    &&& 10 <= s.len() <= 17
    &&& s[s.len() - 7] == DASH
    &&& forall|i: int| 0 <= i < s.len() - 7 ==> spec_ticker_byte(#[trigger] s[i])
    &&& forall|i: int| s.len() - 6 <= i < s.len() ==> spec_suffix_byte(#[trigger] s[i])
}

/// Decides whether `s` is a well-formed asset identifier.
pub fn is_valid_asset_id(s: &Vec<u8>) -> (r: bool)
    ensures
        r == spec_valid_asset_id(s@),
{
    let n = s.len();
    if n < 10 || n > 17 {
        return false;
    }
    if s[n - 7] != DASH {
        return false;
    }
    let mut i: usize = 0;
    while i < n - 7
        invariant
            0 <= i <= n - 7,
            n == s@.len(),
            10 <= n <= 17,
            forall|j: int| 0 <= j < i ==> spec_ticker_byte(#[trigger] s@[j]),
        decreases n - 7 - i,
    {
        let b = s[i];
        if !((UPPER_A <= b && b <= UPPER_Z) || (DIGIT_0 <= b && b <= DIGIT_9)) {
            return false;
        }
        i = i + 1;
    }
    let mut k: usize = n - 6;
    while k < n
        invariant
            n - 6 <= k <= n,
            n == s@.len(),
            10 <= n <= 17,
            forall|j: int| n - 6 <= j < k ==> spec_suffix_byte(#[trigger] s@[j]),
        decreases n - k,
    {
        let b = s[k];
        if !((LOWER_A <= b && b <= LOWER_Z) || (DIGIT_0 <= b && b <= DIGIT_9)) {
            return false;
        }
        k = k + 1;
    }
    true
}

} // verus!

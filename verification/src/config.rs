//! The configuration surface this core consumes.
//!
//! Every setting arrives as environment text with a development default;
//! reading the environment is I/O and stays outside the library, but the
//! numeric parsing and the validity of what was read are pinned down here.

use vstd::prelude::*;
use vstd::string::StrSliceExecFns;

use crate::token::MAX_EXPIRY_HOURS;

verus! {

/// A decimal digit.
pub open spec fn is_digit(c: char) -> bool {
    '0' <= c && c <= '9'
}

/// The numeric value of a decimal digit.
pub open spec fn digit_value(c: char) -> int {
    c as int - '0' as int
}

/// Whether the text is digits throughout.
pub open spec fn all_digits(s: Seq<char>) -> bool {
    forall|i: int| 0 <= i < s.len() ==> is_digit(s[i])
}

/// The number a string of decimal digits denotes.
pub open spec fn decimal_value(s: Seq<char>) -> int
    decreases s.len(),
{
    if s.len() == 0 {
        0
    } else {
        decimal_value(s.drop_last()) * 10 + digit_value(s.last())
    }
}

/// Parses unsigned decimal text: some non-empty all-digit string whose
/// value fits, and nothing else.
pub fn parse_u64(s: &str) -> (r: Option<u64>)
    ensures
        r matches Some(v) ==> s@.len() > 0 && all_digits(s@) && v as int == decimal_value(s@),
        r is None ==> s@.len() == 0 || !all_digits(s@) || decimal_value(s@) > u64::MAX,
{
    let n = s.unicode_len();
    if n == 0 {
        return None;
    }
    let mut acc: u64 = 0;
    let mut overflowed = false;
    let mut i: usize = 0;
    while i < n
        invariant
            n == s@.len(),
            i <= n,
            all_digits(s@.subrange(0, i as int)),
            !overflowed ==> acc as int == decimal_value(s@.subrange(0, i as int)),
            overflowed ==> decimal_value(s@.subrange(0, i as int)) > u64::MAX,
        decreases n - i,
    {
        let c = s.get_char(i);
        if !('0' <= c && c <= '9') {
            return None;
        }
        let d: u64 = (c as u64) - 48;
        proof {
            assert(s@.subrange(0, (i + 1) as int).drop_last() =~= s@.subrange(0, i as int));
            assert(s@.subrange(0, (i + 1) as int).last() == s@[i as int]);
        }
        if !overflowed {
            acc = match acc.checked_mul(10) {
                Some(t) => match t.checked_add(d) {
                    Some(v) => v,
                    None => {
                        overflowed = true;
                        0
                    },
                },
                None => {
                    overflowed = true;
                    0
                },
            };
        }
        i = i + 1;
    }
    proof {
        assert(s@.subrange(0, n as int) =~= s@);
    }
    if overflowed {
        None
    } else {
        Some(acc)
    }
}

/// Parses a decimal port number: some non-empty all-digit string whose
/// value fits, and nothing else.
pub fn parse_u16(s: &str) -> (r: Option<u16>)
    ensures
        r matches Some(v) ==> s@.len() > 0 && all_digits(s@) && v as int == decimal_value(s@),
        r is None ==> s@.len() == 0 || !all_digits(s@) || decimal_value(s@) > u16::MAX,
{
    match parse_u64(s) {
        Some(v) => {
            if v <= 65535 {
                Some(v as u16)
            } else {
                None
            }
        },
        None => None,
    }
}

/// Everything the gateway reads at process start.
#[derive(Debug, Clone, PartialEq, Eq)]
pub struct Config {
    pub port: u16,
    pub redis_url: String,
    pub control_plane_url: String,
    pub memory_service_url: String,
    pub iam_service_url: String,
    pub jwt_secret: String,
    pub jwt_expiry_hours: i64,
    pub workos_api_key: Option<String>,
    pub workos_client_id: Option<String>,
}

impl Config {
    /// The settings this core leans on are usable: a signing secret is
    /// present, and the access lifetime keeps the refresh token the
    /// longer-lived of the pair.
    pub open spec fn spec_valid(self) -> bool {
        self.jwt_secret@.len() > 0 && 0 < self.jwt_expiry_hours < MAX_EXPIRY_HOURS
    }

    /// Checks `spec_valid` on a loaded configuration.
    pub fn valid(&self) -> (r: bool)
        ensures
            r == self.spec_valid(),
    {
        !self.jwt_secret.as_str().is_empty() && 0 < self.jwt_expiry_hours
            && self.jwt_expiry_hours < MAX_EXPIRY_HOURS
    }
}

} // verus!

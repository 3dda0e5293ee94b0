//! Product keys: the format that a key must have.

use crate::text::{chars_of, str_eq, to_uppercase, trim, trimmed, uppercase};
use vstd::prelude::*;
use vstd::string::*;

verus! {

/// What is stored after a key was accepted. Not the key itself.
#[derive(Clone, Copy, Debug, PartialEq, Eq, Structural)]
pub struct LicenseData {
    /// Seconds since the epoch.
    pub activated_at: u64,
}

/// Number of characters of a key: `VERBA` and four groups of four, each
/// group behind a hyphen.
pub const KEY_LENGTH: usize = 25;

/// The key for use during development.
pub open spec fn development_key() -> Seq<char> {
    "VERBA-DEV-KEY-0000-0000"@
}

/// The first five characters of every key.
pub open spec fn key_prefix() -> Seq<char> {
    "VERBA"@
}

/// An ASCII letter or digit.
pub open spec fn is_ascii_alphanumeric(c: char) -> bool {
    let u = c as u32;
    (0x30 <= u <= 0x39) || (0x41 <= u <= 0x5A) || (0x61 <= u <= 0x7A)
}

/// `k` has the form `VERBA-XXXX-XXXX-XXXX-XXXX`, every `X` an ASCII letter
/// or digit.
pub open spec fn has_key_format(k: Seq<char>) -> bool {
    &&& k.len() == KEY_LENGTH
    &&& k.subrange(0, 5) == key_prefix()
    &&& forall|i: int|
        5 <= i < KEY_LENGTH ==> if (i - 5) % 5 == 0 {
            #[trigger] k[i] == '-'
        } else {
            is_ascii_alphanumeric(k[i])
        }
}

/// Why a key is refused.
#[derive(Clone, Copy, Debug, PartialEq, Eq, Structural)]
pub enum KeyFault {
    /// Nothing was entered.
    Empty,
    /// What was entered has not the form of a key.
    Format,
}

/// The verdict on a key that is trimmed and in capitals: the development
/// key and every key of the right form pass.
pub open spec fn key_verdict(k: Seq<char>) -> Result<(), KeyFault> {
    if k.len() == 0 {
        Err(KeyFault::Empty)
    } else if k == development_key() || has_key_format(k) {
        Ok(())
    } else {
        Err(KeyFault::Format)
    }
}

/// What the user is told about a fault.
pub open spec fn fault_message(f: KeyFault) -> Seq<char> {
    match f {
        KeyFault::Empty => "Please enter a product key"@,
        KeyFault::Format => "Invalid format. Use VERBA-XXXX-XXXX-XXXX-XXXX"@,
    }
}

/// A verdict with the user's message in place of the fault.
pub open spec fn verdict_message(v: Result<(), KeyFault>) -> Result<(), Seq<char>> {
    match v {
        Ok(_) => Ok(()),
        Err(f) => Err(fault_message(f)),
    }
}

/// A result with its message seen as a sequence of characters.
pub open spec fn message_view(r: Result<(), String>) -> Result<(), Seq<char>> {
    match r {
        Ok(_) => Ok(()),
        Err(m) => Err(m@),
    }
}

/// Whether `c` is an ASCII letter or digit.
pub fn ascii_alphanumeric(c: char) -> (r: bool)
    ensures
        r == is_ascii_alphanumeric(c),
{
    let u: u32 = c as u32;
    (0x30 <= u && u <= 0x39) || (0x41 <= u && u <= 0x5A) || (0x61 <= u && u <= 0x7A)
}

/// Whether `k` has the form of a key.
pub fn key_format_ok(k: &str) -> (r: bool)
    ensures
        r == has_key_format(k@),
{
    let cs = chars_of(k);
    if cs.len() != KEY_LENGTH {
        return false;
    }
    proof {
        reveal_strlit("VERBA");
    }
    if cs[0] != 'V' || cs[1] != 'E' || cs[2] != 'R' || cs[3] != 'B' || cs[4] != 'A' {
        assert(k@.subrange(0, 5)[0] == k@[0]);
        assert(k@.subrange(0, 5)[1] == k@[1]);
        assert(k@.subrange(0, 5)[2] == k@[2]);
        assert(k@.subrange(0, 5)[3] == k@[3]);
        assert(k@.subrange(0, 5)[4] == k@[4]);
        return false;
    }
    assert(k@.subrange(0, 5) =~= key_prefix());
    let mut i: usize = 5;
    while i < KEY_LENGTH
        invariant
            cs@ == k@,
            cs@.len() == KEY_LENGTH,
            5 <= i <= KEY_LENGTH,
            k@.subrange(0, 5) == key_prefix(),
            forall|j: int|
                5 <= j < i ==> if (j - 5) % 5 == 0 {
                    #[trigger] k@[j] == '-'
                } else {
                    is_ascii_alphanumeric(k@[j])
                },
        decreases KEY_LENGTH - i,
    {
        let c = cs[i];
        if (i - 5) % 5 == 0 {
            if c != '-' {
                return false;
            }
        } else if !ascii_alphanumeric(c) {
            return false;
        }
        i += 1;
    }
    true
}

/// The verdict on a key that is trimmed and in capitals.
pub fn check_key(k: &str) -> (r: Result<(), KeyFault>)
    ensures
        r == key_verdict(k@),
{
    if k.unicode_len() == 0 {
        Err(KeyFault::Empty)
    } else if str_eq(k, "VERBA-DEV-KEY-0000-0000") || key_format_ok(k) {
        Ok(())
    } else {
        Err(KeyFault::Format)
    }
}

/// Validates a product key as the user typed it: white space around it and
/// the case of its letters do not count.
pub fn validate_license_key(key: &str) -> (r: Result<(), String>)
    ensures
        message_view(r) == verdict_message(key_verdict(uppercase(trimmed(key@)))),
{
    let k = to_uppercase(trim(key));
    match check_key(k.as_str()) {
        Ok(_) => Ok(()),
        Err(KeyFault::Empty) => Err("Please enter a product key".to_string()),
        Err(KeyFault::Format) => Err("Invalid format. Use VERBA-XXXX-XXXX-XXXX-XXXX".to_string()),
    }
}

} // verus!

use vstd::prelude::*;

use crate::error::AccessError;

verus! {

/// Metadata field in which the trusted gateway asserts the caller's user id.
pub const X_USER_ID: &'static str = "x-user-id";

/// A human caller whose id the trusted gateway has asserted.
#[derive(Clone, Copy, Debug, PartialEq, Eq, Structural)]
pub struct Authentication {
    pub user_id: u32,
}

pub open spec fn is_digit(b: u8) -> bool {
    0x30 <= b <= 0x39
}

/// The value of a string of decimal digits, most significant first.
pub open spec fn digits_value(s: Seq<u8>) -> nat
    decreases s.len(),
{
    if s.len() == 0 {
        0
    } else {
        digits_value(s.drop_last()) * 10 + (s.last() - 0x30) as nat
    }
}

/// The digits of an unsigned decimal number: an optional `+` sign dropped.
pub open spec fn unsigned_digits(s: Seq<u8>) -> Seq<u8> {
    if s.len() > 0 && s[0] == 0x2b {
        s.subrange(1, s.len() as int)
    } else {
        s
    }
}

/// The `u32` that `s` writes in decimal: an optional `+`, then one or more
/// digits whose value fits in 32 bits. Leading zeros are allowed.
pub open spec fn decimal_u32(s: Seq<u8>) -> Option<u32> {
    let d = unsigned_digits(s);
    if d.len() > 0 && (forall|i: int| 0 <= i < d.len() ==> is_digit(#[trigger] d[i]))
        && digits_value(d) <= u32::MAX {
        Some(digits_value(d) as u32)
    } else {
        None
    }
}

proof fn lemma_digits_value_grows(d: Seq<u8>, i: int)
    requires
        0 <= i < d.len(),
        is_digit(d[i]),
    ensures
        digits_value(d.subrange(0, i + 1)) == digits_value(d.subrange(0, i)) * 10 + (d[i] - 0x30) as nat,
        digits_value(d.subrange(0, i + 1)) >= digits_value(d.subrange(0, i)),
{
    assert(d.subrange(0, i + 1).drop_last() =~= d.subrange(0, i));
}

/// Reads a user id written in decimal, as the gateway asserts it.
pub fn parse_user_id(s: &[u8]) -> (r: Option<u32>)
    ensures
        r == decimal_u32(s@),
{
    let start: usize = if s.len() > 0 && s[0] == 0x2b { 1 } else { 0 };
    let ghost d = unsigned_digits(s@);
    assert(d =~= s@.subrange(start as int, s@.len() as int));
    if start >= s.len() {
        return None;
    }
    let mut acc: u64 = 0;
    let mut too_large = false;
    let mut i: usize = start;
    while i < s.len()
        invariant
            start <= i <= s.len(),
            d == s@.subrange(start as int, s@.len() as int),
            d == unsigned_digits(s@),
            forall|k: int| 0 <= k < i - start ==> is_digit(#[trigger] d[k]),
            !too_large ==> acc == digits_value(d.subrange(0, i - start)),
            !too_large ==> acc <= u32::MAX,
            too_large ==> digits_value(d.subrange(0, i - start)) > u32::MAX,
        decreases s.len() - i,
    {
        let b = s[i];
        if !(0x30 <= b && b <= 0x39) {
            assert(!is_digit(d[i - start]));
            assert(!(forall|k: int| 0 <= k < d.len() ==> is_digit(#[trigger] d[k])));
            return None;
        }
        proof {
            lemma_digits_value_grows(d, i - start);
        }
        if !too_large {
            acc = acc * 10 + (b - 0x30) as u64;
            if acc > 0xffff_ffff {
                too_large = true;
            }
        }
        i = i + 1;
    }
    assert(d.subrange(0, d.len() as int) =~= d);
    if too_large {
        None
    } else {
        Some(acc as u32)
    }
}

/// Resolves a human caller from the gateway's assertion: absent, the caller
/// presented no credential; present but not a decimal `u32`, the trusted
/// upstream sent something malformed.
pub fn authenticate(user_id_header: Option<&[u8]>) -> (r: Result<Authentication, AccessError>)
    ensures
        user_id_header is None ==> r == Err::<Authentication, AccessError>(AccessError::PermissionDenied),
        user_id_header is Some ==> match decimal_u32(user_id_header->Some_0@) {
            Some(id) => r == Ok::<Authentication, AccessError>(Authentication { user_id: id }),
            None => r == Err::<Authentication, AccessError>(AccessError::Internal),
        },
{
    match user_id_header {
        None => Err(AccessError::PermissionDenied),
        Some(h) => match parse_user_id(h) {
            Some(id) => Ok(Authentication { user_id: id }),
            None => Err(AccessError::Internal),
        },
    }
}

} // verus!

//! Verified parsing of the decimal and hexadecimal numerals that appear in
//! the status record: identity fields, the thread count, and the four
//! 64-bit signal masks.

use vstd::prelude::*;

use crate::error::ProcessError;

verus! {

/// Whether `c` is a decimal digit.
pub open spec fn is_dec_digit(c: char) -> bool {
    48 <= c as u32 <= 57
}

/// The value of the decimal digit `c`.
pub open spec fn dec_digit(c: char) -> int {
    c as u32 - 48
}

/// Whether `c` is a hexadecimal digit, of either case.
pub open spec fn is_hex_digit(c: char) -> bool {
    is_dec_digit(c) || 97 <= c as u32 <= 102 || 65 <= c as u32 <= 70
}

/// The value of the hexadecimal digit `c`.
pub open spec fn hex_digit(c: char) -> int {
    if is_dec_digit(c) {
        dec_digit(c)
    } else if 97 <= c as u32 <= 102 {
        c as u32 - 87
    } else {
        c as u32 - 55
    }
}

/// The value of `s` read as a decimal numeral.
pub open spec fn dec_val(s: Seq<char>) -> int
    decreases s.len(),
{
    if s.len() == 0 {
        0
    } else {
        10 * dec_val(s.drop_last()) + dec_digit(s.last())
    }
}

/// The value of `s` read as a hexadecimal numeral.
pub open spec fn hex_val(s: Seq<char>) -> int
    decreases s.len(),
{
    if s.len() == 0 {
        0
    } else {
        16 * hex_val(s.drop_last()) + hex_digit(s.last())
    }
}

/// A well-formed decimal numeral whose value is at most `bound`: nonempty
/// and made of decimal digits only.
pub open spec fn valid_dec(s: Seq<char>, bound: int) -> bool {
    &&& s.len() > 0
    &&& forall|i: int| 0 <= i < s.len() ==> is_dec_digit(s[i])
    &&& dec_val(s) <= bound
}

/// A well-formed hexadecimal numeral for a 64-bit value: nonempty, made of
/// hexadecimal digits only, and in range.
pub open spec fn valid_hex_u64(s: Seq<char>) -> bool {
    &&& s.len() > 0
    &&& forall|i: int| 0 <= i < s.len() ==> is_hex_digit(s[i])
    &&& hex_val(s) <= u64::MAX
}

proof fn lemma_hex_val_nonneg(s: Seq<char>)
    requires
        forall|i: int| 0 <= i < s.len() ==> is_hex_digit(s[i]),
    ensures
        hex_val(s) >= 0,
    decreases s.len(),
{
    if s.len() > 0 {
        lemma_hex_val_nonneg(s.drop_last());
    }
}

/// Every prefix of a digit string is worth no more than the whole.
proof fn lemma_hex_val_prefix_le(s: Seq<char>, k: int)
    requires
        forall|i: int| 0 <= i < s.len() ==> is_hex_digit(s[i]),
        0 <= k <= s.len(),
    ensures
        hex_val(s.take(k)) <= hex_val(s),
    decreases s.len(),
{
    if k == s.len() {
        assert(s.take(k) =~= s);
    } else {
        assert(s.drop_last().take(k) =~= s.take(k));
        lemma_hex_val_prefix_le(s.drop_last(), k);
        lemma_hex_val_nonneg(s.drop_last());
    }
}

proof fn lemma_dec_val_nonneg(s: Seq<char>)
    requires
        forall|i: int| 0 <= i < s.len() ==> is_dec_digit(s[i]),
    ensures
        dec_val(s) >= 0,
    decreases s.len(),
{
    if s.len() > 0 {
        lemma_dec_val_nonneg(s.drop_last());
    }
}

proof fn lemma_dec_val_prefix_le(s: Seq<char>, k: int)
    requires
        forall|i: int| 0 <= i < s.len() ==> is_dec_digit(s[i]),
        0 <= k <= s.len(),
    ensures
        dec_val(s.take(k)) <= dec_val(s),
    decreases s.len(),
{
    if k == s.len() {
        assert(s.take(k) =~= s);
    } else {
        assert(s.drop_last().take(k) =~= s.take(k));
        lemma_dec_val_prefix_le(s.drop_last(), k);
        lemma_dec_val_nonneg(s.drop_last());
    }
}

/// The value of `c` as a hexadecimal digit, if it is one.
pub fn hex_digit_of(c: char) -> (r: Option<u8>)
    ensures
        match r {
            Some(d) => is_hex_digit(c) && d as int == hex_digit(c),
            None => !is_hex_digit(c),
        },
{
    let u = c as u32;
    if 48 <= u && u <= 57 {
        Some((u - 48) as u8)
    } else if 97 <= u && u <= 102 {
        Some((u - 87) as u8)
    } else if 65 <= u && u <= 70 {
        Some((u - 55) as u8)
    } else {
        None
    }
}

/// The value of `c` as a decimal digit, if it is one.
pub fn dec_digit_of(c: char) -> (r: Option<u8>)
    ensures
        match r {
            Some(d) => is_dec_digit(c) && d as int == dec_digit(c),
            None => !is_dec_digit(c),
        },
{
    let u = c as u32;
    if 48 <= u && u <= 57 {
        Some((u - 48) as u8)
    } else {
        None
    }
}

/// Parses a base-16 unsigned 64-bit integer, as the signal-mask fields are
/// written. Succeeds exactly on well-formed in-range numerals.
pub fn parse_hex_u64(s: &str) -> (r: Result<u64, ProcessError>)
    ensures
        match r {
            Ok(v) => valid_hex_u64(s@) && v as int == hex_val(s@),
            Err(e) => !valid_hex_u64(s@) && e == ProcessError::Parse,
        },
{
    let n = s.unicode_len();
    if n == 0 {
        return Err(ProcessError::Parse);
    }
    let mut acc: u64 = 0;
    let mut i: usize = 0;
    proof {
        assert(s@.take(0) =~= Seq::<char>::empty());
    }
    while i < n
        invariant
            n == s@.len(),
            i <= n,
            forall|j: int| 0 <= j < i ==> is_hex_digit(s@[j]),
            acc as int == hex_val(s@.take(i as int)),
        decreases n - i,
    {
        let c = s.get_char(i);
        let d = match hex_digit_of(c) {
            Some(d) => d,
            None => {
                return Err(ProcessError::Parse);
            },
        };
        proof {
            assert(s@.take(i as int + 1).drop_last() =~= s@.take(i as int));
            vstd::arithmetic::div_mod::lemma_fundamental_div_mod(u64::MAX - d as int, 16);
        }
        let limit = (u64::MAX - (d as u64)) / 16;
        if acc > limit {
            proof {
                assert(hex_val(s@.take(i as int + 1)) > u64::MAX);
                if forall|j: int| 0 <= j < s@.len() ==> is_hex_digit(s@[j]) {
                    lemma_hex_val_prefix_le(s@, i as int + 1);
                }
            }
            return Err(ProcessError::Parse);
        }
        acc = acc * 16 + (d as u64);
        i += 1;
    }
    proof {
        assert(s@.take(n as int) =~= s@);
    }
    Ok(acc)
}

/// Parses a base-10 unsigned 64-bit integer. Succeeds exactly on
/// well-formed in-range numerals.
pub fn parse_dec_u64(s: &str) -> (r: Result<u64, ProcessError>)
    ensures
        match r {
            Ok(v) => valid_dec(s@, u64::MAX as int) && v as int == dec_val(s@),
            Err(e) => !valid_dec(s@, u64::MAX as int) && e == ProcessError::Parse,
        },
{
    let n = s.unicode_len();
    if n == 0 {
        return Err(ProcessError::Parse);
    }
    let mut acc: u64 = 0;
    let mut i: usize = 0;
    proof {
        assert(s@.take(0) =~= Seq::<char>::empty());
    }
    while i < n
        invariant
            n == s@.len(),
            i <= n,
            forall|j: int| 0 <= j < i ==> is_dec_digit(s@[j]),
            acc as int == dec_val(s@.take(i as int)),
        decreases n - i,
    {
        let c = s.get_char(i);
        let d = match dec_digit_of(c) {
            Some(d) => d,
            None => {
                return Err(ProcessError::Parse);
            },
        };
        proof {
            assert(s@.take(i as int + 1).drop_last() =~= s@.take(i as int));
            vstd::arithmetic::div_mod::lemma_fundamental_div_mod(u64::MAX - d as int, 10);
        }
        let limit = (u64::MAX - (d as u64)) / 10;
        if acc > limit {
            proof {
                assert(dec_val(s@.take(i as int + 1)) > u64::MAX);
                if forall|j: int| 0 <= j < s@.len() ==> is_dec_digit(s@[j]) {
                    lemma_dec_val_prefix_le(s@, i as int + 1);
                }
            }
            return Err(ProcessError::Parse);
        }
        acc = acc * 10 + (d as u64);
        i += 1;
    }
    proof {
        assert(s@.take(n as int) =~= s@);
    }
    Ok(acc)
}

/// Parses an unsigned 32-bit decimal field, such as a user or group id.
pub fn parse_dec_u32(s: &str) -> (r: Result<u32, ProcessError>)
    ensures
        match r {
            Ok(v) => valid_dec(s@, u32::MAX as int) && v as int == dec_val(s@),
            Err(e) => !valid_dec(s@, u32::MAX as int) && e == ProcessError::Parse,
        },
{
    match parse_dec_u64(s) {
        Ok(v) => {
            if v <= u32::MAX as u64 {
                Ok(v as u32)
            } else {
                Err(ProcessError::Parse)
            }
        },
        Err(e) => Err(e),
    }
}

/// Parses an unsigned 16-bit decimal field, such as the thread count.
pub fn parse_dec_u16(s: &str) -> (r: Result<u16, ProcessError>)
    ensures
        match r {
            Ok(v) => valid_dec(s@, u16::MAX as int) && v as int == dec_val(s@),
            Err(e) => !valid_dec(s@, u16::MAX as int) && e == ProcessError::Parse,
        },
{
    match parse_dec_u64(s) {
        Ok(v) => {
            if v <= u16::MAX as u64 {
                Ok(v as u16)
            } else {
                Err(ProcessError::Parse)
            }
        },
        Err(e) => Err(e),
    }
}

} // verus!

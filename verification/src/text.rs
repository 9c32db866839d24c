//! Decimal text: reading a broadcaster id out of a message string, and
//! rendering ids into the human-readable reasons attached to room edits.

use vstd::prelude::*;

verus! {

/// The character for a single decimal digit value.
pub open spec fn digit_char(d: nat) -> char
    recommends
        d < 10,
{
    ((d + ('0' as nat)) as u8) as char
}

/// The decimal rendering of `n`: most significant digit first, no sign,
/// no leading zeros (a lone `'0'` for zero).
pub open spec fn dec_digits_of(n: nat) -> Seq<char>
    decreases n,
{
    if n < 10 {
        seq![digit_char(n)]
    } else {
        dec_digits_of(n / 10).push(digit_char(n % 10))
    }
}

/// Whether `s` consists of decimal digits only, at least one.
pub open spec fn all_dec_digits(s: Seq<char>) -> bool {
    s.len() > 0 && forall|i: int| 0 <= i < s.len() ==> '0' <= #[trigger] s[i] <= '9'
}

/// The numeric value of a digit string, read left to right.
pub open spec fn dec_value(s: Seq<char>) -> nat
    decreases s.len(),
{
    if s.len() == 0 {
        0
    } else {
        (dec_value(s.drop_last()) * 10 + (s.last() as int - '0' as int)) as nat
    }
}

/// Appending digits never lowers the value.
proof fn lemma_dec_value_take_monotone(s: Seq<char>, i: int, j: int)
    requires
        0 <= i <= j <= s.len(),
        forall|k: int| 0 <= k < s.len() ==> '0' <= #[trigger] s[k] <= '9',
    ensures
        dec_value(s.take(i)) <= dec_value(s.take(j)),
    decreases j - i,
{
    if i < j {
        lemma_dec_value_take_monotone(s, i, j - 1);
        assert(s.take(j).drop_last() =~= s.take(j - 1));
        assert(dec_value(s.take(j)) == dec_value(s.take(j - 1)) * 10 + (s.take(j).last() as nat
            - ('0' as nat)));
    }
}

/// Reads a `u64` from a string of decimal digits.
///
/// Returns the value exactly when the string is one or more decimal
/// digits whose value fits in a `u64`; anything else (empty, a sign, a
/// stray character, overflow) is `None`.
pub fn parse_u64(s: &str) -> (r: Option<u64>)
    ensures
        r matches Some(v) ==> all_dec_digits(s@) && v == dec_value(s@),
        r is None ==> !(all_dec_digits(s@) && dec_value(s@) <= u64::MAX),
{
    let bytes = s.as_bytes();
    if !s.is_ascii() {
        // a character beyond the ascii range is certainly not a digit
        proof {
            let k = choose|k: int| !(0 <= k < s@.len() ==> '\0' <= #[trigger] s@[k] <= '\u{7f}');
            assert(!('0' <= s@[k] <= '9'));
        }
        return None;
    }
    proof {
        vstd::string::is_ascii_spec_bytes(s);
    }
    if bytes.len() == 0 {
        return None;
    }
    let n = bytes.len();
    let mut value: u64 = 0;
    let mut i: usize = 0;
    while i < n
        invariant
            0 < n == bytes@.len() == s@.len(),
            0 <= i <= n,
            bytes@ =~= Seq::new(s@.len(), |k: int| s@[k] as u8),
            forall|k: int| 0 <= k < s@.len() ==> '\0' <= #[trigger] s@[k] <= '\u{7f}',
            forall|k: int| 0 <= k < i ==> '0' <= #[trigger] s@[k] <= '9',
            value == dec_value(s@.take(i as int)),
        decreases n - i,
    {
        let b = bytes[i];
        proof {
            assert(bytes@[i as int] == s@[i as int] as u8);
            assert(s@[i as int] as int <= 127);
            assert(s@[i as int] as int == b as int);
        }
        if b < 48 || b > 57 {
            assert(!('0' <= s@[i as int] <= '9'));
            return None;
        }
        let d: u64 = (b - 48) as u64;
        if value > (u64::MAX - d) / 10 {
            proof {
                assert(s@.take(i + 1).drop_last() =~= s@.take(i as int));
                assert(dec_value(s@.take(i + 1)) > u64::MAX || !all_dec_digits(s@)) by {
                    assert(dec_value(s@.take(i + 1)) == value * 10 + d);
                };
                if all_dec_digits(s@) {
                    lemma_dec_value_take_monotone(s@, i + 1, s@.len() as int);
                    assert(s@.take(s@.len() as int) =~= s@);
                }
            }
            return None;
        }
        proof {
            assert(s@.take(i + 1).drop_last() =~= s@.take(i as int));
        }
        value = value * 10 + d;
        i = i + 1;
    }
    proof {
        assert(s@.take(n as int) =~= s@);
    }
    Some(value)
}

/// Renders a `u64` in decimal.
///
/// Relies on std's `Display` for `u64`, documented to print the decimal
/// digits of the value.
#[verifier::external_body]
pub fn u64_to_string(x: u64) -> (r: String)
    ensures
        r@ == dec_digits_of(x as nat),
{
    format!("{x}")
}

/// Glues three string pieces together.
///
/// Relies on std's string formatting: the output is exactly the
/// concatenation of the three parts.
#[verifier::external_body]
pub fn concat3(a: &str, b: &str, c: &str) -> (r: String)
    ensures
        r@ == a@ + b@ + c@,
{
    format!("{a}{b}{c}")
}

} // verus!

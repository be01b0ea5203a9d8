//! Parsing of the hue arguments of the command line.
use vstd::prelude::*;

verus! {

/// The smallest hue, in degrees.
pub const HUE_MIN: u16 = 0;

/// The bound of the hues, in degrees: hues lie in `[HUE_MIN, HUE_MAX)`.
pub const HUE_MAX: u16 = 360;

/// Whether `c` is an ASCII decimal digit.
pub open spec fn is_digit(c: char) -> bool {
    '0' <= c <= '9'
}

/// Whether every character of `s` is an ASCII decimal digit.
pub open spec fn all_digits(s: Seq<char>) -> bool {
    forall|i: int| 0 <= i < s.len() ==> is_digit(#[trigger] s[i])
}

/// The number that the decimal digits `s` write.
pub open spec fn digits_value(s: Seq<char>) -> int
    decreases s.len(),
{
    if s.len() == 0 {
        0
    } else {
        digits_value(s.drop_last()) * 10 + (s.last() as int - '0' as int)
    }
}

/// The digits of an unsigned decimal number: the text without its leading
/// `+`, if it has one.
pub open spec fn unsigned_digits(s: Seq<char>) -> Seq<char> {
    if s.len() > 0 && s[0] == '+' {
        s.drop_first()
    } else {
        s
    }
}

/// The `u16` that the text writes in decimal, as `str::parse::<u16>` reads
/// it: an optional `+`, then at least one ASCII digit and nothing else, for
/// a value of at most 65535.
pub open spec fn spec_parse_u16(s: Seq<char>) -> Option<u16> {
    let d = unsigned_digits(s);
    if d.len() > 0 && all_digits(d) && digits_value(d) <= u16::MAX {
        Some(digits_value(d) as u16)
    } else {
        None
    }
}

proof fn lemma_digits_value_nonneg(s: Seq<char>)
    requires
        all_digits(s),
    ensures
        digits_value(s) >= 0,
    decreases s.len(),
{
    if s.len() > 0 {
        assert(is_digit(s[s.len() - 1]));
        lemma_digits_value_nonneg(s.drop_last());
    }
}

/// A longer run of digits never writes a smaller number.
proof fn lemma_digits_value_grows(s: Seq<char>, k: int)
    requires
        all_digits(s),
        0 <= k <= s.len(),
    ensures
        digits_value(s.take(k)) <= digits_value(s),
    decreases s.len(),
{
    if k < s.len() {
        assert(is_digit(s[s.len() - 1]));
        assert(s.drop_last().take(k) =~= s.take(k));
        lemma_digits_value_grows(s.drop_last(), k);
        lemma_digits_value_nonneg(s.drop_last());
    } else {
        assert(s.take(k) =~= s);
    }
}

/// Reads a `u16` written in decimal, as `str::parse::<u16>` does (see
/// [`spec_parse_u16`]).
pub fn parse_u16(s: &str) -> (r: Option<u16>)
    ensures
        r == spec_parse_u16(s@),
{
    let len = s.unicode_len();
    if len == 0 {
        return None;
    }
    let start: usize = if s.get_char(0) == '+' {
        1
    } else {
        0
    };
    let ghost d = unsigned_digits(s@);
    assert(d =~= s@.subrange(start as int, len as int));
    if start == len {
        return None;
    }
    let mut value: u32 = 0;
    let mut i: usize = start;
    while i < len
        invariant
            len == s@.len(),
            start <= i <= len,
            d == s@.subrange(start as int, len as int),
            d == unsigned_digits(s@),
            all_digits(d.take(i - start)),
            value == digits_value(d.take(i - start)),
            value <= 65535,
        decreases len - i,
    {
        let c = s.get_char(i);
        if !('0' <= c && c <= '9') {
            assert(d[i - start] == c);
            assert(!is_digit(d[i - start]));
            return None;
        }
        let digit = (c as u32) - ('0' as u32);
        let next = value * 10 + digit;
        proof {
            assert(d.take(i - start + 1).drop_last() =~= d.take(i - start));
            assert(d.take(i - start + 1).last() == c);
            assert(digits_value(d.take(i - start + 1)) == next);
        }
        if next > 65535 {
            proof {
                if all_digits(d) {
                    lemma_digits_value_grows(d, i - start + 1);
                }
            }
            return None;
        }
        value = next;
        i = i + 1;
    }
    assert(d.take(len - start) =~= d);
    Some(value as u16)
}

/// The error text for a hue argument that is not a `u16`.
pub open spec fn not_a_u16_message(s: Seq<char>) -> Seq<char> {
    s + " is not a u16 number."@
}

/// The error text for a hue outside `[0, 360)`.
pub open spec fn hue_out_of_range_message() -> Seq<char> {
    "hue is not in range 0-360"@
}

/// Reads a hue argument: a `u16` in decimal that lies in `[0, 360)`.
/// Text that is not a `u16` is refused with "`<text>` is not a u16 number.",
/// a `u16` of 360 or more with "hue is not in range 0-360".
pub fn oklch_hue_in_range(s: &str) -> (r: Result<u16, String>)
    ensures
        match spec_parse_u16(s@) {
            None => r matches Err(m) && m@ == not_a_u16_message(s@),
            Some(v) => if v < HUE_MAX {
                r == Ok::<u16, String>(v)
            } else {
                r matches Err(m) && m@ == hue_out_of_range_message()
            },
        },
{
    match parse_u16(s) {
        None => {
            let mut message = String::from_str(s);
            message.append(" is not a u16 number.");
            Err(message)
        },
        Some(value) => {
            if HUE_MIN <= value && value < HUE_MAX {
                Ok(value)
            } else {
                Err(String::from_str("hue is not in range 0-360"))
            }
        },
    }
}

} // verus!

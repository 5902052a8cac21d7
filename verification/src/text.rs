//! Texts of the log: comparing them, and reading a number from one.

use vstd::prelude::*;
use vstd::string::StringSliceAdditionalSpecFns;
use vstd::utf8::encode_utf8_decode_utf8;

verus! {

/// Whether two texts hold the same characters.
pub fn text_equals(a: &str, b: &str) -> (r: bool)
    ensures
        r == (a@ == b@),
{
    let x = a.as_bytes();
    let y = b.as_bytes();
    proof {
        encode_utf8_decode_utf8(a@);
        encode_utf8_decode_utf8(b@);
    }
    if x.len() != y.len() {
        return false;
    }
    let mut i: usize = 0;
    while i < x.len()
        invariant
            i <= x@.len(),
            x@.len() == y@.len(),
            x@ == a.spec_bytes(),
            y@ == b.spec_bytes(),
            forall|k: int| 0 <= k < i ==> x@[k] == y@[k],
        decreases x@.len() - i,
    {
        if x[i] != y[i] {
            return false;
        }
        i += 1;
    }
    assert(x@ =~= y@);
    true
}

/// The value of a decimal digit.
pub open spec fn digit_value(c: char) -> Option<nat> {
    if '0' <= c <= '9' {
        Some((c as nat - '0' as nat) as nat)
    } else {
        None
    }
}

/// The number that a run of decimal digits spells, leading zeros allowed;
/// `None` where a character is no digit. The empty run spells zero.
pub open spec fn decimal(digits: Seq<char>) -> Option<nat>
    decreases digits.len(),
{
    if digits.len() == 0 {
        Some(0)
    } else {
        match (decimal(digits.drop_last()), digit_value(digits.last())) {
            (Some(high), Some(low)) => Some(10 * high + low),
            _ => None,
        }
    }
}

/// The number from 0 to 255 that `text` spells: an optional `+`, then one or
/// more decimal digits and nothing else. `None` for any other text.
pub open spec fn parsed_u8(text: Seq<char>) -> Option<u8> {
    let digits = if text.len() > 0 && text[0] == '+' {
        text.skip(1)
    } else {
        text
    };
    if digits.len() == 0 {
        None
    } else {
        match decimal(digits) {
            Some(value) => if value <= u8::MAX {
                Some(value as u8)
            } else {
                None
            },
            None => None,
        }
    }
}

/// A longer run of digits spells no smaller number, if it spells one at all.
pub proof fn lemma_decimal_grows(digits: Seq<char>, i: int, j: int)
    requires
        0 <= i <= j <= digits.len(),
    ensures
        decimal(digits.take(i)) is None ==> decimal(digits.take(j)) is None,
        decimal(digits.take(j)) matches Some(long) ==> decimal(digits.take(i)) matches Some(short)
            && short <= long,
    decreases j - i,
{
    if i < j {
        lemma_decimal_grows(digits, i, j - 1);
        assert(digits.take(j).drop_last() =~= digits.take(j - 1));
    }
}

/// Reads a number from 0 to 255 as [`parsed_u8`] defines it.
pub fn parse_u8(text: &str) -> (r: Option<u8>)
    ensures
        r == parsed_u8(text@),
{
    broadcast use vstd::string::is_ascii_spec_bytes;

    let ghost digits = if text@.len() > 0 && text@[0] == '+' {
        text@.skip(1)
    } else {
        text@
    };
    if !text.is_ascii() {
        proof {
            let k = choose|k: int|
                0 <= k < text@.len() && !('\0' <= #[trigger] text@[k] <= '\u{7f}');
            lemma_not_a_number(text@, k);
        }
        return None;
    }
    let bytes = text.as_bytes();
    let n = bytes.len();
    let start: usize = if n > 0 && bytes[0] == 43u8 {
        1
    } else {
        0
    };
    if start == n {
        return None;
    }
    let mut value: u8 = 0;
    let mut i: usize = start;
    while i < n
        invariant
            start <= i <= n,
            n == text@.len(),
            n == bytes@.len(),
            digits == text@.skip(start as int),
            digits == if text@.len() > 0 && text@[0] == '+' {
                text@.skip(1)
            } else {
                text@
            },
            forall|k: int| 0 <= k < n ==> bytes@[k] == text@[k] as u8,
            forall|k: int| 0 <= k < n ==> '\0' <= #[trigger] text@[k] <= '\u{7f}',
            decimal(digits.take(i - start)) == Some(value as nat),
        decreases n - i,
    {
        let byte = bytes[i];
        assert(digits.take(i - start + 1).drop_last() =~= digits.take(i - start));
        if byte < 48u8 || byte > 57u8 {
            proof {
                lemma_decimal_grows(digits, i - start + 1, digits.len() as int);
                assert(digits.take(digits.len() as int) =~= digits);
            }
            return None;
        }
        let low: u8 = byte - 48u8;
        if value > 25 || (value == 25 && low > 5) {
            proof {
                lemma_decimal_grows(digits, i - start + 1, digits.len() as int);
                assert(digits.take(digits.len() as int) =~= digits);
            }
            return None;
        }
        value = value * 10 + low;
        i += 1;
    }
    assert(digits.take(n - start) =~= digits);
    Some(value)
}

/// A text with a character beyond ASCII spells no number.
proof fn lemma_not_a_number(text: Seq<char>, k: int)
    requires
        0 <= k < text.len(),
        !('\0' <= text[k] <= '\u{7f}'),
    ensures
        parsed_u8(text) is None,
{
    let digits = if text.len() > 0 && text[0] == '+' {
        text.skip(1)
    } else {
        text
    };
    let at = k - (text.len() - digits.len());
    lemma_decimal_grows(digits, at + 1, digits.len() as int);
    assert(digits.take(digits.len() as int) =~= digits);
}

} // verus!

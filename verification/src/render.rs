//! Values as text: numbers in decimal, identifiers and instants as `uuid`
//! and `chrono` write them, and records as `csv` writes them.

use crate::seqs::views;
use crate::time::Timestamp;
use vstd::prelude::*;
use vstd::string::StringExecFns;

verus! {

/// The character of a decimal digit.
pub open spec fn digit_char(digit: nat) -> char
    recommends
        digit < 10,
{
    if digit == 0 {
        '0'
    } else if digit == 1 {
        '1'
    } else if digit == 2 {
        '2'
    } else if digit == 3 {
        '3'
    } else if digit == 4 {
        '4'
    } else if digit == 5 {
        '5'
    } else if digit == 6 {
        '6'
    } else if digit == 7 {
        '7'
    } else if digit == 8 {
        '8'
    } else {
        '9'
    }
}

/// A number in decimal, without leading zeros.
pub open spec fn digits_of(n: nat) -> Seq<char>
    decreases n,
{
    if n < 10 {
        seq![digit_char(n)]
    } else {
        digits_of(n / 10).push(digit_char(n % 10))
    }
}

/// A whole number in decimal, with a minus sign where it is below zero.
pub open spec fn signed_digits(n: int) -> Seq<char> {
    if n < 0 {
        seq!['-'] + digits_of((-n) as nat)
    } else {
        digits_of(n as nat)
    }
}

/// The text of a decimal digit.
fn digit_text(digit: u64) -> (r: &'static str)
    requires
        digit < 10,
    ensures
        r@ == seq![digit_char(digit as nat)],
{
    proof {
        reveal_strlit("0");
        reveal_strlit("1");
        reveal_strlit("2");
        reveal_strlit("3");
        reveal_strlit("4");
        reveal_strlit("5");
        reveal_strlit("6");
        reveal_strlit("7");
        reveal_strlit("8");
        reveal_strlit("9");
    }
    let text = if digit == 0 {
        "0"
    } else if digit == 1 {
        "1"
    } else if digit == 2 {
        "2"
    } else if digit == 3 {
        "3"
    } else if digit == 4 {
        "4"
    } else if digit == 5 {
        "5"
    } else if digit == 6 {
        "6"
    } else if digit == 7 {
        "7"
    } else if digit == 8 {
        "8"
    } else {
        "9"
    };
    text
}

/// Writes a number in decimal.
pub fn number_text(n: u64) -> (r: String)
    ensures
        r@ == digits_of(n as nat),
    decreases n,
{
    if n < 10 {
        String::from_str(digit_text(n))
    } else {
        let mut text = number_text(n / 10);
        text.append(digit_text(n % 10));
        text
    }
}

/// Writes a whole number in decimal, with a minus sign where it is below zero.
pub fn signed_text(n: i64) -> (r: String)
    ensures
        r@ == signed_digits(n as int),
{
    if n < 0 {
        let size: u64 = if n == i64::MIN {
            9_223_372_036_854_775_808u64
        } else {
            (-n) as u64
        };
        let mut text = String::from_str("-");
        proof {
            reveal_strlit("-");
        }
        let digits = number_text(size);
        text.append(digits.as_str());
        text
    } else {
        number_text(n as u64)
    }
}

/// The character of a hexadecimal digit, in lower case.
pub open spec fn hex_char(digit: nat) -> char
    recommends
        digit < 16,
{
    if digit < 10 {
        digit_char(digit)
    } else if digit == 10 {
        'a'
    } else if digit == 11 {
        'b'
    } else if digit == 12 {
        'c'
    } else if digit == 13 {
        'd'
    } else if digit == 14 {
        'e'
    } else {
        'f'
    }
}

/// The last `width` hexadecimal digits of a number, the highest first.
pub open spec fn hex_digits(n: nat, width: nat) -> Seq<char>
    decreases width,
{
    if width == 0 {
        Seq::empty()
    } else {
        hex_digits(n / 16, (width - 1) as nat).push(hex_char(n % 16))
    }
}

/// The identifier `id` as a UUID in its hyphenated form, in lower case: its
/// 32 hexadecimal digits, the highest first, in groups of 8, 4, 4, 4 and 12
/// with a hyphen between two groups.
pub open spec fn uuid_text(id: u128) -> Seq<char> {
    let digits = hex_digits(id as nat, 32);
    digits.subrange(0, 8) + seq!['-'] + digits.subrange(8, 12) + seq!['-'] + digits.subrange(
        12,
        16,
    ) + seq!['-'] + digits.subrange(16, 20) + seq!['-'] + digits.subrange(20, 32)
}

/// `Uuid`'s `Display`, on the UUID that `Uuid::from_u128` makes of `id`: the
/// sixteen bytes of `id`, the highest first, each as two hexadecimal digits
/// in lower case, with hyphens after the fourth, sixth, eighth and tenth
/// byte.
#[verifier::external_body]
pub(crate) fn write_uuid(id: u128) -> (r: String)
    ensures
        r@ == uuid_text(id),
{
    uuid::Uuid::from_u128(id).to_string()
}

/// The instant in RFC 3339, in whole seconds, with `Z` for UTC; `None` where
/// it is no instant that `chrono` can hold.
pub uninterp spec fn rfc3339_text(instant: Timestamp) -> Option<Seq<char>>;

/// `DateTime::to_rfc3339_opts` with `SecondsFormat::Secs` and `Z`, on the
/// instant that `DateTime::from_timestamp` makes of the argument. The
/// contract only names the result.
#[verifier::external_body]
fn write_rfc3339(instant: Timestamp) -> (r: Option<String>)
    ensures
        match r {
            Some(text) => rfc3339_text(instant) == Some(text@),
            None => rfc3339_text(instant) is None,
        },
{
    let at = chrono::DateTime::from_timestamp(instant.seconds, instant.nanos)?;
    Some(at.to_rfc3339_opts(chrono::SecondsFormat::Secs, true))
}

/// The instant as text: in RFC 3339 where `chrono` can hold it, else empty.
pub open spec fn instant_text(instant: Timestamp) -> Seq<char> {
    match rfc3339_text(instant) {
        Some(text) => text,
        None => Seq::empty(),
    }
}

/// Writes an instant in RFC 3339; an instant that has no such form is
/// written as nothing.
pub fn time_text(instant: Timestamp) -> (r: String)
    ensures
        r@ == instant_text(instant),
{
    match write_rfc3339(instant) {
        Some(text) => text,
        None => String::new(),
    }
}

/// Why an export could not be written.
#[derive(Clone, Copy, Debug, PartialEq, Eq, Structural)]
pub enum ExportError {
    /// A record could not be written as CSV.
    Csv,
    /// The text could not be written out.
    Io,
    /// What was written is not UTF-8.
    Utf8,
    /// The CSV writer could not hand back what it wrote.
    CsvIntoInner,
    /// The values could not be written as JSON.
    JsonToString,
}

/// The line that `csv` writes for a record of `fields`, with its
/// terminator, or why it writes none.
pub uninterp spec fn csv_record(fields: Seq<Seq<char>>) -> Result<Seq<char>, ExportError>;

/// `csv::Writer::write_record` on a writer with the default settings, and
/// what `into_inner` then hands back, as text. A failure of `write_record`
/// is [`ExportError::Csv`], one of `into_inner` is
/// [`ExportError::CsvIntoInner`], and bytes that are no text are
/// [`ExportError::Utf8`]. The contract only names the result.
#[verifier::external_body]
pub(crate) fn write_csv_record(fields: &Vec<String>) -> (r: Result<String, ExportError>)
    ensures
        match r {
            Ok(line) => csv_record(views(fields@)) == Ok::<Seq<char>, ExportError>(line@),
            Err(e) => csv_record(views(fields@)) == Err::<Seq<char>, ExportError>(e),
        },
{
    let mut writer = csv::Writer::from_writer(Vec::new());
    writer.write_record(fields).map_err(|_| ExportError::Csv)?;
    let bytes = writer.into_inner().map_err(|_| ExportError::CsvIntoInner)?;
    String::from_utf8(bytes).map_err(|_| ExportError::Utf8)
}

} // verus!

use crate::text::string_from_chars;
use time::{OffsetDateTime, UtcOffset};
use vstd::prelude::*;

verus! {

/// Year, month and day of the instant `unix_nanos` (nanoseconds since the
/// Unix epoch) seen at a UTC offset of `offset_seconds`, as `time` computes
/// it; `None` where `time` cannot represent that date.
pub uninterp spec fn calendar_date_of(unix_nanos: int, offset_seconds: int) -> Option<(int, int, int)>;

/// Relies on `time`'s `UtcOffset::from_whole_seconds`,
/// `OffsetDateTime::from_unix_timestamp_nanos`, `checked_to_offset` and
/// `to_calendar_date`: the date depends on the two numbers alone, its month
/// is numbered from 1 (January) to 12, and its day lies in `1..=31`.
#[verifier::external_body]
fn local_calendar_date(unix_nanos: i128, offset_seconds: i32) -> (r: Option<(i32, u8, u8)>)
    ensures
        match r {
            Some((y, m, d)) => {
                &&& calendar_date_of(unix_nanos as int, offset_seconds as int) == Some(
                    (y as int, m as int, d as int),
                )
                &&& 1 <= m <= 12
                &&& 1 <= d <= 31
            },
            None => calendar_date_of(unix_nanos as int, offset_seconds as int) is None,
        },
{
    let offset = UtcOffset::from_whole_seconds(offset_seconds).ok()?;
    let at = OffsetDateTime::from_unix_timestamp_nanos(unix_nanos).ok()?;
    let (year, month, day) = at.checked_to_offset(offset)?.to_calendar_date();
    Some((year, month as u8, day))
}

/// A publication time: an instant, the UTC offset it was written in, and its
/// calendar date at that offset.
pub struct ArticleDate {
    unix_nanos: i128,
    offset_seconds: i32,
    year: i32,
    month: u8,
    day: u8,
}

impl ArticleDate {
    /// The date's fields agree with each other.
    pub closed spec fn wf(&self) -> bool {
        &&& calendar_date_of(self.unix_nanos as int, self.offset_seconds as int) == Some(
            (self.year as int, self.month as int, self.day as int),
        )
        &&& 1 <= self.month <= 12
        &&& 1 <= self.day <= 31
    }

    /// The instant, in nanoseconds since the Unix epoch.
    pub closed spec fn instant(&self) -> int {
        self.unix_nanos as int
    }

    /// The UTC offset, in seconds.
    pub closed spec fn offset(&self) -> int {
        self.offset_seconds as int
    }

    /// Year, month and day at the date's own offset.
    pub closed spec fn ymd(&self) -> (int, int, int) {
        (self.year as int, self.month as int, self.day as int)
    }

    /// The date of the instant `unix_nanos` written at offset `offset_seconds`;
    /// `None` where no calendar date can be given for it.
    pub fn new(unix_nanos: i128, offset_seconds: i32) -> (r: Option<Self>)
        ensures
            r is Some <==> calendar_date_of(unix_nanos as int, offset_seconds as int) is Some,
            r matches Some(d) ==> {
                &&& d.wf()
                &&& d.instant() == unix_nanos
                &&& d.offset() == offset_seconds
                &&& calendar_date_of(unix_nanos as int, offset_seconds as int) == Some(d.ymd())
            },
    {
        match local_calendar_date(unix_nanos, offset_seconds) {
            Some((year, month, day)) => Some(ArticleDate { unix_nanos, offset_seconds, year, month, day }),
            None => None,
        }
    }

    /// The instant, in nanoseconds since the Unix epoch.
    pub fn unix_nanos(&self) -> (r: i128)
        ensures
            r == self.instant(),
    {
        self.unix_nanos
    }

    /// The UTC offset, in seconds.
    pub fn offset_seconds(&self) -> (r: i32)
        ensures
            r == self.offset(),
    {
        self.offset_seconds
    }

    /// The date as text, `YYYY/MM/DD`.
    pub fn format(&self) -> (r: String)
        requires
            self.wf(),
        ensures
            r@ == date_text(self.ymd().0, self.ymd().1, self.ymd().2),
    {
        format_date(self.year, self.month, self.day)
    }
}

impl Clone for ArticleDate {
    fn clone(&self) -> (r: Self)
        ensures
            r == *self,
    {
        ArticleDate {
            unix_nanos: self.unix_nanos,
            offset_seconds: self.offset_seconds,
            year: self.year,
            month: self.month,
            day: self.day,
        }
    }
}

/// The decimal digit for `d` (below ten).
pub open spec fn digit_char(d: nat) -> char {
    if d == 0 {
        '0'
    } else if d == 1 {
        '1'
    } else if d == 2 {
        '2'
    } else if d == 3 {
        '3'
    } else if d == 4 {
        '4'
    } else if d == 5 {
        '5'
    } else if d == 6 {
        '6'
    } else if d == 7 {
        '7'
    } else if d == 8 {
        '8'
    } else {
        '9'
    }
}

/// `n` in decimal, without leading zeros.
pub open spec fn decimal(n: nat) -> Seq<char>
    decreases n,
{
    if n < 10 {
        seq![digit_char(n)]
    } else {
        decimal(n / 10) + seq![digit_char(n % 10)]
    }
}

/// `n` in decimal, with zeros in front up to `width` characters.
pub open spec fn zero_padded(n: nat, width: nat) -> Seq<char> {
    let digits = decimal(n);
    if digits.len() < width {
        Seq::new((width - digits.len()) as nat, |i: int| '0') + digits
    } else {
        digits
    }
}

/// A year in at least four digits, with a minus sign before a negative year.
pub open spec fn year_text(y: int) -> Seq<char> {
    if y < 0 {
        seq!['-'] + zero_padded((-y) as nat, 4)
    } else {
        zero_padded(y as nat, 4)
    }
}

/// A calendar date as `YYYY/MM/DD`.
pub open spec fn date_text(y: int, m: int, d: int) -> Seq<char> {
    year_text(y) + seq!['/'] + zero_padded(m as nat, 2) + seq!['/'] + zero_padded(d as nat, 2)
}

fn digit(d: u32) -> (c: char)
    requires
        d < 10,
    ensures
        c == digit_char(d as nat),
{
    if d == 0 {
        '0'
    } else if d == 1 {
        '1'
    } else if d == 2 {
        '2'
    } else if d == 3 {
        '3'
    } else if d == 4 {
        '4'
    } else if d == 5 {
        '5'
    } else if d == 6 {
        '6'
    } else if d == 7 {
        '7'
    } else if d == 8 {
        '8'
    } else {
        '9'
    }
}

fn push_decimal(out: &mut Vec<char>, n: u32)
    ensures
        final(out)@ == old(out)@ + decimal(n as nat),
    decreases n,
{
    if n < 10 {
        out.push(digit(n));
    } else {
        push_decimal(out, n / 10);
        out.push(digit(n % 10));
        assert(final(out)@ =~= old(out)@ + decimal(n as nat));
    }
}

fn push_zero_padded(out: &mut Vec<char>, n: u32, width: usize)
    ensures
        final(out)@ == old(out)@ + zero_padded(n as nat, width as nat),
{
    let mut digits: Vec<char> = Vec::new();
    push_decimal(&mut digits, n);
    assert(digits@ =~= decimal(n as nat));
    let mut k: usize = digits.len();
    let ghost start = out@;
    while k < width
        invariant
            digits@ == decimal(n as nat),
            digits@.len() <= k,
            k <= width || k == digits@.len(),
            out@ == start + Seq::new((k - digits@.len()) as nat, |i: int| '0'),
        decreases width - k,
    {
        out.push('0');
        k = k + 1;
        assert(out@ =~= start + Seq::new((k - digits@.len()) as nat, |i: int| '0'));
    }
    let mut j: usize = 0;
    let ghost padded = out@;
    while j < digits.len()
        invariant
            j <= digits@.len(),
            out@ == padded + digits@.subrange(0, j as int),
        decreases digits@.len() - j,
    {
        out.push(digits[j]);
        j = j + 1;
        assert(out@ =~= padded + digits@.subrange(0, j as int));
    }
    assert(digits@.subrange(0, j as int) =~= digits@);
    if digits.len() < width {
        assert(out@ =~= start + zero_padded(n as nat, width as nat));
    } else {
        assert(Seq::new(0, |i: int| '0') + digits@ =~= digits@);
        assert(out@ =~= start + zero_padded(n as nat, width as nat));
    }
}

/// A calendar date as `YYYY/MM/DD`.
pub fn format_date(year: i32, month: u8, day: u8) -> (r: String)
    ensures
        r@ == date_text(year as int, month as int, day as int),
{
    let mut v: Vec<char> = Vec::new();
    if year < 0 {
        v.push('-');
        let magnitude: u32 = if year == i32::MIN {
            2147483648u32
        } else {
            (-year) as u32
        };
        push_zero_padded(&mut v, magnitude, 4);
    } else {
        push_zero_padded(&mut v, year as u32, 4);
    }
    v.push('/');
    push_zero_padded(&mut v, month as u32, 2);
    v.push('/');
    push_zero_padded(&mut v, day as u32, 2);
    assert(v@ =~= date_text(year as int, month as int, day as int));
    let n = v.len();
    string_from_chars(&v, 0, n)
}

} // verus!

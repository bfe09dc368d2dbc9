//! The fixed-format timestamp codec: date-time values in UTC with
//! millisecond precision, read and written only through the exact pattern
//! `YYYY-MM-DDTHH:MM:SS.mmm` — four-digit year, zero-padded components,
//! exactly three fractional digits, no zone designator.

use vstd::prelude::*;
use vstd::string::*;

verus! {

/// The character for one decimal digit.
pub open spec fn dchar(d: int) -> char {
    if d == 0 {
        '0'
    } else if d == 1 {
        '1'
    } else if d == 2 {
        '2'
    } else if d == 3 {
        '3'
    } else if d == 4 {
        '4'
    } else if d == 5 {
        '5'
    } else if d == 6 {
        '6'
    } else if d == 7 {
        '7'
    } else if d == 8 {
        '8'
    } else {
        '9'
    }
}

/// Whether a character is a decimal digit.
pub open spec fn is_digit(c: char) -> bool {
    c == '0' || c == '1' || c == '2' || c == '3' || c == '4' || c == '5' || c == '6' || c == '7'
        || c == '8' || c == '9'
}

/// The value of a decimal digit character.
pub open spec fn dval(c: char) -> int {
    if c == '0' {
        0
    } else if c == '1' {
        1
    } else if c == '2' {
        2
    } else if c == '3' {
        3
    } else if c == '4' {
        4
    } else if c == '5' {
        5
    } else if c == '6' {
        6
    } else if c == '7' {
        7
    } else if c == '8' {
        8
    } else {
        9
    }
}

/// Whether a year is a leap year in the proleptic Gregorian calendar.
pub open spec fn leap_year(y: int) -> bool {
    y % 4 == 0 && (y % 100 != 0 || y % 400 == 0)
}

/// The number of days in a month.
pub open spec fn days_in_month(y: int, m: int) -> int {
    if m == 2 {
        if leap_year(y) {
            29
        } else {
            28
        }
    } else if m == 4 || m == 6 || m == 9 || m == 11 {
        30
    } else {
        31
    }
}

/// A point in time in UTC with millisecond precision, held as its
/// calendar components. The wire representation is exactly the pattern
/// `YYYY-MM-DDTHH:MM:SS.mmm`, which is in bijection with the valid
/// component tuples, so equality of components is equality of instants.
#[derive(Clone, Copy, Debug, PartialEq, Eq, Structural)]
pub struct Timestamp {
    pub year: u16,
    pub month: u8,
    pub day: u8,
    pub hour: u8,
    pub minute: u8,
    pub second: u8,
    pub millisecond: u16,
}

impl Timestamp {
    /// Calendar validity: exactly the values the wire pattern can carry.
    pub open spec fn wf(self) -> bool {
        &&& self.year <= 9999
        &&& 1 <= self.month <= 12
        &&& 1 <= self.day <= days_in_month(self.year as int, self.month as int)
        &&& self.hour <= 23
        &&& self.minute <= 59
        &&& self.second <= 59
        &&& self.millisecond <= 999
    }

    /// The wire text of this timestamp: the 23 characters of the fixed
    /// pattern, every component zero-padded to its width.
    pub open spec fn text(self) -> Seq<char> {
        seq![
            dchar(self.year as int / 1000),
            dchar((self.year as int / 100) % 10),
            dchar((self.year as int / 10) % 10),
            dchar(self.year as int % 10),
            '-',
            dchar(self.month as int / 10),
            dchar(self.month as int % 10),
            '-',
            dchar(self.day as int / 10),
            dchar(self.day as int % 10),
            'T',
            dchar(self.hour as int / 10),
            dchar(self.hour as int % 10),
            ':',
            dchar(self.minute as int / 10),
            dchar(self.minute as int % 10),
            ':',
            dchar(self.second as int / 10),
            dchar(self.second as int % 10),
            '.',
            dchar(self.millisecond as int / 100),
            dchar((self.millisecond as int / 10) % 10),
            dchar(self.millisecond as int % 10),
        ]
    }
}

/// Whether a string has the exact shape of the pattern: length 23, the
/// four separators in place, digits everywhere else.
pub open spec fn shape(s: Seq<char>) -> bool {
    &&& s.len() == 23
    &&& is_digit(s[0]) && is_digit(s[1]) && is_digit(s[2]) && is_digit(s[3])
    &&& s[4] == '-'
    &&& is_digit(s[5]) && is_digit(s[6])
    &&& s[7] == '-'
    &&& is_digit(s[8]) && is_digit(s[9])
    &&& s[10] == 'T'
    &&& is_digit(s[11]) && is_digit(s[12])
    &&& s[13] == ':'
    &&& is_digit(s[14]) && is_digit(s[15])
    &&& s[16] == ':'
    &&& is_digit(s[17]) && is_digit(s[18])
    &&& s[19] == '.'
    &&& is_digit(s[20]) && is_digit(s[21]) && is_digit(s[22])
}

/// The components read off a string of the right shape.
pub open spec fn components(s: Seq<char>) -> Timestamp {
    Timestamp {
        year: (1000 * dval(s[0]) + 100 * dval(s[1]) + 10 * dval(s[2]) + dval(s[3])) as u16,
        month: (10 * dval(s[5]) + dval(s[6])) as u8,
        day: (10 * dval(s[8]) + dval(s[9])) as u8,
        hour: (10 * dval(s[11]) + dval(s[12])) as u8,
        minute: (10 * dval(s[14]) + dval(s[15])) as u8,
        second: (10 * dval(s[17]) + dval(s[18])) as u8,
        millisecond: (100 * dval(s[20]) + 10 * dval(s[21]) + dval(s[22])) as u16,
    }
}

impl Timestamp {
    /// What decoding yields: the components of a string that matches the
    /// pattern exactly and carries a calendar-valid date, nothing for any
    /// other string.
    pub open spec fn parse(s: Seq<char>) -> Option<Timestamp> {
        if shape(s) && components(s).wf() {
            Some(components(s))
        } else {
            None
        }
    }
}

proof fn lemma_digit_char_val(d: int)
    requires
        0 <= d <= 9,
    ensures
        is_digit(dchar(d)),
        dval(dchar(d)) == d,
{
}

proof fn lemma_digit_val_char(c: char)
    requires
        is_digit(c),
    ensures
        0 <= dval(c) <= 9,
        dchar(dval(c)) == c,
{
}

/// The text of a valid timestamp has the pattern's shape and reads back
/// to the same components.
#[verifier::rlimit(80)]
proof fn lemma_components_of_text(t: Timestamp)
    requires
        t.wf(),
    ensures
        shape(t.text()),
        components(t.text()) == t,
{
    let s = t.text();
    let y = t.year as int;
    lemma_digit_char_val(y / 1000);
    lemma_digit_char_val((y / 100) % 10);
    lemma_digit_char_val((y / 10) % 10);
    lemma_digit_char_val(y % 10);
    assert(y == 1000 * (y / 1000) + 100 * ((y / 100) % 10) + 10 * ((y / 10) % 10) + y % 10);
    let mo = t.month as int;
    lemma_digit_char_val(mo / 10);
    lemma_digit_char_val(mo % 10);
    let d = t.day as int;
    lemma_digit_char_val(d / 10);
    lemma_digit_char_val(d % 10);
    let h = t.hour as int;
    lemma_digit_char_val(h / 10);
    lemma_digit_char_val(h % 10);
    let mi = t.minute as int;
    lemma_digit_char_val(mi / 10);
    lemma_digit_char_val(mi % 10);
    let sec = t.second as int;
    lemma_digit_char_val(sec / 10);
    lemma_digit_char_val(sec % 10);
    let ms = t.millisecond as int;
    lemma_digit_char_val(ms / 100);
    lemma_digit_char_val((ms / 10) % 10);
    lemma_digit_char_val(ms % 10);
    assert(ms == 100 * (ms / 100) + 10 * ((ms / 10) % 10) + ms % 10);
    assert(components(s) == t);
}

proof fn lemma_two_digits(a: int, b: int)
    requires
        0 <= a <= 9,
        0 <= b <= 9,
    ensures
        (10 * a + b) / 10 == a,
        (10 * a + b) % 10 == b,
{
}

proof fn lemma_three_digits(a: int, b: int, c: int)
    requires
        0 <= a <= 9,
        0 <= b <= 9,
        0 <= c <= 9,
    ensures
        (100 * a + 10 * b + c) / 100 == a,
        ((100 * a + 10 * b + c) / 10) % 10 == b,
        (100 * a + 10 * b + c) % 10 == c,
{
    let n = 100 * a + 10 * b + c;
    assert(n / 10 == 10 * a + b);
    lemma_two_digits(a, b);
}

proof fn lemma_four_digits(a: int, b: int, c: int, d: int)
    requires
        0 <= a <= 9,
        0 <= b <= 9,
        0 <= c <= 9,
        0 <= d <= 9,
    ensures
        (1000 * a + 100 * b + 10 * c + d) / 1000 == a,
        ((1000 * a + 100 * b + 10 * c + d) / 100) % 10 == b,
        ((1000 * a + 100 * b + 10 * c + d) / 10) % 10 == c,
        (1000 * a + 100 * b + 10 * c + d) % 10 == d,
{
    let n = 1000 * a + 100 * b + 10 * c + d;
    assert(n / 10 == 100 * a + 10 * b + c);
    assert(n / 100 == 10 * a + b);
    lemma_two_digits(a, b);
}

/// A string of the pattern's shape is exactly the text of its components.
#[verifier::rlimit(80)]
proof fn lemma_text_of_components(s: Seq<char>)
    requires
        shape(s),
    ensures
        components(s).text() =~= s,
{
    let t = components(s);
    lemma_digit_val_char(s[0]);
    lemma_digit_val_char(s[1]);
    lemma_digit_val_char(s[2]);
    lemma_digit_val_char(s[3]);
    lemma_digit_val_char(s[5]);
    lemma_digit_val_char(s[6]);
    lemma_digit_val_char(s[8]);
    lemma_digit_val_char(s[9]);
    lemma_digit_val_char(s[11]);
    lemma_digit_val_char(s[12]);
    lemma_digit_val_char(s[14]);
    lemma_digit_val_char(s[15]);
    lemma_digit_val_char(s[17]);
    lemma_digit_val_char(s[18]);
    lemma_digit_val_char(s[20]);
    lemma_digit_val_char(s[21]);
    lemma_digit_val_char(s[22]);
    lemma_four_digits(dval(s[0]), dval(s[1]), dval(s[2]), dval(s[3]));
    lemma_two_digits(dval(s[5]), dval(s[6]));
    lemma_two_digits(dval(s[8]), dval(s[9]));
    lemma_two_digits(dval(s[11]), dval(s[12]));
    lemma_two_digits(dval(s[14]), dval(s[15]));
    lemma_two_digits(dval(s[17]), dval(s[18]));
    lemma_three_digits(dval(s[20]), dval(s[21]), dval(s[22]));
    assert(t.text()[0] == s[0]);
    assert(t.text()[1] == s[1]);
    assert(t.text()[2] == s[2]);
    assert(t.text()[3] == s[3]);
    assert(t.text()[5] == s[5]);
    assert(t.text()[6] == s[6]);
    assert(t.text()[8] == s[8]);
    assert(t.text()[9] == s[9]);
    assert(t.text()[11] == s[11]);
    assert(t.text()[12] == s[12]);
    assert(t.text()[14] == s[14]);
    assert(t.text()[15] == s[15]);
    assert(t.text()[17] == s[17]);
    assert(t.text()[18] == s[18]);
    assert(t.text()[20] == s[20]);
    assert(t.text()[21] == s[21]);
    assert(t.text()[22] == s[22]);
}

/// Round trip: every valid timestamp parses back from its own text.
pub proof fn lemma_timestamp_round_trip(t: Timestamp)
    requires
        t.wf(),
    ensures
        Timestamp::parse(t.text()) == Some(t),
{
    lemma_components_of_text(t);
}

/// The text of a valid timestamp matches the pattern exactly: length
/// 23, separators in place, every component zero-padded to its width.
pub proof fn lemma_timestamp_text_shape(t: Timestamp)
    requires
        t.wf(),
    ensures
        shape(t.text()),
{
    lemma_components_of_text(t);
}

/// Parsing is exact: a parsed timestamp is valid and its text is the
/// input itself (so encoding it reproduces the input byte for byte), and
/// a string on which parsing fails is the text of no valid timestamp.
pub proof fn lemma_timestamp_parse_exact(s: Seq<char>)
    ensures
        match Timestamp::parse(s) {
            Some(t) => t.wf() && t.text() == s,
            None => forall|t: Timestamp| t.wf() ==> t.text() != s,
        },
{
    if Timestamp::parse(s) is Some {
        lemma_text_of_components(s);
    } else {
        assert forall|t: Timestamp| t.wf() implies t.text() != s by {
            if t.text() == s {
                lemma_components_of_text(t);
            }
        }
    }
}

/// The value of one decimal digit character.
fn digit_val(c: char) -> (r: Option<u8>)
    ensures
        match r {
            Some(d) => is_digit(c) && d < 10 && d as int == dval(c),
            None => !is_digit(c),
        },
{
    match c {
        '0' => Some(0),
        '1' => Some(1),
        '2' => Some(2),
        '3' => Some(3),
        '4' => Some(4),
        '5' => Some(5),
        '6' => Some(6),
        '7' => Some(7),
        '8' => Some(8),
        '9' => Some(9),
        _ => None,
    }
}

/// The one-character string for one decimal digit.
fn digit_str(d: u8) -> (r: &'static str)
    requires
        d < 10,
    ensures
        r@.len() == 1 && r@[0] == dchar(d as int),
{
    proof {
        reveal_strlit("0");
        reveal_strlit("1");
        reveal_strlit("2");
        reveal_strlit("3");
        reveal_strlit("4");
        reveal_strlit("5");
        reveal_strlit("6");
        reveal_strlit("7");
        reveal_strlit("8");
        reveal_strlit("9");
    }
    match d {
        0 => "0",
        1 => "1",
        2 => "2",
        3 => "3",
        4 => "4",
        5 => "5",
        6 => "6",
        7 => "7",
        8 => "8",
        _ => "9",
    }
}

/// Append a number below 100 as two zero-padded digits.
fn push_2(out: &mut String, n: u8)
    requires
        n < 100,
    ensures
        final(out)@ == old(out)@ + seq![dchar(n as int / 10), dchar(n as int % 10)],
{
    out.append(digit_str(n / 10));
    out.append(digit_str(n % 10));
    proof {
        assert(out@ =~= old(out)@ + seq![dchar(n as int / 10), dchar(n as int % 10)]);
    }
}

/// Append a number below 1000 as three zero-padded digits.
fn push_3(out: &mut String, n: u16)
    requires
        n < 1000,
    ensures
        final(out)@ == old(out)@ + seq![
            dchar(n as int / 100),
            dchar((n as int / 10) % 10),
            dchar(n as int % 10),
        ],
{
    out.append(digit_str((n / 100) as u8));
    out.append(digit_str(((n / 10) % 10) as u8));
    out.append(digit_str((n % 10) as u8));
    proof {
        assert(out@ =~= old(out)@ + seq![
            dchar(n as int / 100),
            dchar((n as int / 10) % 10),
            dchar(n as int % 10),
        ]);
    }
}

/// Append a number below 10000 as four zero-padded digits.
fn push_4(out: &mut String, n: u16)
    requires
        n < 10000,
    ensures
        final(out)@ == old(out)@ + seq![
            dchar(n as int / 1000),
            dchar((n as int / 100) % 10),
            dchar((n as int / 10) % 10),
            dchar(n as int % 10),
        ],
{
    out.append(digit_str((n / 1000) as u8));
    out.append(digit_str(((n / 100) % 10) as u8));
    out.append(digit_str(((n / 10) % 10) as u8));
    out.append(digit_str((n % 10) as u8));
    proof {
        assert(out@ =~= old(out)@ + seq![
            dchar(n as int / 1000),
            dchar((n as int / 100) % 10),
            dchar((n as int / 10) % 10),
            dchar(n as int % 10),
        ]);
    }
}

/// The number of days in a month.
fn days_in_month_x(y: u16, m: u8) -> (r: u8)
    ensures
        r as int == days_in_month(y as int, m as int),
{
    if m == 2 {
        if y % 4 == 0 && (y % 100 != 0 || y % 400 == 0) {
            29
        } else {
            28
        }
    } else if m == 4 || m == 6 || m == 9 || m == 11 {
        30
    } else {
        31
    }
}

impl Timestamp {
    /// Decode the fixed pattern. Yields the timestamp exactly when the
    /// input matches the pattern and carries a calendar-valid date.
    pub fn decode(s: &str) -> (r: Option<Timestamp>)
        ensures
            r == Timestamp::parse(s@),
    {
        if s.unicode_len() != 23 {
            return None;
        }
        if s.get_char(4) != '-' || s.get_char(7) != '-' || s.get_char(10) != 'T' || s.get_char(13)
            != ':' || s.get_char(16) != ':' || s.get_char(19) != '.' {
            return None;
        }
        let d0 = match digit_val(s.get_char(0)) {
            Some(d) => d,
            None => { return None; },
        };
        let d1 = match digit_val(s.get_char(1)) {
            Some(d) => d,
            None => { return None; },
        };
        let d2 = match digit_val(s.get_char(2)) {
            Some(d) => d,
            None => { return None; },
        };
        let d3 = match digit_val(s.get_char(3)) {
            Some(d) => d,
            None => { return None; },
        };
        let d5 = match digit_val(s.get_char(5)) {
            Some(d) => d,
            None => { return None; },
        };
        let d6 = match digit_val(s.get_char(6)) {
            Some(d) => d,
            None => { return None; },
        };
        let d8 = match digit_val(s.get_char(8)) {
            Some(d) => d,
            None => { return None; },
        };
        let d9 = match digit_val(s.get_char(9)) {
            Some(d) => d,
            None => { return None; },
        };
        let d11 = match digit_val(s.get_char(11)) {
            Some(d) => d,
            None => { return None; },
        };
        let d12 = match digit_val(s.get_char(12)) {
            Some(d) => d,
            None => { return None; },
        };
        let d14 = match digit_val(s.get_char(14)) {
            Some(d) => d,
            None => { return None; },
        };
        let d15 = match digit_val(s.get_char(15)) {
            Some(d) => d,
            None => { return None; },
        };
        let d17 = match digit_val(s.get_char(17)) {
            Some(d) => d,
            None => { return None; },
        };
        let d18 = match digit_val(s.get_char(18)) {
            Some(d) => d,
            None => { return None; },
        };
        let d20 = match digit_val(s.get_char(20)) {
            Some(d) => d,
            None => { return None; },
        };
        let d21 = match digit_val(s.get_char(21)) {
            Some(d) => d,
            None => { return None; },
        };
        let d22 = match digit_val(s.get_char(22)) {
            Some(d) => d,
            None => { return None; },
        };
        let t = Timestamp {
            year: 1000 * (d0 as u16) + 100 * (d1 as u16) + 10 * (d2 as u16) + (d3 as u16),
            month: 10 * d5 + d6,
            day: 10 * d8 + d9,
            hour: 10 * d11 + d12,
            minute: 10 * d14 + d15,
            second: 10 * d17 + d18,
            millisecond: 100 * (d20 as u16) + 10 * (d21 as u16) + (d22 as u16),
        };
        proof {
            assert(shape(s@));
            assert(components(s@) == t);
        }
        if t.month < 1 || t.month > 12 {
            return None;
        }
        if t.day < 1 || t.day > days_in_month_x(t.year, t.month) {
            return None;
        }
        if t.hour > 23 || t.minute > 59 || t.second > 59 {
            return None;
        }
        Some(t)
    }

    /// Whether the components form a calendar-valid timestamp — exactly
    /// the values the wire pattern can carry.
    pub fn is_wf(&self) -> (r: bool)
        ensures
            r == self.wf(),
    {
        self.year <= 9999 && 1 <= self.month && self.month <= 12 && 1 <= self.day && self.day
            <= days_in_month_x(self.year, self.month) && self.hour <= 23 && self.minute <= 59
            && self.second <= 59 && self.millisecond <= 999
    }

    /// Encode to the fixed pattern: always succeeds for any valid
    /// timestamp, zero-padding every component to its declared width.
    pub fn encode(&self) -> (r: String)
        requires
            self.wf(),
        ensures
            r@ == self.text(),
    {
        let mut out = String::new();
        push_4(&mut out, self.year);
        out.append("-");
        push_2(&mut out, self.month);
        out.append("-");
        push_2(&mut out, self.day);
        out.append("T");
        push_2(&mut out, self.hour);
        out.append(":");
        push_2(&mut out, self.minute);
        out.append(":");
        push_2(&mut out, self.second);
        out.append(".");
        push_3(&mut out, self.millisecond);
        proof {
            reveal_strlit("-");
            reveal_strlit("T");
            reveal_strlit(":");
            reveal_strlit(".");
            assert(out@ =~= self.text());
        }
        out
    }
}

/// Encode an optional timestamp: no value maps to the wire's explicit
/// absent marker — never to an empty string — and a present value
/// delegates to `encode`.
pub fn encode_optional(t: &Option<Timestamp>) -> (r: Option<String>)
    requires
        t matches Some(x) ==> x.wf(),
    ensures
        match t {
            Some(x) => r matches Some(s) && s@ == x.text(),
            None => r is None,
        },
{
    match t {
        Some(x) => Some(x.encode()),
        None => None,
    }
}

} // verus!

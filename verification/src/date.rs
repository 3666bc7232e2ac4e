//! Calendar dates as plain values, and their rendering into note-file names.
//!
//! The clock is read through one trusted call into `chrono`; everything that
//! is computed from the date (two-digit stamps, zero-padded years) is verified
//! here against exact decimal specifications.

use chrono::Datelike;
use vstd::arithmetic::div_mod::lemma_div_decreases;
use vstd::prelude::*;

verus! {

/// A local calendar date, decomposed into plain numbers.
#[derive(Clone, Copy, PartialEq, Eq, Structural, Debug)]
pub struct Date {
    pub year: i32,
    pub month: u32,
    pub day: u32,
}

impl Date {
    /// The ranges that `chrono` guarantees of a calendar date.
    pub open spec fn wf(self) -> bool {
        &&& -262143 <= self.year <= 262142
        &&& 1 <= self.month <= 12
        &&& 1 <= self.day <= 31
    }
}

/// Relies on `chrono::Local::now` and `chrono::Datelike`: `year` lies within
/// `NaiveDate`'s year range (-262143 ..= 262142), `month` ranges over 1..=12
/// and `day` over 1..=31, as their documentation states.
#[verifier::external_body]
pub fn today() -> (r: Date)
    ensures
        r.wf(),
{
    let now = chrono::Local::now().date_naive();
    Date { year: now.year(), month: now.month(), day: now.day() }
}

/// The ASCII digit for `n`.
pub open spec fn spec_digit(n: int) -> u8
    recommends
        0 <= n <= 9,
{
    (48 + n) as u8
}

fn digit_byte(n: u64) -> (r: u8)
    requires
        n < 10,
    ensures
        r == spec_digit(n as int),
{
    48 + (n as u8)
}

/// The decimal rendering of `n`, most significant digit first, no padding.
pub open spec fn spec_decimal(n: nat) -> Seq<u8>
    decreases n,
{
    if n < 10 {
        seq![spec_digit(n as int)]
    } else {
        spec_decimal(n / 10).push(spec_digit((n % 10) as int))
    }
}

/// Render `n` in decimal.
pub fn decimal_digits(n: u64) -> (r: Vec<u8>)
    ensures
        r@ == spec_decimal(n as nat),
    decreases n,
{
    if n < 10 {
        let mut r: Vec<u8> = Vec::new();
        r.push(digit_byte(n));
        proof {
            assert(r@ =~= spec_decimal(n as nat));
        }
        r
    } else {
        proof {
            lemma_div_decreases(n as int, 10);
        }
        let mut r = decimal_digits(n / 10);
        r.push(digit_byte(n % 10));
        proof {
            assert(r@ =~= spec_decimal(n as nat));
        }
        r
    }
}

/// `k` ASCII zeros.
pub open spec fn spec_zeros(k: int) -> Seq<u8> {
    Seq::new(k as nat, |i: int| 48u8)
}

/// `s` preceded by enough zeros to reach width `w`.
pub open spec fn spec_zero_pad(s: Seq<u8>, w: int) -> Seq<u8> {
    if s.len() >= w {
        s
    } else {
        spec_zeros(w - s.len()) + s
    }
}

/// Pad a digit string with leading zeros to four places.
pub fn zero_pad4(digits: Vec<u8>) -> (r: Vec<u8>)
    ensures
        r@ == spec_zero_pad(digits@, 4),
{
    if digits.len() >= 4 {
        return digits;
    }
    let k: usize = 4 - digits.len();
    let mut r: Vec<u8> = Vec::new();
    let mut i: usize = 0;
    while i < k
        invariant
            i <= k,
            r@ =~= spec_zeros(i as int),
        decreases k - i,
    {
        r.push(48);
        i = i + 1;
    }
    crate::bytestr::append_bytes(&mut r, &digits);
    proof {
        assert(r@ =~= spec_zero_pad(digits@, 4));
    }
    r
}

/// The year rendered as the archive stamp does: zero-padded to four digits,
/// a leading minus sign for years before the common era.
pub open spec fn spec_year_digits(y: int) -> Seq<u8> {
    if y >= 0 {
        spec_zero_pad(spec_decimal(y as nat), 4)
    } else {
        seq![45u8] + spec_zero_pad(spec_decimal((-y) as nat), 4)
    }
}

/// Render a year, zero-padded to four digits, sign included when negative.
pub fn year_digits(y: i32) -> (r: Vec<u8>)
    requires
        -262143 <= y,
    ensures
        r@ == spec_year_digits(y as int),
{
    if y >= 0 {
        zero_pad4(decimal_digits(y as u64))
    } else {
        let mag: u64 = (-(y as i64)) as u64;
        let mut r: Vec<u8> = Vec::new();
        r.push(45);
        let padded = zero_pad4(decimal_digits(mag));
        crate::bytestr::append_bytes(&mut r, &padded);
        proof {
            assert(r@ =~= spec_year_digits(y as int));
        }
        r
    }
}

/// Two ASCII digits for `n`.
pub open spec fn spec_two_digits(n: int) -> Seq<u8>
    recommends
        0 <= n < 100,
{
    seq![spec_digit(n / 10), spec_digit(n % 10)]
}

/// Render `n` as exactly two digits, zero-padded.
pub fn two_digits(n: u32) -> (r: Vec<u8>)
    requires
        n < 100,
    ensures
        r@ == spec_two_digits(n as int),
{
    let mut r: Vec<u8> = Vec::new();
    r.push(digit_byte((n as u64) / 10));
    r.push(digit_byte((n as u64) % 10));
    proof {
        assert(r@ =~= spec_two_digits(n as int));
    }
    r
}

/// The last two digits of the year, as the calendar shows them.
pub fn year_mod_100(y: i32) -> (r: u32)
    requires
        -262143 <= y,
    ensures
        r < 100,
        r as int == (y as int) % 100,
{
    if y >= 0 {
        (((y as u64) % 100) as u32)
    } else {
        let mag: u64 = (-(y as i64)) as u64;
        let m: u64 = mag % 100;
        if m == 0 {
            0
        } else {
            proof {
                assert((y as int) % 100 == 100 - (mag as int) % 100) by {
                    assert(y as int == -(mag as int));
                    assert((mag as int) % 100 != 0);
                };
            }
            (100 - m) as u32
        }
    }
}

/// The daily stamp `dd-mm-yy`.
pub open spec fn spec_daily_stamp(d: Date) -> Seq<u8>
    recommends
        d.wf(),
{
    spec_two_digits(d.day as int) + seq![45u8] + spec_two_digits(d.month as int) + seq![45u8]
        + spec_two_digits((d.year as int) % 100)
}

/// Render a date as the two-digit day-month-year daily stamp.
pub fn daily_stamp(d: &Date) -> (r: Vec<u8>)
    requires
        d.wf(),
    ensures
        r@ == spec_daily_stamp(*d),
{
    let mut r = two_digits(d.day);
    r.push(45);
    let mm = two_digits(d.month);
    crate::bytestr::append_bytes(&mut r, &mm);
    r.push(45);
    let yy = two_digits(year_mod_100(d.year));
    crate::bytestr::append_bytes(&mut r, &yy);
    proof {
        assert(r@ =~= spec_daily_stamp(*d));
    }
    r
}

/// The archive stamp `yyyy-mm-dd`.
pub open spec fn spec_archive_stamp(d: Date) -> Seq<u8>
    recommends
        d.wf(),
{
    spec_year_digits(d.year as int) + seq![45u8] + spec_two_digits(d.month as int) + seq![45u8]
        + spec_two_digits(d.day as int)
}

/// Render a date as the four-digit year-month-day archive stamp.
pub fn archive_stamp(d: &Date) -> (r: Vec<u8>)
    requires
        d.wf(),
    ensures
        r@ == spec_archive_stamp(*d),
{
    let mut r = year_digits(d.year);
    r.push(45);
    let mm = two_digits(d.month);
    crate::bytestr::append_bytes(&mut r, &mm);
    r.push(45);
    let dd = two_digits(d.day);
    crate::bytestr::append_bytes(&mut r, &dd);
    proof {
        assert(r@ =~= spec_archive_stamp(*d));
    }
    r
}

} // verus!

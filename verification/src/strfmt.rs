//! Verified text building for the output rows: decimal rendering of the
//! record's numbers, the human-readable age, the yes/no and CI labels, and
//! the fixed-point score shown with one decimal.

use vstd::prelude::*;

verus! {

/// Relies on `String::push`: appends exactly the one character.
#[verifier::external_body]
pub fn push_char(s: &mut String, c: char)
    ensures
        final(s)@ == old(s)@ + seq![c],
{
    s.push(c);
}

/// The decimal digit character of a value below ten.
pub open spec fn spec_digit(d: int) -> char {
    if d == 0 {
        '0'
    } else if d == 1 {
        '1'
    } else if d == 2 {
        '2'
    } else if d == 3 {
        '3'
    } else if d == 4 {
        '4'
    } else if d == 5 {
        '5'
    } else if d == 6 {
        '6'
    } else if d == 7 {
        '7'
    } else if d == 8 {
        '8'
    } else {
        '9'
    }
}

/// Returns the digit character of `d`.
pub fn digit_char(d: u8) -> (c: char)
    requires
        d < 10,
    ensures
        c == spec_digit(d as int),
{
    match d {
        0 => '0',
        1 => '1',
        2 => '2',
        3 => '3',
        4 => '4',
        5 => '5',
        6 => '6',
        7 => '7',
        8 => '8',
        _ => '9',
    }
}

/// The decimal digits of a nonnegative value, most significant first.
pub open spec fn spec_dec(n: int) -> Seq<char>
    decreases n,
{
    if n < 10 {
        seq![spec_digit(n)]
    } else {
        spec_dec(n / 10) + seq![spec_digit(n % 10)]
    }
}

/// Renders a nonnegative value in decimal.
pub fn u128_to_string(n: u128) -> (r: String)
    ensures
        r@ == spec_dec(n as int),
    decreases n,
{
    if n < 10 {
        let mut s = String::new();
        push_char(&mut s, digit_char(n as u8));
        proof {
            assert(s@ =~= spec_dec(n as int));
        }
        s
    } else {
        let mut s = u128_to_string(n / 10);
        push_char(&mut s, digit_char((n % 10) as u8));
        s
    }
}

/// The decimal rendering of a signed value: a minus sign for a negative
/// one, then its digits.
pub open spec fn spec_dec_signed(n: int) -> Seq<char> {
    if n < 0 {
        seq!['-'] + spec_dec(-n)
    } else {
        spec_dec(n)
    }
}

/// Renders a signed value in decimal.
pub fn i128_to_string(n: i128) -> (r: String)
    requires
        n > i128::MIN,
    ensures
        r@ == spec_dec_signed(n as int),
{
    if n < 0 {
        let mut s = String::new();
        push_char(&mut s, '-');
        let digits = u128_to_string((-n) as u128);
        s.append(digits.as_str());
        s
    } else {
        u128_to_string(n as u128)
    }
}

/// Renders a signed 64-bit value in decimal.
pub fn i64_to_string(n: i64) -> (r: String)
    ensures
        r@ == spec_dec_signed(n as int),
{
    i128_to_string(n as i128)
}

/// The yes/no label of a flag.
pub open spec fn spec_show_bool(value: bool) -> Seq<char> {
    if value {
        "yes"@
    } else {
        "no"@
    }
}

/// Renders a flag as `yes` or `no`.
pub fn show_bool(value: bool) -> (r: &'static str)
    ensures
        r@ == spec_show_bool(value),
{
    if value {
        "yes"
    } else {
        "no"
    }
}

/// The short CI label of a state.
pub open spec fn spec_tests_result_label(t: crate::types::TestsState) -> Seq<char> {
    match t {
        crate::types::TestsState::Success => "OK"@,
        crate::types::TestsState::Pending => ".."@,
        crate::types::TestsState::Failure => "Fail"@,
        crate::types::TestsState::Absent => "-"@,
    }
}

/// Renders the short CI label of a state.
pub fn tests_result_label(tests_result: &crate::types::TestsState) -> (r: &'static str)
    ensures
        r@ == spec_tests_result_label(*tests_result),
{
    match tests_result {
        crate::types::TestsState::Success => "OK",
        crate::types::TestsState::Pending => "..",
        crate::types::TestsState::Failure => "Fail",
        crate::types::TestsState::Absent => "-",
    }
}

/// The human-readable age of a commit: days and hours, with minutes shown
/// only below one day, and nothing at all for a negative age.
pub open spec fn spec_duration(min: int) -> Seq<char> {
    if min < 0 {
        Seq::empty()
    } else {
        let d = min / 1440;
        let h = (min - d * 1440) / 60;
        let m = min - d * 1440 - h * 60;
        (if d > 0 {
            spec_dec(d) + "d "@
        } else {
            Seq::empty()
        }) + (if h > 0 {
            spec_dec(h) + "h "@
        } else {
            Seq::empty()
        }) + (if d == 0 && m > 0 {
            spec_dec(m) + "m "@
        } else {
            Seq::empty()
        })
    }
}

/// The age cell: the rendered duration, or a dash when the age is
/// unknown.
pub open spec fn spec_show_duration(minutes: Option<i64>) -> Seq<char> {
    match minutes {
        Option::Some(min) => spec_duration(min as int),
        Option::None => "-"@,
    }
}

/// Renders a commit age in days, hours and minutes.
pub fn show_duration(minutes: Option<i64>) -> (r: String)
    ensures
        r@ == spec_show_duration(minutes),
{
    match minutes {
        Option::Some(min) => {
            if min < 0 {
                String::new()
            } else {
                let d: i64 = ((min as u64) / 1440) as i64;
                let h: i64 = (((min - d * 1440) as u64) / 60) as i64;
                let m: i64 = min - d * 1440 - h * 60;
                let mut s = String::new();
                if d > 0 {
                    let ds = i64_to_string(d);
                    s.append(ds.as_str());
                    s.append("d ");
                }
                if h > 0 {
                    let hs = i64_to_string(h);
                    s.append(hs.as_str());
                    s.append("h ");
                }
                if d == 0 && m > 0 {
                    let ms = i64_to_string(m);
                    s.append(ms.as_str());
                    s.append("m ");
                }
                proof {
                    assert(s@ =~= spec_duration(min as int));
                }
                s
            }
        },
        Option::None => String::from_str("-"),
    }
}

/// A score in units of 1/3000 of a point, shown in points with one
/// decimal: the nearest tenth of a point, halves rounded away from zero,
/// with the sign of the underlying value.
pub open spec fn spec_score_tenths(u: int) -> Seq<char> {
    let a = if u < 0 {
        -u
    } else {
        u
    };
    let t = (a + 150) / 300;
    (if u < 0 {
        seq!['-']
    } else {
        Seq::empty()
    }) + spec_dec(t / 10) + "."@ + seq![spec_digit(t % 10)]
}

/// Renders a fixed-point score in points with one decimal.
pub fn score_tenths(u: i128) -> (r: String)
    requires
        -crate::score::score_component_bound() * 11 <= u <= crate::score::score_component_bound()
            * 11,
    ensures
        r@ == spec_score_tenths(u as int),
{
    let a: i128 = if u < 0 {
        -u
    } else {
        u
    };
    let t: i128 = ((a + 150) as u128 / 300) as i128;
    let mut s = String::new();
    if u < 0 {
        push_char(&mut s, '-');
    }
    let whole = i128_to_string(t / 10);
    s.append(whole.as_str());
    s.append(".");
    push_char(&mut s, digit_char((t % 10) as u8));
    proof {
        assert(s@ =~= spec_score_tenths(u as int));
    }
    s
}

} // verus!

//! The `HH:MM:SS:FF` timecode of a frame.
use crate::frame_clock::FrameRate;
use vstd::prelude::*;

verus! {

/// The decimal digit for `d` in `0..10`.
pub open spec fn digit_char(d: int) -> char {
    if d == 0 {
        '0'
    } else if d == 1 {
        '1'
    } else if d == 2 {
        '2'
    } else if d == 3 {
        '3'
    } else if d == 4 {
        '4'
    } else if d == 5 {
        '5'
    } else if d == 6 {
        '6'
    } else if d == 7 {
        '7'
    } else if d == 8 {
        '8'
    } else {
        '9'
    }
}

/// `n` written in decimal, without leading zeros.
pub open spec fn decimal(n: nat) -> Seq<char>
    decreases n,
{
    if n < 10 {
        seq![digit_char(n as int)]
    } else {
        decimal(n / 10).push(digit_char((n % 10) as int))
    }
}

/// `n` written in decimal, with zeros in front up to `width` characters.
pub open spec fn zero_padded(n: nat, width: nat) -> Seq<char> {
    let len = decimal(n).len();
    let zeros = if width > len {
        (width - len) as nat
    } else {
        0
    };
    Seq::new(zeros, |_i: int| '0') + decimal(n)
}

/// The parts of a timecode: whole hours, minutes and seconds, the frame
/// within its second, and the width the frame part is written in.
#[derive(Clone, Copy, Debug, PartialEq, Eq, Structural)]
pub struct Timecode {
    pub hours: u128,
    pub minutes: u128,
    pub seconds: u128,
    pub frames: u64,
    pub frame_width: u64,
}

/// Whole seconds elapsed at the start of frame `frame`: `floor(frame / fps)`.
pub open spec fn whole_seconds(frame: int, rate: FrameRate) -> int {
    (frame * rate.den) / (rate.num as int)
}

/// The number of frames counted within one second: the rate rounded, and at least 1.
pub open spec fn frames_per_second_shown(rate: FrameRate) -> int {
    if rate.spec_rounded() == 0 {
        1
    } else {
        rate.spec_rounded()
    }
}

/// The timecode of frame `frame`.
pub open spec fn spec_timecode(frame: int, rate: FrameRate) -> Timecode {
    let secs = whole_seconds(frame, rate);
    Timecode {
        hours: (secs / 3600) as u128,
        minutes: ((secs / 60) % 60) as u128,
        seconds: (secs % 60) as u128,
        frames: (frame % frames_per_second_shown(rate)) as u64,
        frame_width: decimal(rate.spec_rounded() as nat).len() as u64,
    }
}

/// The text of a timecode: `HH:MM:SS:FF`, each part zero-padded.
pub open spec fn timecode_text(t: Timecode) -> Seq<char> {
    zero_padded(t.hours as nat, 2) + seq![':'] + zero_padded(t.minutes as nat, 2) + seq![':']
        + zero_padded(t.seconds as nat, 2) + seq![':'] + zero_padded(
        t.frames as nat,
        t.frame_width as nat,
    )
}

/// The decimal digits of `n`, most significant first.
fn decimal_digits(n: u128) -> (r: Vec<u8>)
    ensures
        r@.map_values(|d: u8| digit_char(d as int)) == decimal(n as nat),
        forall|i: int| 0 <= i < r.len() ==> r[i] < 10,
{
    let mut digits: Vec<u8> = Vec::new();
    let mut m: u128 = n;
    while m >= 10
        invariant
            decimal(n as nat) == decimal(m as nat) + digits@.map_values(
                |d: u8| digit_char(d as int),
            ),
            forall|i: int| 0 <= i < digits.len() ==> digits[i] < 10,
        decreases m,
    {
        let d: u8 = (m % 10) as u8;
        let ghost old_digits = digits@;
        digits.insert(0, d);
        proof {
            assert(digits@.map_values(|d: u8| digit_char(d as int)) =~= seq![digit_char(d as int)]
                + old_digits.map_values(|d: u8| digit_char(d as int)));
            assert(decimal(m as nat) == decimal((m / 10) as nat).push(digit_char(d as int)));
            assert(decimal(m as nat) + old_digits.map_values(|d: u8| digit_char(d as int))
                =~= decimal((m / 10) as nat) + digits@.map_values(|d: u8| digit_char(d as int)));
        }
        m = m / 10;
    }
    let ghost old_digits = digits@;
    digits.insert(0, m as u8);
    assert(digits@.map_values(|d: u8| digit_char(d as int)) =~= decimal(m as nat)
        + old_digits.map_values(|d: u8| digit_char(d as int)));
    digits
}

/// Appends the decimal digit `d`.
fn append_digit(s: &mut String, d: u8)
    requires
        d < 10,
    ensures
        final(s)@ == old(s)@.push(digit_char(d as int)),
{
    let digits = "0123456789";
    proof {
        reveal_strlit("0123456789");
    }
    let one = digits.substring_char(d as usize, d as usize + 1);
    s.append(one);
    assert(one@ =~= seq![digit_char(d as int)]);
    assert(s@ =~= old(s)@.push(digit_char(d as int)));
}

/// Appends `n` in decimal, zero-padded to `width` characters.
fn append_zero_padded(s: &mut String, n: u128, width: u64)
    ensures
        final(s)@ == old(s)@ + zero_padded(n as nat, width as nat),
{
    let digits = decimal_digits(n);
    let ghost text = decimal(n as nat);
    assert(digits@.len() == text.len());
    let mut k: u64 = digits.len() as u64;
    let ghost len = text.len();
    let ghost start = s@;
    while k < width
        invariant
            k >= len,
            k <= width || k == len,
            s@ == start + Seq::new((k - len) as nat, |_i: int| '0'),
        decreases width - k,
    {
        proof {
            reveal_strlit("0");
        }
        s.append("0");
        assert(Seq::new((k + 1 - len) as nat, |_i: int| '0') =~= Seq::new(
            (k - len) as nat,
            |_i: int| '0',
        ).push('0'));
        assert(s@ =~= start + Seq::new((k + 1 - len) as nat, |_i: int| '0'));
        k = k + 1;
    }
    let ghost padded = s@;
    let mut i: usize = 0;
    while i < digits.len()
        invariant
            0 <= i <= digits.len(),
            digits@.map_values(|d: u8| digit_char(d as int)) == text,
            forall|j: int| 0 <= j < digits.len() ==> digits[j] < 10,
            s@ == padded + text.subrange(0, i as int),
        decreases digits.len() - i,
    {
        append_digit(s, digits[i]);
        assert(text.subrange(0, i + 1) =~= text.subrange(0, i as int).push(text[i as int]));
        assert(s@ =~= padded + text.subrange(0, i + 1));
        i = i + 1;
    }
    assert(text.subrange(0, digits.len() as int) =~= text);
    assert(s@ =~= old(s)@ + zero_padded(n as nat, width as nat));
}

/// Appends a separator colon.
fn append_colon(s: &mut String)
    ensures
        final(s)@ == old(s)@.push(':'),
{
    proof {
        reveal_strlit(":");
    }
    s.append(":");
    assert(s@ =~= old(s)@.push(':'));
}

impl Timecode {
    /// The text of the timecode, `HH:MM:SS:FF`.
    pub fn text(&self) -> (r: String)
        ensures
            r@ == timecode_text(*self),
    {
        let mut s = String::new();
        append_zero_padded(&mut s, self.hours, 2);
        append_colon(&mut s);
        append_zero_padded(&mut s, self.minutes, 2);
        append_colon(&mut s);
        append_zero_padded(&mut s, self.seconds, 2);
        append_colon(&mut s);
        append_zero_padded(&mut s, self.frames as u128, self.frame_width);
        assert(s@ =~= timecode_text(*self));
        s
    }
}

/// The parts of the timecode of frame `frame`.
pub fn timecode_parts(frame: u64, rate: FrameRate) -> (r: Timecode)
    requires
        rate.valid(),
    ensures
        r == spec_timecode(frame as int, rate),
{
    proof {
        vstd::arithmetic::mul::lemma_mul_upper_bound(
            frame as int,
            u64::MAX as int,
            rate.den as int,
            u32::MAX as int,
        );
        vstd::arithmetic::div_mod::lemma_div_is_ordered_by_denominator(
            frame * rate.den,
            1,
            rate.num as int,
        );
    }
    let secs: u128 = (frame as u128 * rate.den as u128) / rate.num as u128;
    let rounded = rate.rounded();
    let per_second: u64 = if rounded == 0 {
        1
    } else {
        rounded
    };
    let width = decimal_digits(rounded as u128).len() as u64;
    Timecode {
        hours: secs / 3600,
        minutes: (secs / 60) % 60,
        seconds: secs % 60,
        frames: frame % per_second,
        frame_width: width,
    }
}

/// The timecode of frame `frame`, `HH:MM:SS:FF`: whole hours, minutes and
/// seconds of its start time, then the frame within its second, written
/// with as many digits as the rounded frame rate has.
pub fn timecode(frame: u64, rate: FrameRate) -> (r: String)
    requires
        rate.valid(),
    ensures
        r@ == timecode_text(spec_timecode(frame as int, rate)),
{
    timecode_parts(frame, rate).text()
}

} // verus!

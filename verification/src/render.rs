//! The plain-text form of a trial set: one value on each line, and an empty
//! line between one trial and the next.

use vstd::prelude::*;

verus! {

/// The line feed that ends every value.
pub const LINE_FEED: u8 = 10;

/// The minus sign in front of a negative value.
pub const MINUS: u8 = 45;

/// The character of the digit zero; the other digits follow it.
pub const ZERO: u8 = 48;

/// The decimal digits of `n`, the most significant first.
pub open spec fn digits(n: nat) -> Seq<u8>
    decreases n,
{
    if n < 10 {
        seq![(ZERO + n) as u8]
    } else {
        digits(n / 10).push((ZERO + n % 10) as u8)
    }
}

/// `value` in decimal, with a minus sign where it is negative.
pub open spec fn decimal(value: int) -> Seq<u8> {
    if value < 0 {
        seq![MINUS] + digits((-value) as nat)
    } else {
        digits(value as nat)
    }
}

/// The values of one trial, each in decimal and followed by a line feed.
pub open spec fn series_text(values: Seq<i64>) -> Seq<u8>
    decreases values.len(),
{
    if values.len() == 0 {
        Seq::empty()
    } else {
        series_text(values.drop_last()) + decimal(values.last() as int) + seq![LINE_FEED]
    }
}

/// The rows of a set as sequences of values.
pub open spec fn rows_of(set: Seq<Vec<i64>>) -> Seq<Seq<i64>> {
    Seq::new(set.len(), |k: int| set[k]@)
}

/// The text of a whole set: the text of each trial, with one more line feed
/// between two trials.
pub open spec fn set_text(rows: Seq<Seq<i64>>) -> Seq<u8>
    decreases rows.len(),
{
    if rows.len() == 0 {
        Seq::empty()
    } else if rows.len() == 1 {
        series_text(rows[0])
    } else {
        set_text(rows.drop_last()) + seq![LINE_FEED] + series_text(rows.last())
    }
}

/// Appends the decimal digits of `n` to `out`.
fn push_digits(out: &mut Vec<u8>, n: u64)
    ensures
        final(out)@ == old(out)@ + digits(n as nat),
    decreases n,
{
    if n >= 10 {
        push_digits(out, n / 10);
    }
    let low: u8 = (n % 10) as u8;
    out.push(ZERO + low);
    assert(out@ =~= old(out)@ + digits(n as nat));
}

/// Appends `value` in decimal to `out`.
pub fn push_decimal(out: &mut Vec<u8>, value: i64)
    ensures
        final(out)@ == old(out)@ + decimal(value as int),
{
    if value < 0 {
        out.push(MINUS);
        let size: i128 = -(value as i128);
        push_digits(out, size as u64);
        assert(out@ =~= old(out)@ + decimal(value as int));
    } else {
        push_digits(out, value as u64);
    }
}

/// The text of one trial: each value in decimal and followed by a line feed.
pub fn push_series(out: &mut Vec<u8>, values: &Vec<i64>)
    ensures
        final(out)@ == old(out)@ + series_text(values@),
{
    let mut t: usize = 0;
    while t < values.len()
        invariant
            t <= values@.len(),
            out@ == old(out)@ + series_text(values@.take(t as int)),
        decreases values@.len() - t,
    {
        push_decimal(out, values[t]);
        out.push(LINE_FEED);
        t += 1;
        proof {
            let done = values@.take(t as int);
            assert(done.drop_last() =~= values@.take(t - 1));
            assert(out@ =~= old(out)@ + series_text(done));
        }
    }
    assert(values@.take(t as int) =~= values@);
}

/// The text of a set: one value on each line, and an empty line between one
/// trial and the next.
pub fn render_set(set: &Vec<Vec<i64>>) -> (text: Vec<u8>)
    ensures
        text@ == set_text(rows_of(set@)),
{
    let mut text: Vec<u8> = Vec::new();
    let mut k: usize = 0;
    while k < set.len()
        invariant
            k <= set@.len(),
            text@ == set_text(rows_of(set@).take(k as int)),
        decreases set@.len() - k,
    {
        if k > 0 {
            text.push(LINE_FEED);
        }
        push_series(&mut text, &set[k]);
        k += 1;
        proof {
            let done = rows_of(set@).take(k as int);
            assert(done.drop_last() =~= rows_of(set@).take(k - 1));
            assert(done.last() == set@[k - 1]@);
            assert(text@ =~= set_text(done));
        }
    }
    assert(rows_of(set@).take(k as int) =~= rows_of(set@));
    text
}

} // verus!

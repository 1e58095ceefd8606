use vstd::prelude::*;

verus! {

/// The two series of a partial Fourier sum.
#[derive(Clone, Copy, Debug, PartialEq, Eq, Structural)]
pub enum Series {
    /// Cosine terms; index `n` has frequency `n`, starting at the constant term.
    Cosine,
    /// Sine terms; index `m` has frequency `m + 1`, as there is no constant sine term.
    Sine,
}

/// The decimal digit `d` as a character.
pub open spec fn digit_char(d: nat) -> char {
    seq!['0', '1', '2', '3', '4', '5', '6', '7', '8', '9'][d as int]
}

/// The decimal notation of `n`, without leading zeros.
pub open spec fn decimal(n: nat) -> Seq<char>
    decreases n,
{
    if n < 10 {
        seq![digit_char(n)]
    } else {
        decimal(n / 10).push(digit_char(n % 10))
    }
}

/// The frequency that the coefficient at `index` of `series` multiplies.
pub open spec fn frequency_of(series: Series, index: nat) -> nat {
    match series {
        Series::Cosine => index,
        Series::Sine => index + 1,
    }
}

/// The frequency that the coefficient at `index` of `series` multiplies:
/// the partial sum holds `a[n] * cos(n x)` and `b[m] * sin((m + 1) x)`.
pub fn frequency(series: Series, index: usize) -> (r: u128)
    ensures
        r == frequency_of(series, index as nat),
{
    match series {
        Series::Cosine => index as u128,
        Series::Sine => index as u128 + 1,
    }
}

/// The label shown beside a coefficient: `A` and the frequency for cosine
/// terms, `B` and the frequency for sine terms.
pub open spec fn label_of(series: Series, index: nat) -> Seq<char> {
    match series {
        Series::Cosine => seq!['A'] + decimal(frequency_of(series, index)),
        Series::Sine => seq!['B'] + decimal(frequency_of(series, index)),
    }
}

fn digit_str(d: u8) -> (r: &'static str)
    requires
        d < 10,
    ensures
        r@ == seq![digit_char(d as nat)],
{
    proof {
        reveal_strlit("0");
        reveal_strlit("1");
        reveal_strlit("2");
        reveal_strlit("3");
        reveal_strlit("4");
        reveal_strlit("5");
        reveal_strlit("6");
        reveal_strlit("7");
        reveal_strlit("8");
        reveal_strlit("9");
    }
    let r = match d {
        0 => "0",
        1 => "1",
        2 => "2",
        3 => "3",
        4 => "4",
        5 => "5",
        6 => "6",
        7 => "7",
        8 => "8",
        _ => "9",
    };
    assert(r@ =~= seq![digit_char(d as nat)]);
    r
}

fn push_decimal(out: &mut String, n: u128)
    ensures
        final(out)@ == old(out)@ + decimal(n as nat),
    decreases n,
{
    if n >= 10 {
        push_decimal(out, n / 10);
    }
    out.append(digit_str((n % 10) as u8));
    assert(out@ =~= old(out)@ + decimal(n as nat));
}

/// The label of the coefficient at `index` of `series` (`A0`, `A1`, ... and
/// `B1`, `B2`, ...).
pub fn label(series: Series, index: usize) -> (r: String)
    ensures
        r@ == label_of(series, index as nat),
{
    proof {
        reveal_strlit("A");
        reveal_strlit("B");
    }
    let mut out = match series {
        Series::Cosine => String::from_str("A"),
        Series::Sine => String::from_str("B"),
    };
    push_decimal(&mut out, frequency(series, index));
    assert(out@ =~= label_of(series, index as nat));
    out
}

} // verus!

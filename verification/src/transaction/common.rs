//! Fixed-point rendering of raw token quantities.

use vstd::prelude::*;
use vstd::string::StringExecFns;

verus! {

/// Address of the wrapped native asset, the quote side of every trade.
pub const WSOL_MINT: &'static str = "So11111111111111111111111111111111111111112";

/// Number of fractional digits of a base-token amount.
pub const TOKEN_DECIMALS: u32 = 6;

/// Number of fractional digits of a native-asset amount.
pub const SOL_DECIMALS: u32 = 9;

/// The decimal digit character for `d`, for `d < 10`.
pub open spec fn digit_char(d: nat) -> char {
    if d == 0 {
        '0'
    } else if d == 1 {
        '1'
    } else if d == 2 {
        '2'
    } else if d == 3 {
        '3'
    } else if d == 4 {
        '4'
    } else if d == 5 {
        '5'
    } else if d == 6 {
        '6'
    } else if d == 7 {
        '7'
    } else if d == 8 {
        '8'
    } else {
        '9'
    }
}

/// `n` in decimal, most significant digit first, without leading zeros
/// (`0` is the single digit `0`).
pub open spec fn decimal(n: nat) -> Seq<char>
    decreases n,
{
    if n < 10 {
        seq![digit_char(n)]
    } else {
        decimal(n / 10).push(digit_char(n % 10))
    }
}

/// The lowest `width` decimal digits of `n`, most significant first, with
/// leading zeros kept.
pub open spec fn zero_padded(n: nat, width: nat) -> Seq<char>
    decreases width,
{
    if width == 0 {
        Seq::empty()
    } else {
        zero_padded(n / 10, (width - 1) as nat).push(digit_char(n % 10))
    }
}

/// Ten to the power `e`.
pub open spec fn pow10(e: nat) -> nat
    decreases e,
{
    if e == 0 {
        1
    } else {
        10 * pow10((e - 1) as nat)
    }
}

/// `amount / 10^places` written with exactly `places` fractional digits: the
/// whole part in decimal, a point, then the remainder padded with zeros.
pub open spec fn fixed_point(amount: nat, places: nat) -> Seq<char> {
    decimal(amount / pow10(places)) + seq!['.'] + zero_padded(amount % pow10(places), places)
}

/// The text of a base-token quantity: `amount / 1_000_000` with six
/// fractional digits.
pub open spec fn token_amount_text(amount: u64) -> Seq<char> {
    fixed_point(amount as nat, TOKEN_DECIMALS as nat)
}

/// The text of a native-asset quantity: `lamports / 1_000_000_000` with nine
/// fractional digits.
pub open spec fn sol_amount_text(lamports: u64) -> Seq<char> {
    fixed_point(lamports as nat, SOL_DECIMALS as nat)
}

/// Every power of ten is positive.
pub proof fn lemma_pow10_positive(e: nat)
    ensures
        pow10(e) > 0,
    decreases e,
{
    if e > 0 {
        lemma_pow10_positive((e - 1) as nat);
    }
}

/// Whether `c` is a decimal digit.
pub open spec fn is_digit(c: char) -> bool {
    exists|d: nat| d < 10 && c == digit_char(d)
}

/// The number that the decimal digit `c` stands for.
pub open spec fn digit_value(c: char) -> nat {
    choose|d: nat| d < 10 && c == digit_char(d)
}

/// The number that the decimal digits `digits` spell, most significant first.
pub open spec fn digits_value(digits: Seq<char>) -> nat
    decreases digits.len(),
{
    if digits.len() == 0 {
        0
    } else {
        10 * digits_value(digits.drop_last()) + digit_value(digits.last())
    }
}

/// Whether `text` is a run of at least one digit, a point, and exactly
/// `places` digits.
pub open spec fn is_fixed_point(text: Seq<char>, places: nat) -> bool {
    &&& text.len() >= places + 2
    &&& text[text.len() - places - 1] == '.'
    &&& forall|i: int| 0 <= i < text.len() && i != text.len() - places - 1 ==> is_digit(#[trigger] text[i])
}

/// The part of a fixed-point text before the point.
pub open spec fn whole_part(text: Seq<char>, places: nat) -> Seq<char> {
    text.subrange(0, text.len() - places - 1)
}

/// The part of a fixed-point text after the point.
pub open spec fn fraction_part(text: Seq<char>, places: nat) -> Seq<char> {
    text.subrange(text.len() - places, text.len() as int)
}

/// The ten digit characters are distinct, so each stands for one number.
pub proof fn lemma_digit_value(d: nat)
    requires
        d < 10,
    ensures
        is_digit(digit_char(d)),
        digit_value(digit_char(d)) == d,
        digit_char(d) != '.',
{
    let other = digit_value(digit_char(d));
    assert(other < 10 && digit_char(d) == digit_char(other));
}

/// `decimal(n)` is made of digits, has no leading zero unless it is the
/// single digit `0`, and spells `n`.
pub proof fn lemma_decimal(n: nat)
    ensures
        decimal(n).len() >= 1,
        forall|i: int| 0 <= i < decimal(n).len() ==> is_digit(#[trigger] decimal(n)[i]),
        decimal(n)[0] == '0' ==> n == 0,
        digits_value(decimal(n)) == n,
    decreases n,
{
    if n < 10 {
        lemma_digit_value(n);
        assert(decimal(n).drop_last() =~= Seq::<char>::empty());
        assert(digits_value(Seq::<char>::empty()) == 0);
        assert(decimal(n).last() == digit_char(n));
    } else {
        lemma_decimal(n / 10);
        lemma_digit_value(n % 10);
        assert(decimal(n).drop_last() =~= decimal(n / 10));
        assert(decimal(n).last() == digit_char(n % 10));
    }
}

/// `zero_padded(n, width)` is made of exactly `width` digits and spells the
/// remainder of `n` by `10^width`.
pub proof fn lemma_zero_padded(n: nat, width: nat)
    ensures
        zero_padded(n, width).len() == width,
        forall|i: int| 0 <= i < width ==> is_digit(#[trigger] zero_padded(n, width)[i]),
        digits_value(zero_padded(n, width)) == n % pow10(width),
    decreases width,
{
    if width > 0 {
        let rest = (width - 1) as nat;
        lemma_zero_padded(n / 10, rest);
        lemma_digit_value(n % 10);
        lemma_pow10_positive(rest);
        assert(zero_padded(n, width).drop_last() =~= zero_padded(n / 10, rest));
        assert(zero_padded(n, width).last() == digit_char(n % 10));
        assert(n % (10 * pow10(rest)) == 10 * ((n / 10) % pow10(rest)) + n % 10) by {
            lemma_remainder_by_digit(n, pow10(rest));
        }
    }
}

/// The remainder by `10 * m` is the last digit, after ten times the
/// remainder that the other digits leave by `m`.
pub proof fn lemma_remainder_by_digit(n: nat, m: nat)
    requires
        m > 0,
    ensures
        n % (10 * m) == 10 * ((n / 10) % m) + n % 10,
{
    let q = n / 10;
    let r = n % 10;
    assert(n == 10 * q + r);
    let qq = q / m;
    let qr = q % m;
    assert(q == m * qq + qr) by {
        vstd::arithmetic::div_mod::lemma_fundamental_div_mod(q as int, m as int);
    }
    assert(n == (10 * m) * qq + (10 * qr + r)) by (nonlinear_arith)
        requires
            n == 10 * q + r,
            q == m * qq + qr,
    ;
    assert(0 <= 10 * qr + r < 10 * m) by (nonlinear_arith)
        requires
            0 <= qr < m,
            0 <= r < 10,
    ;
    vstd::arithmetic::div_mod::lemma_fundamental_div_mod_converse(
        n as int,
        (10 * m) as int,
        qq as int,
        (10 * qr + r) as int,
    );
}

/// A fixed-point text has the whole part, a point and exactly `places`
/// digits, nothing trimmed and nothing rounded: read back, the two parts
/// give the amount again.
pub proof fn lemma_fixed_point(amount: nat, places: nat)
    ensures
        is_fixed_point(fixed_point(amount, places), places),
        whole_part(fixed_point(amount, places), places) == decimal(amount / pow10(places)),
        fraction_part(fixed_point(amount, places), places) == zero_padded(
            amount % pow10(places),
            places,
        ),
        digits_value(whole_part(fixed_point(amount, places), places)) * pow10(places)
            + digits_value(fraction_part(fixed_point(amount, places), places)) == amount,
{
    let unit = pow10(places);
    lemma_pow10_positive(places);
    let whole = decimal(amount / unit);
    let fraction = zero_padded(amount % unit, places);
    let text = fixed_point(amount, places);
    lemma_decimal(amount / unit);
    lemma_zero_padded(amount % unit, places);
    assert(text.len() == whole.len() + 1 + places);
    assert(text[whole.len() as int] == '.');
    assert forall|i: int| 0 <= i < text.len() && i != text.len() - places - 1 implies is_digit(
        #[trigger] text[i],
    ) by {
        if i < whole.len() {
            assert(text[i] == whole[i]);
        } else {
            assert(text[i] == fraction[i - whole.len() - 1]);
        }
    }
    assert(whole_part(text, places) =~= whole);
    assert(fraction_part(text, places) =~= fraction);
    assert((amount % unit) % unit == amount % unit) by {
        vstd::arithmetic::div_mod::lemma_mod_twice(amount as int, unit as int);
    }
    assert((amount / unit) * unit + amount % unit == amount) by {
        vstd::arithmetic::div_mod::lemma_fundamental_div_mod(amount as int, unit as int);
        assert(unit * (amount / unit) == (amount / unit) * unit) by (nonlinear_arith);
    }
}

fn digit_str(d: u64) -> (s: &'static str)
    requires
        d < 10,
    ensures
        s@ == seq![digit_char(d as nat)],
{
    proof {
        reveal_strlit("0");
        reveal_strlit("1");
        reveal_strlit("2");
        reveal_strlit("3");
        reveal_strlit("4");
        reveal_strlit("5");
        reveal_strlit("6");
        reveal_strlit("7");
        reveal_strlit("8");
        reveal_strlit("9");
    }
    let s = if d == 0 {
        "0"
    } else if d == 1 {
        "1"
    } else if d == 2 {
        "2"
    } else if d == 3 {
        "3"
    } else if d == 4 {
        "4"
    } else if d == 5 {
        "5"
    } else if d == 6 {
        "6"
    } else if d == 7 {
        "7"
    } else if d == 8 {
        "8"
    } else {
        "9"
    };
    assert(s@ =~= seq![digit_char(d as nat)]);
    s
}

fn append_decimal(out: &mut String, n: u64)
    ensures
        final(out)@ == old(out)@ + decimal(n as nat),
    decreases n,
{
    if n >= 10 {
        append_decimal(out, n / 10);
    }
    out.append(digit_str(n % 10));
}

fn append_zero_padded(out: &mut String, n: u64, width: u32)
    ensures
        final(out)@ == old(out)@ + zero_padded(n as nat, width as nat),
    decreases width,
{
    if width > 0 {
        append_zero_padded(out, n / 10, width - 1);
        out.append(digit_str(n % 10));
    }
}

fn format_fixed(amount: u64, unit: u64, places: u32) -> (s: String)
    requires
        unit == pow10(places as nat),
    ensures
        s@ == fixed_point(amount as nat, places as nat),
{
    proof {
        lemma_pow10_positive(places as nat);
    }
    let mut s = String::new();
    append_decimal(&mut s, amount / unit);
    proof {
        reveal_strlit(".");
    }
    s.append(".");
    append_zero_padded(&mut s, amount % unit, places);
    s
}

/// Renders a raw base-token quantity as `amount / 1_000_000` with six
/// fractional digits.
pub fn format_token_amount(amount: u64) -> (s: String)
    ensures
        s@ == token_amount_text(amount),
{
    proof {
        reveal_with_fuel(pow10, 7);
    }
    format_fixed(amount, 1_000_000, TOKEN_DECIMALS)
}

/// Renders a raw native-asset quantity as `lamports / 1_000_000_000` with nine
/// fractional digits.
pub fn format_sol_amount(lamports: u64) -> (s: String)
    ensures
        s@ == sol_amount_text(lamports),
{
    proof {
        reveal_with_fuel(pow10, 10);
    }
    format_fixed(lamports, 1_000_000_000, SOL_DECIMALS)
}

} // verus!

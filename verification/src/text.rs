//! Building player-facing strings: decimal numbers and string comparison.

use vstd::prelude::*;

verus! {

/// The ASCII character of a decimal digit.
pub open spec fn digit_char(d: nat) -> char {
    (48 + d) as char
}

/// The decimal spelling of a natural number, most significant digit first,
/// with no leading zeros.
pub open spec fn dec(n: nat) -> Seq<char>
    decreases n,
{
    if n < 10 {
        seq![digit_char(n)]
    } else {
        dec(n / 10).push(digit_char(n % 10))
    }
}

/// The decimal spelling of an integer, with a leading `-` when negative.
pub open spec fn idec(i: int) -> Seq<char> {
    if i < 0 {
        seq!['-'] + dec((-i) as nat)
    } else {
        dec(i as nat)
    }
}

/// The characters of an optional string.
pub open spec fn text_of(o: Option<String>) -> Option<Seq<char>> {
    match o {
        Some(s) => Some(s@),
        None => None,
    }
}

/// Append one decimal digit.
fn push_digit(s: &mut String, d: u64)
    requires
        d < 10,
    ensures
        final(s)@ == old(s)@.push(digit_char(d as nat)),
{
    proof {
        reveal_strlit("0");
        reveal_strlit("1");
        reveal_strlit("2");
        reveal_strlit("3");
        reveal_strlit("4");
        reveal_strlit("5");
        reveal_strlit("6");
        reveal_strlit("7");
        reveal_strlit("8");
        reveal_strlit("9");
    }
    let ghost before = s@;
    if d == 0 {
        s.append("0");
    } else if d == 1 {
        s.append("1");
    } else if d == 2 {
        s.append("2");
    } else if d == 3 {
        s.append("3");
    } else if d == 4 {
        s.append("4");
    } else if d == 5 {
        s.append("5");
    } else if d == 6 {
        s.append("6");
    } else if d == 7 {
        s.append("7");
    } else if d == 8 {
        s.append("8");
    } else {
        s.append("9");
    }
    assert(s@ =~= before.push(digit_char(d as nat)));
}

/// Append the decimal spelling of `n`.
pub fn push_dec(s: &mut String, n: u64)
    ensures
        final(s)@ == old(s)@ + dec(n as nat),
    decreases n,
{
    let ghost before = s@;
    if n >= 10 {
        push_dec(s, n / 10);
    }
    push_digit(s, n % 10);
    if n >= 10 {
        assert(dec(n as nat) == dec((n / 10) as nat).push(digit_char((n % 10) as nat)));
        assert(s@ =~= before + dec(n as nat));
    } else {
        assert(s@ =~= before + dec(n as nat));
    }
}

/// Append the decimal spelling of a wide natural number.
pub fn push_dec_wide(s: &mut String, n: u128)
    ensures
        final(s)@ == old(s)@ + dec(n as nat),
    decreases n,
{
    let ghost before = s@;
    if n >= 10 {
        push_dec_wide(s, n / 10);
    }
    push_digit(s, (n % 10) as u64);
    if n >= 10 {
        assert(dec(n as nat) == dec((n / 10) as nat).push(digit_char((n % 10) as nat)));
        assert(s@ =~= before + dec(n as nat));
    } else {
        assert(s@ =~= before + dec(n as nat));
    }
}

/// Append the decimal spelling of a signed integer.
pub fn push_idec(s: &mut String, i: i64)
    ensures
        final(s)@ == old(s)@ + idec(i as int),
{
    let ghost before = s@;
    if i < 0 {
        proof {
            reveal_strlit("-");
        }
        s.append("-");
        let magnitude: u64 = if i == i64::MIN {
            9223372036854775808u64
        } else {
            (-i) as u64
        };
        push_dec(s, magnitude);
        assert(s@ =~= before + idec(i as int));
    } else {
        push_dec(s, i as u64);
    }
}

/// The decimal spelling of `n` as a new string.
pub fn dec_string(n: u64) -> (res: String)
    ensures
        res@ == dec(n as nat),
{
    let mut s = String::new();
    push_dec(&mut s, n);
    assert(s@ =~= dec(n as nat));
    s
}

/// Whether two strings hold the same characters.
pub fn str_eq(a: &str, b: &str) -> (res: bool)
    ensures
        res == (a@ == b@),
{
    let n = a.unicode_len();
    if n != b.unicode_len() {
        return false;
    }
    let mut i: usize = 0;
    while i < n
        invariant
            n == a@.len(),
            n == b@.len(),
            i <= n,
            forall|j: int| 0 <= j < i ==> a@[j] == b@[j],
        decreases n - i,
    {
        if a.get_char(i) != b.get_char(i) {
            return false;
        }
        i += 1;
    }
    assert(a@ =~= b@);
    true
}

/// A fractional amount held in thousandths, rounded to the nearest whole
/// number with ties going to the even neighbour (how the HUD prints amounts
/// with no decimals).
pub open spec fn round_milli(m: int) -> int {
    let q = m / 1000;
    let r = m % 1000;
    if r > 500 {
        q + 1
    } else if r < 500 {
        q
    } else if q % 2 == 0 {
        q
    } else {
        q + 1
    }
}

/// The whole-number spelling of a non-negative amount held in thousandths.
pub open spec fn milli_text(m: int) -> Seq<char> {
    dec(round_milli(m) as nat)
}

/// Round a non-negative amount held in thousandths to a whole number.
pub fn round_milli_exec(m: i64) -> (r: u64)
    requires
        m >= 0,
    ensures
        r == round_milli(m as int),
{
    let q = m / 1000;
    let r = m % 1000;
    if r > 500 {
        (q + 1) as u64
    } else if r < 500 {
        q as u64
    } else if q % 2 == 0 {
        q as u64
    } else {
        (q + 1) as u64
    }
}

/// `n / d` rounded to the nearest whole number, ties to the even neighbour.
pub open spec fn round_even_div(n: nat, d: nat) -> nat {
    let q = n / d;
    let r = n % d;
    if 2 * r > d {
        q + 1
    } else if 2 * r < d {
        q
    } else if q % 2 == 0 {
        q
    } else {
        q + 1
    }
}

/// `n / d` rounded to the nearest whole number, ties away from zero.
pub open spec fn round_away_div(n: nat, d: nat) -> nat {
    if 2 * (n % d) >= d { n / d + 1 } else { n / d }
}

/// The signed ratio `n / d` printed with no decimals (ties to even), a minus
/// sign kept for any negative value.
pub open spec fn whole_even_text(n: int, d: nat) -> Seq<char> {
    if n < 0 { seq!['-'] + dec(round_even_div((-n) as nat, d)) } else { dec(round_even_div(n as nat, d)) }
}

/// The signed ratio `n / d` rounded half away from zero, a minus sign kept
/// for any negative value.
pub open spec fn whole_away_text(n: int, d: nat) -> Seq<char> {
    if n < 0 { seq!['-'] + dec(round_away_div((-n) as nat, d)) } else { dec(round_away_div(n as nat, d)) }
}

fn round_even_exec(n: u128, d: u128) -> (r: u128)
    requires
        0 < d <= 0x7fff_ffff_ffff_ffff_ffff_ffff,
        n <= 0x7fff_ffff_ffff_ffff_ffff_ffff,
    ensures
        r <= n + 1,
        r == round_even_div(n as nat, d as nat),
{
    let q = n / d;
    let r = n % d;
    assert(q * d + r == n && r < d) by (nonlinear_arith)
        requires q == n / d, r == n % d, d > 0;
    assert(q <= n) by (nonlinear_arith)
        requires q == n / d, d > 0;
    if 2 * r > d {
        q + 1
    } else if 2 * r < d {
        q
    } else if q % 2 == 0 {
        q
    } else {
        q + 1
    }
}

fn round_away_exec(n: u128, d: u128) -> (r: u128)
    requires
        0 < d <= 0x7fff_ffff_ffff_ffff_ffff_ffff,
        n <= 0x7fff_ffff_ffff_ffff_ffff_ffff,
    ensures
        r <= n + 1,
        r == round_away_div(n as nat, d as nat),
{
    let q = n / d;
    let r = n % d;
    assert(q <= n) by (nonlinear_arith)
        requires q == n / d, d > 0;
    assert(r < d) by (nonlinear_arith)
        requires r == n % d, d > 0;
    if 2 * r >= d { q + 1 } else { q }
}

/// Append a signed ratio printed with no decimals, ties to even.
pub fn push_whole_even(s: &mut String, n: i128, d: i128)
    requires
        0 < d <= 0x7fff_ffff_ffff_ffff,
        -0x7fff_ffff_ffff_ffff_ffff_ffff <= n <= 0x7fff_ffff_ffff_ffff_ffff_ffff,
    ensures
        final(s)@ == old(s)@ + whole_even_text(n as int, d as nat),
{
    let ghost before = s@;
    if n < 0 {
        proof {
            reveal_strlit("-");
        }
        s.append("-");
        let r = round_even_exec((-n) as u128, d as u128);
        push_dec_wide(s, r);
        assert(s@ =~= before + whole_even_text(n as int, d as nat));
    } else {
        let r = round_even_exec(n as u128, d as u128);
        push_dec_wide(s, r);
    }
}

/// Append a signed ratio rounded half away from zero.
pub fn push_whole_away(s: &mut String, n: i128, d: i128)
    requires
        0 < d <= 0x7fff_ffff_ffff_ffff,
        -0x7fff_ffff_ffff_ffff_ffff_ffff <= n <= 0x7fff_ffff_ffff_ffff_ffff_ffff,
    ensures
        final(s)@ == old(s)@ + whole_away_text(n as int, d as nat),
{
    let ghost before = s@;
    if n < 0 {
        proof {
            reveal_strlit("-");
        }
        s.append("-");
        let r = round_away_exec((-n) as u128, d as u128);
        push_dec_wide(s, r);
        assert(s@ =~= before + whole_away_text(n as int, d as nat));
    } else {
        let r = round_away_exec(n as u128, d as u128);
        push_dec_wide(s, r);
    }
}

/// Round a duration held in thousandths to a whole number.
pub fn round_milli_u64(m: u64) -> (r: u64)
    ensures
        r == round_milli(m as int),
{
    let q = m / 1000;
    let r = m % 1000;
    if r > 500 {
        q + 1
    } else if r < 500 {
        q
    } else if q % 2 == 0 {
        q
    } else {
        q + 1
    }
}

/// A number of at most two digits printed with a leading zero below ten.
pub open spec fn pad2(n: nat) -> Seq<char> {
    if n < 10 { seq!['0'] + dec(n) } else { dec(n) }
}

/// A duration in whole seconds as countdowns print it: minutes and seconds,
/// each at least two digits, `mm:ss`.
pub open spec fn mmss_text(secs: nat) -> Seq<char> {
    pad2(secs / 60) + seq![':'] + pad2(secs % 60)
}

fn push_pad2(s: &mut String, n: u128)
    ensures
        final(s)@ == old(s)@ + pad2(n as nat),
{
    let ghost before = s@;
    if n < 10 {
        proof {
            reveal_strlit("0");
        }
        s.append("0");
        push_dec_wide(s, n);
        assert(s@ =~= before + pad2(n as nat));
    } else {
        push_dec_wide(s, n);
    }
}

/// Append a duration in whole seconds as `mm:ss`.
pub fn push_mmss(s: &mut String, secs: u128)
    ensures
        final(s)@ == old(s)@ + mmss_text(secs as nat),
{
    let ghost before = s@;
    push_pad2(s, secs / 60);
    proof {
        reveal_strlit(":");
    }
    s.append(":");
    push_pad2(s, secs % 60);
    assert(s@ =~= before + mmss_text(secs as nat));
}

/// A duration in whole seconds spelt as `mm:ss`.
pub fn mmss_string(secs: u64) -> (r: String)
    ensures
        r@ == mmss_text(secs as nat),
{
    let mut s = String::new();
    push_mmss(&mut s, secs as u128);
    assert(s@ =~= mmss_text(secs as nat));
    s
}

} // verus!

use vstd::prelude::*;
use vstd::arithmetic::div_mod::{lemma_fundamental_div_mod, lemma_fundamental_div_mod_converse};

verus! {

/// An ASCII decimal digit.
pub open spec fn is_digit(c: char) -> bool {
    '0' <= c && c <= '9'
}

/// The numeric value of a digit character.
pub open spec fn digit_val(c: char) -> int {
    c as int - '0' as int
}

/// The digit character for a value below ten.
pub open spec fn digit_char(d: int) -> char {
    if d == 0 {
        '0'
    } else if d == 1 {
        '1'
    } else if d == 2 {
        '2'
    } else if d == 3 {
        '3'
    } else if d == 4 {
        '4'
    } else if d == 5 {
        '5'
    } else if d == 6 {
        '6'
    } else if d == 7 {
        '7'
    } else if d == 8 {
        '8'
    } else {
        '9'
    }
}

/// Ten to the given power.
pub open spec fn pow10(w: nat) -> nat
    decreases w,
{
    if w == 0 {
        1
    } else {
        10 * pow10((w - 1) as nat)
    }
}

/// The number written as exactly `w` decimal digits, zero-padded on the
/// left; when the number does not fit, its low-order digits.
pub open spec fn dec_digits(n: nat, w: nat) -> Seq<char>
    decreases w,
{
    if w == 0 {
        Seq::empty()
    } else {
        dec_digits(n / 10, (w - 1) as nat).push(digit_char((n % 10) as int))
    }
}

/// The number a digit string denotes.
pub open spec fn dec_val(s: Seq<char>) -> int
    decreases s.len(),
{
    if s.len() == 0 {
        0
    } else {
        dec_val(s.drop_last()) * 10 + digit_val(s.last())
    }
}

/// A string made only of decimal digits.
pub open spec fn all_digits(s: Seq<char>) -> bool {
    forall|i: int| 0 <= i < s.len() ==> is_digit(#[trigger] s[i])
}

pub proof fn lemma_digit_char_is_digit(d: int)
    requires
        0 <= d < 10,
    ensures
        is_digit(digit_char(d)),
        digit_val(digit_char(d)) == d,
{
}

pub proof fn lemma_digit_char_of_val(c: char)
    requires
        is_digit(c),
    ensures
        digit_char(digit_val(c)) == c,
{
    let v = c as int;
    assert(48 <= v <= 57);
    if v == 48 {
        assert(c == '0');
    } else if v == 49 {
        assert(c == '1');
    } else if v == 50 {
        assert(c == '2');
    } else if v == 51 {
        assert(c == '3');
    } else if v == 52 {
        assert(c == '4');
    } else if v == 53 {
        assert(c == '5');
    } else if v == 54 {
        assert(c == '6');
    } else if v == 55 {
        assert(c == '7');
    } else if v == 56 {
        assert(c == '8');
    } else {
        assert(c == '9');
    }
}

pub proof fn lemma_dec_digits_len(n: nat, w: nat)
    ensures
        dec_digits(n, w).len() == w,
    decreases w,
{
    if w > 0 {
        lemma_dec_digits_len(n / 10, (w - 1) as nat);
    }
}

pub proof fn lemma_dec_digits_all_digits(n: nat, w: nat)
    ensures
        all_digits(dec_digits(n, w)),
    decreases w,
{
    if w > 0 {
        lemma_dec_digits_all_digits(n / 10, (w - 1) as nat);
        lemma_dec_digits_len(n / 10, (w - 1) as nat);
        lemma_digit_char_is_digit((n % 10) as int);
        let s = dec_digits(n, w);
        let prev = dec_digits(n / 10, (w - 1) as nat);
        assert forall|i: int| 0 <= i < s.len() implies is_digit(#[trigger] s[i]) by {
            if i < w - 1 {
                assert(s[i] == prev[i]);
            }
        }
    }
}

pub proof fn lemma_dec_val_of_dec_digits(n: nat, w: nat)
    requires
        n < pow10(w),
    ensures
        dec_val(dec_digits(n, w)) == n,
    decreases w,
{
    if w == 0 {
        assert(n == 0);
    } else {
        assert(pow10(w) == 10 * pow10((w - 1) as nat));
        assert(n / 10 < pow10((w - 1) as nat)) by (nonlinear_arith)
            requires
                n < 10 * pow10((w - 1) as nat),
        ;
        lemma_dec_val_of_dec_digits(n / 10, (w - 1) as nat);
        lemma_dec_digits_len(n / 10, (w - 1) as nat);
        let prev = dec_digits(n / 10, (w - 1) as nat);
        let s = dec_digits(n, w);
        assert(s.drop_last() =~= prev);
        lemma_digit_char_is_digit((n % 10) as int);
        lemma_fundamental_div_mod(n as int, 10);
    }
}

pub proof fn lemma_dec_val_bound(s: Seq<char>)
    requires
        all_digits(s),
    ensures
        0 <= dec_val(s) < pow10(s.len()),
    decreases s.len(),
{
    if s.len() > 0 {
        assert(all_digits(s.drop_last())) by {
            assert(forall|i: int| 0 <= i < s.len() - 1 ==> s.drop_last()[i] == s[i]);
        }
        lemma_dec_val_bound(s.drop_last());
        assert(is_digit(s.last()));
        assert(0 <= digit_val(s.last()) < 10);
        assert(pow10(s.len()) == 10 * pow10((s.len() - 1) as nat));
        assert(dec_val(s.drop_last()) * 10 + digit_val(s.last()) < 10 * pow10((s.len() - 1) as nat))
            by (nonlinear_arith)
            requires
                dec_val(s.drop_last()) < pow10((s.len() - 1) as nat),
                digit_val(s.last()) < 10,
        ;
    }
}

pub proof fn lemma_dec_digits_of_dec_val(s: Seq<char>)
    requires
        all_digits(s),
    ensures
        dec_digits(dec_val(s) as nat, s.len()) == s,
    decreases s.len(),
{
    if s.len() == 0 {
        assert(dec_digits(0, 0) =~= s);
    } else {
        let d = s.drop_last();
        assert(all_digits(d)) by {
            assert(forall|i: int| 0 <= i < s.len() - 1 ==> d[i] == s[i]);
        }
        lemma_dec_val_bound(d);
        lemma_dec_val_bound(s);
        let vd = dec_val(d);
        let dl = digit_val(s.last());
        let v = dec_val(s);
        assert(v == vd * 10 + dl);
        assert(0 <= dl < 10);
        lemma_fundamental_div_mod_converse(v, 10, vd, dl);
        assert(v / 10 == vd && v % 10 == dl);
        lemma_dec_digits_of_dec_val(d);
        lemma_digit_char_of_val(s.last());
        assert(dec_digits(v as nat, s.len()) =~= s) by {
            assert(dec_digits(v as nat, s.len()) == dec_digits((v / 10) as nat, (s.len() - 1) as nat).push(
                digit_char((v % 10) as int)));
            assert(dec_digits((v / 10) as nat, (s.len() - 1) as nat) == d);
            assert(d.push(s.last()) =~= s);
        }
    }
}

/// The digit character for a value below ten, as a one-character string.
fn digit_str(d: u8) -> (r: &'static str)
    requires
        d < 10,
    ensures
        r@ =~= seq![digit_char(d as int)],
{
    proof {
        reveal_strlit("0");
        reveal_strlit("1");
        reveal_strlit("2");
        reveal_strlit("3");
        reveal_strlit("4");
        reveal_strlit("5");
        reveal_strlit("6");
        reveal_strlit("7");
        reveal_strlit("8");
        reveal_strlit("9");
    }
    if d == 0 {
        "0"
    } else if d == 1 {
        "1"
    } else if d == 2 {
        "2"
    } else if d == 3 {
        "3"
    } else if d == 4 {
        "4"
    } else if d == 5 {
        "5"
    } else if d == 6 {
        "6"
    } else if d == 7 {
        "7"
    } else if d == 8 {
        "8"
    } else {
        "9"
    }
}

/// Appends the number as exactly `width` zero-padded decimal digits.
pub fn push_dec(s: &mut String, n: u64, width: usize)
    ensures
        final(s)@ == old(s)@ + dec_digits(n as nat, width as nat),
    decreases width,
{
    if width == 0 {
        proof {
            assert(old(s)@ + dec_digits(n as nat, 0) =~= old(s)@);
        }
    } else {
        push_dec(s, n / 10, width - 1);
        let d = digit_str((n % 10) as u8);
        s.append(d);
        proof {
            assert(final(s)@ =~= old(s)@ + dec_digits(n as nat, width as nat));
        }
    }
}

/// Reads exactly twenty digits starting at `from`; `None` when a character
/// is not a digit or the value does not fit an unsigned 64-bit number.
pub fn read_dec20(s: &str, from: usize) -> (r: Option<u64>)
    requires
        from + 20 <= s@.len(),
        from <= usize::MAX - 20,
    ensures
        ({
            let window = s@.subrange(from as int, from as int + 20);
            match r {
                Some(v) => all_digits(window) && dec_val(window) == v,
                None => !(all_digits(window) && dec_val(window) <= u64::MAX),
            }
        }),
{
    let ghost window = s@.subrange(from as int, from as int + 20);
    let mut acc: u128 = 0;
    let mut k: usize = 0;
    while k < 20
        invariant
            from + 20 <= s@.len(),
            from <= usize::MAX - 20,
            0 <= k <= 20,
            window == s@.subrange(from as int, from as int + 20),
            all_digits(window.take(k as int)),
            acc == dec_val(window.take(k as int)),
            acc < pow10(k as nat),
        decreases 20 - k,
    {
        let c = s.get_char(from + k);
        proof {
            assert(window[k as int] == s@[from + k]);
        }
        if !('0' <= c && c <= '9') {
            proof {
                assert(!is_digit(window[k as int]));
                assert(!all_digits(window));
            }
            return None;
        }
        let d: u128 = (c as u32 - '0' as u32) as u128;
        proof {
            let t = window.take(k as int);
            let t1 = window.take(k + 1int);
            assert(t1.drop_last() =~= t);
            assert(t1.last() == window[k as int]);
            assert(d == digit_val(window[k as int]));
            assert(all_digits(t1)) by {
                assert(forall|i: int| 0 <= i < k ==> t1[i] == t[i]);
            }
            lemma_dec_val_bound(t1);
            assert(pow10(20) == 100000000000000000000) by {
                reveal_with_fuel(pow10, 21);
            }
            assert(pow10((k + 1) as nat) <= pow10(20)) by {
                lemma_pow10_monotone((k + 1) as nat, 20);
            }
        }
        acc = acc * 10 + d;
        k = k + 1;
    }
    proof {
        assert(window.take(20) =~= window);
        assert(pow10(20) == 100000000000000000000) by {
            reveal_with_fuel(pow10, 21);
        }
    }
    if acc <= u64::MAX as u128 {
        Some(acc as u64)
    } else {
        None
    }
}

pub proof fn lemma_pow10_monotone(a: nat, b: nat)
    requires
        a <= b,
    ensures
        pow10(a) <= pow10(b),
    decreases b,
{
    if a < b {
        lemma_pow10_monotone(a, (b - 1) as nat);
        assert(pow10(b) == 10 * pow10((b - 1) as nat));
    }
}

} // verus!

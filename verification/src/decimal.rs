use vstd::prelude::*;
use vstd::string::*;

verus! {

/// The character of one decimal digit.
pub open spec fn digit(d: nat) -> char
    recommends
        d < 10,
{
    if d == 0 {
        '0'
    } else if d == 1 {
        '1'
    } else if d == 2 {
        '2'
    } else if d == 3 {
        '3'
    } else if d == 4 {
        '4'
    } else if d == 5 {
        '5'
    } else if d == 6 {
        '6'
    } else if d == 7 {
        '7'
    } else if d == 8 {
        '8'
    } else {
        '9'
    }
}

/// The base-10 rendering of a number: no sign, no padding, `"0"` for zero.
pub open spec fn decimal(n: nat) -> Seq<char>
    decreases n,
{
    if n < 10 {
        seq![digit(n)]
    } else {
        decimal(n / 10).push(digit(n % 10))
    }
}

/// Ten to the power of `k`.
pub open spec fn pow10(k: nat) -> nat
    decreases k,
{
    if k == 0 {
        1
    } else {
        10 * pow10((k - 1) as nat)
    }
}

/// A rendering holds decimal digits only, so each of its characters is one
/// byte of text.
pub proof fn lemma_decimal_is_ascii(n: nat)
    ensures
        vstd::utf8::is_ascii_chars(decimal(n)),
        vstd::utf8::encode_utf8(decimal(n)).len() == decimal(n).len(),
    decreases n,
{
    if n >= 10 {
        lemma_decimal_is_ascii(n / 10);
    }
    vstd::utf8::is_ascii_chars_encode_utf8(decimal(n));
}

/// A number below ten to the `k` is rendered in at most `k` characters, and
/// every number in at least one.
pub proof fn lemma_decimal_len(n: nat, k: nat)
    requires
        k >= 1,
        n < pow10(k),
    ensures
        1 <= decimal(n).len() <= k,
    decreases n,
{
    if n >= 10 {
        assert(k >= 2) by {
            reveal_with_fuel(pow10, 2);
        }
        lemma_decimal_len(n / 10, (k - 1) as nat);
    }
}

/// A 32-bit number is rendered in at most 10 characters.
pub proof fn lemma_decimal_len_u32(n: u32)
    ensures
        1 <= decimal(n as nat).len() <= 10,
{
    assert(pow10(10) == 10_000_000_000) by {
        reveal_with_fuel(pow10, 11);
    }
    lemma_decimal_len(n as nat, 10);
}

/// A 64-bit number is rendered in at most 20 characters.
pub proof fn lemma_decimal_len_u64(n: u64)
    ensures
        1 <= decimal(n as nat).len() <= 20,
{
    assert(pow10(20) == 100_000_000_000_000_000_000) by {
        reveal_with_fuel(pow10, 21);
    }
    lemma_decimal_len(n as nat, 20);
}

/// The one-character text of a decimal digit.
fn digit_text(d: u8) -> (text: &'static str)
    requires
        d < 10,
    ensures
        text@ == seq![digit(d as nat)],
{
    proof {
        reveal_strlit("0");
        reveal_strlit("1");
        reveal_strlit("2");
        reveal_strlit("3");
        reveal_strlit("4");
        reveal_strlit("5");
        reveal_strlit("6");
        reveal_strlit("7");
        reveal_strlit("8");
        reveal_strlit("9");
    }
    let text = match d {
        0 => "0",
        1 => "1",
        2 => "2",
        3 => "3",
        4 => "4",
        5 => "5",
        6 => "6",
        7 => "7",
        8 => "8",
        _ => "9",
    };
    assert(text@ =~= seq![digit(d as nat)]);
    text
}

/// Appends the base-10 rendering of `n` to `out`.
pub fn push_decimal(out: &mut String, n: u64)
    ensures
        final(out)@ == old(out)@ + decimal(n as nat),
    decreases n,
{
    if n >= 10 {
        push_decimal(out, n / 10);
    }
    out.append(digit_text((n % 10) as u8));
    assert(out@ =~= old(out)@ + decimal(n as nat));
}

/// The base-10 rendering of `n`.
pub fn decimal_string(n: u64) -> (text: String)
    ensures
        text@ == decimal(n as nat),
{
    let mut text = String::new();
    push_decimal(&mut text, n);
    assert(text@ =~= decimal(n as nat));
    text
}

} // verus!

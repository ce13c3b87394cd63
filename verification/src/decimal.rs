//! Natural numbers in decimal notation.

use vstd::prelude::*;
use vstd::string::*;

verus! {

/// Whether a character is a decimal digit.
pub open spec fn is_digit(c: char) -> bool {
    48 <= c as u32 <= 57
}

/// The value of a decimal digit.
pub open spec fn digit_value(c: char) -> nat {
    (c as u32 - 48) as nat
}

/// The decimal digit of a value below ten.
pub open spec fn digit_char(d: nat) -> char {
    ((d + 48) as u8) as char
}

/// The decimal notation of a number, without leading zeros.
pub open spec fn digits(n: nat) -> Seq<char>
    decreases n,
{
    if n < 10 {
        seq![digit_char(n)]
    } else {
        digits(n / 10).push(digit_char(n % 10))
    }
}

/// The number that a sequence of decimal digits denotes.
pub open spec fn value_of(s: Seq<char>) -> nat
    decreases s.len(),
{
    if s.len() == 0 {
        0
    } else {
        value_of(s.drop_last()) * 10 + digit_value(s.last())
    }
}

/// Whether every character is a decimal digit.
pub open spec fn all_digits(s: Seq<char>) -> bool {
    forall|i: int| 0 <= i < s.len() ==> is_digit(#[trigger] s[i])
}

/// How many decimal digits a text begins with.
pub open spec fn run_len(text: Seq<char>) -> nat
    decreases text.len(),
{
    if text.len() > 0 && is_digit(text[0]) {
        1 + run_len(text.drop_first())
    } else {
        0
    }
}

/// The notation of a number consists of digits, at least one, and denotes the
/// number.
pub proof fn lemma_digits(n: nat)
    ensures
        digits(n).len() >= 1,
        all_digits(digits(n)),
        value_of(digits(n)) == n,
    decreases n,
{
    if n < 10 {
        assert(digits(n).drop_last() =~= Seq::<char>::empty());
        assert(value_of(digits(n).drop_last()) == 0);
    } else {
        lemma_digits(n / 10);
        assert(digits(n).drop_last() =~= digits(n / 10));
    }
}

/// A text begins with exactly `k` digits where its first `k` characters are
/// digits and the next one, if there is one, is not.
pub proof fn lemma_run_len(text: Seq<char>, k: nat)
    requires
        k <= text.len(),
        forall|i: int| 0 <= i < k ==> is_digit(#[trigger] text[i]),
        k < text.len() ==> !is_digit(text[k as int]),
    ensures
        run_len(text) == k,
    decreases k,
{
    if k > 0 {
        let rest = text.drop_first();
        assert forall|i: int| 0 <= i < k - 1 implies is_digit(#[trigger] rest[i]) by {
            assert(rest[i] == text[i + 1]);
        }
        lemma_run_len(rest, (k - 1) as nat);
    }
}

/// The text of a digit.
pub fn digit_text(d: u64) -> (r: &'static str)
    requires
        d < 10,
    ensures
        r@ == seq![digit_char(d as nat)],
{
    proof {
        reveal_strlit("0");
        reveal_strlit("1");
        reveal_strlit("2");
        reveal_strlit("3");
        reveal_strlit("4");
        reveal_strlit("5");
        reveal_strlit("6");
        reveal_strlit("7");
        reveal_strlit("8");
        reveal_strlit("9");
    }
    let r = if d == 0 {
        "0"
    } else if d == 1 {
        "1"
    } else if d == 2 {
        "2"
    } else if d == 3 {
        "3"
    } else if d == 4 {
        "4"
    } else if d == 5 {
        "5"
    } else if d == 6 {
        "6"
    } else if d == 7 {
        "7"
    } else if d == 8 {
        "8"
    } else {
        "9"
    };
    assert(r@ =~= seq![digit_char(d as nat)]);
    r
}

/// Appends the decimal notation of a number to a text.
pub fn write_number(out: &mut String, n: u64)
    ensures
        final(out)@ == old(out)@ + digits(n as nat),
    decreases n,
{
    if n < 10 {
        out.append(digit_text(n));
        assert(out@ =~= old(out)@ + digits(n as nat));
    } else {
        write_number(out, n / 10);
        out.append(digit_text(n % 10));
        assert(out@ =~= old(out)@ + digits(n as nat));
    }
}

/// The characters of a text.
pub fn chars_of(text: &str) -> (r: Vec<char>)
    ensures
        r@ == text@,
{
    let mut out: Vec<char> = Vec::new();
    for c in it: text.chars()
        invariant
            out@ == it.seq().take(it.index() as int),
            it.seq() == text@,
    {
        out.push(c);
        assert(out@ =~= it.seq().take(it.index() + 1));
    }
    assert(text@.take(text@.len() as int) =~= text@);
    out
}

/// Reads the digits that the characters from `start` begin with. Returns the
/// number that they denote and how many they are; `None` for the number where
/// it does not fit 64 bits.
pub fn read_number(chars: &Vec<char>, start: usize) -> (r: (Option<u64>, usize))
    requires
        start <= chars.len(),
    ensures
        r.1 == run_len(chars@.skip(start as int)),
        start + r.1 <= chars.len(),
        match r.0 {
            Some(n) => n == value_of(chars@.skip(start as int).take(r.1 as int)),
            None => value_of(chars@.skip(start as int).take(r.1 as int)) > u64::MAX,
        },
{
    let ghost text = chars@.skip(start as int);
    let mut acc: Option<u64> = Some(0);
    let mut k: usize = 0;
    assert(text.take(0) =~= Seq::<char>::empty());
    while start + k < chars.len() && is_decimal(chars[start + k])
        invariant
            start + k <= chars.len(),
            text == chars@.skip(start as int),
            forall|i: int| 0 <= i < k ==> is_digit(#[trigger] text[i]),
            match acc {
                Some(n) => n == value_of(text.take(k as int)),
                None => value_of(text.take(k as int)) > u64::MAX,
            },
        decreases chars.len() - start - k,
    {
        let d: u64 = (chars[start + k] as u32 - 48) as u64;
        proof {
            assert(text[k as int] == chars@[start + k]);
            assert(text.take(k + 1).drop_last() =~= text.take(k as int));
            assert(text.take(k + 1).last() == text[k as int]);
        }
        acc = match acc {
            None => None,
            Some(n) => match n.checked_mul(10) {
                None => None,
                Some(m) => m.checked_add(d),
            },
        };
        k = k + 1;
    }
    proof {
        if start + k < chars.len() {
            assert(text[k as int] == chars@[start + k]);
        }
        lemma_run_len(text, k as nat);
    }
    (acc, k)
}

/// Whether a character is a decimal digit.
pub fn is_decimal(c: char) -> (r: bool)
    ensures
        r == is_digit(c),
{
    let v = c as u32;
    48 <= v && v <= 57
}

} // verus!

//! The coercion boundary for the stringly-typed wire format, together with
//! the small text utilities the rest of the layer needs.
//!
//! Subsonic servers transmit numeric identifiers and counts as native numbers
//! or as decimal strings, interchangeably.  Everything here is the uniform
//! machinery for reading and writing such decimal text.
use vstd::prelude::*;
use vstd::string::*;

verus! {

/// Whether `c` is a decimal digit.
pub open spec fn is_digit_char(c: char) -> bool {
    48 <= c as int && c as int <= 57
}

/// The value of a decimal digit (0 for a non-digit).
pub open spec fn digit_of(c: char) -> nat {
    if is_digit_char(c) {
        (c as int - 48) as nat
    } else {
        0
    }
}

/// Whether every character of `s` is a decimal digit.
pub open spec fn all_digits(s: Seq<char>) -> bool {
    forall|i: int| 0 <= i < s.len() ==> is_digit_char(s[i])
}

/// The numeric value of a digit sequence, most significant digit first.
pub open spec fn digits_val(s: Seq<char>) -> nat
    decreases s.len(),
{
    if s.len() == 0 {
        0
    } else {
        digits_val(s.drop_last()) * 10 + digit_of(s.last())
    }
}

/// What parsing a decimal string as a `u64` yields: `None` for an empty
/// string, a non-digit character, or a value beyond `u64::MAX`.
pub open spec fn str_to_u64_spec(s: Seq<char>) -> Option<u64> {
    if s.len() == 0 || !all_digits(s) {
        None
    } else if digits_val(s) > u64::MAX {
        None
    } else {
        Some(digits_val(s) as u64)
    }
}

/// A prefix of a digit string never exceeds the whole string's value.
proof fn lemma_digits_val_prefix_le(s: Seq<char>, i: int)
    requires
        0 <= i <= s.len(),
    ensures
        digits_val(s.take(i)) <= digits_val(s),
    decreases s.len() - i,
{
    if i < s.len() {
        assert(s.take(i + 1).drop_last() =~= s.take(i));
        assert(s.take(i + 1).last() == s[i]);
        assert(digits_val(s.take(i + 1)) == digits_val(s.take(i)) * 10 + digit_of(s[i]));
        lemma_digits_val_prefix_le(s, i + 1);
    } else {
        assert(s.take(i) =~= s);
    }
}

/// Parses a decimal string as a `u64`, rejecting anything that is not a
/// plain non-negative decimal number that fits.
pub fn str_to_u64(s: &str) -> (r: Option<u64>)
    ensures
        r == str_to_u64_spec(s@),
{
    let n = s.unicode_len();
    if n == 0 {
        return None;
    }
    let mut acc: u64 = 0;
    let mut i: usize = 0;
    while i < n
        invariant
            0 < n == s@.len(),
            0 <= i <= n,
            all_digits(s@.take(i as int)),
            acc == digits_val(s@.take(i as int)),
        decreases n - i,
    {
        let c = s.get_char(i);
        let cv = c as u32;
        if cv < 48 || cv > 57 {
            assert(!is_digit_char(s@[i as int]));
            return None;
        }
        let d = (cv - 48) as u64;
        // u64::MAX is 18446744073709551615; reject once the next step is sure
        // to pass it.
        if acc > 1844674407370955161 || (acc == 1844674407370955161 && d > 5) {
            proof {
                assert(s@.take(i + 1).drop_last() =~= s@.take(i as int));
                assert(s@.take(i + 1).last() == s@[i as int]);
                assert(digits_val(s@.take(i + 1)) > u64::MAX);
                if all_digits(s@) {
                    lemma_digits_val_prefix_le(s@, i + 1);
                }
            }
            return None;
        }
        acc = acc * 10 + d;
        i = i + 1;
        proof {
            assert(s@.take(i as int).drop_last() =~= s@.take(i as int - 1));
            assert(s@.take(i as int).last() == s@[i as int - 1]);
        }
    }
    proof {
        assert(s@.take(n as int) =~= s@);
    }
    Some(acc)
}

/// The digit character for a value below ten.
pub open spec fn char_of_digit(d: nat) -> char {
    if d == 0 {
        '0'
    } else if d == 1 {
        '1'
    } else if d == 2 {
        '2'
    } else if d == 3 {
        '3'
    } else if d == 4 {
        '4'
    } else if d == 5 {
        '5'
    } else if d == 6 {
        '6'
    } else if d == 7 {
        '7'
    } else if d == 8 {
        '8'
    } else {
        '9'
    }
}

/// The canonical decimal rendering of `n`, most significant digit first,
/// without leading zeros.
pub open spec fn u64_digits(n: u64) -> Seq<char>
    decreases n,
{
    if n < 10 {
        seq![char_of_digit(n as nat)]
    } else {
        u64_digits((n / 10) as u64) + seq![char_of_digit((n % 10) as nat)]
    }
}

/// The digit characters round-trip through their numeric value.
proof fn lemma_char_of_digit(d: nat)
    requires
        d < 10,
    ensures
        is_digit_char(char_of_digit(d)),
        digit_of(char_of_digit(d)) == d,
{
}

/// Rendering a `u64` always yields digits, and parsing them restores the
/// value: the two directions of the coercion boundary agree on every number.
pub proof fn lemma_u64_digits_parse(n: u64)
    ensures
        u64_digits(n).len() > 0,
        all_digits(u64_digits(n)),
        digits_val(u64_digits(n)) == n,
        str_to_u64_spec(u64_digits(n)) == Some(n),
    decreases n,
{
    if n < 10 {
        lemma_char_of_digit(n as nat);
        assert(u64_digits(n).drop_last() =~= Seq::<char>::empty());
        assert(u64_digits(n).last() == char_of_digit(n as nat));
        assert(digits_val(Seq::<char>::empty()) == 0);
        assert(digits_val(u64_digits(n)) == n);
    } else {
        lemma_u64_digits_parse(n / 10);
        lemma_char_of_digit((n % 10) as nat);
        let prefix = u64_digits((n / 10) as u64);
        let whole = u64_digits(n);
        assert(whole.drop_last() =~= prefix);
        assert(whole.last() == char_of_digit((n % 10) as nat));
        assert(digits_val(whole) == digits_val(prefix) * 10 + (n % 10));
        assert(n / 10 * 10 + n % 10 == n) by (nonlinear_arith);
        assert(forall|i: int|
            0 <= i < whole.len() ==> is_digit_char(#[trigger] whole[i]));
    }
}

/// The literal for one digit.
fn digit_str(d: u64) -> (r: &'static str)
    requires
        d < 10,
    ensures
        r@ =~= seq![char_of_digit(d as nat)],
{
    proof {
        reveal_strlit("0");
        reveal_strlit("1");
        reveal_strlit("2");
        reveal_strlit("3");
        reveal_strlit("4");
        reveal_strlit("5");
        reveal_strlit("6");
        reveal_strlit("7");
        reveal_strlit("8");
        reveal_strlit("9");
    }
    match d {
        0 => "0",
        1 => "1",
        2 => "2",
        3 => "3",
        4 => "4",
        5 => "5",
        6 => "6",
        7 => "7",
        8 => "8",
        _ => "9",
    }
}

/// Renders `n` as its canonical decimal string.
pub fn u64_to_string(n: u64) -> (r: String)
    ensures
        r@ == u64_digits(n),
    decreases n,
{
    if n < 10 {
        digit_str(n).to_owned()
    } else {
        let mut s = u64_to_string(n / 10);
        s.append(digit_str(n % 10));
        proof {
            assert(s@ =~= u64_digits(n));
        }
        s
    }
}

/// Compares two strings character by character.
pub fn str_eq(a: &str, b: &str) -> (r: bool)
    ensures
        r == (a@ == b@),
{
    let la = a.unicode_len();
    let lb = b.unicode_len();
    if la != lb {
        return false;
    }
    let mut i: usize = 0;
    while i < la
        invariant
            la == a@.len(),
            la == b@.len(),
            0 <= i <= la,
            forall|j: int| 0 <= j < i ==> a@[j] == b@[j],
        decreases la - i,
    {
        if a.get_char(i) != b.get_char(i) {
            return false;
        }
        i = i + 1;
    }
    proof {
        assert(a@ =~= b@);
    }
    true
}

} // verus!

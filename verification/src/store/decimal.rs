//! Canonical decimal text for `u64` sentinels.
//!
//! The file-backed store saves a sentinel as plain text.  For `u64`
//! sentinels that text is the canonical decimal form: no sign, no leading
//! zeros (so `0` is written `"0"`), most significant digit first.
//! `u64_string` is the specification of that form; the executable encoder
//! and decoder are proved to produce and accept exactly it.

use vstd::prelude::*;
use vstd::string::StrSliceExecFns;
use vstd::string::StringExecFns;

verus! {

/// The decimal digit character for `d` (meaningful for `d < 10`).
pub open spec fn digit_char(d: nat) -> char {
    if d == 0 {
        '0'
    } else if d == 1 {
        '1'
    } else if d == 2 {
        '2'
    } else if d == 3 {
        '3'
    } else if d == 4 {
        '4'
    } else if d == 5 {
        '5'
    } else if d == 6 {
        '6'
    } else if d == 7 {
        '7'
    } else if d == 8 {
        '8'
    } else {
        '9'
    }
}

/// The value of a decimal digit character; 10 when `c` is no digit.
pub open spec fn digit_of(c: char) -> nat {
    if c == '0' {
        0
    } else if c == '1' {
        1
    } else if c == '2' {
        2
    } else if c == '3' {
        3
    } else if c == '4' {
        4
    } else if c == '5' {
        5
    } else if c == '6' {
        6
    } else if c == '7' {
        7
    } else if c == '8' {
        8
    } else if c == '9' {
        9
    } else {
        10
    }
}

/// The canonical decimal text of `n`: most significant digit first, no
/// leading zeros.
pub open spec fn u64_string(n: nat) -> Seq<char>
    decreases n,
{
    if n < 10 {
        seq![digit_char(n)]
    } else {
        u64_string(n / 10).push(digit_char(n % 10))
    }
}

/// The number a digit string denotes, most significant digit first.
pub open spec fn digits_val(s: Seq<char>) -> nat
    decreases s.len(),
{
    if s.len() == 0 {
        0
    } else {
        digits_val(s.drop_last()) * 10 + digit_of(s.last())
    }
}

/// Every character of `s` is a decimal digit.
pub open spec fn all_digits(s: Seq<char>) -> bool {
    forall|i: int| 0 <= i < s.len() ==> digit_of(#[trigger] s[i]) < 10
}

/// `digit_of` inverts `digit_char` on digit values.
proof fn lemma_digit_char_of(d: nat)
    requires
        d < 10,
    ensures
        digit_of(digit_char(d)) == d,
{
}

/// `digit_char` inverts `digit_of` on digit characters.
proof fn lemma_char_digit(c: char)
    requires
        digit_of(c) < 10,
    ensures
        digit_char(digit_of(c)) == c,
{
}

/// The canonical text of any number is nonempty, all digits, denotes that
/// very number, and starts with a nonzero digit when the number is nonzero.
pub proof fn lemma_u64_string_props(n: nat)
    ensures
        u64_string(n).len() >= 1,
        n >= 10 ==> u64_string(n).len() >= 2,
        all_digits(u64_string(n)),
        digits_val(u64_string(n)) == n,
        n >= 1 ==> digit_of(u64_string(n)[0]) >= 1,
    decreases n,
{
    if n < 10 {
        lemma_digit_char_of(n);
        assert(u64_string(n) == seq![digit_char(n)]);
        assert(u64_string(n).len() == 1);
        assert(u64_string(n).last() == digit_char(n));
        assert(u64_string(n).drop_last() =~= Seq::<char>::empty());
        assert(digits_val(Seq::<char>::empty()) == 0);
        assert(digits_val(u64_string(n)) == digits_val(u64_string(n).drop_last()) * 10 + digit_of(
            u64_string(n).last(),
        ));
        assert(digits_val(u64_string(n)) == digit_of(digit_char(n)));
    } else {
        lemma_u64_string_props(n / 10);
        lemma_digit_char_of(n % 10);
        assert(u64_string(n).last() == digit_char(n % 10));
        assert(u64_string(n).drop_last() =~= u64_string(n / 10));
        assert(digits_val(u64_string(n)) == (n / 10) * 10 + n % 10);
        assert((n / 10) * 10 + n % 10 == n);
        assert(u64_string(n)[0] == u64_string(n / 10)[0]);
    }
}

/// A nonempty all-digit string with no leading zero and a value in `u64`
/// range is the canonical text of its own value.
pub proof fn lemma_canonical_string(s: Seq<char>)
    requires
        s.len() >= 1,
        all_digits(s),
        s.len() >= 2 ==> digit_of(s[0]) >= 1,
        digits_val(s) <= u64::MAX,
    ensures
        u64_string(digits_val(s)) == s,
        digit_of(s[0]) >= 1 ==> digits_val(s) >= 1,
        s.len() >= 2 ==> digits_val(s) >= 10,
    decreases s.len(),
{
    let d = digit_of(s.last());
    lemma_char_digit(s.last());
    if s.len() == 1 {
        assert(s.last() == s[0]);
        assert(s.drop_last() =~= Seq::<char>::empty());
        assert(digits_val(Seq::<char>::empty()) == 0);
        assert(digits_val(s) == digits_val(s.drop_last()) * 10 + digit_of(s.last()));
        assert(digits_val(s) == digit_of(s[0]));
        assert(u64_string(digits_val(s)) == seq![digit_char(digits_val(s))]);
        assert(u64_string(digits_val(s))[0] == s[0]);
        assert(u64_string(digits_val(s)) =~= s);
    } else {
        let init = s.drop_last();
        let v = digits_val(s);
        assert(init[0] == s[0]);
        assert(digits_val(init) * 10 <= v);
        lemma_canonical_string(init);
        assert(digits_val(init) >= 1);
        assert(v >= 10);
        assert(v / 10 == digits_val(init) && v % 10 == d) by {
            assert(v == digits_val(init) * 10 + d);
        };
        assert(u64_string(v) == u64_string(digits_val(init)).push(digit_char(v % 10)));
        assert(u64_string(v) =~= s);
    }
}

/// A digit string's value never falls below the value of any of its
/// prefixes.
pub proof fn lemma_digits_val_prefix(s: Seq<char>, i: int)
    requires
        0 <= i <= s.len(),
    ensures
        digits_val(s.subrange(0, i)) <= digits_val(s),
    decreases s.len() - i,
{
    if i == s.len() {
        assert(s.subrange(0, i) =~= s);
    } else {
        assert(s.subrange(0, i + 1).drop_last() =~= s.subrange(0, i));
        assert(s.subrange(0, i + 1).last() == s[i]);
        lemma_digits_val_prefix(s, i + 1);
    }
}

/// Signals that a text is not the canonical decimal form of any `u64`.
#[derive(Clone, Copy, Debug, PartialEq, Eq)]
pub struct DecimalParseError;

/// The value of one digit character, or `None` when `c` is no digit.
fn digit_value(c: char) -> (r: Option<u64>)
    ensures
        r matches Some(d) ==> d == digit_of(c) && d < 10,
        r is None ==> digit_of(c) >= 10,
{
    match c {
        '0' => Some(0u64),
        '1' => Some(1u64),
        '2' => Some(2u64),
        '3' => Some(3u64),
        '4' => Some(4u64),
        '5' => Some(5u64),
        '6' => Some(6u64),
        '7' => Some(7u64),
        '8' => Some(8u64),
        '9' => Some(9u64),
        _ => None,
    }
}

/// The one-character text of one digit value.
fn digit_literal(d: u64) -> (r: &'static str)
    requires
        d < 10,
    ensures
        r@ == seq![digit_char(d as nat)],
{
    if d == 0 {
        proof {
            reveal_strlit("0");
            assert("0"@ =~= seq![digit_char(d as nat)]);
        }
        "0"
    } else if d == 1 {
        proof {
            reveal_strlit("1");
            assert("1"@ =~= seq![digit_char(d as nat)]);
        }
        "1"
    } else if d == 2 {
        proof {
            reveal_strlit("2");
            assert("2"@ =~= seq![digit_char(d as nat)]);
        }
        "2"
    } else if d == 3 {
        proof {
            reveal_strlit("3");
            assert("3"@ =~= seq![digit_char(d as nat)]);
        }
        "3"
    } else if d == 4 {
        proof {
            reveal_strlit("4");
            assert("4"@ =~= seq![digit_char(d as nat)]);
        }
        "4"
    } else if d == 5 {
        proof {
            reveal_strlit("5");
            assert("5"@ =~= seq![digit_char(d as nat)]);
        }
        "5"
    } else if d == 6 {
        proof {
            reveal_strlit("6");
            assert("6"@ =~= seq![digit_char(d as nat)]);
        }
        "6"
    } else if d == 7 {
        proof {
            reveal_strlit("7");
            assert("7"@ =~= seq![digit_char(d as nat)]);
        }
        "7"
    } else if d == 8 {
        proof {
            reveal_strlit("8");
            assert("8"@ =~= seq![digit_char(d as nat)]);
        }
        "8"
    } else {
        proof {
            reveal_strlit("9");
            assert("9"@ =~= seq![digit_char(d as nat)]);
        }
        "9"
    }
}

/// The digit characters of `ds`, read back to front.
spec fn rev_digit_chars(ds: Seq<u64>) -> Seq<char>
    decreases ds.len(),
{
    if ds.len() == 0 {
        Seq::empty()
    } else {
        seq![digit_char(ds.last() as nat)] + rev_digit_chars(ds.drop_last())
    }
}

proof fn lemma_rev_prepend(ds: Seq<u64>, d: u64)
    ensures
        rev_digit_chars(seq![d] + ds) == rev_digit_chars(ds) + seq![digit_char(d as nat)],
    decreases ds.len(),
{
    if ds.len() == 0 {
        assert((seq![d] + ds).len() == 1);
        assert((seq![d] + ds).last() == d);
        assert((seq![d] + ds).drop_last() =~= Seq::<u64>::empty());
        assert(rev_digit_chars(Seq::<u64>::empty()) == Seq::<char>::empty());
        assert(rev_digit_chars(seq![d] + ds) == seq![digit_char((seq![d] + ds).last() as nat)]
            + rev_digit_chars((seq![d] + ds).drop_last()));
        assert(rev_digit_chars(seq![d] + ds) =~= rev_digit_chars(ds) + seq![
            digit_char(d as nat),
        ]);
    } else {
        assert((seq![d] + ds).drop_last() =~= seq![d] + ds.drop_last());
        assert((seq![d] + ds).last() == ds.last());
        lemma_rev_prepend(ds.drop_last(), d);
        assert(rev_digit_chars(seq![d] + ds) =~= rev_digit_chars(ds) + seq![
            digit_char(d as nat),
        ]);
    }
}

/// Writes `n` in canonical decimal form.
pub fn u64_to_decimal(n: u64) -> (s: String)
    ensures
        s@ == u64_string(n as nat),
{
    if n == 0 {
        let mut s = String::new();
        s.append(digit_literal(0));
        proof {
            assert(s@ =~= u64_string(0));
        }
        return s;
    }
    let mut digits: Vec<u64> = Vec::new();
    let mut m: u64 = n;
    proof {
        assert(u64_string(n as nat) =~= u64_string(m as nat) + rev_digit_chars(digits@));
    }
    while m > 0
        invariant
            m > 0 ==> u64_string(n as nat) == u64_string(m as nat) + rev_digit_chars(digits@),
            m == 0 ==> u64_string(n as nat) == rev_digit_chars(digits@),
            forall|k: int| 0 <= k < digits@.len() ==> digits@[k] < 10,
        decreases m,
    {
        let d = m % 10;
        let ghost pre_m = m;
        let ghost pre_digits = digits@;
        digits.push(d);
        m = m / 10;
        proof {
            assert(digits@.drop_last() =~= pre_digits);
            assert(digits@.last() == d);
            if m > 0 {
                assert(u64_string(pre_m as nat) == u64_string(m as nat).push(
                    digit_char(d as nat),
                ));
                assert(u64_string(m as nat) + rev_digit_chars(digits@) =~= u64_string(
                    pre_m as nat,
                ) + rev_digit_chars(pre_digits));
            } else {
                assert(u64_string(pre_m as nat) == seq![digit_char(pre_m as nat)]);
                assert(rev_digit_chars(digits@) =~= u64_string(pre_m as nat) + rev_digit_chars(
                    pre_digits,
                ));
            }
        }
    }
    let mut s = String::new();
    let mut i: usize = digits.len();
    proof {
        assert(s@ =~= rev_digit_chars(digits@.skip(i as int)));
    }
    while i > 0
        invariant
            i <= digits@.len(),
            s@ == rev_digit_chars(digits@.skip(i as int)),
            u64_string(n as nat) == rev_digit_chars(digits@),
            forall|k: int| 0 <= k < digits@.len() ==> digits@[k] < 10,
        decreases i,
    {
        i = i - 1;
        s.append(digit_literal(digits[i]));
        proof {
            assert(digits@.skip(i as int) =~= seq![digits@[i as int]] + digits@.skip(i as int + 1));
            lemma_rev_prepend(digits@.skip(i as int + 1), digits@[i as int]);
        }
    }
    proof {
        assert(digits@.skip(0) =~= digits@);
    }
    s
}

/// Reads a `u64` from canonical decimal text; rejects everything else (an
/// empty text, a non-digit, a leading zero, a value beyond `u64::MAX`).
pub fn decimal_to_u64(text: &str) -> (r: Result<u64, DecimalParseError>)
    ensures
        r matches Ok(v) ==> text@ == u64_string(v as nat),
        r is Err ==> forall|v: u64| text@ != u64_string(v as nat),
{
    let len = text.unicode_len();
    if len == 0 {
        proof {
            assert forall|v: u64| text@ != u64_string(v as nat) by {
                lemma_u64_string_props(v as nat);
            }
        }
        return Err(DecimalParseError);
    }
    let first = text.get_char(0);
    if first == '0' {
        if len == 1 {
            proof {
                assert(text@ =~= u64_string(0));
            }
            return Ok(0);
        }
        proof {
            assert forall|v: u64| text@ != u64_string(v as nat) by {
                lemma_u64_string_props(v as nat);
                if text@ == u64_string(v as nat) {
                    assert(v >= 10);
                    assert(digit_of(text@[0]) == 0);
                }
            }
        }
        return Err(DecimalParseError);
    }
    let mut i: usize = 0;
    let mut acc: u64 = 0;
    proof {
        assert(text@.subrange(0, 0) =~= Seq::<char>::empty());
    }
    while i < len
        invariant
            i <= len,
            len == text@.len(),
            len >= 1,
            text@[0] != '0',
            acc == digits_val(text@.subrange(0, i as int)),
            forall|k: int| 0 <= k < i ==> digit_of(#[trigger] text@[k]) < 10,
        decreases len - i,
    {
        let c = text.get_char(i);
        let d = match digit_value(c) {
            Some(d) => d,
            None => {
                proof {
                    assert forall|v: u64| text@ != u64_string(v as nat) by {
                        lemma_u64_string_props(v as nat);
                        if text@ == u64_string(v as nat) {
                            assert(digit_of(text@[i as int]) < 10);
                        }
                    }
                }
                return Err(DecimalParseError);
            },
        };
        let ghost prefix = text@.subrange(0, i as int + 1);
        proof {
            assert(prefix.drop_last() =~= text@.subrange(0, i as int));
            assert(prefix.last() == text@[i as int]);
            assert(digits_val(prefix) == acc * 10 + d);
        }
        if acc > (u64::MAX - d) / 10 {
            proof {
                assert((u64::MAX - d) / 10 * 10 + (u64::MAX - d) % 10 == u64::MAX - d);
                assert(acc * 10 + d > u64::MAX);
                assert forall|v: u64| text@ != u64_string(v as nat) by {
                    lemma_u64_string_props(v as nat);
                    if text@ == u64_string(v as nat) {
                        lemma_digits_val_prefix(text@, i as int + 1);
                    }
                }
            }
            return Err(DecimalParseError);
        }
        proof {
            assert((u64::MAX - d) / 10 * 10 + (u64::MAX - d) % 10 == u64::MAX - d);
            assert(acc * 10 + d <= u64::MAX);
        }
        acc = acc * 10 + d;
        i = i + 1;
    }
    proof {
        assert(text@.subrange(0, len as int) =~= text@);
        lemma_char_digit(text@[0]);
        lemma_canonical_string(text@);
    }
    Ok(acc)
}

} // verus!

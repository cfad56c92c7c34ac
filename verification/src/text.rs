//! Small text helpers shared by the modules that print or compare words: character-wise
//! equality, decimal rendering and right alignment.

use vstd::prelude::*;

verus! {

/// Whether `a` and `b` hold the same characters.
pub fn same_text(a: &str, b: &str) -> (same: bool)
    ensures
        same == (a@ == b@),
{
    let n = a.unicode_len();
    if n != b.unicode_len() {
        return false;
    }
    let mut i: usize = 0;
    while i < n
        invariant
            n == a@.len(),
            n == b@.len(),
            i <= n,
            forall|j: int| 0 <= j < i ==> a@[j] == b@[j],
        decreases n - i,
    {
        if a.get_char(i) != b.get_char(i) {
            return false;
        }
        i = i + 1;
    }
    proof {
        assert(a@ =~= b@);
    }
    true
}

/// Whether `a` starts with `c`.
pub fn starts_with_char(a: &str, c: char) -> (starts: bool)
    ensures
        starts == (a@.len() > 0 && a@[0] == c),
{
    a.unicode_len() > 0 && a.get_char(0) == c
}

/// The decimal digits, indexed by value.
pub open spec fn decimal_chars() -> Seq<char> {
    seq!['0', '1', '2', '3', '4', '5', '6', '7', '8', '9']
}

/// `n` in decimal, without leading zeros (`0` is a single digit).
pub open spec fn decimal(n: nat) -> Seq<char>
    decreases n,
{
    if n < 10 {
        seq![decimal_chars()[n as int]]
    } else {
        decimal(n / 10).push(decimal_chars()[(n % 10) as int])
    }
}

/// `digits` right-aligned in a field `width` characters wide, padded with spaces on the left
/// (what `{:>width}` prints); longer text is left as it is.
pub open spec fn right_aligned(digits: Seq<char>, width: nat) -> Seq<char> {
    if digits.len() >= width {
        digits
    } else {
        Seq::new((width - digits.len()) as nat, |i: int| ' ') + digits
    }
}

/// The single decimal digit for `digit`.
pub fn digit_text(digit: u32) -> (s: &'static str)
    requires
        digit < 10,
    ensures
        s@ == seq![decimal_chars()[digit as int]],
{
    let digits = "0123456789";
    proof {
        reveal_strlit("0123456789");
    }
    let s = digits.substring_char(digit as usize, digit as usize + 1);
    proof {
        assert(s@ =~= seq![decimal_chars()[digit as int]]);
    }
    s
}

/// A decimal number takes at most ten digits when it fits in a `u32`.
pub proof fn lemma_decimal_len(n: nat)
    ensures
        decimal(n).len() >= 1,
        n < 10 ==> decimal(n).len() == 1,
        10 <= n < 100 ==> decimal(n).len() == 2,
        100 <= n < 1000 ==> decimal(n).len() == 3,
        100 <= n ==> decimal(n).len() >= 3,
    decreases n,
{
    if n >= 10 {
        lemma_decimal_len(n / 10);
    }
}

/// `n` in decimal.
pub fn decimal_text(n: u32) -> (s: String)
    ensures
        s@ == decimal(n as nat),
    decreases n,
{
    if n < 10 {
        String::from_str(digit_text(n))
    } else {
        let mut s = decimal_text(n / 10);
        s.append(digit_text(n % 10));
        s
    }
}

/// `n` in decimal, right-aligned in a field three characters wide.
pub fn decimal_text_width3(n: u32) -> (s: String)
    ensures
        s@ == right_aligned(decimal(n as nat), 3),
{
    let digits = decimal_text(n);
    proof {
        lemma_decimal_len(n as nat);
    }
    if n < 10 {
        let mut s = String::from_str("  ");
        proof {
            reveal_strlit("  ");
        }
        s.append(digits.as_str());
        proof {
            assert(s@ =~= right_aligned(decimal(n as nat), 3));
        }
        s
    } else if n < 100 {
        let mut s = String::from_str(" ");
        proof {
            reveal_strlit(" ");
        }
        s.append(digits.as_str());
        proof {
            assert(s@ =~= right_aligned(decimal(n as nat), 3));
        }
        s
    } else {
        digits
    }
}

} // verus!

//! Verified text helpers: exact and case-insensitive string comparison, and
//! decimal rendering of identifiers. Replies and command-name matching are
//! built on these.

use vstd::prelude::*;
use vstd::string::StrSliceExecFns;
use vstd::string::StringExecFns;

verus! {

/// Exact string equality, decided character by character.
pub fn str_eq(a: &str, b: &str) -> (r: bool)
    ensures
        r == (a@ == b@),
{
    let a_len = a.unicode_len();
    let b_len = b.unicode_len();
    if a_len != b_len {
        return false;
    }
    let mut i: usize = 0;
    while i < a_len
        invariant
            a_len == a@.len(),
            b_len == b@.len(),
            a_len == b_len,
            i <= a_len,
            forall|j: int| 0 <= j < i ==> a@[j] == b@[j],
        decreases a_len - i,
    {
        if a.get_char(i) != b.get_char(i) {
            return false;
        }
        i = i + 1;
    }
    proof {
        assert(a@ =~= b@);
    }
    true
}

/// Two characters are the same letter when the case of ASCII letters is
/// ignored: either identical, or an ASCII upper/lower pair.
pub open spec fn char_eq_ci(a: char, b: char) -> bool {
    ||| a == b
    ||| ((a as int) >= 65 && (a as int) <= 90 && (b as int) == (a as int) + 32)
    ||| ((b as int) >= 65 && (b as int) <= 90 && (a as int) == (b as int) + 32)
}

/// Strings are equal ignoring ASCII case when they have the same length and
/// agree position by position up to case.
pub open spec fn seq_eq_ci(a: Seq<char>, b: Seq<char>) -> bool {
    a.len() == b.len() && forall|j: int| 0 <= j < a.len() ==> char_eq_ci(a[j], b[j])
}

fn char_eq_ci_exec(a: char, b: char) -> (r: bool)
    ensures
        r == char_eq_ci(a, b),
{
    let ac = a as u32;
    let bc = b as u32;
    a == b || (ac >= 65 && ac <= 90 && bc == ac + 32) || (bc >= 65 && bc <= 90 && ac == bc + 32)
}

/// Case-insensitive string equality, decided character by character.
pub fn str_eq_ci(a: &str, b: &str) -> (r: bool)
    ensures
        r == seq_eq_ci(a@, b@),
{
    let a_len = a.unicode_len();
    let b_len = b.unicode_len();
    if a_len != b_len {
        return false;
    }
    let mut i: usize = 0;
    while i < a_len
        invariant
            a_len == a@.len(),
            b_len == b@.len(),
            a_len == b_len,
            i <= a_len,
            forall|j: int| 0 <= j < i ==> char_eq_ci(a@[j], b@[j]),
        decreases a_len - i,
    {
        if !char_eq_ci_exec(a.get_char(i), b.get_char(i)) {
            return false;
        }
        i = i + 1;
    }
    true
}

/// The length of the leading word of `s`: everything before the first
/// space.
pub open spec fn word_len(s: Seq<char>) -> nat
    decreases s.len(),
{
    if s.len() == 0 {
        0
    } else if s[0] == ' ' {
        0
    } else {
        1 + word_len(s.drop_first())
    }
}

/// `word_len` is the unique cut: if the first `n` characters are not
/// spaces and the word is ended there, by a space or by the end of the
/// string, then the leading word has length `n`.
pub proof fn lemma_word_len(s: Seq<char>, n: nat)
    requires
        n <= s.len(),
        forall|j: int| 0 <= j < n ==> s[j] != ' ',
        n == s.len() || s[n as int] == ' ',
    ensures
        word_len(s) == n,
    decreases s.len(),
{
    if n == 0 {
        if s.len() > 0 {
            assert(s[0] == ' ');
        }
    } else {
        assert(s[0] != ' ');
        let t = s.drop_first();
        assert forall|j: int| 0 <= j < n - 1 implies t[j] != ' ' by {
            assert(t[j] == s[j + 1]);
        }
        if n < s.len() {
            assert(t[n - 1] == s[n as int]);
        }
        lemma_word_len(t, (n - 1) as nat);
    }
}

/// The decimal digit `d` as a character; meaningful for `d < 10`.
pub open spec fn digit_char(d: nat) -> char {
    if d == 0 {
        '0'
    } else if d == 1 {
        '1'
    } else if d == 2 {
        '2'
    } else if d == 3 {
        '3'
    } else if d == 4 {
        '4'
    } else if d == 5 {
        '5'
    } else if d == 6 {
        '6'
    } else if d == 7 {
        '7'
    } else if d == 8 {
        '8'
    } else {
        '9'
    }
}

/// The decimal rendering of `n`, most significant digit first, with no
/// leading zeros (a single `'0'` for zero itself).
pub open spec fn dec_str(n: nat) -> Seq<char>
    decreases n,
{
    if n < 10 {
        seq![digit_char(n)]
    } else {
        dec_str(n / 10).push(digit_char(n % 10))
    }
}

fn digit_str(d: u64) -> (r: &'static str)
    requires
        d < 10,
    ensures
        r@ =~= seq![digit_char(d as nat)],
{
    if d == 0 {
        let s = "0";
        proof { reveal_strlit("0"); }
        s
    } else if d == 1 {
        let s = "1";
        proof { reveal_strlit("1"); }
        s
    } else if d == 2 {
        let s = "2";
        proof { reveal_strlit("2"); }
        s
    } else if d == 3 {
        let s = "3";
        proof { reveal_strlit("3"); }
        s
    } else if d == 4 {
        let s = "4";
        proof { reveal_strlit("4"); }
        s
    } else if d == 5 {
        let s = "5";
        proof { reveal_strlit("5"); }
        s
    } else if d == 6 {
        let s = "6";
        proof { reveal_strlit("6"); }
        s
    } else if d == 7 {
        let s = "7";
        proof { reveal_strlit("7"); }
        s
    } else if d == 8 {
        let s = "8";
        proof { reveal_strlit("8"); }
        s
    } else {
        let s = "9";
        proof { reveal_strlit("9"); }
        s
    }
}

/// Renders `n` in decimal.
pub fn u64_to_string(n: u64) -> (r: String)
    ensures
        r@ == dec_str(n as nat),
    decreases n,
{
    if n < 10 {
        let d = digit_str(n);
        d.to_owned()
    } else {
        proof {
            assert(n / 10 < n) by (nonlinear_arith)
                requires n >= 10;
        }
        let mut s = u64_to_string(n / 10);
        s.append(digit_str(n % 10));
        proof {
            assert(dec_str((n / 10) as nat) + seq![digit_char((n % 10) as nat)]
                =~= dec_str((n / 10) as nat).push(digit_char((n % 10) as nat)));
        }
        s
    }
}

} // verus!

use vstd::prelude::*;
use vstd::string::StrSliceExecFns;

verus! {

/// `c` is an ASCII uppercase letter.
pub open spec fn is_ascii_upper(c: char) -> bool {
    65 <= (c as int) && (c as int) <= 90
}

/// The two characters are equal up to ASCII case: identical, or the same
/// letter with one side uppercase and the other lowercase. Characters
/// outside ASCII are only equal to themselves.
pub open spec fn char_eq_ci(a: char, b: char) -> bool {
    ||| a == b
    ||| (is_ascii_upper(a) && a as int + 32 == b as int)
    ||| (is_ascii_upper(b) && b as int + 32 == a as int)
}

/// The two character sequences are equal up to ASCII case, position by
/// position.
pub open spec fn seq_eq_ci(a: Seq<char>, b: Seq<char>) -> bool {
    &&& a.len() == b.len()
    &&& forall|i: int| 0 <= i < a.len() ==> char_eq_ci(#[trigger] a[i], b[i])
}

fn char_eq_ci_exec(a: char, b: char) -> (r: bool)
    ensures
        r == char_eq_ci(a, b),
{
    let x = a as u32;
    let y = b as u32;
    x == y || (65 <= x && x <= 90 && x + 32 == y) || (65 <= y && y <= 90 && y + 32 == x)
}

/// Compares two strings up to ASCII case, character by character.
pub(crate) fn str_eq_ci(s: &str, t: &str) -> (r: bool)
    ensures
        r == seq_eq_ci(s@, t@),
{
    let n = s.unicode_len();
    if n != t.unicode_len() {
        return false;
    }
    let mut k: usize = 0;
    while k < n
        invariant
            n == s@.len(),
            n == t@.len(),
            k <= n,
            forall|i: int| 0 <= i < k ==> char_eq_ci(#[trigger] s@[i], t@[i]),
        decreases n - k,
    {
        if !char_eq_ci_exec(s.get_char(k), t.get_char(k)) {
            return false;
        }
        k = k + 1;
    }
    true
}

/// A sequence without ASCII uppercase letters matches at most one sequence
/// without ASCII uppercase letters up to case: if `s` matches both `a` and
/// `b`, then `a` and `b` are the same sequence.
pub proof fn lemma_ci_match_unique(s: Seq<char>, a: Seq<char>, b: Seq<char>)
    requires
        seq_eq_ci(s, a),
        seq_eq_ci(s, b),
        forall|i: int| 0 <= i < a.len() ==> !is_ascii_upper(#[trigger] a[i]),
        forall|i: int| 0 <= i < b.len() ==> !is_ascii_upper(#[trigger] b[i]),
    ensures
        a == b,
{
    assert forall|i: int| 0 <= i < a.len() implies a[i] == b[i] by {
        assert(char_eq_ci(s[i], a[i]));
        assert(char_eq_ci(s[i], b[i]));
    }
    assert(a =~= b);
}

} // verus!

//! Character-level helpers on strings, stated over `Seq<char>`.
use vstd::prelude::*;

verus! {

/// The code of `c` after ASCII lowercasing: `A`..`Z` map to `a`..`z`,
/// every other character keeps its code.
pub open spec fn ascii_lower_code(c: char) -> u32 {
    if 'A' <= c && c <= 'Z' {
        (c as u32 + 32) as u32
    } else {
        c as u32
    }
}

/// Two character sequences are equal up to ASCII case.
pub open spec fn eq_ignore_ascii_case_spec(a: Seq<char>, b: Seq<char>) -> bool {
    &&& a.len() == b.len()
    &&& forall|i: int| 0 <= i < a.len() ==> #[trigger] ascii_lower_code(a[i]) == ascii_lower_code(b[i])
}

/// Equality up to ASCII case is symmetric and transitive.
pub proof fn lemma_eq_ignore_ascii_case_equivalence(a: Seq<char>, b: Seq<char>, c: Seq<char>)
    ensures
        eq_ignore_ascii_case_spec(a, b) ==> eq_ignore_ascii_case_spec(b, a),
        eq_ignore_ascii_case_spec(a, b) && eq_ignore_ascii_case_spec(b, c) ==> eq_ignore_ascii_case_spec(a, c),
{
    if eq_ignore_ascii_case_spec(a, b) {
        assert forall|i: int| 0 <= i < b.len() implies #[trigger] ascii_lower_code(b[i]) == ascii_lower_code(a[i]) by {
            assert(ascii_lower_code(a[i]) == ascii_lower_code(b[i]));
        }
        if eq_ignore_ascii_case_spec(b, c) {
            assert forall|i: int| 0 <= i < a.len() implies #[trigger] ascii_lower_code(a[i]) == ascii_lower_code(c[i]) by {
                assert(ascii_lower_code(a[i]) == ascii_lower_code(b[i]));
                assert(ascii_lower_code(b[i]) == ascii_lower_code(c[i]));
            }
        }
    }
}

/// `c` is an ASCII letter or digit.
pub open spec fn is_ascii_alphanumeric(c: char) -> bool {
    ||| ('a' <= c && c <= 'z')
    ||| ('A' <= c && c <= 'Z')
    ||| ('0' <= c && c <= '9')
}

/// Compares two characters up to ASCII case.
pub fn char_eq_ignore_ascii_case(a: char, b: char) -> (res: bool)
    ensures
        res == (ascii_lower_code(a) == ascii_lower_code(b)),
{
    let la: u32 = if 'A' <= a && a <= 'Z' { a as u32 + 32 } else { a as u32 };
    let lb: u32 = if 'A' <= b && b <= 'Z' { b as u32 + 32 } else { b as u32 };
    la == lb
}

/// Compares two strings up to ASCII case, as `str::eq_ignore_ascii_case` does.
pub fn eq_ignore_ascii_case(a: &str, b: &str) -> (res: bool)
    ensures
        res == eq_ignore_ascii_case_spec(a@, b@),
{
    let n = a.unicode_len();
    let m = b.unicode_len();
    if n != m {
        return false;
    }
    let mut i: usize = 0;
    while i < n
        invariant
            n == a@.len(),
            m == b@.len(),
            n == m,
            i <= n,
            forall|j: int| 0 <= j < i ==> #[trigger] ascii_lower_code(a@[j]) == ascii_lower_code(b@[j]),
        decreases n - i,
    {
        let ca = a.get_char(i);
        let cb = b.get_char(i);
        if !char_eq_ignore_ascii_case(ca, cb) {
            assert(!eq_ignore_ascii_case_spec(a@, b@)) by {
                assert(ascii_lower_code(a@[i as int]) != ascii_lower_code(b@[i as int]));
            }
            return false;
        }
        i = i + 1;
    }
    true
}

/// Appends one character to a string (`String::push`).
#[verifier::external_body]
pub(crate) fn push_char(s: &mut String, c: char)
    ensures
        final(s)@ == old(s)@.push(c),
{
    s.push(c);
}

} // verus!

//! Small verified text utilities: trimming surrounding whitespace,
//! ASCII lowercasing, and character-exact string comparison.

use vstd::prelude::*;

verus! {

/// The whitespace characters stripped from the ends of names and colors.
pub open spec fn is_space_char(c: char) -> bool {
    c == ' ' || c == '\t' || c == '\n' || c == '\r' || c == '\u{000C}'
}

/// The string without its leading whitespace.
pub open spec fn trim_start_spec(s: Seq<char>) -> Seq<char>
    decreases s.len(),
{
    if s.len() > 0 && is_space_char(s[0]) {
        trim_start_spec(s.drop_first())
    } else {
        s
    }
}

/// The string without its trailing whitespace.
pub open spec fn trim_end_spec(s: Seq<char>) -> Seq<char>
    decreases s.len(),
{
    if s.len() > 0 && is_space_char(s[s.len() - 1]) {
        trim_end_spec(s.drop_last())
    } else {
        s
    }
}

/// The string without leading and trailing whitespace.
pub open spec fn trim_spec(s: Seq<char>) -> Seq<char> {
    trim_end_spec(trim_start_spec(s))
}

/// Uppercase ASCII letters map to their lowercase form; everything else is unchanged.
pub open spec fn lower_char_spec(c: char) -> char {
    if 'A' <= c && c <= 'Z' {
        ((c as u8) + 32) as char
    } else {
        c
    }
}

/// The string with every ASCII letter lowercased.
pub open spec fn lower_spec(s: Seq<char>) -> Seq<char> {
    s.map_values(|c: char| lower_char_spec(c))
}

/// Equality that ignores ASCII letter case.
pub open spec fn eq_ignore_case_spec(a: Seq<char>, b: Seq<char>) -> bool {
    lower_spec(a) == lower_spec(b)
}

fn is_space(c: char) -> (r: bool)
    ensures
        r == is_space_char(c),
{
    c == ' ' || c == '\t' || c == '\n' || c == '\r' || c == '\u{000C}'
}

fn lower_char(c: char) -> (r: char)
    ensures
        r == lower_char_spec(c),
{
    if 'A' <= c && c <= 'Z' {
        ((c as u8) + 32) as char
    } else {
        c
    }
}

proof fn lemma_trim_start_at(s: Seq<char>, k: int)
    requires
        0 <= k <= s.len(),
        forall|j: int| 0 <= j < k ==> is_space_char(s[j]),
        k < s.len() ==> !is_space_char(s[k]),
    ensures
        trim_start_spec(s) =~= s.subrange(k, s.len() as int),
    decreases k,
{
    if k == 0 {
        assert(trim_start_spec(s) =~= s.subrange(0, s.len() as int));
    } else {
        let t = s.drop_first();
        lemma_trim_start_at(t, k - 1);
        assert(t.subrange(k - 1, t.len() as int) =~= s.subrange(k, s.len() as int));
    }
}

proof fn lemma_trim_end_at(s: Seq<char>, k: int)
    requires
        0 <= k <= s.len(),
        forall|j: int| k <= j < s.len() ==> is_space_char(s[j]),
        k > 0 ==> !is_space_char(s[k - 1]),
    ensures
        trim_end_spec(s) =~= s.subrange(0, k),
    decreases s.len() - k,
{
    if k == s.len() {
        assert(trim_end_spec(s) =~= s.subrange(0, k));
    } else {
        let t = s.drop_last();
        lemma_trim_end_at(t, k);
        assert(t.subrange(0, k) =~= s.subrange(0, k));
    }
}

/// Returns the input without leading and trailing whitespace.
pub fn trim_str(s: &str) -> (r: String)
    ensures
        r@ == trim_spec(s@),
{
    let n = s.unicode_len();
    let mut lo: usize = 0;
    while lo < n && is_space(s.get_char(lo))
        invariant
            n == s@.len(),
            lo <= n,
            forall|j: int| 0 <= j < lo ==> is_space_char(s@[j]),
        decreases n - lo,
    {
        lo = lo + 1;
    }
    let mut hi: usize = n;
    while hi > lo && is_space(s.get_char(hi - 1))
        invariant
            n == s@.len(),
            lo <= hi <= n,
            forall|j: int| hi <= j < n ==> is_space_char(s@[j]),
        decreases hi,
    {
        hi = hi - 1;
    }
    proof {
        lemma_trim_start_at(s@, lo as int);
        let t = s@.subrange(lo as int, n as int);
        lemma_trim_end_at(t, hi - lo);
        assert(t.subrange(0, hi - lo) =~= s@.subrange(lo as int, hi as int));
    }
    let sub = s.substring_char(lo, hi);
    sub.to_owned()
}

/// Relies on std's String::push: appends the given character to the string.
#[verifier::external_body]
fn push_char(s: &mut String, c: char)
    ensures
        final(s)@ == old(s)@.push(c),
{
    s.push(c);
}

/// Returns the input with every ASCII letter lowercased.
pub fn to_lower(s: &str) -> (r: String)
    ensures
        r@ == lower_spec(s@),
{
    let n = s.unicode_len();
    let mut out = String::new();
    let mut i: usize = 0;
    while i < n
        invariant
            n == s@.len(),
            i <= n,
            out@.len() == i,
            forall|j: int| 0 <= j < i ==> out@[j] == lower_char_spec(s@[j]),
        decreases n - i,
    {
        push_char(&mut out, lower_char(s.get_char(i)));
        i = i + 1;
    }
    proof {
        assert(out@ =~= lower_spec(s@));
    }
    out
}

/// Character-exact equality of two string slices.
pub fn str_eq(a: &str, b: &str) -> (r: bool)
    ensures
        r == (a@ == b@),
{
    let na = a.unicode_len();
    let nb = b.unicode_len();
    if na != nb {
        return false;
    }
    let mut i: usize = 0;
    while i < na
        invariant
            na == a@.len() && na == b@.len(),
            i <= na,
            forall|j: int| 0 <= j < i ==> a@[j] == b@[j],
        decreases na - i,
    {
        if a.get_char(i) != b.get_char(i) {
            return false;
        }
        i = i + 1;
    }
    proof {
        assert(a@ =~= b@);
    }
    true
}

/// Equality of two string slices up to ASCII letter case.
pub fn eq_ignore_case(a: &str, b: &str) -> (r: bool)
    ensures
        r == eq_ignore_case_spec(a@, b@),
{
    let na = a.unicode_len();
    let nb = b.unicode_len();
    if na != nb {
        proof {
            assert(lower_spec(a@).len() != lower_spec(b@).len());
        }
        return false;
    }
    let mut i: usize = 0;
    while i < na
        invariant
            na == a@.len() && na == b@.len(),
            i <= na,
            forall|j: int| 0 <= j < i ==> lower_char_spec(a@[j]) == lower_char_spec(b@[j]),
        decreases na - i,
    {
        if lower_char(a.get_char(i)) != lower_char(b.get_char(i)) {
            proof {
                assert(lower_spec(a@)[i as int] != lower_spec(b@)[i as int]);
            }
            return false;
        }
        i = i + 1;
    }
    proof {
        assert(lower_spec(a@) =~= lower_spec(b@));
    }
    true
}

} // verus!

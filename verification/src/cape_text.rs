use vstd::prelude::*;

verus! {

broadcast use vstd::string::group_string_axioms;

/// The first character of the lowercase mapping of `c`, as std's
/// `char::to_lowercase` gives it.
pub uninterp spec fn char_lower(c: char) -> char;

/// The lowercase mapping of a whole string, as std's `str::to_lowercase`
/// gives it.
pub uninterp spec fn str_lower(s: Seq<char>) -> Seq<char>;

/// The uppercase mapping of a whole string, as std's `str::to_uppercase`
/// gives it.
pub uninterp spec fn str_upper(s: Seq<char>) -> Seq<char>;

/// The lowercase of an ASCII character: `A` to `Z` become `a` to `z`,
/// every other character stays as it is.
pub open spec fn ascii_lower(c: char) -> char {
    if 'A' <= c && c <= 'Z' {
        ((c as u32) + 32) as char
    } else {
        c
    }
}

/// Calls std's `char::to_lowercase` and keeps the first character of the
/// mapping (std documents that the mapping has one or more characters).
/// The contract names the result, which depends on `c` alone, and states
/// it for ASCII characters: std documents that an uppercase letter maps to
/// its lowercase letter and a character without a lowercase mapping to
/// itself. Nothing more of the Unicode tables is stated.
#[verifier::external_body]
pub(crate) fn lower_char(c: char) -> (r: char)
    ensures
        r == char_lower(c),
        (c as u32) < 128 ==> r == ascii_lower(c),
{
    c.to_lowercase().next().unwrap()
}

/// Calls std's `str::to_lowercase`. The contract names the result: it
/// depends on the characters of `s` alone.
#[verifier::external_body]
pub(crate) fn str_to_lowercase(s: &str) -> (r: String)
    ensures
        r@ == str_lower(s@),
{
    s.to_lowercase()
}

/// Calls std's `str::to_uppercase`. The contract names the result: it
/// depends on the characters of `s` alone.
#[verifier::external_body]
pub(crate) fn str_to_uppercase(s: &str) -> (r: String)
    ensures
        r@ == str_upper(s@),
{
    s.to_uppercase()
}

/// std's `String::push` appends one character.
pub assume_specification[ std::string::String::push ](s: &mut std::string::String, ch: char)
    ensures
        final(s)@ == old(s)@.push(ch),
;

/// The characters of a string slice, in order.
pub fn chars_of(s: &str) -> (r: Vec<char>)
    ensures
        r@ == s@,
{
    let mut v: Vec<char> = Vec::new();
    for c in it: s.chars()
        invariant
            v@ == it.history(),
            it.seq() == s@,
    {
        v.push(c);
    }
    v
}

/// A `String` holding the given characters, in order.
pub fn string_of(chars: &[char]) -> (r: String)
    ensures
        r@ == chars@,
{
    let mut s = String::new();
    let mut i: usize = 0;
    while i < chars.len()
        invariant
            0 <= i <= chars@.len(),
            s@ == chars@.take(i as int),
        decreases chars@.len() - i,
    {
        s.push(chars[i]);
        i = i + 1;
        assert(s@ =~= chars@.take(i as int));
    }
    assert(chars@.take(chars@.len() as int) =~= chars@);
    s
}

/// Each character of `s` replaced by the first character of its lowercase
/// mapping.
pub open spec fn lower_each(s: Seq<char>) -> Seq<char> {
    Seq::new(s.len(), |i: int| char_lower(s[i]))
}

/// `a` and `b` agree on their first `n` characters once each is lowercased.
pub open spec fn lower_agree(a: Seq<char>, b: Seq<char>, n: int) -> bool {
    forall|i: int| 0 <= i < n ==> #[trigger] char_lower(a[i]) == char_lower(b[i])
}

/// Case insensitive equality of two strings: same length, and the same
/// character at each place once both are lowercased.
pub open spec fn eq_no_case(a: Seq<char>, b: Seq<char>) -> bool {
    a.len() == b.len() && lower_agree(a, b, a.len() as int)
}

/// `low` is already lowercased, and equals `b` once `b` is lowercased.
pub open spec fn matches_lowered(low: Seq<char>, b: Seq<char>) -> bool {
    low.len() == b.len() && forall|i: int| 0 <= i < b.len() ==> low[i] == #[trigger] char_lower(b[i])
}

/// A lowered string matches `b` exactly when it is `b` lowercased.
pub proof fn lemma_matches_lowered_is_lower_each(low: Seq<char>, b: Seq<char>)
    ensures
        matches_lowered(low, b) <==> low == lower_each(b),
{
    if matches_lowered(low, b) {
        assert(low =~= lower_each(b));
    }
}

/// Two strings lowercase to the same characters exactly when they are
/// equal regardless of case.
pub proof fn lemma_lower_each_eq_no_case(s: Seq<char>, t: Seq<char>)
    ensures
        lower_each(s) == lower_each(t) <==> eq_no_case(s, t),
{
    if lower_each(s) == lower_each(t) {
        assert(lower_each(s).len() == s.len() && lower_each(t).len() == t.len());
        assert forall|i: int| 0 <= i < s.len() implies #[trigger] char_lower(s[i]) == char_lower(t[i]) by {
            assert(lower_each(s)[i] == char_lower(s[i]));
            assert(lower_each(t)[i] == char_lower(t[i]));
            assert(lower_each(s)[i] == lower_each(t)[i]);
        }
    }
    if eq_no_case(s, t) {
        assert(lower_each(s) =~= lower_each(t));
    }
}

/// Case insensitive equality is reflexive.
pub proof fn lemma_eq_no_case_reflexive(a: Seq<char>)
    ensures
        eq_no_case(a, a),
{
}

/// Case insensitive equality is symmetric.
pub proof fn lemma_eq_no_case_symmetric(a: Seq<char>, b: Seq<char>)
    requires
        eq_no_case(a, b),
    ensures
        eq_no_case(b, a),
{
}

/// Case insensitive equality is transitive.
pub proof fn lemma_eq_no_case_transitive(a: Seq<char>, b: Seq<char>, c: Seq<char>)
    requires
        eq_no_case(a, b),
        eq_no_case(b, c),
    ensures
        eq_no_case(a, c),
{
    assert forall|i: int| 0 <= i < a.len() implies #[trigger] char_lower(a[i]) == char_lower(c[i]) by {
        assert(char_lower(a[i]) == char_lower(b[i]));
        assert(char_lower(b[i]) == char_lower(c[i]));
    }
}

/// Strings that are equal are equal regardless of case.
pub proof fn lemma_eq_implies_eq_no_case(a: Seq<char>, b: Seq<char>)
    requires
        a == b,
    ensures
        eq_no_case(a, b),
{
}

/// A lowered copy of `s` matches every string that equals `s` regardless of case.
pub proof fn lemma_lower_each_matches(s: Seq<char>, t: Seq<char>)
    ensures
        matches_lowered(lower_each(s), t) <==> eq_no_case(s, t),
{
    if eq_no_case(s, t) {
        assert forall|i: int| 0 <= i < t.len() implies lower_each(s)[i] == #[trigger] char_lower(t[i]) by {
            assert(char_lower(s[i]) == char_lower(t[i]));
        }
    }
    if matches_lowered(lower_each(s), t) {
        assert forall|i: int| 0 <= i < s.len() implies #[trigger] char_lower(s[i]) == char_lower(t[i]) by {
            assert(lower_each(s)[i] == char_lower(t[i]));
        }
    }
}

} // verus!

use vstd::prelude::*;
use crate::cape_text::string_of;

verus! {

broadcast use vstd::string::group_string_axioms;

/// The character of a decimal digit.
pub open spec fn digit_char(d: int) -> char {
    if d == 0 { '0' }
    else if d == 1 { '1' }
    else if d == 2 { '2' }
    else if d == 3 { '3' }
    else if d == 4 { '4' }
    else if d == 5 { '5' }
    else if d == 6 { '6' }
    else if d == 7 { '7' }
    else if d == 8 { '8' }
    else { '9' }
}

/// The decimal representation of a number, without leading zeros.
pub open spec fn decimal(n: nat) -> Seq<char>
    decreases n,
{
    if n < 10 {
        seq![digit_char(n as int)]
    } else {
        decimal(n / 10).push(digit_char((n % 10) as int))
    }
}

/// The decimal representation of an integer: a minus sign before the
/// digits of a negative one.
pub open spec fn int_text(i: int) -> Seq<char> {
    if i < 0 {
        seq!['-'] + decimal((-i) as nat)
    } else {
        decimal(i as nat)
    }
}

/// Appends the decimal representation of `n`.
pub fn push_decimal(n: u64, out: &mut Vec<char>)
    ensures
        final(out)@ == old(out)@ + decimal(n as nat),
    decreases n,
{
    if n >= 10 {
        push_decimal(n / 10, out);
    }
    let d = n % 10;
    let c = if d == 0 { '0' }
        else if d == 1 { '1' }
        else if d == 2 { '2' }
        else if d == 3 { '3' }
        else if d == 4 { '4' }
        else if d == 5 { '5' }
        else if d == 6 { '6' }
        else if d == 7 { '7' }
        else if d == 8 { '8' }
        else { '9' };
    out.push(c);
    assert(out@ =~= old(out)@ + decimal(n as nat));
}

/// Appends the decimal representation of `i`.
pub fn push_int(i: i64, out: &mut Vec<char>)
    ensures
        final(out)@ == old(out)@ + int_text(i as int),
{
    if i < 0 {
        out.push('-');
        let m: u64 = if i == i64::MIN { 9223372036854775808u64 } else { (-i) as u64 };
        push_decimal(m, out);
        assert(out@ =~= old(out)@ + int_text(i as int));
    } else {
        push_decimal(i as u64, out);
    }
}

/// Items separated by a comma and a space.
pub open spec fn joined(items: Seq<Seq<char>>) -> Seq<char>
    decreases items.len(),
{
    if items.len() == 0 {
        Seq::empty()
    } else if items.len() == 1 {
        items[0]
    } else {
        joined(items.drop_last()) + ", "@ + items.last()
    }
}

/// Items separated by a comma and a space, between square brackets: how
/// arrays are displayed.
pub open spec fn bracketed(items: Seq<Seq<char>>) -> Seq<char> {
    "["@ + joined(items) + "]"@
}

/// The characters of each item.
pub open spec fn item_views(items: Seq<Vec<char>>) -> Seq<Seq<char>> {
    items.map_values(|v: Vec<char>| v@)
}

/// Appends the characters of a string slice.
pub fn push_str(out: &mut Vec<char>, s: &str)
    ensures
        final(out)@ == old(out)@ + s@,
{
    for c in it: s.chars()
        invariant
            out@ == old(out)@ + it.history(),
            it.seq() == s@,
    {
        out.push(c);
    }
    assert(out@ =~= old(out)@ + s@);
}

/// Items separated by a comma and a space, between square brackets.
pub fn bracket_join(items: &Vec<Vec<char>>) -> (r: String)
    ensures
        r@ == bracketed(item_views(items@)),
{
    let ghost views = item_views(items@);
    let mut out: Vec<char> = Vec::new();
    push_str(&mut out, "[");
    let mut i: usize = 0;
    while i < items.len()
        invariant
            0 <= i <= items@.len(),
            views == item_views(items@),
            out@ == "["@ + joined(views.take(i as int)),
        decreases items@.len() - i,
    {
        let ghost before = out@;
        if i > 0 {
            push_str(&mut out, ", ");
        }
        let item = &items[i];
        let mut j: usize = 0;
        while j < item.len()
            invariant
                0 <= j <= item@.len(),
                out@ == before + (if i > 0 { ", "@ } else { Seq::empty() }) + item@.take(j as int),
            decreases item@.len() - j,
        {
            out.push(item[j]);
            j = j + 1;
            assert(item@.take(j as int) =~= item@.take(j as int - 1).push(item@[j as int - 1]));
        }
        assert(item@.take(item@.len() as int) =~= item@);
        proof {
            assert(views[i as int] == item@);
            assert(views.take(i + 1).drop_last() =~= views.take(i as int));
            assert(out@ =~= "["@ + joined(views.take(i + 1)));
        }
        i = i + 1;
    }
    assert(views.take(items@.len() as int) =~= views);
    push_str(&mut out, "]");
    string_of(out.as_slice())
}

/// The decimal text of each integer.
pub open spec fn int_texts_i32(s: Seq<i32>) -> Seq<Seq<char>> {
    s.map_values(|x: i32| int_text(x as int))
}

/// The decimal text of each byte.
pub open spec fn int_texts_u8(s: Seq<u8>) -> Seq<Seq<char>> {
    s.map_values(|x: u8| int_text(x as int))
}

/// The decimal text of each unsigned integer.
pub open spec fn int_texts_u32(s: Seq<u32>) -> Seq<Seq<char>> {
    s.map_values(|x: u32| int_text(x as int))
}

/// Displays integers as an array: `[1, -2, 3]`.
pub fn display_i32(s: &[i32]) -> (r: String)
    ensures
        r@ == bracketed(int_texts_i32(s@)),
{
    let mut items: Vec<Vec<char>> = Vec::new();
    let mut i: usize = 0;
    while i < s.len()
        invariant
            0 <= i <= s@.len(),
            items@.len() == i,
            forall|j: int| 0 <= j < i ==> #[trigger] items@[j]@ == int_text(s@[j] as int),
        decreases s@.len() - i,
    {
        let mut t: Vec<char> = Vec::new();
        push_int(s[i] as i64, &mut t);
        items.push(t);
        i = i + 1;
    }
    assert(item_views(items@) =~= int_texts_i32(s@));
    bracket_join(&items)
}

/// Displays bytes as an array of numbers: `[1, 255]`.
pub fn display_u8(s: &[u8]) -> (r: String)
    ensures
        r@ == bracketed(int_texts_u8(s@)),
{
    let mut items: Vec<Vec<char>> = Vec::new();
    let mut i: usize = 0;
    while i < s.len()
        invariant
            0 <= i <= s@.len(),
            items@.len() == i,
            forall|j: int| 0 <= j < i ==> #[trigger] items@[j]@ == int_text(s@[j] as int),
        decreases s@.len() - i,
    {
        let mut t: Vec<char> = Vec::new();
        push_int(s[i] as i64, &mut t);
        items.push(t);
        i = i + 1;
    }
    assert(item_views(items@) =~= int_texts_u8(s@));
    bracket_join(&items)
}

/// Displays unsigned integers as an array: `[0, 1]`.
pub fn display_u32(s: &[u32]) -> (r: String)
    ensures
        r@ == bracketed(int_texts_u32(s@)),
{
    let mut items: Vec<Vec<char>> = Vec::new();
    let mut i: usize = 0;
    while i < s.len()
        invariant
            0 <= i <= s@.len(),
            items@.len() == i,
            forall|j: int| 0 <= j < i ==> #[trigger] items@[j]@ == int_text(s@[j] as int),
        decreases s@.len() - i,
    {
        let mut t: Vec<char> = Vec::new();
        push_int(s[i] as i64, &mut t);
        items.push(t);
        i = i + 1;
    }
    assert(item_views(items@) =~= int_texts_u32(s@));
    bracket_join(&items)
}

/// A string between double quotes.
pub open spec fn quoted(s: Seq<char>) -> Seq<char> {
    seq!['"'] + s + seq!['"']
}

/// Each string between double quotes.
pub open spec fn quoted_all(s: Seq<Seq<char>>) -> Seq<Seq<char>> {
    s.map_values(|x: Seq<char>| quoted(x))
}

/// The number a sequence of decimal digits stands for, most significant
/// digit first.
pub open spec fn digits_value(s: Seq<char>) -> int
    decreases s.len(),
{
    if s.len() == 0 {
        0
    } else {
        digits_value(s.drop_last()) * 10 + ((s.last() as int) - ('0' as int))
    }
}

/// A digit character stands for its digit.
proof fn lemma_digit_char_value(d: int)
    requires
        0 <= d < 10,
    ensures
        (digit_char(d) as int) - ('0' as int) == d,
        '0' <= digit_char(d) <= '9',
{
}

/// The decimal text of a number is made of digits, reads back as that
/// number, and has no leading zero (only zero itself starts with `0`).
pub proof fn law_decimal_reads_back(n: nat)
    ensures
        decimal(n).len() >= 1,
        forall|i: int| 0 <= i < decimal(n).len() ==> '0' <= #[trigger] decimal(n)[i] <= '9',
        digits_value(decimal(n)) == n,
        decimal(n)[0] == '0' ==> n == 0,
    decreases n,
{
    if n < 10 {
        lemma_digit_char_value(n as int);
        let d = decimal(n);
        assert(d.drop_last() =~= Seq::<char>::empty());
        assert(d.last() == digit_char(n as int));
        assert(digits_value(d) == digits_value(d.drop_last()) * 10 + ((d.last() as int) - ('0' as int)));
    } else {
        law_decimal_reads_back(n / 10);
        lemma_digit_char_value((n % 10) as int);
        let d = decimal(n);
        assert(d.drop_last() =~= decimal(n / 10));
        assert(d[0] == decimal(n / 10)[0]);
        assert forall|i: int| 0 <= i < d.len() implies '0' <= #[trigger] d[i] <= '9' by {
            if i < d.len() - 1 {
                assert(d[i] == decimal(n / 10)[i]);
            }
        }
        assert(d.last() == digit_char((n % 10) as int));
        assert(digits_value(d) == digits_value(d.drop_last()) * 10 + ((d.last() as int) - ('0' as int)));
        assert(n == (n / 10) * 10 + n % 10);
    }
}

/// The text of an integer: the decimal text of its magnitude, after a minus
/// sign when it is negative.
pub proof fn law_int_text(i: int)
    ensures
        int_text(i).len() >= 1,
        i >= 0 ==> digits_value(int_text(i)) == i,
        i < 0 ==> int_text(i)[0] == '-' && digits_value(int_text(i).skip(1)) == -i,
        i >= 0 ==> '0' <= int_text(i)[0] <= '9',
{
    if i < 0 {
        law_decimal_reads_back((-i) as nat);
        assert(int_text(i).skip(1) =~= decimal((-i) as nat));
    } else {
        law_decimal_reads_back(i as nat);
    }
}

} // verus!

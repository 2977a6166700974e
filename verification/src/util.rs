//! Small helpers for copying owned data.
use vstd::prelude::*;

verus! {

/// Copy a vector of plain values.
pub fn copy_vec<T: Copy>(v: &Vec<T>) -> (copy: Vec<T>)
    ensures
        copy@ == v@,
{
    let mut copy: Vec<T> = Vec::new();
    let mut i: usize = 0;
    while i < v.len()
        invariant
            i <= v.len(),
            copy@ == v@.subrange(0, i as int),
        decreases v.len() - i,
    {
        copy.push(v[i]);
        i += 1;
    }
    copy
}

/// The character sequences of a list of strings.
pub open spec fn string_views(v: Seq<String>) -> Seq<Seq<char>> {
    v.map_values(|s: String| s@)
}

/// The byte sequences of a list of byte vectors.
pub open spec fn bytes_views(v: Seq<Vec<u8>>) -> Seq<Seq<u8>> {
    v.map_values(|b: Vec<u8>| b@)
}

/// The texts of a list of strings are the strings' own texts, one for one and
/// in their order, and so are the bytes of a list of byte vectors.
pub proof fn lemma_views_in_order(s: Seq<String>, b: Seq<Vec<u8>>)
    ensures
        string_views(s).len() == s.len(),
        forall|i: int| 0 <= i < s.len() ==> #[trigger] string_views(s)[i] == s[i]@,
        bytes_views(b).len() == b.len(),
        forall|i: int| 0 <= i < b.len() ==> #[trigger] bytes_views(b)[i] == b[i]@,
{
}

/// Copy a vector of strings.
pub fn copy_strings(v: &Vec<String>) -> (copy: Vec<String>)
    ensures
        copy@ == v@,
{
    let mut copy: Vec<String> = Vec::new();
    let mut i: usize = 0;
    while i < v.len()
        invariant
            i <= v.len(),
            copy@ == v@.subrange(0, i as int),
        decreases v.len() - i,
    {
        copy.push(v[i].clone());
        i += 1;
    }
    copy
}

/// Copy a vector of byte vectors.
pub fn copy_byte_vecs(v: &Vec<Vec<u8>>) -> (copy: Vec<Vec<u8>>)
    ensures
        bytes_views(copy@) == bytes_views(v@),
        copy.len() == v.len(),
{
    let mut copy: Vec<Vec<u8>> = Vec::new();
    let mut i: usize = 0;
    while i < v.len()
        invariant
            i <= v.len(),
            copy.len() == i,
            forall|j: int| 0 <= j < i ==> #[trigger] copy@[j]@ == v@[j]@,
        decreases v.len() - i,
    {
        copy.push(copy_vec(&v[i]));
        i += 1;
    }
    assert(bytes_views(copy@) =~= bytes_views(v@));
    copy
}

/// Owned strings made from a list of string slices.
pub fn strs_to_strings(v: &[&str]) -> (strings: Vec<String>)
    ensures
        strings.len() == v@.len(),
        forall|j: int| 0 <= j < v@.len() ==> #[trigger] strings@[j]@ == v@[j]@,
{
    let mut strings: Vec<String> = Vec::new();
    let mut i: usize = 0;
    while i < v.len()
        invariant
            i <= v@.len(),
            strings.len() == i,
            forall|j: int| 0 <= j < i ==> #[trigger] strings@[j]@ == v@[j]@,
        decreases v@.len() - i,
    {
        strings.push(v[i].to_owned());
        i += 1;
    }
    strings
}

/// Owned byte vectors made from a list of byte slices.
pub fn slices_to_vecs(v: &[&[u8]]) -> (vecs: Vec<Vec<u8>>)
    ensures
        vecs.len() == v@.len(),
        forall|j: int| 0 <= j < v@.len() ==> #[trigger] vecs@[j]@ == v@[j]@,
{
    let mut vecs: Vec<Vec<u8>> = Vec::new();
    let mut i: usize = 0;
    while i < v.len()
        invariant
            i <= v@.len(),
            vecs.len() == i,
            forall|j: int| 0 <= j < i ==> #[trigger] vecs@[j]@ == v@[j]@,
        decreases v@.len() - i,
    {
        vecs.push(vstd::slice::slice_to_vec(v[i]));
        i += 1;
    }
    vecs
}

} // verus!

verus! {

/// The character of a decimal digit.
pub open spec fn digit_char(d: nat) -> char {
    (d + 48) as char
}

/// The decimal representation of a number, without sign or leading zeros.
pub open spec fn decimal(n: nat) -> Seq<char>
    decreases n,
{
    if n < 10 {
        seq![digit_char(n)]
    } else {
        decimal(n / 10).push(digit_char(n % 10))
    }
}

/// The text of a decimal digit.
fn digit_text(d: u128) -> (t: &'static str)
    requires
        d < 10,
    ensures
        t@ == seq![digit_char(d as nat)],
{
    proof {
        reveal_strlit("0");
        reveal_strlit("1");
        reveal_strlit("2");
        reveal_strlit("3");
        reveal_strlit("4");
        reveal_strlit("5");
        reveal_strlit("6");
        reveal_strlit("7");
        reveal_strlit("8");
        reveal_strlit("9");
    }
    if d == 0 {
        "0"
    } else if d == 1 {
        "1"
    } else if d == 2 {
        "2"
    } else if d == 3 {
        "3"
    } else if d == 4 {
        "4"
    } else if d == 5 {
        "5"
    } else if d == 6 {
        "6"
    } else if d == 7 {
        "7"
    } else if d == 8 {
        "8"
    } else {
        "9"
    }
}

/// Append the decimal representation of `n` to `s`.
fn append_decimal(s: &mut String, n: u128)
    ensures
        final(s)@ == old(s)@ + decimal(n as nat),
    decreases n,
{
    if n >= 10 {
        append_decimal(s, n / 10);
    }
    s.append(digit_text(n % 10));
    proof {
        if n >= 10 {
            assert(decimal(n as nat) == decimal((n / 10) as nat).push(digit_char((n % 10) as nat)));
        }
    }
    assert(s@ =~= old(s)@ + decimal(n as nat));
}

/// The decimal representation of a number, as the `Display` of `u128` writes it.
pub(crate) fn u128_to_decimal(n: u128) -> (s: String)
    ensures
        s@ == decimal(n as nat),
{
    let mut s = String::new();
    append_decimal(&mut s, n);
    proof {
        assert(s@ =~= decimal(n as nat));
    }
    s
}

/// What `Debug` writes for a string: the string in double quotes, with some
/// characters escaped.
pub uninterp spec fn str_debug(s: Seq<char>) -> Seq<char>;

/// Whether every character of `s` is printable ASCII other than a double
/// quote or a backslash; `Debug` writes such characters as they are.
pub open spec fn plain_ascii(s: Seq<char>) -> bool {
    forall|i: int|
        0 <= i < s.len() ==> 0x20 <= (#[trigger] s[i]) as int <= 0x7e && s[i] != '"' && s[i] != '\\'
}

/// The text that `Debug` writes for a string (`format!("{:?}", s)`).
///
/// Only the result for strings of plain printable ASCII is stated: the string
/// between double quotes. The escapes of other characters are left unsaid.
#[verifier::external_body]
pub(crate) fn debug_str(s: &str) -> (r: String)
    ensures
        r@ == str_debug(s@),
        plain_ascii(s@) ==> r@ == seq!['"'] + s@ + seq!['"'],
{
    format!("{:?}", s)
}

/// The digits are written with the characters `0` to `9`, in that order, and
/// the representation of a number of one digit is that digit alone.
pub proof fn lemma_digit_chars(n: nat)
    ensures
        digit_char(0) == '0',
        digit_char(1) == '1',
        digit_char(2) == '2',
        digit_char(3) == '3',
        digit_char(4) == '4',
        digit_char(5) == '5',
        digit_char(6) == '6',
        digit_char(7) == '7',
        digit_char(8) == '8',
        digit_char(9) == '9',
        n < 10 ==> decimal(n) == seq![digit_char(n)],
{
}

/// A decimal representation is never empty.
pub proof fn lemma_decimal_nonempty(n: nat)
    ensures
        decimal(n).len() > 0,
    decreases n,
{
    if n >= 10 {
        lemma_decimal_nonempty(n / 10);
    }
}

/// Different numbers have different decimal representations.
pub proof fn lemma_decimal_injective(a: nat, b: nat)
    requires
        decimal(a) == decimal(b),
    ensures
        a == b,
    decreases a,
{
    lemma_decimal_nonempty(a);
    lemma_decimal_nonempty(b);
    if a < 10 && b < 10 {
        assert(decimal(a)[0] == digit_char(a));
        assert(decimal(b)[0] == digit_char(b));
    } else if a < 10 {
        lemma_decimal_nonempty(b / 10);
        assert(decimal(b).len() >= 2);
    } else if b < 10 {
        lemma_decimal_nonempty(a / 10);
        assert(decimal(a).len() >= 2);
    } else {
        let da = decimal(a);
        let db = decimal(b);
        assert(da.last() == digit_char(a % 10));
        assert(db.last() == digit_char(b % 10));
        assert(da.drop_last() =~= decimal(a / 10));
        assert(db.drop_last() =~= decimal(b / 10));
        lemma_decimal_injective(a / 10, b / 10);
    }
}

} // verus!

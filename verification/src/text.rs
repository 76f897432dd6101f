//! Small operations on text that the rest of the library states its results
//! with: comparison, prefixes, decimal numbers, and joining by a separator.

use vstd::prelude::*;

verus! {

/// What `str::trim` returns for a text: the text without the white space
/// at its two ends, by the standard library's notion of white space.
pub uninterp spec fn text_trim(s: Seq<char>) -> Seq<char>;

/// What `str::to_lowercase` returns for a text: its characters in lower
/// case, by the standard library's tables.
pub uninterp spec fn text_lowercase(s: Seq<char>) -> Seq<char>;

/// What `format!` with `{:?}` writes for a list of strings: the items quoted
/// and escaped, in order, between square brackets.
pub uninterp spec fn text_debug_list(items: Seq<Seq<char>>) -> Seq<char>;

/// Calls `str::trim`. Taken on trust: the result is what `text_trim` names
/// for the argument. Nothing else is claimed of it.
#[verifier::external_body]
pub(crate) fn trim(s: &str) -> (r: &str)
    ensures
        r@ == text_trim(s@),
{
    s.trim()
}

/// Calls `str::to_lowercase`. Taken on trust: the result is what
/// `text_lowercase` names for the argument. Nothing else is claimed of it.
#[verifier::external_body]
pub(crate) fn to_lowercase(s: &str) -> (r: String)
    ensures
        r@ == text_lowercase(s@),
{
    s.to_lowercase()
}

/// Formats a list of strings with `format!` and `{:?}`. Taken on trust: the
/// result is what `text_debug_list` names for the items' texts. Nothing else
/// is claimed of it.
#[verifier::external_body]
pub(crate) fn debug_list(items: &Vec<String>) -> (r: String)
    ensures
        r@ == text_debug_list(Seq::new(items@.len(), |i: int| items@[i]@)),
{
    format!("{:?}", items)
}

/// Whether two texts are the same.
pub fn str_eq(a: &str, b: &str) -> (r: bool)
    ensures
        r == (a@ == b@),
{
    let x = String::from_str(a);
    let y = String::from_str(b);
    x == y
}

/// Whether `s` begins with `prefix`.
pub fn starts_with(s: &str, prefix: &str) -> (r: bool)
    ensures
        r == prefix@.is_prefix_of(s@),
{
    let n = prefix.unicode_len();
    if s.unicode_len() < n {
        return false;
    }
    let mut i: usize = 0;
    while i < n
        invariant
            i <= n,
            n == prefix@.len(),
            n <= s@.len(),
            forall|j: int| 0 <= j < i ==> s@[j] == prefix@[j],
        decreases n - i,
    {
        if s.get_char(i) != prefix.get_char(i) {
            assert(s@.subrange(0, n as int)[i as int] != prefix@[i as int]);
            return false;
        }
        i += 1;
    }
    assert(s@.subrange(0, n as int) =~= prefix@);
    true
}

/// The character of a decimal digit.
pub open spec fn digit_char(d: nat) -> char
    recommends
        d < 10,
{
    if d == 0 {
        '0'
    } else if d == 1 {
        '1'
    } else if d == 2 {
        '2'
    } else if d == 3 {
        '3'
    } else if d == 4 {
        '4'
    } else if d == 5 {
        '5'
    } else if d == 6 {
        '6'
    } else if d == 7 {
        '7'
    } else if d == 8 {
        '8'
    } else {
        '9'
    }
}

/// A number written in decimal, without leading zeros.
pub open spec fn spec_decimal(n: nat) -> Seq<char>
    decreases n,
{
    if n < 10 {
        seq![digit_char(n)]
    } else {
        spec_decimal(n / 10).push(digit_char(n % 10))
    }
}

fn digit(d: u64) -> (c: &'static str)
    requires
        d < 10,
    ensures
        c@ == seq![digit_char(d as nat)],
{
    proof {
        reveal_strlit("0");
        reveal_strlit("1");
        reveal_strlit("2");
        reveal_strlit("3");
        reveal_strlit("4");
        reveal_strlit("5");
        reveal_strlit("6");
        reveal_strlit("7");
        reveal_strlit("8");
        reveal_strlit("9");
    }
    let c = if d == 0 {
        "0"
    } else if d == 1 {
        "1"
    } else if d == 2 {
        "2"
    } else if d == 3 {
        "3"
    } else if d == 4 {
        "4"
    } else if d == 5 {
        "5"
    } else if d == 6 {
        "6"
    } else if d == 7 {
        "7"
    } else if d == 8 {
        "8"
    } else {
        "9"
    };
    assert(c@ =~= seq![digit_char(d as nat)]);
    c
}

/// Writes a number in decimal.
pub fn decimal(n: u64) -> (r: String)
    ensures
        r@ == spec_decimal(n as nat),
    decreases n,
{
    if n < 10 {
        String::from_str(digit(n))
    } else {
        let mut r = decimal(n / 10);
        r.append(digit(n % 10));
        assert(r@ =~= spec_decimal((n / 10) as nat).push(digit_char((n % 10) as nat)));
        r
    }
}

/// The views of a list of string slices.
pub open spec fn views(parts: Seq<&str>) -> Seq<Seq<char>> {
    Seq::new(parts.len(), |i: int| parts[i]@)
}

/// The first `n` of `parts`, with `sep` between each two.
pub open spec fn spec_join(parts: Seq<Seq<char>>, sep: Seq<char>, n: nat) -> Seq<char>
    recommends
        n <= parts.len(),
    decreases n,
{
    if n == 0 {
        Seq::empty()
    } else if n == 1 {
        parts[0]
    } else {
        spec_join(parts, sep, (n - 1) as nat) + sep + parts[n - 1]
    }
}

/// Joins texts with a separator between each two.
pub fn join(parts: &Vec<&str>, sep: &str) -> (r: String)
    ensures
        r@ == spec_join(views(parts@), sep@, parts@.len()),
{
    let mut r = String::new();
    let mut i: usize = 0;
    while i < parts.len()
        invariant
            i <= parts.len(),
            r@ == spec_join(views(parts@), sep@, i as nat),
        decreases parts.len() - i,
    {
        if i > 0 {
            r.append(sep);
        }
        r.append(parts[i]);
        proof {
            assert(views(parts@)[i as int] == parts@[i as int]@);
            if i == 0 {
                assert(r@ =~= views(parts@)[0]);
            }
        }
        i += 1;
    }
    r
}

} // verus!

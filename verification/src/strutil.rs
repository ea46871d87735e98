//! Verified helpers over `&str` and `String`: equality, prefixes,
//! substring search, and decimal formatting/parsing. All contracts are
//! stated over the `Seq<char>` views.

use vstd::prelude::*;
use vstd::string::StrSliceExecFns;
use vstd::string::StringExecFns;

verus! {

/// Relies on `String::push` from std, which vstd leaves unspecified:
/// it appends exactly the one character to the end of the string.
pub assume_specification[ String::push ](s: &mut String, c: char)
    ensures
        final(s)@ == old(s)@.push(c),
;

/// The view of optional text.
pub open spec fn opt_str_view(o: Option<String>) -> Option<Seq<char>> {
    match o {
        Some(s) => Some(s@),
        None => None,
    }
}

/// The needle `n` occurs in `s` starting at position `i`.
pub open spec fn has_substring_at(s: Seq<char>, n: Seq<char>, i: int) -> bool {
    0 <= i && i + n.len() <= s.len() && s.subrange(i, i + n.len() as int) == n
}

/// The needle `n` occurs somewhere in `s`.
pub open spec fn has_substring(s: Seq<char>, n: Seq<char>) -> bool {
    exists|i: int| has_substring_at(s, n, i)
}

pub fn str_eq(a: &str, b: &str) -> (r: bool)
    ensures
        r == (a@ == b@),
{
    let alen = a.unicode_len();
    let blen = b.unicode_len();
    if alen != blen {
        return false;
    }
    let mut i: usize = 0;
    while i < alen
        invariant
            alen == a@.len(),
            blen == b@.len(),
            alen == blen,
            i <= alen,
            forall|k: int| 0 <= k < i ==> a@[k] == b@[k],
        decreases alen - i,
    {
        if a.get_char(i) != b.get_char(i) {
            return false;
        }
        i = i + 1;
    }
    proof {
        assert(a@ =~= b@);
    }
    true
}

pub fn string_eq(a: &String, b: &str) -> (r: bool)
    ensures
        r == (a@ == b@),
{
    str_eq(a.as_str(), b)
}

pub fn str_starts_with(s: &str, p: &str) -> (r: bool)
    ensures
        r == p@.is_prefix_of(s@),
{
    let slen = s.unicode_len();
    let plen = p.unicode_len();
    if plen > slen {
        return false;
    }
    let mut i: usize = 0;
    while i < plen
        invariant
            slen == s@.len(),
            plen == p@.len(),
            plen <= slen,
            i <= plen,
            forall|k: int| 0 <= k < i ==> s@[k] == p@[k],
        decreases plen - i,
    {
        if s.get_char(i) != p.get_char(i) {
            assert(s@.subrange(0, p@.len() as int)[i as int] != p@[i as int]);
            return false;
        }
        i = i + 1;
    }
    proof {
        assert(s@.subrange(0, p@.len() as int) =~= p@);
    }
    true
}

pub fn str_strip_prefix<'a>(s: &'a str, p: &str) -> (r: Option<&'a str>)
    ensures
        r is Some <==> p@.is_prefix_of(s@),
        r matches Some(t) ==> s@ == p@ + t@,
{
    if str_starts_with(s, p) {
        let rest = s.substring_char(p.unicode_len(), s.unicode_len());
        proof {
            assert(s@ =~= p@ + rest@);
        }
        Some(rest)
    } else {
        None
    }
}

pub fn str_contains(s: &str, n: &str) -> (r: bool)
    ensures
        r == has_substring(s@, n@),
{
    let slen = s.unicode_len();
    let nlen = n.unicode_len();
    if nlen > slen {
        proof {
            assert(forall|i: int| !has_substring_at(s@, n@, i));
        }
        return false;
    }
    if nlen == 0 {
        proof {
            assert(s@.subrange(0, 0) =~= n@);
            assert(has_substring_at(s@, n@, 0));
        }
        return true;
    }
    let mut i: usize = 0;
    while i <= slen - nlen
        invariant
            slen == s@.len(),
            nlen == n@.len(),
            0 < nlen <= slen,
            i <= slen - nlen + 1,
            forall|k: int| 0 <= k < i ==> !has_substring_at(s@, n@, k),
        decreases slen - nlen + 1 - i,
    {
        let piece = s.substring_char(i, i + nlen);
        if str_eq(piece, n) {
            proof {
                assert(has_substring_at(s@, n@, i as int));
            }
            return true;
        }
        i = i + 1;
    }
    proof {
        assert(forall|k: int| has_substring_at(s@, n@, k) ==> 0 <= k <= slen - nlen);
    }
    false
}

/// The character for one decimal digit.
pub open spec fn dec_digit(d: nat) -> char {
    if d == 0 {
        '0'
    } else if d == 1 {
        '1'
    } else if d == 2 {
        '2'
    } else if d == 3 {
        '3'
    } else if d == 4 {
        '4'
    } else if d == 5 {
        '5'
    } else if d == 6 {
        '6'
    } else if d == 7 {
        '7'
    } else if d == 8 {
        '8'
    } else {
        '9'
    }
}

/// The decimal representation of `n`, most significant digit first.
pub open spec fn dec_rep(n: nat) -> Seq<char>
    decreases n,
{
    if n < 10 {
        seq![dec_digit(n)]
    } else {
        dec_rep(n / 10).push(dec_digit(n % 10))
    }
}

pub fn u64_to_string(n: u64) -> (r: String)
    ensures
        r@ == dec_rep(n as nat),
    decreases n,
{
    let digits = "0123456789";
    proof {
        reveal_strlit("0123456789");
    }
    let d = (n % 10) as usize;
    let digit = digits.substring_char(d, d + 1);
    proof {
        assert(digit@ =~= seq![dec_digit((n % 10) as nat)]);
    }
    if n < 10 {
        String::from_str(digit)
    } else {
        let mut prefix = u64_to_string(n / 10);
        prefix.append(digit);
        proof {
            assert(prefix@ =~= dec_rep(n as nat));
        }
        prefix
    }
}

pub open spec fn is_dec_digit(c: char) -> bool {
    48 <= c as u32 <= 57
}

pub open spec fn dec_digit_val(c: char) -> nat {
    (c as u32 - 48) as nat
}

pub open spec fn all_dec_digits(s: Seq<char>) -> bool {
    forall|i: int| 0 <= i < s.len() ==> is_dec_digit(s[i])
}

/// The numeric value of a digit string, read in base ten.
pub open spec fn dec_value(s: Seq<char>) -> nat
    decreases s.len(),
{
    if s.len() == 0 {
        0
    } else {
        dec_value(s.drop_last()) * 10 + dec_digit_val(s.last())
    }
}

proof fn lemma_dec_value_take_step(s: Seq<char>, i: int)
    requires
        0 <= i < s.len(),
    ensures
        dec_value(s.take(i + 1)) == dec_value(s.take(i)) * 10 + dec_digit_val(s[i]),
{
    assert(s.take(i + 1).drop_last() =~= s.take(i));
    assert(s.take(i + 1).last() == s[i]);
}

proof fn lemma_dec_value_grows(s: Seq<char>, i: int)
    requires
        0 <= i <= s.len(),
    ensures
        dec_value(s.take(i)) <= dec_value(s),
    decreases s.len() - i,
{
    if i == s.len() {
        assert(s.take(i) =~= s);
    } else {
        lemma_dec_value_take_step(s, i);
        lemma_dec_value_grows(s, i + 1);
    }
}

pub fn parse_u64(s: &str) -> (r: Option<u64>)
    ensures
        r is Some <==> (s@.len() > 0 && all_dec_digits(s@) && dec_value(s@) <= u64::MAX),
        r matches Some(v) ==> v == dec_value(s@),
{
    let len = s.unicode_len();
    if len == 0 {
        return None;
    }
    let mut acc: u64 = 0;
    let mut i: usize = 0;
    while i < len
        invariant
            len == s@.len(),
            i <= len,
            forall|k: int| 0 <= k < i ==> is_dec_digit(s@[k]),
            acc == dec_value(s@.take(i as int)),
        decreases len - i,
    {
        let c = s.get_char(i);
        let cu = c as u32;
        if cu < 48 || cu > 57 {
            return None;
        }
        let d = (cu - 48) as u64;
        proof {
            lemma_dec_value_take_step(s@, i as int);
        }
        if acc > (u64::MAX - d) / 10 {
            proof {
                lemma_dec_value_grows(s@, i + 1);
            }
            return None;
        }
        acc = acc * 10 + d;
        i = i + 1;
    }
    proof {
        assert(s@.take(len as int) =~= s@);
    }
    Some(acc)
}

/// Index of the first occurrence of `sep` in `s`, or -1 when absent.
pub open spec fn find_char(s: Seq<char>, sep: char) -> int
    decreases s.len(),
{
    if s.len() == 0 {
        -1
    } else if s[0] == sep {
        0
    } else {
        if find_char(s.skip(1), sep) < 0 {
            -1
        } else {
            find_char(s.skip(1), sep) + 1
        }
    }
}

pub proof fn lemma_find_char_props(s: Seq<char>, sep: char)
    ensures
        -1 <= find_char(s, sep) < s.len(),
        find_char(s, sep) >= 0 ==> s[find_char(s, sep)] == sep,
        forall|k: int|
            0 <= k < s.len() && (find_char(s, sep) == -1 || k < find_char(s, sep)) ==> s[k] != sep,
    decreases s.len(),
{
    if s.len() > 0 && s[0] != sep {
        lemma_find_char_props(s.skip(1), sep);
        assert(forall|k: int|
            1 <= k < s.len() && (find_char(s, sep) == -1 || k < find_char(s, sep))
                ==> #[trigger] s[k] == s.skip(1)[k - 1]);
    }
}

/// `s` split on `sep`: the separators themselves are dropped and empty
/// parts are kept, as with `str::split`.
pub open spec fn split_chars(s: Seq<char>, sep: char) -> Seq<Seq<char>>
    decreases s.len(),
{
    let i = find_char(s, sep);
    if i < 0 || i >= s.len() {
        seq![s]
    } else {
        seq![s.subrange(0, i)] + split_chars(s.skip(i + 1), sep)
    }
}

pub proof fn lemma_split_sep_free(s: Seq<char>, sep: char)
    requires
        !s.contains(sep),
    ensures
        split_chars(s, sep) == seq![s],
{
    lemma_find_char_props(s, sep);
    if find_char(s, sep) >= 0 {
        assert(s.contains(sep));
    }
}

/// Splitting a string that begins with a separator-free prefix `a`
/// followed by `sep` peels off exactly `a`.
pub proof fn lemma_split_joined(a: Seq<char>, t: Seq<char>, sep: char)
    requires
        !a.contains(sep),
    ensures
        split_chars(a + seq![sep] + t, sep) == seq![a] + split_chars(t, sep),
{
    let s = a + seq![sep] + t;
    lemma_find_char_props(s, sep);
    let i = find_char(s, sep);
    assert(s[a.len() as int] == sep);
    if i < a.len() {
        assert(a[i] == sep);
        assert(a.contains(sep));
    }
    assert(i == a.len());
    assert(s.subrange(0, i) =~= a);
    assert(s.skip(i + 1) =~= t);
}

pub(crate) fn find_char_exec(s: &str, sep: char) -> (r: Option<usize>)
    ensures
        r matches Some(i) ==> find_char(s@, sep) == i,
        r is None ==> find_char(s@, sep) == -1,
{
    proof {
        lemma_find_char_props(s@, sep);
    }
    let len = s.unicode_len();
    let mut i: usize = 0;
    while i < len
        invariant
            len == s@.len(),
            i <= len,
            forall|k: int| 0 <= k < i ==> s@[k] != sep,
            -1 <= find_char(s@, sep) < s@.len(),
            find_char(s@, sep) >= 0 ==> s@[find_char(s@, sep)] == sep,
            forall|k: int|
                0 <= k < s@.len() && (find_char(s@, sep) == -1 || k < find_char(s@, sep)) ==> s@[k]
                    != sep,
        decreases len - i,
    {
        if s.get_char(i) == sep {
            return Some(i);
        }
        i = i + 1;
    }
    None
}

pub fn split_str(s: &str, sep: char) -> (r: Vec<String>)
    ensures
        r@.map_values(|t: String| t@) == split_chars(s@, sep),
    decreases s@.len(),
{
    match find_char_exec(s, sep) {
        None => {
            let mut out: Vec<String> = Vec::new();
            out.push(String::from_str(s));
            proof {
                assert(out@.map_values(|t: String| t@) =~= split_chars(s@, sep));
            }
            out
        },
        Some(i) => {
            let len = s.unicode_len();
            proof {
                lemma_find_char_props(s@, sep);
            }
            let head = s.substring_char(0, i);
            let tail = s.substring_char(i + 1, len);
            proof {
                assert(tail@ =~= s@.skip(i + 1));
            }
            let mut rest = split_str(tail, sep);
            rest.insert(0, String::from_str(head));
            proof {
                assert(rest@.map_values(|t: String| t@) =~= split_chars(s@, sep));
            }
            rest
        },
    }
}

pub open spec fn is_blank(c: char) -> bool {
    c == ' ' || c == '\t'
}

pub open spec fn trim_front(s: Seq<char>) -> Seq<char>
    decreases s.len(),
{
    if s.len() > 0 && is_blank(s[0]) {
        trim_front(s.skip(1))
    } else {
        s
    }
}

pub open spec fn trim_back(s: Seq<char>) -> Seq<char>
    decreases s.len(),
{
    if s.len() > 0 && is_blank(s.last()) {
        trim_back(s.drop_last())
    } else {
        s
    }
}

/// `s` with leading and trailing blanks removed.
pub open spec fn trim_spec(s: Seq<char>) -> Seq<char> {
    trim_back(trim_front(s))
}

pub fn trim(s: &str) -> (r: &str)
    ensures
        r@ == trim_spec(s@),
{
    let len = s.unicode_len();
    proof {
        assert(s@.skip(0) =~= s@);
    }
    let mut a: usize = 0;
    while a < len
        invariant
            len == s@.len(),
            a <= len,
            trim_front(s@) == trim_front(s@.skip(a as int)),
        ensures
            a <= len,
            trim_front(s@) == trim_front(s@.skip(a as int)),
            a < len ==> !is_blank(s@[a as int]),
        decreases len - a,
    {
        let c = s.get_char(a);
        if !(c == ' ' || c == '\t') {
            break ;
        }
        proof {
            assert(s@.skip(a as int).skip(1) =~= s@.skip(a + 1));
        }
        a = a + 1;
    }
    proof {
        if a < len {
            assert(trim_front(s@.skip(a as int)) == s@.skip(a as int));
        } else {
            assert(s@.skip(a as int) =~= Seq::<char>::empty());
        }
        assert(s@.skip(a as int) =~= s@.subrange(a as int, len as int));
    }
    let mut b: usize = len;
    while b > a
        invariant
            len == s@.len(),
            a <= b <= len,
            trim_back(s@.skip(a as int)) == trim_back(s@.subrange(a as int, b as int)),
        ensures
            a <= b <= len,
            trim_back(s@.skip(a as int)) == trim_back(s@.subrange(a as int, b as int)),
            b > a ==> !is_blank(s@[b - 1]),
        decreases b,
    {
        let c = s.get_char(b - 1);
        if !(c == ' ' || c == '\t') {
            break ;
        }
        proof {
            assert(s@.subrange(a as int, b as int).drop_last() =~= s@.subrange(
                a as int,
                b - 1 as int,
            ));
        }
        b = b - 1;
    }
    proof {
        if b > a {
            assert(s@.subrange(a as int, b as int).last() == s@[b - 1]);
            assert(trim_back(s@.subrange(a as int, b as int)) == s@.subrange(a as int, b as int));
        } else {
            assert(s@.subrange(a as int, b as int) =~= Seq::<char>::empty());
        }
    }
    let r = s.substring_char(a, b);
    proof {
        assert(r@ == trim_spec(s@));
    }
    r
}

} // verus!

//! Small verified helpers on text: character views of string slices,
//! comparisons against fixed names, substring search and trimming.

use vstd::prelude::*;
use vstd::string::*;

verus! {

/// Whether `needle` occurs in `hay` starting at position `i`.
pub open spec fn occurs_at(hay: Seq<char>, needle: Seq<char>, i: int) -> bool {
    &&& 0 <= i
    &&& i + needle.len() <= hay.len()
    &&& hay.subrange(i, i + needle.len()) == needle
}

/// Whether `needle` occurs anywhere in `hay` (the empty needle occurs in every text).
pub open spec fn contains_seq(hay: Seq<char>, needle: Seq<char>) -> bool {
    exists|i: int| occurs_at(hay, needle, i)
}

/// The number of characters `c` that end `s`.
pub open spec fn trailing_count(s: Seq<char>, c: char) -> nat
    decreases s.len(),
{
    if s.len() > 0 && s.last() == c {
        1 + trailing_count(s.drop_last(), c)
    } else {
        0
    }
}

/// `s` with every trailing `c` removed.
pub open spec fn trim_end_char(s: Seq<char>, c: char) -> Seq<char> {
    s.subrange(0, s.len() - trailing_count(s, c))
}

pub proof fn lemma_trailing_count_bound(s: Seq<char>, c: char)
    ensures
        trailing_count(s, c) <= s.len(),
    decreases s.len(),
{
    if s.len() > 0 && s.last() == c {
        lemma_trailing_count_bound(s.drop_last(), c);
    }
}

/// Trimming leaves no trailing `c`, and the text is the trimmed text followed
/// by exactly the removed run of `c`.
pub proof fn lemma_trim_end_char(s: Seq<char>, c: char)
    ensures
        trim_end_char(s, c).len() == 0 || trim_end_char(s, c).last() != c,
        s == trim_end_char(s, c) + Seq::new(trailing_count(s, c), |i: int| c),
    decreases s.len(),
{
    lemma_trailing_count_bound(s, c);
    if s.len() > 0 && s.last() == c {
        let p = s.drop_last();
        lemma_trim_end_char(p, c);
        lemma_trailing_count_bound(p, c);
        let k = trailing_count(s, c);
        assert(trim_end_char(s, c) =~= trim_end_char(p, c));
        assert(Seq::new(k, |i: int| c) =~= Seq::new((k - 1) as nat, |i: int| c).push(c));
        assert(s =~= p.push(c));
        assert(s =~= trim_end_char(s, c) + Seq::new(k, |i: int| c));
    } else {
        assert(trim_end_char(s, c) =~= s);
        assert(s =~= trim_end_char(s, c) + Seq::new(trailing_count(s, c), |i: int| c));
    }
}

/// Bytes that `encodeURIComponent` leaves as they are: ASCII letters, digits
/// and `- _ . ! ~ * ' ( )`.
pub open spec fn is_unreserved(b: u8) -> bool {
    ||| 65 <= b <= 90
    ||| 97 <= b <= 122
    ||| 48 <= b <= 57
    ||| b == 45 || b == 95 || b == 46 || b == 33 || b == 126 || b == 42 || b == 39 || b == 40 || b == 41
}

/// The upper-case hexadecimal digit for `n` (below 16).
pub open spec fn hex_digit(n: u8) -> char {
    if n < 10 {
        (n + 48) as char
    } else {
        (n + 55) as char
    }
}

/// How one byte is written: itself when unreserved, else `%` and two
/// upper-case hexadecimal digits.
pub open spec fn encode_byte(b: u8) -> Seq<char> {
    if is_unreserved(b) {
        seq![b as char]
    } else {
        seq!['%', hex_digit(b / 16), hex_digit(b % 16)]
    }
}

/// Percent-encoding of a byte sequence, byte by byte.
pub open spec fn percent_encode_bytes(bs: Seq<u8>) -> Seq<char>
    decreases bs.len(),
{
    if bs.len() == 0 {
        Seq::empty()
    } else {
        percent_encode_bytes(bs.drop_last()) + encode_byte(bs.last())
    }
}

/// `encodeURIComponent`: the text's UTF-8 bytes, percent-encoded.
pub open spec fn encode_uri_component(s: Seq<char>) -> Seq<char> {
    percent_encode_bytes(vstd::utf8::encode_utf8(s))
}

/// Collects characters into a string (std's `FromIterator<&char>` for `String`).
#[verifier::external_body]
fn string_from_chars(chars: &Vec<char>) -> (s: String)
    ensures
        s@ == chars@,
{
    chars.iter().collect()
}

fn hex_char(n: u8) -> (c: char)
    requires
        n < 16,
    ensures
        c == hex_digit(n),
{
    if n < 10 {
        (n + 48) as char
    } else {
        (n + 55) as char
    }
}

/// Percent-encodes `s` as `encodeURIComponent` does.
pub fn encode_component(s: &str) -> (r: String)
    ensures
        r@ == encode_uri_component(s@),
{
    let bytes = s.as_bytes();
    let n = bytes.len();
    let mut out: Vec<char> = Vec::new();
    let mut i: usize = 0;
    assert(bytes@.take(0) =~= Seq::<u8>::empty());
    while i < n
        invariant
            bytes@ == s.spec_bytes(),
            n == bytes@.len(),
            i <= n,
            out@ == percent_encode_bytes(bytes@.take(i as int)),
        decreases n - i,
    {
        let b = bytes[i];
        let ghost before = out@;
        if (65 <= b && b <= 90) || (97 <= b && b <= 122) || (48 <= b && b <= 57) || b == 45 || b == 95
            || b == 46 || b == 33 || b == 126 || b == 42 || b == 39 || b == 40 || b == 41 {
            out.push(b as char);
        } else {
            out.push('%');
            out.push(hex_char(b / 16));
            out.push(hex_char(b % 16));
        }
        assert(bytes@.take(i + 1).drop_last() =~= bytes@.take(i as int));
        assert(bytes@.take(i + 1).last() == b);
        assert(out@ =~= before + encode_byte(b));
        i += 1;
    }
    assert(bytes@.take(n as int) =~= bytes@);
    string_from_chars(&out)
}

/// The characters of a string slice, in order.
pub fn chars_of(s: &str) -> (v: Vec<char>)
    ensures
        v@ == s@,
{
    let n = s.unicode_len();
    let mut v: Vec<char> = Vec::new();
    let mut i: usize = 0;
    while i < n
        invariant
            n == s@.len(),
            i <= n,
            v@ == s@.take(i as int),
        decreases n - i,
    {
        v.push(s.get_char(i));
        i += 1;
        assert(v@ =~= s@.take(i as int));
    }
    assert(v@ =~= s@);
    v
}

/// Whether two string slices hold the same characters.
pub fn str_eq(a: &str, b: &str) -> (r: bool)
    ensures
        r == (a@ == b@),
{
    let x = a.to_owned();
    let y = b.to_owned();
    x == y
}

/// Whether the characters `seg` spell exactly `name`.
pub fn chars_eq_str(seg: &Vec<char>, name: &str) -> (r: bool)
    ensures
        r == (seg@ == name@),
{
    let n = name.unicode_len();
    if seg.len() != n {
        return false;
    }
    let mut i: usize = 0;
    while i < n
        invariant
            n == name@.len(),
            n == seg@.len(),
            i <= n,
            forall|j: int| 0 <= j < i ==> seg@[j] == name@[j],
        decreases n - i,
    {
        if seg[i] != name.get_char(i) {
            return false;
        }
        i += 1;
    }
    assert(seg@ =~= name@);
    true
}

/// Whether `needle` occurs in `hay`.
pub fn contains_str(hay: &str, needle: &str) -> (r: bool)
    ensures
        r == contains_seq(hay@, needle@),
{
    let h = chars_of(hay);
    let nd = chars_of(needle);
    let hn = h.len();
    let nn = nd.len();
    if nn > hn {
        assert forall|i: int| !occurs_at(hay@, needle@, i) by {}
        return false;
    }
    let mut i: usize = 0;
    while i <= hn - nn
        invariant
            h@ == hay@,
            nd@ == needle@,
            hn == h@.len(),
            nn == nd@.len(),
            nn <= hn,
            i <= hn - nn + 1,
            forall|k: int| 0 <= k < i ==> !occurs_at(hay@, needle@, k),
        decreases hn - nn + 1 - i,
    {
        let mut j: usize = 0;
        let mut matched = true;
        while j < nn
            invariant
                h@ == hay@,
                nd@ == needle@,
                hn == h@.len(),
                nn == nd@.len(),
                i + nn <= hn,
                j <= nn,
                matched ==> forall|t: int| 0 <= t < j ==> h@[i + t] == nd@[t],
                !matched ==> exists|t: int| 0 <= t < nn && h@[i + t] != nd@[t],
            decreases nn - j,
        {
            if h[i + j] != nd[j] {
                matched = false;
                assert(h@[i + j] != nd@[j as int]);
            }
            j += 1;
        }
        if matched {
            assert(hay@.subrange(i as int, i + nn) =~= needle@);
            assert(occurs_at(hay@, needle@, i as int));
            return true;
        }
        proof {
            let t = choose|t: int| 0 <= t < nn && h@[i + t] != nd@[t];
            assert(hay@.subrange(i as int, i + nn)[t] != needle@[t]);
        }
        i += 1;
    }
    assert forall|k: int| !occurs_at(hay@, needle@, k) by {
        if 0 <= k && k + nn <= hn {
            assert(k < i);
        }
    }
    false
}

/// `s` with every trailing `c` removed, as an owned string.
pub fn trim_end_matching(s: &str, c: char) -> (r: String)
    ensures
        r@ == trim_end_char(s@, c),
{
    let v = chars_of(s);
    let mut end: usize = v.len();
    assert(s@.take(end as int) =~= s@);
    while end > 0 && v[end - 1] == c
        invariant
            v@ == s@,
            end <= v@.len(),
            trailing_count(s@, c) == trailing_count(s@.take(end as int), c) + (s@.len() - end),
        decreases end,
    {
        assert(s@.take(end as int).drop_last() =~= s@.take(end - 1));
        end -= 1;
    }
    assert(trailing_count(s@.take(end as int), c) == 0);
    let t = s.substring_char(0, end);
    t.to_owned()
}

} // verus!

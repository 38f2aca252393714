//! Small string-building helpers shared by the plan builders: path
//! joining, decimal rendering of slot numbers, and substring search
//! over command output.

use vstd::prelude::*;
use vstd::string::StringSliceAdditionalSpecFns;

verus! {

/// The sequence of characters `a + "/" + b`.
pub open spec fn spec_path_join(a: Seq<char>, b: Seq<char>) -> Seq<char> {
    a + "/"@ + b
}

/// Join two path components with a single separator.
pub fn path_join(a: &str, b: &str) -> (r: String)
    ensures
        r@ == spec_path_join(a@, b@),
{
    let s = String::from_str(a);
    let s = s.concat("/");
    s.concat(b)
}

/// The character for one decimal digit.
pub open spec fn spec_digit_char(d: nat) -> char {
    if d == 0 {
        '0'
    } else if d == 1 {
        '1'
    } else if d == 2 {
        '2'
    } else if d == 3 {
        '3'
    } else if d == 4 {
        '4'
    } else if d == 5 {
        '5'
    } else if d == 6 {
        '6'
    } else if d == 7 {
        '7'
    } else if d == 8 {
        '8'
    } else {
        '9'
    }
}

/// The usual decimal rendering of a natural number, most significant
/// digit first, with no leading zeros (except for zero itself).
pub open spec fn spec_u64_dec(n: nat) -> Seq<char>
    decreases n,
{
    if n < 10 {
        seq![spec_digit_char(n)]
    } else {
        spec_u64_dec(n / 10) + seq![spec_digit_char(n % 10)]
    }
}

fn digit_str(d: u64) -> (s: &'static str)
    requires
        d < 10,
    ensures
        s@ =~= seq![spec_digit_char(d as nat)],
{
    proof {
        reveal_strlit("0");
        reveal_strlit("1");
        reveal_strlit("2");
        reveal_strlit("3");
        reveal_strlit("4");
        reveal_strlit("5");
        reveal_strlit("6");
        reveal_strlit("7");
        reveal_strlit("8");
        reveal_strlit("9");
    }
    if d == 0 {
        "0"
    } else if d == 1 {
        "1"
    } else if d == 2 {
        "2"
    } else if d == 3 {
        "3"
    } else if d == 4 {
        "4"
    } else if d == 5 {
        "5"
    } else if d == 6 {
        "6"
    } else if d == 7 {
        "7"
    } else if d == 8 {
        "8"
    } else {
        "9"
    }
}

/// Render a number in decimal.
pub fn u64_to_dec_string(n: u64) -> (r: String)
    ensures
        r@ == spec_u64_dec(n as nat),
    decreases n,
{
    if n < 10 {
        let mut s = String::new();
        s.append(digit_str(n));
        assert(s@ =~= spec_u64_dec(n as nat));
        s
    } else {
        let mut s = u64_to_dec_string(n / 10);
        s.append(digit_str(n % 10));
        assert(s@ =~= spec_u64_dec(n as nat));
        s
    }
}

/// Append all of `src` to `dst`.
pub fn push_all(dst: &mut Vec<u8>, src: &[u8])
    ensures
        final(dst)@ == old(dst)@ + src@,
{
    let n = src.len();
    let ghost start = dst@;
    let mut i: usize = 0;
    while i < n
        invariant
            i <= n,
            n == src@.len(),
            dst@ == start + src@.subrange(0, i as int),
        decreases n - i,
    {
        dst.push(src[i]);
        assert(dst@ =~= start + src@.subrange(0, i + 1));
        i += 1;
    }
    assert(dst@ =~= start + src@);
}

/// The bytes of `v` from position `from` up to `to`, copied out.
pub fn bytes_range(v: &[u8], from: usize, to: usize) -> (r: Vec<u8>)
    requires
        from <= to <= v@.len(),
    ensures
        r@ == v@.subrange(from as int, to as int),
{
    let mut r: Vec<u8> = Vec::new();
    let mut i: usize = from;
    while i < to
        invariant
            from <= i <= to <= v@.len(),
            r@ == v@.subrange(from as int, i as int),
        decreases to - i,
    {
        r.push(v[i]);
        assert(r@ =~= v@.subrange(from as int, i + 1));
        i += 1;
    }
    r
}

/// The suffix of `v` from position `from` on, copied out.
pub fn bytes_suffix(v: &[u8], from: usize) -> (r: Vec<u8>)
    requires
        from <= v@.len(),
    ensures
        r@ == v@.skip(from as int),
{
    let n = v.len();
    let mut r: Vec<u8> = Vec::new();
    let mut i: usize = from;
    while i < n
        invariant
            from <= i <= n,
            n == v@.len(),
            r@ == v@.subrange(from as int, i as int),
        decreases n - i,
    {
        r.push(v[i]);
        assert(r@ =~= v@.subrange(from as int, i + 1));
        i += 1;
    }
    assert(r@ =~= v@.skip(from as int));
    r
}

/// Whether two byte strings are equal.
pub fn bytes_eq(a: &[u8], b: &[u8]) -> (r: bool)
    ensures
        r == (a@ == b@),
{
    let n = a.len();
    if n != b.len() {
        return false;
    }
    let m = bytes_match_at(a, b, 0);
    proof {
        assert(a@.subrange(0, n as int) =~= a@);
        if a@ == b@ {
            assert(spec_occurs_at(a@, b@, 0));
        }
    }
    m
}

/// Whether two texts are equal.
pub fn str_eq(a: &str, b: &str) -> (r: bool)
    ensures
        r == (a@ == b@),
{
    let x = a.to_owned();
    let y = b.to_owned();
    x == y
}

/// The first `n` characters of a text, or all of it where it is
/// shorter.
pub fn truncate_chars(s: &str, n: usize) -> (r: String)
    ensures
        r@ == (if s@.len() <= n as int {
            s@
        } else {
            s@.take(n as int)
        }),
{
    let len = s.unicode_len();
    if len <= n {
        s.to_owned()
    } else {
        let t = s.substring_char(0, n);
        assert(t@ =~= s@.take(n as int));
        t.to_owned()
    }
}

/// Whether `needle` occurs in `hay` starting at position `i`.
pub open spec fn spec_occurs_at(hay: Seq<u8>, needle: Seq<u8>, i: int) -> bool {
    0 <= i && i + needle.len() <= hay.len() && hay.subrange(i, i + needle.len() as int) == needle
}

/// Whether `needle` occurs anywhere in `hay`.
pub open spec fn spec_contains_bytes(hay: Seq<u8>, needle: Seq<u8>) -> bool {
    exists|i: int| spec_occurs_at(hay, needle, i)
}

fn bytes_match_at(hay: &[u8], needle: &[u8], i: usize) -> (r: bool)
    requires
        i + needle@.len() <= hay@.len(),
    ensures
        r == spec_occurs_at(hay@, needle@, i as int),
{
    let hn = hay.len();
    let n = needle.len();
    let mut j: usize = 0;
    while j < n
        invariant
            j <= n,
            n == needle@.len(),
            hn == hay@.len(),
            i + n <= hn,
            forall|k: int| 0 <= k < j ==> hay@[i + k] == needle@[k],
        decreases n - j,
    {
        if hay[i + j] != needle[j] {
            assert(hay@.subrange(i as int, i + n as int)[j as int] != needle@[j as int]);
            return false;
        }
        j += 1;
    }
    assert(hay@.subrange(i as int, i + n as int) =~= needle@);
    true
}

/// Whether the byte string `needle` occurs anywhere in `hay`.
pub fn contains_bytes(hay: &[u8], needle: &[u8]) -> (r: bool)
    ensures
        r == spec_contains_bytes(hay@, needle@),
{
    let hn = hay.len();
    let nn = needle.len();
    if nn > hn {
        assert(forall|i: int| !spec_occurs_at(hay@, needle@, i));
        return false;
    }
    if nn == 0 {
        assert(hay@.subrange(0, 0) =~= needle@);
        assert(spec_occurs_at(hay@, needle@, 0));
        return true;
    }
    let mut i: usize = 0;
    while i <= hn - nn
        invariant
            0 < nn <= hn,
            hn == hay@.len(),
            nn == needle@.len(),
            i <= hn - nn + 1,
            forall|k: int| 0 <= k < i ==> !spec_occurs_at(hay@, needle@, k),
        decreases hn - nn + 1 - i,
    {
        if bytes_match_at(hay, needle, i) {
            return true;
        }
        i += 1;
    }
    assert(forall|k: int| spec_occurs_at(hay@, needle@, k) ==> 0 <= k <= hn - nn);
    false
}

/// Whether the text `needle` occurs anywhere in `hay`, compared byte
/// for byte in their UTF-8 encodings.
pub fn contains_text(hay: &str, needle: &str) -> (r: bool)
    ensures
        r == spec_contains_bytes(hay.spec_bytes(), needle.spec_bytes()),
{
    contains_bytes(hay.as_bytes(), needle.as_bytes())
}

} // verus!

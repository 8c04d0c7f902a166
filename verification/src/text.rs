//! Verified text helpers over sequences of characters: comparison,
//! substring search, suffix tests, replacement, path splitting and decimal
//! rendering.  Two trusted conversions move between `str` and `Vec<char>`.

use vstd::prelude::*;
use vstd::string::StringSliceAdditionalSpecFns;

verus! {

/// Relies on `str::chars`: the characters of `s`, in order.
#[verifier::external_body]
pub fn chars_of(s: &str) -> (r: Vec<char>)
    ensures
        r@ == s@,
{
    s.chars().collect()
}

/// Relies on `String`'s `FromIterator` over `char`: the string holding
/// exactly these characters, in order.
#[verifier::external_body]
pub fn string_from_chars(v: &[char]) -> (r: String)
    ensures
        r@ == v@,
{
    v.iter().collect()
}

/// Whether two strings hold the same characters.
pub fn str_eq(a: &str, b: &str) -> (r: bool)
    ensures
        r == (a@ == b@),
{
    let av = chars_of(a);
    let bv = chars_of(b);
    if av.len() != bv.len() {
        return false;
    }
    let mut i: usize = 0;
    while i < av.len()
        invariant
            av@ == a@,
            bv@ == b@,
            av@.len() == bv@.len(),
            i <= av@.len(),
            forall|j: int| 0 <= j < i ==> av@[j] == bv@[j],
        decreases av@.len() - i,
    {
        if av[i] != bv[i] {
            return false;
        }
        i = i + 1;
    }
    proof {
        assert(a@ =~= b@);
    }
    true
}

/// The needle `n` occurs in `h` starting at position `i`.
pub open spec fn spec_contains_at(h: Seq<char>, n: Seq<char>, i: int) -> bool {
    0 <= i && i + n.len() <= h.len() && h.subrange(i, i + n.len()) == n
}

/// The needle `n` occurs somewhere in `h`.
pub open spec fn spec_contains(h: Seq<char>, n: Seq<char>) -> bool {
    exists|i: int| spec_contains_at(h, n, i)
}

fn match_at(h: &[char], n: &[char], i: usize) -> (r: bool)
    requires
        i + n@.len() <= h@.len(),
    ensures
        r == spec_contains_at(h@, n@, i as int),
{
    let hlen = h.len();
    let nlen = n.len();
    let mut j: usize = 0;
    while j < n.len()
        invariant
            hlen == h@.len(),
            nlen == n@.len(),
            i + n@.len() <= h@.len(),
            j <= n@.len(),
            forall|k: int| 0 <= k < j ==> h@[i + k] == n@[k],
        decreases n@.len() - j,
    {
        if h[i + j] != n[j] {
            proof {
                assert(h@.subrange(i as int, i + n@.len())[j as int] == h@[i + j]);
            }
            return false;
        }
        j = j + 1;
    }
    proof {
        assert(h@.subrange(i as int, i + n@.len()) =~= n@);
    }
    true
}

/// Whether the needle occurs in the haystack, over character vectors.
pub fn contains_chars(h: &[char], n: &[char]) -> (r: bool)
    ensures
        r == spec_contains(h@, n@),
{
    if n.len() > h.len() {
        proof {
            assert(!spec_contains(h@, n@));
        }
        return false;
    }
    if n.len() == 0 {
        proof {
            assert(h@.subrange(0, 0) =~= n@);
            assert(spec_contains_at(h@, n@, 0));
        }
        return true;
    }
    let hlen = h.len();
    let mut i: usize = 0;
    while i <= h.len() - n.len()
        invariant
            hlen == h@.len(),
            0 < n@.len() <= h@.len(),
            i <= h@.len() - n@.len() + 1,
            forall|k: int| 0 <= k < i ==> !spec_contains_at(h@, n@, k),
        decreases h@.len() - n@.len() + 1 - i,
    {
        if match_at(h, n, i) {
            return true;
        }
        i = i + 1;
    }
    proof {
        assert forall|k: int| !spec_contains_at(h@, n@, k) by {
            if 0 <= k && k + n@.len() <= h@.len() {
                assert(k < i);
            }
        }
    }
    false
}

/// Whether the string `n` occurs in the string `h`.
pub fn str_contains(h: &str, n: &str) -> (r: bool)
    ensures
        r == spec_contains(h@, n@),
{
    let hv = chars_of(h);
    let nv = chars_of(n);
    contains_chars(hv.as_slice(), nv.as_slice())
}

/// `s` ends with the suffix `x`.
pub open spec fn spec_ends_with(s: Seq<char>, x: Seq<char>) -> bool {
    s.len() >= x.len() && s.subrange(s.len() - x.len(), s.len() as int) == x
}

/// Whether the string `s` ends with the string `x`.
pub fn str_ends_with(s: &str, x: &str) -> (r: bool)
    ensures
        r == spec_ends_with(s@, x@),
{
    let sv = chars_of(s);
    let xv = chars_of(x);
    if xv.len() > sv.len() {
        return false;
    }
    let start = sv.len() - xv.len();
    let svlen = sv.len();
    let mut j: usize = 0;
    while j < xv.len()
        invariant
            svlen == sv@.len(),
            sv@ == s@,
            xv@ == x@,
            xv@.len() <= sv@.len(),
            start == sv@.len() - xv@.len(),
            j <= xv@.len(),
            forall|k: int| 0 <= k < j ==> sv@[start + k] == xv@[k],
        decreases xv@.len() - j,
    {
        if sv[start + j] != xv[j] {
            proof {
                assert(s@.subrange(s@.len() - x@.len(), s@.len() as int)[j as int] == s@[start
                    + j]);
            }
            return false;
        }
        j = j + 1;
    }
    proof {
        assert(s@.subrange(s@.len() - x@.len(), s@.len() as int) =~= x@);
    }
    true
}

/// `s` starts with the prefix `x`.
pub open spec fn spec_starts_with(s: Seq<char>, x: Seq<char>) -> bool {
    s.len() >= x.len() && s.subrange(0, x.len() as int) == x
}

/// Whether the string `s` starts with the string `x`.
pub fn str_starts_with(s: &str, x: &str) -> (r: bool)
    ensures
        r == spec_starts_with(s@, x@),
{
    let sv = chars_of(s);
    let xv = chars_of(x);
    if xv.len() > sv.len() {
        return false;
    }
    let mut j: usize = 0;
    while j < xv.len()
        invariant
            sv@ == s@,
            xv@ == x@,
            xv@.len() <= sv@.len(),
            j <= xv@.len(),
            forall|k: int| 0 <= k < j ==> sv@[k] == xv@[k],
        decreases xv@.len() - j,
    {
        if sv[j] != xv[j] {
            proof {
                assert(s@.subrange(0, x@.len() as int)[j as int] == s@[j as int]);
            }
            return false;
        }
        j = j + 1;
    }
    proof {
        assert(s@.subrange(0, x@.len() as int) =~= x@);
    }
    true
}

/// `s` with every occurrence of `from` replaced by `to`, scanning left to
/// right without revisiting replaced text.  An empty `from` replaces nothing.
pub open spec fn spec_replace(s: Seq<char>, from: Seq<char>, to: Seq<char>) -> Seq<char>
    decreases s.len(),
{
    if from.len() == 0 || s.len() < from.len() {
        s
    } else if s.subrange(0, from.len() as int) == from {
        to + spec_replace(s.skip(from.len() as int), from, to)
    } else {
        seq![s[0]] + spec_replace(s.skip(1), from, to)
    }
}

/// Replaces every occurrence of `from` in `s` by `to`, as `spec_replace`.
pub fn str_replace(s: &str, from: &str, to: &str) -> (r: String)
    ensures
        r@ == spec_replace(s@, from@, to@),
{
    let sv = chars_of(s);
    let fv = chars_of(from);
    let tv = chars_of(to);
    let mut out: Vec<char> = Vec::new();
    let mut i: usize = 0;
    if fv.len() == 0 {
        return string_from_chars(sv.as_slice());
    }
    proof {
        assert(s@.skip(0) =~= s@);
        assert(out@ + spec_replace(s@.skip(0), from@, to@) =~= spec_replace(s@, from@, to@));
    }
    while i < sv.len()
        invariant
            sv@ == s@,
            fv@ == from@,
            tv@ == to@,
            fv@.len() > 0,
            i <= sv@.len(),
            spec_replace(s@, from@, to@) == out@ + spec_replace(s@.skip(i as int), from@, to@),
        decreases sv@.len() - i,
    {
        let ghost rest = s@.skip(i as int);
        if fv.len() <= sv.len() - i && match_at(sv.as_slice(), fv.as_slice(), i) {
            proof {
                assert(rest.len() >= from@.len());
                assert(rest.subrange(0, from@.len() as int) =~= s@.subrange(
                    i as int,
                    i + from@.len(),
                ));
                assert(rest.skip(from@.len() as int) =~= s@.skip(i + from@.len()));
            }
            let ghost out0 = out@;
            let mut j: usize = 0;
            while j < tv.len()
                invariant
                    tv@ == to@,
                    j <= tv@.len(),
                    out@ == out0 + to@.subrange(0, j as int),
                decreases tv@.len() - j,
            {
                out.push(tv[j]);
                proof {
                    assert(out@ =~= out0 + to@.subrange(0, j + 1));
                }
                j = j + 1;
            }
            proof {
                assert(to@.subrange(0, to@.len() as int) =~= to@);
            }
            i = i + fv.len();
        } else {
            proof {
                if rest.len() >= from@.len() {
                    assert(rest.subrange(0, from@.len() as int) =~= s@.subrange(
                        i as int,
                        i + from@.len(),
                    ));
                }
                assert(rest.skip(1) =~= s@.skip(i + 1));
                assert(seq![rest[0]] =~= seq![s@[i as int]]);
            }
            out.push(sv[i]);
            i = i + 1;
        }
    }
    proof {
        assert(s@.skip(s@.len() as int) =~= Seq::<char>::empty());
        assert(out@ + Seq::<char>::empty() =~= out@);
    }
    string_from_chars(out.as_slice())
}

/// The characters after the last `/` of a path, the whole path when it has
/// none, and nothing when it ends with `/`.
pub open spec fn spec_basename(s: Seq<char>) -> Seq<char>
    decreases s.len(),
{
    if s.len() == 0 {
        Seq::<char>::empty()
    } else if s.last() == '/' {
        Seq::<char>::empty()
    } else {
        spec_basename(s.drop_last()).push(s.last())
    }
}

/// The base name of a path, as `spec_basename`.
pub fn basename(path: &str) -> (r: String)
    ensures
        r@ == spec_basename(path@),
{
    let pv = chars_of(path);
    let mut out: Vec<char> = Vec::new();
    let mut i: usize = 0;
    while i < pv.len()
        invariant
            pv@ == path@,
            i <= pv@.len(),
            out@ == spec_basename(path@.subrange(0, i as int)),
        decreases pv@.len() - i,
    {
        proof {
            assert(path@.subrange(0, i + 1).drop_last() =~= path@.subrange(0, i as int));
            assert(path@.subrange(0, i + 1).last() == path@[i as int]);
        }
        if pv[i] == '/' {
            out = Vec::new();
        } else {
            out.push(pv[i]);
        }
        i = i + 1;
    }
    proof {
        assert(path@.subrange(0, path@.len() as int) =~= path@);
    }
    string_from_chars(out.as_slice())
}

/// The child path under `parent` named `name`: the name itself when the
/// parent path is empty, else the two joined with `/`.
pub open spec fn spec_path_join(parent: Seq<char>, name: Seq<char>) -> Seq<char> {
    if parent.len() == 0 {
        name
    } else {
        parent + seq!['/'] + name
    }
}

/// Joins a parent path and a child name, as `spec_path_join`.
pub fn path_join(parent: &str, name: &str) -> (r: String)
    ensures
        r@ == spec_path_join(parent@, name@),
{
    if parent.unicode_len() == 0 {
        let mut out = String::new();
        out.append(name);
        out
    } else {
        let mut out = String::new();
        out.append(parent);
        out.append("/");
        out.append(name);
        proof {
            reveal_strlit("/");
            assert("/"@ =~= seq!['/']);
            assert(out@ =~= parent@ + seq!['/'] + name@);
        }
        out
    }
}

/// The index of the last `.` of a name, never its first character, or -1
/// when there is none: the split point before a file extension.
pub open spec fn spec_last_dot(s: Seq<char>) -> int
    decreases s.len(),
{
    if s.len() <= 1 {
        -1
    } else if s.last() == '.' {
        s.len() - 1
    } else {
        spec_last_dot(s.drop_last())
    }
}

/// The extension of a file name: the characters after its last `.`, empty
/// when it has none or only a leading one.
pub open spec fn spec_ext_of(s: Seq<char>) -> Seq<char> {
    if spec_last_dot(s) < 0 {
        Seq::<char>::empty()
    } else {
        s.skip(spec_last_dot(s) + 1)
    }
}

fn last_dot_upto(v: &[char], n: usize) -> (r: Option<usize>)
    requires
        n <= v@.len(),
    ensures
        match r {
            Some(i) => spec_last_dot(v@.subrange(0, n as int)) == i as int && i < n,
            None => spec_last_dot(v@.subrange(0, n as int)) == -1,
        },
    decreases n,
{
    if n <= 1 {
        None
    } else if v[n - 1] == '.' {
        proof {
            assert(v@.subrange(0, n as int).last() == v@[n - 1]);
        }
        Some(n - 1)
    } else {
        proof {
            assert(v@.subrange(0, n as int).last() == v@[n - 1]);
            assert(v@.subrange(0, n as int).drop_last() =~= v@.subrange(0, n - 1));
        }
        last_dot_upto(v, n - 1)
    }
}

/// The extension of a file name, as `spec_ext_of`.
pub fn ext_of(name: &str) -> (r: String)
    ensures
        r@ == spec_ext_of(name@),
{
    let nv = chars_of(name);
    proof {
        assert(nv@.subrange(0, nv@.len() as int) =~= nv@);
    }
    match last_dot_upto(nv.as_slice(), nv.len()) {
        None => String::new(),
        Some(i) => {
            let mut out: Vec<char> = Vec::new();
            let mut j: usize = i + 1;
            while j < nv.len()
                invariant
                    nv@ == name@,
                    i + 1 <= j <= nv@.len(),
                    out@ == name@.subrange(i + 1, j as int),
                decreases nv@.len() - j,
            {
                proof {
                    assert(name@.subrange(i + 1, j + 1).drop_last() =~= name@.subrange(
                        i + 1,
                        j as int,
                    ));
                    assert(name@.subrange(i + 1, j + 1) =~= name@.subrange(i + 1, j as int).push(
                        name@[j as int]));
                }
                out.push(nv[j]);
                j = j + 1;
            }
            proof {
                assert(name@.subrange(i + 1, name@.len() as int) =~= name@.skip(i + 1));
            }
            string_from_chars(out.as_slice())
        },
    }
}

/// The blank characters the trimmer strips.
pub open spec fn spec_is_blank(c: char) -> bool {
    c == ' ' || c == '\t' || c == '\r' || c == '\n'
}

/// `s` without its leading blanks.
pub open spec fn spec_trim_start(s: Seq<char>) -> Seq<char>
    decreases s.len(),
{
    if s.len() > 0 && spec_is_blank(s[0]) {
        spec_trim_start(s.skip(1))
    } else {
        s
    }
}

/// `s` without its trailing blanks.
pub open spec fn spec_trim_end(s: Seq<char>) -> Seq<char>
    decreases s.len(),
{
    if s.len() > 0 && spec_is_blank(s.last()) {
        spec_trim_end(s.drop_last())
    } else {
        s
    }
}

/// `s` without its leading and trailing blanks.
pub open spec fn spec_trim(s: Seq<char>) -> Seq<char> {
    spec_trim_end(spec_trim_start(s))
}

fn is_blank(c: char) -> (r: bool)
    ensures
        r == spec_is_blank(c),
{
    c == ' ' || c == '\t' || c == '\r' || c == '\n'
}

fn trim_start_idx(v: &[char], i: usize) -> (r: usize)
    requires
        i <= v@.len(),
    ensures
        i <= r <= v@.len(),
        spec_trim_start(v@.skip(i as int)) == v@.skip(r as int),
    decreases v@.len() - i,
{
    let n = v.len();
    if i < n && is_blank(v[i]) {
        proof {
            assert(v@.skip(i as int)[0] == v@[i as int]);
            assert(v@.skip(i as int).skip(1) =~= v@.skip(i + 1));
        }
        trim_start_idx(v, i + 1)
    } else {
        proof {
            if i < n {
                assert(v@.skip(i as int)[0] == v@[i as int]);
            } else {
                assert(v@.skip(i as int).len() == 0);
            }
        }
        i
    }
}

fn trim_end_idx(v: &[char], a: usize, j: usize) -> (r: usize)
    requires
        a <= j <= v@.len(),
    ensures
        a <= r <= j,
        spec_trim_end(v@.subrange(a as int, j as int)) == v@.subrange(a as int, r as int),
    decreases j,
{
    if j > a && is_blank(v[j - 1]) {
        proof {
            assert(v@.subrange(a as int, j as int).last() == v@[j - 1]);
            assert(v@.subrange(a as int, j as int).drop_last() =~= v@.subrange(a as int, j - 1));
        }
        trim_end_idx(v, a, j - 1)
    } else {
        proof {
            if j > a {
                assert(v@.subrange(a as int, j as int).last() == v@[j - 1]);
            } else {
                assert(v@.subrange(a as int, j as int).len() == 0);
            }
        }
        j
    }
}

/// The string without its leading and trailing blanks, as `spec_trim`.
pub fn str_trim(s: &str) -> (r: String)
    ensures
        r@ == spec_trim(s@),
{
    let sv = chars_of(s);
    let a = trim_start_idx(sv.as_slice(), 0);
    let b = trim_end_idx(sv.as_slice(), a, sv.len());
    proof {
        assert(sv@.skip(0) =~= sv@);
        assert(sv@.skip(a as int) =~= sv@.subrange(a as int, sv@.len() as int));
    }
    let mut out: Vec<char> = Vec::new();
    let mut j: usize = a;
    while j < b
        invariant
            sv@ == s@,
            a <= j <= b <= sv@.len(),
            out@ == sv@.subrange(a as int, j as int),
        decreases b - j,
    {
        proof {
            assert(sv@.subrange(a as int, j + 1) =~= sv@.subrange(a as int, j as int).push(
                sv@[j as int]));
        }
        out.push(sv[j]);
        j = j + 1;
    }
    string_from_chars(out.as_slice())
}

/// Relies on `std::str::from_utf8`: it succeeds exactly on valid UTF-8 and
/// returns the text viewing those bytes, whose characters are their UTF-8
/// decoding.
#[verifier::external_body]
pub fn utf8_str(b: &[u8]) -> (r: Option<&str>)
    ensures
        r is Some <==> vstd::utf8::valid_utf8(b@),
        r matches Some(s) ==> s@ == vstd::utf8::decode_utf8(b@) && s.spec_bytes() == b@,
{
    std::str::from_utf8(b).ok()
}

/// One decimal digit as a character.
pub open spec fn spec_digit_char(d: int) -> char {
    if d == 0 {
        '0'
    } else if d == 1 {
        '1'
    } else if d == 2 {
        '2'
    } else if d == 3 {
        '3'
    } else if d == 4 {
        '4'
    } else if d == 5 {
        '5'
    } else if d == 6 {
        '6'
    } else if d == 7 {
        '7'
    } else if d == 8 {
        '8'
    } else {
        '9'
    }
}

/// The decimal rendering of a number, most significant digit first.
pub open spec fn spec_decimal(n: int) -> Seq<char>
    decreases n,
{
    if n < 10 {
        seq![spec_digit_char(n)]
    } else {
        spec_decimal(n / 10).push(spec_digit_char(n % 10))
    }
}

fn digit_char(d: u64) -> (r: char)
    requires
        d < 10,
    ensures
        r == spec_digit_char(d as int),
{
    if d == 0 {
        '0'
    } else if d == 1 {
        '1'
    } else if d == 2 {
        '2'
    } else if d == 3 {
        '3'
    } else if d == 4 {
        '4'
    } else if d == 5 {
        '5'
    } else if d == 6 {
        '6'
    } else if d == 7 {
        '7'
    } else if d == 8 {
        '8'
    } else {
        '9'
    }
}

fn push_decimal(n: u64, out: &mut Vec<char>)
    ensures
        final(out)@ == old(out)@ + spec_decimal(n as int),
    decreases n,
{
    if n < 10 {
        out.push(digit_char(n));
        proof {
            assert(out@ =~= old(out)@ + spec_decimal(n as int));
        }
    } else {
        push_decimal(n / 10, out);
        out.push(digit_char(n % 10));
        proof {
            assert(out@ =~= old(out)@ + spec_decimal(n as int));
        }
    }
}

/// Renders a number in decimal, as `spec_decimal`.
pub fn u64_to_string(n: u64) -> (r: String)
    ensures
        r@ == spec_decimal(n as int),
{
    let mut out: Vec<char> = Vec::new();
    push_decimal(n, &mut out);
    proof {
        assert(out@ =~= spec_decimal(n as int));
    }
    string_from_chars(out.as_slice())
}

} // verus!

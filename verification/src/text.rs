//! Byte-level text helpers shared by every part of the boundary.
//!
//! Text leaves the boundary as a C string: the bytes of the text followed by
//! one terminating zero byte, with no zero byte before it. Text enters the
//! boundary as the bytes in front of such a terminator and is only accepted
//! as a string when it is valid UTF-8.
use vstd::prelude::*;
use vstd::string::*;
use vstd::utf8::*;

verus! {

/// The bytes hold at least one zero byte.
pub open spec fn has_nul(s: Seq<u8>) -> bool {
    exists|i: int| 0 <= i < s.len() && s[i] == 0u8
}

/// The C string that carries `s`: the same bytes and the terminator.
pub open spec fn c_string(s: Seq<u8>) -> Seq<u8> {
    s.push(0u8)
}

/// `s` is a C string: it ends in the terminator and holds no other zero byte.
pub open spec fn is_c_string(s: Seq<u8>) -> bool {
    &&& s.len() > 0
    &&& s.last() == 0u8
    &&& !has_nul(s.drop_last())
}

/// The C string for `s`, where one exists.
pub open spec fn c_string_of(s: Seq<u8>) -> Option<Seq<u8>> {
    if has_nul(s) {
        None
    } else {
        Some(c_string(s))
    }
}

/// The view of an optional byte buffer.
pub open spec fn opt_bytes(v: Option<Vec<u8>>) -> Option<Seq<u8>> {
    match v {
        Some(b) => Some(b@),
        None => None,
    }
}

/// `needle` occurs in `hay` starting at index `i`.
pub open spec fn occurs_at(hay: Seq<u8>, needle: Seq<u8>, i: int) -> bool {
    &&& 0 <= i
    &&& i + needle.len() <= hay.len()
    &&& hay.subrange(i, i + needle.len()) == needle
}

/// `needle` occurs somewhere in `hay` as a contiguous run.
pub open spec fn contains_seq(hay: Seq<u8>, needle: Seq<u8>) -> bool {
    exists|i: int| occurs_at(hay, needle, i)
}

/// The parts in order, with `sep` between each two neighbours.
pub open spec fn join_bytes(parts: Seq<Seq<u8>>, sep: Seq<u8>) -> Seq<u8>
    decreases parts.len(),
{
    if parts.len() == 0 {
        Seq::empty()
    } else if parts.len() == 1 {
        parts[0]
    } else {
        join_bytes(parts.drop_last(), sep) + sep + parts.last()
    }
}

/// The UTF-8 bytes of each string, in order.
pub open spec fn bytes_of_each(texts: Seq<String>) -> Seq<Seq<u8>> {
    Seq::new(texts.len(), |i: int| encode_utf8(texts[i]@))
}

/// The decimal digits of `n` as ASCII bytes, most significant first.
pub open spec fn decimal_digits(n: nat) -> Seq<u8>
    decreases n,
{
    if n < 10 {
        seq![(48 + n) as u8]
    } else {
        decimal_digits(n / 10).push((48 + n % 10) as u8)
    }
}

/// What `str::to_lowercase` returns for the text `s`.
pub uninterp spec fn lowercase_of(s: Seq<char>) -> Seq<char>;

/// `str::to_lowercase`: the lowercase equivalent of the text as a new
/// string. The result is named, not described: it follows the Unicode
/// lowercase mapping, which is a function of the characters alone.
#[verifier::external_body]
pub(crate) fn lowercase(s: &str) -> (r: String)
    ensures
        r@ == lowercase_of(s@),
{
    s.to_lowercase()
}

/// `core::str::from_utf8`: the bytes as a string slice. It succeeds exactly
/// on well-formed UTF-8, and the slice it returns is made of the very bytes
/// that were handed in.
#[verifier::external_body]
pub(crate) fn utf8_text<'a>(bytes: &'a [u8]) -> (r: Option<&'a str>)
    ensures
        r is Some <==> valid_utf8(bytes@),
        r matches Some(s) ==> s.spec_bytes() == bytes@,
{
    core::str::from_utf8(bytes).ok()
}

/// Tells whether the bytes hold a zero byte.
pub fn contains_nul(s: &[u8]) -> (r: bool)
    ensures
        r == has_nul(s@),
{
    let mut i: usize = 0;
    while i < s.len()
        invariant
            i <= s.len(),
            forall|k: int| 0 <= k < i ==> s@[k] != 0u8,
        decreases s.len() - i,
    {
        if s[i] == 0 {
            return true;
        }
        i = i + 1;
    }
    false
}

/// Appends `src` to `dst`.
pub fn append_bytes(dst: &mut Vec<u8>, src: &[u8])
    ensures
        final(dst)@ == old(dst)@ + src@,
{
    let mut i: usize = 0;
    while i < src.len()
        invariant
            i <= src.len(),
            dst@ == old(dst)@ + src@.take(i as int),
        decreases src.len() - i,
    {
        dst.push(src[i]);
        i = i + 1;
    }
}

/// Builds the C string for `s`. A zero byte inside `s` cannot be carried:
/// there is no C string then.
pub fn to_c_string(s: &[u8]) -> (r: Option<Vec<u8>>)
    ensures
        opt_bytes(r) == c_string_of(s@),
{
    if contains_nul(s) {
        None
    } else {
        let mut out: Vec<u8> = Vec::new();
        append_bytes(&mut out, s);
        out.push(0);
        Some(out)
    }
}

/// Every C string built from zero-free bytes is well formed.
pub proof fn lemma_c_string_well_formed(s: Seq<u8>)
    requires
        !has_nul(s),
    ensures
        is_c_string(c_string(s)),
        c_string(s).drop_last() == s,
{
}

/// Tells whether `needle` occurs in `hay` starting at index `at`.
fn matches_at(hay: &[u8], needle: &[u8], at: usize) -> (r: bool)
    requires
        at + needle.len() <= hay.len(),
    ensures
        r == occurs_at(hay@, needle@, at as int),
{
    let mut j: usize = 0;
    while j < needle.len()
        invariant
            j <= needle.len(),
            at + needle.len() <= hay.len(),
            forall|k: int| 0 <= k < j ==> hay@[at + k] == needle@[k],
        decreases needle.len() - j,
    {
        if hay[at + j] != needle[j] {
            return false;
        }
        j = j + 1;
    }
    assert(hay@.subrange(at as int, at + needle.len()) =~= needle@);
    true
}

/// Tells whether `needle` occurs in `hay` as a contiguous run of bytes.
/// The empty needle occurs in every text.
pub fn contains_bytes(hay: &[u8], needle: &[u8]) -> (r: bool)
    ensures
        r == contains_seq(hay@, needle@),
{
    if needle.len() > hay.len() {
        return false;
    }
    let last: usize = hay.len() - needle.len();
    let mut i: usize = 0;
    loop
        invariant
            i <= last,
            last == hay.len() - needle.len(),
            forall|k: int| 0 <= k < i ==> !occurs_at(hay@, needle@, k),
        decreases last - i,
    {
        if matches_at(hay, needle, i) {
            return true;
        }
        if i == last {
            return false;
        }
        i = i + 1;
    }
}

/// Joins the UTF-8 bytes of the strings, with the byte `sep` between
/// neighbours.
pub fn join_strings(texts: &Vec<String>, sep: u8) -> (r: Vec<u8>)
    ensures
        r@ == join_bytes(bytes_of_each(texts@), seq![sep]),
{
    let mut out: Vec<u8> = Vec::new();
    let mut i: usize = 0;
    while i < texts.len()
        invariant
            i <= texts.len(),
            out@ == join_bytes(bytes_of_each(texts@).take(i as int), seq![sep]),
        decreases texts.len() - i,
    {
        let ghost parts = bytes_of_each(texts@);
        if i > 0 {
            out.push(sep);
        }
        append_bytes(&mut out, texts[i].as_str().as_bytes());
        i = i + 1;
        assert(parts.take(i as int).drop_last() == parts.take(i - 1));
    }
    assert(bytes_of_each(texts@).take(i as int) == bytes_of_each(texts@));
    out
}

/// Appends the decimal digits of `n` to `dst`.
pub fn append_decimal(dst: &mut Vec<u8>, n: usize)
    ensures
        final(dst)@ == old(dst)@ + decimal_digits(n as nat),
    decreases n,
{
    if n >= 10 {
        append_decimal(dst, n / 10);
    }
    let digit: u8 = (n % 10) as u8;
    dst.push(48 + digit);
}

} // verus!

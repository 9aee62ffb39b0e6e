use vstd::prelude::*;

verus! {

/// The Unicode `White_Space` property, which `char::is_whitespace` reports.
pub open spec fn is_white_space(c: char) -> bool {
    let u = c as u32;
    (0x09 <= u && u <= 0x0d) || u == 0x20 || u == 0x85 || u == 0xa0 || u == 0x1680
        || (0x2000 <= u && u <= 0x200a) || u == 0x2028 || u == 0x2029 || u == 0x202f
        || u == 0x205f || u == 0x3000
}

/// Whether `c` is white space, as `char::is_whitespace` decides it.
pub fn is_whitespace(c: char) -> (r: bool)
    ensures
        r == is_white_space(c),
{
    let u = c as u32;
    (0x09 <= u && u <= 0x0d) || u == 0x20 || u == 0x85 || u == 0xa0 || u == 0x1680
        || (0x2000 <= u && u <= 0x200a) || u == 0x2028 || u == 0x2029 || u == 0x202f
        || u == 0x205f || u == 0x3000
}


/// Which characters are taken off the two ends of a text.
#[derive(Clone, Copy, PartialEq, Eq, Debug)]
pub enum Padding {
    /// Unicode white space.
    WhiteSpace,
    /// The NUL character, which selection owners may leave at the end of a buffer.
    Nul,
}

pub open spec fn pads(what: Padding, c: char) -> bool {
    match what {
        Padding::WhiteSpace => is_white_space(c),
        Padding::Nul => c == '\0',
    }
}

/// `s` without the padding characters at either end.
pub open spec fn strip(s: Seq<char>, what: Padding) -> Seq<char>
    decreases s.len(),
{
    if s.len() > 0 && pads(what, s[0]) {
        strip(s.drop_first(), what)
    } else if s.len() > 0 && pads(what, s.last()) {
        strip(s.drop_last(), what)
    } else {
        s
    }
}

/// `s` with white space taken off both ends, as `str::trim` gives it.
pub open spec fn trimmed(s: Seq<char>) -> Seq<char> {
    strip(s, Padding::WhiteSpace)
}

fn is_padding(what: Padding, c: char) -> (r: bool)
    ensures
        r == pads(what, c),
{
    match what {
        Padding::WhiteSpace => is_whitespace(c),
        Padding::Nul => c == '\0',
    }
}

/// A stripped text starts and ends with no padding character.
pub proof fn lemma_strip_ends(s: Seq<char>, what: Padding)
    ensures
        strip(s, what).len() > 0 ==> !pads(what, strip(s, what)[0]) && !pads(
            what,
            strip(s, what).last(),
        ),
    decreases s.len(),
{
    if s.len() > 0 && pads(what, s[0]) {
        lemma_strip_ends(s.drop_first(), what);
    } else if s.len() > 0 && pads(what, s.last()) {
        lemma_strip_ends(s.drop_last(), what);
    }
}

/// Stripping a text a second time changes nothing.
pub proof fn lemma_strip_idempotent(s: Seq<char>, what: Padding)
    ensures
        strip(strip(s, what), what) == strip(s, what),
{
    lemma_strip_ends(s, what);
    let t = strip(s, what);
    assert(strip(t, what) == t);
}

/// `s` with the padding characters taken off both ends.
pub fn strip_ends(s: &str, what: Padding) -> (r: String)
    ensures
        r@ == strip(s@, what),
{
    let n = s.unicode_len();
    let mut i: usize = 0;
    assert(s@.subrange(0, n as int) =~= s@);
    while i < n && is_padding(what, s.get_char(i))
        invariant
            n == s@.len(),
            i <= n,
            strip(s@, what) == strip(s@.subrange(i as int, n as int), what),
        decreases n - i,
    {
        let ghost sub = s@.subrange(i as int, n as int);
        assert(sub.drop_first() =~= s@.subrange(i + 1, n as int));
        i = i + 1;
    }
    let mut j: usize = n;
    while i < j && is_padding(what, s.get_char(j - 1))
        invariant
            n == s@.len(),
            i <= j <= n,
            i < j ==> !pads(what, s@[i as int]),
            strip(s@, what) == strip(s@.subrange(i as int, j as int), what),
        decreases j,
    {
        let ghost sub = s@.subrange(i as int, j as int);
        assert(sub.drop_last() =~= s@.subrange(i as int, j - 1));
        j = j - 1;
    }
    let kept = s.substring_char(i, j);
    kept.to_owned()
}

/// `s` with white space taken off both ends.
pub fn trim(s: &str) -> (r: String)
    ensures
        r@ == trimmed(s@),
        r@.len() > 0 ==> !is_white_space(r@[0]) && !is_white_space(r@.last()),
{
    proof {
        lemma_strip_ends(s@, Padding::WhiteSpace);
    }
    strip_ends(s, Padding::WhiteSpace)
}


/// What `String::from_utf8_lossy` makes of a byte sequence.
pub uninterp spec fn lossy_utf8(b: Seq<u8>) -> Seq<char>;

/// Relies on `String::from_utf8_lossy`: it decodes UTF-8, putting U+FFFD for each
/// invalid sequence, so the text depends on the bytes alone and no bytes give no text.
#[verifier::external_body]
fn decode_lossy(b: &Vec<u8>) -> (r: String)
    ensures
        r@ == lossy_utf8(b@),
        b@.len() == 0 ==> r@.len() == 0,
{
    String::from_utf8_lossy(b.as_slice()).into_owned()
}

/// What `String::from_utf8` makes of a byte sequence: the text it encodes,
/// or nothing when it is not valid UTF-8.
pub uninterp spec fn utf8_decoded(b: Seq<u8>) -> Option<Seq<char>>;

/// Relies on `String::from_utf8`: it succeeds exactly on valid UTF-8 and
/// then holds the characters that the bytes encode.
#[verifier::external_body]
pub(crate) fn decode_utf8(b: Vec<u8>) -> (r: Option<String>)
    ensures
        r is Some <==> utf8_decoded(b@) is Some,
        r matches Some(t) ==> utf8_decoded(b@) == Some(t@),
{
    String::from_utf8(b).ok()
}

/// The text held in a selection buffer: the bytes decoded, NULs taken off both
/// ends, then white space.
pub fn buffer_text(bytes: &Vec<u8>) -> (r: String)
    ensures
        r@ == trimmed(strip(lossy_utf8(bytes@), Padding::Nul)),
        bytes@.len() == 0 ==> r@.len() == 0,
{
    let decoded = decode_lossy(bytes);
    let no_nul = strip_ends(decoded.as_str(), Padding::Nul);
    proof {
        if bytes@.len() == 0 {
            assert(strip(decoded@, Padding::Nul) == decoded@);
            assert(strip(no_nul@, Padding::WhiteSpace) == no_nul@);
        }
    }
    trim(no_nul.as_str())
}

} // verus!

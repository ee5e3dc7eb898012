//! Small, fully specified string operations that the rest of the crate is
//! built from: decimal rendering, whitespace trimming, trailing-slash
//! stripping and percent-encoding of URL path segments.

use vstd::prelude::*;

verus! {

/// Appends one character to a `String` (`String::push`).
/// Trusted: the std documentation states that `push` appends the given
/// `char` to the end of the string.
#[verifier::external_body]
pub(crate) fn push_char(s: &mut String, c: char)
    ensures
        final(s)@ == old(s)@.push(c),
{
    s.push(c);
}

/// Appends a string slice to a `String`.
pub fn push_str(s: &mut String, t: &str)
    ensures
        final(s)@ == old(s)@ + t@,
{
    s.append(t);
}

/// An owned copy of a string slice.
pub fn owned(t: &str) -> (r: String)
    ensures
        r@ == t@,
{
    t.to_owned()
}

// ---------------------------------------------------------------------
// Decimal rendering
// ---------------------------------------------------------------------

/// The ASCII digit of a value below ten.
pub open spec fn digit_char(d: nat) -> char
    recommends
        d < 10,
{
    ((d + 48) as u32) as char
}

/// The shortest decimal rendering of `n`, with no sign and no leading zeros
/// (what `to_string` gives for an unsigned integer).
pub open spec fn decimal(n: nat) -> Seq<char>
    decreases n,
{
    if n < 10 {
        seq![digit_char(n)]
    } else {
        decimal(n / 10).push(digit_char(n % 10))
    }
}

fn digit(d: u32) -> (c: char)
    requires
        d < 10,
    ensures
        c == digit_char(d as nat),
{
    match d {
        0 => '0',
        1 => '1',
        2 => '2',
        3 => '3',
        4 => '4',
        5 => '5',
        6 => '6',
        7 => '7',
        8 => '8',
        _ => '9',
    }
}

/// Appends the decimal rendering of `n` to `s`.
pub fn push_decimal(s: &mut String, n: u32)
    ensures
        final(s)@ == old(s)@ + decimal(n as nat),
    decreases n,
{
    if n >= 10 {
        push_decimal(s, n / 10);
    }
    let d = digit(n % 10);
    push_char(s, d);
    proof {
        if n < 10 {
            assert(decimal(n as nat) == seq![digit_char(n as nat)]);
        }
    }
    assert(s@ =~= old(s)@ + decimal(n as nat));
}

/// The decimal rendering of `n` as a new `String`.
pub fn decimal_string(n: u32) -> (r: String)
    ensures
        r@ == decimal(n as nat),
{
    let mut s = String::new();
    push_decimal(&mut s, n);
    assert(s@ =~= decimal(n as nat));
    s
}

// ---------------------------------------------------------------------
// Characters of a string
// ---------------------------------------------------------------------

/// The characters of a string slice, in order.
pub fn chars_of(t: &str) -> (r: Vec<char>)
    ensures
        r@ == t@,
{
    let mut out: Vec<char> = Vec::new();
    for c in it: t.chars()
        invariant
            it.seq() == t@,
            out@ == it.seq().take(it.index() as int),
    {
        out.push(c);
        assert(out@ =~= it.seq().take(it.index() as int + 1));
    }
    assert(out@ =~= t@);
    out
}

/// Whether two string slices hold the same text.
pub fn same_text(a: &str, b: &str) -> (r: bool)
    ensures
        r == (a@ == b@),
{
    let x = chars_of(a);
    let y = chars_of(b);
    if x.len() != y.len() {
        return false;
    }
    let mut i: usize = 0;
    while i < x.len()
        invariant
            i <= x@.len() == y@.len(),
            x@ == a@,
            y@ == b@,
            forall|k: int| 0 <= k < i ==> x@[k] == y@[k],
        decreases x.len() - i,
    {
        if x[i] != y[i] {
            return false;
        }
        i = i + 1;
    }
    assert(x@ =~= y@);
    true
}

/// A `String` holding `v[lo..hi]`.
pub fn string_of_range(v: &Vec<char>, lo: usize, hi: usize) -> (r: String)
    requires
        lo <= hi <= v.len(),
    ensures
        r@ == v@.subrange(lo as int, hi as int),
{
    let mut s = String::new();
    let mut i = lo;
    while i < hi
        invariant
            lo <= i <= hi <= v.len(),
            s@ == v@.subrange(lo as int, i as int),
        decreases hi - i,
    {
        push_char(&mut s, v[i]);
        i = i + 1;
        assert(s@ =~= v@.subrange(lo as int, i as int));
    }
    s
}

// ---------------------------------------------------------------------
// Whitespace trimming
// ---------------------------------------------------------------------

/// Unicode `White_Space`, the property `char::is_whitespace` tests.
pub open spec fn is_white_space(c: char) -> bool {
    let u = c as u32;
    ||| 0x09 <= u <= 0x0d
    ||| u == 0x20
    ||| u == 0x85
    ||| u == 0xa0
    ||| u == 0x1680
    ||| 0x2000 <= u <= 0x200a
    ||| u == 0x2028
    ||| u == 0x2029
    ||| u == 0x202f
    ||| u == 0x205f
    ||| u == 0x3000
}

/// `s` without its leading white space.
pub open spec fn trim_start(s: Seq<char>) -> Seq<char>
    decreases s.len(),
{
    if s.len() > 0 && is_white_space(s[0]) {
        trim_start(s.drop_first())
    } else {
        s
    }
}

/// `s` without its trailing white space.
pub open spec fn trim_end(s: Seq<char>) -> Seq<char>
    decreases s.len(),
{
    if s.len() > 0 && is_white_space(s.last()) {
        trim_end(s.drop_last())
    } else {
        s
    }
}

/// `s` without leading and trailing white space (what `str::trim` gives).
pub open spec fn trim(s: Seq<char>) -> Seq<char> {
    trim_end(trim_start(s))
}

fn white_space(c: char) -> (b: bool)
    ensures
        b == is_white_space(c),
{
    let u = c as u32;
    (0x09 <= u && u <= 0x0d) || u == 0x20 || u == 0x85 || u == 0xa0 || u == 0x1680
        || (0x2000 <= u && u <= 0x200a) || u == 0x2028 || u == 0x2029 || u == 0x202f
        || u == 0x205f || u == 0x3000
}

proof fn lemma_trim_start_step(s: Seq<char>, i: int)
    requires
        0 <= i < s.len(),
        is_white_space(s[i]),
    ensures
        trim_start(s.subrange(i, s.len() as int)) == trim_start(s.subrange(i + 1, s.len() as int)),
{
    assert(s.subrange(i, s.len() as int).drop_first() =~= s.subrange(i + 1, s.len() as int));
}

proof fn lemma_trim_end_of_suffix(s: Seq<char>, lo: int, j: int)
    requires
        0 <= lo <= j <= s.len(),
        forall|k: int| j <= k < s.len() ==> is_white_space(#[trigger] s[k]),
    ensures
        trim_end(s.subrange(lo, s.len() as int)) == trim_end(s.subrange(lo, j)),
    decreases s.len() - j,
{
    if j < s.len() {
        let t = s.subrange(lo, s.len() as int);
        assert(t.drop_last() =~= s.subrange(lo, s.len() - 1));
        lemma_trim_end_of_suffix(s.subrange(0, s.len() - 1), lo, j);
        assert(s.subrange(0, s.len() - 1).subrange(lo, s.len() - 1) =~= s.subrange(lo, s.len() - 1));
        assert(s.subrange(0, s.len() - 1).subrange(lo, j) =~= s.subrange(lo, j));
    }
}

/// `t` with leading and trailing white space removed (`str::trim`).
pub fn trim_white_space(t: &str) -> (r: String)
    ensures
        r@ == trim(t@),
{
    let v = chars_of(t);
    let n = v.len();
    let mut lo: usize = 0;
    assert(v@.subrange(0, n as int) =~= v@);
    while lo < n && white_space(v[lo])
        invariant
            lo <= n == v@.len(),
            trim_start(v@) == trim_start(v@.subrange(lo as int, n as int)),
        decreases n - lo,
    {
        proof {
            lemma_trim_start_step(v@, lo as int);
        }
        lo = lo + 1;
    }
    let ghost rest = v@.subrange(lo as int, n as int);
    assert(trim_start(v@) == rest) by {
        if rest.len() > 0 {
            assert(rest[0] == v@[lo as int]);
        }
    }
    let mut hi: usize = n;
    while hi > lo && white_space(v[hi - 1])
        invariant
            lo <= hi <= n == v@.len(),
            forall|k: int| hi <= k < n ==> is_white_space(#[trigger] v@[k]),
        decreases hi,
    {
        hi = hi - 1;
    }
    proof {
        lemma_trim_end_of_suffix(v@, lo as int, hi as int);
        let mid = v@.subrange(lo as int, hi as int);
        if mid.len() > 0 {
            assert(mid.last() == v@[hi - 1]);
        }
        assert(trim_end(mid) == mid);
    }
    string_of_range(&v, lo, hi)
}

// ---------------------------------------------------------------------
// Trailing slashes
// ---------------------------------------------------------------------

/// `s` without any trailing `/` (what `trim_end_matches('/')` gives).
pub open spec fn trim_end_slashes(s: Seq<char>) -> Seq<char>
    decreases s.len(),
{
    if s.len() > 0 && s.last() == '/' {
        trim_end_slashes(s.drop_last())
    } else {
        s
    }
}

proof fn lemma_trim_end_slashes_of_suffix(s: Seq<char>, j: int)
    requires
        0 <= j <= s.len(),
        forall|k: int| j <= k < s.len() ==> #[trigger] s[k] == '/',
    ensures
        trim_end_slashes(s) == trim_end_slashes(s.subrange(0, j)),
    decreases s.len() - j,
{
    if j < s.len() {
        assert(s[s.len() - 1] == '/');
        assert(s.drop_last() =~= s.subrange(0, s.len() - 1));
        lemma_trim_end_slashes_of_suffix(s.drop_last(), j);
        assert(s.drop_last().subrange(0, j) =~= s.subrange(0, j));
    } else {
        assert(s.subrange(0, j) =~= s);
    }
}

/// `t` with every trailing `/` removed.
pub fn strip_trailing_slashes(t: &str) -> (r: String)
    ensures
        r@ == trim_end_slashes(t@),
{
    let v = chars_of(t);
    let mut hi: usize = v.len();
    while hi > 0 && v[hi - 1] == '/'
        invariant
            hi <= v@.len(),
            forall|k: int| hi <= k < v@.len() ==> #[trigger] v@[k] == '/',
        decreases hi,
    {
        hi = hi - 1;
    }
    proof {
        lemma_trim_end_slashes_of_suffix(v@, hi as int);
        let head = v@.subrange(0, hi as int);
        if head.len() > 0 {
            assert(head.last() == v@[hi - 1]);
        }
    }
    string_of_range(&v, 0, hi)
}

// ---------------------------------------------------------------------
// Percent-encoding of a URL path segment
// ---------------------------------------------------------------------

/// RFC 3986 unreserved bytes: letters, digits, `-`, `.`, `_`, `~`.
pub open spec fn is_unreserved(b: u8) -> bool {
    ||| 0x41 <= b <= 0x5a
    ||| 0x61 <= b <= 0x7a
    ||| 0x30 <= b <= 0x39
    ||| b == 0x2d
    ||| b == 0x2e
    ||| b == 0x5f
    ||| b == 0x7e
}

/// The upper-case hexadecimal digit of a value below sixteen.
pub open spec fn hex_char(d: nat) -> char
    recommends
        d < 16,
{
    if d < 10 {
        ((d + 48) as u32) as char
    } else {
        ((d + 55) as u32) as char
    }
}

/// One byte as it stands in an encoded path segment: itself when
/// unreserved, else `%` and two upper-case hexadecimal digits.
pub open spec fn encode_byte(b: u8) -> Seq<char> {
    if is_unreserved(b) {
        seq![(b as u32) as char]
    } else {
        seq!['%', hex_char(b as nat / 16), hex_char(b as nat % 16)]
    }
}

/// A byte string percent-encoded as one URL path segment.
pub open spec fn percent_encode(bytes: Seq<u8>) -> Seq<char>
    decreases bytes.len(),
{
    if bytes.len() == 0 {
        Seq::empty()
    } else {
        percent_encode(bytes.drop_last()) + encode_byte(bytes.last())
    }
}

fn hex(d: u8) -> (c: char)
    requires
        d < 16,
    ensures
        c == hex_char(d as nat),
{
    match d {
        0 => '0',
        1 => '1',
        2 => '2',
        3 => '3',
        4 => '4',
        5 => '5',
        6 => '6',
        7 => '7',
        8 => '8',
        9 => '9',
        10 => 'A',
        11 => 'B',
        12 => 'C',
        13 => 'D',
        14 => 'E',
        _ => 'F',
    }
}

/// Appends the encoding of one byte to `s`.
fn push_encoded_byte(s: &mut String, b: u8)
    ensures
        final(s)@ == old(s)@ + encode_byte(b),
{
    let unreserved = (0x41 <= b && b <= 0x5a) || (0x61 <= b && b <= 0x7a) || (0x30 <= b && b
        <= 0x39) || b == 0x2d || b == 0x2e || b == 0x5f || b == 0x7e;
    if unreserved {
        let c = b as char;
        assert(c == (b as u32) as char);
        push_char(s, c);
    } else {
        push_char(s, '%');
        push_char(s, hex(b / 16));
        push_char(s, hex(b % 16));
    }
    assert(s@ =~= old(s)@ + encode_byte(b));
}

/// Appends the UTF-8 bytes of `t`, percent-encoded, to `s`.
pub fn push_path_segment(s: &mut String, t: &str)
    ensures
        final(s)@ == old(s)@ + percent_encode(vstd::utf8::encode_utf8(t@)),
{
    let bytes = t.as_bytes();
    let ghost start = s@;
    let mut i: usize = 0;
    assert(bytes@.take(0) =~= Seq::<u8>::empty());
    while i < bytes.len()
        invariant
            i <= bytes@.len(),
            bytes@ == vstd::utf8::encode_utf8(t@),
            s@ == start + percent_encode(bytes@.take(i as int)),
        decreases bytes.len() - i,
    {
        push_encoded_byte(s, bytes[i]);
        assert(bytes@.take(i as int + 1).drop_last() =~= bytes@.take(i as int));
        i = i + 1;
        assert(s@ =~= start + percent_encode(bytes@.take(i as int)));
    }
    assert(bytes@.take(i as int) =~= bytes@);
}

// ---------------------------------------------------------------------
// Laws of the text operations
// ---------------------------------------------------------------------

/// Stripping trailing slashes leaves no trailing slash behind.
pub proof fn stripped_has_no_trailing_slash(s: Seq<char>)
    ensures
        trim_end_slashes(s).len() == 0 || trim_end_slashes(s).last() != '/',
        trim_end_slashes(s).len() <= s.len(),
    decreases s.len(),
{
    if s.len() > 0 && s.last() == '/' {
        stripped_has_no_trailing_slash(s.drop_last());
    }
}

/// Stripping trailing slashes twice is stripping them once.
pub proof fn strip_trailing_slashes_idempotent(s: Seq<char>)
    ensures
        trim_end_slashes(trim_end_slashes(s)) == trim_end_slashes(s),
{
    stripped_has_no_trailing_slash(s);
}

/// A trailing slash makes no difference once trailing slashes are stripped.
pub proof fn trailing_slash_is_ignored(s: Seq<char>)
    ensures
        trim_end_slashes(s.push('/')) == trim_end_slashes(s),
{
    assert(s.push('/').drop_last() =~= s);
}

/// Whether `c` can stand in a percent-encoded path segment: an unreserved
/// ASCII character or `%`.
pub open spec fn segment_char(c: char) -> bool {
    ||| c == '%'
    ||| ('A' <= c <= 'Z')
    ||| ('a' <= c <= 'z')
    ||| ('0' <= c <= '9')
    ||| c == '-'
    ||| c == '.'
    ||| c == '_'
    ||| c == '~'
}

/// A percent-encoded segment holds only unreserved characters and `%`; in
/// particular no `/`, `?` or `#` that would take it out of its place in a
/// URL.
pub proof fn encoded_segment_is_confined(bytes: Seq<u8>)
    ensures
        forall|i: int| 0 <= i < percent_encode(bytes).len() ==> segment_char(
            #[trigger] percent_encode(bytes)[i],
        ),
    decreases bytes.len(),
{
    if bytes.len() > 0 {
        encoded_segment_is_confined(bytes.drop_last());
        let b = bytes.last();
        let e = encode_byte(b);
        assert forall|i: int| 0 <= i < e.len() implies segment_char(#[trigger] e[i]) by {
            if !is_unreserved(b) {
                assert(b as nat / 16 < 16);
                assert(b as nat % 16 < 16);
            }
        }
        let head = percent_encode(bytes.drop_last());
        assert forall|i: int| 0 <= i < percent_encode(bytes).len() implies segment_char(
            #[trigger] percent_encode(bytes)[i],
        ) by {
            if i < head.len() {
                assert(percent_encode(bytes)[i] == head[i]);
            } else {
                assert(percent_encode(bytes)[i] == e[i - head.len()]);
            }
        }
    }
}

/// Bytes that are all unreserved are their own encoding, character for
/// byte.
pub proof fn unreserved_segment_is_unchanged(bytes: Seq<u8>)
    requires
        forall|i: int| 0 <= i < bytes.len() ==> is_unreserved(#[trigger] bytes[i]),
    ensures
        percent_encode(bytes) == bytes.map_values(|b: u8| (b as u32) as char),
    decreases bytes.len(),
{
    if bytes.len() > 0 {
        unreserved_segment_is_unchanged(bytes.drop_last());
        assert(is_unreserved(bytes[bytes.len() - 1]));
        assert(bytes.map_values(|b: u8| (b as u32) as char) =~= bytes.drop_last().map_values(
            |b: u8| (b as u32) as char,
        ).push((bytes.last() as u32) as char));
    } else {
        assert(bytes.map_values(|b: u8| (b as u32) as char) =~= Seq::<char>::empty());
    }
}

proof fn lemma_trim_start_shape(s: Seq<char>)
    ensures
        trim_start(s).len() == 0 || !is_white_space(trim_start(s)[0]),
        trim_start(s).len() <= s.len(),
        trim_start(s) == s.subrange(s.len() - trim_start(s).len(), s.len() as int),
    decreases s.len(),
{
    if s.len() > 0 && is_white_space(s[0]) {
        lemma_trim_start_shape(s.drop_first());
        let t = trim_start(s.drop_first());
        assert(s.drop_first().subrange(s.drop_first().len() - t.len(), s.drop_first().len() as int)
            =~= s.subrange(s.len() - t.len(), s.len() as int));
    } else {
        assert(s.subrange(0, s.len() as int) =~= s);
    }
}

proof fn lemma_trim_end_shape(s: Seq<char>)
    ensures
        trim_end(s).len() == 0 || !is_white_space(trim_end(s).last()),
        trim_end(s).len() <= s.len(),
        trim_end(s) == s.subrange(0, trim_end(s).len() as int),
    decreases s.len(),
{
    if s.len() > 0 && is_white_space(s.last()) {
        lemma_trim_end_shape(s.drop_last());
        let t = trim_end(s.drop_last());
        assert(s.drop_last().subrange(0, t.len() as int) =~= s.subrange(0, t.len() as int));
    } else {
        assert(s.subrange(0, s.len() as int) =~= s);
    }
}

/// Trimming leaves neither leading nor trailing white space, and what is
/// left is a contiguous part of the text.
pub proof fn trimmed_text_has_no_outer_white_space(s: Seq<char>)
    ensures
        trim(s).len() == 0 || (!is_white_space(trim(s)[0]) && !is_white_space(trim(s).last())),
        exists|lo: int|
            0 <= lo <= lo + trim(s).len() <= s.len() && trim(s) == #[trigger] s.subrange(
                lo,
                lo + trim(s).len(),
            ),
{
    let a = trim_start(s);
    lemma_trim_start_shape(s);
    lemma_trim_end_shape(a);
    let t = trim_end(a);
    if t.len() > 0 {
        assert(t[0] == a[0]);
    }
    let lo = s.len() - a.len();
    assert(t =~= s.subrange(lo, lo + t.len()));
}

/// Whether a path is absolute: it begins with `/`.
pub open spec fn is_absolute(p: Seq<char>) -> bool {
    p.len() > 0 && p[0] == '/'
}

/// Whether `t` begins with `/`.
pub fn starts_with_slash(t: &str) -> (r: bool)
    ensures
        r == is_absolute(t@),
{
    let v = chars_of(t);
    v.len() > 0 && v[0] == '/'
}

/// `n` slashes.
pub open spec fn slashes(n: nat) -> Seq<char> {
    Seq::new(n, |i: int| '/')
}

/// Stripping trailing slashes keeps a prefix of the text, and what it drops
/// is all slashes.
pub proof fn stripped_is_prefix(s: Seq<char>)
    ensures
        trim_end_slashes(s).len() <= s.len(),
        trim_end_slashes(s) == s.subrange(0, trim_end_slashes(s).len() as int),
        forall|k: int| trim_end_slashes(s).len() <= k < s.len() ==> #[trigger] s[k] == '/',
    decreases s.len(),
{
    if s.len() > 0 && s.last() == '/' {
        stripped_is_prefix(s.drop_last());
        let t = trim_end_slashes(s.drop_last());
        assert(s.drop_last().subrange(0, t.len() as int) =~= s.subrange(0, t.len() as int));
        assert forall|k: int| t.len() <= k < s.len() implies #[trigger] s[k] == '/' by {
            if k < s.len() - 1 {
                assert(s.drop_last()[k] == s[k]);
            }
        }
    } else {
        assert(s.subrange(0, s.len() as int) =~= s);
    }
}

/// A text that does not begin with `/` keeps its first character when its
/// trailing slashes are stripped.
pub proof fn stripped_keeps_first(s: Seq<char>)
    requires
        s.len() > 0,
        s[0] != '/',
    ensures
        trim_end_slashes(s).len() > 0,
        trim_end_slashes(s)[0] == s[0],
{
    stripped_is_prefix(s);
    if trim_end_slashes(s).len() == 0 {
        assert(s[0] == '/');
    }
}

/// Any number of trailing slashes makes no difference once trailing slashes
/// are stripped.
pub proof fn trailing_slashes_are_ignored(s: Seq<char>, n: nat)
    ensures
        trim_end_slashes(s + slashes(n)) == trim_end_slashes(s),
    decreases n,
{
    if n == 0 {
        assert(s + slashes(0) =~= s);
    } else {
        trailing_slashes_are_ignored(s, (n - 1) as nat);
        assert(s + slashes(n) =~= (s + slashes((n - 1) as nat)).push('/'));
        trailing_slash_is_ignored(s + slashes((n - 1) as nat));
    }
}

/// The number a string of decimal digits denotes, reading each character as
/// its distance from `'0'`.
pub open spec fn decimal_value(s: Seq<char>) -> int
    decreases s.len(),
{
    if s.len() == 0 {
        0
    } else {
        decimal_value(s.drop_last()) * 10 + ((s.last() as u32) - ('0' as u32))
    }
}

/// The digit characters are the ASCII digits: `digit_char(d)` is the
/// character `d` places after `'0'`, for every `d` below ten.
pub proof fn digit_chars_are_ascii_digits(d: nat)
    requires
        d < 10,
    ensures
        digit_char(d) as u32 == '0' as u32 + d,
        '0' <= digit_char(d) <= '9',
{
}

/// `decimal(n)` is the base-10 numeral of `n`: it is made of ASCII digits,
/// it has no leading zero unless it is `0`, and read back as a base-10
/// number it gives `n`.
pub proof fn decimal_reads_back(n: nat)
    ensures
        decimal_value(decimal(n)) == n,
        forall|i: int| 0 <= i < decimal(n).len() ==> '0' <= #[trigger] decimal(n)[i] <= '9',
        decimal(n).len() >= 1,
        decimal(n)[0] == '0' ==> n == 0,
    decreases n,
{
    if n < 10 {
        digit_chars_are_ascii_digits(n);
        assert(decimal(n).drop_last() =~= Seq::<char>::empty());
        assert(decimal(n).last() == digit_char(n));
        assert(decimal_value(Seq::<char>::empty()) == 0);
    } else {
        decimal_reads_back(n / 10);
        digit_chars_are_ascii_digits(n % 10);
        let head = decimal(n / 10);
        assert(decimal(n).drop_last() =~= head);
        assert(decimal(n).last() == digit_char(n % 10));
        assert(decimal(n)[0] == head[0]);
        assert((n / 10) * 10 + n % 10 == n);
        assert forall|i: int| 0 <= i < decimal(n).len() implies '0' <= #[trigger] decimal(n)[i]
            <= '9' by {
            if i < head.len() {
                assert(decimal(n)[i] == head[i]);
            }
        }
        assert(n / 10 > 0);
    }
}

} // verus!

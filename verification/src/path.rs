//! Resolving a request path into the resource it names.
//!
//! A path is read as its UTF-8 bytes. Every byte that the rules below look for
//! is ASCII, so a name never ends inside a character.

use crate::errors::{S3Error, S3ErrorCodeKind, S3ErrorView, S3HTTPError, S3HTTPErrorView};
use vstd::prelude::*;
use vstd::string::*;
use vstd::utf8::*;

verus! {

pub const SLASH: u8 = 0x2f;

pub const DOT: u8 = 0x2e;

pub const HYPHEN: u8 = 0x2d;

pub const ZERO: u8 = 0x30;

/// The longest key, in bytes.
pub const MAX_KEY_LEN: usize = 1024;

/// An ASCII digit.
pub open spec fn is_digit(b: u8) -> bool {
    0x30 <= b <= 0x39
}

/// A lowercase ASCII letter or a digit: what a bucket name starts and ends with.
pub open spec fn is_lower_or_digit(b: u8) -> bool {
    (0x61 <= b <= 0x7a) || is_digit(b)
}

/// A byte that may stand in a bucket name.
pub open spec fn is_name_byte(b: u8) -> bool {
    is_lower_or_digit(b) || b == DOT || b == HYPHEN
}

/// The number that a run of digits writes in base ten.
pub open spec fn decimal(digits: Seq<u8>) -> int
    decreases digits.len(),
{
    if digits.len() == 0 {
        0
    } else {
        10 * decimal(digits.drop_last()) + (digits.last() - ZERO)
    }
}

/// One part of a dotted quad: one to three digits, no zero in front of
/// another digit, and a value of at most 255.
pub open spec fn is_octet(part: Seq<u8>) -> bool {
    &&& 1 <= part.len() <= 3
    &&& forall|i: int| 0 <= i < part.len() ==> is_digit(#[trigger] part[i])
    &&& part.len() > 1 ==> part[0] != ZERO
    &&& decimal(part) <= 255
}

/// `name` is four octets with dots at `i`, `j` and `k` between them.
pub open spec fn dotted_quad_at(name: Seq<u8>, i: int, j: int, k: int) -> bool {
    &&& 0 <= i < j < k < name.len()
    &&& name[i] == DOT && name[j] == DOT && name[k] == DOT
    &&& is_octet(name.subrange(0, i))
    &&& is_octet(name.subrange(i + 1, j))
    &&& is_octet(name.subrange(j + 1, k))
    &&& is_octet(name.subrange(k + 1, name.len() as int))
}

/// Whether `name` reads as an IP address. Only the dotted quad of IPv4 is
/// looked for: an IPv6 address holds a colon, which no bucket name does.
pub open spec fn is_ip_literal(name: Seq<u8>) -> bool {
    exists|i: int, j: int, k: int| dotted_quad_at(name, i, j, k)
}

/// The bytes of `xn--`, which no bucket name starts with.
pub open spec fn punycode_prefix() -> Seq<u8> {
    seq![0x78u8, 0x6eu8, HYPHEN, HYPHEN]
}

/// The naming rule of buckets.
pub open spec fn valid_bucket_name(name: Seq<u8>) -> bool {
    &&& 3 <= name.len() <= 63
    &&& forall|i: int| 0 <= i < name.len() ==> is_name_byte(#[trigger] name[i])
    &&& is_lower_or_digit(name.first())
    &&& is_lower_or_digit(name.last())
    &&& !is_ip_literal(name)
    &&& !(name.len() >= 4 && name.subrange(0, 4) == punycode_prefix())
}

/// The length rule of keys.
pub open spec fn valid_key(key: Seq<u8>) -> bool {
    key.len() <= MAX_KEY_LEN
}

/// Where the run of digits that starts at `start` ends: `end` is the first
/// index from `start` on that holds no digit, or the length of `s`.
pub open spec fn digits_end_at(s: Seq<u8>, start: int, end: int) -> bool {
    &&& 0 <= start <= end <= s.len()
    &&& forall|x: int| start <= x < end ==> is_digit(#[trigger] s[x])
    &&& end < s.len() ==> !is_digit(s[end])
}

proof fn lemma_digits_end_unique(s: Seq<u8>, start: int, e1: int, e2: int)
    requires
        digits_end_at(s, start, e1),
        digits_end_at(s, start, e2),
    ensures
        e1 == e2,
{
    if e1 < e2 {
        assert(is_digit(s[e1]));
    } else if e2 < e1 {
        assert(is_digit(s[e2]));
    }
}

/// An octet that lies in `s` from `start` and is followed by a dot or by the
/// end of `s` ends where the digits end.
proof fn lemma_octet_ends_with_digits(s: Seq<u8>, start: int, end: int)
    requires
        0 <= start <= end <= s.len(),
        is_octet(s.subrange(start, end)),
        end < s.len() ==> s[end] == DOT,
    ensures
        digits_end_at(s, start, end),
{
    let part = s.subrange(start, end);
    assert forall|x: int| start <= x < end implies is_digit(#[trigger] s[x]) by {
        assert(part[x - start] == s[x]);
    }
}

proof fn lemma_decimal_push(s: Seq<u8>, start: int, end: int)
    requires
        0 <= start <= end < s.len(),
    ensures
        decimal(s.subrange(start, end + 1)) == 10 * decimal(s.subrange(start, end)) + (s[end]
            - ZERO),
{
    let longer = s.subrange(start, end + 1);
    assert(longer.drop_last() =~= s.subrange(start, end));
    assert(longer.last() == s[end]);
}

/// Reads the octet that starts at `start`. `Some(end)` says that the digits
/// from `start` to `end` are an octet and stop at `end`; `None` says that the
/// digits that start there are no octet.
fn read_octet(name: &[u8], start: usize) -> (end: Option<usize>)
    requires
        start <= name@.len(),
    ensures
        match end {
            Some(end) => digits_end_at(name@, start as int, end as int) && is_octet(
                name@.subrange(start as int, end as int),
            ),
            None => forall|e: int|
                digits_end_at(name@, start as int, e) ==> !is_octet(
                    #[trigger] name@.subrange(start as int, e),
                ),
        },
{
    let len = name.len();
    let mut pos: usize = start;
    let mut value: u16 = 0;
    while pos < len && pos - start < 3 && name[pos] >= 0x30 && name[pos] <= 0x39
        invariant
            start <= pos <= len,
            len == name@.len(),
            pos - start <= 3,
            forall|x: int| start <= x < pos ==> is_digit(#[trigger] name@[x]),
            value == decimal(name@.subrange(start as int, pos as int)),
            value <= 999,
            pos - start <= 2 ==> value <= 99,
            pos - start <= 1 ==> value <= 9,
            pos == start ==> value == 0,
        decreases len - pos,
    {
        proof {
            lemma_decimal_push(name@, start as int, pos as int);
        }
        value = value * 10 + (name[pos] - 0x30) as u16;
        pos = pos + 1;
    }
    let ghost part = name@.subrange(start as int, pos as int);
    if pos < len && name[pos] >= 0x30 && name[pos] <= 0x39 {
        // a fourth digit follows: the run is too long for an octet
        proof {
            assert forall|e: int| digits_end_at(name@, start as int, e) implies !is_octet(
                #[trigger] name@.subrange(start as int, e),
            ) by {
                if e <= pos {
                    assert(is_digit(name@[e]));
                }
            }
        }
        return None;
    }
    proof {
        assert(digits_end_at(name@, start as int, pos as int));
        assert forall|e: int| digits_end_at(name@, start as int, e) implies e == pos by {
            lemma_digits_end_unique(name@, start as int, e, pos as int);
        }
        assert forall|x: int| 0 <= x < part.len() implies is_digit(#[trigger] part[x]) by {
            assert(part[x] == name@[start + x]);
        }
    }
    if pos == start || value > 255 || (pos - start > 1 && name[start] == 0x30) {
        proof {
            if pos - start > 1 {
                assert(part[0] == name@[start as int]);
            }
        }
        return None;
    }
    proof {
        if pos - start > 1 {
            assert(part[0] == name@[start as int]);
        }
    }
    Some(pos)
}

/// The dots of a dotted quad stand where the runs of digits end.
proof fn lemma_quad_dots(s: Seq<u8>, i: int, j: int, k: int)
    requires
        dotted_quad_at(s, i, j, k),
    ensures
        digits_end_at(s, 0, i),
        digits_end_at(s, i + 1, j),
        digits_end_at(s, j + 1, k),
        digits_end_at(s, k + 1, s.len() as int),
{
    lemma_octet_ends_with_digits(s, 0, i);
    lemma_octet_ends_with_digits(s, i + 1, j);
    lemma_octet_ends_with_digits(s, j + 1, k);
    lemma_octet_ends_with_digits(s, k + 1, s.len() as int);
}

/// Whether `name` is a dotted quad.
fn is_ipv4_literal(name: &[u8]) -> (found: bool)
    ensures
        found == is_ip_literal(name@),
{
    let len = name.len();
    let ghost s = name@;
    let i = match read_octet(name, 0) {
        Some(end) => end,
        None => {
            proof {
                assert forall|i2: int, j2: int, k2: int| !dotted_quad_at(s, i2, j2, k2) by {
                    if dotted_quad_at(s, i2, j2, k2) {
                        lemma_quad_dots(s, i2, j2, k2);
                    }
                }
            }
            return false;
        },
    };
    if i >= len || name[i] != DOT {
        proof {
            assert forall|i2: int, j2: int, k2: int| !dotted_quad_at(s, i2, j2, k2) by {
                if dotted_quad_at(s, i2, j2, k2) {
                    lemma_quad_dots(s, i2, j2, k2);
                    lemma_digits_end_unique(s, 0, i2, i as int);
                }
            }
        }
        return false;
    }
    let j = match read_octet(name, i + 1) {
        Some(end) => end,
        None => {
            proof {
                assert forall|i2: int, j2: int, k2: int| !dotted_quad_at(s, i2, j2, k2) by {
                    if dotted_quad_at(s, i2, j2, k2) {
                        lemma_quad_dots(s, i2, j2, k2);
                        lemma_digits_end_unique(s, 0, i2, i as int);
                    }
                }
            }
            return false;
        },
    };
    if j >= len || name[j] != DOT {
        proof {
            assert forall|i2: int, j2: int, k2: int| !dotted_quad_at(s, i2, j2, k2) by {
                if dotted_quad_at(s, i2, j2, k2) {
                    lemma_quad_dots(s, i2, j2, k2);
                    lemma_digits_end_unique(s, 0, i2, i as int);
                    lemma_digits_end_unique(s, i + 1, j2, j as int);
                }
            }
        }
        return false;
    }
    let k = match read_octet(name, j + 1) {
        Some(end) => end,
        None => {
            proof {
                assert forall|i2: int, j2: int, k2: int| !dotted_quad_at(s, i2, j2, k2) by {
                    if dotted_quad_at(s, i2, j2, k2) {
                        lemma_quad_dots(s, i2, j2, k2);
                        lemma_digits_end_unique(s, 0, i2, i as int);
                        lemma_digits_end_unique(s, i + 1, j2, j as int);
                    }
                }
            }
            return false;
        },
    };
    if k >= len || name[k] != DOT {
        proof {
            assert forall|i2: int, j2: int, k2: int| !dotted_quad_at(s, i2, j2, k2) by {
                if dotted_quad_at(s, i2, j2, k2) {
                    lemma_quad_dots(s, i2, j2, k2);
                    lemma_digits_end_unique(s, 0, i2, i as int);
                    lemma_digits_end_unique(s, i + 1, j2, j as int);
                    lemma_digits_end_unique(s, j + 1, k2, k as int);
                }
            }
        }
        return false;
    }
    let end = read_octet(name, k + 1);
    let whole = match end {
        Some(end) => end == len,
        None => false,
    };
    proof {
        if whole {
            assert(dotted_quad_at(s, i as int, j as int, k as int));
        } else {
            assert forall|i2: int, j2: int, k2: int| !dotted_quad_at(s, i2, j2, k2) by {
                if dotted_quad_at(s, i2, j2, k2) {
                    lemma_quad_dots(s, i2, j2, k2);
                    lemma_digits_end_unique(s, 0, i2, i as int);
                    lemma_digits_end_unique(s, i + 1, j2, j as int);
                    lemma_digits_end_unique(s, j + 1, k2, k as int);
                    if end is Some {
                        lemma_digits_end_unique(s, k + 1, s.len() as int, end->0 as int);
                    }
                }
            }
        }
    }
    whole
}

/// What a path names: the store itself, a bucket, or an object in a bucket.
pub enum Resource {
    Root,
    Bucket { bucket: Seq<u8> },
    Object { bucket: Seq<u8>, key: Seq<u8> },
}

/// How many bytes of `s` come before its first slash: all of them where it
/// has none.
pub open spec fn segment_len(s: Seq<u8>) -> int
    decreases s.len(),
{
    if s.len() == 0 || s[0] == SLASH {
        0
    } else {
        1 + segment_len(s.drop_first())
    }
}

/// What follows the first slash of `s`: nothing where it has none.
pub open spec fn after_segment(s: Seq<u8>) -> Seq<u8> {
    if segment_len(s) < s.len() {
        s.skip(segment_len(s) + 1)
    } else {
        Seq::empty()
    }
}

/// The resource that a decoded path names, or the kind of error it is
/// rejected with.
///
/// The path starts with a slash. What follows is empty (the root), or a bucket
/// name, or a bucket name, a slash and a key. A bucket name followed by a
/// slash alone names the bucket.
pub open spec fn resolve(path: Seq<u8>) -> Result<Resource, S3ErrorCodeKind> {
    if path.len() == 0 || path[0] != SLASH {
        Err(S3ErrorCodeKind::InvalidURI)
    } else {
        let rest = path.drop_first();
        let bucket = rest.take(segment_len(rest));
        let key = after_segment(rest);
        if rest.len() == 0 {
            Ok(Resource::Root)
        } else if !valid_bucket_name(bucket) {
            Err(S3ErrorCodeKind::InvalidBucketName)
        } else if key.len() == 0 {
            Ok(Resource::Bucket { bucket })
        } else if !valid_key(key) {
            Err(S3ErrorCodeKind::KeyTooLongError)
        } else {
            Ok(Resource::Object { bucket, key })
        }
    }
}

/// The first segment of `s` ends at `n` where no slash comes before `n` and
/// `n` holds one or is the end.
pub proof fn lemma_segment_len(s: Seq<u8>, n: int)
    requires
        0 <= n <= s.len(),
        forall|x: int| 0 <= x < n ==> s[x] != SLASH,
        n < s.len() ==> s[n] == SLASH,
    ensures
        segment_len(s) == n,
    decreases n,
{
    if n > 0 {
        let tail = s.drop_first();
        assert forall|x: int| 0 <= x < n - 1 implies tail[x] != SLASH by {
            assert(tail[x] == s[x + 1]);
        }
        lemma_segment_len(tail, n - 1);
    }
}

/// A request path, resolved.
#[derive(Debug, PartialEq, Eq)]
pub enum S3Path {
    Root,
    Bucket { bucket: String },
    Object { bucket: String, key: String },
}

impl S3Path {
    /// The path as errors name it: `/` for the root, the name between two
    /// slashes for a bucket, and a slash, the name, a slash and the key for an
    /// object.
    pub open spec fn resource_text(self) -> Seq<char> {
        match self {
            S3Path::Root => "/"@,
            S3Path::Bucket { bucket } => "/"@ + bucket@ + "/"@,
            S3Path::Object { bucket, key } => "/"@ + bucket@ + "/"@ + key@,
        }
    }
}

impl View for S3Path {
    type V = Resource;

    open spec fn view(&self) -> Resource {
        match self {
            S3Path::Root => Resource::Root,
            S3Path::Bucket { bucket } => Resource::Bucket { bucket: encode_utf8(bucket@) },
            S3Path::Object { bucket, key } => Resource::Object {
                bucket: encode_utf8(bucket@),
                key: encode_utf8(key@),
            },
        }
    }
}

/// The index after a leading ASCII byte is the start of a character.
proof fn lemma_boundary_after_ascii(bytes: Seq<u8>)
    requires
        valid_utf8(bytes),
        bytes.len() >= 1,
        bytes[0] <= 0x7f,
    ensures
        is_char_boundary(bytes, 1),
{
    reveal_with_fuel(is_char_boundary, 2);
    assert(length_of_first_scalar(bytes) == 1);
    assert(valid_utf8(pop_first_scalar(bytes)));
}

/// An index that holds an ASCII byte, or is the end, is the start of a
/// character.
proof fn lemma_boundary_at_ascii(bytes: Seq<u8>, index: int)
    requires
        valid_utf8(bytes),
        0 <= index <= bytes.len(),
        index < bytes.len() ==> bytes[index] <= 0x7f,
    ensures
        is_char_boundary(bytes, index),
{
    if index == bytes.len() {
        is_char_boundary_start_end_of_seq(bytes);
    } else {
        is_char_boundary_iff_not_is_continuation_byte(bytes, index);
    }
}

impl S3Path {
    /// Whether `name` may name a bucket.
    #[must_use]
    pub fn check_bucket_name(name: &str) -> (ok: bool)
        ensures
            ok == valid_bucket_name(name.spec_bytes()),
    {
        let bytes = name.as_bytes();
        let len = bytes.len();
        if len < 3 || len > 63 {
            return false;
        }
        let mut i: usize = 0;
        while i < len
            invariant
                i <= len,
                len == bytes@.len(),
                bytes@ == name.spec_bytes(),
                forall|x: int| 0 <= x < i ==> is_name_byte(#[trigger] bytes@[x]),
            decreases len - i,
        {
            let b = bytes[i];
            let allowed = (0x61 <= b && b <= 0x7a) || (0x30 <= b && b <= 0x39) || b == DOT || b
                == HYPHEN;
            if !allowed {
                assert(!is_name_byte(bytes@[i as int]));
                return false;
            }
            i = i + 1;
        }
        let first = bytes[0];
        if !((0x61 <= first && first <= 0x7a) || (0x30 <= first && first <= 0x39)) {
            return false;
        }
        let last = bytes[len - 1];
        if !((0x61 <= last && last <= 0x7a) || (0x30 <= last && last <= 0x39)) {
            return false;
        }
        if is_ipv4_literal(bytes) {
            return false;
        }
        if bytes[0] == 0x78 && bytes[1] == 0x6e && bytes[2] == HYPHEN && len >= 4 && bytes[3]
            == HYPHEN {
            proof {
                assert(bytes@.subrange(0, 4) =~= punycode_prefix());
            }
            return false;
        }
        proof {
            if len >= 4 && bytes@.subrange(0, 4) == punycode_prefix() {
                let head = bytes@.subrange(0, 4);
                assert(head[0] == bytes@[0] && head[1] == bytes@[1] && head[2] == bytes@[2]
                    && head[3] == bytes@[3]);
                assert(false);
            }
        }
        true
    }

    /// Whether `key` may name an object: its UTF-8 encoding is at most 1024
    /// bytes long.
    #[must_use]
    pub fn check_key(key: &str) -> (ok: bool)
        ensures
            ok == valid_key(key.spec_bytes()),
    {
        key.as_bytes().len() <= MAX_KEY_LEN
    }

    /// Resolves a decoded path.
    ///
    /// The result is `Ok` exactly where `resolve` gives a resource, and holds
    /// that resource; else it is the error of the kind that `resolve` gives,
    /// with the kind's own message.
    pub fn try_from_path(path: &str) -> (resolved: Result<Self, S3Error>)
        ensures
            match resolve(path.spec_bytes()) {
                Ok(resource) => resolved matches Ok(found) && found@ == resource,
                Err(kind) => resolved matches Err(error) && error@ == S3ErrorView::plain(kind),
            },
    {
        let bytes = path.as_bytes();
        if bytes.len() == 0 || bytes[0] != SLASH {
            return Err(S3Error::of_kind(S3ErrorCodeKind::InvalidURI));
        }
        proof {
            encode_utf8_valid_utf8(path@);
            lemma_boundary_after_ascii(path.spec_bytes());
        }
        let (_, rest) = path.split_at(1);
        let rest_bytes = rest.as_bytes();
        let rest_len = rest_bytes.len();
        assert(rest_bytes@ =~= path.spec_bytes().drop_first());
        if rest_len == 0 {
            return Ok(S3Path::Root);
        }
        let mut n: usize = 0;
        while n < rest_len && rest_bytes[n] != SLASH
            invariant
                n <= rest_len,
                rest_len == rest_bytes@.len(),
                forall|x: int| 0 <= x < n ==> rest_bytes@[x] != SLASH,
            decreases rest_len - n,
        {
            n = n + 1;
        }
        proof {
            lemma_segment_len(rest_bytes@, n as int);
            encode_utf8_valid_utf8(rest@);
            lemma_boundary_at_ascii(rest.spec_bytes(), n as int);
        }
        let (bucket, tail) = rest.split_at(n);
        assert(bucket.spec_bytes() =~= rest_bytes@.take(n as int));
        if !Self::check_bucket_name(bucket) {
            return Err(S3Error::of_kind(S3ErrorCodeKind::InvalidBucketName));
        }
        if tail.as_bytes().len() <= 1 {
            assert(after_segment(rest_bytes@).len() == 0);
            return Ok(S3Path::Bucket { bucket: bucket.to_owned() });
        }
        proof {
            encode_utf8_valid_utf8(tail@);
            lemma_boundary_after_ascii(tail.spec_bytes());
        }
        let (_, key) = tail.split_at(1);
        assert(key.spec_bytes() =~= after_segment(rest_bytes@));
        if !Self::check_key(key) {
            return Err(S3Error::of_kind(S3ErrorCodeKind::KeyTooLongError));
        }
        Ok(S3Path::Object { bucket: bucket.to_owned(), key: key.to_owned() })
    }

    #[must_use]
    pub fn is_root(&self) -> (yes: bool)
        ensures
            yes == (self@ is Root),
    {
        matches!(*self, Self::Root)
    }

    #[must_use]
    pub fn is_bucket(&self) -> (yes: bool)
        ensures
            yes == (self@ is Bucket),
    {
        matches!(*self, Self::Bucket { .. })
    }

    #[must_use]
    pub fn is_object(&self) -> (yes: bool)
        ensures
            yes == (self@ is Object),
    {
        matches!(*self, Self::Object { .. })
    }
}

/// The value of a hexadecimal digit.
pub open spec fn hex_value(b: u8) -> Option<int> {
    if 0x30 <= b <= 0x39 {
        Some(b - 0x30)
    } else if 0x41 <= b <= 0x46 {
        Some(b - 0x41 + 10)
    } else if 0x61 <= b <= 0x66 {
        Some(b - 0x61 + 10)
    } else {
        None
    }
}

/// `raw` with each percent sign that two hexadecimal digits follow replaced,
/// together with them, by the byte that they write. Every other byte stays,
/// a percent sign that no two such digits follow too.
pub open spec fn percent_decoded(raw: Seq<u8>) -> Seq<u8>
    decreases raw.len(),
{
    if raw.len() == 0 {
        raw
    } else if raw[0] == 0x25 && raw.len() >= 3 && hex_value(raw[1]) is Some && hex_value(
        raw[2],
    ) is Some {
        seq![(hex_value(raw[1])->0 * 16 + hex_value(raw[2])->0) as u8] + percent_decoded(
            raw.skip(3),
        )
    } else {
        seq![raw[0]] + percent_decoded(raw.skip(1))
    }
}

/// The path that a raw path stands for, where its decoded bytes are text.
pub open spec fn decoded_path(raw: Seq<u8>) -> Option<Seq<u8>> {
    if valid_utf8(percent_decoded(raw)) {
        Some(percent_decoded(raw))
    } else {
        None
    }
}

/// Calls `urlencoding::decode`, which replaces every `%XY` whose `X` and `Y`
/// are hexadecimal digits by the byte `XY`, leaves all else as it is, and
/// fails where the bytes that come out are not UTF-8.
#[verifier::external_body]
fn percent_decode(raw: &str) -> (decoded: Option<String>)
    ensures
        match decoded {
            Some(text) => decoded_path(raw.spec_bytes()) == Some(encode_utf8(text@)),
            None => decoded_path(raw.spec_bytes()) is None,
        },
{
    match urlencoding::decode(raw) {
        Ok(text) => Some(text.into_owned()),
        Err(_) => None,
    }
}

impl S3Path {
    /// Resolves the path of a request as it came in, still percent-encoded.
    ///
    /// A path that does not decode is an `InvalidURI` for the empty resource.
    /// A path that decodes is resolved as `try_from_path` says, and an error
    /// names the decoded path as its resource. Every error carries
    /// `request_id`.
    pub fn from_part(request_id: &str, raw_path: &str) -> (resolved: Result<Self, S3HTTPError>)
        ensures
            match decoded_path(raw_path.spec_bytes()) {
                None => resolved matches Err(error) && error@ == (S3HTTPErrorView {
                    ressource: Seq::empty(),
                    request_id: request_id@,
                    kind: S3ErrorView::plain(S3ErrorCodeKind::InvalidURI),
                }),
                Some(path) => match resolve(path) {
                    Ok(resource) => resolved matches Ok(found) && found@ == resource,
                    Err(kind) => resolved matches Err(error) && error@ == (S3HTTPErrorView {
                        ressource: decode_utf8(path),
                        request_id: request_id@,
                        kind: S3ErrorView::plain(kind),
                    }),
                },
            },
    {
        let path = match percent_decode(raw_path) {
            Some(path) => path,
            None => {
                let error = S3HTTPError::custom(
                    "",
                    request_id,
                    S3Error::of_kind(S3ErrorCodeKind::InvalidURI),
                );
                proof {
                    reveal_strlit("");
                    assert(""@ =~= Seq::<char>::empty());
                }
                return Err(error);
            },
        };
        proof {
            encode_utf8_decode_utf8(path@);
        }
        match Self::try_from_path(path.as_str()) {
            Ok(found) => Ok(found),
            Err(error) => Err(S3HTTPError::custom(path.as_str(), request_id, error)),
        }
    }
}

/// A bucket name holds no slash.
pub proof fn lemma_name_is_one_segment(name: Seq<u8>)
    requires
        forall|i: int| 0 <= i < name.len() ==> is_name_byte(#[trigger] name[i]),
    ensures
        segment_len(name) == name.len(),
{
    assert forall|x: int| 0 <= x < name.len() implies name[x] != SLASH by {
        assert(is_name_byte(name[x]));
    }
    lemma_segment_len(name, name.len() as int);
}

/// The path of a bucket: a slash and the name, with or without a slash
/// behind it.
pub open spec fn bucket_path(name: Seq<u8>, closed: bool) -> Seq<u8> {
    if closed {
        seq![SLASH] + name + seq![SLASH]
    } else {
        seq![SLASH] + name
    }
}

/// The path of an object: a slash, the name of the bucket, a slash, the key.
pub open spec fn object_path(name: Seq<u8>, key: Seq<u8>) -> Seq<u8> {
    seq![SLASH] + name + seq![SLASH] + key
}

/// The path of a bucket resolves to the bucket exactly where its name obeys
/// the naming rule, and is rejected as an invalid bucket name where it does
/// not. The name is any run of bytes without a slash, and not empty.
pub proof fn lemma_bucket_path_classified(name: Seq<u8>, closed: bool)
    requires
        name.len() > 0,
        forall|i: int| 0 <= i < name.len() ==> name[i] != SLASH,
    ensures
        valid_bucket_name(name) ==> resolve(bucket_path(name, closed)) == Ok::<
            Resource,
            S3ErrorCodeKind,
        >(Resource::Bucket { bucket: name }),
        !valid_bucket_name(name) ==> resolve(bucket_path(name, closed)) == Err::<
            Resource,
            S3ErrorCodeKind,
        >(S3ErrorCodeKind::InvalidBucketName),
{
    let path = bucket_path(name, closed);
    let rest = path.drop_first();
    if closed {
        assert(rest =~= name + seq![SLASH]);
        assert forall|x: int| 0 <= x < name.len() implies rest[x] != SLASH by {
            assert(rest[x] == name[x]);
        }
        lemma_segment_len(rest, name.len() as int);
        assert(rest.take(name.len() as int) =~= name);
        assert(after_segment(rest) =~= Seq::<u8>::empty());
    } else {
        assert(rest =~= name);
        lemma_segment_len(rest, name.len() as int);
        assert(rest.take(name.len() as int) =~= name);
    }
}

/// The path of an object resolves by the bucket's name first and the key
/// second: an invalid name is rejected as such whatever the key; under a
/// valid name a key of at most 1024 bytes gives the object, and a longer one
/// is rejected as too long. The name is any run of bytes without a slash; the
/// key is not empty and may hold slashes.
pub proof fn lemma_object_path_classified(name: Seq<u8>, key: Seq<u8>)
    requires
        forall|i: int| 0 <= i < name.len() ==> name[i] != SLASH,
        key.len() > 0,
    ensures
        !valid_bucket_name(name) ==> resolve(object_path(name, key)) == Err::<
            Resource,
            S3ErrorCodeKind,
        >(S3ErrorCodeKind::InvalidBucketName),
        valid_bucket_name(name) && key.len() <= MAX_KEY_LEN ==> resolve(object_path(name, key))
            == Ok::<Resource, S3ErrorCodeKind>(Resource::Object { bucket: name, key }),
        valid_bucket_name(name) && key.len() > MAX_KEY_LEN ==> resolve(object_path(name, key))
            == Err::<Resource, S3ErrorCodeKind>(S3ErrorCodeKind::KeyTooLongError),
{
    let path = object_path(name, key);
    let rest = path.drop_first();
    assert(rest =~= name + seq![SLASH] + key);
    assert forall|x: int| 0 <= x < name.len() implies rest[x] != SLASH by {
        assert(rest[x] == name[x]);
    }
    lemma_segment_len(rest, name.len() as int);
    assert(rest.take(name.len() as int) =~= name);
    assert(after_segment(rest) =~= key);
}

/// Whatever resolves names a bucket that obeys the naming rule and, for an
/// object, a key that is not empty and obeys the length rule; and the path is
/// the one that these names write.
pub proof fn lemma_resolved_is_valid(path: Seq<u8>)
    ensures
        match resolve(path) {
            Ok(Resource::Root) => path == seq![SLASH],
            Ok(Resource::Bucket { bucket }) => valid_bucket_name(bucket) && (path == bucket_path(
                bucket,
                false,
            ) || path == bucket_path(bucket, true)),
            Ok(Resource::Object { bucket, key }) => valid_bucket_name(bucket) && 0 < key.len()
                <= MAX_KEY_LEN && path == object_path(bucket, key),
            Err(_) => true,
        },
{
    if path.len() > 0 && path[0] == SLASH {
        let rest = path.drop_first();
        let n = segment_len(rest);
        lemma_segment_len_bounds(rest);
        assert(path =~= seq![SLASH] + rest);
        if rest.len() > 0 {
            let bucket = rest.take(n);
            let key = after_segment(rest);
            if n < rest.len() {
                assert(rest =~= bucket + seq![SLASH] + key);
                assert(path =~= seq![SLASH] + bucket + seq![SLASH] + key);
                if key.len() == 0 {
                    assert(path =~= seq![SLASH] + bucket + seq![SLASH]);
                }
            } else {
                assert(rest =~= bucket);
                assert(path =~= seq![SLASH] + bucket);
            }
        }
    }
}

/// The first segment ends inside the sequence, at a slash or at the end.
pub proof fn lemma_segment_len_bounds(s: Seq<u8>)
    ensures
        0 <= segment_len(s) <= s.len(),
        segment_len(s) < s.len() ==> s[segment_len(s)] == SLASH,
    decreases s.len(),
{
    if s.len() > 0 && s[0] != SLASH {
        lemma_segment_len_bounds(s.drop_first());
    }
}

} // verus!

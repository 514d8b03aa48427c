//! The checksum of an element's content: its SHA-256, written in Base64.

use vstd::prelude::*;

verus! {

/// The SHA-256 digest of `data`.
pub uninterp spec fn sha256(data: Seq<u8>) -> Seq<u8>;

/// `data` in standard Base64 with padding.
pub uninterp spec fn base64(data: Seq<u8>) -> Seq<char>;

/// The checksum that is kept for content `data`.
pub open spec fn checksum_text(data: Seq<u8>) -> Seq<char> {
    base64(sha256(data))
}

/// The checksum of content that comes in pieces. It holds a `sha2::Sha256`,
/// whose inside is not looked into here.
#[verifier::external_body]
pub struct ContentDigest {
    hasher: sha2::Sha256,
}

/// The bytes that the hasher has taken in so far, in order.
pub uninterp spec fn taken(digest: ContentDigest) -> Seq<u8>;

/// Calls `Sha256::new` (`sha2::Digest`): a hasher that has taken in nothing.
#[verifier::external_body]
fn hasher_new() -> (digest: ContentDigest)
    ensures
        taken(digest) == Seq::<u8>::empty(),
{
    ContentDigest { hasher: <sha2::Sha256 as sha2::Digest>::new() }
}

/// Calls `Sha256::update` (`sha2::Digest`): the hasher takes `data` in behind
/// what it has.
#[verifier::external_body]
fn hasher_update(digest: &mut ContentDigest, data: &[u8])
    ensures
        taken(*final(digest)) == taken(*old(digest)) + data@,
{
    sha2::Digest::update(&mut digest.hasher, data)
}

/// Calls `Sha256::finalize` (`sha2::Digest`): the digest of all that the
/// hasher has taken in, which is 32 bytes long.
#[verifier::external_body]
fn hasher_finalize(digest: ContentDigest) -> (out: Vec<u8>)
    ensures
        out@ == sha256(taken(digest)),
        out@.len() == 32,
{
    sha2::Digest::finalize(digest.hasher).to_vec()
}

/// Calls `Base64::encode_string` (`base64ct::Encoding`), which fails only on
/// an input of more than a quarter of the address space.
#[verifier::external_body]
fn base64_encode(data: &[u8]) -> (text: String)
    requires
        data@.len() <= usize::MAX / 4,
    ensures
        text@ == base64(data@),
{
    <base64ct::Base64 as base64ct::Encoding>::encode_string(data)
}

impl View for ContentDigest {
    type V = Seq<u8>;

    /// The content taken in so far.
    open spec fn view(&self) -> Seq<u8> {
        taken(*self)
    }
}

impl ContentDigest {
    /// The checksum of no content yet.
    pub fn new() -> (digest: Self)
        ensures
            digest@ == Seq::<u8>::empty(),
    {
        hasher_new()
    }

    /// Takes in the next piece of the content.
    pub fn update(&mut self, piece: &[u8])
        ensures
            final(self)@ == old(self)@ + piece@,
    {
        hasher_update(self, piece);
    }

    /// The checksum of the content taken in.
    pub fn finish(self) -> (text: String)
        ensures
            text@ == checksum_text(self@),
    {
        let digest = hasher_finalize(self);
        base64_encode(digest.as_slice())
    }
}

/// The pieces of `pieces`, one behind the other.
pub open spec fn joined_pieces(pieces: Seq<Vec<u8>>) -> Seq<u8>
    decreases pieces.len(),
{
    if pieces.len() == 0 {
        Seq::empty()
    } else {
        joined_pieces(pieces.drop_last()) + pieces.last()@
    }
}

/// The checksum of content that is at hand as a whole.
pub fn checksum(content: &[u8]) -> (text: String)
    ensures
        text@ == checksum_text(content@),
{
    let mut digest = ContentDigest::new();
    digest.update(content);
    assert(digest@ =~= content@);
    digest.finish()
}

/// The checksum of content that is at hand in pieces: that of the pieces put
/// together, however the content was cut.
pub fn checksum_of_pieces(pieces: &Vec<Vec<u8>>) -> (text: String)
    ensures
        text@ == checksum_text(joined_pieces(pieces@)),
{
    let mut digest = ContentDigest::new();
    let mut i: usize = 0;
    while i < pieces.len()
        invariant
            i <= pieces@.len(),
            digest@ == joined_pieces(pieces@.take(i as int)),
        decreases pieces@.len() - i,
    {
        digest.update(pieces[i].as_slice());
        proof {
            let longer = pieces@.take(i + 1);
            assert(longer.drop_last() =~= pieces@.take(i as int));
            assert(longer.last() == pieces@[i as int]);
        }
        i = i + 1;
    }
    assert(pieces@.take(i as int) =~= pieces@);
    digest.finish()
}

/// Content that is the same has the same checksum, however it was cut into
/// pieces.
pub proof fn lemma_same_content_same_checksum(first: Seq<Vec<u8>>, second: Seq<Vec<u8>>)
    requires
        joined_pieces(first) == joined_pieces(second),
    ensures
        checksum_text(joined_pieces(first)) == checksum_text(joined_pieces(second)),
{
}

} // verus!

//! The key under which the image layers of a source directory are cached:
//! a hash of the path of the directory, written in base64 and reduced to
//! letters and digits.

use std::collections::hash_map::DefaultHasher;
use std::hash::{Hash, Hasher};
use vstd::prelude::*;
use vstd::std_specs::hash::DefaultHasherAdditionalSpecFns;

verus! {

/// What a hasher has been fed once a text was hashed into it, given what
/// it had been fed before.
pub uninterp spec fn fed_with_text(fed: Seq<Seq<u8>>, text: Seq<char>) -> Seq<Seq<u8>>;

/// The text that the standard base64 alphabet gives for the bytes, with
/// padding.
pub uninterp spec fn base64_standard(bytes: Seq<u8>) -> Seq<char>;

/// Whether the character is a letter or a digit.
pub uninterp spec fn is_alphanumeric(c: char) -> bool;

/// `Hash::hash` of std, for `str`: feeds the text to the hasher. What the
/// hasher holds afterwards depends on what it held and on the text, and on
/// nothing else.
#[verifier::external_body]
fn feed_text(hasher: &mut DefaultHasher, text: &str)
    ensures
        final(hasher)@ == fed_with_text(old(hasher)@, text@),
{
    text.hash(hasher)
}

/// `encode` of the crate base64: the bytes in the standard alphabet, with
/// padding. The call fails where the length of the text would not fit the
/// machine, so such input is left out.
#[verifier::external_body]
#[allow(deprecated)]
fn encode_base64(bytes: &Vec<u8>) -> (text: String)
    requires
        bytes@.len() / 3 * 4 + 4 <= usize::MAX,
    ensures
        text@ == base64_standard(bytes@),
{
    base64::encode(bytes)
}

/// `char::is_alphanumeric` of std.
#[verifier::external_body]
fn char_is_alphanumeric(c: char) -> (answer: bool)
    ensures
        answer == is_alphanumeric(c),
{
    c.is_alphanumeric()
}

/// `String::push` of std: the character is put at the end of the text.
#[verifier::external_body]
fn push_char(text: &mut String, c: char)
    ensures
        final(text)@ == old(text)@.push(c),
{
    text.push(c)
}

/// The hash of a text, as a fresh hasher of the standard library gives it.
pub open spec fn text_hash(text: Seq<char>) -> u64 {
    DefaultHasher::spec_finish(fed_with_text(Seq::empty(), text))
}

/// The byte of a 64-bit number at position `index`, counted from the most
/// significant one.
pub open spec fn byte_at(value: u64, index: int) -> u8 {
    ((value >> ((56 - 8 * index) as u64)) & 0xff) as u8
}

/// The eight bytes of a 64-bit number, the most significant one first.
pub open spec fn big_endian(value: u64) -> Seq<u8> {
    Seq::new(8, |index: int| byte_at(value, index))
}

/// The letters and digits of a text, in their order.
pub open spec fn alphanumerics_of(text: Seq<char>) -> Seq<char>
    decreases text.len(),
{
    if text.len() == 0 {
        Seq::empty()
    } else if is_alphanumeric(text.last()) {
        alphanumerics_of(text.drop_last()).push(text.last())
    } else {
        alphanumerics_of(text.drop_last())
    }
}

/// The cache key that belongs to a hash.
pub open spec fn cache_key_of(hash: u64) -> Seq<char> {
    alphanumerics_of(base64_standard(big_endian(hash)))
}

/// Hashes a text with a fresh hasher of the standard library.
pub fn hash_text(text: &str) -> (hash: u64)
    ensures
        hash == text_hash(text@),
{
    let mut hasher = DefaultHasher::new();
    feed_text(&mut hasher, text);
    hasher.finish()
}

/// The eight bytes of a 64-bit number, the most significant one first.
pub fn big_endian_bytes(value: u64) -> (bytes: Vec<u8>)
    ensures
        bytes@ == big_endian(value),
{
    let mut bytes: Vec<u8> = Vec::new();
    let mut index: u64 = 0;
    while index < 8
        invariant
            index <= 8,
            bytes@.len() == index,
            forall|at: int| 0 <= at < index ==> bytes@[at] == byte_at(value, at),
        decreases 8 - index,
    {
        let shift: u64 = 56 - 8 * index;
        let byte: u8 = ((value >> shift) & 0xff) as u8;
        bytes.push(byte);
        index += 1;
    }
    bytes
}

/// Takes everything out of a text that is neither a letter nor a digit.
pub fn keep_alphanumerics(text: &str) -> (kept: String)
    ensures
        kept@ == alphanumerics_of(text@),
{
    let mut kept = String::new();
    for c in it: text.chars()
        invariant
            it.seq() == text@,
            kept@ == alphanumerics_of(it.seq().take(it.index())),
    {
        let ghost upto = it.seq().take(it.index() + 1);
        assert(upto.drop_last() == it.seq().take(it.index()));
        assert(upto.last() == c);
        if char_is_alphanumeric(c) {
            push_char(&mut kept, c);
        }
    }
    assert(text@.take(text@.len() as int) == text@);
    kept
}

/// The cache key that belongs to a hash: the eight bytes of the hash in
/// base64, without what is neither letter nor digit.
pub fn cache_key_from_hash(hash: u64) -> (key: String)
    ensures
        key@ == cache_key_of(hash),
{
    let bytes = big_endian_bytes(hash);
    let encoded = encode_base64(&bytes);
    keep_alphanumerics(encoded.as_str())
}

/// The key under which the image layers of a source directory are cached.
/// The caller resolves the directory to its canonical path; where that
/// failed there is no key.
pub fn get_default_cache_key(source: Option<&str>) -> (key: Option<String>)
    ensures
        source is None <==> key is None,
        source matches Some(path) ==> key->Some_0@ == cache_key_of(text_hash(path@)),
{
    match source {
        Some(path) => Some(cache_key_from_hash(hash_text(path))),
        None => None,
    }
}

/// A cache key holds letters and digits only.
pub proof fn lemma_alphanumerics_only(text: Seq<char>)
    ensures
        forall|i: int|
            0 <= i < alphanumerics_of(text).len() ==> is_alphanumeric(
                #[trigger] alphanumerics_of(text)[i],
            ),
        alphanumerics_of(text).len() <= text.len(),
    decreases text.len(),
{
    if text.len() > 0 {
        lemma_alphanumerics_only(text.drop_last());
    }
}

} // verus!

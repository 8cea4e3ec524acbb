//! The fixed-capacity containers of `heapless` that the configuration and the
//! line preprocessor keep their text in. Each container is opaque to Verus;
//! what it holds is named by a spec function, and every method that the
//! library calls has a wrapper whose contract states what `heapless` 0.8 does
//! to those contents.

use vstd::prelude::*;
use vstd::utf8::encode_utf8;

verus! {

/// The byte capacity of every text field of the configuration.
pub const TEXT_CAPACITY: usize = 32;

/// The capacity, in bytes, of the line preprocessor's shadow of the input line.
pub const LINE_CAPACITY: usize = 256;

#[verifier::external_type_specification]
#[verifier::external_body]
pub struct ExHeaplessString<const N: usize>(heapless::String<N>);

#[verifier::external_type_specification]
#[verifier::external_body]
#[verifier::reject_recursive_types(T)]
pub struct ExHeaplessVec<T, const N: usize>(heapless::Vec<T, N>);

/// The characters held by a 32-byte `heapless::String`.
pub uninterp spec fn text_chars(s: heapless::String<32>) -> Seq<char>;

/// The bytes held by a 256-byte `heapless::Vec`.
pub uninterp spec fn line_bytes(v: heapless::Vec<u8, 256>) -> Seq<u8>;

/// `heapless::String::new`: an empty string.
#[verifier::external_body]
pub fn text_new() -> (s: heapless::String<32>)
    ensures
        text_chars(s) == Seq::<char>::empty(),
{
    heapless::String::new()
}

/// `heapless::String::push`: appends `c` when its UTF-8 encoding still fits
/// in the 32 bytes, and otherwise leaves the string unchanged and fails.
#[verifier::external_body]
pub fn text_push(s: &mut heapless::String<32>, c: char) -> (ok: bool)
    ensures
        ok == (encode_utf8(text_chars(*old(s)).push(c)).len() <= TEXT_CAPACITY),
        ok ==> text_chars(*final(s)) == text_chars(*old(s)).push(c),
        !ok ==> text_chars(*final(s)) == text_chars(*old(s)),
{
    s.push(c).is_ok()
}

/// `heapless::String::as_str`: the string's contents.
#[verifier::external_body]
pub fn text_as_str(s: &heapless::String<32>) -> (r: &str)
    ensures
        r@ == text_chars(*s),
{
    s.as_str()
}

/// `heapless::Vec::new`: an empty vector.
#[verifier::external_body]
pub fn line_new() -> (v: heapless::Vec<u8, 256>)
    ensures
        line_bytes(v) == Seq::<u8>::empty(),
{
    heapless::Vec::new()
}

/// `heapless::Vec::push`: appends `b` unless the vector already holds 256
/// bytes, in which case it is left unchanged.
#[verifier::external_body]
pub fn line_push(v: &mut heapless::Vec<u8, 256>, b: u8) -> (ok: bool)
    ensures
        ok == (line_bytes(*old(v)).len() < LINE_CAPACITY),
        ok ==> line_bytes(*final(v)) == line_bytes(*old(v)).push(b),
        !ok ==> line_bytes(*final(v)) == line_bytes(*old(v)),
{
    v.push(b).is_ok()
}

/// `heapless::Vec::pop`: removes and returns the last byte, if any.
#[verifier::external_body]
pub fn line_pop(v: &mut heapless::Vec<u8, 256>) -> (r: Option<u8>)
    ensures
        line_bytes(*old(v)).len() == 0 ==> r is None && line_bytes(*final(v)) == line_bytes(*old(v)),
        line_bytes(*old(v)).len() > 0 ==> r == Some(line_bytes(*old(v)).last())
            && line_bytes(*final(v)) == line_bytes(*old(v)).drop_last(),
{
    v.pop()
}

/// `heapless::Vec::clear`: removes every byte.
#[verifier::external_body]
pub fn line_clear(v: &mut heapless::Vec<u8, 256>)
    ensures
        line_bytes(*final(v)) == Seq::<u8>::empty(),
{
    v.clear()
}

/// `heapless::Vec::as_slice`: the vector's contents.
#[verifier::external_body]
pub fn line_as_slice(v: &heapless::Vec<u8, 256>) -> (r: &[u8])
    ensures
        r@ == line_bytes(*v),
{
    v.as_slice()
}

} // verus!

//! Fixed-capacity strings and sample buffers, provided by the `heapless`
//! crate.
//!
//! Everything the rest of the crate states about these containers goes
//! through the uninterpreted content functions below: `str32_chars`,
//! `str64_chars` and `buf_samples` name what a container holds, and each
//! wrapper's contract says how one `heapless` call changes those contents,
//! exactly as the crate's source shows.

use vstd::prelude::*;
use vstd::string::StringSliceAdditionalSpecFns;

verus! {

#[verifier::external_type_specification]
#[verifier::external_body]
pub struct ExHeaplessString<const N: usize>(heapless::String<N>);

#[verifier::external_type_specification]
#[verifier::external_body]
#[verifier::reject_recursive_types(T)]
pub struct ExHeaplessVec<T, const N: usize>(heapless::Vec<T, N>);

/// The characters held by a 32-byte bounded string.
pub uninterp spec fn str32_chars(s: heapless::String<32>) -> Seq<char>;

/// The characters held by a 64-byte bounded string.
pub uninterp spec fn str64_chars(s: heapless::String<64>) -> Seq<char>;

/// The samples held by a fixed-capacity sample buffer.
pub uninterp spec fn buf_samples(v: heapless::Vec<i8, 616>) -> Seq<i8>;

/// Relies on `heapless::String::new`: the new string is empty.
#[verifier::external_body]
pub(crate) fn str32_new() -> (r: heapless::String<32>)
    ensures
        str32_chars(r) == Seq::<char>::empty(),
{
    heapless::String::new()
}

/// Relies on `heapless::String::new`: the new string is empty.
#[verifier::external_body]
pub(crate) fn str64_new() -> (r: heapless::String<64>)
    ensures
        str64_chars(r) == Seq::<char>::empty(),
{
    heapless::String::new()
}

/// Relies on `heapless::String::try_from::<&str>`: the copy succeeds exactly
/// when the UTF-8 encoding of `s` fits the 32-byte capacity, and then holds
/// the same characters as `s`.
#[verifier::external_body]
pub(crate) fn str32_from(s: &str) -> (r: Result<heapless::String<32>, ()>)
    ensures
        r is Ok <==> s.spec_bytes().len() <= 32,
        r matches Ok(t) ==> str32_chars(t) == s@,
{
    heapless::String::try_from(s)
}

/// Relies on `heapless::String::try_from::<&str>`: the copy succeeds exactly
/// when the UTF-8 encoding of `s` fits the 64-byte capacity, and then holds
/// the same characters as `s`.
#[verifier::external_body]
pub(crate) fn str64_from(s: &str) -> (r: Result<heapless::String<64>, ()>)
    ensures
        r is Ok <==> s.spec_bytes().len() <= 64,
        r matches Ok(t) ==> str64_chars(t) == s@,
{
    heapless::String::try_from(s)
}

/// Relies on `heapless::String::as_str` and `str::is_empty`: the string's
/// UTF-8 bytes are empty exactly when it holds no characters.
#[verifier::external_body]
pub(crate) fn str32_is_empty(s: &heapless::String<32>) -> (r: bool)
    ensures
        r <==> str32_chars(*s).len() == 0,
{
    s.as_str().is_empty()
}

/// Relies on `heapless::String`'s `Clone`: the clone holds the same
/// characters.
#[verifier::external_body]
pub(crate) fn str32_clone(s: &heapless::String<32>) -> (r: heapless::String<32>)
    ensures
        str32_chars(r) == str32_chars(*s),
{
    s.clone()
}

/// Relies on `heapless::String`'s `Clone`: the clone holds the same
/// characters.
#[verifier::external_body]
pub(crate) fn str64_clone(s: &heapless::String<64>) -> (r: heapless::String<64>)
    ensures
        str64_chars(r) == str64_chars(*s),
{
    s.clone()
}

/// Relies on `heapless::Vec::new`: the new buffer is empty.
#[verifier::external_body]
pub(crate) fn sample_buf_new() -> (r: heapless::Vec<i8, 616>)
    ensures
        buf_samples(r) == Seq::<i8>::empty(),
{
    heapless::Vec::new()
}

/// Relies on `heapless::Vec::push`: the sample is appended when the buffer
/// is below its capacity of 616, and handed back untouched otherwise.
#[verifier::external_body]
pub(crate) fn sample_buf_push(v: &mut heapless::Vec<i8, 616>, x: i8) -> (r: Result<(), i8>)
    ensures
        buf_samples(*old(v)).len() < 616 ==> {
            &&& r is Ok
            &&& buf_samples(*final(v)) == buf_samples(*old(v)).push(x)
        },
        buf_samples(*old(v)).len() >= 616 ==> {
            &&& r == Result::<(), i8>::Err(x)
            &&& buf_samples(*final(v)) == buf_samples(*old(v))
        },
{
    v.push(x)
}

/// Relies on `<[i8]>::len` through `heapless::Vec`'s deref to a slice of its
/// first `len` elements.
#[verifier::external_body]
pub(crate) fn sample_buf_len(v: &heapless::Vec<i8, 616>) -> (r: usize)
    ensures
        r == buf_samples(*v).len(),
{
    v.len()
}

/// Relies on `<[i8]>::index` through `heapless::Vec`'s deref to a slice of
/// its first `len` elements.
#[verifier::external_body]
pub(crate) fn sample_buf_get(v: &heapless::Vec<i8, 616>, i: usize) -> (r: i8)
    requires
        i < buf_samples(*v).len(),
    ensures
        r == buf_samples(*v)[i as int],
{
    v[i]
}

/// Relies on `heapless::Vec`'s `Clone`: the clone holds the same samples.
#[verifier::external_body]
pub(crate) fn sample_buf_clone(v: &heapless::Vec<i8, 616>) -> (r: heapless::Vec<i8, 616>)
    ensures
        buf_samples(r) == buf_samples(*v),
{
    v.clone()
}

} // verus!

//! Reading the byte strings that a kernel hands out.

use vstd::prelude::*;
use vstd::slice::slice_subrange;
use vstd::string::StringSliceAdditionalSpecFns;
use vstd::utf8::{
    encode_utf8_valid_utf8, is_char_boundary, length_of_first_scalar, pop_first_scalar, valid_utf8,
};

verus! {

/// The C string at the start of `bytes`: what stands before the first zero
/// byte. There is none where no byte is zero.
pub open spec fn c_str_bytes(bytes: Seq<u8>) -> Option<Seq<u8>> {
    match bytes.index_of_first(0u8) {
        Some(end) => Some(bytes.take(end)),
        None => None,
    }
}

/// How many times `byte` stands at the start of `bytes` without a break.
pub open spec fn leading_run(bytes: Seq<u8>, byte: u8) -> nat
    decreases bytes.len(),
{
    if bytes.len() > 0 && bytes[0] == byte {
        1 + leading_run(bytes.drop_first(), byte)
    } else {
        0
    }
}

/// `bytes` without the run of `byte` at its start.
pub open spec fn without_leading(bytes: Seq<u8>, byte: u8) -> Seq<u8> {
    bytes.skip(leading_run(bytes, byte) as int)
}

/// The leading run is the longest stretch of `byte` at the start: every byte
/// in it is `byte`, and what follows it, if anything, is another byte.
pub proof fn lemma_leading_run(bytes: Seq<u8>, byte: u8)
    ensures
        leading_run(bytes, byte) <= bytes.len(),
        forall|i: int| 0 <= i < leading_run(bytes, byte) ==> bytes[i] == byte,
        leading_run(bytes, byte) < bytes.len() ==> bytes[leading_run(bytes, byte) as int] != byte,
    decreases bytes.len(),
{
    if bytes.len() > 0 && bytes[0] == byte {
        let rest = bytes.drop_first();
        lemma_leading_run(rest, byte);
        assert forall|i: int| 0 <= i < leading_run(bytes, byte) implies bytes[i] == byte by {
            if i > 0 {
                assert(bytes[i] == rest[i - 1]);
            }
        }
        if leading_run(bytes, byte) < bytes.len() {
            assert(bytes[leading_run(bytes, byte) as int] == rest[leading_run(rest, byte) as int]);
        }
    }
}

/// A stretch of `byte` at the start of `bytes` that ends before another byte,
/// or with `bytes`, is the leading run.
proof fn lemma_leading_run_is(bytes: Seq<u8>, byte: u8, n: int)
    requires
        0 <= n <= bytes.len(),
        forall|i: int| 0 <= i < n ==> bytes[i] == byte,
        n < bytes.len() ==> bytes[n] != byte,
    ensures
        leading_run(bytes, byte) == n,
    decreases n,
{
    if n > 0 {
        let rest = bytes.drop_first();
        assert forall|i: int| 0 <= i < n - 1 implies rest[i] == byte by {
            assert(rest[i] == bytes[i + 1]);
        }
        lemma_leading_run_is(rest, byte, n - 1);
    }
}

/// In well-formed UTF-8, a character starts after a stretch of ASCII bytes.
proof fn lemma_char_boundary_after_ascii(bytes: Seq<u8>, n: int)
    requires
        valid_utf8(bytes),
        0 <= n <= bytes.len(),
        forall|i: int| 0 <= i < n ==> bytes[i] <= 0x7f,
    ensures
        is_char_boundary(bytes, n),
    decreases n,
{
    if n > 0 {
        assert(bytes[0] <= 0x7f);
        assert(length_of_first_scalar(bytes) == 1);
        let rest = pop_first_scalar(bytes);
        assert(valid_utf8(rest));
        assert forall|i: int| 0 <= i < n - 1 implies rest[i] <= 0x7f by {
            assert(rest[i] == bytes[i + 1]);
        }
        lemma_char_boundary_after_ascii(rest, n - 1);
    }
}

/// Reads bytes as text, where they are well-formed UTF-8.
///
/// This is `core::str::from_utf8`, with its error turned into `None`. Its
/// documentation promises a string slice over the very same bytes if they
/// are valid UTF-8, and an error if they are not; nothing here is proved.
#[verifier::external_body]
pub(crate) fn str_from_utf8<'a>(bytes: &'a [u8]) -> (r: Option<&'a str>)
    ensures
        r is Some <==> valid_utf8(bytes@),
        r matches Some(text) ==> text.spec_bytes() == bytes@,
{
    match core::str::from_utf8(bytes) {
        Ok(text) => Some(text),
        Err(_) => None,
    }
}

/// The C string at the start of a buffer: the bytes before the first zero
/// byte, or nothing where the buffer holds no zero byte.
pub fn until_nul<'a>(bytes: &'a [u8]) -> (r: Option<&'a [u8]>)
    ensures
        r is Some <==> bytes@.contains(0u8),
        r matches Some(head) ==> c_str_bytes(bytes@) == Some(head@),
        r is None ==> c_str_bytes(bytes@) is None,
        r matches Some(head) ==> head@.len() < bytes@.len() && bytes@[head@.len() as int] == 0,
        r matches Some(head) ==> head@ == bytes@.take(head@.len() as int),
        r matches Some(head) ==> forall|i: int| 0 <= i < head@.len() ==> head@[i] != 0,
{
    let mut end: usize = 0;
    while end < bytes.len()
        invariant
            end <= bytes@.len(),
            forall|i: int| 0 <= i < end ==> bytes@[i] != 0,
        decreases bytes@.len() - end,
    {
        if bytes[end] == 0 {
            proof {
                assert(bytes@.contains(0u8));
                bytes@.index_of_first_ensures(0u8);
                let first = bytes@.index_of_first(0u8).unwrap();
                assert(bytes@[first] == 0);
                assert(bytes@[end as int] == 0);
                assert(first == end);
            }
            return Some(slice_subrange(bytes, 0, end));
        }
        end = end + 1;
    }
    proof {
        assert(!bytes@.contains(0u8));
        bytes@.index_of_first_ensures(0u8);
    }
    None
}

/// A text without the slashes at its start.
pub fn strip_leading_slashes<'a>(text: &'a str) -> (r: &'a str)
    ensures
        r.spec_bytes() == without_leading(text.spec_bytes(), 0x2f),
        r.spec_bytes().len() > 0 ==> r.spec_bytes()[0] != 0x2f,
        forall|i: int|
            0 <= i < text.spec_bytes().len() - r.spec_bytes().len() ==> text.spec_bytes()[i]
                == 0x2f,
{
    let bytes = text.as_bytes();
    let mut run: usize = 0;
    while run < bytes.len() && bytes[run] == 0x2f
        invariant
            run <= bytes@.len(),
            forall|i: int| 0 <= i < run ==> bytes@[i] == 0x2f,
        decreases bytes@.len() - run,
    {
        run = run + 1;
    }
    proof {
        encode_utf8_valid_utf8(text@);
        lemma_char_boundary_after_ascii(bytes@, run as int);
        lemma_leading_run_is(bytes@, 0x2f, run as int);
    }
    let (_, rest) = text.split_at(run);
    rest
}

} // verus!

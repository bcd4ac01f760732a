//! What the library relies on from the `bytes` crate's shared buffer.

use vstd::prelude::*;

use bytes::Bytes;

verus! {

#[verifier::external_type_specification]
#[verifier::external_body]
pub struct ExBytes(Bytes);

/// The bytes that a `Bytes` handle refers to.
pub uninterp spec fn bytes_contents(b: Bytes) -> Seq<u8>;

/// Relies on `Bytes::new`: an empty handle.
pub assume_specification[ Bytes::new ]() -> (r: Bytes)
    ensures
        bytes_contents(r) == Seq::<u8>::empty(),
;

/// Relies on `Bytes::len`: the number of bytes referred to.
pub assume_specification[ Bytes::len ](b: &Bytes) -> (r: usize)
    ensures
        r == bytes_contents(*b).len(),
;

/// Relies on `Bytes::is_empty`: whether no byte is referred to.
pub assume_specification[ Bytes::is_empty ](b: &Bytes) -> (r: bool)
    ensures
        r == (bytes_contents(*b).len() == 0),
;

/// Relies on `Bytes::from_static`: the handle refers to exactly the given bytes.
pub assume_specification[ Bytes::from_static ](bytes: &'static [u8]) -> (r: Bytes)
    ensures
        bytes_contents(r) == bytes@,
;

/// Relies on `Bytes`'s `Clone`: a new handle to the same bytes.
pub assume_specification[ <Bytes as Clone>::clone ](b: &Bytes) -> (r: Bytes)
    ensures
        bytes_contents(r) == bytes_contents(*b),
;

/// Relies on `Bytes`'s `From<String>`: the handle takes over the string's bytes.
#[verifier::external_body]
pub(crate) fn bytes_from_string(s: String) -> (r: Bytes)
    ensures
        bytes_contents(r) == vstd::utf8::encode_utf8(s@),
{
    Bytes::from(s)
}

/// Relies on `Bytes`'s `AsRef<[u8]>`: a view of the bytes referred to.
#[verifier::external_body]
pub(crate) fn bytes_as_slice(b: &Bytes) -> (r: &[u8])
    ensures
        r@ == bytes_contents(*b),
{
    AsRef::<[u8]>::as_ref(b)
}

} // verus!
